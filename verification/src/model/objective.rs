//! Objectives: learning goals that topics of graphs satisfy or presuppose.

use vstd::prelude::*;

use crate::api::search::{contains_id, search_result, SearchResultGraph};
use crate::api::users::{response_user, ResponseUser};
use crate::model::knowledge_graph::{KnowledgeGraph, PreviewGraph};
use crate::model::topic::PreviewTopic;
use crate::model::user::User;

verus! {

/// An objective. `id` is absent until the database assigns one.
#[derive(Debug, PartialEq)]
pub struct Objective {
    pub id: Option<i64>,
    pub title: String,
    pub description: String,
}

impl Clone for Objective {
    fn clone(&self) -> (r: Self)
        ensures
            r == *self,
    {
        Objective { id: self.id, title: self.title.clone(), description: self.description.clone() }
    }
}

/// Topic `topic` of graph `knowledge_graph_id` presupposes objective
/// `objective`, which topic `suggested_topic` of graph `suggested_graph`
/// teaches.
#[derive(Debug, PartialEq, Eq, Structural, Clone, Copy)]
pub struct ObjectivePrerequisite {
    pub knowledge_graph_id: u128,
    pub topic: i64,
    pub objective: i64,
    pub suggested_topic: i64,
    pub suggested_graph: u128,
}

/// Topic `topic` of graph `knowledge_graph_id` satisfies objective `objective`.
#[derive(Debug, PartialEq, Eq, Structural, Clone, Copy)]
pub struct ObjectiveSatisfier {
    pub knowledge_graph_id: u128,
    pub objective: i64,
    pub topic: i64,
}

/// A prerequisite as shown with a graph: the objective itself, a preview of the
/// suggested graph, and whether the viewing user has met the objective.
#[derive(Debug, PartialEq)]
pub struct ResponseObjPrerequisite {
    pub knowledge_graph_id: u128,
    pub topic: i64,
    pub objective: Objective,
    pub suggested_topic: i64,
    pub suggested_graph: PreviewGraph,
    pub satisfied: bool,
}

/// A satisfier as shown: the topic and the objective.
#[derive(Debug, PartialEq)]
pub struct ResponseObjSatisfier {
    pub topic: i64,
    pub objective: Objective,
}

/// The shown form of a prerequisite row: the prerequisite, its objective, the
/// suggested graph, and the user's record of meeting the objective if any.
pub open spec fn prerequisite_response(
    prereq: ObjectivePrerequisite,
    obj: Objective,
    suggested: KnowledgeGraph,
    met: Option<i64>,
) -> ResponseObjPrerequisite {
    ResponseObjPrerequisite {
        knowledge_graph_id: prereq.knowledge_graph_id,
        topic: prereq.topic,
        objective: obj,
        satisfied: met is Some,
        suggested_topic: prereq.suggested_topic,
        suggested_graph: PreviewGraph {
            id: suggested.id,
            name: suggested.name,
            description: suggested.description,
        },
    }
}

/// A prerequisite is shown with its own graph, topic, objective and suggested
/// topic, a preview of the suggested graph, and as satisfied exactly when the
/// viewer has a record of meeting the objective.
pub proof fn lemma_prerequisite_response(
    prereq: ObjectivePrerequisite,
    obj: Objective,
    suggested: KnowledgeGraph,
    met: Option<i64>,
)
    ensures
        prerequisite_response(prereq, obj, suggested, met).knowledge_graph_id == prereq.knowledge_graph_id,
        prerequisite_response(prereq, obj, suggested, met).topic == prereq.topic,
        prerequisite_response(prereq, obj, suggested, met).objective == obj,
        prerequisite_response(prereq, obj, suggested, met).suggested_topic == prereq.suggested_topic,
        prerequisite_response(prereq, obj, suggested, met).suggested_graph.id == suggested.id,
        prerequisite_response(prereq, obj, suggested, met).suggested_graph.name == suggested.name,
        prerequisite_response(prereq, obj, suggested, met).suggested_graph.description == suggested.description,
        prerequisite_response(prereq, obj, suggested, met).satisfied == (met is Some),
{
}

impl ResponseObjPrerequisite {
    /// The shown form of one prerequisite row.
    pub fn from_row(
        prereq: ObjectivePrerequisite,
        obj: Objective,
        suggested: KnowledgeGraph,
        met: Option<i64>,
    ) -> (r: ResponseObjPrerequisite)
        ensures
            r == prerequisite_response(prereq, obj, suggested, met),
            r.knowledge_graph_id == prereq.knowledge_graph_id,
            r.topic == prereq.topic,
            r.objective == obj,
            r.suggested_topic == prereq.suggested_topic,
            r.suggested_graph.id == suggested.id,
            r.suggested_graph.name == suggested.name,
            r.suggested_graph.description == suggested.description,
            r.satisfied == (met is Some),
    {
        ResponseObjPrerequisite {
            knowledge_graph_id: prereq.knowledge_graph_id,
            topic: prereq.topic,
            objective: obj,
            satisfied: met.is_some(),
            suggested_topic: prereq.suggested_topic,
            suggested_graph: suggested.preview(),
        }
    }
}

/// A row of the satisfiers of an objective: a satisfying topic, its graph and
/// the graph's author.
pub type SatisfierRow = (PreviewTopic, KnowledgeGraph, User);

/// A graph that satisfies an objective, with its satisfying topics.
#[derive(Debug, PartialEq)]
pub struct ObjectiveSatisfierSearchResult {
    pub graph: SearchResultGraph,
    pub topics: Vec<PreviewTopic>,
}

/// The graph ids of `rows`, in order.
pub open spec fn row_graph_ids(rows: Seq<SatisfierRow>) -> Seq<u128> {
    rows.map_values(|row: SatisfierRow| row.1.id)
}

/// Whether position `i` of `ids` holds the first occurrence of its id.
pub open spec fn is_first_occurrence(ids: Seq<u128>, i: int) -> bool {
    forall|j: int| 0 <= j < i ==> ids[j] != ids[i]
}

/// The positions of the first occurrences of the ids of `ids`, in increasing
/// order.
pub open spec fn first_occurrences(ids: Seq<u128>) -> Seq<int>
    decreases ids.len(),
{
    if ids.len() == 0 {
        Seq::empty()
    } else {
        let earlier = first_occurrences(ids.drop_last());
        if is_first_occurrence(ids, ids.len() - 1) {
            earlier.push(ids.len() - 1)
        } else {
            earlier
        }
    }
}

/// The topics of the rows of `rows` that belong to graph `id`, in order.
pub open spec fn topics_of_graph(rows: Seq<SatisfierRow>, id: u128) -> Seq<PreviewTopic>
    decreases rows.len(),
{
    if rows.len() == 0 {
        Seq::empty()
    } else {
        let earlier = topics_of_graph(rows.drop_last(), id);
        if rows.last().1.id == id {
            earlier.push(rows.last().0)
        } else {
            earlier
        }
    }
}

/// The positions in `v`, as integers.
pub open spec fn positions(v: Seq<usize>) -> Seq<int> {
    v.map_values(|k: usize| k as int)
}

/// The entry of the graph of row `row` among the satisfiers of an objective:
/// nobody is signed in there, so it is not liked.
pub open spec fn satisfier_entry(rows: Seq<SatisfierRow>, row: int) -> SearchResultGraph {
    search_result(rows[row].1, response_user(rows[row].2), false)
}

/// The positions of the rows that hold the first occurrence of their graph.
fn first_graph_rows(rows: &Vec<SatisfierRow>) -> (r: Vec<usize>)
    ensures
        positions(r@) == first_occurrences(row_graph_ids(rows@)),
        forall|k: int| 0 <= k < r.len() ==> r@[k] < rows.len(),
{
    let ghost ids = row_graph_ids(rows@);
    let mut firsts: Vec<usize> = Vec::new();
    let mut seen: Vec<u128> = Vec::new();
    for i in 0..rows.len()
        invariant
            ids == row_graph_ids(rows@),
            positions(firsts@) == first_occurrences(ids.take(i as int)),
            forall|k: int| 0 <= k < firsts.len() ==> firsts@[k] < i,
            forall|x: u128| seen@.contains(x) <==> ids.take(i as int).contains(x),
    {
        let id = rows[i].1.id;
        let ghost before = firsts@;
        let prefix = Ghost(ids.take(i as int));
        let next = Ghost(ids.take(i + 1));
        assert(next@.drop_last() =~= prefix@);
        assert(next@[i as int] == id);
        assert(is_first_occurrence(next@, i as int) <==> !prefix@.contains(id)) by {
            if !is_first_occurrence(next@, i as int) {
                let j = choose|j: int| 0 <= j < i && next@[j] == next@[i as int];
                assert(prefix@[j] == id);
            }
            if prefix@.contains(id) {
                let j = choose|j: int| 0 <= j < prefix@.len() && prefix@[j] == id;
                assert(next@[j] == id);
            }
        }
        let ghost seen_before = seen@;
        if !contains_id(&seen, id) {
            firsts.push(i);
            seen.push(id);
            assert(positions(firsts@) =~= positions(before).push(i as int));
        }
        assert(seen_before.contains(id) ==> seen@ == seen_before);
        assert(!seen_before.contains(id) ==> seen@ == seen_before.push(id));
        assert forall|x: u128| seen@.contains(x) <==> next@.contains(x) by {
            if seen_before.contains(x) {
                let j = choose|j: int| 0 <= j < seen_before.len() && seen_before[j] == x;
                assert(seen@[j] == x);
                let k = choose|k: int| 0 <= k < prefix@.len() && prefix@[k] == x;
                assert(next@[k] == x);
            }
            if x == id {
                assert(next@[i as int] == x);
                if !seen_before.contains(id) {
                    assert(seen@[seen@.len() - 1] == id);
                }
            }
            if next@.contains(x) {
                let j = choose|j: int| 0 <= j < next@.len() && next@[j] == x;
                if j < i {
                    assert(prefix@[j] == x);
                }
            }
            if seen@.contains(x) && x != id {
                let j = choose|j: int| 0 <= j < seen@.len() && seen@[j] == x;
                assert(seen_before[j] == x);
            }
        }
    }
    assert(ids.take(rows.len() as int) =~= ids);
    firsts
}

/// The topics of the rows that belong to graph `id`, in order.
fn topics_in_graph(rows: &Vec<SatisfierRow>, id: u128) -> (r: Vec<PreviewTopic>)
    ensures
        r@ == topics_of_graph(rows@, id),
{
    let mut out: Vec<PreviewTopic> = Vec::new();
    for i in 0..rows.len()
        invariant
            out@ == topics_of_graph(rows@.take(i as int), id),
    {
        assert(rows@.take(i + 1).drop_last() =~= rows@.take(i as int));
        if rows[i].1.id == id {
            out.push(rows[i].0.clone());
        }
    }
    assert(rows@.take(rows.len() as int) =~= rows@);
    out
}

/// The first occurrences of the ids of a list name each of its ids exactly
/// once: they are increasing positions of the list, each the first of its id,
/// their ids are distinct, and every id of the list is among them.
pub proof fn lemma_first_occurrences(ids: Seq<u128>)
    ensures
        forall|k: int|
            0 <= k < first_occurrences(ids).len() ==> {
                &&& 0 <= #[trigger] first_occurrences(ids)[k] < ids.len()
                &&& is_first_occurrence(ids, first_occurrences(ids)[k])
            },
        forall|k1: int, k2: int|
            0 <= k1 < k2 < first_occurrences(ids).len() ==> #[trigger] first_occurrences(ids)[k1]
                < #[trigger] first_occurrences(ids)[k2],
        forall|k1: int, k2: int|
            0 <= k1 < first_occurrences(ids).len() && 0 <= k2 < first_occurrences(ids).len() && k1
                != k2 ==> ids[#[trigger] first_occurrences(ids)[k1]] != ids[#[trigger] first_occurrences(ids)[k2]],
        forall|i: int|
            0 <= i < ids.len() ==> exists|k: int|
                0 <= k < first_occurrences(ids).len() && ids[#[trigger] first_occurrences(ids)[k]] == #[trigger] ids[i],
    decreases ids.len(),
{
    let fo = first_occurrences(ids);
    if ids.len() > 0 {
        let earlier = ids.drop_last();
        lemma_first_occurrences(earlier);
        let efo = first_occurrences(earlier);
        let last = ids.len() - 1;
        assert forall|k: int| 0 <= k < efo.len() implies is_first_occurrence(ids, efo[k]) by {
            assert(is_first_occurrence(earlier, efo[k]));
            assert forall|j: int| 0 <= j < efo[k] implies #[trigger] ids[j] != ids[efo[k]] by {
                assert(earlier[j] == ids[j]);
                assert(earlier[efo[k]] == ids[efo[k]]);
            }
        }
        assert forall|k: int| 0 <= k < efo.len() implies fo[k] == efo[k] by {}
        assert forall|k1: int, k2: int|
            0 <= k1 < fo.len() && 0 <= k2 < fo.len() && k1 != k2 implies ids[#[trigger] fo[k1]] != ids[#[trigger] fo[k2]] by {
            if k1 < efo.len() && k2 < efo.len() {
                assert(earlier[efo[k1]] == ids[efo[k1]]);
                assert(earlier[efo[k2]] == ids[efo[k2]]);
            } else if k1 < efo.len() {
                assert(fo[k2] == last);
                assert(is_first_occurrence(ids, last));
            } else {
                assert(fo[k1] == last);
                assert(is_first_occurrence(ids, last));
            }
        }
        assert forall|i: int| 0 <= i < ids.len() implies exists|k: int|
            0 <= k < fo.len() && ids[#[trigger] fo[k]] == #[trigger] ids[i] by {
            if i < last {
                assert(earlier[i] == ids[i]);
                let k = choose|k: int| 0 <= k < efo.len() && earlier[#[trigger] efo[k]] == earlier[i];
                assert(fo[k] == efo[k]);
                assert(earlier[efo[k]] == ids[efo[k]]);
            } else if is_first_occurrence(ids, last) {
                assert(fo[fo.len() - 1] == last);
            } else {
                let j = choose|j: int| 0 <= j < last && ids[j] == ids[last];
                assert(earlier[j] == ids[j]);
                let k = choose|k: int| 0 <= k < efo.len() && earlier[#[trigger] efo[k]] == earlier[j];
                assert(fo[k] == efo[k]);
                assert(earlier[efo[k]] == ids[efo[k]]);
            }
        }
    }
}

/// Every satisfying topic is listed with its graph: the topic of each row is
/// among the topics of the row's graph.
pub proof fn lemma_row_topic_in_group(rows: Seq<SatisfierRow>, i: int)
    requires
        0 <= i < rows.len(),
    ensures
        topics_of_graph(rows, rows[i].1.id).contains(rows[i].0),
    decreases rows.len(),
{
    let last = rows.len() - 1;
    let earlier = rows.drop_last();
    if i < last {
        assert(earlier[i] == rows[i]);
        lemma_row_topic_in_group(earlier, i);
        let t = topics_of_graph(earlier, rows[i].1.id);
        let j = choose|j: int| 0 <= j < t.len() && t[j] == rows[i].0;
        if rows.last().1.id == rows[i].1.id {
            assert(topics_of_graph(rows, rows[i].1.id)[j] == rows[i].0);
        }
    } else {
        let t = topics_of_graph(rows, rows[i].1.id);
        assert(t[t.len() - 1] == rows[i].0);
    }
}

/// The topics listed with a graph are exactly the topics of the rows of that
/// graph, in row order.
pub proof fn lemma_topics_of_graph(rows: Seq<SatisfierRow>, id: u128)
    ensures
        topics_of_graph(rows, id) == rows.filter(|x: SatisfierRow| x.1.id == id).map_values(|x: SatisfierRow| x.0),
    decreases rows.len(),
{
    let same = |x: SatisfierRow| x.1.id == id;
    let topic = |x: SatisfierRow| x.0;
    reveal_with_fuel(Seq::<_>::filter, 1);
    if rows.len() == 0 {
        assert(rows.filter(same) =~= Seq::<SatisfierRow>::empty());
        assert(rows.filter(same).map_values(topic) =~= topics_of_graph(rows, id));
    } else {
        let earlier = rows.drop_last();
        lemma_topics_of_graph(earlier, id);
        if rows.last().1.id == id {
            assert(rows.filter(same) == earlier.filter(same).push(rows.last()));
            assert(rows.filter(same).map_values(topic) =~= earlier.filter(same).map_values(topic).push(rows.last().0));
        } else {
            assert(rows.filter(same) == earlier.filter(same));
        }
    }
}

/// The entry of a satisfying graph shows the graph of its row as loaded, with
/// its author, and is not liked.
pub proof fn lemma_satisfier_entry(rows: Seq<SatisfierRow>, row: int)
    ensures
        satisfier_entry(rows, row).id == rows[row].1.id,
        satisfier_entry(rows, row).name == rows[row].1.name,
        satisfier_entry(rows, row).description == rows[row].1.description,
        satisfier_entry(rows, row).last_modified == rows[row].1.last_modified,
        satisfier_entry(rows, row).like_count == rows[row].1.like_count,
        satisfier_entry(rows, row).user.username == rows[row].2.username,
        satisfier_entry(rows, row).user.avatar == rows[row].2.avatar,
        !satisfier_entry(rows, row).liked,
{
}

impl Objective {
    /// The graphs that satisfy an objective, each once, in the order in which
    /// the rows first name them, each with the topics of the rows that belong
    /// to it, in row order. Nobody is signed in for this list, so no entry is
    /// liked.
    pub fn get_satisfied_graphs(rows: Vec<SatisfierRow>) -> (r: Vec<ObjectiveSatisfierSearchResult>)
        ensures
            r.len() == first_occurrences(row_graph_ids(rows@)).len(),
            forall|k: int|
                0 <= k < r.len() ==> {
                    let row = #[trigger] first_occurrences(row_graph_ids(rows@))[k];
                    &&& r@[k].graph == satisfier_entry(rows@, row)
                    &&& r@[k].topics@ == topics_of_graph(rows@, rows@[row].1.id)
                },
            forall|k: int|
                0 <= k < r.len() ==> {
                    let row = #[trigger] first_occurrences(row_graph_ids(rows@))[k];
                    let entry = r@[k].graph;
                    &&& 0 <= row < rows.len()
                    &&& forall|j: int| 0 <= j < row ==> rows@[j].1.id != rows@[row].1.id
                    &&& entry.id == rows@[row].1.id
                    &&& entry.name == rows@[row].1.name
                    &&& entry.description == rows@[row].1.description
                    &&& entry.last_modified == rows@[row].1.last_modified
                    &&& entry.like_count == rows@[row].1.like_count
                    &&& entry.user.username == rows@[row].2.username
                    &&& entry.user.avatar == rows@[row].2.avatar
                    &&& !entry.liked
                    &&& r@[k].topics@ == rows@.filter(|x: SatisfierRow| x.1.id == rows@[row].1.id).map_values(
                        |x: SatisfierRow| x.0,
                    )
                },
            forall|k1: int, k2: int|
                0 <= k1 < r.len() && 0 <= k2 < r.len() && k1 != k2 ==> #[trigger] r@[k1].graph.id
                    != #[trigger] r@[k2].graph.id,
            forall|i: int|
                0 <= i < rows.len() ==> exists|k: int| 0 <= k < r.len() && #[trigger] r@[k].graph.id == #[trigger] rows@[i].1.id,
    {
        let firsts = first_graph_rows(&rows);
        let ghost fo = first_occurrences(row_graph_ids(rows@));
        let mut pairs: Vec<(KnowledgeGraph, ResponseUser)> = Vec::new();
        for k in 0..firsts.len()
            invariant
                positions(firsts@) == fo,
                forall|m: int| 0 <= m < firsts.len() ==> firsts@[m] < rows.len(),
                pairs.len() == k,
                forall|m: int|
                    0 <= m < k ==> #[trigger] pairs@[m] == (rows@[fo[m]].1, response_user(rows@[fo[m]].2)),
        {
            let row = firsts[k];
            assert(fo[k as int] == row as int);
            let graph = rows[row].1.clone();
            let user = ResponseUser::from(rows[row].2.clone());
            pairs.push((graph, user));
        }
        let graphs = SearchResultGraph::get_likes(pairs, None);
        let mut out: Vec<ObjectiveSatisfierSearchResult> = Vec::new();
        for k in 0..firsts.len()
            invariant
                positions(firsts@) == fo,
                forall|m: int| 0 <= m < firsts.len() ==> firsts@[m] < rows.len(),
                graphs.len() == firsts.len(),
                forall|m: int|
                    0 <= m < firsts.len() ==> #[trigger] graphs@[m] == satisfier_entry(rows@, fo[m]),
                out.len() == k,
                forall|m: int|
                    0 <= m < k ==> {
                        &&& #[trigger] out@[m].graph == satisfier_entry(rows@, fo[m])
                        &&& out@[m].topics@ == topics_of_graph(rows@, rows@[fo[m]].1.id)
                    },
        {
            let row = firsts[k];
            assert(fo[k as int] == row as int);
            let topics = topics_in_graph(&rows, rows[row].1.id);
            out.push(ObjectiveSatisfierSearchResult { graph: graphs[k].clone(), topics });
        }
        proof {
            let ids = row_graph_ids(rows@);
            lemma_first_occurrences(ids);
            assert forall|k: int| 0 <= k < out.len() implies out@[k].topics@ == rows@.filter(
                |x: SatisfierRow| x.1.id == rows@[#[trigger] fo[k]].1.id,
            ).map_values(|x: SatisfierRow| x.0) by {
                let id = rows@[fo[k]].1.id;
                lemma_topics_of_graph(rows@, id);
                let f1 = |x: SatisfierRow| x.1.id == id;
                let f2 = |x: SatisfierRow| x.1.id == rows@[fo[k]].1.id;
                assert(f1 =~= f2);
                assert(rows@.filter(f1) == rows@.filter(f2));
                assert(out@[k].graph == satisfier_entry(rows@, fo[k]));
                assert(out@[k].topics@ == topics_of_graph(rows@, id));
            }
            assert forall|k1: int, k2: int|
                0 <= k1 < out.len() && 0 <= k2 < out.len() && k1 != k2 implies #[trigger] out@[k1].graph.id
                    != #[trigger] out@[k2].graph.id by {
                assert(ids[fo[k1]] == rows@[fo[k1]].1.id);
                assert(ids[fo[k2]] == rows@[fo[k2]].1.id);
            }
            assert forall|i: int| 0 <= i < rows.len() implies exists|k: int|
                0 <= k < out.len() && #[trigger] out@[k].graph.id == #[trigger] rows@[i].1.id by {
                assert(ids[i] == rows@[i].1.id);
                let k = choose|k: int| 0 <= k < fo.len() && ids[#[trigger] fo[k]] == ids[i];
                assert(out@[k].graph.id == rows@[fo[k]].1.id);
            }
            assert forall|k: int| 0 <= k < out.len() implies forall|j: int|
                0 <= j < #[trigger] fo[k] ==> #[trigger] rows@[j].1.id != rows@[fo[k]].1.id by {
                assert forall|j: int| 0 <= j < fo[k] implies #[trigger] rows@[j].1.id != rows@[fo[k]].1.id by {
                    assert(is_first_occurrence(ids, fo[k]));
                    assert(ids[j] == rows@[j].1.id);
                    assert(ids[fo[k]] == rows@[fo[k]].1.id);
                }
            }
        }
        out
    }
}

} // verus!

//! Learning maps: a user's plan to reach goal topics, drawn from the
//! requirements that lead to them across graphs.

use vstd::prelude::*;

use crate::error::{DeductError, DeductResult};
use crate::model::topic::Topic;

verus! {

/// A learning map of user `user_id`.
#[derive(Debug, PartialEq)]
pub struct LearningMap {
    pub id: i64,
    pub user_id: i64,
    pub title: String,
}

/// A learning map as listed: id and title.
#[derive(Debug, PartialEq)]
pub struct SimpleLearningMap {
    pub id: i64,
    pub title: String,
}

/// Topic `topic_id` is a goal of learning map `learning_map_id`.
#[derive(Debug, PartialEq, Eq, Structural, Clone, Copy)]
pub struct LearningMapGoal {
    pub learning_map_id: i64,
    pub topic_id: i64,
}

/// A learning map as shown: its requirements as `(source, destination)`
/// pairs, its topics, and the topics that its user has learnt.
#[derive(Debug, PartialEq)]
pub struct ResponseLearningMap {
    pub requirements: Vec<(i64, i64)>,
    pub topics: Vec<Topic>,
    pub progress: Vec<i64>,
}

/// An edge found while walking back from the goals of a map: topic
/// `source_topic` of graph `source_graph` leads to `dest_topic` of
/// `dest_graph`; a goal itself comes with no destination.
#[derive(Debug, PartialEq, Eq, Structural, Clone, Copy)]
pub struct LearningMapLink {
    pub source_topic: i64,
    pub source_graph: u128,
    pub dest_topic: Option<i64>,
    pub dest_graph: Option<u128>,
}

/// What the edges of a map determine: the topics and graphs that it touches,
/// each once, and its requirements.
#[derive(Debug, PartialEq)]
pub struct LearningMapPlan {
    pub node_ids: Vec<i64>,
    pub graph_ids: Vec<u128>,
    pub requirements: Vec<(i64, i64)>,
}

/// The requirements of `edges`: `(source, destination)` for each edge that has
/// a destination, in order.
pub open spec fn link_requirements(edges: Seq<LearningMapLink>) -> Seq<(i64, i64)>
    decreases edges.len(),
{
    if edges.len() == 0 {
        Seq::empty()
    } else {
        let earlier = link_requirements(edges.drop_last());
        match edges.last().dest_topic {
            Some(d) => earlier.push((edges.last().source_topic, d)),
            None => earlier,
        }
    }
}

/// Whether `edge` touches topic `t`.
pub open spec fn link_has_topic(edge: LearningMapLink, t: i64) -> bool {
    edge.source_topic == t || edge.dest_topic == Some(t)
}

/// Whether `edge` touches graph `g`.
pub open spec fn link_has_graph(edge: LearningMapLink, g: u128) -> bool {
    edge.source_graph == g || edge.dest_graph == Some(g)
}

/// Whether some edge of `edges` touches topic `t`.
pub open spec fn map_has_topic(edges: Seq<LearningMapLink>, t: i64) -> bool {
    exists|i: int| 0 <= i < edges.len() && link_has_topic(#[trigger] edges[i], t)
}

/// Whether some edge of `edges` touches graph `g`.
pub open spec fn map_has_graph(edges: Seq<LearningMapLink>, g: u128) -> bool {
    exists|i: int| 0 <= i < edges.len() && link_has_graph(#[trigger] edges[i], g)
}

/// The message sent to a user who asks for a learning map that is not theirs.
pub open spec fn not_map_owner_message() -> Seq<char> {
    "User is not the owner of the given learning map"@
}

/// Adds `x` to `v` unless it is there already.
fn add_topic_id(v: &mut Vec<i64>, x: i64)
    ensures
        old(v)@.contains(x) ==> final(v)@ == old(v)@,
        !old(v)@.contains(x) ==> final(v)@ == old(v)@.push(x),
{
    let mut found = false;
    for i in 0..v.len()
        invariant
            found <==> exists|j: int| 0 <= j < i && v@[j] == x,
    {
        if v[i] == x {
            found = true;
        }
    }
    if !found {
        v.push(x);
    }
}

/// Adds `x` to `v` unless it is there already.
fn add_graph_id(v: &mut Vec<u128>, x: u128)
    ensures
        old(v)@.contains(x) ==> final(v)@ == old(v)@,
        !old(v)@.contains(x) ==> final(v)@ == old(v)@.push(x),
{
    let mut found = false;
    for i in 0..v.len()
        invariant
            found <==> exists|j: int| 0 <= j < i && v@[j] == x,
    {
        if v[i] == x {
            found = true;
        }
    }
    if !found {
        v.push(x);
    }
}

impl LearningMap {
    /// Succeeds exactly when `user_id` owns the map; otherwise the user is
    /// refused as unauthorized.
    pub fn check_owner(&self, user_id: i64) -> (r: DeductResult<()>)
        ensures
            r is Ok <==> self.user_id == user_id,
            r matches Err(e) ==> e matches DeductError::UnauthorizedUser(m) && m@ == not_map_owner_message(),
            r matches Err(e) ==> e matches DeductError::UnauthorizedUser(m) && m@ == "User is not the owner of the given learning map"@,
    {
        if self.user_id != user_id {
            let msg = "User is not the owner of the given learning map";
            proof {
                reveal_strlit("User is not the owner of the given learning map");
            }
            Err(DeductError::UnauthorizedUser(msg.to_owned()))
        } else {
            Ok(())
        }
    }

    /// The topics, graphs and requirements of a map, from the edges found by
    /// walking back from its goals. Each topic and graph touched by an edge is
    /// listed once; each edge with a destination gives a requirement, in order.
    pub fn plan(edges: &Vec<LearningMapLink>) -> (r: LearningMapPlan)
        ensures
            r.node_ids@.no_duplicates(),
            r.graph_ids@.no_duplicates(),
            forall|t: i64| r.node_ids@.contains(t) <==> map_has_topic(edges@, t),
            forall|g: u128| r.graph_ids@.contains(g) <==> map_has_graph(edges@, g),
            r.requirements@ == link_requirements(edges@),
            forall|t: i64|
                r.node_ids@.contains(t) <==> exists|i: int|
                    0 <= i < edges.len() && (edges@[i].source_topic == t || edges@[i].dest_topic == Some(t)),
            forall|g: u128|
                r.graph_ids@.contains(g) <==> exists|i: int|
                    0 <= i < edges.len() && (edges@[i].source_graph == g || edges@[i].dest_graph == Some(g)),
            r.requirements@ == edges@.filter(|e: LearningMapLink| e.dest_topic is Some).map_values(
                |e: LearningMapLink| (e.source_topic, e.dest_topic.unwrap()),
            ),
            forall|k: int|
                0 <= k < r.requirements.len() ==> exists|i: int|
                    0 <= i < edges.len() && edges@[i].source_topic == #[trigger] r.requirements@[k].0
                        && edges@[i].dest_topic == Some(r.requirements@[k].1),
            forall|i: int|
                0 <= i < edges.len() && #[trigger] edges@[i].dest_topic is Some ==> r.requirements@.contains(
                    (edges@[i].source_topic, edges@[i].dest_topic.unwrap()),
                ),
    {
        proof {
            lemma_requirements_follow_edges(edges@);
        }
        let mut node_ids: Vec<i64> = Vec::new();
        let mut graph_ids: Vec<u128> = Vec::new();
        let mut requirements: Vec<(i64, i64)> = Vec::new();
        for i in 0..edges.len()
            invariant
                node_ids@.no_duplicates(),
                graph_ids@.no_duplicates(),
                forall|t: i64| node_ids@.contains(t) <==> map_has_topic(edges@.take(i as int), t),
                forall|g: u128| graph_ids@.contains(g) <==> map_has_graph(edges@.take(i as int), g),
                requirements@ == link_requirements(edges@.take(i as int)),
        {
            let edge = edges[i];
            let ghost prefix = edges@.take(i as int);
            let ghost next = edges@.take(i + 1);
            assert(next.drop_last() =~= prefix);
            assert(next.last() == edge);
            let ghost nodes_before = node_ids@;
            let ghost graphs_before = graph_ids@;
            if let Some(dest_topic) = edge.dest_topic {
                add_topic_id(&mut node_ids, dest_topic);
                proof {
                    if !nodes_before.contains(dest_topic) {
                        assert(node_ids@[node_ids@.len() - 1] == dest_topic);
                    }
                }
                assert(node_ids@.contains(dest_topic));
                requirements.push((edge.source_topic, dest_topic));
            }
            let ghost nodes_mid = node_ids@;
            add_topic_id(&mut node_ids, edge.source_topic);
            if let Some(dest_graph) = edge.dest_graph {
                add_graph_id(&mut graph_ids, dest_graph);
                proof {
                    if !graphs_before.contains(dest_graph) {
                        assert(graph_ids@[graph_ids@.len() - 1] == dest_graph);
                    }
                }
                assert(graph_ids@.contains(dest_graph));
            }
            let ghost graphs_mid = graph_ids@;
            add_graph_id(&mut graph_ids, edge.source_graph);
            assert forall|t: i64| node_ids@.contains(t) <==> map_has_topic(next, t) by {
                if map_has_topic(prefix, t) {
                    let j = choose|j: int| 0 <= j < prefix.len() && link_has_topic(prefix[j], t);
                    assert(next[j] == prefix[j]);
                }
                if map_has_topic(next, t) {
                    let j = choose|j: int| 0 <= j < next.len() && link_has_topic(next[j], t);
                    if j < i {
                        assert(prefix[j] == next[j]);
                    }
                }
                if link_has_topic(edge, t) {
                    assert(link_has_topic(next[i as int], t));
                }
                if nodes_before.contains(t) {
                    let j = choose|j: int| 0 <= j < nodes_before.len() && nodes_before[j] == t;
                    assert(nodes_mid[j] == t);
                    assert(node_ids@[j] == t);
                }
                if node_ids@.contains(t) && !link_has_topic(edge, t) {
                    let j = choose|j: int| 0 <= j < node_ids@.len() && node_ids@[j] == t;
                    assert(nodes_mid[j] == t);
                    assert(nodes_before[j] == t);
                }
                if edge.dest_topic == Some(t) {
                    assert(nodes_mid.contains(t));
                    let j = choose|j: int| 0 <= j < nodes_mid.len() && nodes_mid[j] == t;
                    assert(node_ids@[j] == t);
                }
                if edge.source_topic == t {
                    assert(node_ids@.contains(t) || node_ids@[node_ids@.len() - 1] == t);
                }
            }
            assert forall|g: u128| graph_ids@.contains(g) <==> map_has_graph(next, g) by {
                if map_has_graph(prefix, g) {
                    let j = choose|j: int| 0 <= j < prefix.len() && link_has_graph(prefix[j], g);
                    assert(next[j] == prefix[j]);
                }
                if map_has_graph(next, g) {
                    let j = choose|j: int| 0 <= j < next.len() && link_has_graph(next[j], g);
                    if j < i {
                        assert(prefix[j] == next[j]);
                    }
                }
                if link_has_graph(edge, g) {
                    assert(link_has_graph(next[i as int], g));
                }
                if graphs_before.contains(g) {
                    let j = choose|j: int| 0 <= j < graphs_before.len() && graphs_before[j] == g;
                    assert(graphs_mid[j] == g);
                    assert(graph_ids@[j] == g);
                }
                if graph_ids@.contains(g) && !link_has_graph(edge, g) {
                    let j = choose|j: int| 0 <= j < graph_ids@.len() && graph_ids@[j] == g;
                    assert(graphs_mid[j] == g);
                    assert(graphs_before[j] == g);
                }
                if edge.dest_graph == Some(g) {
                    assert(graphs_mid.contains(g));
                    let j = choose|j: int| 0 <= j < graphs_mid.len() && graphs_mid[j] == g;
                    assert(graph_ids@[j] == g);
                }
                if edge.source_graph == g {
                    assert(graph_ids@.contains(g) || graph_ids@[graph_ids@.len() - 1] == g);
                }
            }
        }
        assert(edges@.take(edges.len() as int) =~= edges@);
        LearningMapPlan { node_ids, graph_ids, requirements }
    }
}

/// Every requirement of a learning map joins two of its topics: both ends of
/// each requirement drawn from the edges are topics that the edges touch.
pub proof fn lemma_requirements_within_topics(edges: Seq<LearningMapLink>)
    ensures
        forall|k: int|
            0 <= k < link_requirements(edges).len() ==> {
                &&& map_has_topic(edges, #[trigger] link_requirements(edges)[k].0)
                &&& map_has_topic(edges, link_requirements(edges)[k].1)
            },
    decreases edges.len(),
{
    if edges.len() > 0 {
        let earlier = edges.drop_last();
        lemma_requirements_within_topics(earlier);
        let reqs = link_requirements(edges);
        let last = edges.len() - 1;
        assert forall|k: int| 0 <= k < reqs.len() implies {
            &&& map_has_topic(edges, #[trigger] reqs[k].0)
            &&& map_has_topic(edges, reqs[k].1)
        } by {
            if k < link_requirements(earlier).len() {
                let req = link_requirements(earlier)[k];
                assert(reqs[k] == req);
                let j1 = choose|j: int| 0 <= j < earlier.len() && link_has_topic(earlier[j], req.0);
                assert(edges[j1] == earlier[j1]);
                let j2 = choose|j: int| 0 <= j < earlier.len() && link_has_topic(earlier[j], req.1);
                assert(edges[j2] == earlier[j2]);
            } else {
                assert(link_has_topic(edges[last], reqs[k].0));
                assert(link_has_topic(edges[last], reqs[k].1));
            }
        }
    }
}

/// The requirements of a learning map are exactly its edges that have a
/// destination, each drawn from its source topic to its destination topic, in
/// the order of the edges; so every requirement is an edge, read forwards, and
/// every edge with a destination is a requirement.
pub proof fn lemma_requirements_follow_edges(edges: Seq<LearningMapLink>)
    ensures
        link_requirements(edges) == edges.filter(|e: LearningMapLink| e.dest_topic is Some).map_values(
            |e: LearningMapLink| (e.source_topic, e.dest_topic.unwrap()),
        ),
        forall|k: int|
            0 <= k < link_requirements(edges).len() ==> exists|i: int|
                0 <= i < edges.len() && edges[i].source_topic == #[trigger] link_requirements(edges)[k].0
                    && edges[i].dest_topic == Some(link_requirements(edges)[k].1),
        forall|i: int|
            0 <= i < edges.len() && #[trigger] edges[i].dest_topic is Some ==> link_requirements(edges).contains(
                (edges[i].source_topic, edges[i].dest_topic.unwrap()),
            ),
    decreases edges.len(),
{
    let has_dest = |e: LearningMapLink| e.dest_topic is Some;
    let drawn = |e: LearningMapLink| (e.source_topic, e.dest_topic.unwrap());
    reveal_with_fuel(Seq::<_>::filter, 1);
    if edges.len() == 0 {
        assert(edges.filter(has_dest) =~= Seq::<LearningMapLink>::empty());
        assert(edges.filter(has_dest).map_values(drawn) =~= link_requirements(edges));
    } else {
        let earlier = edges.drop_last();
        lemma_requirements_follow_edges(earlier);
        let last = edges.last();
        let reqs = link_requirements(edges);
        if last.dest_topic is Some {
            assert(edges.filter(has_dest) == earlier.filter(has_dest).push(last));
            assert(edges.filter(has_dest).map_values(drawn) =~= earlier.filter(has_dest).map_values(drawn).push(
                drawn(last),
            ));
        } else {
            assert(edges.filter(has_dest) == earlier.filter(has_dest));
        }
        assert forall|k: int| 0 <= k < reqs.len() implies exists|i: int|
            0 <= i < edges.len() && edges[i].source_topic == #[trigger] reqs[k].0 && edges[i].dest_topic == Some(
                reqs[k].1,
            ) by {
            if k < link_requirements(earlier).len() {
                assert(reqs[k] == link_requirements(earlier)[k]);
                let i = choose|i: int|
                    0 <= i < earlier.len() && earlier[i].source_topic == #[trigger] link_requirements(earlier)[k].0
                        && earlier[i].dest_topic == Some(link_requirements(earlier)[k].1);
                assert(edges[i] == earlier[i]);
            } else {
                assert(edges[edges.len() - 1] == last);
            }
        }
        assert forall|i: int|
            0 <= i < edges.len() && #[trigger] edges[i].dest_topic is Some implies reqs.contains(
                (edges[i].source_topic, edges[i].dest_topic.unwrap()),
            ) by {
            if i < edges.len() - 1 {
                assert(earlier[i] == edges[i]);
                let p = (edges[i].source_topic, edges[i].dest_topic.unwrap());
                assert(link_requirements(earlier).contains(p));
                let j = choose|j: int| 0 <= j < link_requirements(earlier).len() && link_requirements(earlier)[j] == p;
                assert(reqs[j] == p);
            } else {
                assert(reqs[reqs.len() - 1] == (edges[i].source_topic, edges[i].dest_topic.unwrap()));
            }
        }
    }
}

impl LearningMapPlan {
    /// The shown map: the plan's requirements, with the topics and progress
    /// loaded for the plan's topics and graphs.
    pub fn to_response(self, topics: Vec<Topic>, progress: Vec<i64>) -> (r: ResponseLearningMap)
        ensures
            r == (ResponseLearningMap { requirements: self.requirements, topics, progress }),
    {
        ResponseLearningMap { requirements: self.requirements, topics, progress }
    }
}

} // verus!

//! Knowledge graphs: their records, ownership and the response that shows one.

use vstd::prelude::*;

use crate::api::users::{response_user, ResponseUser};
use crate::error::{copy_opt_text, DeductError, DeductResult};
use crate::model::objective::{prerequisite_response, Objective, ObjectivePrerequisite, ResponseObjPrerequisite};
use crate::model::progress::{progress_topics, Progress};
use crate::model::requirement::{edge_pairs, Requirement};
use crate::model::topic::Topic;
use crate::model::user::User;

verus! {

/// A knowledge graph as stored: its id (a UUID as its 128-bit value), name,
/// description, author's user id, date of last change and number of likes.
#[derive(Debug, PartialEq)]
pub struct KnowledgeGraph {
    pub id: u128,
    pub name: String,
    pub description: String,
    pub author: i64,
    pub last_modified: chrono::NaiveDate,
    pub like_count: i32,
}

impl Clone for KnowledgeGraph {
    fn clone(&self) -> (r: Self)
        ensures
            r == *self,
    {
        KnowledgeGraph {
            id: self.id,
            name: self.name.clone(),
            description: self.description.clone(),
            author: self.author,
            last_modified: self.last_modified,
            like_count: self.like_count,
        }
    }
}

/// The values that a new knowledge graph is inserted with; the database gives
/// the date and the like count.
#[derive(Debug, PartialEq)]
pub struct NewKnowledgeGraph {
    pub id: u128,
    pub author: i64,
    pub name: String,
    pub description: String,
}

/// A short view of a graph: id, name and description.
#[derive(Debug, PartialEq)]
pub struct PreviewGraph {
    pub id: u128,
    pub name: String,
    pub description: String,
}

/// Everything needed to draw a graph: the graph, its topics, its requirements
/// as `(source, destination)` pairs, the prerequisites of its topics as seen by
/// the viewing user, and the topics that this user has learnt.
#[derive(Debug, PartialEq)]
pub struct ResponseGraph {
    pub graph: KnowledgeGraph,
    pub topics: Vec<Topic>,
    pub requirements: Vec<(i64, i64)>,
    pub objectives: Vec<ResponseObjPrerequisite>,
    pub progress: Vec<i64>,
}

/// A request to create a graph, or to rename and redescribe one.
#[derive(Debug, PartialEq)]
pub struct KnowledgeGraphCreation {
    pub name: String,
    pub description: String,
}

/// A prerequisite row loaded for a graph: the prerequisite, its objective, the
/// suggested graph, and the viewing user's record of meeting the objective.
pub type PrerequisiteRow = (ObjectivePrerequisite, Objective, KnowledgeGraph, Option<i64>);

/// The records loaded for the viewing user: the prerequisite rows of the graph
/// and the user's progress in it.
pub type ViewerRecords = (Vec<PrerequisiteRow>, Vec<Progress>);

/// The shown form of a prerequisite row.
pub open spec fn row_response(row: PrerequisiteRow) -> ResponseObjPrerequisite {
    prerequisite_response(row.0, row.1, row.2, row.3)
}

/// A row of trending graphs: the number of recent likes, the graph, and its
/// author's name and avatar.
pub type TrendingRow = (i64, (KnowledgeGraph, String, Option<String>));

/// The entry of a trending row: the graph with its recent like count as its
/// like count, cut to 32 bits, and its author.
pub open spec fn trending_entry(row: TrendingRow) -> (KnowledgeGraph, ResponseUser) {
    (
        KnowledgeGraph { like_count: row.0 as i32, ..row.1.0 },
        ResponseUser { username: row.1.1, avatar: row.1.2 },
    )
}

/// Whether `id` is a version 4 (random) UUID of the RFC 4122 variant.
pub open spec fn is_random_uuid(id: u128) -> bool {
    &&& (id >> 76u128) & 0xfu128 == 4
    &&& (id >> 62u128) & 0x3u128 == 2
}

/// A fresh random id, from `uuid::Uuid::new_v4`, as its 128-bit value.
#[verifier::external_body]
fn new_graph_id() -> (id: u128)
    ensures
        is_random_uuid(id),
{
    uuid::Uuid::new_v4().as_u128()
}

/// The message sent to a user who changes a graph that is not theirs.
pub open spec fn not_owner_message() -> Seq<char> {
    "User is not the owner of the given graph"@
}

/// A trending graph shows its number of likes in the range, cut to 32 bits,
/// whatever its stored like count, and keeps its other fields and its author.
pub proof fn lemma_trending_entry(row: TrendingRow)
    ensures
        trending_entry(row).0.like_count == row.0 as i32,
        trending_entry(row).0.id == row.1.0.id,
        trending_entry(row).0.name == row.1.0.name,
        trending_entry(row).0.description == row.1.0.description,
        trending_entry(row).0.author == row.1.0.author,
        trending_entry(row).0.last_modified == row.1.0.last_modified,
        trending_entry(row).1.username == row.1.1,
        trending_entry(row).1.avatar == row.1.2,
{
}

impl KnowledgeGraph {
    /// The record of a new graph of `user_id` with the given name and
    /// description, under a fresh random id.
    pub fn create(user_id: i64, name: String, description: String) -> (r: NewKnowledgeGraph)
        ensures
            r.author == user_id,
            r.name == name,
            r.description == description,
            is_random_uuid(r.id),
    {
        NewKnowledgeGraph { id: new_graph_id(), author: user_id, name, description }
    }

    /// Succeeds exactly when `user_id` is the graph's author; otherwise the
    /// user is refused as unauthorized.
    pub fn check_owner(&self, user_id: i64) -> (r: DeductResult<()>)
        ensures
            r is Ok <==> self.author == user_id,
            r matches Err(e) ==> e matches DeductError::UnauthorizedUser(m) && m@ == not_owner_message(),
            r matches Err(e) ==> e matches DeductError::UnauthorizedUser(m) && m@ == "User is not the owner of the given graph"@,
    {
        if self.author == user_id {
            Ok(())
        } else {
            let msg = "User is not the owner of the given graph";
            proof {
                reveal_strlit("User is not the owner of the given graph");
            }
            Err(DeductError::UnauthorizedUser(msg.to_owned()))
        }
    }

    /// The graph with its like count replaced by `count`, cut to 32 bits as
    /// `as i32` cuts it.
    pub fn with_like_count(self, count: i64) -> (r: KnowledgeGraph)
        ensures
            r == (KnowledgeGraph { like_count: count as i32, ..self }),
            r.like_count == count as i32,
            r.id == self.id,
            r.name == self.name,
            r.description == self.description,
            r.author == self.author,
            r.last_modified == self.last_modified,
    {
        KnowledgeGraph { like_count: count as i32, ..self }
    }

    /// The response that shows the graph, from its loaded topics and
    /// requirements and, where a user views it, the records loaded for that
    /// user. Without a viewing user there are no prerequisites and no
    /// progress.
    pub fn to_response(self, topics: Vec<Topic>, requirements: Vec<Requirement>, viewer: Option<ViewerRecords>) -> (r: ResponseGraph)
        ensures
            r.graph == self,
            r.topics == topics,
            r.requirements@ == edge_pairs(requirements@),
            viewer is None ==> r.objectives@.len() == 0 && r.progress@.len() == 0,
            viewer matches Some(records) ==> {
                &&& r.objectives.len() == records.0.len()
                &&& forall|i: int| 0 <= i < records.0.len() ==> #[trigger] r.objectives@[i] == row_response(records.0@[i])
                &&& r.progress@ == progress_topics(records.1@)
            },
            r.requirements.len() == requirements.len(),
            forall|k: int|
                0 <= k < requirements.len() ==> #[trigger] r.requirements@[k].0 == requirements@[k].source
                    && r.requirements@[k].1 == requirements@[k].destination,
            viewer matches Some(records) ==> {
                &&& r.progress.len() == records.1.len()
                &&& forall|k: int| 0 <= k < records.1.len() ==> #[trigger] r.progress@[k] == records.1@[k].topic
                &&& forall|i: int|
                    0 <= i < records.0.len() ==> {
                        let row = #[trigger] records.0@[i];
                        let shown = r.objectives@[i];
                        &&& shown.knowledge_graph_id == row.0.knowledge_graph_id
                        &&& shown.topic == row.0.topic
                        &&& shown.objective == row.1
                        &&& shown.suggested_topic == row.0.suggested_topic
                        &&& shown.suggested_graph.id == row.2.id
                        &&& shown.suggested_graph.name == row.2.name
                        &&& shown.suggested_graph.description == row.2.description
                        &&& shown.satisfied == (row.3 is Some)
                    }
            },
    {
        let pairs = Requirement::pairs(&requirements);
        let (objectives, progress) = match viewer {
            Some((rows, ps)) => {
                let mut objectives: Vec<ResponseObjPrerequisite> = Vec::new();
                for i in 0..rows.len()
                    invariant
                        objectives.len() == i,
                        forall|j: int| 0 <= j < i ==> #[trigger] objectives@[j] == row_response(rows@[j]),
                        forall|j: int|
                            0 <= j < i ==> {
                                let row = #[trigger] rows@[j];
                                let shown = objectives@[j];
                                &&& shown.knowledge_graph_id == row.0.knowledge_graph_id
                                &&& shown.topic == row.0.topic
                                &&& shown.objective == row.1
                                &&& shown.suggested_topic == row.0.suggested_topic
                                &&& shown.suggested_graph.id == row.2.id
                                &&& shown.suggested_graph.name == row.2.name
                                &&& shown.suggested_graph.description == row.2.description
                                &&& shown.satisfied == (row.3 is Some)
                            },
                {
                    let row = &rows[i];
                    objectives.push(ResponseObjPrerequisite::from_row(row.0, row.1.clone(), row.2.clone(), row.3));
                }
                (objectives, Progress::topics(&ps))
            },
            None => (Vec::new(), Vec::new()),
        };
        ResponseGraph { graph: self, topics, requirements: pairs, objectives, progress }
    }

    /// The entries of a search, from the matching graphs loaded with their
    /// authors (a page of them): each graph with its author shown as users are
    /// shown, in order. Marking the viewer's likes follows (`get_likes`).
    pub fn search(rows: Vec<(KnowledgeGraph, User)>) -> (r: Vec<(KnowledgeGraph, ResponseUser)>)
        ensures
            r.len() == rows.len(),
            forall|i: int| 0 <= i < rows.len() ==> #[trigger] r@[i] == (rows@[i].0, response_user(rows@[i].1)),
            forall|i: int|
                0 <= i < rows.len() ==> {
                    &&& #[trigger] r@[i].0 == rows@[i].0
                    &&& r@[i].1.username == rows@[i].1.username
                    &&& r@[i].1.avatar == rows@[i].1.avatar
                },
    {
        let mut out: Vec<(KnowledgeGraph, ResponseUser)> = Vec::new();
        for i in 0..rows.len()
            invariant
                out.len() == i,
                forall|j: int| 0 <= j < i ==> #[trigger] out@[j] == (rows@[j].0, response_user(rows@[j].1)),
        {
            let graph = rows[i].0.clone();
            let user = ResponseUser::from(rows[i].1.clone());
            out.push((graph, user));
        }
        out
    }

    /// The entries of the trending graphs, from the rows counted over the
    /// range (`TrendingRange::days`), in order: each graph takes its number of
    /// likes in the range as its like count, and comes with its author.
    /// Marking the viewer's likes follows (`get_likes`).
    pub fn trending(rows: Vec<TrendingRow>) -> (r: Vec<(KnowledgeGraph, ResponseUser)>)
        ensures
            r.len() == rows.len(),
            forall|i: int| 0 <= i < rows.len() ==> #[trigger] r@[i] == trending_entry(rows@[i]),
            forall|i: int|
                0 <= i < rows.len() ==> {
                    let entry = #[trigger] r@[i];
                    let row = rows@[i];
                    &&& entry.0.like_count == row.0 as i32
                    &&& entry.0.id == row.1.0.id
                    &&& entry.0.name == row.1.0.name
                    &&& entry.0.description == row.1.0.description
                    &&& entry.0.author == row.1.0.author
                    &&& entry.0.last_modified == row.1.0.last_modified
                    &&& entry.1.username == row.1.1
                    &&& entry.1.avatar == row.1.2
                },
    {
        let mut out: Vec<(KnowledgeGraph, ResponseUser)> = Vec::new();
        for i in 0..rows.len()
            invariant
                out.len() == i,
                forall|j: int| 0 <= j < i ==> #[trigger] out@[j] == trending_entry(rows@[j]),
                forall|j: int|
                    0 <= j < i ==> {
                        let entry = #[trigger] out@[j];
                        let row = rows@[j];
                        &&& entry.0.like_count == row.0 as i32
                        &&& entry.0.id == row.1.0.id
                        &&& entry.0.name == row.1.0.name
                        &&& entry.0.description == row.1.0.description
                        &&& entry.0.author == row.1.0.author
                        &&& entry.0.last_modified == row.1.0.last_modified
                        &&& entry.1.username == row.1.1
                        &&& entry.1.avatar == row.1.2
                    },
        {
            let count = rows[i].0;
            let graph = rows[i].1.0.clone().with_like_count(count);
            let user = ResponseUser { username: rows[i].1.1.clone(), avatar: copy_opt_text(&rows[i].1.2) };
            out.push((graph, user));
        }
        out
    }

    /// The short view of the graph.
    pub fn preview(self) -> (r: PreviewGraph)
        ensures
            r == (PreviewGraph { id: self.id, name: self.name, description: self.description }),
    {
        PreviewGraph { id: self.id, name: self.name, description: self.description }
    }
}

} // verus!

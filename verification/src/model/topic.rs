//! Topics: the nodes of a knowledge graph.

use vstd::prelude::*;

use crate::model::requirement::Requirement;

verus! {

/// A topic of graph `knowledge_graph_id`. `id` is absent until the database
/// assigns one; `content` is the topic's JSON document, as text.
#[derive(Debug, PartialEq)]
pub struct Topic {
    pub knowledge_graph_id: u128,
    pub title: String,
    pub id: Option<i64>,
    pub subject: String,
    pub content: String,
}

impl Clone for Topic {
    fn clone(&self) -> (r: Self)
        ensures
            r == *self,
    {
        Topic {
            knowledge_graph_id: self.knowledge_graph_id,
            title: self.title.clone(),
            id: self.id,
            subject: self.subject.clone(),
            content: self.content.clone(),
        }
    }
}

/// A short view of a topic: its id and title.
#[derive(Debug, PartialEq)]
pub struct PreviewTopic {
    pub id: i64,
    pub title: String,
}

impl Clone for PreviewTopic {
    fn clone(&self) -> (r: Self)
        ensures
            r == *self,
    {
        PreviewTopic { id: self.id, title: self.title.clone() }
    }
}

impl Topic {
    /// The requirement that `self` comes before `other`, in `self`'s graph;
    /// there is one exactly when both topics have ids.
    pub fn requirement_for(&self, other: &Topic) -> (r: Option<Requirement>)
        ensures
            r is Some <==> (self.id is Some && other.id is Some),
            r matches Some(req) ==> req == (Requirement {
                id: None,
                source: self.id.unwrap(),
                destination: other.id.unwrap(),
                knowledge_graph_id: self.knowledge_graph_id,
            }),
    {
        let source_id = self.id?;
        let destination_id = other.id?;
        Some(
            Requirement {
                id: None,
                source: source_id,
                destination: destination_id,
                knowledge_graph_id: self.knowledge_graph_id,
            },
        )
    }
}

} // verus!

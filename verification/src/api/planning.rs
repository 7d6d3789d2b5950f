//! Requests of planning: objectives and learning maps.

use vstd::prelude::*;

verus! {

/// A request to create an objective.
#[derive(Debug, PartialEq)]
pub struct ObjectiveCreation {
    pub title: String,
    pub description: String,
}

/// A search of the objectives.
#[derive(Debug, PartialEq)]
pub struct ObjectiveSearch {
    pub search: String,
}

/// A request to create a learning map toward topic `topic` of graph
/// `knowledge_graph_id`.
#[derive(Debug, PartialEq)]
pub struct LearningMapCreation {
    pub knowledge_graph_id: u128,
    pub topic: i64,
    pub name: String,
}

} // verus!

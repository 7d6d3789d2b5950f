//! The records of the service's database, as plain values.

pub mod knowledge_graph;
pub mod learning_map;
pub mod like;
pub mod objective;
pub mod progress;
pub mod requirement;
pub mod resource;
pub mod topic;
pub mod user;

pub use crate::model::knowledge_graph::KnowledgeGraph;
pub use crate::model::learning_map::LearningMap;
pub use crate::model::like::Like;
pub use crate::model::objective::{Objective, ObjectivePrerequisite, ObjectiveSatisfier};
pub use crate::model::progress::Progress;
pub use crate::model::requirement::Requirement;
pub use crate::model::topic::Topic;
pub use crate::model::user::User;

use vstd::prelude::*;

verus! {

/// A calendar date (`chrono::NaiveDate`), carried through unchanged.
#[verifier::external_type_specification]
#[verifier::external_body]
pub struct ExNaiveDate(chrono::NaiveDate);

} // verus!

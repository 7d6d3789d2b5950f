//! Verified core of the deductio knowledge-graph service: the data model of
//! graphs, topics, requirements, objectives and learning maps, and the rules
//! that turn stored rows into responses, authenticate users and decide logins.

pub mod api;
pub mod error;
pub mod model;
pub mod paging;
pub mod text;

//! Resources: outside material attached to a topic.

use vstd::prelude::*;

verus! {

/// A resource of topic `topic_id`, with an optional link.
#[derive(Debug, PartialEq)]
pub struct Resource {
    pub title: String,
    pub description: String,
    pub topic_id: i64,
    pub link: Option<String>,
    pub id: i64,
}

} // verus!

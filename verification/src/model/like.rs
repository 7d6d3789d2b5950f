//! Likes of graphs by users.

use vstd::prelude::*;

verus! {

/// User `user_id` liked graph `knowledge_graph_id` on `like_date`.
#[derive(Debug, PartialEq)]
pub struct Like {
    pub knowledge_graph_id: u128,
    pub user_id: i64,
    pub like_date: chrono::NaiveDate,
}

} // verus!

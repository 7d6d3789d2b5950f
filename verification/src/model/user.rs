//! Users of the service.

use vstd::prelude::*;

use crate::api::search::{is_liked, likes_view, search_result, SearchResultGraph};
use crate::api::users::{response_user, ResponseUser};
use crate::error::copy_opt_text;
use crate::model::knowledge_graph::KnowledgeGraph;

verus! {

/// A registered user, with the ids of the accounts they sign in with.
#[derive(Debug, PartialEq)]
pub struct User {
    pub github_user_id: Option<String>,
    pub google_user_id: Option<String>,
    pub username: String,
    pub avatar: Option<String>,
    pub id: i64,
}

impl Clone for User {
    fn clone(&self) -> (r: Self)
        ensures
            r == *self,
    {
        User {
            github_user_id: copy_opt_text(&self.github_user_id),
            google_user_id: copy_opt_text(&self.google_user_id),
            username: self.username.clone(),
            avatar: copy_opt_text(&self.avatar),
            id: self.id,
        }
    }
}

/// A user's page: the user and a page of their graphs.
#[derive(Debug, PartialEq)]
pub struct UserPage {
    pub user: ResponseUser,
    pub graphs: Vec<SearchResultGraph>,
}

impl UserPage {
    /// The page of `user` showing `graphs`, a page of the user's graphs, in
    /// order; `user_likes` holds the graphs that the viewing user likes, and
    /// is `None` where nobody is signed in.
    pub fn get_user_with_offset(user: User, graphs: Vec<KnowledgeGraph>, user_likes: Option<Vec<u128>>) -> (r: UserPage)
        ensures
            r.user == response_user(user),
            r.graphs.len() == graphs.len(),
            forall|i: int|
                0 <= i < graphs.len() ==> #[trigger] r.graphs@[i] == search_result(
                    graphs@[i],
                    response_user(user),
                    is_liked(likes_view(user_likes), graphs@[i].id),
                ),
            r.user.username == user.username,
            r.user.avatar == user.avatar,
            forall|i: int|
                0 <= i < graphs.len() ==> {
                    let entry = #[trigger] r.graphs@[i];
                    let graph = graphs@[i];
                    &&& entry.id == graph.id
                    &&& entry.name == graph.name
                    &&& entry.description == graph.description
                    &&& entry.last_modified == graph.last_modified
                    &&& entry.like_count == graph.like_count
                    &&& entry.user.username == user.username
                    &&& entry.user.avatar == user.avatar
                    &&& entry.liked == (user_likes is Some && user_likes.unwrap()@.contains(graph.id))
                },
    {
        let shown = ResponseUser::from(user);
        let mut pairs: Vec<(KnowledgeGraph, ResponseUser)> = Vec::new();
        for i in 0..graphs.len()
            invariant
                shown == response_user(user),
                pairs.len() == i,
                forall|j: int| 0 <= j < i ==> #[trigger] pairs@[j] == (graphs@[j], shown),
        {
            pairs.push((graphs[i].clone(), shown.clone()));
        }
        let results = SearchResultGraph::get_likes(pairs, user_likes);
        UserPage { user: shown, graphs: results }
    }
}

} // verus!

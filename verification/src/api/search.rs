//! Search results: graphs with their author and whether the viewer likes them,
//! and the time ranges of trending graphs.

use vstd::prelude::*;

use crate::api::users::ResponseUser;
use crate::model::knowledge_graph::KnowledgeGraph;
use crate::text::same_text;

verus! {

/// A graph in a list of results: its id, name, description, author, date of
/// last change, like count, and whether the viewing user likes it.
#[derive(Debug, PartialEq)]
pub struct SearchResultGraph {
    pub id: u128,
    pub name: String,
    pub description: String,
    pub user: ResponseUser,
    pub last_modified: chrono::NaiveDate,
    pub like_count: i32,
    pub liked: bool,
}

/// The result entry of `graph` by `user`, liked or not.
pub open spec fn search_result(graph: KnowledgeGraph, user: ResponseUser, liked: bool) -> SearchResultGraph {
    SearchResultGraph {
        id: graph.id,
        name: graph.name,
        description: graph.description,
        user: user,
        last_modified: graph.last_modified,
        like_count: graph.like_count,
        liked: liked,
    }
}

/// Whether graph `id` is among the liked graphs; with no viewing user, none is.
pub open spec fn is_liked(user_likes: Option<Seq<u128>>, id: u128) -> bool {
    match user_likes {
        Some(likes) => likes.contains(id),
        None => false,
    }
}

/// The view of an optional list of graph ids.
pub open spec fn likes_view(user_likes: Option<Vec<u128>>) -> Option<Seq<u128>> {
    match user_likes {
        Some(v) => Some(v@),
        None => None,
    }
}

/// The ids of the graphs of `results`, in order.
pub open spec fn result_ids(results: Seq<(KnowledgeGraph, ResponseUser)>) -> Seq<u128> {
    results.map_values(|p: (KnowledgeGraph, ResponseUser)| p.0.id)
}

/// Whether `id` is in `ids`.
pub fn contains_id(ids: &Vec<u128>, id: u128) -> (r: bool)
    ensures
        r == ids@.contains(id),
{
    for i in 0..ids.len()
        invariant
            forall|j: int| 0 <= j < i ==> ids@[j] != id,
    {
        if ids[i] == id {
            return true;
        }
    }
    false
}

/// An entry shows its graph's id, name, description, date and like count and
/// its author as given, and is liked exactly when a user is signed in and the
/// graph is anywhere among that user's liked graphs.
pub proof fn lemma_search_result(graph: KnowledgeGraph, user: ResponseUser, user_likes: Option<Seq<u128>>)
    ensures
        search_result(graph, user, is_liked(user_likes, graph.id)).id == graph.id,
        search_result(graph, user, is_liked(user_likes, graph.id)).name == graph.name,
        search_result(graph, user, is_liked(user_likes, graph.id)).description == graph.description,
        search_result(graph, user, is_liked(user_likes, graph.id)).user == user,
        search_result(graph, user, is_liked(user_likes, graph.id)).last_modified == graph.last_modified,
        search_result(graph, user, is_liked(user_likes, graph.id)).like_count == graph.like_count,
        search_result(graph, user, is_liked(user_likes, graph.id)).liked == (user_likes is Some && exists|j: int|
            0 <= j < user_likes.unwrap().len() && user_likes.unwrap()[j] == graph.id),
{
}

impl Clone for SearchResultGraph {
    fn clone(&self) -> (r: Self)
        ensures
            r == *self,
    {
        SearchResultGraph {
            id: self.id,
            name: self.name.clone(),
            description: self.description.clone(),
            user: self.user.clone(),
            last_modified: self.last_modified,
            like_count: self.like_count,
            liked: self.liked,
        }
    }
}

impl SearchResultGraph {
    /// The ids of the graphs whose likes by the viewing user are looked up.
    pub fn like_candidates(results: &Vec<(KnowledgeGraph, ResponseUser)>) -> (r: Vec<u128>)
        ensures
            r@ == result_ids(results@),
            r.len() == results.len(),
            forall|i: int| 0 <= i < results.len() ==> #[trigger] r@[i] == results@[i].0.id,
    {
        let mut out: Vec<u128> = Vec::new();
        for i in 0..results.len()
            invariant
                out@ == result_ids(results@.take(i as int)),
        {
            out.push(results[i].0.id);
            assert(results@.take(i + 1) =~= results@.take(i as int).push(results@[i as int]));
        }
        assert(results@.take(results.len() as int) =~= results@);
        out
    }

    /// The result entries of `results`, in order. `user_likes` holds the
    /// graphs that the viewing user likes, and is `None` where nobody is
    /// signed in; an entry is liked exactly when its graph is among them.
    pub fn get_likes(results: Vec<(KnowledgeGraph, ResponseUser)>, user_likes: Option<Vec<u128>>) -> (r: Vec<SearchResultGraph>)
        ensures
            r.len() == results.len(),
            forall|i: int|
                0 <= i < results.len() ==> #[trigger] r@[i] == search_result(
                    results@[i].0,
                    results@[i].1,
                    is_liked(likes_view(user_likes), results@[i].0.id),
                ),
            forall|i: int|
                0 <= i < results.len() ==> {
                    let entry = #[trigger] r@[i];
                    let graph = results@[i].0;
                    &&& entry.id == graph.id
                    &&& entry.name == graph.name
                    &&& entry.description == graph.description
                    &&& entry.user == results@[i].1
                    &&& entry.last_modified == graph.last_modified
                    &&& entry.like_count == graph.like_count
                    &&& entry.liked == (user_likes is Some && user_likes.unwrap()@.contains(graph.id))
                },
    {
        let mut out: Vec<SearchResultGraph> = Vec::new();
        for i in 0..results.len()
            invariant
                out.len() == i,
                forall|j: int|
                    0 <= j < i ==> #[trigger] out@[j] == search_result(
                        results@[j].0,
                        results@[j].1,
                        is_liked(likes_view(user_likes), results@[j].0.id),
                    ),
        {
            let graph = results[i].0.clone();
            let user = results[i].1.clone();
            let liked = match &user_likes {
                Some(likes) => contains_id(likes, graph.id),
                None => false,
            };
            out.push(
                SearchResultGraph {
                    id: graph.id,
                    name: graph.name,
                    description: graph.description,
                    user: user,
                    last_modified: graph.last_modified,
                    like_count: graph.like_count,
                    liked: liked,
                },
            );
        }
        out
    }
}

/// How results of a graph search are ordered.
#[derive(Debug, PartialEq, Eq, Structural, Clone, Copy)]
pub enum GraphSearchSorting {
    HighestRating,
    LastModified,
    BestMatch,
}

/// A graph search: the query text and the order of the results.
#[derive(Debug, PartialEq)]
pub struct GraphSearchForm {
    pub search: String,
    pub order: GraphSearchSorting,
}

/// The span of time over which trending graphs count their likes.
#[derive(Debug, PartialEq, Eq, Structural, Clone, Copy)]
pub enum TrendingRange {
    Day,
    Week,
    Month,
    AllTime,
}

/// The range that a path segment names, if it names one.
pub open spec fn named_range(s: Seq<char>) -> Option<TrendingRange> {
    if s == "day"@ {
        Some(TrendingRange::Day)
    } else if s == "week"@ {
        Some(TrendingRange::Week)
    } else if s == "month"@ {
        Some(TrendingRange::Month)
    } else if s == "all_time"@ {
        Some(TrendingRange::AllTime)
    } else {
        None
    }
}

/// The number of days that a range spans.
pub open spec fn range_days(range: TrendingRange) -> i64 {
    match range {
        TrendingRange::Day => 1,
        TrendingRange::Week => 7,
        TrendingRange::Month => 31,
        TrendingRange::AllTime => 100000,
    }
}

/// The message for a path segment that names no range.
pub open spec fn bad_range_message() -> Seq<char> {
    "not acceptable"@
}

/// The number of graphs in a list of trending graphs.
pub const TRENDING_LIMIT: i64 = 10;

impl TrendingRange {
    /// The range named by a path segment: `day`, `week`, `month` or
    /// `all_time`; any other text is refused.
    pub fn from_param(s: &str) -> (r: Result<TrendingRange, &'static str>)
        ensures
            r is Ok <==> named_range(s@) is Some,
            r matches Ok(range) ==> named_range(s@) == Some(range),
            r matches Err(e) ==> e@ == bad_range_message(),
            r matches Err(e) ==> e@ == "not acceptable"@,
            r == Ok::<TrendingRange, &str>(TrendingRange::Day) <==> s@ == "day"@,
            r == Ok::<TrendingRange, &str>(TrendingRange::Week) <==> s@ == "week"@,
            r == Ok::<TrendingRange, &str>(TrendingRange::Month) <==> s@ == "month"@,
            r == Ok::<TrendingRange, &str>(TrendingRange::AllTime) <==> s@ == "all_time"@,
            r is Err <==> (s@ != "day"@ && s@ != "week"@ && s@ != "month"@ && s@ != "all_time"@),
    {
        proof {
            reveal_strlit("day");
            reveal_strlit("week");
            reveal_strlit("month");
            reveal_strlit("all_time");
            reveal_strlit("not acceptable");
            assert("day"@.len() == 3);
            assert("week"@.len() == 4);
            assert("month"@.len() == 5);
            assert("all_time"@.len() == 8);
        }
        if same_text(s, "day") {
            Ok(TrendingRange::Day)
        } else if same_text(s, "week") {
            Ok(TrendingRange::Week)
        } else if same_text(s, "month") {
            Ok(TrendingRange::Month)
        } else if same_text(s, "all_time") {
            Ok(TrendingRange::AllTime)
        } else {
            Err("not acceptable")
        }
    }

    /// The number of days back from today over which likes count.
    pub fn days(&self) -> (r: i64)
        ensures
            r == range_days(*self),
            *self is Day ==> r == 1,
            *self is Week ==> r == 7,
            *self is Month ==> r == 31,
            *self is AllTime ==> r == 100000,
    {
        match self {
            TrendingRange::Day => 1,
            TrendingRange::Week => 7,
            TrendingRange::Month => 31,
            TrendingRange::AllTime => 100000,
        }
    }
}

} // verus!

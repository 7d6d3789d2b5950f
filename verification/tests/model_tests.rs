use deductio::api::search::{GraphSearchSorting, SearchResultGraph, TrendingRange};
use deductio::api::users::ResponseUser;
use deductio::error::DeductError;
use deductio::model::knowledge_graph::{KnowledgeGraph, PreviewGraph};
use deductio::model::learning_map::{LearningMap, LearningMapLink};
use deductio::model::objective::{Objective, ObjectivePrerequisite, ResponseObjPrerequisite};
use deductio::model::progress::Progress;
use deductio::model::requirement::Requirement;
use deductio::model::topic::{PreviewTopic, Topic};
use deductio::model::user::{User, UserPage};
use deductio::paging::{page_offset, PAGE_SIZE};

fn date(d: u32) -> chrono::NaiveDate {
    chrono::NaiveDate::from_ymd_opt(2024, 3, d).unwrap()
}

fn graph(id: u128, author: i64, name: &str) -> KnowledgeGraph {
    KnowledgeGraph {
        id,
        name: name.to_string(),
        description: format!("about {}", name),
        author,
        last_modified: date(1),
        like_count: 3,
    }
}

fn user(id: i64, name: &str, avatar: Option<&str>) -> User {
    User {
        github_user_id: Some(format!("{}", id * 100)),
        google_user_id: None,
        username: name.to_string(),
        avatar: avatar.map(|a| a.to_string()),
        id,
    }
}

fn topic(graph: u128, id: Option<i64>, title: &str) -> Topic {
    Topic {
        knowledge_graph_id: graph,
        title: title.to_string(),
        id,
        subject: "math".to_string(),
        content: "{\"text\":\"x\"}".to_string(),
    }
}

#[test]
fn create_gives_random_uuid() {
    let a = KnowledgeGraph::create(7, "Algebra".to_string(), "Groups".to_string());
    let b = KnowledgeGraph::create(7, "Algebra".to_string(), "Groups".to_string());
    assert_eq!(a.author, 7);
    assert_eq!(a.name, "Algebra");
    assert_eq!(a.description, "Groups");
    assert_eq!((a.id >> 76) & 0xf, 4);
    assert_eq!((a.id >> 62) & 0x3, 2);
    let parsed = uuid::Uuid::from_u128(a.id);
    assert_eq!(parsed.get_version_num(), 4);
    assert_ne!(a.id, b.id);
}

#[test]
fn check_owner_accepts_author_only() {
    let g = graph(1, 5, "g");
    assert_eq!(g.check_owner(5), Ok(()));
    assert_eq!(
        g.check_owner(6),
        Err(DeductError::UnauthorizedUser("User is not the owner of the given graph".to_string()))
    );
}

#[test]
fn learning_map_owner() {
    let m = LearningMap { id: 1, user_id: 9, title: "plan".to_string() };
    assert_eq!(m.check_owner(9), Ok(()));
    assert_eq!(
        m.check_owner(10),
        Err(DeductError::UnauthorizedUser("User is not the owner of the given learning map".to_string()))
    );
}

#[test]
fn like_count_is_cut_to_32_bits() {
    assert_eq!(graph(1, 1, "g").with_like_count(5).like_count, 5);
    assert_eq!(graph(1, 1, "g").with_like_count((1i64 << 32) + 3).like_count, 3);
    assert_eq!(graph(1, 1, "g").with_like_count(-1).like_count, -1);
    assert_eq!(graph(1, 1, "g").with_like_count(1i64 << 31).like_count, i32::MIN);
}

#[test]
fn preview_keeps_id_name_description() {
    let p = graph(4, 1, "Calculus").preview();
    assert_eq!(p, PreviewGraph { id: 4, name: "Calculus".to_string(), description: "about Calculus".to_string() });
}

#[test]
fn requirement_between_topics_with_ids() {
    let a = topic(8, Some(1), "a");
    let b = topic(8, Some(2), "b");
    let c = topic(8, None, "c");
    assert_eq!(
        a.requirement_for(&b),
        Some(Requirement { id: None, source: 1, destination: 2, knowledge_graph_id: 8 })
    );
    assert_eq!(a.requirement_for(&c), None);
    assert_eq!(c.requirement_for(&a), None);
}

#[test]
fn requirement_pairs_in_order() {
    let reqs = vec![
        Requirement { source: 1, destination: 2, knowledge_graph_id: 3, id: Some(10) },
        Requirement { source: 2, destination: 5, knowledge_graph_id: 3, id: None },
    ];
    assert_eq!(Requirement::pairs(&reqs), vec![(1, 2), (2, 5)]);
    assert_eq!(Requirement::pairs(&vec![]), Vec::<(i64, i64)>::new());
}

#[test]
fn progress_topics_in_order() {
    let ps = vec![
        Progress { user_id: 1, knowledge_graph_id: 2, topic: 30 },
        Progress { user_id: 1, knowledge_graph_id: 2, topic: 10 },
    ];
    assert_eq!(Progress::topics(&ps), vec![30, 10]);
}

#[test]
fn response_without_viewer_has_no_personal_parts() {
    let g = graph(1, 2, "g");
    let topics = vec![topic(1, Some(1), "a"), topic(1, Some(2), "b")];
    let reqs = vec![Requirement { source: 1, destination: 2, knowledge_graph_id: 1, id: Some(4) }];
    let r = g.clone().to_response(topics.clone(), reqs, None);
    assert_eq!(r.graph, g);
    assert_eq!(r.topics, topics);
    assert_eq!(r.requirements, vec![(1, 2)]);
    assert!(r.objectives.is_empty());
    assert!(r.progress.is_empty());
}

#[test]
fn response_with_viewer_shows_prerequisites_and_progress() {
    let g = graph(1, 2, "g");
    let prereq = ObjectivePrerequisite {
        knowledge_graph_id: 1,
        topic: 2,
        objective: 3,
        suggested_topic: 40,
        suggested_graph: 9,
    };
    let obj = Objective { id: Some(3), title: "limits".to_string(), description: "d".to_string() };
    let suggested = graph(9, 5, "analysis");
    let rows = vec![(prereq, obj.clone(), suggested.clone(), Some(77)), (prereq, obj.clone(), suggested, None)];
    let ps = vec![Progress { user_id: 77, knowledge_graph_id: 1, topic: 2 }];
    let r = g.to_response(vec![], vec![], Some((rows, ps)));
    assert_eq!(r.progress, vec![2]);
    assert_eq!(r.objectives.len(), 2);
    assert_eq!(
        r.objectives[0],
        ResponseObjPrerequisite {
            knowledge_graph_id: 1,
            topic: 2,
            objective: obj,
            suggested_topic: 40,
            suggested_graph: PreviewGraph { id: 9, name: "analysis".to_string(), description: "about analysis".to_string() },
            satisfied: true,
        }
    );
    assert!(!r.objectives[1].satisfied);
}

#[test]
fn likes_mark_only_liked_graphs() {
    let alice = ResponseUser { username: "alice".to_string(), avatar: None };
    let results = vec![(graph(1, 1, "a"), alice.clone()), (graph(2, 1, "b"), alice.clone())];
    assert_eq!(SearchResultGraph::like_candidates(&results), vec![1, 2]);
    let with_user = SearchResultGraph::get_likes(results.clone(), Some(vec![2, 99]));
    assert_eq!(with_user.len(), 2);
    assert!(!with_user[0].liked);
    assert!(with_user[1].liked);
    assert_eq!(with_user[1].id, 2);
    assert_eq!(with_user[1].name, "b");
    assert_eq!(with_user[1].user, alice);
    assert_eq!(with_user[1].like_count, 3);
    assert_eq!(with_user[1].last_modified, date(1));
    let without_user = SearchResultGraph::get_likes(results, None);
    assert!(without_user.iter().all(|r| !r.liked));
}

#[test]
fn search_and_trending() {
    let rows = vec![(graph(1, 1, "a"), user(1, "alice", Some("pic")))];
    let entries = KnowledgeGraph::search(rows);
    assert_eq!(entries[0].1, ResponseUser { username: "alice".to_string(), avatar: Some("pic".to_string()) });
    let trending = KnowledgeGraph::trending(vec![(12, (graph(5, 1, "t"), "bob".to_string(), None))]);
    assert_eq!(trending[0].0.like_count, 12);
    assert_eq!(trending[0].0.id, 5);
    assert_eq!(trending[0].1, ResponseUser { username: "bob".to_string(), avatar: None });
}

#[test]
fn trending_ranges() {
    assert_eq!(TrendingRange::from_param("day"), Ok(TrendingRange::Day));
    assert_eq!(TrendingRange::from_param("week"), Ok(TrendingRange::Week));
    assert_eq!(TrendingRange::from_param("month"), Ok(TrendingRange::Month));
    assert_eq!(TrendingRange::from_param("all_time"), Ok(TrendingRange::AllTime));
    assert_eq!(TrendingRange::from_param("Day"), Err("not acceptable"));
    assert_eq!(TrendingRange::from_param(""), Err("not acceptable"));
    assert_eq!(TrendingRange::Day.days(), 1);
    assert_eq!(TrendingRange::Week.days(), 7);
    assert_eq!(TrendingRange::Month.days(), 31);
    assert_eq!(TrendingRange::AllTime.days(), 100000);
    assert_ne!(GraphSearchSorting::BestMatch, GraphSearchSorting::HighestRating);
}

#[test]
fn satisfied_graphs_grouped_by_first_appearance() {
    let a = graph(10, 1, "a");
    let b = graph(20, 2, "b");
    let rows = vec![
        (PreviewTopic { id: 1, title: "t1".to_string() }, a.clone(), user(1, "ann", None)),
        (PreviewTopic { id: 2, title: "t2".to_string() }, b.clone(), user(2, "ben", Some("av"))),
        (PreviewTopic { id: 3, title: "t3".to_string() }, a.clone(), user(1, "ann", None)),
    ];
    let res = Objective::get_satisfied_graphs(rows);
    assert_eq!(res.len(), 2);
    assert_eq!(res[0].graph.id, 10);
    assert_eq!(res[0].graph.user.username, "ann");
    assert!(!res[0].graph.liked);
    assert_eq!(res[0].topics.iter().map(|t| t.id).collect::<Vec<_>>(), vec![1, 3]);
    assert_eq!(res[1].graph.id, 20);
    assert_eq!(res[1].graph.user.avatar, Some("av".to_string()));
    assert_eq!(res[1].topics, vec![PreviewTopic { id: 2, title: "t2".to_string() }]);
    assert!(Objective::get_satisfied_graphs(vec![]).is_empty());
}

#[test]
fn learning_map_plan_collects_topics_graphs_and_requirements() {
    let edges = vec![
        LearningMapLink { source_topic: 5, source_graph: 1, dest_topic: None, dest_graph: None },
        LearningMapLink { source_topic: 4, source_graph: 1, dest_topic: Some(5), dest_graph: Some(1) },
        LearningMapLink { source_topic: 3, source_graph: 2, dest_topic: Some(4), dest_graph: Some(1) },
        LearningMapLink { source_topic: 3, source_graph: 2, dest_topic: Some(5), dest_graph: Some(1) },
    ];
    let plan = LearningMap::plan(&edges);
    let mut nodes = plan.node_ids.clone();
    nodes.sort();
    assert_eq!(nodes, vec![3, 4, 5]);
    let mut graphs = plan.graph_ids.clone();
    graphs.sort();
    assert_eq!(graphs, vec![1, 2]);
    assert_eq!(plan.requirements, vec![(4, 5), (3, 4), (3, 5)]);
    for (s, d) in &plan.requirements {
        assert!(plan.node_ids.contains(s) && plan.node_ids.contains(d));
    }
    let response = plan.to_response(vec![topic(1, Some(5), "goal")], vec![4]);
    assert_eq!(response.requirements, vec![(4, 5), (3, 4), (3, 5)]);
    assert_eq!(response.progress, vec![4]);
    assert_eq!(response.topics.len(), 1);
}

#[test]
fn user_page_lists_graphs_with_likes() {
    let u = user(3, "carol", Some("img"));
    let page = UserPage::get_user_with_offset(u, vec![graph(1, 3, "x"), graph(2, 3, "y")], Some(vec![1]));
    assert_eq!(page.user, ResponseUser { username: "carol".to_string(), avatar: Some("img".to_string()) });
    assert_eq!(page.graphs.len(), 2);
    assert!(page.graphs[0].liked);
    assert!(!page.graphs[1].liked);
    assert_eq!(page.graphs[1].user.username, "carol");
}

#[test]
fn pages_of_ten() {
    assert_eq!(PAGE_SIZE, 10);
    assert_eq!(page_offset(0), 0);
    assert_eq!(page_offset(3), 30);
    assert_eq!(page_offset(-2), -20);
    assert_eq!(page_offset(4) + PAGE_SIZE, page_offset(5));
}

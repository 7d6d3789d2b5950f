use deductio::api::users::{
    github_callback, home_url, login_cookies, AuthenticatedUser, CookieSpec, GitHubInfo, LoginAction,
    ResponseUser, UserLookup, PRIVATE_ALPHA,
};
use deductio::model::user::User;

fn user(id: i64, name: &str, avatar: Option<&str>) -> User {
    User {
        github_user_id: Some("99".to_string()),
        google_user_id: None,
        username: name.to_string(),
        avatar: avatar.map(|a| a.to_string()),
        id,
    }
}

fn info() -> GitHubInfo {
    GitHubInfo { name: "dora".to_string(), id: 583231, avatar_url: Some("https://a/b.png".to_string()) }
}

#[test]
fn authenticate_needs_both_cookies_and_integer_id() {
    assert_eq!(
        AuthenticatedUser::from_request(Some("42"), Some("ann")),
        Some(AuthenticatedUser { name: "ann".to_string(), db_id: 42 })
    );
    assert_eq!(
        AuthenticatedUser::from_request(Some("+42"), Some("ann")),
        Some(AuthenticatedUser { name: "ann".to_string(), db_id: 42 })
    );
    assert_eq!(
        AuthenticatedUser::from_request(Some("-9223372036854775808"), Some("x")),
        Some(AuthenticatedUser { name: "x".to_string(), db_id: i64::MIN })
    );
    assert_eq!(AuthenticatedUser::from_request(Some("9223372036854775808"), Some("x")), None);
    assert_eq!(AuthenticatedUser::from_request(Some("4a"), Some("ann")), None);
    assert_eq!(AuthenticatedUser::from_request(Some(""), Some("ann")), None);
    assert_eq!(AuthenticatedUser::from_request(Some("-"), Some("ann")), None);
    assert_eq!(AuthenticatedUser::from_request(None, Some("ann")), None);
    assert_eq!(AuthenticatedUser::from_request(Some("42"), None), None);
}

#[test]
fn login_cookies_with_and_without_avatar() {
    let with = login_cookies(&user(-17, "eve", Some("pic.png")));
    assert_eq!(
        with,
        vec![
            CookieSpec { name: "id".to_string(), value: "-17".to_string(), private: true },
            CookieSpec { name: "name".to_string(), value: "eve".to_string(), private: false },
            CookieSpec { name: "avatar".to_string(), value: "pic.png".to_string(), private: false },
        ]
    );
    let without = login_cookies(&user(1234567, "fay", None));
    assert_eq!(without.len(), 2);
    assert_eq!(without[0].value, "1234567");
}

#[test]
fn session_cookies_authenticate_their_user() {
    for (id, name) in [(0i64, "a"), (i64::MAX, "b"), (i64::MIN, "c"), (-5, "d")] {
        let cookies = login_cookies(&user(id, name, None));
        let back = AuthenticatedUser::from_request(Some(&cookies[0].value), Some(&cookies[1].value));
        assert_eq!(back, Some(AuthenticatedUser { name: name.to_string(), db_id: id }));
    }
}

#[test]
fn callback_decides_by_lookup() {
    let found = github_callback(&info(), UserLookup::Found(user(5, "dora", None)));
    match found {
        LoginAction::SignIn(cookies) => {
            assert_eq!(cookies.len(), 2);
            assert_eq!(cookies[0].value, "5");
            assert_eq!(cookies[1].value, "dora");
        }
        other => panic!("unexpected {:?}", other),
    }
    assert!(PRIVATE_ALPHA);
    assert_eq!(github_callback(&info(), UserLookup::NotFound), LoginAction::Reject);
    assert_eq!(github_callback(&info(), UserLookup::Failed), LoginAction::Reject);
}

#[test]
fn new_user_from_github_profile() {
    let i = info();
    assert_eq!(i.github_user_id(), "583231");
    let u = i.new_user();
    assert_eq!(u.username, "dora");
    assert_eq!(u.github_user_id, "583231");
    assert_eq!(u.avatar, Some("https://a/b.png".to_string()));
    let neg = GitHubInfo { name: "n".to_string(), id: -3, avatar_url: None };
    assert_eq!(neg.github_user_id(), "-3");
}

#[test]
fn response_user_from_user() {
    let r: ResponseUser = ResponseUser::from(user(1, "gus", Some("g.png")));
    assert_eq!(r, ResponseUser { username: "gus".to_string(), avatar: Some("g.png".to_string()) });
}

#[test]
fn home_is_front_end() {
    assert_eq!(home_url(), "http://localhost:5173/");
}

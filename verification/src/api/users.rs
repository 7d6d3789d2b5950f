//! Users as the service shows them, sign-in by GitHub, and authentication
//! from the session's cookies.

use vstd::prelude::*;

use crate::error::copy_opt_text;
use crate::model::user::User;
use crate::text::{decimal_string, decimal_text, lemma_parsed_i64_of_text, parse_i64, parsed_i64};

verus! {

/// A user as shown to others: name and avatar.
#[derive(Debug, PartialEq)]
pub struct ResponseUser {
    pub username: String,
    pub avatar: Option<String>,
}

impl Clone for ResponseUser {
    fn clone(&self) -> (r: Self)
        ensures
            r == *self,
    {
        ResponseUser { username: self.username.clone(), avatar: copy_opt_text(&self.avatar) }
    }
}

/// The shown form of a user.
pub open spec fn response_user(user: User) -> ResponseUser {
    ResponseUser { username: user.username, avatar: user.avatar }
}

/// A user is shown by their own name and avatar.
pub proof fn lemma_response_user(user: User)
    ensures
        response_user(user).username == user.username,
        response_user(user).avatar == user.avatar,
{
}

impl From<User> for ResponseUser {
    fn from(user: User) -> (r: ResponseUser) {
        ResponseUser { username: user.username, avatar: user.avatar }
    }
}

impl vstd::std_specs::convert::FromSpecImpl<User> for ResponseUser {
    open spec fn obeys_from_spec() -> bool {
        true
    }

    open spec fn from_spec(user: User) -> ResponseUser {
        response_user(user)
    }
}

/// A user signed in by the session's cookies: their name and database id.
#[derive(Debug, PartialEq)]
pub struct AuthenticatedUser {
    pub name: String,
    pub db_id: i64,
}

/// The view of an optional text.
pub open spec fn text_view(o: Option<&str>) -> Option<Seq<char>> {
    match o {
        Some(s) => Some(s@),
        None => None,
    }
}

/// The name and id of the user whom the cookies sign in: both cookies must be
/// there, and the id cookie must read as an `i64`.
pub open spec fn authenticated(id_cookie: Option<Seq<char>>, name_cookie: Option<Seq<char>>) -> Option<(Seq<char>, i64)> {
    match (id_cookie, name_cookie) {
        (Some(id_text), Some(name)) => match parsed_i64(id_text) {
            Some(id) => Some((name, id)),
            None => None,
        },
        _ => None,
    }
}

impl AuthenticatedUser {
    /// The user whom the session signs in, from the values of its private `id`
    /// cookie and its `name` cookie; nobody where either is missing or the id
    /// is not an integer.
    pub fn from_request(id_cookie: Option<&str>, name_cookie: Option<&str>) -> (r: Option<AuthenticatedUser>)
        ensures
            r is Some <==> authenticated(text_view(id_cookie), text_view(name_cookie)) is Some,
            r matches Some(u) ==> authenticated(text_view(id_cookie), text_view(name_cookie)) == Some((u.name@, u.db_id)),
            r is Some <==> (id_cookie is Some && name_cookie is Some && parsed_i64(id_cookie.unwrap()@) is Some),
            r matches Some(u) ==> u.name@ == name_cookie.unwrap()@ && parsed_i64(id_cookie.unwrap()@) == Some(u.db_id),
    {
        let id = match id_cookie {
            Some(text) => parse_i64(text),
            None => None,
        };
        let name = match name_cookie {
            Some(text) => Some(text.to_owned()),
            None => None,
        };
        match (name, id) {
            (Some(name), Some(id)) => Some(AuthenticatedUser { name, db_id: id }),
            _ => None,
        }
    }
}

/// The cookies sign in the user named by the `name` cookie, with the id that
/// the `id` cookie reads as, and nobody when a cookie is missing or the id is
/// not an integer.
pub proof fn lemma_authenticated(id_cookie: Option<Seq<char>>, name_cookie: Option<Seq<char>>)
    ensures
        authenticated(id_cookie, name_cookie) is Some <==> (id_cookie is Some && name_cookie is Some && parsed_i64(
            id_cookie.unwrap(),
        ) is Some),
        authenticated(id_cookie, name_cookie) is Some ==> authenticated(id_cookie, name_cookie).unwrap().0
            == name_cookie.unwrap() && Some(authenticated(id_cookie, name_cookie).unwrap().1) == parsed_i64(
            id_cookie.unwrap(),
        ),
{
}

/// A cookie to set: its name, its value, and whether it is private
/// (encrypted).
#[derive(Debug, PartialEq)]
pub struct CookieSpec {
    pub name: String,
    pub value: String,
    pub private: bool,
}

/// The view of a cookie: name, value, privacy.
pub open spec fn cookie_view(c: CookieSpec) -> (Seq<char>, Seq<char>, bool) {
    (c.name@, c.value@, c.private)
}

/// The cookies of a session of `user`: the private `id` cookie with the
/// decimal text of the user's id, the `name` cookie with the username, and an
/// `avatar` cookie where the user has an avatar.
pub open spec fn session_cookies(user: User) -> Seq<(Seq<char>, Seq<char>, bool)> {
    let base = seq![("id"@, decimal_text(user.id as int), true), ("name"@, user.username@, false)];
    match user.avatar {
        Some(a) => base.push(("avatar"@, a@, false)),
        None => base,
    }
}

/// A session is the private `id` cookie holding the decimal id, the public
/// `name` cookie holding the username, and a public `avatar` cookie exactly
/// when the user has an avatar.
pub proof fn lemma_session_cookies(user: User)
    ensures
        session_cookies(user).len() == if user.avatar is Some { 3int } else { 2int },
        session_cookies(user)[0] == ("id"@, decimal_text(user.id as int), true),
        session_cookies(user)[1] == ("name"@, user.username@, false),
        user.avatar is Some ==> session_cookies(user)[2] == ("avatar"@, user.avatar.unwrap()@, false),
{
}

/// The profile that GitHub gives for the signed-in account.
#[derive(Debug, PartialEq)]
pub struct GitHubInfo {
    pub name: String,
    pub id: i64,
    pub avatar_url: Option<String>,
}

/// A user to register: name, GitHub account id (as text) and avatar.
#[derive(Debug, PartialEq)]
pub struct NewUser {
    pub username: String,
    pub github_user_id: String,
    pub avatar: Option<String>,
}

/// What looking up a GitHub account among the users gave.
#[derive(Debug, PartialEq)]
pub enum UserLookup {
    Found(User),
    NotFound,
    Failed,
}

/// What a sign-in does: set the session's cookies, register a new user, or
/// refuse, answering with the lookup's error.
#[derive(Debug, PartialEq)]
pub enum LoginAction {
    SignIn(Vec<CookieSpec>),
    Register(NewUser),
    Reject,
}

/// While the service is in its private alpha, unknown accounts cannot register.
pub const PRIVATE_ALPHA: bool = true;

/// Where a browser is sent after signing in or out.
pub open spec fn home_page() -> Seq<char> {
    "http://localhost:5173/"@
}

/// The address of the service's front page.
pub fn home_url() -> (r: &'static str)
    ensures
        r@ == home_page(),
        r@ == "http://localhost:5173/"@,
{
    proof {
        reveal_strlit("http://localhost:5173/");
    }
    "http://localhost:5173/"
}

/// Builds a cookie.
fn make_cookie(name: &str, value: String, private: bool) -> (r: CookieSpec)
    ensures
        cookie_view(r) == (name@, value@, private),
{
    CookieSpec { name: name.to_owned(), value, private }
}

impl GitHubInfo {
    /// The account id as it is stored with users: its decimal text.
    pub fn github_user_id(&self) -> (r: String)
        ensures
            r@ == decimal_text(self.id as int),
    {
        decimal_string(self.id)
    }

    /// The user to register for this account.
    pub fn new_user(&self) -> (r: NewUser)
        ensures
            r.username == self.name,
            r.github_user_id@ == decimal_text(self.id as int),
            r.avatar == self.avatar_url,
    {
        NewUser {
            username: self.name.clone(),
            github_user_id: self.github_user_id(),
            avatar: copy_opt_text(&self.avatar_url),
        }
    }
}

/// The cookies that sign `user` in.
pub fn login_cookies(user: &User) -> (r: Vec<CookieSpec>)
    ensures
        r@.map_values(|c: CookieSpec| cookie_view(c)) == session_cookies(*user),
        r.len() == if user.avatar is Some { 3int } else { 2int },
        r@[0].name@ == "id"@ && r@[0].value@ == decimal_text(user.id as int) && r@[0].private,
        r@[1].name@ == "name"@ && r@[1].value@ == user.username@ && !r@[1].private,
        user.avatar is Some ==> r@[2].name@ == "avatar"@ && r@[2].value@ == user.avatar.unwrap()@ && !r@[2].private,
{
    proof {
        reveal_strlit("id");
        reveal_strlit("name");
        reveal_strlit("avatar");
    }
    let mut cookies: Vec<CookieSpec> = Vec::new();
    cookies.push(make_cookie("id", decimal_string(user.id), true));
    cookies.push(make_cookie("name", user.username.clone(), false));
    match &user.avatar {
        Some(avatar) => {
            cookies.push(make_cookie("avatar", avatar.clone(), false));
        },
        None => {},
    }
    assert(cookies@.map_values(|c: CookieSpec| cookie_view(c)) =~= session_cookies(*user));
    cookies
}

/// What signing in with the GitHub account `info` does, given what looking it
/// up among the users gave: a known user is signed in with the session's
/// cookies; an unknown account is refused during the private alpha and
/// registered otherwise; a failed lookup is refused.
pub fn github_callback(info: &GitHubInfo, lookup: UserLookup) -> (r: LoginAction)
    ensures
        lookup matches UserLookup::Found(user) ==> (r matches LoginAction::SignIn(cookies)
            && cookies@.map_values(|c: CookieSpec| cookie_view(c)) == session_cookies(user)),
        lookup matches UserLookup::Found(user) ==> (r matches LoginAction::SignIn(cookies)
            && cookies.len() == (if user.avatar is Some { 3int } else { 2int })
            && cookies@[0].name@ == "id"@ && cookies@[0].value@ == decimal_text(user.id as int) && cookies@[0].private
            && cookies@[1].name@ == "name"@ && cookies@[1].value@ == user.username@ && !cookies@[1].private
            && (user.avatar is Some ==> cookies@[2].name@ == "avatar"@ && cookies@[2].value@ == user.avatar.unwrap()@
                && !cookies@[2].private)),
        lookup is NotFound && PRIVATE_ALPHA ==> r is Reject,
        lookup is NotFound ==> r is Reject,
        lookup is NotFound && !PRIVATE_ALPHA ==> (r matches LoginAction::Register(u)
            && u.username == info.name && u.github_user_id@ == decimal_text(info.id as int)
            && u.avatar == info.avatar_url),
        lookup is Failed ==> r is Reject,
{
    match lookup {
        UserLookup::Found(user) => LoginAction::SignIn(login_cookies(&user)),
        UserLookup::NotFound => {
            if !PRIVATE_ALPHA {
                LoginAction::Register(info.new_user())
            } else {
                LoginAction::Reject
            }
        },
        UserLookup::Failed => LoginAction::Reject,
    }
}

/// A session set up for a user signs that user in again: the values of its
/// `id` and `name` cookies authenticate the user by name and id.
pub proof fn lemma_session_authenticates(user: User)
    ensures
        authenticated(Some(session_cookies(user)[0].1), Some(session_cookies(user)[1].1))
            == Some((user.username@, user.id)),
{
    lemma_parsed_i64_of_text(user.id);
}

} // verus!

//! The cookie that carries a session id.

use axum_extra::extract::cookie::Cookie;
use axum_extra::extract::CookieJar;
use vstd::prelude::*;

use crate::reply::opt_text;

verus! {

/// Which requests from other sites a cookie goes along with.
#[derive(Clone, Copy, Debug, PartialEq, Eq, Structural)]
pub enum SameSite {
    Strict,
    Lax,
    /// All of them.
    Any,
}

/// A cookie and the attributes that it is set with.
#[derive(Clone, Debug)]
pub struct SessionCookie {
    pub name: String,
    pub value: String,
    pub http_only: Option<bool>,
    pub same_site: Option<SameSite>,
    pub path: Option<String>,
    pub max_age_seconds: Option<i64>,
}

/// Whether `text` can stand as it is for the value of a cookie: visible ASCII
/// characters other than the semicolon.
pub open spec fn is_cookie_value(text: Seq<char>) -> bool {
    forall|i: int| 0 <= i < text.len() ==> '!' <= #[trigger] text[i] <= '~' && text[i] != ';'
}

/// The text that sets the cookie for `session_id`.
pub open spec fn cookie_text(session_id: Seq<char>) -> Seq<char> {
    "session_id="@ + session_id + "; HttpOnly; SameSite=Lax; Path=/; Max-Age=86400"@
}

impl SessionCookie {
    /// Whether this is the cookie for `session_id`: hidden from scripts, kept
    /// from cross-site posts, valid for the whole site and for a day.
    pub open spec fn carries(self, session_id: Seq<char>) -> bool {
        &&& self.name@ == "session_id"@
        &&& self.value@ == session_id
        &&& self.http_only == Some(true)
        &&& self.same_site == Some(SameSite::Lax)
        &&& self.path matches Some(path) && path@ == "/"@
        &&& self.max_age_seconds == Some(86400i64)
    }
}

/// The cookies of a request, and the changes to them that go with its answer.
#[verifier::external_type_specification]
#[verifier::external_body]
pub struct ExCookieJar(CookieJar);

/// The values of the cookies in a jar by their names, without those that were
/// removed.
pub uninterp spec fn cookies_in(jar: CookieJar) -> Map<Seq<char>, Seq<char>>;

/// Looks a cookie up with `CookieJar::get`, and takes its value.
///
/// Claimed: it is found just if the jar holds one of that name, and the value is
/// that one's.
#[verifier::external_body]
fn jar_get(jar: &CookieJar, name: &str) -> (value: Option<String>)
    ensures
        match value {
            Some(value) => cookies_in(*jar).contains_key(name@) && cookies_in(*jar)[name@]
                == value@,
            None => !cookies_in(*jar).contains_key(name@),
        },
{
    jar.get(name).map(|cookie| cookie.value().to_string())
}

/// Removes a cookie with `CookieJar::remove`.
///
/// Claimed: the jar then holds none of that name, and the others as before. Left
/// unsaid: what the answer tells the client, which the jar keeps to itself.
#[verifier::external_body]
fn jar_remove(jar: CookieJar, name: &str) -> (rest: CookieJar)
    ensures
        cookies_in(rest) == cookies_in(jar).remove(name@),
{
    jar.remove(Cookie::from(name.to_string()))
}

/// The session id that the cookies in a jar carry.
pub open spec fn session_id_in(jar: CookieJar) -> Option<Seq<char>> {
    if cookies_in(jar).contains_key("session_id"@) {
        Some(cookies_in(jar)["session_id"@])
    } else {
        None
    }
}

/// The session id that the cookies in a jar carry.
pub fn session_id_of(jar: &CookieJar) -> (id: Option<String>)
    ensures
        opt_text(id) == session_id_in(*jar),
{
    jar_get(jar, "session_id")
}

/// The jar without the cookie that carries the session id.
pub fn without_session_id(jar: CookieJar) -> (rest: CookieJar)
    ensures
        cookies_in(rest) == cookies_in(jar).remove("session_id"@),
        session_id_in(rest) is None,
{
    jar_remove(jar, "session_id")
}

/// Reads a cookie with `Cookie::parse`.
///
/// Claimed, of a text that sets the cookie for some session id: the parts come
/// out as they were put in.
#[verifier::external_body]
fn parse_cookie(text: String) -> (cookie: SessionCookie)
    requires
        exists|id: Seq<char>| is_cookie_value(id) && text@ == #[trigger] cookie_text(id),
    ensures
        forall|id: Seq<char>|
            is_cookie_value(id) && text@ == #[trigger] cookie_text(id) ==> cookie.carries(id),
{
    let cookie = Cookie::parse(text).unwrap();
    SessionCookie {
        name: cookie.name().to_string(),
        value: cookie.value().to_string(),
        http_only: cookie.http_only(),
        same_site: match cookie.same_site() {
            Some(axum_extra::extract::cookie::SameSite::Strict) => Some(SameSite::Strict),
            Some(axum_extra::extract::cookie::SameSite::Lax) => Some(SameSite::Lax),
            Some(axum_extra::extract::cookie::SameSite::None) => Some(SameSite::Any),
            None => None,
        },
        path: cookie.path().map(|path| path.to_string()),
        max_age_seconds: cookie.max_age().map(|age| age.whole_seconds()),
    }
}

/// The cookie for a session id.
pub fn session_cookie(session_id: &str) -> (cookie: SessionCookie)
    requires
        is_cookie_value(session_id@),
    ensures
        cookie.carries(session_id@),
{
    let text = "session_id=".to_owned().concat(session_id).concat(
        "; HttpOnly; SameSite=Lax; Path=/; Max-Age=86400",
    );
    assert(text@ == cookie_text(session_id@));
    parse_cookie(text)
}

} // verus!

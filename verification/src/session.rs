//! The cookies that carry a session to the browser.
use vstd::prelude::*;

verus! {

/// A cookie to set on the response.
#[derive(Debug)]
pub struct CookieSpec {
    pub name: String,
    pub value: String,
    /// Always `/`: the cookie is sent with every request to the site.
    pub path: String,
    /// Lifetime in seconds; negative to delete the cookie.
    pub max_age: i64,
    /// Whether scripts are kept from reading the cookie.
    pub http_only: bool,
    /// Whether the cookie is restricted to same-site requests (`SameSite=Strict`).
    pub same_site_strict: bool,
}

/// Whether `c` is the cookie `name=value` for path `/` with these attributes.
pub open spec fn cookie_is(
    c: CookieSpec,
    name: Seq<char>,
    value: Seq<char>,
    max_age: int,
    http_only: bool,
    same_site_strict: bool,
) -> bool {
    &&& c.name@ == name
    &&& c.value@ == value
    &&& c.path@ == "/"@
    &&& c.max_age == max_age
    &&& c.http_only == http_only
    &&& c.same_site_strict == same_site_strict
}

fn cookie(name: &str, value: String, max_age: i64, http_only: bool, same_site_strict: bool) -> (c: CookieSpec)
    ensures
        cookie_is(c, name@, value@, max_age as int, http_only, same_site_strict),
{
    CookieSpec {
        name: String::from_str(name),
        value,
        path: String::from_str("/"),
        max_age,
        http_only,
        same_site_strict,
    }
}

/// The cookies of a session: the token itself (`token`, hidden from scripts,
/// same-site only) and the flag `login=true` that the pages read; both live
/// `max_age` seconds.
pub fn session_cookies(token: String, max_age: i64) -> (cookies: (CookieSpec, CookieSpec))
    ensures
        cookie_is(cookies.0, "token"@, token@, max_age as int, true, true),
        cookie_is(cookies.1, "login"@, "true"@, max_age as int, false, false),
{
    let token_cookie = cookie("token", token, max_age, true, true);
    let login_cookie = cookie("login", String::from_str("true"), max_age, false, false);
    (token_cookie, login_cookie)
}

/// The cookies that end a session: both session cookies, emptied and expired.
pub fn logout_cookies() -> (cookies: (CookieSpec, CookieSpec))
    ensures
        cookie_is(cookies.0, "token"@, ""@, -1, true, true),
        cookie_is(cookies.1, "login"@, ""@, -1, false, false),
{
    let token_cookie = cookie("token", String::from_str(""), -1, true, true);
    let login_cookie = cookie("login", String::from_str(""), -1, false, false);
    (token_cookie, login_cookie)
}

/// Logging out undoes logging in: each cookie of a session is overwritten by a
/// cookie of the same name, path and attributes that is empty and already expired.
pub proof fn lemma_logout_clears_session(
    session: (CookieSpec, CookieSpec),
    logout: (CookieSpec, CookieSpec),
    token: Seq<char>,
    max_age: int,
)
    requires
        cookie_is(session.0, "token"@, token, max_age, true, true),
        cookie_is(session.1, "login"@, "true"@, max_age, false, false),
        cookie_is(logout.0, "token"@, ""@, -1, true, true),
        cookie_is(logout.1, "login"@, ""@, -1, false, false),
    ensures
        logout.0.name@ == session.0.name@ && logout.0.path@ == session.0.path@,
        logout.1.name@ == session.1.name@ && logout.1.path@ == session.1.path@,
        logout.0.http_only == session.0.http_only && logout.0.same_site_strict == session.0.same_site_strict,
        logout.1.http_only == session.1.http_only && logout.1.same_site_strict == session.1.same_site_strict,
        logout.0.value@.len() == 0 && logout.1.value@.len() == 0,
        logout.0.max_age < 0 && logout.1.max_age < 0,
{
    reveal_strlit("");
}

} // verus!

//! The session middleware and accessors: decoding the session cookie on
//! every request, the outward identity view, and logout.

use vstd::prelude::*;
use crate::codec::{decode, decode_of, CookieKey};
use crate::session::{opt_view, ClientUserInfo, Session, SpecSession};
use crate::AuthError;

verus! {

/// The name of the session cookie.
pub open spec fn spec_session_cookie_name() -> Seq<char> {
    "session"@
}

/// The name of the session cookie, for the code that reads and writes it.
pub fn session_cookie_name() -> (r: &'static str)
    ensures
        r@ == spec_session_cookie_name(),
{
    "session"
}

/// The name of the CSRF cookie.
pub open spec fn spec_csrf_cookie_name() -> Seq<char> {
    "csrf_token"@
}

/// The name of the CSRF cookie, for the code that reads and writes it.
pub fn csrf_cookie_name() -> (r: &'static str)
    ensures
        r@ == spec_csrf_cookie_name(),
{
    "csrf_token"
}

/// The session a request carries: what decoding its session cookie, if it
/// has one, yields.
pub open spec fn session_of_cookie(key: Seq<u8>, v: Option<Seq<char>>) -> Option<SpecSession> {
    match v {
        None => None,
        Some(s) => decode_of(key, s),
    }
}

/// The session middleware's work on one request: decode the session cookie
/// value, if any, and attach the result. A missing or invalid cookie
/// attaches no session; the request itself is never blocked here.
pub fn get_session(cookie_value: &Option<String>, key: &CookieKey) -> (r: Option<Session>)
    requires
        key.wf(),
    ensures
        match r {
            Some(sess) => session_of_cookie(key@, opt_view(*cookie_value)) == Some(sess@),
            None => session_of_cookie(key@, opt_view(*cookie_value)) is None,
        },
{
    match cookie_value {
        None => None,
        Some(v) => decode(v.as_str(), key),
    }
}

/// The identity accessor: the claims of the attached session, without the
/// subject identifier, or `Unauthorized` when no session is attached.
pub fn me_response(session: &Option<Session>) -> (r: Result<ClientUserInfo, AuthError>)
    ensures
        session is None ==> r == Err::<ClientUserInfo, AuthError>(AuthError::Unauthorized),
        (*session) matches Some(s) ==> {
            &&& r matches Ok(c)
            &&& opt_view(c.email) == opt_view(s.user_info.email)
            &&& opt_view(c.name) == opt_view(s.user_info.name)
            &&& opt_view(c.preferred_username) == opt_view(s.user_info.preferred_username)
        },
{
    match session {
        None => Err(AuthError::Unauthorized),
        Some(s) => Ok(ClientUserInfo::of_user_info(&s.user_info)),
    }
}

/// A browser cookie jar, modelled as a map from cookie name to value, after
/// logout has removed the session cookie.
pub open spec fn jar_after_logout(jar: Map<Seq<char>, Seq<char>>) -> Map<Seq<char>, Seq<char>> {
    jar.remove(spec_session_cookie_name())
}

/// The session a jar yields: what the middleware attaches for a request
/// carrying these cookies.
pub open spec fn jar_session(jar: Map<Seq<char>, Seq<char>>, key: Seq<u8>) -> Option<SpecSession> {
    if jar.dom().contains(spec_session_cookie_name()) {
        decode_of(key, jar[spec_session_cookie_name()])
    } else {
        None
    }
}

/// Idempotent logout: once the session cookie is removed the jar yields no
/// session under any key, and removing it again changes nothing, so a
/// second logout is safe and yields no session as well.
pub proof fn lemma_logout_idempotent(jar: Map<Seq<char>, Seq<char>>, key: Seq<u8>)
    ensures
        jar_session(jar_after_logout(jar), key) is None,
        jar_after_logout(jar_after_logout(jar)) =~= jar_after_logout(jar),
{
}

} // verus!

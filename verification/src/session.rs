//! The session record carried, encrypted, in the client's cookie, and the
//! identity claims embedded in it.

use vstd::prelude::*;

verus! {

/// Identity attributes asserted by the provider about the authenticated
/// subject. The subject identifier is mandatory; the other claims are
/// optional pass-through fields.
#[derive(Clone, Debug, PartialEq)]
pub struct UserInfo {
    pub sub: String,
    pub email: Option<String>,
    pub name: Option<String>,
    pub preferred_username: Option<String>,
}

/// A session as stored, encrypted, in the client's cookie: the provider's
/// tokens plus the user's claims. The cookie is the session's sole storage;
/// the server holds no copy.
#[derive(Clone, Debug, PartialEq)]
pub struct Session {
    pub access_token: String,
    pub id_token: String,
    pub user_info: UserInfo,
}

/// The externally visible view of a user's identity: the claims without the
/// subject identifier, which is deliberately excluded from responses.
#[derive(Clone, Debug, PartialEq)]
pub struct ClientUserInfo {
    pub email: Option<String>,
    pub name: Option<String>,
    pub preferred_username: Option<String>,
}

/// The mathematical view of an optional string.
pub open spec fn opt_view(o: Option<String>) -> Option<Seq<char>> {
    match o {
        Some(s) => Some(s@),
        None => None,
    }
}

/// Mathematical model of [`UserInfo`].
pub struct SpecUserInfo {
    pub sub: Seq<char>,
    pub email: Option<Seq<char>>,
    pub name: Option<Seq<char>>,
    pub preferred_username: Option<Seq<char>>,
}

/// Mathematical model of [`Session`].
pub struct SpecSession {
    pub access_token: Seq<char>,
    pub id_token: Seq<char>,
    pub user_info: SpecUserInfo,
}

impl View for UserInfo {
    type V = SpecUserInfo;

    open spec fn view(&self) -> SpecUserInfo {
        SpecUserInfo {
            sub: self.sub@,
            email: opt_view(self.email),
            name: opt_view(self.name),
            preferred_username: opt_view(self.preferred_username),
        }
    }
}

impl View for Session {
    type V = SpecSession;

    open spec fn view(&self) -> SpecSession {
        SpecSession {
            access_token: self.access_token@,
            id_token: self.id_token@,
            user_info: self.user_info@,
        }
    }
}

impl UserInfo {
    /// Copies the claims, field for field.
    pub fn duplicate(&self) -> (r: UserInfo)
        ensures
            r@ == self@,
    {
        UserInfo {
            sub: self.sub.clone(),
            email: clone_opt(&self.email),
            name: clone_opt(&self.name),
            preferred_username: clone_opt(&self.preferred_username),
        }
    }
}

impl ClientUserInfo {
    /// The outward identity view of `u`: every claim but the subject.
    pub fn of_user_info(u: &UserInfo) -> (r: ClientUserInfo)
        ensures
            opt_view(r.email) == opt_view(u.email),
            opt_view(r.name) == opt_view(u.name),
            opt_view(r.preferred_username) == opt_view(u.preferred_username),
    {
        ClientUserInfo {
            email: clone_opt(&u.email),
            name: clone_opt(&u.name),
            preferred_username: clone_opt(&u.preferred_username),
        }
    }
}

impl From<UserInfo> for ClientUserInfo {
    fn from(value: UserInfo) -> (r: ClientUserInfo) {
        ClientUserInfo {
            email: value.email,
            name: value.name,
            preferred_username: value.preferred_username,
        }
    }
}

impl vstd::std_specs::convert::FromSpecImpl<UserInfo> for ClientUserInfo {
    open spec fn obeys_from_spec() -> bool {
        true
    }

    open spec fn from_spec(t: UserInfo) -> ClientUserInfo {
        ClientUserInfo {
            email: t.email,
            name: t.name,
            preferred_username: t.preferred_username,
        }
    }
}

/// Clones an optional string, field for field.
pub fn clone_opt(o: &Option<String>) -> (r: Option<String>)
    ensures
        opt_view(r) == opt_view(*o),
{
    match o {
        Some(s) => Some(s.clone()),
        None => None,
    }
}

} // verus!

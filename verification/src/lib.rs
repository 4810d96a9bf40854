//! Verified core of an OpenID-Connect authorization-code login flow with
//! client-side encrypted session cookies.
//!
//! The library holds the security-sensitive logic: the cookie codec
//! (serialization plus authenticated encryption), the CSRF guard, the
//! authorization-URL builder, the gated callback sequence, and the session
//! accessors. Network transport and HTTP framing live outside, in an
//! unverified shell that hands this library plain values.

pub mod hexfmt;
pub mod callback;
pub mod access;
pub mod csrf;
pub mod config;
pub mod login;
pub mod session;
pub mod codec;

use vstd::prelude::*;

verus! {

/// Error taxonomy of the authentication subsystem.
///
/// `ConfigError` is fatal at startup, `BadRequest` is a client fault
/// (missing or inconsistent callback parameters, CSRF mismatch),
/// `UpstreamError` is a provider-side failure during code exchange or
/// user-info fetch, and `Unauthorized` means no valid session is attached.
#[derive(Clone, Copy, Debug, PartialEq, Eq, Structural)]
pub enum AuthError {
    ConfigError,
    BadRequest,
    UpstreamError,
    Unauthorized,
}

impl AuthError {
    /// The HTTP status each error is surfaced as.
    pub fn status_code(&self) -> (r: u16)
        ensures
            *self == AuthError::ConfigError ==> r == 500,
            *self == AuthError::BadRequest ==> r == 400,
            *self == AuthError::UpstreamError ==> r == 500,
            *self == AuthError::Unauthorized ==> r == 401,
    {
        match self {
            AuthError::ConfigError => 500,
            AuthError::BadRequest => 400,
            AuthError::UpstreamError => 500,
            AuthError::Unauthorized => 401,
        }
    }
}

} // verus!

//! Process-lifetime configuration: the provider descriptor resolved at
//! startup, and the cookie signing key, loaded from a configured secret or
//! generated afresh for development runs.

use vstd::prelude::*;
use crate::codec::CookieKey;
use crate::csrf::random_bytes;
use crate::AuthError;

verus! {

/// The immutable descriptor of the identity provider, as the login flow
/// reads it: the authorization endpoint and the client's registration.
/// Resolved once at startup via discovery; shared read-only afterwards.
pub struct ProviderConfig {
    pub auth_endpoint: String,
    pub client_id: String,
    pub redirect_uri: String,
}

/// Mathematical model of [`ProviderConfig`].
pub struct SpecProviderConfig {
    pub auth_endpoint: Seq<char>,
    pub client_id: Seq<char>,
    pub redirect_uri: Seq<char>,
}

impl View for ProviderConfig {
    type V = SpecProviderConfig;

    open spec fn view(&self) -> SpecProviderConfig {
        SpecProviderConfig {
            auth_endpoint: self.auth_endpoint@,
            client_id: self.client_id@,
            redirect_uri: self.redirect_uri@,
        }
    }
}

impl ProviderConfig {
    /// A well-formed descriptor holds ASCII fields, as URLs and client
    /// registrations are.
    pub open spec fn wf(&self) -> bool {
        &&& vstd::utf8::is_ascii_chars(self.auth_endpoint@)
        &&& vstd::utf8::is_ascii_chars(self.client_id@)
        &&& vstd::utf8::is_ascii_chars(self.redirect_uri@)
    }

    /// Builds the descriptor, rejecting non-ASCII configuration.
    pub fn new(auth_endpoint: String, client_id: String, redirect_uri: String) -> (r: Result<
        ProviderConfig,
        AuthError,
    >)
        ensures
            match r {
                Ok(cfg) => {
                    &&& cfg.wf()
                    &&& cfg.auth_endpoint@ == auth_endpoint@
                    &&& cfg.client_id@ == client_id@
                    &&& cfg.redirect_uri@ == redirect_uri@
                },
                Err(e) => {
                    &&& e == AuthError::ConfigError
                    &&& !(vstd::utf8::is_ascii_chars(auth_endpoint@)
                        && vstd::utf8::is_ascii_chars(client_id@)
                        && vstd::utf8::is_ascii_chars(redirect_uri@))
                },
            },
    {
        if auth_endpoint.as_str().is_ascii() && client_id.as_str().is_ascii()
            && redirect_uri.as_str().is_ascii() {
            Ok(ProviderConfig { auth_endpoint, client_id, redirect_uri })
        } else {
            Err(AuthError::ConfigError)
        }
    }
}

/// Everything a request-handling task needs: the provider descriptor and
/// the cookie signing key. Built once at startup, then shared read-only.
pub struct AuthState {
    pub provider: ProviderConfig,
    pub cookie_key: CookieKey,
}

impl AuthState {
    /// A well-formed state holds a well-formed descriptor and a full-length
    /// key.
    pub open spec fn wf(&self) -> bool {
        &&& self.provider.wf()
        &&& self.cookie_key.wf()
    }

    /// Assembles the process state from its two parts.
    pub fn new(provider: ProviderConfig, cookie_key: CookieKey) -> (r: AuthState)
        requires
            provider.wf(),
            cookie_key.wf(),
        ensures
            r.wf(),
            r.provider@ == provider@,
            r.cookie_key@ == cookie_key@,
    {
        AuthState { provider, cookie_key }
    }
}

/// What base64 decoding with the standard alphabet makes of a string: the
/// decoded bytes, or nothing when the string is not base64. A deterministic
/// function of the input; this name stands for the result of
/// `base64::Engine::decode`.
pub uninterp spec fn b64_decode_of(s: Seq<char>) -> Option<Seq<u8>>;

/// Relies on `base64::Engine::decode` with the standard alphabet: it
/// decodes a base64 string to its bytes and rejects anything else.
#[verifier::external_body]
fn b64_decode(s: &str) -> (r: Option<Vec<u8>>)
    ensures
        match r {
            Some(b) => b64_decode_of(s@) == Some(b@),
            None => b64_decode_of(s@) is None,
        },
{
    base64::Engine::decode(&base64::engine::general_purpose::STANDARD, s).ok()
}

/// Parses the configured cookie secret: base64 of exactly 32 bytes.
/// Anything else — bad base64 or a wrong length — is a configuration error.
pub fn key_from_base64(secret: &str) -> (r: Result<CookieKey, AuthError>)
    ensures
        match r {
            Ok(k) => {
                &&& b64_decode_of(secret@) == Some(k@)
                &&& k.wf()
            },
            Err(e) => {
                &&& e == AuthError::ConfigError
                &&& match b64_decode_of(secret@) {
                    Some(b) => b.len() != 32,
                    None => true,
                }
            },
        },
{
    match b64_decode(secret) {
        None => Err(AuthError::ConfigError),
        Some(bytes) => CookieKey::from_bytes(bytes),
    }
}

/// A fresh random key for development runs without a configured secret.
/// A new key each process start invalidates all prior sessions — an
/// operational property of dev mode, not a fault.
pub fn fresh_key() -> (r: CookieKey)
    ensures
        r.wf(),
{
    let bytes = random_bytes(32);
    match CookieKey::from_bytes(bytes) {
        Ok(k) => k,
        Err(_) => vstd::pervasive::unreached(),
    }
}

} // verus!

//! The callback handler's gates: an explicit linear validation sequence,
//! each stage a pure function from the values seen so far to the next step; the unverified shell only performs the network calls a step asks
//! for and feeds the outcome back. No step proceeds past a failed prior
//! step, and no session cookie exists outside the final success step.

use vstd::prelude::*;
use crate::codec::{decode_of, encode, lemma_codec_round_trip, CookieKey};
use crate::csrf::verify_state;
use crate::session::{opt_view, Session, SpecSession, UserInfo};

verus! {

/// The query parameters the provider sends to the callback endpoint.
pub struct CallbackQuery {
    pub code: Option<String>,
    pub state: Option<String>,
    pub error: Option<String>,
}

/// How the callback request is answered.
///
/// `RedirectLoginError` sends the browser to the login-failure page and
/// writes no cookie. `BadRequest` and `ServerError` are the client-fault
/// and provider-fault errors. `Success` carries the sealed session cookie
/// value; the caller must set the session cookie to it, clear the CSRF
/// cookie, and redirect to the application root. No other variant sets any
/// cookie.
pub enum CallbackResponse {
    RedirectLoginError,
    BadRequest,
    ServerError,
    Success { session_cookie: String },
}

/// The next step of the sequence: a finished response, or one outside call
/// to make. `FetchTokens` asks for the code exchange; `FetchClaims` asks
/// for the user-info request with the freshly obtained access token.
pub enum CallbackStep {
    Done(CallbackResponse),
    FetchTokens { code: String },
    FetchClaims { access_token: String, id_token: Option<String> },
}

/// What the code exchange at the provider's token endpoint produced.
pub enum TokenOutcome {
    Failed,
    Tokens { access_token: String, id_token: Option<String> },
}

/// What the user-info request produced.
pub enum ClaimsOutcome {
    Failed,
    Claims { user_info: UserInfo },
}

/// The callback's entry gates, in order: a provider-reported error redirects
/// to the login-failure page; a missing `code`, `state` or CSRF cookie is a
/// client fault; a `state` differing from the stored CSRF cookie value is a
/// client fault whatever the code; only a matching attempt proceeds to the
/// token exchange. No network call is asked for except through
/// `FetchTokens`.
pub fn callback_begin(q: &CallbackQuery, csrf_cookie: &Option<String>) -> (r: CallbackStep)
    ensures
        q.error is Some ==> r == CallbackStep::Done(CallbackResponse::RedirectLoginError),
        q.error is None && (q.code is None || q.state is None || csrf_cookie is None)
            ==> r == CallbackStep::Done(CallbackResponse::BadRequest),
        q.error is None ==> (q.code matches Some(code) ==> (q.state matches Some(state)
            ==> (*csrf_cookie matches Some(cookie) ==> if state@ == cookie@ {
            r matches CallbackStep::FetchTokens { code: c } && c@ == code@
        } else {
            r == CallbackStep::Done(CallbackResponse::BadRequest)
        }))),
{
    if q.error.is_some() {
        return CallbackStep::Done(CallbackResponse::RedirectLoginError);
    }
    let code = match &q.code {
        Some(c) => c,
        None => {
            return CallbackStep::Done(CallbackResponse::BadRequest);
        },
    };
    let state = match &q.state {
        Some(s) => s,
        None => {
            return CallbackStep::Done(CallbackResponse::BadRequest);
        },
    };
    let cookie = match csrf_cookie {
        Some(c) => c,
        None => {
            return CallbackStep::Done(CallbackResponse::BadRequest);
        },
    };
    if verify_state(state, cookie) {
        CallbackStep::FetchTokens { code: code.clone() }
    } else {
        CallbackStep::Done(CallbackResponse::BadRequest)
    }
}

/// Decides how the outcome of the token exchange continues the callback:
/// a failure becomes a server error and nothing more happens; a success
/// carries the tokens on to the user-info request.
pub fn callback_with_tokens(outcome: &TokenOutcome) -> (r: CallbackStep)
    ensures
        outcome is Failed ==> r == CallbackStep::Done(CallbackResponse::ServerError),
        (*outcome) matches TokenOutcome::Tokens { access_token, id_token } ==> {
            &&& r matches CallbackStep::FetchClaims { access_token: a, id_token: i }
            &&& a@ == access_token@
            &&& opt_view(i) == opt_view(id_token)
        },
{
    match outcome {
        TokenOutcome::Failed => CallbackStep::Done(CallbackResponse::ServerError),
        TokenOutcome::Tokens { access_token, id_token } => CallbackStep::FetchClaims {
            access_token: access_token.clone(),
            id_token: crate::session::clone_opt(id_token),
        },
    }
}

/// The final gate: a failed user-info request, or a token response without
/// an identity token, is a provider fault and writes no cookie. Otherwise
/// the session is assembled from the tokens and claims and sealed under
/// `key`; the resulting cookie value decodes, under the same key, to
/// exactly that session.
pub fn callback_with_claims(
    access_token: String,
    id_token: Option<String>,
    claims: &ClaimsOutcome,
    key: &CookieKey,
) -> (r: CallbackStep)
    requires
        key.wf(),
    ensures
        claims is Failed || id_token is None ==> r == CallbackStep::Done(
            CallbackResponse::ServerError,
        ),
        claims matches ClaimsOutcome::Claims { user_info } ==> (id_token matches Some(idt) ==> {
            &&& r matches CallbackStep::Done(CallbackResponse::Success { session_cookie })
            &&& decode_of(key@, session_cookie@) == Some(
                SpecSession {
                    access_token: access_token@,
                    id_token: idt@,
                    user_info: user_info@,
                },
            )
        }),
{
    let user_info = match claims {
        ClaimsOutcome::Failed => {
            return CallbackStep::Done(CallbackResponse::ServerError);
        },
        ClaimsOutcome::Claims { user_info } => user_info,
    };
    let idt = match id_token {
        None => {
            return CallbackStep::Done(CallbackResponse::ServerError);
        },
        Some(idt) => idt,
    };
    let session = Session {
        access_token,
        id_token: idt,
        user_info: user_info.duplicate(),
    };
    let session_cookie = encode(&session, key);
    proof {
        lemma_codec_round_trip(session@, key@, session_cookie@);
    }
    CallbackStep::Done(CallbackResponse::Success { session_cookie })
}

/// Where each finished response redirects the browser, if anywhere: the
/// login-failure page on a provider-reported error, the application root on
/// success, and nowhere on an error status.
pub fn redirect_target(r: &CallbackResponse) -> (t: Option<&'static str>)
    ensures
        *r == CallbackResponse::RedirectLoginError ==> (t matches Some(s) && s@
            == "/login?error=auth_failed"@),
        (*r) matches CallbackResponse::Success { .. } ==> (t matches Some(s) && s@ == "/"@),
        *r == CallbackResponse::BadRequest || *r == CallbackResponse::ServerError ==> t is None,
{
    match r {
        CallbackResponse::RedirectLoginError => Some("/login?error=auth_failed"),
        CallbackResponse::Success { .. } => Some("/"),
        CallbackResponse::BadRequest => None,
        CallbackResponse::ServerError => None,
    }
}

} // verus!

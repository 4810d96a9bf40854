use oidc_session::access::{csrf_cookie_name, get_session, me_response, session_cookie_name};
use oidc_session::callback::{
    callback_begin, callback_with_claims, callback_with_tokens, redirect_target, CallbackQuery,
    CallbackResponse, CallbackStep, ClaimsOutcome, TokenOutcome,
};
use oidc_session::codec::CookieKey;
use oidc_session::config::{AuthState, ProviderConfig};
use oidc_session::login::begin_login;
use oidc_session::session::UserInfo;
use oidc_session::AuthError;

fn test_state() -> AuthState {
    let provider = ProviderConfig::new(
        "https://issuer.example/authorize".to_string(),
        "client me".to_string(),
        "http://localhost:8080/auth/callback".to_string(),
    )
    .unwrap();
    let key = CookieKey::from_bytes(vec![9u8; 32]).unwrap();
    AuthState::new(provider, key)
}

fn query(code: Option<&str>, state: Option<&str>, error: Option<&str>) -> CallbackQuery {
    CallbackQuery {
        code: code.map(|s| s.to_string()),
        state: state.map(|s| s.to_string()),
        error: error.map(|s| s.to_string()),
    }
}

fn claims() -> ClaimsOutcome {
    ClaimsOutcome::Claims {
        user_info: UserInfo {
            sub: "user-1".to_string(),
            email: Some("ada@example.com".to_string()),
            name: Some("Ada".to_string()),
            preferred_username: Some("ada".to_string()),
        },
    }
}

#[test]
fn login_builds_url_with_matching_state() {
    let st = test_state();
    let redirect = begin_login(&st.provider);
    assert_eq!(redirect.csrf_token.chars().count(), 32);
    assert!(redirect.url.starts_with("https://issuer.example/authorize?response_type=code"));
    assert!(redirect.url.contains(&format!("&state={}", redirect.csrf_token)));
    assert!(redirect.url.contains(&format!("&nonce={}", redirect.nonce)));
    // The client id and redirect URI are percent-encoded.
    assert!(redirect.url.contains("&client_id=client%20me"));
    assert!(redirect.url.contains(
        "&redirect_uri=http%3a%2f%2flocalhost%3a8080%2fauth%2fcallback"
    ));
    assert!(redirect.url.contains("&scope=openid%20profile%20email"));
}

#[test]
fn two_login_attempts_use_distinct_tokens() {
    let st = test_state();
    let a = begin_login(&st.provider);
    let b = begin_login(&st.provider);
    assert_ne!(a.csrf_token, b.csrf_token);
    assert_ne!(a.nonce, b.nonce);
}

#[test]
fn provider_error_redirects_without_exchange() {
    let q = query(Some("abc"), Some("tok"), Some("access_denied"));
    let step = callback_begin(&q, &Some("tok".to_string()));
    match step {
        CallbackStep::Done(resp) => {
            assert_eq!(redirect_target(&resp), Some("/login?error=auth_failed"));
            assert!(!matches!(resp, CallbackResponse::Success { .. }));
        },
        _ => panic!("a provider error must not reach the token exchange"),
    }
}

#[test]
fn missing_code_is_bad_request() {
    let q = query(None, Some("tok"), None);
    let step = callback_begin(&q, &Some("tok".to_string()));
    assert!(matches!(step, CallbackStep::Done(CallbackResponse::BadRequest)));
}

#[test]
fn missing_state_is_bad_request() {
    let q = query(Some("abc"), None, None);
    let step = callback_begin(&q, &Some("tok".to_string()));
    assert!(matches!(step, CallbackStep::Done(CallbackResponse::BadRequest)));
}

#[test]
fn missing_csrf_cookie_is_bad_request() {
    let q = query(Some("abc"), Some("tok"), None);
    let step = callback_begin(&q, &None);
    assert!(matches!(step, CallbackStep::Done(CallbackResponse::BadRequest)));
}

#[test]
fn csrf_mismatch_is_bad_request_whatever_the_code() {
    let q = query(Some("a-perfectly-valid-code"), Some("tok-a"), None);
    let step = callback_begin(&q, &Some("tok-b".to_string()));
    assert!(matches!(step, CallbackStep::Done(CallbackResponse::BadRequest)));
}

#[test]
fn matching_state_proceeds_to_exchange() {
    let q = query(Some("abc"), Some("tok"), None);
    let step = callback_begin(&q, &Some("tok".to_string()));
    match step {
        CallbackStep::FetchTokens { code } => assert_eq!(code, "abc"),
        _ => panic!("a matching attempt must proceed to the token exchange"),
    }
}

#[test]
fn failed_exchange_leaves_no_session_cookie() {
    let step = callback_with_tokens(&TokenOutcome::Failed);
    assert!(matches!(step, CallbackStep::Done(CallbackResponse::ServerError)));
}

#[test]
fn failed_claims_fetch_leaves_no_session_cookie() {
    let st = test_state();
    let step = callback_with_claims(
        "tok".to_string(),
        Some("idt".to_string()),
        &ClaimsOutcome::Failed,
        &st.cookie_key,
    );
    assert!(matches!(step, CallbackStep::Done(CallbackResponse::ServerError)));
}

#[test]
fn missing_id_token_leaves_no_session_cookie() {
    let st = test_state();
    let step = callback_with_claims("tok".to_string(), None, &claims(), &st.cookie_key);
    assert!(matches!(step, CallbackStep::Done(CallbackResponse::ServerError)));
}

#[test]
fn full_flow_sets_session_and_serves_identity() {
    let st = test_state();

    // Initiate login: the CSRF cookie value equals the state in the URL.
    let redirect = begin_login(&st.provider);
    assert!(redirect.url.contains(&format!("&state={}", redirect.csrf_token)));
    let csrf_cookie = Some(redirect.csrf_token.clone());

    // The provider calls back with code "abc" and the matching state.
    let q = query(Some("abc"), Some(redirect.csrf_token.as_str()), None);
    let step = callback_begin(&q, &csrf_cookie);
    let code = match step {
        CallbackStep::FetchTokens { code } => code,
        _ => panic!("the matching callback must proceed"),
    };
    assert_eq!(code, "abc");

    // The code exchange succeeds.
    let outcome = TokenOutcome::Tokens {
        access_token: "at-789".to_string(),
        id_token: Some("idt-789".to_string()),
    };
    let step = callback_with_tokens(&outcome);
    let (access_token, id_token) = match step {
        CallbackStep::FetchClaims { access_token, id_token } => (access_token, id_token),
        _ => panic!("a successful exchange must proceed to the user-info request"),
    };

    // The user-info request succeeds; the session cookie is set and the
    // browser is sent to the application root.
    let step = callback_with_claims(access_token, id_token, &claims(), &st.cookie_key);
    let session_cookie = match step {
        CallbackStep::Done(CallbackResponse::Success { session_cookie }) => {
            assert_eq!(
                redirect_target(&CallbackResponse::Success {
                    session_cookie: session_cookie.clone()
                }),
                Some("/")
            );
            session_cookie
        },
        _ => panic!("the completed flow must set a session"),
    };

    // A later request carrying the cookie is attached the session, and the
    // identity accessor serves the claims without the subject.
    let attached = get_session(&Some(session_cookie), &st.cookie_key);
    let session = attached.expect("the session cookie must decode");
    assert_eq!(session.access_token, "at-789");
    assert_eq!(session.id_token, "idt-789");
    assert_eq!(session.user_info.sub, "user-1");
    let me = me_response(&Some(session)).unwrap();
    assert_eq!(me.email.as_deref(), Some("ada@example.com"));
    assert_eq!(me.name.as_deref(), Some("Ada"));
    assert_eq!(me.preferred_username.as_deref(), Some("ada"));
}

#[test]
fn me_without_session_is_unauthorized() {
    assert_eq!(me_response(&None), Err(AuthError::Unauthorized));
    assert_eq!(AuthError::Unauthorized.status_code(), 401);
    assert_eq!(AuthError::BadRequest.status_code(), 400);
    assert_eq!(AuthError::UpstreamError.status_code(), 500);
    assert_eq!(AuthError::ConfigError.status_code(), 500);
}

#[test]
fn logout_twice_yields_no_session_both_times() {
    let st = test_state();
    // After logout the jar holds no session cookie; the middleware attaches
    // no session, and a second removal is the same no-op.
    let jar: Option<String> = None;
    assert_eq!(get_session(&jar, &st.cookie_key), None);
    assert_eq!(get_session(&jar, &st.cookie_key), None);
}

#[test]
fn cookie_names_are_fixed() {
    assert_eq!(session_cookie_name(), "session");
    assert_eq!(csrf_cookie_name(), "csrf_token");
}

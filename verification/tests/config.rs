use base64::Engine;
use oidc_session::config::{fresh_key, key_from_base64, ProviderConfig};
use oidc_session::csrf::{fresh_token, verify_state};
use oidc_session::AuthError;

#[test]
fn key_loads_from_base64_of_32_bytes() {
    let secret = base64::engine::general_purpose::STANDARD.encode([5u8; 32]);
    assert!(key_from_base64(secret.as_str()).is_ok());
}

#[test]
fn key_rejects_wrong_length() {
    let short = base64::engine::general_purpose::STANDARD.encode([5u8; 16]);
    assert!(matches!(key_from_base64(short.as_str()), Err(AuthError::ConfigError)));
    let long = base64::engine::general_purpose::STANDARD.encode([5u8; 48]);
    assert!(matches!(key_from_base64(long.as_str()), Err(AuthError::ConfigError)));
}

#[test]
fn key_rejects_bad_base64() {
    assert!(matches!(key_from_base64("*** not base64 ***"), Err(AuthError::ConfigError)));
    assert!(matches!(key_from_base64(""), Err(AuthError::ConfigError)));
}

#[test]
fn fresh_key_works_without_configuration() {
    // Dev mode: no configured secret, a generated key is well-formed.
    let _k = fresh_key();
}

#[test]
fn provider_config_rejects_non_ascii() {
    let r = ProviderConfig::new(
        "https://issuer.example/authorizé".to_string(),
        "client".to_string(),
        "http://localhost/cb".to_string(),
    );
    assert!(r.is_err());
}

#[test]
fn csrf_tokens_are_hex_and_long_enough() {
    let t = fresh_token();
    assert_eq!(t.chars().count(), 32);
    assert!(t.chars().all(|c| c.is_ascii_hexdigit() && !c.is_ascii_uppercase()));
}

#[test]
fn csrf_verification_is_exact_equality() {
    assert!(verify_state(&"abc".to_string(), &"abc".to_string()));
    assert!(!verify_state(&"abc".to_string(), &"abd".to_string()));
    assert!(!verify_state(&"abc".to_string(), &"ab".to_string()));
    assert!(!verify_state(&"".to_string(), &"abc".to_string()));
}

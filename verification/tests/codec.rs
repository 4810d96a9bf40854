use oidc_session::codec::{decode, decode_session_str, encode, encode_session_str, CookieKey};
use oidc_session::session::{ClientUserInfo, Session, UserInfo};

fn key_a() -> CookieKey {
    CookieKey::from_bytes(vec![7u8; 32]).unwrap()
}

fn key_b() -> CookieKey {
    CookieKey::from_bytes(vec![8u8; 32]).unwrap()
}

fn sample_session() -> Session {
    Session {
        access_token: "at-123".to_string(),
        id_token: "idt-456".to_string(),
        user_info: UserInfo {
            sub: "user-1".to_string(),
            email: Some("a@example.com".to_string()),
            name: Some("Ada Example".to_string()),
            preferred_username: Some("ada".to_string()),
        },
    }
}

#[test]
fn round_trip_full_session() {
    let key = key_a();
    let s = sample_session();
    let cookie = encode(&s, &key);
    let back = decode(cookie.as_str(), &key);
    assert_eq!(back, Some(s));
}

#[test]
fn round_trip_minimal_session() {
    let key = key_a();
    let s = Session {
        access_token: String::new(),
        id_token: String::new(),
        user_info: UserInfo {
            sub: String::new(),
            email: None,
            name: None,
            preferred_username: None,
        },
    };
    let cookie = encode(&s, &key);
    assert_eq!(decode(cookie.as_str(), &key), Some(s));
}

#[test]
fn round_trip_unicode_fields() {
    let key = key_a();
    let s = Session {
        access_token: "tok".to_string(),
        id_token: "idt".to_string(),
        user_info: UserInfo {
            sub: "sub-π".to_string(),
            email: None,
            name: Some("Grüße 东京".to_string()),
            preferred_username: Some("gr:üße".to_string()),
        },
    };
    let cookie = encode(&s, &key);
    assert_eq!(decode(cookie.as_str(), &key), Some(s));
}

#[test]
fn tampering_any_character_is_rejected() {
    let key = key_a();
    let cookie = encode(&sample_session(), &key);
    let chars: Vec<char> = cookie.chars().collect();
    for i in 0..chars.len() {
        let mut tampered = chars.clone();
        tampered[i] = if tampered[i] == 'A' { 'B' } else { 'A' };
        let tampered: String = tampered.into_iter().collect();
        if tampered == cookie {
            continue;
        }
        assert_eq!(decode(tampered.as_str(), &key), None, "position {}", i);
    }
}

#[test]
fn truncation_is_rejected() {
    let key = key_a();
    let cookie = encode(&sample_session(), &key);
    let shorter: String = cookie.chars().take(cookie.chars().count() - 1).collect();
    assert_eq!(decode(shorter.as_str(), &key), None);
    assert_eq!(decode("", &key), None);
    assert_eq!(decode("not a cookie at all", &key), None);
}

#[test]
fn key_isolation() {
    let s = sample_session();
    let cookie = encode(&s, &key_a());
    assert_eq!(decode(cookie.as_str(), &key_b()), None);
}

#[test]
fn cookie_value_is_not_the_plaintext() {
    let key = key_a();
    let s = sample_session();
    let cookie = encode(&s, &key);
    assert!(!cookie.contains("at-123"));
    assert!(!cookie.contains("a@example.com"));
}

#[test]
fn two_encodings_both_decode() {
    // Sealing is randomized; both independent encodings must decode.
    let key = key_a();
    let s = sample_session();
    let c1 = encode(&s, &key);
    let c2 = encode(&s, &key);
    assert_eq!(decode(c1.as_str(), &key), Some(s.clone()));
    assert_eq!(decode(c2.as_str(), &key), Some(s));
}

#[test]
fn serialization_round_trips_without_crypto() {
    let s = sample_session();
    let plain = encode_session_str(&s);
    assert_eq!(decode_session_str(plain.as_str()), Some(s));
}

#[test]
fn serialization_rejects_trailing_garbage() {
    let s = sample_session();
    let mut plain = encode_session_str(&s);
    plain.push('x');
    assert_eq!(decode_session_str(plain.as_str()), None);
    assert_eq!(decode_session_str(""), None);
    assert_eq!(decode_session_str("0000000000000003abc"), None);
}

#[test]
fn client_view_drops_the_subject() {
    let s = sample_session();
    let c = ClientUserInfo::from(s.user_info.clone());
    assert_eq!(c.email, s.user_info.email);
    assert_eq!(c.name, s.user_info.name);
    assert_eq!(c.preferred_username, s.user_info.preferred_username);
}

#[test]
fn key_must_hold_32_bytes() {
    assert!(CookieKey::from_bytes(vec![1u8; 31]).is_err());
    assert!(CookieKey::from_bytes(vec![1u8; 33]).is_err());
    assert!(CookieKey::from_bytes(Vec::new()).is_err());
    assert!(CookieKey::from_bytes(vec![1u8; 32]).is_ok());
}

//! The cookie codec: a verified serialization of [`Session`] into a string,
//! wrapped in authenticated encryption, so that the session can live
//! entirely in the client's cookie jar, tamper-proof and confidential.
//!
//! `encode` serializes and then seals; `decode` unseals and then parses.
//! Any integrity failure or malformed payload yields `None` — an invalid
//! cookie degrades to "no session", it is never partially trusted.

use vstd::prelude::*;
use vstd::string::{StrSliceExecFns, StringExecFns};
use crate::hexfmt::{
    all_hex, hex_seq, hex_seq_val, lemma_hex_seq_val, lemma_pow16_vals, parse_hex, push_hex,
};
use crate::session::{opt_view, Session, SpecSession, SpecUserInfo, UserInfo};
use crate::AuthError;

verus! {

/// A string short enough for its length to fit the fixed-width prefix.
pub open spec fn fits(s: Seq<char>) -> bool {
    s.len() < 0x10000000000000000
}

/// An optional string whose payload, if any, fits the length prefix.
pub open spec fn opt_fits(o: Option<Seq<char>>) -> bool {
    match o {
        Some(s) => fits(s),
        None => true,
    }
}

/// A session all of whose fields fit their length prefixes. Every session a
/// program can hold satisfies this; it bounds the serialization format.
pub open spec fn session_fits(s: SpecSession) -> bool {
    &&& fits(s.access_token)
    &&& fits(s.id_token)
    &&& fits(s.user_info.sub)
    &&& opt_fits(s.user_info.email)
    &&& opt_fits(s.user_info.name)
    &&& opt_fits(s.user_info.preferred_username)
}

/// A string field serialized: a 16-digit hexadecimal character count, then
/// the characters themselves.
pub open spec fn enc_str(s: Seq<char>) -> Seq<char> {
    hex_seq(s.len(), 16) + s
}

/// An optional field serialized: `N` for absent, `S` and the field for
/// present.
pub open spec fn enc_opt(o: Option<Seq<char>>) -> Seq<char> {
    match o {
        None => seq!['N'],
        Some(s) => seq!['S'] + enc_str(s),
    }
}

/// A session serialized: its five fields in a fixed order.
pub open spec fn enc_session(s: SpecSession) -> Seq<char> {
    enc_str(s.access_token) + enc_str(s.id_token) + enc_str(s.user_info.sub)
        + enc_opt(s.user_info.email) + enc_opt(s.user_info.name)
        + enc_opt(s.user_info.preferred_username)
}

/// Reads one length-prefixed field; yields the field and the rest of the
/// input, or nothing if the input is malformed.
pub open spec fn parse_str(p: Seq<char>) -> Option<(Seq<char>, Seq<char>)> {
    if p.len() < 16 {
        None
    } else if !all_hex(p.subrange(0, 16)) {
        None
    } else {
        let n = hex_seq_val(p.subrange(0, 16)) as int;
        if p.len() < 16 + n {
            None
        } else {
            Some((p.subrange(16, 16 + n), p.skip(16 + n)))
        }
    }
}

/// Reads one optional field: `N`, or `S` followed by a field.
pub open spec fn parse_opt(p: Seq<char>) -> Option<(Option<Seq<char>>, Seq<char>)> {
    if p.len() == 0 {
        None
    } else if p[0] == 'N' {
        Some((None, p.skip(1)))
    } else if p[0] == 'S' {
        match parse_str(p.skip(1)) {
            Some(r) => Some((Some(r.0), r.1)),
            None => None,
        }
    } else {
        None
    }
}

/// Reads a whole serialized session; nothing may follow it.
pub open spec fn parse_session(p: Seq<char>) -> Option<SpecSession> {
    match parse_str(p) {
        None => None,
        Some((access_token, p1)) => match parse_str(p1) {
            None => None,
            Some((id_token, p2)) => match parse_str(p2) {
                None => None,
                Some((sub, p3)) => match parse_opt(p3) {
                    None => None,
                    Some((email, p4)) => match parse_opt(p4) {
                        None => None,
                        Some((name, p5)) => match parse_opt(p5) {
                            None => None,
                            Some((preferred_username, p6)) => if p6.len() == 0 {
                                Some(SpecSession {
                                    access_token,
                                    id_token,
                                    user_info: SpecUserInfo { sub, email, name, preferred_username },
                                })
                            } else {
                                None
                            },
                        },
                    },
                },
            },
        },
    }
}

proof fn lemma_parse_enc_str(s: Seq<char>, rest: Seq<char>)
    requires
        fits(s),
    ensures
        parse_str(enc_str(s) + rest) == Some((s, rest)),
{
    let p = enc_str(s) + rest;
    lemma_pow16_vals();
    lemma_hex_seq_val(s.len(), 16);
    assert(p.subrange(0, 16) =~= hex_seq(s.len(), 16));
    assert(hex_seq_val(p.subrange(0, 16)) == s.len());
    assert(p.subrange(16, 16 + s.len() as int) =~= s);
    assert(p.skip(16 + s.len() as int) =~= rest);
}

proof fn lemma_parse_enc_opt(o: Option<Seq<char>>, rest: Seq<char>)
    requires
        opt_fits(o),
    ensures
        parse_opt(enc_opt(o) + rest) == Some((o, rest)),
{
    let p = enc_opt(o) + rest;
    match o {
        None => {
            assert(p[0] == 'N');
            assert(p.skip(1) =~= rest);
        },
        Some(s) => {
            assert(p[0] == 'S');
            assert(p.skip(1) =~= enc_str(s) + rest);
            lemma_parse_enc_str(s, rest);
        },
    }
}

/// Parsing a serialized session yields the session back: the serialization
/// format is lossless.
pub proof fn lemma_parse_enc_session(s: SpecSession)
    requires
        session_fits(s),
    ensures
        parse_session(enc_session(s)) == Some(s),
{
    let e_at = enc_str(s.access_token);
    let e_it = enc_str(s.id_token);
    let e_sub = enc_str(s.user_info.sub);
    let e_em = enc_opt(s.user_info.email);
    let e_nm = enc_opt(s.user_info.name);
    let e_pu = enc_opt(s.user_info.preferred_username);
    let empty = Seq::<char>::empty();
    let p = enc_session(s);
    assert(p =~= e_at + (e_it + (e_sub + (e_em + (e_nm + (e_pu + empty))))));
    lemma_parse_enc_str(s.access_token, e_it + (e_sub + (e_em + (e_nm + (e_pu + empty)))));
    lemma_parse_enc_str(s.id_token, e_sub + (e_em + (e_nm + (e_pu + empty))));
    lemma_parse_enc_str(s.user_info.sub, e_em + (e_nm + (e_pu + empty)));
    lemma_parse_enc_opt(s.user_info.email, e_nm + (e_pu + empty));
    lemma_parse_enc_opt(s.user_info.name, e_pu + empty);
    lemma_parse_enc_opt(s.user_info.preferred_username, empty);
    assert(e_pu + empty =~= e_pu);
}

/// The symmetric master key under which session cookies are sealed.
/// Immutable for the process lifetime.
pub struct CookieKey {
    bytes: Vec<u8>,
}

impl View for CookieKey {
    type V = Seq<u8>;

    closed spec fn view(&self) -> Seq<u8> {
        self.bytes@
    }
}

impl CookieKey {
    /// A well-formed key holds exactly 32 bytes of keying material.
    pub open spec fn wf(&self) -> bool {
        self@.len() == 32
    }

    /// Whether the key holds its full 32 bytes, as every key this library
    /// hands out does.
    pub fn is_well_formed(&self) -> (r: bool)
        ensures
            r == self.wf(),
    {
        self.bytes.len() == 32
    }

    /// Wraps a 32-byte secret as the cookie signing key; any other length
    /// is a configuration error.
    pub fn from_bytes(bytes: Vec<u8>) -> (r: Result<CookieKey, AuthError>)
        ensures
            match r {
                Ok(k) => bytes@.len() == 32 && k@ == bytes@ && k.wf(),
                Err(e) => bytes@.len() != 32 && e == AuthError::ConfigError,
            },
    {
        if bytes.len() == 32 {
            Ok(CookieKey { bytes })
        } else {
            Err(AuthError::ConfigError)
        }
    }
}

/// What authenticated decryption under `key` makes of a sealed cookie value:
/// the recovered plaintext, or nothing when the value is not an intact seal
/// under that key. Decryption is a deterministic function of the key and the
/// value; this name stands for the result of `cookie::PrivateJar::decrypt`.
pub uninterp spec fn unseal_of(key: Seq<u8>, sealed: Seq<char>) -> Option<Seq<char>>;

/// Relies on the `cookie` crate's private jar (AES-256-GCM with a key
/// derived deterministically by `cookie::Key::derive_from`): a value added
/// through `PrivateJar` is stored sealed, and `PrivateJar::decrypt` under
/// the same key always recovers the plaintext.
#[verifier::external_body]
fn seal(key: &CookieKey, plain: &str) -> (r: String)
    requires
        key@.len() >= 32,
    ensures
        unseal_of(key@, r@) == Some(plain@),
{
    let master = cookie::Key::derive_from(&key.bytes);
    let mut jar = cookie::CookieJar::new();
    jar.private_mut(&master).add(cookie::Cookie::new("session", plain.to_string()));
    jar.get("session").expect("the jar holds the cookie just added").value().to_string()
}

/// Relies on `cookie::PrivateJar::decrypt`: it authenticates and decrypts a
/// sealed value, returning the plaintext exactly when the seal is intact
/// under this key, and nothing otherwise.
#[verifier::external_body]
fn unseal(key: &CookieKey, sealed: &str) -> (r: Option<String>)
    requires
        key@.len() >= 32,
    ensures
        match r {
            Some(p) => unseal_of(key@, sealed@) == Some(p@),
            None => unseal_of(key@, sealed@) is None,
        },
{
    let master = cookie::Key::derive_from(&key.bytes);
    let jar = cookie::CookieJar::new();
    let sealed_cookie = cookie::Cookie::new("session", sealed.to_string());
    jar.private(&master).decrypt(sealed_cookie).map(|c| c.value().to_string())
}

/// What `decode` makes of a cookie value under a key: unseal, then parse.
pub open spec fn decode_of(key: Seq<u8>, value: Seq<char>) -> Option<SpecSession> {
    match unseal_of(key, value) {
        Some(p) => parse_session(p),
        None => None,
    }
}

/// Serializes `session` and seals it under `key` into a cookie value.
/// Whatever sealed string comes back, it unseals to exactly the
/// serialization of `session`.
pub fn encode(session: &Session, key: &CookieKey) -> (r: String)
    requires
        key.wf(),
    ensures
        unseal_of(key@, r@) == Some(enc_session(session@)),
        session_fits(session@),
{
    let plain = encode_session_str(session);
    seal(key, plain.as_str())
}

/// Unseals a cookie value under `key` and parses the session out of it.
/// Returns `None` — never an error — on any integrity failure or malformed
/// payload, so that an invalid cookie degrades to "no session".
pub fn decode(value: &str, key: &CookieKey) -> (r: Option<Session>)
    requires
        key.wf(),
    ensures
        match r {
            Some(sess) => decode_of(key@, value@) == Some(sess@),
            None => decode_of(key@, value@) is None,
        },
{
    match unseal(key, value) {
        None => None,
        Some(p) => decode_session_str(p.as_str()),
    }
}

/// Round trip: any cookie value produced by `encode(s, k)` — that is, any
/// value that unseals under `k` to the serialization of `s` — decodes under
/// `k` to exactly `s`.
pub proof fn lemma_codec_round_trip(s: SpecSession, key: Seq<u8>, sealed: Seq<char>)
    requires
        session_fits(s),
        unseal_of(key, sealed) == Some(enc_session(s)),
    ensures
        decode_of(key, sealed) == Some(s),
{
    lemma_parse_enc_session(s);
}

/// Appends one length-prefixed field to `out`.
fn push_field(out: &mut String, f: &str)
    ensures
        final(out)@ == old(out)@ + enc_str(f@),
        fits(f@),
{
    let n = f.unicode_len();
    push_hex(out, n as u64, 16);
    out.append(f);
    proof {
        assert(final(out)@ =~= old(out)@ + enc_str(f@));
    }
}

/// Appends one optional field to `out`.
fn push_opt(out: &mut String, o: &Option<String>)
    ensures
        final(out)@ == old(out)@ + enc_opt(opt_view(*o)),
        opt_fits(opt_view(*o)),
{
    proof {
        reveal_strlit("N");
        reveal_strlit("S");
    }
    match o {
        None => {
            out.append("N");
            proof {
                assert(final(out)@ =~= old(out)@ + enc_opt(opt_view(*o)));
            }
        },
        Some(s) => {
            out.append("S");
            push_field(out, s.as_str());
            proof {
                assert(final(out)@ =~= old(out)@ + enc_opt(opt_view(*o)));
            }
        },
    }
}

/// Serializes a session into the string that the codec seals.
pub fn encode_session_str(s: &Session) -> (r: String)
    ensures
        r@ == enc_session(s@),
        session_fits(s@),
{
    let mut out = String::new();
    push_field(&mut out, s.access_token.as_str());
    push_field(&mut out, s.id_token.as_str());
    push_field(&mut out, s.user_info.sub.as_str());
    push_opt(&mut out, &s.user_info.email);
    push_opt(&mut out, &s.user_info.name);
    push_opt(&mut out, &s.user_info.preferred_username);
    proof {
        assert(out@ =~= enc_session(s@));
    }
    out
}

/// Reads one length-prefixed field of `s` starting at character position
/// `pos`; on success returns the field and the position after it.
fn parse_str_at(s: &str, pos: usize) -> (r: Option<(String, usize)>)
    requires
        pos <= s@.len(),
        s@.len() <= usize::MAX,
    ensures
        match r {
            Some(pr) => {
                &&& pos <= pr.1 <= s@.len()
                &&& parse_str(s@.skip(pos as int)) == Some((pr.0@, s@.skip(pr.1 as int)))
            },
            None => parse_str(s@.skip(pos as int)) is None,
        },
{
    let ghost p = s@.skip(pos as int);
    let len = s.unicode_len();
    if len - pos < 16 {
        return None;
    }
    proof {
        assert(p.subrange(0, 16) =~= s@.subrange(pos as int, pos + 16));
    }
    let n64 = match parse_hex(s, pos, 16) {
        Some(n) => n,
        None => {
            return None;
        },
    };
    let avail = len - pos - 16;
    if n64 > avail as u64 {
        return None;
    }
    let n = n64 as usize;
    let vstr = s.substring_char(pos + 16, pos + 16 + n);
    let value = vstr.to_owned();
    proof {
        assert(p.subrange(16, 16 + n as int) =~= s@.subrange(pos + 16, pos + 16 + n as int));
        assert(p.skip(16 + n as int) =~= s@.skip(pos + 16 + n as int));
    }
    Some((value, pos + 16 + n))
}

/// Reads one optional field of `s` starting at character position `pos`.
fn parse_opt_at(s: &str, pos: usize) -> (r: Option<(Option<String>, usize)>)
    requires
        pos <= s@.len(),
        s@.len() <= usize::MAX,
    ensures
        match r {
            Some(pr) => {
                &&& pos <= pr.1 <= s@.len()
                &&& parse_opt(s@.skip(pos as int)) == Some((opt_view(pr.0), s@.skip(pr.1 as int)))
            },
            None => parse_opt(s@.skip(pos as int)) is None,
        },
{
    let ghost p = s@.skip(pos as int);
    let len = s.unicode_len();
    if pos == len {
        return None;
    }
    let c = s.get_char(pos);
    assert(p[0] == c);
    if c == 'N' {
        proof {
            assert(p.skip(1) =~= s@.skip(pos + 1));
        }
        Some((None, pos + 1))
    } else if c == 'S' {
        proof {
            assert(p.skip(1) =~= s@.skip(pos + 1));
        }
        match parse_str_at(s, pos + 1) {
            Some((v, newpos)) => Some((Some(v), newpos)),
            None => None,
        }
    } else {
        None
    }
}

/// Parses a serialized session. Accepts exactly the strings that
/// [`encode_session_str`] produces; anything else yields `None`.
pub fn decode_session_str(s: &str) -> (r: Option<Session>)
    ensures
        match r {
            Some(sess) => parse_session(s@) == Some(sess@),
            None => parse_session(s@) is None,
        },
{
    let len = s.unicode_len();
    proof {
        assert(s@.skip(0) =~= s@);
    }
    let (access_token, p1) = match parse_str_at(s, 0) {
        Some(r) => r,
        None => {
            return None;
        },
    };
    let (id_token, p2) = match parse_str_at(s, p1) {
        Some(r) => r,
        None => {
            return None;
        },
    };
    let (sub, p3) = match parse_str_at(s, p2) {
        Some(r) => r,
        None => {
            return None;
        },
    };
    let (email, p4) = match parse_opt_at(s, p3) {
        Some(r) => r,
        None => {
            return None;
        },
    };
    let (name, p5) = match parse_opt_at(s, p4) {
        Some(r) => r,
        None => {
            return None;
        },
    };
    let (preferred_username, p6) = match parse_opt_at(s, p5) {
        Some(r) => r,
        None => {
            return None;
        },
    };
    if p6 != len {
        proof {
            assert(s@.skip(p6 as int).len() > 0);
        }
        return None;
    }
    proof {
        assert(s@.skip(p6 as int).len() == 0);
    }
    Some(Session {
        access_token,
        id_token,
        user_info: UserInfo { sub, email, name, preferred_username },
    })
}

} // verus!

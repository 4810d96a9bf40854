//! The CSRF guard: a per-login-attempt random token, stored in a short-lived
//! cookie and checked for exact equality against the `state` parameter the
//! provider sends back.

use vstd::prelude::*;
use crate::hexfmt::{all_hex, bytes_to_hex, hex_of_bytes, hex_seq, is_hex_digit,
    lemma_hex_seq_val};
use vstd::arithmetic::power::pow;

verus! {

/// Relies on `rand::Rng::fill` over `rand::thread_rng`: fills a buffer of
/// the requested length with random bytes. Nothing can be promised of the
/// bytes themselves.
#[verifier::external_body]
pub(crate) fn random_bytes(n: usize) -> (r: Vec<u8>)
    ensures
        r@.len() == n,
{
    let mut buf = vec![0u8; n];
    rand::Rng::fill(&mut rand::thread_rng(), buf.as_mut_slice());
    buf
}

proof fn lemma_hex_of_bytes_all_hex(b: Seq<u8>)
    ensures
        all_hex(hex_of_bytes(b)),
    decreases b.len(),
{
    reveal(pow);
    if b.len() > 0 {
        lemma_hex_of_bytes_all_hex(b.drop_last());
        assert(pow(16, 0) == 1);
        assert(pow(16, 1) == 16);
        assert(pow(16, 2) == 256);
        assert((b.last() as nat) < pow(16, 2));
        lemma_hex_seq_val(b.last() as nat, 2);
        let tail = hex_seq(b.last() as nat, 2);
        let whole = hex_of_bytes(b);
        assert(whole == hex_of_bytes(b.drop_last()) + tail);
        assert(forall|i: int| 0 <= i < whole.len() ==> is_hex_digit(#[trigger] whole[i]));
    }
}

/// A fresh opaque token for one login attempt: 16 random bytes — at least
/// 128 bits of entropy — rendered in hexadecimal, so every character is a
/// hexadecimal digit and the token is safe to place in a URL unescaped.
pub fn fresh_token() -> (r: String)
    ensures
        r@.len() == 32,
        all_hex(r@),
{
    let bytes = random_bytes(16);
    let token = bytes_to_hex(&bytes);
    proof {
        lemma_hex_of_bytes_all_hex(bytes@);
    }
    token
}

/// The anti-CSRF check: the `state` parameter of the callback must equal,
/// character for character, the token stored in the CSRF cookie. Checked
/// against the stored cookie value only, never against any client-supplied
/// duplicate.
pub fn verify_state(state: &String, csrf_cookie: &String) -> (r: bool)
    ensures
        r == (state@ == csrf_cookie@),
{
    <String as PartialEq>::eq(state, csrf_cookie)
}

} // verus!

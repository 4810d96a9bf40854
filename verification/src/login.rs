//! The login initiator: builds the provider authorization URL with CSRF
//! token and nonce embedded, so that the browser can be redirected there
//! while the CSRF token is stored in its own short-lived cookie.

use vstd::prelude::*;
use vstd::string::{StrSliceExecFns, StringExecFns};
use vstd::utf8::is_ascii_chars;
use crate::config::{ProviderConfig, SpecProviderConfig};
use crate::csrf::fresh_token;
use crate::hexfmt::{all_hex, hex_seq, push_hex};

verus! {

/// A character that percent-encoding passes through unchanged.
pub open spec fn is_unreserved(c: char) -> bool {
    ||| ('A' <= c && c <= 'Z')
    ||| ('a' <= c && c <= 'z')
    ||| ('0' <= c && c <= '9')
    ||| c == '-'
    ||| c == '.'
    ||| c == '_'
    ||| c == '~'
}

/// One character percent-encoded: itself if unreserved, else a percent
/// sign and its two hexadecimal digits.
pub open spec fn pct_char(c: char) -> Seq<char> {
    if is_unreserved(c) {
        seq![c]
    } else {
        seq!['%'] + hex_seq((c as int) as nat, 2)
    }
}

/// An ASCII string percent-encoded character by character.
pub open spec fn pct_encode(s: Seq<char>) -> Seq<char>
    decreases s.len(),
{
    if s.len() == 0 {
        Seq::empty()
    } else {
        pct_encode(s.drop_last()) + pct_char(s.last())
    }
}

/// Percent-encodes an ASCII string for use as a URL query parameter value.
pub fn percent_encode(s: &str) -> (r: String)
    requires
        is_ascii_chars(s@),
    ensures
        r@ == pct_encode(s@),
{
    let mut out = String::new();
    let len = s.unicode_len();
    let mut i: usize = 0;
    while i < len
        invariant
            0 <= i <= len,
            len == s@.len(),
            is_ascii_chars(s@),
            out@ == pct_encode(s@.subrange(0, i as int)),
        decreases len - i,
    {
        let c = s.get_char(i);
        assert('\0' <= c <= '\u{7f}');
        if ('A' <= c && c <= 'Z') || ('a' <= c && c <= 'z') || ('0' <= c && c <= '9')
            || c == '-' || c == '.' || c == '_' || c == '~' {
            out.append(s.substring_char(i, i + 1));
            proof {
                assert(s@.subrange(i as int, i + 1) =~= seq![c]);
            }
        } else {
            out.append("%");
            push_hex(&mut out, c as u64, 2);
            proof {
                reveal_strlit("%");
                assert((c as u64) as nat == (c as int) as nat);
            }
        }
        proof {
            let cur = s@.subrange(0, i as int);
            let next = s@.subrange(0, i + 1);
            assert(next.drop_last() =~= cur);
            assert(next.last() == c);
            assert(out@ =~= pct_encode(next));
        }
        i = i + 1;
    }
    assert(s@.subrange(0, len as int) =~= s@);
    out
}

/// A token of hexadecimal digits is URL-safe: percent-encoding would leave
/// it unchanged, so the authorization URL may carry it verbatim.
pub proof fn lemma_hex_token_is_url_safe(s: Seq<char>)
    requires
        all_hex(s),
    ensures
        pct_encode(s) =~= s,
    decreases s.len(),
{
    if s.len() > 0 {
        assert(all_hex(s.drop_last()));
        lemma_hex_token_is_url_safe(s.drop_last());
        assert(crate::hexfmt::is_hex_digit(s.last()));
        assert(is_unreserved(s.last()));
    }
}

/// The provider authorization URL for one login attempt: the authorization
/// endpoint with the code response type, this client's identity and
/// redirect URI, the `openid profile email` scopes, and the attempt's CSRF
/// token and nonce.
pub open spec fn auth_url_of(cfg: SpecProviderConfig, state: Seq<char>, nonce: Seq<char>) -> Seq<
    char,
> {
    cfg.auth_endpoint + "?response_type=code&client_id="@ + pct_encode(cfg.client_id)
        + "&redirect_uri="@ + pct_encode(cfg.redirect_uri)
        + "&scope=openid%20profile%20email&state="@ + state + "&nonce="@ + nonce
}

/// Builds the authorization URL. `state` and `nonce` must be URL-safe,
/// which the tokens of [`fresh_token`] are.
pub fn auth_url(cfg: &ProviderConfig, state: &str, nonce: &str) -> (r: String)
    requires
        cfg.wf(),
    ensures
        r@ == auth_url_of(cfg@, state@, nonce@),
{
    let mut out = String::new();
    out.append(cfg.auth_endpoint.as_str());
    out.append("?response_type=code&client_id=");
    let enc_client = percent_encode(cfg.client_id.as_str());
    out.append(enc_client.as_str());
    out.append("&redirect_uri=");
    let enc_redirect = percent_encode(cfg.redirect_uri.as_str());
    out.append(enc_redirect.as_str());
    out.append("&scope=openid%20profile%20email&state=");
    out.append(state);
    out.append("&nonce=");
    out.append(nonce);
    proof {
        assert(out@ =~= auth_url_of(cfg@, state@, nonce@));
    }
    out
}

/// What the login initiator hands back: where to send the browser, the
/// CSRF token to store in the attempt's cookie, and the nonce embedded in
/// the URL.
pub struct LoginRedirect {
    pub url: String,
    pub csrf_token: String,
    pub nonce: String,
}

/// Begins a login attempt: generates a CSRF token and a nonce, and builds
/// the authorization URL carrying both. The caller must set the CSRF cookie
/// to `csrf_token` before the browser observes the redirect.
pub fn begin_login(cfg: &ProviderConfig) -> (r: LoginRedirect)
    requires
        cfg.wf(),
    ensures
        r.url@ == auth_url_of(cfg@, r.csrf_token@, r.nonce@),
        r.csrf_token@.len() == 32,
        all_hex(r.csrf_token@),
        r.nonce@.len() == 32,
        all_hex(r.nonce@),
{
    let csrf_token = fresh_token();
    let nonce = fresh_token();
    let url = auth_url(cfg, csrf_token.as_str(), nonce.as_str());
    LoginRedirect { url, csrf_token, nonce }
}

} // verus!

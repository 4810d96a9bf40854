//! Lower-case hexadecimal rendering of natural numbers, used by the cookie
//! codec for fixed-width length prefixes and by the CSRF guard for rendering
//! random bytes as an opaque token.

use vstd::prelude::*;
use vstd::arithmetic::power::pow;
use vstd::arithmetic::div_mod::{lemma_fundamental_div_mod, lemma_multiply_divide_lt};
use vstd::string::StrSliceExecFns;

verus! {

/// The lower-case hexadecimal digit for a value below 16.
pub open spec fn hex_digit(d: int) -> char {
    if d == 0 { '0' } else if d == 1 { '1' } else if d == 2 { '2' } else if d == 3 { '3' }
    else if d == 4 { '4' } else if d == 5 { '5' } else if d == 6 { '6' } else if d == 7 { '7' }
    else if d == 8 { '8' } else if d == 9 { '9' } else if d == 10 { 'a' } else if d == 11 { 'b' }
    else if d == 12 { 'c' } else if d == 13 { 'd' } else if d == 14 { 'e' } else { 'f' }
}

/// Whether `c` is a lower-case hexadecimal digit.
pub open spec fn is_hex_digit(c: char) -> bool {
    ('0' <= c && c <= '9') || ('a' <= c && c <= 'f')
}

/// The value of a lower-case hexadecimal digit.
pub open spec fn hex_val(c: char) -> nat {
    if '0' <= c && c <= '9' {
        ((c as int) - ('0' as int)) as nat
    } else if 'a' <= c && c <= 'f' {
        ((c as int) - ('a' as int) + 10) as nat
    } else {
        0
    }
}

/// The `k` least significant hexadecimal digits of `n`, most significant
/// first.
pub open spec fn hex_seq(n: nat, k: nat) -> Seq<char>
    decreases k,
{
    if k == 0 {
        Seq::empty()
    } else {
        hex_seq(n / 16, (k - 1) as nat).push(hex_digit((n % 16) as int))
    }
}

/// Whether every character of `s` is a lower-case hexadecimal digit.
pub open spec fn all_hex(s: Seq<char>) -> bool {
    forall|i: int| 0 <= i < s.len() ==> is_hex_digit(#[trigger] s[i])
}

/// The number denoted by a sequence of hexadecimal digits, most significant
/// first.
pub open spec fn hex_seq_val(s: Seq<char>) -> nat
    decreases s.len(),
{
    if s.len() == 0 {
        0
    } else {
        hex_seq_val(s.drop_last()) * 16 + hex_val(s.last())
    }
}

proof fn lemma_hex_digit_val(d: int)
    requires
        0 <= d < 16,
    ensures
        is_hex_digit(hex_digit(d)),
        hex_val(hex_digit(d)) == d,
{
}

/// Reading back the digits of `n` yields `n`, for any `n` that fits in `k`
/// digits.
pub proof fn lemma_hex_seq_val(n: nat, k: nat)
    requires
        n < pow(16, k),
    ensures
        hex_seq(n, k).len() == k,
        all_hex(hex_seq(n, k)),
        hex_seq_val(hex_seq(n, k)) == n,
    decreases k,
{
    reveal(pow);
    if k == 0 {
        assert(pow(16, 0) == 1);
        assert(hex_seq(n, k) =~= Seq::<char>::empty());
    } else {
        let n2 = n / 16;
        let d = (n % 16) as int;
        assert(pow(16, k) == 16 * pow(16, (k - 1) as nat));
        lemma_multiply_divide_lt(n as int, 16, pow(16, (k - 1) as nat));
        lemma_hex_seq_val(n2, (k - 1) as nat);
        lemma_hex_digit_val(d);
        let s = hex_seq(n, k);
        assert(s == hex_seq(n2, (k - 1) as nat).push(hex_digit(d)));
        assert(s.drop_last() =~= hex_seq(n2, (k - 1) as nat));
        assert(s.last() == hex_digit(d));
        lemma_fundamental_div_mod(n as int, 16);
        assert(forall|i: int| 0 <= i < s.len() ==> is_hex_digit(#[trigger] s[i]));
    }
}

/// Every `k`-digit number is below `pow(16, k)`.
pub proof fn lemma_hex_seq_val_bound(s: Seq<char>)
    ensures
        hex_seq_val(s) < pow(16, s.len()),
    decreases s.len(),
{
    reveal(pow);
    if s.len() == 0 {
        assert(pow(16, 0) == 1);
    } else {
        lemma_hex_seq_val_bound(s.drop_last());
        assert(pow(16, s.len()) == 16 * pow(16, (s.len() - 1) as nat));
        assert(hex_val(s.last()) < 16);
    }
}

/// A one-character string slice holding the hexadecimal digit for `d`.
pub fn hex_char_str(d: u64) -> (r: &'static str)
    requires
        d < 16,
    ensures
        r@ =~= seq![hex_digit(d as int)],
{
    proof {
        reveal_strlit("0"); reveal_strlit("1"); reveal_strlit("2"); reveal_strlit("3");
        reveal_strlit("4"); reveal_strlit("5"); reveal_strlit("6"); reveal_strlit("7");
        reveal_strlit("8"); reveal_strlit("9"); reveal_strlit("a"); reveal_strlit("b");
        reveal_strlit("c"); reveal_strlit("d"); reveal_strlit("e"); reveal_strlit("f");
    }
    match d {
        0 => "0", 1 => "1", 2 => "2", 3 => "3",
        4 => "4", 5 => "5", 6 => "6", 7 => "7",
        8 => "8", 9 => "9", 10 => "a", 11 => "b",
        12 => "c", 13 => "d", 14 => "e", _ => "f",
    }
}

/// The value of `c` as a hexadecimal digit, or `None` if `c` is none.
pub fn hex_val_of(c: char) -> (r: Option<u64>)
    ensures
        match r {
            Some(d) => is_hex_digit(c) && d == hex_val(c) && d < 16,
            None => !is_hex_digit(c),
        },
{
    if '0' <= c && c <= '9' {
        Some((c as u64) - ('0' as u64))
    } else if 'a' <= c && c <= 'f' {
        Some((c as u64) - ('a' as u64) + 10)
    } else {
        None
    }
}

/// Appends the `k` least significant hexadecimal digits of `n` to `out`,
/// most significant first.
pub fn push_hex(out: &mut String, n: u64, k: usize)
    ensures
        final(out)@ == old(out)@ + hex_seq(n as nat, k as nat),
    decreases k,
{
    if k == 0 {
        assert(out@ =~= old(out)@ + hex_seq(n as nat, 0));
    } else {
        let ghost prev = out@;
        push_hex(out, n / 16, k - 1);
        let digit = hex_char_str(n % 16);
        out.append(digit);
        proof {
            assert(n as nat % 16 == (n % 16) as nat);
            assert(n as nat / 16 == (n / 16) as nat);
            assert(out@ =~= prev + hex_seq(n as nat, k as nat));
        }
    }
}

/// Reads `k` hexadecimal digits of `s` starting at character position `pos`.
/// Returns `None` when a character there is not a lower-case hexadecimal
/// digit.
pub fn parse_hex(s: &str, pos: usize, k: usize) -> (r: Option<u64>)
    requires
        pos + k <= s@.len(),
        s@.len() <= usize::MAX,
        k <= 16,
    ensures
        match r {
            Some(n) => {
                &&& all_hex(s@.subrange(pos as int, pos + k))
                &&& n as nat == hex_seq_val(s@.subrange(pos as int, pos + k))
            },
            None => !all_hex(s@.subrange(pos as int, pos + k)),
        },
{
    let mut acc: u64 = 0;
    let mut i: usize = 0;
    while i < k
        invariant
            0 <= i <= k,
            k <= 16,
            pos + k <= s@.len(),
            s@.len() <= usize::MAX,
            all_hex(s@.subrange(pos as int, pos + i)),
            acc as nat == hex_seq_val(s@.subrange(pos as int, pos + i)),
        decreases k - i,
    {
        let c = s.get_char(pos + i);
        match hex_val_of(c) {
            Some(d) => {
                proof {
                    let cur = s@.subrange(pos as int, pos + i);
                    let next = s@.subrange(pos as int, pos + i + 1);
                    assert(next.drop_last() =~= cur);
                    assert(next.last() == c);
                    lemma_hex_seq_val_bound(cur);
                    vstd::arithmetic::power::lemma_pow_increases(16, i as nat, 15);
                    lemma_pow16_vals();
                    assert(acc as nat <= pow(16, 15));
                }
                acc = acc * 16 + d;
                i = i + 1;
            },
            None => {
                proof {
                    let whole = s@.subrange(pos as int, pos + k);
                    assert(whole[i as int] == c);
                    assert(!is_hex_digit(whole[i as int]));
                }
                return None;
            },
        }
    }
    assert(s@.subrange(pos as int, pos + i) =~= s@.subrange(pos as int, pos + k));
    Some(acc)
}

/// Numeric values of the powers of 16 that bound a `u64` and its prefixes.
pub proof fn lemma_pow16_vals()
    ensures
        pow(16, 15) == 0x1000000000000000,
        pow(16, 16) == 0x10000000000000000,
{
    reveal(pow);
    assert(pow(16, 0) == 1);
    assert(pow(16, 1) == 16);
    assert(pow(16, 2) == 0x100);
    assert(pow(16, 3) == 0x1000);
    assert(pow(16, 4) == 0x10000);
    assert(pow(16, 5) == 0x100000);
    assert(pow(16, 6) == 0x1000000);
    assert(pow(16, 7) == 0x10000000);
    assert(pow(16, 8) == 0x100000000);
    assert(pow(16, 9) == 0x1000000000);
    assert(pow(16, 10) == 0x10000000000);
    assert(pow(16, 11) == 0x100000000000);
    assert(pow(16, 12) == 0x1000000000000);
    assert(pow(16, 13) == 0x10000000000000);
    assert(pow(16, 14) == 0x100000000000000);
    assert(pow(16, 15) == 0x1000000000000000);
    assert(pow(16, 16) == 0x10000000000000000);
}

/// The hexadecimal rendering of a byte string: two digits for each byte.
pub open spec fn hex_of_bytes(b: Seq<u8>) -> Seq<char>
    decreases b.len(),
{
    if b.len() == 0 {
        Seq::empty()
    } else {
        hex_of_bytes(b.drop_last()) + hex_seq(b.last() as nat, 2)
    }
}

/// Renders a byte string in lower-case hexadecimal.
pub fn bytes_to_hex(b: &Vec<u8>) -> (r: String)
    ensures
        r@ == hex_of_bytes(b@),
        r@.len() == 2 * b@.len(),
{
    let mut out = String::new();
    let mut i: usize = 0;
    proof {
        lemma_hex_of_bytes_len(b@.subrange(0, 0));
    }
    while i < b.len()
        invariant
            0 <= i <= b@.len(),
            out@ == hex_of_bytes(b@.subrange(0, i as int)),
            out@.len() == 2 * i,
        decreases b@.len() - i,
    {
        let byte = b[i];
        push_hex(&mut out, byte as u64, 2);
        proof {
            let cur = b@.subrange(0, i as int);
            let next = b@.subrange(0, i + 1);
            assert(next.drop_last() =~= cur);
            assert(next.last() == byte);
            assert(hex_seq(byte as nat, 2).len() == 2) by {
                lemma_hex_seq_len(byte as nat, 2);
            }
        }
        i = i + 1;
    }
    assert(b@.subrange(0, i as int) =~= b@);
    out
}

/// The hexadecimal rendering of `n` in `k` digits has `k` characters.
pub proof fn lemma_hex_seq_len(n: nat, k: nat)
    ensures
        hex_seq(n, k).len() == k,
    decreases k,
{
    if k > 0 {
        lemma_hex_seq_len(n / 16, (k - 1) as nat);
    }
}

proof fn lemma_hex_of_bytes_len(b: Seq<u8>)
    ensures
        hex_of_bytes(b).len() == 2 * b.len(),
    decreases b.len(),
{
    if b.len() > 0 {
        lemma_hex_of_bytes_len(b.drop_last());
        lemma_hex_seq_len(b.last() as nat, 2);
    }
}

} // verus!

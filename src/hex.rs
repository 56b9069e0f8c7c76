//! Hexadecimal digit strings: reading them as unsigned integers of a given
//! width, and writing integers as zero-padded upper-case digits.

use vstd::arithmetic::div_mod::*;
use vstd::arithmetic::power2::*;
use vstd::prelude::*;

use crate::text::push_char;

verus! {

/// The value of one hexadecimal digit, either case; -1 for any other character.
pub open spec fn hex_digit_value(c: char) -> int {
    if '0' <= c && c <= '9' {
        c as int - '0' as int
    } else if 'a' <= c && c <= 'f' {
        c as int - 'a' as int + 10
    } else if 'A' <= c && c <= 'F' {
        c as int - 'A' as int + 10
    } else {
        -1
    }
}

pub open spec fn is_hex_digit(c: char) -> bool {
    hex_digit_value(c) >= 0
}

pub open spec fn all_hex_digits(s: Seq<char>) -> bool {
    forall|i: int| 0 <= i < s.len() ==> is_hex_digit(#[trigger] s[i])
}

/// The number that a string of hexadecimal digits writes, most significant first.
pub open spec fn hex_value(s: Seq<char>) -> int
    decreases s.len(),
{
    if s.len() == 0 {
        0
    } else {
        hex_value(s.drop_last()) * 16 + hex_digit_value(s.last())
    }
}

/// What reading `s` as an unsigned integer of `bits` bits gives: the value when
/// `s` is a non-empty run of hexadecimal digits whose value fits, else nothing.
pub open spec fn parse_hex_spec(s: Seq<char>, bits: nat) -> Option<nat> {
    if s.len() > 0 && all_hex_digits(s) && hex_value(s) < pow2(bits) {
        Some(hex_value(s) as nat)
    } else {
        None
    }
}

/// The upper-case digit for a value below 16.
pub open spec fn hex_char(d: nat) -> char {
    if d < 10 {
        ('0' as nat + d) as char
    } else {
        ('A' as nat + d - 10) as char
    }
}

/// The `n` lowest hexadecimal digits of `v`, most significant first.
pub open spec fn hex_digits(v: nat, n: nat) -> Seq<char>
    decreases n,
{
    if n == 0 {
        Seq::empty()
    } else {
        hex_digits(v / 16, (n - 1) as nat).push(hex_char(v % 16))
    }
}

/// `v` written as `0x` and `n` upper-case digits.
pub open spec fn hex_text(v: nat, n: nat) -> Seq<char> {
    seq!['0', 'x'] + hex_digits(v, n)
}

pub open spec fn pow16(n: nat) -> nat
    decreases n,
{
    if n == 0 {
        1
    } else {
        16 * pow16((n - 1) as nat)
    }
}

proof fn lemma_hex_value_nonneg(s: Seq<char>)
    requires
        all_hex_digits(s),
    ensures
        hex_value(s) >= 0,
    decreases s.len(),
{
    if s.len() > 0 {
        assert(is_hex_digit(s[s.len() - 1]));
        lemma_hex_value_nonneg(s.drop_last());
    }
}

/// A run of digits is worth at least as much as any of its prefixes.
proof fn lemma_hex_value_prefix(s: Seq<char>, k: int)
    requires
        all_hex_digits(s),
        0 <= k <= s.len(),
    ensures
        hex_value(s) >= hex_value(s.take(k)),
    decreases s.len(),
{
    if k < s.len() {
        let t = s.drop_last();
        assert(is_hex_digit(s[s.len() - 1]));
        lemma_hex_value_nonneg(t);
        lemma_hex_value_prefix(t, k);
        assert(t.take(k) =~= s.take(k));
    } else {
        assert(s.take(k) =~= s);
    }
}

fn digit_value(c: char) -> (r: Option<u64>)
    ensures
        match r {
            Some(d) => is_hex_digit(c) && d == hex_digit_value(c),
            None => !is_hex_digit(c),
        },
{
    if '0' <= c && c <= '9' {
        Some((c as u64) - ('0' as u64))
    } else if 'a' <= c && c <= 'f' {
        Some((c as u64) - ('a' as u64) + 10)
    } else if 'A' <= c && c <= 'F' {
        Some((c as u64) - ('A' as u64) + 10)
    } else {
        None
    }
}

/// Reads `s` as an unsigned hexadecimal integer of `bits` bits (16 or 32).
/// Fails on an empty string, on any character that is not a hexadecimal
/// digit, and on a value that does not fit.
pub fn parse_hex(s: &str, bits: u32) -> (r: Option<u64>)
    requires
        bits == 16 || bits == 32,
    ensures
        r.is_some() == parse_hex_spec(s@, bits as nat).is_some(),
        r.is_some() ==> r.unwrap() == parse_hex_spec(s@, bits as nat).unwrap(),
        r.is_some() ==> r.unwrap() < pow2(bits as nat),
{
    proof {
        lemma2_to64();
    }
    let limit: u64 = if bits == 16 {
        0x1_0000
    } else {
        0x1_0000_0000
    };
    let n = s.unicode_len();
    if n == 0 {
        return None;
    }
    let mut acc: u64 = 0;
    let mut i: usize = 0;
    while i < n
        invariant
            n == s@.len(),
            i <= n,
            limit == pow2(bits as nat),
            limit <= 0x1_0000_0000,
            all_hex_digits(s@.take(i as int)),
            acc == hex_value(s@.take(i as int)),
            acc < limit,
        decreases n - i,
    {
        let c = s.get_char(i);
        let ghost prev = s@.take(i as int);
        let ghost next = s@.take(i + 1);
        assert(next.drop_last() =~= prev);
        assert(next.last() == c);
        match digit_value(c) {
            None => {
                assert(!all_hex_digits(s@)) by {
                    assert(s@[i as int] == c);
                }
                return None;
            },
            Some(d) => {
                acc = acc * 16 + d;
                i = i + 1;
                assert(all_hex_digits(next)) by {
                    assert forall|j: int| 0 <= j < next.len() implies is_hex_digit(
                        #[trigger] next[j],
                    ) by {
                        if j < next.len() - 1 {
                            assert(next[j] == prev[j]);
                        }
                    }
                }
                if acc >= limit {
                    proof {
                        if all_hex_digits(s@) {
                            lemma_hex_value_prefix(s@, i as int);
                        }
                    }
                    return None;
                }
            },
        }
    }
    assert(s@.take(n as int) =~= s@);
    Some(acc)
}

proof fn lemma_hex_char_is_digit(d: nat)
    requires
        d < 16,
    ensures
        is_hex_digit(hex_char(d)),
        hex_digit_value(hex_char(d)) == d,
{
}

/// Writing `v` in `n` digits and reading them back gives `v` modulo `16^n`.
pub proof fn lemma_hex_digits_value(v: nat, n: nat)
    ensures
        hex_digits(v, n).len() == n,
        all_hex_digits(hex_digits(v, n)),
        hex_value(hex_digits(v, n)) == v % pow16(n),
    decreases n,
{
    if n == 0 {
        assert(v % 1 == 0) by (nonlinear_arith);
    } else {
        let m = (n - 1) as nat;
        lemma_hex_digits_value(v / 16, m);
        lemma_hex_char_is_digit(v % 16);
        let s = hex_digits(v, n);
        assert(s.drop_last() =~= hex_digits(v / 16, m));
        assert forall|i: int| 0 <= i < s.len() implies is_hex_digit(#[trigger] s[i]) by {
            if i < s.len() - 1 {
                assert(s[i] == hex_digits(v / 16, m)[i]);
            }
        }
        lemma_pow16_pos(m);
        lemma_breakdown(v as int, 16, pow16(m) as int);
        assert(16 * pow16(m) == pow16(n));
        assert(((v / 16) % pow16(m)) * 16 == 16 * ((v / 16) % pow16(m))) by (nonlinear_arith);
    }
}

pub proof fn lemma_pow16_pos(n: nat)
    ensures
        pow16(n) > 0,
    decreases n,
{
    if n > 0 {
        lemma_pow16_pos((n - 1) as nat);
    }
}

/// Four hex digits span 16 bits, eight span 32.
pub proof fn lemma_pow16_widths()
    ensures
        pow16(4) == pow2(16),
        pow16(8) == pow2(32),
{
    lemma2_to64();
    reveal_with_fuel(pow16, 9);
}

/// Appends the `n` lowest hexadecimal digits of `v` to `out`.
pub fn push_hex_digits(out: &mut String, v: u64, n: usize)
    ensures
        final(out)@ == old(out)@ + hex_digits(v as nat, n as nat),
    decreases n,
{
    if n > 0 {
        push_hex_digits(out, v / 16, n - 1);
        let d = v % 16;
        let c = if d < 10 {
            (('0' as u8) + (d as u8)) as char
        } else {
            (('A' as u8) + (d as u8) - 10) as char
        };
        assert(c == hex_char(d as nat));
        push_char(out, c);
        assert(final(out)@ =~= old(out)@ + hex_digits(v as nat, n as nat));
    }
}

/// `v` as `0x` followed by `n` zero-padded upper-case digits.
pub fn to_hex_text(v: u64, n: usize) -> (r: String)
    ensures
        r@ == hex_text(v as nat, n as nat),
{
    let mut out = String::new();
    push_char(&mut out, '0');
    push_char(&mut out, 'x');
    push_hex_digits(&mut out, v, n);
    assert(out@ =~= hex_text(v as nat, n as nat));
    out
}

/// Reading back what `to_hex_text` wrote, without its `0x`, gives the value.
pub proof fn lemma_hex_round_trip(v: nat, bits: nat)
    requires
        bits == 16 || bits == 32,
        v < pow2(bits),
    ensures
        parse_hex_spec(hex_digits(v, bits / 4), bits) == Some(v),
{
    let n = bits / 4;
    lemma_hex_digits_value(v, n);
    lemma_pow16_widths();
    lemma_small_mod(v, pow16(n));
}

} // verus!

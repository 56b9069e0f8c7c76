//! IEEE-754 bit patterns: the fields of single (32-bit) and half (16-bit)
//! precision values, the exact value that a finite pattern encodes, moving a
//! value between the two widths, and rounding a fixed-point value
//! `n / 2^f` to the nearest single.

use vstd::arithmetic::div_mod::*;
use vstd::arithmetic::power2::*;
use vstd::bits::*;
use vstd::prelude::*;

verus! {

pub open spec fn single_sign(b: nat) -> nat {
    (b / 0x8000_0000) % 2
}

pub open spec fn single_exp(b: nat) -> nat {
    (b / 0x80_0000) % 256
}

pub open spec fn single_frac(b: nat) -> nat {
    b % 0x80_0000
}

pub open spec fn make_single(s: nat, e: nat, f: nat) -> nat {
    s * 0x8000_0000 + e * 0x80_0000 + f
}

pub open spec fn half_sign(h: nat) -> nat {
    (h / 0x8000) % 2
}

pub open spec fn half_exp(h: nat) -> nat {
    (h / 0x400) % 32
}

pub open spec fn half_frac(h: nat) -> nat {
    h % 0x400
}

pub open spec fn make_half(s: nat, e: nat, f: nat) -> nat {
    s * 0x8000 + e * 0x400 + f
}

/// How far a non-zero subnormal half fraction must be shifted left to bring
/// its leading one to the implicit bit (bit 10).
pub open spec fn norm_shift(f: nat) -> nat
    decreases 2048 - f,
{
    if f == 0 || f >= 1024 {
        0
    } else {
        1 + norm_shift(2 * f)
    }
}

/// The single precision pattern with the same value as the half pattern `h`:
/// exact, since every half value is a single value. Infinities stay infinite
/// and a NaN keeps its sign and payload, moved to the top of the wider field.
pub open spec fn single_of_half(h: nat) -> nat {
    let s = half_sign(h);
    let e = half_exp(h);
    let f = half_frac(h);
    if e == 31 {
        make_single(s, 255, f * 0x2000)
    } else if e > 0 {
        make_single(s, e + 112, f * 0x2000)
    } else if f == 0 {
        make_single(s, 0, 0)
    } else {
        let t = norm_shift(f);
        make_single(s, (113 - t) as nat, ((f * pow2(t) - 1024) * 0x2000) as nat)
    }
}

/// The half precision pattern for the single pattern `b`, rounding toward
/// zero: the fraction is cut to its top ten bits, values under the smallest
/// half subnormal become a zero of the same sign, and values of 65536 or more
/// become an infinity. A NaN stays a NaN of the same sign.
pub open spec fn half_of_single(b: nat) -> nat {
    let s = single_sign(b);
    let e = single_exp(b);
    let f = single_frac(b);
    if e == 255 {
        let top = f / 0x2000;
        make_half(s, 31, if f != 0 && top == 0 { 0x200 } else { top })
    } else if e >= 143 {
        make_half(s, 31, 0)
    } else if e >= 113 {
        make_half(s, (e - 112) as nat, f / 0x2000)
    } else if e >= 103 {
        make_half(s, 0, (0x80_0000 + f) / pow2((126 - e) as nat))
    } else {
        make_half(s, 0, 0)
    }
}

pub open spec fn single_is_finite(b: nat) -> bool {
    single_exp(b) != 255
}

pub open spec fn half_is_finite(h: nat) -> bool {
    half_exp(h) != 31
}

/// The magnitude of a finite single pattern in units of 2^-149, the smallest
/// subnormal: an integer for every finite single value.
pub open spec fn single_units(b: nat) -> nat {
    let e = single_exp(b);
    let f = single_frac(b);
    if e == 0 {
        f
    } else {
        (0x80_0000 + f) * pow2((e - 1) as nat)
    }
}

/// The magnitude of a finite half pattern, in the same units as `single_units`.
pub open spec fn half_units(h: nat) -> nat {
    let e = half_exp(h);
    let f = half_frac(h);
    if e == 0 {
        f * pow2(125)
    } else {
        (0x400 + f) * pow2(e + 124)
    }
}

/// The shift found by `norm_shift` brings the leading one to bit 10.
pub proof fn lemma_norm_shift(f: nat)
    requires
        0 < f < 1024,
    ensures
        1 <= norm_shift(f) <= 10,
        1024 <= f * pow2(norm_shift(f)) < 2048,
    decreases 2048 - f,
{
    let t = norm_shift(f);
    if 2 * f >= 1024 {
        assert(norm_shift(2 * f) == 0);
        assert(t == 1);
        lemma2_to64();
    } else {
        lemma_norm_shift(2 * f);
        let u = norm_shift(2 * f);
        lemma_pow2_unfold(t);
        assert(pow2(t) == 2 * pow2(u));
        assert(f * pow2(t) == (2 * f) * pow2(u)) by (nonlinear_arith)
            requires
                pow2(t) == 2 * pow2(u),
        ;
        assert(f * pow2(t) >= pow2(t)) by (nonlinear_arith)
            requires
                f >= 1,
        ;
        if t > 10 {
            lemma_pow2_strictly_increases(10, t);
            lemma2_to64();
        }
    }
}

proof fn lemma_single_fields(s: nat, e: nat, f: nat)
    requires
        s < 2,
        e < 256,
        f < 0x80_0000,
    ensures
        single_sign(make_single(s, e, f)) == s,
        single_exp(make_single(s, e, f)) == e,
        single_frac(make_single(s, e, f)) == f,
        make_single(s, e, f) < 0x1_0000_0000,
{
    let x = make_single(s, e, f) as int;
    lemma_fundamental_div_mod_converse(x, 0x80_0000, (s * 256 + e) as int, f as int);
    lemma_fundamental_div_mod_converse((s * 256 + e) as int, 256, s as int, e as int);
    lemma_fundamental_div_mod_converse(x, 0x8000_0000, s as int, (e * 0x80_0000 + f) as int);
    lemma_small_mod(s, 2);
}

proof fn lemma_half_fields(s: nat, e: nat, f: nat)
    requires
        s < 2,
        e < 32,
        f < 0x400,
    ensures
        half_sign(make_half(s, e, f)) == s,
        half_exp(make_half(s, e, f)) == e,
        half_frac(make_half(s, e, f)) == f,
        make_half(s, e, f) < 0x1_0000,
{
    let x = make_half(s, e, f) as int;
    lemma_fundamental_div_mod_converse(x, 0x400, (s * 32 + e) as int, f as int);
    lemma_fundamental_div_mod_converse((s * 32 + e) as int, 32, s as int, e as int);
    lemma_fundamental_div_mod_converse(x, 0x8000, s as int, (e * 0x400 + f) as int);
    lemma_small_mod(s, 2);
}

proof fn lemma_half_split(h: nat)
    requires
        h < 0x1_0000,
    ensures
        h == make_half(half_sign(h), half_exp(h), half_frac(h)),
        half_sign(h) < 2,
        half_exp(h) < 32,
        half_frac(h) < 0x400,
{
    lemma_fundamental_div_mod(h as int, 0x400);
    lemma_fundamental_div_mod((h / 0x400) as int, 32);
    lemma_fundamental_div_mod(h as int, 0x8000);
    assert(h / 0x8000 < 2);
    lemma_small_mod(h / 0x8000, 2);
    assert(h / 0x400 / 32 == h / 0x8000) by {
        lemma_div_denominator(h as int, 0x400, 32);
    }
}

/// Narrowing a widened half pattern gives the same pattern back, for every
/// pattern, NaNs included.
#[verifier::spinoff_prover]
pub proof fn lemma_half_round_trip(h: u16)
    ensures
        half_of_single(single_of_half(h as nat)) == h,
{
    let h = h as nat;
    lemma_half_split(h);
    let s = half_sign(h);
    let e = half_exp(h);
    let f = half_frac(h);
    let w = single_of_half(h);
    if e == 31 {
        lemma_single_fields(s, 255, f * 0x2000);
        assert(f * 0x2000 / 0x2000 == f);
        assert(w == make_single(s, 255, f * 0x2000));
        assert(half_of_single(w) == make_half(s, 31, f));
    } else if e > 0 {
        lemma_single_fields(s, e + 112, f * 0x2000);
        assert(f * 0x2000 / 0x2000 == f);
        assert(half_of_single(w) == make_half(s, e, f));
    } else if f == 0 {
        lemma_single_fields(s, 0, 0);
        assert(half_of_single(w) == make_half(s, e, f));
    } else {
        lemma_norm_shift(f);
        let t = norm_shift(f);
        let m = f * pow2(t);
        lemma_single_fields(s, (113 - t) as nat, ((m - 1024) * 0x2000) as nat);
        lemma2_to64();
        lemma_pow2_adds(t, 13);
        assert(0x80_0000 + (m - 1024) * 0x2000 == f * pow2(t + 13)) by (nonlinear_arith)
            requires
                m == f * pow2(t),
                pow2(t + 13) == pow2(t) * pow2(13),
                pow2(13) == 0x2000,
        ;
        lemma_pow2_pos(t + 13);
        let e2 = (113 - t) as nat;
        let f2 = ((m - 1024) * 0x2000) as nat;
        assert(w == make_single(s, e2, f2));
        assert(single_exp(w) == e2 && single_frac(w) == f2 && single_sign(w) == s);
        assert((126 - e2) as nat == t + 13);
        assert((0x80_0000 + f2) / pow2(t + 13) == f) by {
            assert(0x80_0000 + f2 == f * pow2(t + 13));
            lemma_fundamental_div_mod_converse(
                (f * pow2(t + 13)) as int,
                pow2(t + 13) as int,
                f as int,
                0,
            );
        }
        assert(half_of_single(w) == make_half(s, 0, f));
    }
}

/// Widening keeps a finite value exactly, sign included.
#[verifier::spinoff_prover]
pub proof fn lemma_half_to_single_exact(h: u16)
    requires
        half_is_finite(h as nat),
    ensures
        single_is_finite(single_of_half(h as nat)),
        single_sign(single_of_half(h as nat)) == half_sign(h as nat),
        single_units(single_of_half(h as nat)) == half_units(h as nat),
{
    let h = h as nat;
    lemma_half_split(h);
    let s = half_sign(h);
    let e = half_exp(h);
    let f = half_frac(h);
    lemma2_to64();
    if e > 0 {
        lemma_single_fields(s, e + 112, f * 0x2000);
        lemma_pow2_adds(13, e + 111);
        assert((0x80_0000 + f * 0x2000) * pow2(e + 111) == (0x400 + f) * pow2(e + 124))
            by (nonlinear_arith)
            requires
                pow2(e + 124) == pow2(13) * pow2(e + 111),
                pow2(13) == 0x2000,
        ;
        assert(single_units(single_of_half(h)) == half_units(h));
    } else if f == 0 {
        lemma_single_fields(s, 0, 0);
        assert(single_of_half(h) == make_single(s, 0, 0));
        assert(single_units(make_single(s, 0, 0)) == 0);
        assert(f * pow2(125) == 0) by (nonlinear_arith)
            requires
                f == 0,
        ;
    } else {
        lemma_norm_shift(f);
        let t = norm_shift(f);
        let m = f * pow2(t);
        lemma_single_fields(s, (113 - t) as nat, ((m - 1024) * 0x2000) as nat);
        lemma_pow2_adds(t, 13);
        lemma_pow2_adds(t + 13, (112 - t) as nat);
        assert((0x80_0000 + (m - 1024) * 0x2000) * pow2((112 - t) as nat) == f * pow2(125))
            by (nonlinear_arith)
            requires
                m == f * pow2(t),
                pow2(t + 13) == pow2(t) * pow2(13),
                pow2(125) == pow2(t + 13) * pow2((112 - t) as nat),
                pow2(13) == 0x2000,
        ;
    }
}

/// Every widened pattern fits in 32 bits.
pub proof fn lemma_single_of_half_bound(h: nat)
    requires
        h < 0x1_0000,
    ensures
        single_of_half(h) < 0x1_0000_0000,
{
    lemma_half_split(h);
    let s = half_sign(h);
    let e = half_exp(h);
    let f = half_frac(h);
    if e == 31 {
        lemma_single_fields(s, 255, f * 0x2000);
    } else if e > 0 {
        lemma_single_fields(s, e + 112, f * 0x2000);
    } else if f == 0 {
        lemma_single_fields(s, 0, 0);
    } else {
        lemma_norm_shift(f);
        let t = norm_shift(f);
        lemma_single_fields(s, (113 - t) as nat, ((f * pow2(t) - 1024) * 0x2000) as nat);
    }
}

/// The number of binary digits of `a`.
pub open spec fn bit_len(a: nat) -> nat
    decreases a,
{
    if a == 0 {
        0
    } else {
        1 + bit_len(a / 2)
    }
}

/// `a / 2^k` rounded to the nearest integer, ties to the even one.
pub open spec fn round_even(a: nat, k: nat) -> nat {
    if k == 0 {
        a
    } else {
        let q = a / pow2(k);
        let r = a % pow2(k);
        let half = pow2((k - 1) as nat);
        if r > half || (r == half && q % 2 == 1) {
            q + 1
        } else {
            q
        }
    }
}

/// The exponent of the unit in the last place of `a / 2^f` in single
/// precision: 24 significant bits, but no finer than the smallest subnormal.
pub open spec fn ratio_ulp_pow(a: nat, f: nat) -> int {
    let lo = bit_len(a) - 24 - f;
    if lo < -149 {
        -149
    } else {
        lo
    }
}

/// `a / 2^f` in units of the last place, rounded to nearest, ties to even.
pub open spec fn ratio_sig(a: nat, f: nat) -> nat {
    let k = ratio_ulp_pow(a, f) + f;
    if k <= 0 {
        a * pow2((-k) as nat)
    } else {
        round_even(a, k as nat)
    }
}

/// The single precision pattern nearest to `±a / 2^f` (ties to even), for
/// `a` below 2^32: a rounding that carries into a new binade moves up one
/// exponent, and a significand under 2^23 is a subnormal.
pub open spec fn single_of_ratio(neg: bool, a: nat, f: nat) -> nat {
    let s: nat = if neg {
        1
    } else {
        0
    };
    let q = ratio_ulp_pow(a, f);
    let m = ratio_sig(a, f);
    let m2: nat = if m == 0x100_0000 {
        0x80_0000
    } else {
        m
    };
    let q2 = if m == 0x100_0000 {
        q + 1
    } else {
        q
    };
    if m2 >= 0x80_0000 {
        make_single(s, (q2 + 150) as nat, (m2 - 0x80_0000) as nat)
    } else {
        make_single(s, 0, m2)
    }
}

proof fn lemma_bit_len(a: nat)
    ensures
        a < pow2(bit_len(a)),
        a > 0 ==> pow2((bit_len(a) - 1) as nat) <= a,
        a < 0x1_0000_0000 ==> bit_len(a) <= 32,
    decreases a,
{
    lemma2_to64();
    if a > 0 {
        lemma_bit_len(a / 2);
        let l = bit_len(a / 2);
        lemma_pow2_unfold(l + 1);
        assert(a == 2 * (a / 2) + a % 2);
        if a / 2 > 0 {
            lemma_pow2_unfold(l);
        }
        if a < 0x1_0000_0000 && l + 1 > 32 {
            lemma_pow2_strictly_increases(31, l);
        }
    }
}

proof fn lemma_round_even_bound(a: nat, k: nat)
    requires
        k > 0,
    ensures
        a / pow2(k) <= round_even(a, k) <= a / pow2(k) + 1,
{
}

/// The rounded significand needs at most 24 bits, or 25 with the carry; it
/// has all 24 unless the result is subnormal; the exponent stays small.
#[verifier::spinoff_prover]
proof fn lemma_ratio_sig_range(a: nat, f: nat)
    requires
        a < 0x1_0000_0000,
    ensures
        ratio_sig(a, f) <= 0x100_0000,
        a > 0 && ratio_ulp_pow(a, f) > -149 ==> ratio_sig(a, f) >= 0x80_0000,
        ratio_ulp_pow(a, f) <= 8,
{
    lemma2_to64();
    lemma_bit_len(a);
    let l = bit_len(a);
    let q = ratio_ulp_pow(a, f);
    let k = q + f;
    let m = ratio_sig(a, f);
    if a == 0 {
        if k > 0 {
            lemma_pow2_pos(k as nat);
            lemma_basic_div(0, pow2(k as nat) as int);
            lemma_small_mod(0, pow2(k as nat));
        }
        return;
    }
    if k <= 0 {
        let sh = (-k) as nat;
        assert(sh + l <= 24);
        lemma_pow2_adds(l, sh);
        lemma_pow2_pos(sh);
        assert(a * pow2(sh) < pow2(l) * pow2(sh)) by (nonlinear_arith)
            requires
                a < pow2(l),
                pow2(sh) > 0,
        ;
        if l + sh < 24 {
            lemma_pow2_strictly_increases(l + sh, 24);
        }
        if q > -149 {
            assert(l + sh == 24);
            lemma_pow2_adds((l - 1) as nat, sh);
            assert(pow2((l - 1) as nat) * pow2(sh) <= a * pow2(sh)) by (nonlinear_arith)
                requires
                    pow2((l - 1) as nat) <= a,
            ;
        }
    } else {
        let kn = k as nat;
        lemma_pow2_pos(kn);
        lemma_round_even_bound(a, kn);
        if l >= kn {
            assert(l - kn <= 24);
            lemma_pow2_adds((l - kn) as nat, kn);
            assert((l - kn) as nat + kn == l);
            assert(pow2(l) == pow2(kn) * pow2((l - kn) as nat)) by (nonlinear_arith)
                requires
                    pow2(l) == pow2((l - kn) as nat) * pow2(kn),
            ;
            lemma_div_is_ordered(a as int, pow2(l) as int, pow2(kn) as int);
            lemma_div_multiples_vanish(pow2((l - kn) as nat) as int, pow2(kn) as int);
            assert(a / pow2(kn) <= pow2((l - kn) as nat));
            if a / pow2(kn) == pow2((l - kn) as nat) {
                lemma_fundamental_div_mod(a as int, pow2(kn) as int);
                assert(a >= pow2((l - kn) as nat) * pow2(kn)) by (nonlinear_arith)
                    requires
                        a == pow2(kn) * (a / pow2(kn)) + a % pow2(kn),
                        a % pow2(kn) >= 0,
                        a / pow2(kn) == pow2((l - kn) as nat),
                ;
            }
            assert(a / pow2(kn) < pow2((l - kn) as nat));
            if l - kn < 24 {
                lemma_pow2_strictly_increases((l - kn) as nat, 24);
            }
            if q > -149 {
                assert(l - kn == 24);
                lemma_pow2_adds(23, kn);
                assert((l - 1) as nat == 23 + kn);
                assert(pow2((l - 1) as nat) == pow2(kn) * pow2(23)) by (nonlinear_arith)
                    requires
                        pow2(23 + kn) == pow2(23) * pow2(kn),
                        (l - 1) as nat == 23 + kn,
                ;
                lemma_div_is_ordered(pow2((l - 1) as nat) as int, a as int, pow2(kn) as int);
                lemma_div_multiples_vanish(pow2(23) as int, pow2(kn) as int);
            }
        } else {
            lemma_pow2_strictly_increases(l, kn);
            lemma_basic_div(a as int, pow2(kn) as int);
        }
    }
}

/// The binary digits of `a`, counted.
fn bit_length(a: u64) -> (r: u64)
    requires
        a < 0x1_0000_0000,
    ensures
        r == bit_len(a as nat),
        r <= 32,
{
    proof {
        lemma_bit_len(a as nat);
    }
    let mut t: u64 = a;
    let mut len: u64 = 0;
    while t > 0
        invariant
            bit_len(a as nat) == len + bit_len(t as nat),
            bit_len(a as nat) <= 32,
        decreases t,
    {
        t = t / 2;
        len = len + 1;
    }
    len
}

/// `a / 2^k` rounded to nearest, ties to even.
fn round_even_exec(a: u64, k: u64) -> (r: u64)
    requires
        a < 0x1_0000_0000,
        0 < k <= 40,
    ensures
        r == round_even(a as nat, k as nat),
{
    proof {
        lemma2_to64();
        lemma2_to64_rest();
        if k < 40 {
            lemma_pow2_strictly_increases(k as nat, 40);
        }
        lemma_u64_shl_is_mul(1, k);
        lemma_pow2_unfold(k as nat);
    }
    let p: u64 = 1u64 << k;
    let q: u64 = a / p;
    let r: u64 = a % p;
    let half: u64 = p / 2;
    if r > half || (r == half && q % 2 == 1) {
        proof {
            lemma_div_is_ordered_by_denominator(a as int, 1, p as int);
        }
        q + 1
    } else {
        q
    }
}

/// The single precision pattern nearest to the fixed-point value `n / 2^f`.
pub open spec fn single_of_fixed(n: int, f: nat) -> nat {
    single_of_ratio(n < 0, (if n < 0 { -n } else { n }) as nat, f)
}

/// The single precision pattern of `n / 2^f`, rounded to nearest with ties
/// to even, for an `n` that a 32-bit container holds.
#[verifier::spinoff_prover]
pub fn single_from_fixed(n: i64, f: u32) -> (r: u32)
    requires
        -0x8000_0000 <= n < 0x8000_0000,
    ensures
        r == single_of_fixed(n as int, f as nat),
{
    let neg = n < 0;
    let a: u64 = if neg {
        (-n) as u64
    } else {
        n as u64
    };
    let len = bit_length(a);
    let lo: i64 = len as i64 - 24 - f as i64;
    let q: i64 = if lo < -149 {
        -149
    } else {
        lo
    };
    let k: i64 = q + f as i64;
    proof {
        lemma_ratio_sig_range(a as nat, f as nat);
        lemma2_to64();
    }
    let m: u64 = if k <= 0 {
        let sh: u64 = (-k) as u64;
        proof {
            lemma_pow2_strictly_increases(sh as nat, 64);
            lemma_u64_shl_is_mul(a, sh);
        }
        a << sh
    } else if k > 40 {
        proof {
            let kn = k as nat;
            lemma_pow2_unfold(kn);
            lemma_pow2_strictly_increases(32, (kn - 1) as nat);
            lemma_pow2_pos((kn - 1) as nat);
            lemma_basic_div(a as int, pow2(kn) as int);
            lemma_small_mod(a as nat, pow2(kn));
        }
        0
    } else {
        round_even_exec(a, k as u64)
    };
    let s: u32 = if neg {
        1
    } else {
        0
    };
    let (m2, q2): (u64, i64) = if m == 0x100_0000 {
        (0x80_0000, q + 1)
    } else {
        (m, q)
    };
    if m2 >= 0x80_0000 {
        s * 0x8000_0000 + ((q2 + 150) as u32) * 0x80_0000 + ((m2 - 0x80_0000) as u32)
    } else {
        s * 0x8000_0000 + (m2 as u32)
    }
}

proof fn lemma_round_even_error(a: nat, k: nat)
    requires
        k > 0,
    ensures
        round_even(a, k) * pow2(k) <= a + pow2((k - 1) as nat),
        a <= round_even(a, k) * pow2(k) + pow2((k - 1) as nat),
{
    let p = pow2(k);
    let half = pow2((k - 1) as nat);
    lemma_pow2_unfold(k);
    lemma_pow2_pos(k);
    let q = a / p;
    let r = a % p;
    lemma_fundamental_div_mod(a as int, p as int);
    assert(a == q * p + r) by (nonlinear_arith)
        requires
            a == p * q + r,
    ;
    assert((q + 1) * p == q * p + p) by (nonlinear_arith);
}

/// `r` is a finite single whose value is the rounded significand of
/// `a / 2^f` times its unit in the last place, and that value lies within
/// half a unit in the last place of `a / 2^f`; it is `a / 2^f` itself when
/// that is a single.
pub open spec fn within_half_ulp(r: nat, a: nat, f: nat) -> bool {
    let q = ratio_ulp_pow(a, f);
    let m = ratio_sig(a, f);
    let k = q + f;
    &&& single_is_finite(r)
    &&& single_units(r) == m * pow2((q + 149) as nat)
    &&& k <= 0 ==> m == a * pow2((-k) as nat)
    &&& k > 0 ==> m * pow2(k as nat) <= a + pow2((k - 1) as nat)
    &&& k > 0 ==> a <= m * pow2(k as nat) + pow2((k - 1) as nat)
}

/// `single_of_ratio` picks a single of the requested sign within half a unit
/// in the last place of `a / 2^f`.
#[verifier::spinoff_prover]
pub proof fn lemma_single_of_ratio_is_nearest(neg: bool, a: nat, f: nat)
    requires
        0 < a < 0x1_0000_0000,
    ensures
        single_of_ratio(neg, a, f) < 0x1_0000_0000,
        within_half_ulp(single_of_ratio(neg, a, f), a, f),
        single_sign(single_of_ratio(neg, a, f)) == (if neg {
            1nat
        } else {
            0nat
        }),
{
    lemma2_to64();
    lemma_ratio_sig_range(a, f);
    let s: nat = if neg {
        1
    } else {
        0
    };
    let q = ratio_ulp_pow(a, f);
    let m = ratio_sig(a, f);
    let k = q + f;
    if k > 0 {
        lemma_round_even_error(a, k as nat);
    }
    let b = single_of_ratio(neg, a, f);
    if m == 0x100_0000 {
        lemma_single_fields(s, (q + 151) as nat, 0);
        lemma_pow2_adds(23, (q + 150) as nat);
        lemma_pow2_adds(24, (q + 149) as nat);
        assert(23 + (q + 150) as nat == 24 + (q + 149) as nat);
        assert(b == make_single(s, (q + 151) as nat, 0));
        assert(single_units(b) == 0x80_0000 * pow2((q + 150) as nat));
        assert(single_units(b) == m * pow2((q + 149) as nat)) by (nonlinear_arith)
            requires
                single_units(b) == 0x80_0000 * pow2((q + 150) as nat),
                pow2(23 + (q + 150) as nat) == pow2(23) * pow2((q + 150) as nat),
                pow2(24 + (q + 149) as nat) == pow2(24) * pow2((q + 149) as nat),
                23 + (q + 150) as nat == 24 + (q + 149) as nat,
                pow2(23) == 0x80_0000,
                pow2(24) == 0x100_0000,
                m == 0x100_0000,
        ;
    } else if m >= 0x80_0000 {
        lemma_single_fields(s, (q + 150) as nat, (m - 0x80_0000) as nat);
        assert(b == make_single(s, (q + 150) as nat, (m - 0x80_0000) as nat));
        assert(single_units(b) == m * pow2((q + 149) as nat));
    } else {
        assert(q == -149);
        lemma_single_fields(s, 0, m);
        assert(b == make_single(s, 0, m));
        assert(single_exp(b) == 0 && single_frac(b) == m);
        assert((q + 149) as nat == 0);
        assert(pow2(0) == 1);
        assert(m * pow2(0) == m);
    }
}

/// Zero, at any fractional width, is the positive zero pattern.
pub proof fn lemma_single_of_zero(f: nat)
    ensures
        single_of_ratio(false, 0, f) == 0,
        ratio_sig(0, f) == 0,
        within_half_ulp(0, 0, f),
{
    lemma2_to64();
    let q = ratio_ulp_pow(0, f);
    let k = q + f;
    if k > 0 {
        lemma_pow2_pos(k as nat);
        lemma_basic_div(0, pow2(k as nat) as int);
        lemma_small_mod(0, pow2(k as nat));
        assert(0 * pow2(k as nat) == 0);
    } else {
        assert(0 * pow2((-k) as nat) == 0);
    }
    assert(0 * pow2((q + 149) as nat) == 0);
    lemma_single_fields(0, 0, 0);
}

/// The single that a fixed-point integer `n` with `f` fractional bits
/// becomes lies within half a unit in the last place of `n / 2^f`, with the
/// sign of `n`.
pub proof fn lemma_single_of_fixed_is_nearest(n: int, f: nat)
    requires
        -0x8000_0000 <= n < 0x8000_0000,
    ensures
        within_half_ulp(single_of_fixed(n, f), (if n < 0 { -n } else { n }) as nat, f),
        n != 0 ==> single_sign(single_of_fixed(n, f)) == (if n < 0 {
            1nat
        } else {
            0nat
        }),
{
    let a: nat = (if n < 0 { -n } else { n }) as nat;
    if a > 0 {
        lemma_single_of_ratio_is_nearest(n < 0, a, f);
    } else {
        lemma_single_of_zero(f);
    }
}

/// The value of the half pattern after `p`, for a magnitude pattern `p`
/// below the infinities: one more unit in the last place, across a binade
/// boundary too.
proof fn lemma_half_units_next(e: nat, u: nat)
    requires
        e < 31,
        u < 1024,
    ensures
        half_units(make_half(0, e, u) + 1) == (if e == 0 {
            (u + 1) * pow2(125)
        } else {
            (0x400 + u + 1) * pow2(e + 124)
        }),
{
    lemma2_to64();
    if u < 1023 {
        lemma_half_fields(0, e, u + 1);
        assert(make_half(0, e, u) + 1 == make_half(0, e, u + 1));
    } else {
        lemma_half_fields(0, e + 1, 0);
        assert(make_half(0, e, u) + 1 == make_half(0, e + 1, 0));
        lemma_pow2_unfold(e + 125);
        if e == 0 {
            assert(pow2(125) == pow2(e + 124) * 2);
        }
        assert(0x400 * pow2(e + 125) == (0x400 + u + 1) * pow2(e + 124)) by (nonlinear_arith)
            requires
                pow2(e + 125) == 2 * pow2(e + 124),
                u == 1023,
        ;
    }
}

/// Narrowing rounds toward zero: below 65536 in magnitude, a finite single
/// becomes the half of the same sign whose magnitude is the largest half
/// magnitude not above its own (the next half magnitude is above it).
#[verifier::spinoff_prover]
pub proof fn lemma_single_to_half_truncates(b: u32)
    requires
        single_exp(b as nat) < 143,
    ensures
        ({
            let h = half_of_single(b as nat);
            &&& h < 0x1_0000
            &&& half_is_finite(h)
            &&& half_sign(h) == single_sign(b as nat)
            &&& half_units(h) <= single_units(b as nat)
            &&& single_units(b as nat) < half_units(h % 0x8000 + 1)
        }),
{
    let b = b as nat;
    lemma2_to64();
    lemma2_to64_rest();
    let s = single_sign(b);
    let e = single_exp(b);
    let f = single_frac(b);
    let h = half_of_single(b);
    assert(s < 2);
    let big = 0x80_0000 + f;
    if e >= 113 {
        let eh = (e - 112) as nat;
        let u = f / 0x2000;
        lemma_half_fields(s, eh, u);
        lemma_half_fields(0, eh, u);
        assert(h % 0x8000 == make_half(0, eh, u)) by {
            lemma_fundamental_div_mod_converse_mod(h as int, 0x8000, s as int, make_half(0, eh, u) as int);
        }
        lemma_half_units_next(eh, u);
        lemma_fundamental_div_mod(f as int, 0x2000);
        lemma_pow2_adds(13, (e - 1) as nat);
        lemma_pow2_pos((e - 1) as nat);
        assert(eh + 124 == 13 + (e - 1) as nat);
        assert(half_units(h) == (0x400 + u) * pow2(eh + 124));
        assert(single_units(b) == big * pow2((e - 1) as nat));
        assert((0x400 + u) * pow2(eh + 124) <= big * pow2((e - 1) as nat)) by (nonlinear_arith)
            requires
                pow2(eh + 124) == 0x2000 * pow2((e - 1) as nat),
                big == 0x80_0000 + f,
                f == 0x2000 * u + f % 0x2000,
                f % 0x2000 >= 0,
        ;
        assert(big * pow2((e - 1) as nat) < (0x400 + u + 1) * pow2(eh + 124)) by (nonlinear_arith)
            requires
                pow2(eh + 124) == 0x2000 * pow2((e - 1) as nat),
                pow2((e - 1) as nat) > 0,
                big == 0x80_0000 + f,
                f == 0x2000 * u + f % 0x2000,
                f % 0x2000 < 0x2000,
        ;
    } else if e >= 103 {
        let k = (126 - e) as nat;
        let u = big / pow2(k);
        lemma_pow2_pos(k);
        assert(u < 1024) by {
            assert(big / 0x4000 < 1024);
            if k > 14 {
                lemma_pow2_strictly_increases(14, k);
                lemma_div_is_ordered_by_denominator(big as int, pow2(14) as int, pow2(k) as int);
            }
        }
        lemma_half_fields(s, 0, u);
        lemma_half_fields(0, 0, u);
        assert(h % 0x8000 == make_half(0, 0, u)) by {
            lemma_fundamental_div_mod_converse_mod(h as int, 0x8000, s as int, make_half(0, 0, u) as int);
        }
        lemma_half_units_next(0, u);
        lemma_fundamental_div_mod(big as int, pow2(k) as int);
        lemma_pow2_adds(k, (e - 1) as nat);
        lemma_pow2_pos((e - 1) as nat);
        assert(k + (e - 1) as nat == 125);
        assert(single_units(b) == big * pow2((e - 1) as nat));
        assert(u * pow2(125) <= big * pow2((e - 1) as nat)) by (nonlinear_arith)
            requires
                pow2(125) == pow2(k) * pow2((e - 1) as nat),
                big == pow2(k) * u + big % pow2(k),
                big % pow2(k) >= 0,
                pow2((e - 1) as nat) > 0,
        ;
        assert(pow2(k) * (u + 1) == pow2(k) * u + pow2(k)) by (nonlinear_arith);
        assert(big < pow2(k) * (u + 1));
        assert(big * pow2((e - 1) as nat) < (u + 1) * pow2(125)) by (nonlinear_arith)
            requires
                pow2(125) == pow2(k) * pow2((e - 1) as nat),
                big < pow2(k) * (u + 1),
                pow2((e - 1) as nat) > 0,
        ;
    } else {
        lemma_half_fields(s, 0, 0);
        lemma_half_fields(0, 0, 0);
        assert(h % 0x8000 == 0) by {
            lemma_fundamental_div_mod_converse_mod(h as int, 0x8000, s as int, 0);
        }
        lemma_half_units_next(0, 0);
        assert(half_units(h) == 0) by {
            assert(0 * pow2(125) == 0);
        }
        if e > 0 {
            if e - 1 < 101 {
                lemma_pow2_strictly_increases((e - 1) as nat, 101);
            }
            lemma_pow2_adds(24, 101);
            lemma_pow2_pos((e - 1) as nat);
            assert(big * pow2((e - 1) as nat) < pow2(24) * pow2((e - 1) as nat)) by (nonlinear_arith)
                requires
                    big < pow2(24),
                    pow2((e - 1) as nat) > 0,
            ;
            assert(pow2(24) * pow2((e - 1) as nat) <= pow2(24) * pow2(101)) by (nonlinear_arith)
                requires
                    pow2((e - 1) as nat) <= pow2(101),
            ;
        } else {
            lemma_pow2_strictly_increases(23, 125);
        }
        assert(1 * pow2(125) == pow2(125));
    }
}


} // verus!

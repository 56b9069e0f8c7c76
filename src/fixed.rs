//! Q-format fixed point: a signed integer in a 16- or 32-bit container read
//! as `integer / 2^f`. Turning the exact value of an IEEE float into such an
//! integer (scale by `2^f`, round half away from zero, wrap to the
//! container), reading a container back as a signed integer, and moving an
//! integer between two fractional widths.

use vstd::arithmetic::div_mod::*;
use vstd::arithmetic::power2::*;
use vstd::bits::*;
use vstd::prelude::*;

verus! {

/// `m / 2^k` rounded to the nearest integer, halves away from zero.
pub open spec fn round_shift(m: nat, k: nat) -> nat {
    if k == 0 {
        m
    } else {
        (m + pow2((k - 1) as nat)) / pow2(k)
    }
}

/// The value `±mag * 2^e` rounded to the nearest integer, halves away from zero.
pub open spec fn scaled_round(neg: bool, mag: nat, e: int) -> int {
    let r: int = if e >= 0 {
        (mag * pow2(e as nat)) as int
    } else {
        round_shift(mag, (-e) as nat) as int
    };
    if neg {
        -r
    } else {
        r
    }
}

/// The bit pattern that the integer `x` leaves in a container of `bits` bits:
/// `x` modulo `2^bits`, as two's complement does.
pub open spec fn wrap(x: int, bits: nat) -> nat {
    (x % (pow2(bits) as int)) as nat
}

/// The signed integer that the pattern `u` of a `bits`-bit container holds.
pub open spec fn signed_value(u: nat, bits: nat) -> int {
    if u >= pow2((bits - 1) as nat) {
        u - pow2(bits)
    } else {
        u as int
    }
}

/// The parts of a finite IEEE single pattern: its value is `±mag * 2^exp`.
pub open spec fn single_neg(b: nat) -> bool {
    (b / 0x8000_0000) % 2 == 1
}

pub open spec fn single_mag(b: nat) -> nat {
    let e = (b / 0x80_0000) % 256;
    if e == 0 {
        b % 0x80_0000
    } else {
        0x80_0000 + b % 0x80_0000
    }
}

pub open spec fn single_pow(b: nat) -> int {
    let e = (b / 0x80_0000) % 256;
    if e == 0 {
        -149
    } else {
        e - 150
    }
}

/// The parts of a finite IEEE double pattern: its value is `±mag * 2^exp`.
pub open spec fn double_neg(b: nat) -> bool {
    (b / 0x8000_0000_0000_0000) % 2 == 1
}

pub open spec fn double_exp(b: nat) -> nat {
    (b / 0x10_0000_0000_0000) % 2048
}

pub open spec fn double_mag(b: nat) -> nat {
    if double_exp(b) == 0 {
        b % 0x10_0000_0000_0000
    } else {
        0x10_0000_0000_0000 + b % 0x10_0000_0000_0000
    }
}

pub open spec fn double_pow(b: nat) -> int {
    if double_exp(b) == 0 {
        -1074
    } else {
        double_exp(b) - 1075
    }
}

/// The container pattern for the finite single `b` in Q-format with `f`
/// fractional bits: `b * 2^f` rounded half away from zero, wrapped.
pub open spec fn fixed_of_single(b: nat, f: nat, bits: nat) -> nat {
    wrap(scaled_round(single_neg(b), single_mag(b), single_pow(b) + f), bits)
}

/// The same for a finite double.
pub open spec fn fixed_of_double(b: nat, f: nat, bits: nat) -> nat {
    wrap(scaled_round(double_neg(b), double_mag(b), double_pow(b) + f), bits)
}

/// The integer `n` moved from `src` to `dst` fractional bits: shifted right
/// (rounding toward minus infinity, as an arithmetic shift does) when `dst`
/// is narrower, shifted left when it is wider.
pub open spec fn rescaled(n: int, src: nat, dst: nat) -> int {
    if src >= dst {
        n / (pow2((src - dst) as nat) as int)
    } else {
        n * pow2((dst - src) as nat)
    }
}

proof fn lemma_wrap_neg(x: nat, bits: nat)
    ensures
        wrap(-x, bits) == (pow2(bits) - wrap(x as int, bits)) % (pow2(bits) as int),
{
    let p = pow2(bits) as int;
    lemma_pow2_pos(bits);
    let q = (x as int) / p;
    let r = (x as int) % p;
    lemma_fundamental_div_mod(x as int, p);
    assert(-x == (-q) * p - r) by (nonlinear_arith)
        requires
            x == p * q + r,
    ;
    assert(-x == (-q - 1) * p + (p - r)) by (nonlinear_arith)
        requires
            -x == (-q) * p - r,
    ;
    if r == 0 {
        lemma_fundamental_div_mod_converse_mod(-x, p, -q, 0);
        lemma_mod_self_0(p);
    } else {
        lemma_fundamental_div_mod_converse_mod(-x, p, -q - 1, p - r);
        lemma_small_mod((p - r) as nat, p as nat);
    }
}

/// Scales `±mag * 2^e` to an integer, rounding half away from zero, and wraps
/// it into a container of `bits` bits.
#[verifier::spinoff_prover]
pub fn wrap_scaled(neg: bool, mag: u64, e: i64, bits: u32) -> (r: u64)
    requires
        mag < 0x40_0000_0000_0000,
        -0x1_0000_0000_0000 <= e <= 0x1_0000_0000_0000,
        bits == 16 || bits == 32,
    ensures
        r == wrap(scaled_round(neg, mag as nat, e as int), bits as nat),
        r < pow2(bits as nat),
{
    proof {
        lemma2_to64();
        lemma2_to64_rest();
    }
    let p: u64 = if bits == 16 {
        0x1_0000
    } else {
        0x1_0000_0000
    };
    let ghost pn = pow2(bits as nat);
    let ghost x: nat = if e >= 0 {
        (mag * pow2(e as nat)) as nat
    } else {
        round_shift(mag as nat, (-e) as nat)
    };
    let m: u64 = if e >= 0 {
        if e >= bits as i64 {
            proof {
                lemma_pow2_adds(bits as nat, (e - bits) as nat);
                assert(x == (mag * pow2((e - bits) as nat)) * pn) by (nonlinear_arith)
                    requires
                        x == mag * pow2(e as nat),
                        pow2(e as nat) == pn * pow2((e - bits) as nat),
                ;
                lemma_mod_multiples_basic((mag * pow2((e - bits) as nat)) as int, pn as int);
            }
            0
        } else {
            let sh: u64 = e as u64;
            proof {
                lemma_u64_pow2_no_overflow(sh as nat);
                lemma_pow2_strictly_increases(sh as nat, 32);
                lemma_u64_shl_is_mul(1, sh);
                lemma_mul_mod_noop_left(mag as int, pow2(sh as nat) as int, pn as int);
                assert((mag % p) * pow2(sh as nat) < 0x1_0000_0000 * 0x1_0000_0000) by (nonlinear_arith)
                    requires
                        mag % p < 0x1_0000_0000,
                        pow2(sh as nat) < 0x1_0000_0000,
                ;
            }
            ((mag % p) * (1u64 << sh)) % p
        }
    } else {
        let k: i64 = -e;
        if k > 60 {
            proof {
                let kn = k as nat;
                lemma_pow2_unfold(kn);
                lemma_pow2_strictly_increases(54, (kn - 1) as nat);
                assert(mag < pow2(54));
                assert(mag + pow2((kn - 1) as nat) < pow2(kn));
                lemma_basic_div((mag + pow2((kn - 1) as nat)) as int, pow2(kn) as int);
                lemma_small_mod(0, pn);
            }
            0
        } else {
            let kk: u64 = k as u64;
            proof {
                if kk - 1 < 60 {
                    lemma_pow2_strictly_increases((kk - 1) as nat, 60);
                }
                lemma_u64_shl_is_mul(1, (kk - 1) as u64);
            }
            let half: u64 = 1u64 << ((kk - 1) as u64);
            let sum: u64 = mag + half;
            proof {
                lemma_u64_shr_is_div(sum, kk);
            }
            let q: u64 = sum >> kk;
            proof {
                lemma_small_mod(0, 1);
            }
            q % p
        }
    };
    assert(m == wrap(x as int, bits as nat));
    if neg {
        proof {
            lemma_wrap_neg(x, bits as nat);
        }
        (p - m) % p
    } else {
        m
    }
}

/// Reads the finite single pattern `b` into a `bits`-bit container with `f`
/// fractional bits; nothing for an infinity or a NaN, which no container holds.
pub fn fixed_from_single(b: u32, f: u32, bits: u32) -> (r: Option<u64>)
    requires
        bits == 16 || bits == 32,
    ensures
        (b / 0x80_0000) % 256 == 255 ==> r.is_none(),
        (b / 0x80_0000) % 256 != 255 ==> r.is_some() && r.unwrap() == fixed_of_single(
            b as nat,
            f as nat,
            bits as nat,
        ),
{
    let e: u32 = (b / 0x80_0000) % 256;
    if e == 255 {
        return None;
    }
    let neg = (b / 0x8000_0000) % 2 == 1;
    let frac: u64 = (b % 0x80_0000) as u64;
    let mag: u64 = if e == 0 {
        frac
    } else {
        0x80_0000 + frac
    };
    let p: i64 = if e == 0 {
        -149
    } else {
        e as i64 - 150
    };
    Some(wrap_scaled(neg, mag, p + f as i64, bits))
}

/// Reads the finite double pattern `b` into a `bits`-bit container with `f`
/// fractional bits; nothing for an infinity or a NaN.
pub fn fixed_from_double(b: u64, f: u32, bits: u32) -> (r: Option<u64>)
    requires
        bits == 16 || bits == 32,
    ensures
        double_exp(b as nat) == 2047 ==> r.is_none(),
        double_exp(b as nat) != 2047 ==> r.is_some() && r.unwrap() == fixed_of_double(
            b as nat,
            f as nat,
            bits as nat,
        ),
{
    let e: u64 = (b / 0x10_0000_0000_0000) % 2048;
    if e == 2047 {
        return None;
    }
    let neg = (b / 0x8000_0000_0000_0000) % 2 == 1;
    let frac: u64 = b % 0x10_0000_0000_0000;
    let mag: u64 = if e == 0 {
        frac
    } else {
        0x10_0000_0000_0000 + frac
    };
    let p: i64 = if e == 0 {
        -1074
    } else {
        e as i64 - 1075
    };
    Some(wrap_scaled(neg, mag, p + f as i64, bits))
}

/// The signed integer held in the `bits`-bit pattern `u`.
pub fn to_signed(u: u64, bits: u32) -> (r: i64)
    requires
        bits == 16 || bits == 32,
        u < pow2(bits as nat),
    ensures
        r == signed_value(u as nat, bits as nat),
        -0x8000_0000 <= r < 0x8000_0000,
{
    proof {
        lemma2_to64();
    }
    if bits == 16 {
        if u >= 0x8000 {
            u as i64 - 0x1_0000
        } else {
            u as i64
        }
    } else {
        if u >= 0x8000_0000 {
            u as i64 - 0x1_0000_0000
        } else {
            u as i64
        }
    }
}

/// The pattern that `x` leaves in a `bits`-bit container.
pub fn wrap_int(x: i64, bits: u32) -> (r: u64)
    requires
        bits == 16 || bits == 32,
        x > i64::MIN,
    ensures
        r == wrap(x as int, bits as nat),
{
    proof {
        lemma2_to64();
    }
    let p: u64 = if bits == 16 {
        0x1_0000
    } else {
        0x1_0000_0000
    };
    if x >= 0 {
        (x as u64) % p
    } else {
        let a: u64 = (-x) as u64;
        proof {
            lemma_wrap_neg(a as nat, bits as nat);
        }
        (p - a % p) % p
    }
}

proof fn lemma_floor_div_neg(a: nat, d: nat)
    requires
        d > 0,
    ensures
        -(((a + d - 1) / (d as int)) as int) == (-a) / (d as int),
{
    let q = (a + d - 1) / (d as int);
    let r = (a + d - 1) % (d as int);
    lemma_fundamental_div_mod((a + d - 1) as int, d as int);
    assert(-a == (-q) * d + (d - 1 - r)) by (nonlinear_arith)
        requires
            a + d - 1 == d * q + r,
    ;
    lemma_fundamental_div_mod_converse_div(-a, d as int, -q, d - 1 - r);
}

/// Moves the integer held in the `bits`-bit pattern `u` from `src` to `dst`
/// fractional bits and wraps the result back into the container.
#[verifier::spinoff_prover]
pub fn rescale(u: u64, bits: u32, src: u32, dst: u32) -> (r: u64)
    requires
        bits == 16 || bits == 32,
        u < pow2(bits as nat),
    ensures
        r == wrap(rescaled(signed_value(u as nat, bits as nat), src as nat, dst as nat), bits as nat),
{
    proof {
        lemma2_to64();
        lemma2_to64_rest();
    }
    let n: i64 = to_signed(u, bits);
    let ghost P = pow2(bits as nat) as int;
    if src >= dst {
        let d: u32 = src - dst;
        if d >= 40 {
            proof {
                lemma_pow2_strictly_increases(32, d as nat);
                let D = pow2(d as nat) as int;
                if n >= 0 {
                    lemma_basic_div(n as int, D);
                } else {
                    lemma_fundamental_div_mod_converse_div(n as int, D, -1, D + n);
                }
            }
            if n >= 0 {
                proof {
                    lemma_small_mod(0, P as nat);
                }
                0
            } else {
                wrap_int(-1, bits)
            }
        } else {
            proof {
                if d < 40 {
                    lemma_pow2_strictly_increases(d as nat, 40);
                }
                lemma_u64_shl_is_mul(1, d as u64);
            }
            let dd: u64 = 1u64 << (d as u64);
            let q: i64 = if n >= 0 {
                (n as u64 / dd) as i64
            } else {
                let a: u64 = (-n) as u64;
                proof {
                    lemma_floor_div_neg(a as nat, dd as nat);
                }
                -(((a + dd - 1) / dd) as i64)
            };
            wrap_int(q, bits)
        }
    } else {
        let d: u32 = dst - src;
        let p: u64 = if bits == 16 {
            0x1_0000
        } else {
            0x1_0000_0000
        };
        proof {
            let c: int = if n < 0 { 1 } else { 0 };
            lemma_fundamental_div_mod_converse_mod(n as int, P, -c, u as int);
        }
        if d >= bits {
            proof {
                lemma_pow2_adds(bits as nat, (d - bits) as nat);
                assert(n * pow2(d as nat) == (n * pow2((d - bits) as nat)) * P) by (nonlinear_arith)
                    requires
                        pow2(d as nat) == P * pow2((d - bits) as nat),
                ;
                lemma_mod_multiples_basic(n * pow2((d - bits) as nat), P);
            }
            0
        } else {
            proof {
                lemma_pow2_strictly_increases(d as nat, 32);
                lemma_u64_shl_is_mul(1, d as u64);
                lemma_mul_mod_noop_left(n as int, pow2(d as nat) as int, P);
                assert(u * pow2(d as nat) < 0x1_0000_0000 * 0x1_0000_0000) by (nonlinear_arith)
                    requires
                        u < 0x1_0000_0000,
                        pow2(d as nat) < 0x1_0000_0000,
                ;
            }
            (u * (1u64 << (d as u64))) % p
        }
    }
}

/// The exact value of the finite double `b` is `n / 2^f`.
pub open spec fn double_is_ratio(b: nat, n: int, f: nat) -> bool {
    let e = double_pow(b) + f;
    let a: nat = if n < 0 { (-n) as nat } else { n as nat };
    &&& double_exp(b) != 2047
    &&& (n != 0 ==> double_neg(b) == (n < 0))
    &&& if e >= 0 {
        double_mag(b) * pow2(e as nat) == a
    } else {
        double_mag(b) == a * pow2((-e) as nat)
    }
}

/// A double that holds exactly `n / 2^f`, read into a 32-bit container with
/// `f` fractional bits and read back as a signed integer, gives `n`, for every
/// `n` that the container holds.
#[verifier::spinoff_prover]
pub proof fn lemma_fixed32_round_trip(b: u64, n: int, f: nat)
    requires
        double_is_ratio(b as nat, n, f),
        -0x8000_0000 <= n < 0x8000_0000,
    ensures
        signed_value(fixed_of_double(b as nat, f, 32), 32) == n,
{
    let b = b as nat;
    let e = double_pow(b) + f;
    let a: nat = if n < 0 { (-n) as nat } else { n as nat };
    let mag = double_mag(b);
    if e < 0 {
        let k = (-e) as nat;
        lemma_pow2_unfold(k);
        lemma_pow2_pos((k - 1) as nat);
        lemma_fundamental_div_mod_converse_div(
            (a * pow2(k) + pow2((k - 1) as nat)) as int,
            pow2(k) as int,
            a as int,
            pow2((k - 1) as nat) as int,
        );
        assert(round_shift(mag, k) == a);
    }
    let s = scaled_round(double_neg(b), mag, e);
    assert(s == n);
    lemma2_to64();
    if n >= 0 {
        lemma_small_mod(n as nat, pow2(32));
    } else {
        lemma_fundamental_div_mod_converse_mod(n, pow2(32) as int, -1, n + 0x1_0000_0000);
    }
}

} // verus!

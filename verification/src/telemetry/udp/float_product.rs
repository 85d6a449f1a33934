//! The product of two single-precision numbers, in whole-number
//! arithmetic.
//!
//! The product of two finite numbers is a whole number of units of two to
//! the power -298, that is a ratio of a whole number to two to the power 149
//! in units of two to the power -149. The single-precision product is that
//! ratio rounded to twenty-four significant bits, to the nearest, a tie to
//! the even one.

use vstd::prelude::*;
use vstd::arithmetic::power2::{
    lemma2_to64, lemma2_to64_rest, lemma_pow2_adds, lemma_pow2_pos,
    lemma_pow2_strictly_increases, pow2,
};
use crate::telemetry::udp::float::{power_of_two, Float32};
use crate::telemetry::udp::float_ratio::{
    lemma_round_ratio_down, lemma_round_ratio_whole, lemma_round_same_ratio, round_ratio,
};
use crate::telemetry::udp::float_sum::{
    bit_length, bit_length_of, capped, lemma_bit_length_bounds, lemma_round_cut,
    lemma_round_lifted, parts, round_magnitude, round_scaled, INFINITY_BITS, NAN_BITS,
};

verus! {

impl Float32 {
    /// The product of two numbers as IEEE 754 defines it for rounding to the
    /// nearest: a NaN with anything is a NaN, as is an infinity with zero;
    /// an infinity with anything else is infinite; two finite numbers give
    /// the number nearest to their exact product. The sign is negative where
    /// exactly one of the signs is. Every NaN that comes out has the bit
    /// pattern `NAN_BITS`.
    pub open spec fn product(self, other: Float32) -> Float32 {
        let negative = self.sign() != other.sign();
        if self.is_nan() || other.is_nan() {
            Float32 { bits: NAN_BITS }
        } else if self.is_infinite() || other.is_infinite() {
            if self.is_zero() || other.is_zero() {
                Float32 { bits: NAN_BITS }
            } else {
                Self::infinity(negative)
            }
        } else {
            let magnitude = round_ratio(
                (self.significand() * other.significand() * pow2(self.level() + other.level()))
                    as nat,
                pow2(149),
            );
            Float32 {
                bits: ((if negative {
                    0x8000_0000
                } else {
                    0int
                }) + magnitude) as u32,
            }
        }
    }

    /// The product of two numbers, rounded to the nearest as IEEE 754 has
    /// it.
    pub fn multiply(self, other: Float32) -> (r: Float32)
        ensures
            r == self.product(other),
    {
        let a_field: u32 = (self.bits / 0x80_0000) % 256;
        let b_field: u32 = (other.bits / 0x80_0000) % 256;
        let a_nan = a_field == 255 && self.bits % 0x80_0000 != 0;
        let b_nan = b_field == 255 && other.bits % 0x80_0000 != 0;
        let negative = (self.bits >= 0x8000_0000) != (other.bits >= 0x8000_0000);
        let sign_bit: u32 = if negative {
            0x8000_0000
        } else {
            0
        };
        if a_nan || b_nan {
            return Float32 { bits: NAN_BITS };
        }
        if a_field == 255 || b_field == 255 {
            if self.bits % 0x8000_0000 == 0 || other.bits % 0x8000_0000 == 0 {
                return Float32 { bits: NAN_BITS };
            }
            return Float32 { bits: sign_bit + INFINITY_BITS };
        }
        let (_, a_sig, a_level) = parts(self);
        let (_, b_sig, b_level) = parts(other);
        assert(a_sig * b_sig < 0x100_0000 * 0x100_0000) by (nonlinear_arith)
            requires
                0 <= a_sig < 0x100_0000,
                0 <= b_sig < 0x100_0000,
        ;
        let k: u64 = a_sig * b_sig;
        let magnitude = scale_down(k, a_level + b_level);
        Float32 { bits: sign_bit + magnitude }
    }
}

/// The product of two finite numbers that is at least two to the power -125
/// or so: the product of the significands is cut to twenty-four bits, and
/// the levels give the level. This is the product in numbers small enough
/// to reckon with.
pub proof fn lemma_product_of_normal(a: Float32, b: Float32)
    requires
        !a.is_nan() && !a.is_infinite() && !b.is_nan() && !b.is_infinite(),
        a.level() + b.level() >= 149,
        bit_length((a.significand() * b.significand()) as nat) > 24,
    ensures
        ({
            let k = a.significand() * b.significand();
            let s = (bit_length(k as nat) - 24) as nat;
            let places = pow2(s) as int;
            let kept = k / places;
            let cut = k % places;
            let up: int = if 2 * cut > places || (2 * cut == places && kept % 2 == 1) {
                1
            } else {
                0
            };
            let sign: int = if a.sign() != b.sign() {
                0x8000_0000
            } else {
                0
            };
            a.product(b).bits == sign + capped(
                (s + a.level() + b.level() - 149) * 0x80_0000 + kept + up,
            )
        }),
{
    let k = (a.significand() * b.significand()) as nat;
    let t = a.level() + b.level();
    let j = (t - 149) as nat;
    let p = (k * pow2(t)) as nat;
    assert(k >= 0) by (nonlinear_arith)
        requires
            k == a.significand() * b.significand(),
            a.significand() >= 0,
            b.significand() >= 0,
    ;
    lemma_pow2_pos(149);
    lemma_pow2_pos(j);
    lemma_pow2_adds(j, 149);
    let pj = pow2(j) as int;
    assert(p * 1 == (k * pj) * pow2(149)) by (nonlinear_arith)
        requires
            p == k * pow2(t),
            pow2(t) == pj * pow2(149),
    ;
    assert(k * pj >= 0) by (nonlinear_arith)
        requires
            k >= 0,
            pj > 0,
    ;
    lemma_round_same_ratio(p, pow2(149), (k * pow2(j)) as nat, 1);
    lemma_round_ratio_whole((k * pow2(j)) as nat);
    lemma_round_cut(k, j);
    let magnitude = round_ratio(p, pow2(149));
    assert(magnitude == round_magnitude((k * pow2(j)) as nat));
    assert(0 <= magnitude <= INFINITY_BITS) by {
        lemma_pow2_pos((bit_length(k) - 24) as nat);
        let places = pow2((bit_length(k) - 24) as nat) as int;
        assert(k as int / places >= 0 && k as int % places >= 0) by (nonlinear_arith)
            requires
                k >= 0,
                places > 0,
        ;
    }
    assert(a.product(b).bits == (if a.sign() != b.sign() {
        0x8000_0000
    } else {
        0int
    }) + magnitude);
}

/// Zero times any number, rounded up to a whole number, is zero: the product
/// is a zero or not a number.
pub proof fn lemma_product_with_zero(b: Float32)
    ensures
        Float32::of_integer(0).product(b).ceil_i32() == 0,
{
    let zero = Float32::of_integer(0);
    let result = zero.product(b);
    lemma2_to64();
    assert(zero.bits == 0 && zero.significand() == 0 && zero.is_zero() && !zero.is_infinite());
    if b.is_nan() || b.is_infinite() {
        assert(result.bits == NAN_BITS);
        assert(result.is_nan());
    } else {
        let scale = pow2(zero.level() + b.level()) as int;
        assert(0 * b.significand() * scale == 0) by (nonlinear_arith);
        let q = pow2(149) as int;
        lemma_pow2_pos(149);
        assert(bit_length(0) == 0);
        assert(q * pow2(0) == q) by (nonlinear_arith)
            requires
                pow2(0) == 1,
        ;
        assert(0int / q == 0 && 0int % q == 0) by (nonlinear_arith)
            requires
                q > 0,
        ;
        assert(round_ratio(0, pow2(149)) == 0);
        assert(result.bits == 0 || result.bits == 0x8000_0000);
        assert(result.significand() == 0 && result.exponent() == -149);
        assert((0 + q - 1) / q == 0) by (nonlinear_arith)
            requires
                q > 0,
        ;
    }
}

/// The number nearest to a whole number of at most twenty-four bits is the
/// whole number itself: its bits lifted to the top of the significand.
pub proof fn lemma_of_small_integer(n: int)
    requires
        0 < n < 0x100_0000,
    ensures
        ({
            let lift = (24 - bit_length(n as nat)) as nat;
            Float32::of_integer(n).bits == (149 - lift) * 0x80_0000 + n * pow2(lift)
        }),
{
    lemma_bit_length_bounds(n as nat);
    lemma2_to64();
    let len = bit_length(n as nat);
    if len > 24 {
        lemma_pow2_strictly_increases(24, (len - 1) as nat);
    }
    lemma_round_lifted(n as nat, 149);
    lemma_pow2_pos(149);
    assert(n * pow2(149) > 0) by (nonlinear_arith)
        requires
            n > 0,
            pow2(149) > 0,
    ;
    let lift = (24 - len) as nat;
    lemma_pow2_adds(len, lift);
    let high = pow2(len) as int;
    let scale = pow2(lift) as int;
    lemma_pow2_pos(lift);
    assert(n * scale < high * scale) by (nonlinear_arith)
        requires
            n < high,
            scale > 0,
    ;
}

/// The magnitude bits of the single-precision number nearest to `k` times
/// two to the power `t - 149`, in units of two to the power -149.
fn scale_down(k: u64, t: u32) -> (r: u32)
    requires
        k < 0x1_0000_0000_0000,
        t <= 506,
    ensures
        r == round_ratio((k * pow2(t as nat)) as nat, pow2(149)),
        r <= INFINITY_BITS,
{
    let ghost p = (k * pow2(t as nat)) as nat;
    proof {
        lemma_pow2_pos(t as nat);
        lemma_pow2_pos(149);
        lemma2_to64();
        lemma2_to64_rest();
    }
    if k == 0 {
        proof {
            assert(0 * pow2(t as nat) == 0) by (nonlinear_arith);
            assert(bit_length(0) == 0);
            let q = pow2(149) as int;
            assert(q * pow2(0) == q) by (nonlinear_arith)
                requires
                    pow2(0) == 1,
            ;
            assert(0int / q == 0 && 0int % q == 0) by (nonlinear_arith)
                requires
                    q > 0,
            ;
        }
        return 0;
    }
    if t >= 149 {
        let j: u32 = t - 149;
        proof {
            lemma_pow2_adds(j as nat, 149);
            let pj = pow2(j as nat) as int;
            assert(p * 1 == (k * pj) * pow2(149)) by (nonlinear_arith)
                requires
                    p == k * pow2(t as nat),
                    pow2(t as nat) == pj * pow2(149),
            ;
            lemma_pow2_pos(j as nat);
            assert(k * pj >= 0) by (nonlinear_arith)
                requires
                    k >= 0,
                    pj > 0,
            ;
            lemma_round_same_ratio(p, pow2(149), (k * pow2(j as nat)) as nat, 1);
            lemma_round_ratio_whole((k * pow2(j as nat)) as nat);
        }
        round_scaled(k, j)
    } else {
        let down: u32 = 149 - t;
        proof {
            lemma_pow2_adds(t as nat, down as nat);
            let pd = pow2(down as nat) as int;
            assert(p * (1 * pd) == k * pow2(149)) by (nonlinear_arith)
                requires
                    p == k * pow2(t as nat),
                    pow2(149) == pow2(t as nat) * pd,
            ;
            lemma_pow2_pos(down as nat);
            assert(1 * pd > 0) by (nonlinear_arith)
                requires
                    pd > 0,
            ;
            lemma_round_same_ratio(p, pow2(149), k as nat, (1 * pow2(down as nat)) as nat);
            lemma_round_ratio_down(k as nat, 1, down as nat);
            assert(k as int / 1 == k && k as int % 1 == 0);
        }
        if down > 50 {
            proof {
                lemma_pow2_strictly_increases(49, (down - 1) as nat);
                lemma_pow2_strictly_increases((down - 1) as nat, down as nat);
                let places = pow2(down as nat) as int;
                assert(k as int / places == 0 && k as int % places == k) by (nonlinear_arith)
                    requires
                        0 <= k < places,
                ;
                assert(bit_length(0) == 0);
            }
            0
        } else {
            let by = power_of_two(down);
            let whole = k / by;
            let w_len = bit_length_of(whole);
            proof {
                assert(whole <= k) by (nonlinear_arith)
                    requires
                        whole == k / by,
                        by >= 1,
                        k >= 0,
                ;
                if whole > 0 {
                    lemma_bit_length_bounds(whole as nat);
                    if w_len > 48 {
                        lemma_pow2_strictly_increases(48, (w_len - 1) as nat);
                    }
                } else {
                    assert(bit_length(0) == 0);
                }
            }
            let shift: u32 = if w_len > 24 {
                w_len - 24
            } else {
                0
            };
            // shift + down <= 48: the places that are cut are places of k
            proof {
                if w_len > 24 {
                    // whole >= 2^(w_len - 1), so k >= 2^(w_len - 1 + down)
                    lemma_pow2_adds((w_len - 1) as nat, down as nat);
                    let low = pow2((w_len - 1) as nat) as int;
                    assert(k >= low * by) by (nonlinear_arith)
                        requires
                            whole == k / by,
                            whole >= low,
                            by > 0,
                            k >= 0,
                    ;
                    if w_len - 1 + down >= 48 {
                        if w_len - 1 + down > 48 {
                            lemma_pow2_strictly_increases(48, (w_len - 1 + down) as nat);
                        }
                    }
                }
            }
            let s: u32 = shift + down;
            let places = power_of_two(s);
            let half = power_of_two(s - 1);
            let kept = k / places;
            let cut = k % places;
            let up: u64 = if cut > half || (cut == half && kept % 2 == 1) {
                1
            } else {
                0
            };
            proof {
                assert(kept <= k) by (nonlinear_arith)
                    requires
                        kept == k / places,
                        places >= 1,
                        k >= 0,
                ;
            }
            let magnitude: u64 = shift as u64 * 0x80_0000 + kept + up;
            if magnitude >= INFINITY_BITS as u64 {
                INFINITY_BITS
            } else {
                magnitude as u32
            }
        }
    }
}

} // verus!

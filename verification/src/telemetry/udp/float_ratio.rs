//! The quotient of two single-precision numbers, in whole-number
//! arithmetic.
//!
//! The quotient of two finite numbers is a ratio of two whole numbers of
//! units of two to the power -149. The single-precision quotient is that
//! ratio rounded to twenty-four significant bits, to the nearest, a tie to
//! the even one.

use vstd::prelude::*;
use vstd::arithmetic::div_mod::{lemma_fundamental_div_mod, lemma_fundamental_div_mod_converse};
use vstd::arithmetic::power2::{
    lemma2_to64, lemma2_to64_rest, lemma_pow2_adds, lemma_pow2_pos,
    lemma_pow2_strictly_increases, pow2,
};
use crate::telemetry::udp::float::{power_of_two, Float32};
use crate::telemetry::udp::float_sum::{
    bit_length, bit_length_of, capped, lemma_bit_length_bounds, lemma_bit_length_is, parts,
    round_magnitude, INFINITY_BITS, NAN_BITS,
};

verus! {

/// The magnitude bits of the single-precision number nearest to `p / q`
/// units of two to the power -149: the ratio is cut to twenty-four
/// significant bits, what was cut off rounds to the nearest, a tie to the
/// even one, and what is too large is infinite.
pub open spec fn round_ratio(p: nat, q: nat) -> int {
    let len = bit_length((p / q) as nat);
    let shift = if len > 24 {
        (len - 24) as nat
    } else {
        0
    };
    let unit = (q * pow2(shift)) as int;
    let kept = p as int / unit;
    let cut = p as int % unit;
    let up: int = if 2 * cut > unit || (2 * cut == unit && kept % 2 == 1) {
        1
    } else {
        0
    };
    capped(shift * 0x80_0000 + kept + up)
}

/// A ratio over one is rounded as the whole number that it is.
pub proof fn lemma_round_ratio_whole(m: nat)
    ensures
        round_ratio(m, 1) == round_magnitude(m),
{
    let len = bit_length(m);
    let shift = if len > 24 {
        (len - 24) as nat
    } else {
        0
    };
    assert(1 * pow2(shift) == pow2(shift)) by (nonlinear_arith);
}

/// If `first_p / first_q` and `second_p / second_q` are the same ratio, dividing either pair by
/// the same multiple of its divisor leaves the same quotient, and remainders
/// that are in the same ratio to their divisors.
proof fn lemma_same_ratio_steps(first_p: int, first_q: int, second_p: int, second_q: int, u: int)
    requires
        first_p >= 0,
        second_p >= 0,
        first_q > 0,
        second_q > 0,
        u > 0,
        first_p * second_q == second_p * first_q,
    ensures
        first_p / (first_q * u) == second_p / (second_q * u),
        (first_p % (first_q * u)) * second_q == (second_p % (second_q * u)) * first_q,
{
    let d1 = first_q * u;
    let d2 = second_q * u;
    assert(d1 > 0 && d2 > 0) by (nonlinear_arith)
        requires
            d1 == first_q * u,
            d2 == second_q * u,
            first_q > 0,
            second_q > 0,
            u > 0,
    ;
    let w = first_p / d1;
    let r = first_p % d1;
    lemma_fundamental_div_mod(first_p, d1);
    assert(0 <= r < d1);
    // second_p * first_q == first_p * second_q == (d1 * w + r) * second_q == w * d2 * first_q + r * second_q
    assert(second_p * first_q == w * d2 * first_q + r * second_q) by (nonlinear_arith)
        requires
            first_p * second_q == second_p * first_q,
            first_p == d1 * w + r,
            d1 == first_q * u,
            d2 == second_q * u,
    ;
    // (second_p - w * d2) * first_q == r * second_q, so r * second_q is a multiple of first_q
    let r2 = second_p - w * d2;
    assert(r2 * first_q == r * second_q) by (nonlinear_arith)
        requires
            second_p * first_q == w * d2 * first_q + r * second_q,
            r2 == second_p - w * d2,
    ;
    assert(0 <= r2 < d2) by (nonlinear_arith)
        requires
            r2 * first_q == r * second_q,
            0 <= r < d1,
            d1 == first_q * u,
            d2 == second_q * u,
            first_q > 0,
            second_q > 0,
            u > 0,
    ;
    assert(second_p == w * d2 + r2);
    lemma_fundamental_div_mod_converse(second_p, d2, w, r2);
}

/// The same ratio is rounded to the same number, however it is written.
pub proof fn lemma_round_same_ratio(first_p: nat, first_q: nat, second_p: nat, second_q: nat)
    requires
        first_q > 0,
        second_q > 0,
        first_p * second_q == second_p * first_q,
    ensures
        round_ratio(first_p, first_q) == round_ratio(second_p, second_q),
{
    lemma_same_ratio_steps(first_p as int, first_q as int, second_p as int, second_q as int, 1);
    assert(first_q * 1 == first_q && second_q * 1 == second_q) by (nonlinear_arith);
    assert(first_p / first_q == second_p / second_q);
    let len = bit_length((first_p / first_q) as nat);
    let shift = if len > 24 {
        (len - 24) as nat
    } else {
        0
    };
    let u = pow2(shift) as int;
    lemma_pow2_pos(shift);
    lemma_same_ratio_steps(first_p as int, first_q as int, second_p as int, second_q as int, u);
    let unit1 = first_q * u;
    let unit2 = second_q * u;
    let cut1 = first_p as int % unit1;
    let cut2 = second_p as int % unit2;
    assert((2 * cut1 > unit1) == (2 * cut2 > unit2) && (2 * cut1 == unit1) == (2 * cut2 == unit2))
        by (nonlinear_arith)
        requires
            cut1 * second_q == cut2 * first_q,
            unit1 == first_q * u,
            unit2 == second_q * u,
            first_q > 0,
            second_q > 0,
            u > 0,
    ;
}

/// Whether a number is rounded up when `cut` of its `2 * half` places are
/// cut off, something smaller than a place is cut off with them where
/// `sticky` says so, and `kept` is what stays: more than half rounds up, and
/// so does exactly half where what stays is odd.
pub open spec fn rounds_up(kept: int, cut: int, half: int, sticky: bool) -> bool {
    cut > half || (cut == half && (sticky || kept % 2 == 1))
}

/// Dividing `n` by `b` times two to the power `s` is dividing the quotient
/// `n / b` by two to the power `s`; the remainder of `n / b` only says
/// whether something smaller than a place of the quotient is cut off.
proof fn lemma_divide_in_steps(n: int, b: int, s: nat)
    requires
        n >= 0,
        b > 0,
        s >= 1,
    ensures
        ({
            let divisor = b * pow2(s);
            let quotient = n / b;
            let places = pow2(s) as int;
            let half = pow2((s - 1) as nat) as int;
            &&& divisor > 0
            &&& n / divisor == quotient / places
            &&& (2 * (n % divisor) > divisor) == (quotient % places > half || (quotient % places
                == half && n % b > 0))
            &&& (2 * (n % divisor) == divisor) == (quotient % places == half && n % b == 0)
        }),
{
    let places = pow2(s) as int;
    let half = pow2((s - 1) as nat) as int;
    let divisor = b * places;
    let quotient = n / b;
    let rest = n % b;
    let kept = quotient / places;
    let cut = quotient % places;
    lemma_pow2_pos(s);
    lemma_pow2_pos((s - 1) as nat);
    vstd::arithmetic::power2::lemma_pow2_unfold(s);
    lemma_fundamental_div_mod(n, b);
    lemma_fundamental_div_mod(quotient, places);
    assert(0 <= rest < b && 0 <= cut < places);
    assert(divisor > 0) by (nonlinear_arith)
        requires
            divisor == b * places,
            b > 0,
            places > 0,
    ;
    assert(n == kept * divisor + (cut * b + rest)) by (nonlinear_arith)
        requires
            n == b * quotient + rest,
            quotient == places * kept + cut,
            divisor == b * places,
    ;
    assert(0 <= cut * b + rest < divisor) by (nonlinear_arith)
        requires
            0 <= rest < b,
            0 <= cut < places,
            divisor == b * places,
    ;
    lemma_fundamental_div_mod_converse(n, divisor, kept, cut * b + rest);
    assert(divisor == 2 * (half * b)) by (nonlinear_arith)
        requires
            divisor == b * places,
            places == 2 * half,
    ;
    if cut > half {
        assert(cut * b >= half * b + b) by (nonlinear_arith)
            requires
                cut >= half + 1,
                b > 0,
        ;
    } else if cut < half {
        assert(cut * b <= half * b - b) by (nonlinear_arith)
            requires
                cut <= half - 1,
                b > 0,
        ;
    } else {
        assert(cut * b == half * b);
    }
}

/// Rounding the ratio of `n` to `b` times two to the power `k`: the
/// quotient `n / b` is cut by `k` places and by what its length has beyond
/// twenty-four bits then.
pub proof fn lemma_round_ratio_down(n: nat, b: nat, k: nat)
    requires
        b > 0,
        k >= 1,
    ensures
        ({
            let quotient = (n / b) as int;
            let len = bit_length((quotient / (pow2(k) as int)) as nat);
            let shift = if len > 24 {
                (len - 24) as nat
            } else {
                0
            };
            let places = pow2(shift + k) as int;
            let half = pow2((shift + k - 1) as nat) as int;
            let kept = quotient / places;
            let up: int = if rounds_up(kept, quotient % places, half, n % b > 0) {
                1
            } else {
                0
            };
            round_ratio(n, b * pow2(k)) == capped(shift * 0x80_0000 + kept + up)
        }),
{
    let quotient = (n / b) as int;
    lemma_divide_in_steps(n as int, b as int, k);
    let len = bit_length((quotient / (pow2(k) as int)) as nat);
    let shift = if len > 24 {
        (len - 24) as nat
    } else {
        0
    };
    lemma_pow2_adds(k, shift);
    lemma_divide_in_steps(n as int, b as int, shift + k);
    assert((b * pow2(k)) * pow2(shift) == b * pow2(shift + k)) by (nonlinear_arith)
        requires
            pow2(k + shift) == pow2(k) * pow2(shift),
    ;
}

/// Rounding the ratio of `n` times two to the power `e` to `b`, for a
/// quotient `n / b` of more than twenty-four bits: the quotient is cut to
/// twenty-four bits, and the power raises the level.
pub proof fn lemma_round_ratio_up(n: nat, b: nat, e: nat)
    requires
        b > 0,
        bit_length(n / b) > 24,
    ensures
        ({
            let quotient = (n / b) as int;
            let s = (bit_length(n / b) - 24) as nat;
            let places = pow2(s) as int;
            let half = pow2((s - 1) as nat) as int;
            let kept = quotient / places;
            let up: int = if rounds_up(kept, quotient % places, half, n % b > 0) {
                1
            } else {
                0
            };
            round_ratio(n * pow2(e), b) == capped((s + e) * 0x80_0000 + kept + up)
        }),
{
    let quotient = n / b;
    let rest = n % b;
    let len = bit_length(quotient);
    let s = (len - 24) as nat;
    let scale = pow2(e) as int;
    let p = n * pow2(e);
    lemma_pow2_pos(e);
    lemma_fundamental_div_mod(n as int, b as int);
    assert(quotient > 0) by {
        if quotient == 0 {
            assert(bit_length(0) == 0);
        }
    }
    // the whole part of the ratio lies between quotient * scale and (quotient + 1) * scale
    let whole = p as int / b as int;
    let beyond = p as int % b as int;
    lemma_fundamental_div_mod(p as int, b as int);
    assert(quotient * scale <= whole < (quotient + 1) * scale) by (nonlinear_arith)
        requires
            p == n * scale,
            n == b * quotient + rest,
            0 <= rest < b,
            p == b * whole + beyond,
            0 <= beyond < b,
            scale > 0,
            b > 0,
    ;
    lemma_bit_length_bounds(quotient);
    lemma_pow2_adds((len - 1) as nat, e);
    lemma_pow2_adds(len, e);
    let low = pow2((len - 1) as nat) as int;
    let high = pow2(len) as int;
    assert(low * scale <= whole < high * scale) by (nonlinear_arith)
        requires
            quotient * scale <= whole < (quotient + 1) * scale,
            low <= quotient < high,
            scale > 0,
    ;
    lemma_bit_length_is(whole as nat, len + e);
    // cutting s + e places of the ratio is cutting s places of n / b
    lemma_pow2_adds(s, e);
    lemma_divide_in_steps(n as int, b as int, s);
    let divisor = b * pow2(s);
    let unit = b * pow2(s + e);
    assert(unit == divisor * scale) by (nonlinear_arith)
        requires
            unit == b * pow2(s + e),
            divisor == b * pow2(s),
            pow2(s + e) == pow2(s) * scale,
    ;
    let kept = n as int / divisor as int;
    let cut = n as int % divisor as int;
    lemma_fundamental_div_mod(n as int, divisor as int);
    assert(p == kept * unit + cut * scale) by (nonlinear_arith)
        requires
            p == n * scale,
            n == divisor * kept + cut,
            unit == divisor * scale,
    ;
    assert(0 <= cut * scale < unit) by (nonlinear_arith)
        requires
            0 <= cut < divisor,
            unit == divisor * scale,
            scale > 0,
    ;
    lemma_fundamental_div_mod_converse(p as int, unit as int, kept, cut * scale);
    assert((2 * (cut * scale) > unit) == (2 * cut > divisor) && (2 * (cut * scale) == unit) == (2
        * cut == divisor)) by (nonlinear_arith)
        requires
            unit == divisor * scale,
            scale > 0,
    ;
}

impl Float32 {
    /// The infinity with the given sign.
    pub open spec fn infinity(negative: bool) -> Float32 {
        Float32 {
            bits: if negative {
                0xff80_0000
            } else {
                INFINITY_BITS
            },
        }
    }

    /// The quotient of two numbers as IEEE 754 defines it for rounding to
    /// the nearest: a NaN with anything is a NaN, as are an infinity by an
    /// infinity and zero by zero; an infinity by a finite number and a
    /// number by zero are infinite, a finite number by an infinity is zero;
    /// two finite numbers give the number nearest to their exact quotient.
    /// The sign is negative where exactly one of the signs is. Every NaN
    /// that comes out has the bit pattern `NAN_BITS`.
    pub open spec fn quotient(self, other: Float32) -> Float32 {
        let negative = self.sign() != other.sign();
        if self.is_nan() || other.is_nan() {
            Float32 { bits: NAN_BITS }
        } else if self.is_infinite() {
            if other.is_infinite() {
                Float32 { bits: NAN_BITS }
            } else {
                Self::infinity(negative)
            }
        } else if other.is_infinite() {
            Self::zero(negative)
        } else if other.significand() == 0 {
            if self.significand() == 0 {
                Float32 { bits: NAN_BITS }
            } else {
                Self::infinity(negative)
            }
        } else {
            let magnitude = round_ratio(
                (self.significand() * pow2(self.level() + 149)) as nat,
                (other.significand() * pow2(other.level())) as nat,
            );
            Float32 {
                bits: ((if negative {
                    0x8000_0000
                } else {
                    0int
                }) + magnitude) as u32,
            }
        }
    }

    /// The quotient of two numbers, rounded to the nearest as IEEE 754 has
    /// it.
    pub fn divide(self, other: Float32) -> (r: Float32)
        ensures
            r == self.quotient(other),
    {
        let a_field: u32 = (self.bits / 0x80_0000) % 256;
        let b_field: u32 = (other.bits / 0x80_0000) % 256;
        let a_nan = a_field == 255 && self.bits % 0x80_0000 != 0;
        let b_nan = b_field == 255 && other.bits % 0x80_0000 != 0;
        let negative = (self.bits >= 0x8000_0000) != (other.bits >= 0x8000_0000);
        let sign_bit: u32 = if negative {
            0x8000_0000
        } else {
            0
        };
        if a_nan || b_nan {
            return Float32 { bits: NAN_BITS };
        }
        if a_field == 255 {
            if b_field == 255 {
                return Float32 { bits: NAN_BITS };
            }
            return Float32 { bits: sign_bit + INFINITY_BITS };
        }
        if b_field == 255 {
            return Float32 { bits: sign_bit };
        }
        let (_, a_sig, a_level) = parts(self);
        let (_, b_sig, b_level) = parts(other);
        if b_sig == 0 {
            if a_sig == 0 {
                return Float32 { bits: NAN_BITS };
            }
            return Float32 { bits: sign_bit + INFINITY_BITS };
        }
        if a_sig == 0 {
            proof {
                let q = (b_sig * pow2(b_level as nat)) as nat;
                lemma_pow2_pos(b_level as nat);
                assert(q > 0) by (nonlinear_arith)
                    requires
                        q == b_sig * pow2(b_level as nat),
                        b_sig > 0,
                        pow2(b_level as nat) > 0,
                ;
                assert(0 * pow2((a_level + 149) as nat) == 0) by (nonlinear_arith);
                assert(bit_length(0) == 0);
                lemma2_to64();
                assert(q * pow2(0) == q) by (nonlinear_arith)
                    requires
                        pow2(0) == 1,
                ;
                assert(0int / (q as int) == 0 && 0int % (q as int) == 0) by (nonlinear_arith)
                    requires
                        q > 0,
                ;
            }
            return Float32 { bits: sign_bit };
        }
        let magnitude = divide_magnitudes(a_sig, a_level, b_sig, b_level);
        Float32 { bits: sign_bit + magnitude }
    }
}

/// The magnitude bits of the quotient of two finite numbers that are not
/// zero, given by their significands and levels.
#[verifier::rlimit(50)]
fn divide_magnitudes(a_sig: u64, a_level: u32, b_sig: u64, b_level: u32) -> (r: u32)
    requires
        0 < a_sig < 0x100_0000,
        0 < b_sig < 0x100_0000,
        a_level <= 253,
        b_level <= 253,
    ensures
        r == round_ratio(
            (a_sig * pow2((a_level + 149) as nat)) as nat,
            (b_sig * pow2(b_level as nat)) as nat,
        ),
        r <= INFINITY_BITS,
{
    let a_len = bit_length_of(a_sig);
    let b_len = bit_length_of(b_sig);
    proof {
        lemma2_to64();
        lemma2_to64_rest();
        lemma_bit_length_bounds(a_sig as nat);
        lemma_bit_length_bounds(b_sig as nat);
        if a_len > 24 {
            lemma_pow2_strictly_increases(24, (a_len - 1) as nat);
        }
        if b_len > 24 {
            lemma_pow2_strictly_increases(24, (b_len - 1) as nat);
        }
    }
    let a_lift: u32 = 24 - a_len;
    let b_lift: u32 = 24 - b_len;
    let a_scale = power_of_two(a_lift + 26);
    let b_scale = power_of_two(b_lift);
    proof {
        lemma_pow2_adds(a_len as nat, (a_lift + 26) as nat);
        lemma_pow2_adds((a_len - 1) as nat, (a_lift + 26) as nat);
        lemma_pow2_adds(b_len as nat, b_lift as nat);
        lemma_pow2_adds((b_len - 1) as nat, b_lift as nat);
        let a_low = pow2((a_len - 1) as nat) as int;
        let a_high = pow2(a_len as nat) as int;
        assert(a_low * a_scale <= a_sig * a_scale < a_high * a_scale) by (nonlinear_arith)
            requires
                a_low <= a_sig < a_high,
                a_scale > 0,
        ;
        let b_low = pow2((b_len - 1) as nat) as int;
        let b_high = pow2(b_len as nat) as int;
        assert(b_low * b_scale <= b_sig * b_scale < b_high * b_scale) by (nonlinear_arith)
            requires
                b_low <= b_sig < b_high,
                b_scale > 0,
        ;
    }
    // 2^49 <= n < 2^50 and 2^23 <= b < 2^24, so 2^25 < n / b <= 2^27
    let n: u64 = a_sig * a_scale;
    let b: u64 = b_sig * b_scale;
    let quotient: u64 = n / b;
    let sticky = n % b > 0;
    proof {
        lemma_fundamental_div_mod(n as int, b as int);
        assert(0x200_0000 <= quotient <= 0x800_0000) by (nonlinear_arith)
            requires
                n == b * quotient + n % b,
                0 <= n % b < b,
                0x2_0000_0000_0000 <= n < 0x4_0000_0000_0000,
                0x80_0000 <= b < 0x100_0000,
        ;
    }
    let q_len = bit_length_of(quotient);
    proof {
        lemma_bit_length_bounds(quotient as nat);
        if q_len < 26 {
            lemma_pow2_strictly_increases(q_len as nat, 26);
        }
        if q_len > 28 {
            lemma_pow2_strictly_increases(28, (q_len - 1) as nat);
        }
    }
    // the power of two by which n / b is to be scaled
    let up_by: u32 = a_level + 149 + b_lift;
    let down_by: u32 = b_level + a_lift + 26;
    let ghost p = (a_sig * pow2((a_level + 149) as nat)) as nat;
    let ghost q = (b_sig * pow2(b_level as nat)) as nat;
    proof {
        lemma_pow2_pos(b_level as nat);
        lemma_pow2_pos((a_level + 149) as nat);
        assert(q > 0) by (nonlinear_arith)
            requires
                q == b_sig * pow2(b_level as nat),
                b_sig > 0,
                pow2(b_level as nat) > 0,
        ;
    }
    let magnitude: u64 = if up_by >= down_by {
        let e: u32 = up_by - down_by;
        let s: u32 = q_len - 24;
        proof {
            // p / q is the same ratio as n * 2^e / b
            lemma_pow2_adds((a_level + 149) as nat, b_lift as nat);
            lemma_pow2_adds((a_lift + 26) as nat, e as nat);
            lemma_pow2_adds((a_lift + 26 + e) as nat, b_level as nat);
            let pa = pow2((a_level + 149) as nat) as int;
            let pb = pow2(b_level as nat) as int;
            let pe = pow2(e as nat) as int;
            assert(p * b == (n * pe) * q) by (nonlinear_arith)
                requires
                    p == a_sig * pa,
                    q == b_sig * pb,
                    n == a_sig * a_scale,
                    b == b_sig * b_scale,
                    pa * b_scale == (a_scale * pe) * pb,
            ;
            lemma_pow2_pos(e as nat);
            assert(n * pe >= 0) by (nonlinear_arith)
                requires
                    n >= 0,
                    pe > 0,
            ;
            lemma_round_same_ratio(p, q, (n * pow2(e as nat)) as nat, b as nat);
            lemma_round_ratio_up(n as nat, b as nat, e as nat);
        }
        let places = power_of_two(s);
        let half = power_of_two(s - 1);
        let kept = quotient / places;
        let cut = quotient % places;
        let up: u64 = if cut > half || (cut == half && (sticky || kept % 2 == 1)) {
            1
        } else {
            0
        };
        proof {
            assert(kept <= quotient) by (nonlinear_arith)
                requires
                    kept == quotient / places,
                    places >= 1,
                    quotient >= 0,
            ;
        }
        (s + e) as u64 * 0x80_0000 + kept + up
    } else {
        let k: u32 = down_by - up_by;
        proof {
            // p / q is the same ratio as n / (b * 2^k)
            lemma_pow2_adds((a_level + 149) as nat, b_lift as nat);
            lemma_pow2_adds(((a_level + 149) + b_lift) as nat, k as nat);
            lemma_pow2_adds((a_lift + 26) as nat, b_level as nat);
            let pa = pow2((a_level + 149) as nat) as int;
            let pb = pow2(b_level as nat) as int;
            let pk = pow2(k as nat) as int;
            lemma_pow2_pos(k as nat);
            assert(p * (b * pk) == n * q) by (nonlinear_arith)
                requires
                    p == a_sig * pa,
                    q == b_sig * pb,
                    n == a_sig * a_scale,
                    b == b_sig * b_scale,
                    (pa * b_scale) * pk == a_scale * pb,
            ;
            assert(b * pk > 0) by (nonlinear_arith)
                requires
                    b > 0,
                    pk > 0,
            ;
            lemma_round_same_ratio(p, q, n as nat, (b * pow2(k as nat)) as nat);
            lemma_round_ratio_down(n as nat, b as nat, k as nat);
        }
        if k > 30 {
            proof {
                lemma_pow2_strictly_increases(29, (k - 1) as nat);
                lemma_pow2_strictly_increases((k - 1) as nat, k as nat);
                let places = pow2(k as nat) as int;
                assert(quotient as int / places == 0 && quotient as int % places == quotient)
                    by (nonlinear_arith)
                    requires
                        0 <= quotient < places,
                ;
                assert(bit_length(0) == 0);
            }
            0
        } else {
            let by = power_of_two(k);
            let whole = quotient / by;
            let w_len = bit_length_of(whole);
            proof {
                lemma_pow2_pos(k as nat);
                assert(whole <= quotient) by (nonlinear_arith)
                    requires
                        whole == quotient / by,
                        by >= 1,
                        quotient >= 0,
                ;
                if whole > 0 {
                    lemma_bit_length_bounds(whole as nat);
                    if w_len > 28 {
                        lemma_pow2_strictly_increases(28, (w_len - 1) as nat);
                    }
                } else {
                    assert(bit_length(0) == 0);
                }
            }
            let shift: u32 = if w_len > 24 {
                w_len - 24
            } else {
                0
            };
            let s: u32 = shift + k;
            let places = power_of_two(s);
            let half = power_of_two(s - 1);
            let kept = quotient / places;
            let cut = quotient % places;
            let up: u64 = if cut > half || (cut == half && (sticky || kept % 2 == 1)) {
                1
            } else {
                0
            };
            proof {
                assert(kept <= quotient) by (nonlinear_arith)
                    requires
                        kept == quotient / places,
                        places >= 1,
                        quotient >= 0,
                ;
            }
            shift as u64 * 0x80_0000 + kept + up
        }
    };
    if magnitude >= INFINITY_BITS as u64 {
        INFINITY_BITS
    } else {
        magnitude as u32
    }
}

} // verus!

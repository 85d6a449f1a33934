//! The sum of two single-precision numbers, in whole-number arithmetic.
//!
//! Every finite single-precision number is a whole multiple of two to the
//! power -149. The sum of two of them is therefore a whole number of such
//! units, and the single-precision sum is that whole number rounded to
//! twenty-four significant bits, to the nearest, a tie to the even one.

use vstd::prelude::*;
use vstd::arithmetic::div_mod::{lemma_fundamental_div_mod, lemma_fundamental_div_mod_converse};
use vstd::arithmetic::power2::{
    lemma2_to64, lemma2_to64_rest, lemma_pow2_adds, lemma_pow2_pos,
    lemma_pow2_strictly_increases, lemma_pow2_unfold, pow2,
};
use crate::telemetry::udp::float::{power_of_two, Float32};

verus! {

/// The bit pattern of the quiet NaN that an undefined sum gives.
pub const NAN_BITS: u32 = 0x7fc0_0000;

/// The bit pattern of positive infinity.
pub const INFINITY_BITS: u32 = 0x7f80_0000;

/// The number of bits that it takes to write `m`: 0 for 0, else one more
/// than for half of `m`.
pub open spec fn bit_length(m: nat) -> nat
    decreases m,
{
    if m == 0 {
        0
    } else {
        1 + bit_length(m / 2)
    }
}

/// The magnitude bits of the single-precision number nearest to `m` units of
/// two to the power -149: `m` is cut to twenty-four significant bits, what
/// was cut off rounds to the nearest, a tie to the even one, and what is too
/// large is infinite.
pub open spec fn round_magnitude(m: nat) -> int {
    let len = bit_length(m);
    let shift = if len > 24 {
        (len - 24) as nat
    } else {
        0
    };
    let unit = pow2(shift) as int;
    let kept = m as int / unit;
    let cut = m as int % unit;
    let up: int = if 2 * cut > unit || (2 * cut == unit && kept % 2 == 1) {
        1
    } else {
        0
    };
    let magnitude = shift * 0x80_0000 + kept + up;
    if magnitude >= INFINITY_BITS {
        INFINITY_BITS as int
    } else {
        magnitude
    }
}

impl Float32 {
    /// The power of two, counted from -149, by which the significand of a
    /// finite number is scaled; between 0 and 253.
    pub open spec fn level(self) -> nat {
        (self.exponent() + 149) as nat
    }

    /// A finite number in units of two to the power -149.
    pub open spec fn scaled(self) -> int {
        let magnitude = self.significand() * pow2(self.level());
        if self.sign() {
            -magnitude
        } else {
            magnitude
        }
    }

    /// Zero with the given sign.
    pub open spec fn zero(negative: bool) -> Float32 {
        Float32 {
            bits: if negative {
                0x8000_0000
            } else {
                0
            },
        }
    }

    /// The single-precision number nearest to `n` units of two to the power
    /// -149, for an `n` that is not zero.
    pub open spec fn nearest(n: int) -> Float32 {
        if n < 0 {
            Float32 { bits: (0x8000_0000 + round_magnitude((-n) as nat)) as u32 }
        } else {
            Float32 { bits: round_magnitude(n as nat) as u32 }
        }
    }

    /// The sum of two numbers as IEEE 754 defines it for rounding to the
    /// nearest: a NaN with anything is a NaN, as are two infinities of
    /// opposite sign; an infinity with anything else is that infinity; two
    /// finite numbers give the number nearest to their exact sum, and where
    /// that sum is zero, a zero that is negative only if both numbers are.
    /// Every NaN that comes out has the bit pattern `NAN_BITS`.
    pub open spec fn sum(self, other: Float32) -> Float32 {
        if self.is_nan() || other.is_nan() {
            Float32 { bits: NAN_BITS }
        } else if self.is_infinite() {
            if other.is_infinite() && self.sign() != other.sign() {
                Float32 { bits: NAN_BITS }
            } else {
                self
            }
        } else if other.is_infinite() {
            other
        } else {
            let exact = self.scaled() + other.scaled();
            if exact == 0 {
                Self::zero(self.sign() && other.sign())
            } else {
                Self::nearest(exact)
            }
        }
    }
}

/// A number that is not zero lies between the powers of two that its bit
/// length names.
pub proof fn lemma_bit_length_bounds(m: nat)
    requires
        m > 0,
    ensures
        bit_length(m) >= 1,
        pow2((bit_length(m) - 1) as nat) <= m < pow2(bit_length(m)),
    decreases m,
{
    lemma2_to64();
    if m == 1 {
        assert(bit_length(1) == 1 + bit_length(0));
    } else {
        lemma_bit_length_bounds(m / 2);
        let len = bit_length(m / 2);
        lemma_pow2_unfold(len);
        lemma_pow2_unfold(len + 1);
    }
}

/// The bit length of a number is decided by the powers of two between which
/// it lies.
pub proof fn lemma_bit_length_is(m: nat, len: nat)
    requires
        len >= 1,
        pow2((len - 1) as nat) <= m < pow2(len),
    ensures
        bit_length(m) == len,
    decreases len,
{
    lemma2_to64();
    lemma_pow2_pos((len - 1) as nat);
    if len == 1 {
        assert(m == 1);
        assert(bit_length(1) == 1 + bit_length(0));
    } else {
        lemma_pow2_unfold(len);
        lemma_pow2_unfold((len - 1) as nat);
        lemma_bit_length_is(m / 2, (len - 1) as nat);
    }
}

/// Scaling by a power of two adds the power to the bit length.
pub proof fn lemma_bit_length_scaled(k: nat, j: nat)
    requires
        k > 0,
    ensures
        bit_length(k * pow2(j)) == bit_length(k) + j,
{
    lemma_bit_length_bounds(k);
    let len = bit_length(k);
    lemma_pow2_adds((len - 1) as nat, j);
    lemma_pow2_adds(len, j);
    lemma_pow2_pos(j);
    let p = pow2(j) as int;
    let low = pow2((len - 1) as nat) as int;
    let high = pow2(len) as int;
    assert(low * p <= k * p < high * p) by (nonlinear_arith)
        requires
            low <= k < high,
            p > 0,
    ;
    lemma_bit_length_is(k * pow2(j), len + j);
}

/// The bit length of `m`.
pub fn bit_length_of(m: u64) -> (r: u32)
    ensures
        r == bit_length(m as nat),
        r <= 64,
{
    let mut rest = m;
    let mut len: u32 = 0;
    proof {
        if m > 0 {
            lemma_bit_length_bounds(m as nat);
            lemma2_to64();
            if bit_length(m as nat) > 65 {
                lemma_pow2_strictly_increases(64, (bit_length(m as nat) - 1) as nat);
            }
        }
    }
    while rest > 0
        invariant
            bit_length(m as nat) == len + bit_length(rest as nat),
            len + bit_length(rest as nat) <= 64,
        decreases rest,
    {
        rest = rest / 2;
        len = len + 1;
    }
    len
}

/// The magnitude bits `magnitude`, or those of infinity where they are too
/// large.
pub open spec fn capped(magnitude: int) -> int {
    if magnitude >= INFINITY_BITS {
        INFINITY_BITS as int
    } else {
        magnitude
    }
}

/// Rounding `k` times two to the power `j`, for a `k` of at most twenty-four
/// bits: nothing is cut off. The significand is `k` lifted as far as its
/// twenty-four bits and the power `j` allow.
pub proof fn lemma_round_lifted(k: nat, j: nat)
    requires
        k > 0,
        bit_length(k) <= 24,
    ensures
        ({
            let room = (24 - bit_length(k)) as nat;
            let lift = if room < j {
                room
            } else {
                j
            };
            round_magnitude(k * pow2(j)) == capped((j - lift) * 0x80_0000 + k * pow2(lift))
        }),
{
    let len = bit_length(k);
    let room = (24 - len) as nat;
    let lift = if room < j {
        room
    } else {
        j
    };
    let level = (j - lift) as nat;
    let m = k * pow2(j);
    let q = k * pow2(lift);
    lemma_bit_length_scaled(k, j);
    lemma_pow2_adds(lift, level);
    lemma_pow2_pos(level);
    lemma2_to64();
    let unit = pow2(level) as int;
    assert(m == q * unit) by (nonlinear_arith)
        requires
            m == k * pow2(j),
            q == k * pow2(lift),
            pow2(j) == pow2(lift) * unit,
    ;
    assert(m == q * unit + 0);
    lemma_fundamental_div_mod_converse(m as int, unit, q as int, 0);
}

/// Rounding `k` times two to the power `j`, for a `k` of more than
/// twenty-four bits: what `k` has beyond them is cut off and decides the
/// rounding; the power `j` changes nothing of it.
pub proof fn lemma_round_cut(k: nat, j: nat)
    requires
        bit_length(k) > 24,
    ensures
        ({
            let s = (bit_length(k) - 24) as nat;
            let unit = pow2(s) as int;
            let kept = k as int / unit;
            let cut = k as int % unit;
            let up: int = if 2 * cut > unit || (2 * cut == unit && kept % 2 == 1) {
                1
            } else {
                0
            };
            round_magnitude(k * pow2(j)) == capped((s + j) * 0x80_0000 + kept + up)
        }),
{
    let s = (bit_length(k) - 24) as nat;
    let unit = pow2(s) as int;
    let kept = k as int / unit;
    let cut = k as int % unit;
    let p = pow2(j) as int;
    let m = k * pow2(j);
    assert(k > 0) by {
        if k == 0 {
            assert(bit_length(0) == 0);
        }
    }
    lemma_bit_length_scaled(k, j);
    lemma_pow2_adds(s, j);
    lemma_pow2_pos(s);
    lemma_pow2_pos(j);
    lemma_fundamental_div_mod(k as int, unit);
    assert(0 <= cut < unit);
    assert(m == kept * (unit * p) + cut * p) by (nonlinear_arith)
        requires
            m == k * p,
            k == unit * kept + cut,
    ;
    assert(0 <= cut * p < unit * p) by (nonlinear_arith)
        requires
            0 <= cut < unit,
            p > 0,
    ;
    lemma_fundamental_div_mod_converse(m as int, unit * p, kept, cut * p);
    assert((2 * (cut * p) > unit * p) == (2 * cut > unit)) by (nonlinear_arith)
        requires
            p > 0,
    ;
    assert((2 * (cut * p) == unit * p) == (2 * cut == unit)) by (nonlinear_arith)
        requires
            p > 0,
    ;
}

/// The magnitude bits of the single-precision number nearest to `k` times
/// two to the power `j`, in units of two to the power -149.
pub(crate) fn round_scaled(k: u64, j: u32) -> (r: u32)
    requires
        0 < k,
        j <= 1000,
    ensures
        r == round_magnitude(k as nat * pow2(j as nat)),
        r <= INFINITY_BITS,
{
    let len = bit_length_of(k);
    proof {
        lemma_bit_length_bounds(k as nat);
        lemma2_to64();
        lemma2_to64_rest();
    }
    let magnitude: u64 = if len <= 24 {
        let room = 24 - len;
        let lift = if room < j {
            room
        } else {
            j
        };
        let scale = power_of_two(lift);
        proof {
            lemma_round_lifted(k as nat, j as nat);
            lemma_pow2_adds(len as nat, lift as nat);
            lemma_pow2_pos(lift as nat);
            if len + lift < 24 {
                lemma_pow2_strictly_increases((len + lift) as nat, 24);
            }
            let high = pow2(len as nat) as int;
            assert(k * scale < high * scale) by (nonlinear_arith)
                requires
                    k < high,
                    scale > 0,
            ;
        }
        (j - lift) as u64 * 0x80_0000 + k * scale
    } else {
        let s = len - 24;
        let unit = power_of_two(s);
        let kept = k / unit;
        let cut = k % unit;
        proof {
            lemma_round_cut(k as nat, j as nat);
            lemma_pow2_adds(s as nat, 24);
            lemma_pow2_pos(s as nat);
            let high = pow2(len as nat) as int;
            assert(kept < 0x100_0000) by (nonlinear_arith)
                requires
                    kept == k / unit,
                    k < unit * 0x100_0000,
                    unit > 0,
            ;
            lemma_pow2_strictly_increases(s as nat, 62);
        }
        let up: u64 = if 2 * cut > unit || (2 * cut == unit && kept % 2 == 1) {
            1
        } else {
            0
        };
        (s + j) as u64 * 0x80_0000 + kept + up
    };
    if magnitude >= INFINITY_BITS as u64 {
        INFINITY_BITS
    } else {
        magnitude as u32
    }
}

/// Rounding a number of twenty-four bits at the level `level` with a much
/// smaller number added to it or taken from it gives the number back: what
/// is smaller than a quarter of its last place does not move it.
pub proof fn lemma_round_far(hi: nat, level: nat, x: nat, minus: bool)
    requires
        0x80_0000 <= hi < 0x100_0000,
        2 <= level <= 253,
        x < pow2((level - 2) as nat),
    ensures
        hi * pow2(level) > x,
        round_magnitude(
            (if minus {
                hi * pow2(level) - x
            } else {
                (hi * pow2(level) + x) as int
            }) as nat,
        ) == level * 0x80_0000 + hi,
{
    let p = pow2(level) as int;
    let half = pow2((level - 1) as nat) as int;
    let quarter = pow2((level - 2) as nat) as int;
    lemma_pow2_unfold(level);
    lemma_pow2_unfold((level - 1) as nat);
    lemma_pow2_pos((level - 2) as nat);
    lemma_pow2_adds(23, level);
    lemma_pow2_adds(24, level);
    lemma_pow2_adds(22, level);
    lemma2_to64();
    assert(p == 2 * half && half == 2 * quarter);
    assert(hi * p >= 0x80_0000 * p) by (nonlinear_arith)
        requires
            hi >= 0x80_0000,
            p > 0,
    ;
    assert(hi * p + p <= 0x100_0000 * p) by (nonlinear_arith)
        requires
            hi < 0x100_0000,
            p > 0,
    ;
    if !minus || x == 0 {
        let m = hi * p + x;
        lemma_bit_length_is(m as nat, 24 + level);
        lemma_fundamental_div_mod_converse(m, p, hi as int, x as int);
    } else if hi > 0x80_0000 {
        let m = hi * p - x;
        assert(m == (hi - 1) * p + (p - x)) by (nonlinear_arith)
            requires
                m == hi * p - x,
        ;
        assert((hi - 1) * p >= 0x80_0000 * p) by (nonlinear_arith)
            requires
                hi - 1 >= 0x80_0000,
                p > 0,
        ;
        lemma_bit_length_is(m as nat, 24 + level);
        lemma_fundamental_div_mod_converse(m, p, hi - 1, p - x);
    } else {
        let m = hi * p - x;
        assert(hi * p == 0x100_0000 * half) by (nonlinear_arith)
            requires
                hi == 0x80_0000,
                p == 2 * half,
        ;
        assert(m == 0xff_ffff * half + (half - x)) by (nonlinear_arith)
            requires
                m == 0x100_0000 * half - x,
        ;
        assert(0x40_0000 * p == 0x80_0000 * half) by (nonlinear_arith)
            requires
                p == 2 * half,
        ;
        assert(m >= 0x40_0000 * p) by (nonlinear_arith)
            requires
                m == 0x100_0000 * half - x,
                0x40_0000 * p == 0x80_0000 * half,
                x < half,
                half > 0,
        ;
        lemma_bit_length_is(m as nat, 23 + level);
        lemma_fundamental_div_mod_converse(m, half, 0xff_ffff, half - x);
        assert(0xff_ffffint % 2 == 1);
    }
}

/// An infinity is known by its sign: there is one bit pattern for each.
pub proof fn lemma_infinity_bits(value: Float32)
    requires
        value.is_infinite(),
    ensures
        value.bits == (if value.sign() {
            0xff80_0000u32
        } else {
            INFINITY_BITS
        }),
{
}

/// The order of the two numbers does not matter to their sum.
pub proof fn lemma_sum_commutes(a: Float32, b: Float32)
    ensures
        a.sum(b) == b.sum(a),
{
    if a.is_infinite() && b.is_infinite() {
        lemma_infinity_bits(a);
        lemma_infinity_bits(b);
    }
}

/// The sign, the significand and the level of a finite number.
pub(crate) fn parts(value: Float32) -> (r: (bool, u64, u32))
    requires
        !value.is_nan(),
        !value.is_infinite(),
    ensures
        r.0 == value.sign(),
        r.1 == value.significand(),
        r.2 == value.level(),
        r.1 < 0x100_0000,
        r.2 <= 253,
        r.2 > 0 ==> r.1 >= 0x80_0000,
        value.bits == (if r.0 {
            0x8000_0000
        } else {
            0int
        }) + r.2 * 0x80_0000 + r.1,
{
    let field: u32 = (value.bits / 0x80_0000) % 256;
    let fraction: u32 = value.bits % 0x80_0000;
    let negative = value.bits >= 0x8000_0000;
    if field == 0 {
        (negative, fraction as u64, 0)
    } else {
        (negative, 0x80_0000 + fraction as u64, field - 1)
    }
}

impl Float32 {
    /// The sum of two numbers, rounded to the nearest as IEEE 754 has it.
    pub fn add(self, other: Float32) -> (r: Float32)
        ensures
            r == self.sum(other),
    {
        let a_field: u32 = (self.bits / 0x80_0000) % 256;
        let b_field: u32 = (other.bits / 0x80_0000) % 256;
        let a_nan = a_field == 255 && self.bits % 0x80_0000 != 0;
        let b_nan = b_field == 255 && other.bits % 0x80_0000 != 0;
        if a_nan || b_nan {
            return Float32 { bits: NAN_BITS };
        }
        if a_field == 255 {
            if b_field == 255 && (self.bits >= 0x8000_0000) != (other.bits >= 0x8000_0000) {
                return Float32 { bits: NAN_BITS };
            }
            return self;
        }
        if b_field == 255 {
            return other;
        }
        let (a_neg, a_sig, a_level) = parts(self);
        let (b_neg, b_sig, b_level) = parts(other);
        if a_level >= b_level {
            add_ordered(self, other, a_neg, a_sig, a_level, b_neg, b_sig, b_level)
        } else {
            add_ordered(other, self, b_neg, b_sig, b_level, a_neg, a_sig, a_level)
        }
    }
}

/// The sum of two finite numbers of which the first has the higher level,
/// or the same.
fn add_ordered(
    hi: Float32,
    lo: Float32,
    hi_neg: bool,
    hi_sig: u64,
    hi_level: u32,
    lo_neg: bool,
    lo_sig: u64,
    lo_level: u32,
) -> (r: Float32)
    requires
        !hi.is_nan() && !hi.is_infinite() && !lo.is_nan() && !lo.is_infinite(),
        hi_neg == hi.sign() && hi_sig == hi.significand() && hi_level == hi.level(),
        lo_neg == lo.sign() && lo_sig == lo.significand() && lo_level == lo.level(),
        hi_sig < 0x100_0000 && lo_sig < 0x100_0000,
        lo_level <= hi_level <= 253,
        hi_level > 0 ==> hi_sig >= 0x80_0000,
        hi.bits == (if hi_neg {
            0x8000_0000
        } else {
            0int
        }) + hi_level * 0x80_0000 + hi_sig,
    ensures
        r == hi.sum(lo),
        r == lo.sum(hi),
{
    let gap = hi_level - lo_level;
    let ghost unit = pow2(lo_level as nat) as int;
    proof {
        lemma_pow2_pos(lo_level as nat);
        lemma_pow2_adds(gap as nat, lo_level as nat);
    }
    if gap > 25 {
        proof {
            let x = lo_sig as nat * pow2(lo_level as nat);
            lemma_pow2_adds(24, lo_level as nat);
            lemma2_to64();
            if 24 + lo_level < hi_level - 2 {
                lemma_pow2_strictly_increases((24 + lo_level) as nat, (hi_level - 2) as nat);
            }
            assert(x < 0x100_0000 * unit) by (nonlinear_arith)
                requires
                    x == lo_sig * unit,
                    lo_sig < 0x100_0000,
                    unit > 0,
            ;
            lemma_round_far(hi_sig as nat, hi_level as nat, x, hi_neg != lo_neg);
        }
        return hi;
    }
    let scale = power_of_two(gap);
    proof {
        lemma2_to64();
        if gap < 25 {
            lemma_pow2_strictly_increases(gap as nat, 25);
        }
        assert(hi_sig * scale < 0x100_0000 * 0x200_0000) by (nonlinear_arith)
            requires
                hi_sig < 0x100_0000,
                0 < scale <= 0x200_0000,
        ;
    }
    let big: u64 = hi_sig * scale;
    proof {
        assert(hi_sig * pow2(hi_level as nat) == big * unit) by (nonlinear_arith)
            requires
                big == hi_sig * scale,
                pow2(hi_level as nat) == scale * unit,
        ;
    }
    let (magnitude, negative): (u64, bool) = if hi_neg == lo_neg {
        (big + lo_sig, hi_neg)
    } else if big >= lo_sig {
        (big - lo_sig, hi_neg)
    } else {
        (lo_sig - big, lo_neg)
    };
    proof {
        let exact = hi.scaled() + lo.scaled();
        let signed: int = if negative {
            -(magnitude as int)
        } else {
            magnitude as int
        };
        assert(exact == signed * unit) by (nonlinear_arith)
            requires
                exact == (if hi_neg {
                    -(big * unit)
                } else {
                    big * unit
                }) + (if lo_neg {
                    -(lo_sig * unit)
                } else {
                    lo_sig * unit
                }),
                signed == (if hi_neg {
                    -(big as int)
                } else {
                    big as int
                }) + (if lo_neg {
                    -(lo_sig as int)
                } else {
                    lo_sig as int
                }),
        ;
        assert((exact == 0) == (magnitude == 0)) by (nonlinear_arith)
            requires
                exact == signed * unit,
                unit > 0,
                (signed == 0) == (magnitude == 0),
        ;
        assert((exact < 0) == (negative && magnitude != 0)) by (nonlinear_arith)
            requires
                exact == signed * unit,
                unit > 0,
                (signed < 0) == (negative && magnitude != 0),
        ;
        assert((if exact < 0 {
            -exact
        } else {
            exact
        }) == magnitude * unit) by (nonlinear_arith)
            requires
                exact == signed * unit,
                signed == (if negative {
                    -(magnitude as int)
                } else {
                    magnitude as int
                }),
                unit > 0,
                magnitude >= 0,
        ;
    }
    if magnitude == 0 {
        return Float32 {
            bits: if hi_neg && lo_neg {
                0x8000_0000
            } else {
                0
            },
        };
    }
    let rounded = round_scaled(magnitude, lo_level);
    Float32 {
        bits: if negative {
            0x8000_0000 + rounded
        } else {
            rounded
        },
    }
}

impl Float32 {
    /// The single-precision number nearest to a count.
    pub open spec fn of_count(count: u64) -> Float32 {
        if count == 0 {
            Self::zero(false)
        } else {
            Self::nearest(count * pow2(149))
        }
    }

    /// The single-precision number nearest to a count.
    pub fn from_count(count: u64) -> (r: Float32)
        ensures
            r == Self::of_count(count),
    {
        if count == 0 {
            Float32 { bits: 0 }
        } else {
            proof {
                lemma_pow2_pos(149);
                assert(count * pow2(149) > 0) by (nonlinear_arith)
                    requires
                        count > 0,
                        pow2(149) > 0,
                ;
            }
            Float32 { bits: round_scaled(count, 149) }
        }
    }

    /// The single-precision number nearest to a whole number.
    pub open spec fn of_integer(n: int) -> Float32 {
        if n == 0 {
            Self::zero(false)
        } else {
            Self::nearest(n * pow2(149))
        }
    }

    /// The single-precision number nearest to a whole number that is
    /// within 2 to the power 32 of the range of `u64`, on either side of
    /// zero.
    pub(crate) fn from_integer(n: i128) -> (r: Float32)
        requires
            -0x1_0000_0001_0000_0000 < n < 0x1_0000_0001_0000_0000,
        ensures
            r == Self::of_integer(n as int),
    {
        if n == 0 {
            return Float32 { bits: 0 };
        }
        let magnitude: u128 = if n < 0 {
            (-n) as u128
        } else {
            n as u128
        };
        let sign_bit: u32 = if n < 0 {
            0x8000_0000
        } else {
            0
        };
        proof {
            lemma_pow2_pos(149);
            let unit = pow2(149) as int;
            assert((n * unit < 0) == (n < 0) && n * unit != 0 && (if n < 0 {
                -(n * unit)
            } else {
                n * unit
            }) == magnitude * unit) by (nonlinear_arith)
                requires
                    n != 0,
                    unit > 0,
                    magnitude == (if n < 0 {
                        -n
                    } else {
                        n as int
                    }),
            ;
        }
        let rounded: u32 = if magnitude > u64::MAX as u128 {
            // between 2^64 and 2^64 + 2^32: the nearest number is 2^64
            proof {
                lemma2_to64();
                lemma2_to64_rest();
                vstd::arithmetic::power2::lemma_pow2_unfold(65);
                lemma_bit_length_is(magnitude as nat, 65);
                lemma_round_cut(magnitude as nat, 149);
                let places = pow2(41) as int;
                vstd::arithmetic::div_mod::lemma_fundamental_div_mod_converse(
                    magnitude as int,
                    places,
                    0x80_0000,
                    magnitude - 0x1_0000_0000_0000_0000,
                );
            }
            0x5f80_0000
        } else {
            round_scaled(magnitude as u64, 149)
        };
        Float32 { bits: sign_bit + rounded }
    }

    /// Where a number that is not a NaN stands among the numbers: the larger
    /// the number, the larger this; the two zeros stand at 0.
    pub open spec fn rank(self) -> int {
        if self.sign() {
            0x8000_0000 - self.bits
        } else {
            self.bits as int
        }
    }

    /// Whether the number is less than `other`; nothing is less than a NaN,
    /// and a NaN is less than nothing.
    pub open spec fn less(self, other: Float32) -> bool {
        !self.is_nan() && !other.is_nan() && self.rank() < other.rank()
    }

    /// Whether the number is less than `other`.
    pub fn lt(self, other: Float32) -> (r: bool)
        ensures
            r == self.less(other),
    {
        let a_nan = (self.bits / 0x80_0000) % 256 == 255 && self.bits % 0x80_0000 != 0;
        let b_nan = (other.bits / 0x80_0000) % 256 == 255 && other.bits % 0x80_0000 != 0;
        if a_nan || b_nan {
            false
        } else {
            let a: i64 = if self.bits >= 0x8000_0000 {
                0x8000_0000 - self.bits as i64
            } else {
                self.bits as i64
            };
            let b: i64 = if other.bits >= 0x8000_0000 {
                0x8000_0000 - other.bits as i64
            } else {
                other.bits as i64
            };
            a < b
        }
    }
}

} // verus!

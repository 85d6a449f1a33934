//! Single-precision numbers of the wire format, held as their bit patterns.
//!
//! The protocol sends clock readings and positions as IEEE 754 single
//! precision numbers. This library carries such a number as the 32 bits that
//! were on the wire, so that what is written is byte for byte what was read.

use vstd::prelude::*;
use vstd::arithmetic::power2::{
    lemma2_to64, lemma2_to64_rest, lemma_pow2_strictly_increases, lemma_pow2_unfold, pow2,
};
use crate::telemetry::udp::wire::{
    bytes_u32, le_u32, lemma_u32_round_trip, parsed, put_le_u32, spec_le_u32, u32_at, u32_of,
    ParseError, Parsed,
};

verus! {

/// An IEEE 754 single-precision number, given by its bit pattern.
#[derive(Clone, Copy, Debug, PartialEq, Eq, Structural)]
pub struct Float32 {
    /// The sign bit, eight exponent bits and twenty-three fraction bits.
    pub bits: u32,
}

impl View for Float32 {
    type V = Float32;

    open spec fn view(&self) -> Float32 {
        *self
    }
}

impl Default for Float32 {
    /// Positive zero.
    fn default() -> (r: Float32)
        ensures
            r.bits == 0,
    {
        Float32 { bits: 0 }
    }
}

impl Float32 {
    /// The number with the given bit pattern.
    pub fn from_bits(bits: u32) -> (r: Float32)
        ensures
            r.bits == bits,
    {
        Float32 { bits }
    }

    /// The bit pattern of the number.
    pub fn to_bits(self) -> (r: u32)
        ensures
            r == self.bits,
    {
        self.bits
    }
}

impl Float32 {
    /// Whether the sign bit is set.
    pub open spec fn sign(self) -> bool {
        self.bits >= 0x8000_0000
    }

    /// The eight exponent bits, as a number.
    pub open spec fn exponent_field(self) -> int {
        (self.bits as int / 0x80_0000) % 256
    }

    /// The twenty-three fraction bits, as a number.
    pub open spec fn fraction(self) -> int {
        self.bits as int % 0x80_0000
    }

    /// Whether the pattern is not a number.
    pub open spec fn is_nan(self) -> bool {
        self.exponent_field() == 255 && self.fraction() != 0
    }

    /// Whether the pattern is an infinity.
    pub open spec fn is_infinite(self) -> bool {
        self.exponent_field() == 255 && self.fraction() == 0
    }

    /// Whether the number is zero, with either sign.
    pub open spec fn is_zero(self) -> bool {
        self.bits as int % 0x8000_0000 == 0
    }

    /// The significand of a finite number: its magnitude is the significand
    /// times two to the power `exponent`.
    pub open spec fn significand(self) -> int {
        if self.exponent_field() == 0 {
            self.fraction()
        } else {
            0x80_0000 + self.fraction()
        }
    }

    /// The power of two by which the significand of a finite number is
    /// scaled; between -149 and 104.
    pub open spec fn exponent(self) -> int {
        (if self.exponent_field() == 0 {
            1
        } else {
            self.exponent_field()
        }) - 150
    }

    /// Whether two patterns are equal as numbers: neither is a NaN, and they
    /// are the same pattern or both are zero.
    pub open spec fn same_number(self, other: Float32) -> bool {
        &&& !self.is_nan()
        &&& !other.is_nan()
        &&& (self.bits == other.bits || (self.is_zero() && other.is_zero()))
    }

    /// The number rounded up to a whole number and brought into the range of
    /// `u64`: a NaN and every number below zero give 0, what is too large
    /// gives `u64::MAX`.
    pub open spec fn ceil_u64(self) -> u64 {
        if self.is_nan() || self.sign() {
            0
        } else if self.is_infinite() {
            u64::MAX
        } else if self.exponent() >= 0 {
            let whole = self.significand() * pow2(self.exponent() as nat);
            if whole > u64::MAX {
                u64::MAX
            } else {
                whole as u64
            }
        } else {
            let unit = pow2((-self.exponent()) as nat) as int;
            ((self.significand() + unit - 1) / unit) as u64
        }
    }

    /// The magnitude of a finite number, rounded down to a whole number.
    pub open spec fn floor_magnitude(self) -> int {
        if self.exponent() >= 0 {
            self.significand() * pow2(self.exponent() as nat)
        } else {
            self.significand() / (pow2((-self.exponent()) as nat) as int)
        }
    }

    /// The number rounded up to a whole number and brought into the range of
    /// `i32`: a NaN gives 0, what is too large `i32::MAX`, what is too small
    /// `i32::MIN`.
    pub open spec fn ceil_i32(self) -> i32 {
        if self.is_nan() {
            0
        } else if !self.sign() {
            if self.ceil_u64() > i32::MAX {
                i32::MAX
            } else {
                self.ceil_u64() as i32
            }
        } else if self.is_infinite() || self.floor_magnitude() > 0x8000_0000 {
            i32::MIN
        } else {
            (-self.floor_magnitude()) as i32
        }
    }

    /// The number rounded up to a whole number, as an `i32`.
    pub fn ceil_to_i32(self) -> (r: i32)
        ensures
            r == self.ceil_i32(),
    {
        let field: u32 = (self.bits / 0x80_0000) % 256;
        let fraction: u32 = self.bits % 0x80_0000;
        if field == 255 && fraction != 0 {
            return 0;
        }
        if self.bits < 0x8000_0000 {
            let up = self.ceil_to_u64();
            if up > i32::MAX as u64 {
                return i32::MAX;
            } else {
                return up as i32;
            }
        }
        if field == 255 {
            return i32::MIN;
        }
        let significand: u64 = if field == 0 {
            fraction as u64
        } else {
            0x80_0000 + fraction as u64
        };
        proof {
            lemma2_to64();
            lemma2_to64_rest();
        }
        let down: u64 = if field >= 150 {
            let shift: u32 = field - 150;
            if shift > 8 {
                proof {
                    if shift > 9 {
                        lemma_pow2_strictly_increases(9, shift as nat);
                    }
                    let scale = pow2(shift as nat) as int;
                    assert(significand * scale >= 0x80_0000 * 0x200) by (nonlinear_arith)
                        requires
                            significand >= 0x80_0000,
                            scale >= 0x200,
                    ;
                }
                return i32::MIN;
            }
            let scale = power_of_two(shift);
            proof {
                if shift < 8 {
                    lemma_pow2_strictly_increases(shift as nat, 8);
                }
                assert(significand * scale < 0x100_0000 * 0x101) by (nonlinear_arith)
                    requires
                        significand < 0x100_0000,
                        0 < scale <= 0x100,
                ;
            }
            significand * scale
        } else {
            let shift: u32 = 150 - (if field == 0 {
                1
            } else {
                field
            });
            if shift >= 24 {
                proof {
                    if shift > 24 {
                        lemma_pow2_strictly_increases(24, shift as nat);
                    }
                    let unit = pow2(shift as nat) as int;
                    assert(significand as int / unit == 0) by (nonlinear_arith)
                        requires
                            0 <= significand < unit,
                    ;
                }
                0
            } else {
                let unit = power_of_two(shift);
                proof {
                    lemma_pow2_strictly_increases(shift as nat, 24);
                    assert(significand / unit <= significand) by (nonlinear_arith)
                        requires
                            unit >= 1,
                            significand >= 0,
                    ;
                }
                significand / unit
            }
        };
        if down > 0x8000_0000 {
            i32::MIN
        } else {
            (-(down as i64)) as i32
        }
    }

    /// Whether two patterns are equal as numbers.
    pub fn eq_number(self, other: Float32) -> (r: bool)
        ensures
            r == self.same_number(other),
    {
        let a_nan = (self.bits / 0x80_0000) % 256 == 255 && self.bits % 0x80_0000 != 0;
        let b_nan = (other.bits / 0x80_0000) % 256 == 255 && other.bits % 0x80_0000 != 0;
        if a_nan || b_nan {
            false
        } else {
            self.bits == other.bits || (self.bits % 0x8000_0000 == 0 && other.bits % 0x8000_0000
                == 0)
        }
    }

    /// The number rounded up to a whole number, as a `u64`.
    pub fn ceil_to_u64(self) -> (r: u64)
        ensures
            r == self.ceil_u64(),
    {
        let field: u32 = (self.bits / 0x80_0000) % 256;
        let fraction: u32 = self.bits % 0x80_0000;
        if self.bits >= 0x8000_0000 {
            return 0;
        }
        if field == 255 {
            if fraction != 0 {
                return 0;
            } else {
                return u64::MAX;
            }
        }
        let significand: u64 = if field == 0 {
            fraction as u64
        } else {
            0x80_0000 + fraction as u64
        };
        assert(significand == self.significand());
        assert(!self.is_nan() && !self.sign() && !self.is_infinite());
        if field >= 150 {
            let shift: u32 = field - 150;
            assert(shift == self.exponent());
            if shift > 40 {
                proof {
                    lemma2_to64();
                    lemma2_to64_rest();
                    if shift > 41 {
                        lemma_pow2_strictly_increases(41, shift as nat);
                    }
                    let scale = pow2(shift as nat) as int;
                    assert(significand * scale >= 0x80_0000 * 0x200_0000_0000)
                        by (nonlinear_arith)
                        requires
                            significand >= 0x80_0000,
                            scale >= 0x200_0000_0000,
                    ;
                }
                u64::MAX
            } else {
                let scale = power_of_two(shift);
                proof {
                    lemma2_to64();
                    lemma2_to64_rest();
                    if shift < 40 {
                        lemma_pow2_strictly_increases(shift as nat, 40);
                    }
                    assert(significand * scale < 0x1_0000_0000_0000_0000) by (nonlinear_arith)
                        requires
                            significand < 0x100_0000,
                            scale <= 0x100_0000_0000,
                    ;
                }
                significand * scale
            }
        } else {
            let shift: u32 = 150 - (if field == 0 {
                1
            } else {
                field
            });
            assert(shift == -self.exponent());
            if shift >= 24 {
                proof {
                    lemma2_to64();
                    if shift > 24 {
                        lemma_pow2_strictly_increases(24, shift as nat);
                    }
                    let unit = pow2(shift as nat) as int;
                    if significand > 0 {
                        assert((significand + unit - 1) / unit == 1) by (nonlinear_arith)
                            requires
                                0 < significand < unit,
                        ;
                    } else {
                        assert((significand + unit - 1) / unit == 0) by (nonlinear_arith)
                            requires
                                significand == 0,
                                0 < unit,
                        ;
                    }
                }
                if significand > 0 {
                    1
                } else {
                    0
                }
            } else {
                let unit = power_of_two(shift);
                proof {
                    lemma2_to64();
                    if shift < 23 {
                        lemma_pow2_strictly_increases(shift as nat, 23);
                    }
                }
                (significand + unit - 1) / unit
            }
        }
    }
}

/// Two to the power `exponent`.
pub(crate) fn power_of_two(exponent: u32) -> (r: u64)
    requires
        exponent <= 62,
    ensures
        r == pow2(exponent as nat),
{
    let mut power: u64 = 1;
    let mut i: u32 = 0;
    proof {
        lemma2_to64();
    }
    while i < exponent
        invariant
            i <= exponent <= 62,
            power == pow2(i as nat),
        decreases exponent - i,
    {
        proof {
            lemma_pow2_unfold((i + 1) as nat);
            lemma2_to64_rest();
            lemma_pow2_strictly_increases((i + 1) as nat, 63);
        }
        power = power * 2;
        i += 1;
    }
    power
}

/// A single-precision number: four little-endian bytes.
pub open spec fn spec_le_float(input: Seq<u8>) -> Parsed<Float32> {
    match spec_le_u32(input) {
        Err(e) => Err(e),
        Ok((rest, bits)) => Ok((rest, Float32 { bits })),
    }
}

/// The four little-endian bytes of a single-precision number.
pub open spec fn bytes_float(value: Float32) -> Seq<u8> {
    bytes_u32(value.bits)
}

/// The single-precision number in the four bytes of `input` from `at` on.
pub open spec fn float_at(input: Seq<u8>, at: int) -> Float32 {
    Float32 { bits: u32_of(input[at], input[at + 1], input[at + 2], input[at + 3]) }
}

/// The single-precision number in the four bytes of `input` from `at` on.
pub(crate) fn read_float_at(input: &[u8], at: usize) -> (r: Float32)
    requires
        at + 4 <= input@.len(),
    ensures
        r == float_at(input@, at as int),
{
    Float32 { bits: u32_at(input, at) }
}

/// Reads a single-precision number.
pub fn le_float<'a>(input: &'a [u8]) -> (r: Result<(&'a [u8], Float32), ParseError>)
    ensures
        parsed(r, spec_le_float(input@)),
{
    let (rest, bits) = le_u32(input)?;
    Ok((rest, Float32 { bits }))
}

/// Appends the four bytes of a single-precision number.
pub fn put_le_float(out: &mut Vec<u8>, value: Float32)
    ensures
        final(out)@ == old(out)@ + bytes_float(value),
{
    put_le_u32(out, value.bits);
}

/// The bytes of a single-precision number give back the number.
pub proof fn lemma_float_at(value: Float32)
    ensures
        bytes_float(value).len() == 4,
        float_at(bytes_float(value), 0) == value,
{
    lemma_u32_round_trip(value.bits, Seq::empty());
}

/// A single-precision number written and read again has the same bits.
pub proof fn lemma_float_round_trip(value: Float32, tail: Seq<u8>)
    ensures
        spec_le_float(bytes_float(value) + tail) == Ok::<(Seq<u8>, Float32), ParseError>(
            (tail, value),
        ),
{
    lemma_u32_round_trip(value.bits, tail);
}

} // verus!

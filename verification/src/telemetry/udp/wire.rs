//! Primitive readers and writers of the wire format: fixed-width
//! little-endian integers and length-prefixed UTF-8 strings.
//!
//! A reader takes the bytes that are left and returns the value together with
//! the bytes behind it. Each reader has a specification function over `Seq<u8>`
//! of the same shape, and each writer a function that names the bytes it
//! produces; the lemmas at the end of the file relate the two.

use vstd::prelude::*;
use vstd::slice::slice_subrange;
use vstd::utf8::*;
use vstd::string::StringSliceAdditionalSpecFns;

verus! {

/// Why a reader gave up.
#[derive(Clone, Copy, Debug, PartialEq, Eq, Structural)]
pub enum ParseError {
    /// A field of fixed width runs past the end of the buffer: more bytes
    /// could complete it.
    Incomplete,
    /// The text of a string is shorter than its count says.
    Error,
    /// The bytes are there and cannot be a value of the field.
    Failure,
}

/// What a specification-level reader yields: the bytes left and the value.
pub type Parsed<V> = Result<(Seq<u8>, V), ParseError>;

/// The executable result `r` is the one that the specification `s` names.
pub open spec fn parsed<T: View>(r: Result<(&[u8], T), ParseError>, s: Parsed<T::V>) -> bool {
    match r {
        Ok((rest, value)) => s == Ok::<(Seq<u8>, T::V), ParseError>((rest@, value@)),
        Err(e) => s == Err::<(Seq<u8>, T::V), ParseError>(e),
    }
}

/// The unsigned 16-bit value of two little-endian bytes.
pub open spec fn u16_of(b0: u8, b1: u8) -> u16 {
    (b0 as int + 256 * (b1 as int)) as u16
}

/// The unsigned 32-bit value of four little-endian bytes.
pub open spec fn u32_of(b0: u8, b1: u8, b2: u8, b3: u8) -> u32 {
    (b0 as int + 256 * (b1 as int) + 65536 * (b2 as int) + 16777216 * (b3 as int)) as u32
}

/// The signed value that a 16-bit pattern stands for in two's complement.
pub open spec fn i16_of_bits(bits: u16) -> i16 {
    if bits < 0x8000 {
        bits as i16
    } else {
        (bits as int - 0x1_0000) as i16
    }
}

/// The 16-bit pattern of a signed value in two's complement.
pub open spec fn bits_of_i16(value: i16) -> u16 {
    if value >= 0 {
        value as u16
    } else {
        (value as int + 0x1_0000) as u16
    }
}

/// The signed value that a 32-bit pattern stands for in two's complement.
pub open spec fn i32_of_bits(bits: u32) -> i32 {
    if bits < 0x8000_0000 {
        bits as i32
    } else {
        (bits as int - 0x1_0000_0000) as i32
    }
}

/// The 32-bit pattern of a signed value in two's complement.
pub open spec fn bits_of_i32(value: i32) -> u32 {
    if value >= 0 {
        value as u32
    } else {
        (value as int + 0x1_0000_0000) as u32
    }
}

/// The two little-endian bytes of `value`.
pub open spec fn bytes_u16(value: u16) -> Seq<u8> {
    seq![(value % 256) as u8, (value / 256) as u8]
}

/// The four little-endian bytes of `value`.
pub open spec fn bytes_u32(value: u32) -> Seq<u8> {
    seq![
        (value % 256) as u8,
        (value / 256 % 256) as u8,
        (value / 65536 % 256) as u8,
        (value / 16777216) as u8,
    ]
}

/// The two little-endian bytes of a signed `value`.
pub open spec fn bytes_i16(value: i16) -> Seq<u8> {
    bytes_u16(bits_of_i16(value))
}

/// The four little-endian bytes of a signed `value`.
pub open spec fn bytes_i32(value: i32) -> Seq<u8> {
    bytes_u32(bits_of_i32(value))
}

/// One byte; an empty buffer is incomplete.
pub open spec fn spec_byte(input: Seq<u8>) -> Parsed<u8> {
    if input.len() < 1 {
        Err(ParseError::Incomplete)
    } else {
        Ok((input.skip(1), input[0]))
    }
}

/// A little-endian `u16`; fewer than two bytes are incomplete.
pub open spec fn spec_le_u16(input: Seq<u8>) -> Parsed<u16> {
    if input.len() < 2 {
        Err(ParseError::Incomplete)
    } else {
        Ok((input.skip(2), u16_of(input[0], input[1])))
    }
}

/// A little-endian `i16`; fewer than two bytes are incomplete.
pub open spec fn spec_le_i16(input: Seq<u8>) -> Parsed<i16> {
    if input.len() < 2 {
        Err(ParseError::Incomplete)
    } else {
        Ok((input.skip(2), i16_of_bits(u16_of(input[0], input[1]))))
    }
}

/// A little-endian `u32`; fewer than four bytes are incomplete.
pub open spec fn spec_le_u32(input: Seq<u8>) -> Parsed<u32> {
    if input.len() < 4 {
        Err(ParseError::Incomplete)
    } else {
        Ok((input.skip(4), u32_of(input[0], input[1], input[2], input[3])))
    }
}

/// A little-endian `i32`; fewer than four bytes are incomplete.
pub open spec fn spec_le_i32(input: Seq<u8>) -> Parsed<i32> {
    if input.len() < 4 {
        Err(ParseError::Incomplete)
    } else {
        Ok((input.skip(4), i32_of_bits(u32_of(input[0], input[1], input[2], input[3]))))
    }
}

/// A string: a little-endian `u16` that counts bytes, then that many bytes of
/// UTF-8. A buffer that ends inside the count is incomplete; one that holds
/// fewer bytes of text than the count says is an error; text that is not
/// UTF-8 is a failure.
pub open spec fn spec_read_string(input: Seq<u8>) -> Parsed<Seq<char>> {
    match spec_le_u16(input) {
        Err(e) => Err(e),
        Ok((rest, count)) => {
            if rest.len() < count {
                Err(ParseError::Error)
            } else if !valid_utf8(rest.take(count as int)) {
                Err(ParseError::Failure)
            } else {
                Ok((rest.skip(count as int), decode_utf8(rest.take(count as int))))
            }
        },
    }
}

/// The bytes of a string on the wire: the count of its UTF-8 bytes, reduced
/// to sixteen bits, then the UTF-8 bytes themselves.
pub open spec fn bytes_string(text: Seq<char>) -> Seq<u8> {
    bytes_u16((encode_utf8(text).len() % 65536) as u16) + encode_utf8(text)
}

/// Whether the wire format can carry `text`: its UTF-8 form has a length that
/// fits the sixteen-bit count.
pub open spec fn string_fits(text: Seq<char>) -> bool {
    encode_utf8(text).len() <= 65535
}

/// Reads one byte.
pub fn byte<'a>(input: &'a [u8]) -> (r: Result<(&'a [u8], u8), ParseError>)
    ensures
        parsed(r, spec_byte(input@)),
{
    if input.len() < 1 {
        Err(ParseError::Incomplete)
    } else {
        Ok((slice_subrange(input, 1, input.len()), input[0]))
    }
}

/// Reads a little-endian `u16`.
pub fn le_u16<'a>(input: &'a [u8]) -> (r: Result<(&'a [u8], u16), ParseError>)
    ensures
        parsed(r, spec_le_u16(input@)),
{
    if input.len() < 2 {
        Err(ParseError::Incomplete)
    } else {
        let value: u16 = input[0] as u16 + 256 * (input[1] as u16);
        Ok((slice_subrange(input, 2, input.len()), value))
    }
}

/// Reads a little-endian `i16`.
pub fn le_i16<'a>(input: &'a [u8]) -> (r: Result<(&'a [u8], i16), ParseError>)
    ensures
        parsed(r, spec_le_i16(input@)),
{
    if input.len() < 2 {
        Err(ParseError::Incomplete)
    } else {
        let bits: u16 = input[0] as u16 + 256 * (input[1] as u16);
        let value: i16 = if bits < 0x8000 {
            bits as i16
        } else {
            (bits - 0x8000) as i16 + i16::MIN
        };
        Ok((slice_subrange(input, 2, input.len()), value))
    }
}

/// Reads a little-endian `u32`.
pub fn le_u32<'a>(input: &'a [u8]) -> (r: Result<(&'a [u8], u32), ParseError>)
    ensures
        parsed(r, spec_le_u32(input@)),
{
    if input.len() < 4 {
        Err(ParseError::Incomplete)
    } else {
        let value: u32 = input[0] as u32 + 256 * (input[1] as u32) + 65536 * (input[2] as u32)
            + 16777216 * (input[3] as u32);
        Ok((slice_subrange(input, 4, input.len()), value))
    }
}

/// Reads a little-endian `i32`.
pub fn le_i32<'a>(input: &'a [u8]) -> (r: Result<(&'a [u8], i32), ParseError>)
    ensures
        parsed(r, spec_le_i32(input@)),
{
    if input.len() < 4 {
        Err(ParseError::Incomplete)
    } else {
        let bits: u32 = input[0] as u32 + 256 * (input[1] as u32) + 65536 * (input[2] as u32)
            + 16777216 * (input[3] as u32);
        let value: i32 = if bits < 0x8000_0000 {
            bits as i32
        } else {
            (bits - 0x8000_0000) as i32 + i32::MIN
        };
        Ok((slice_subrange(input, 4, input.len()), value))
    }
}

/// The `u16` in the two bytes of `input` from `at` on.
pub(crate) fn u16_at(input: &[u8], at: usize) -> (r: u16)
    requires
        at + 2 <= input@.len(),
    ensures
        r == u16_of(input@[at as int], input@[at + 1]),
{
    input[at] as u16 + 256 * (input[at + 1] as u16)
}

/// The `i16` in the two bytes of `input` from `at` on.
pub(crate) fn i16_at(input: &[u8], at: usize) -> (r: i16)
    requires
        at + 2 <= input@.len(),
    ensures
        r == i16_of_bits(u16_of(input@[at as int], input@[at + 1])),
{
    let bits: u16 = u16_at(input, at);
    if bits < 0x8000 {
        bits as i16
    } else {
        (bits - 0x8000) as i16 + i16::MIN
    }
}

/// The `u32` in the four bytes of `input` from `at` on.
pub(crate) fn u32_at(input: &[u8], at: usize) -> (r: u32)
    requires
        at + 4 <= input@.len(),
    ensures
        r == u32_of(input@[at as int], input@[at + 1], input@[at + 2], input@[at + 3]),
{
    input[at] as u32 + 256 * (input[at + 1] as u32) + 65536 * (input[at + 2] as u32) + 16777216
        * (input[at + 3] as u32)
}

/// The `i32` in the four bytes of `input` from `at` on.
pub(crate) fn i32_at(input: &[u8], at: usize) -> (r: i32)
    requires
        at + 4 <= input@.len(),
    ensures
        r == i32_of_bits(u32_of(input@[at as int], input@[at + 1], input@[at + 2], input@[at + 3])),
{
    let bits: u32 = u32_at(input, at);
    if bits < 0x8000_0000 {
        bits as i32
    } else {
        (bits - 0x8000_0000) as i32 + i32::MIN
    }
}

/// The error that `core::str::from_utf8` reports; nothing is read from it.
#[verifier::external_type_specification]
#[verifier::external_body]
pub struct ExUtf8Error(core::str::Utf8Error);

/// `core::str::from_utf8` accepts exactly the byte sequences that are UTF-8,
/// and the string slice it returns has those bytes as its encoding.
pub assume_specification[ core::str::from_utf8 ](v: &[u8]) -> (r: Result<
    &str,
    core::str::Utf8Error,
>)
    ensures
        r is Ok <==> valid_utf8(v@),
        r matches Ok(s) ==> s.spec_bytes() == v@,
;

/// Reads a string: the count of its bytes, then the text.
pub fn read_string<'a>(input: &'a [u8]) -> (r: Result<(&'a [u8], &'a str), ParseError>)
    ensures
        parsed(r, spec_read_string(input@)),
{
    let (rest, count) = le_u16(input)?;
    let count = count as usize;
    if rest.len() < count {
        return Err(ParseError::Error);
    }
    let body = slice_subrange(rest, 0, count);
    let tail = slice_subrange(rest, count, rest.len());
    match core::str::from_utf8(body) {
        Ok(text) => {
            proof {
                encode_utf8_decode_utf8(text@);
            }
            Ok((tail, text))
        },
        Err(_) => Err(ParseError::Failure),
    }
}

/// Appends the two little-endian bytes of `value`.
pub fn put_le_u16(out: &mut Vec<u8>, value: u16)
    ensures
        final(out)@ == old(out)@ + bytes_u16(value),
{
    out.push((value % 256) as u8);
    out.push((value / 256) as u8);
    assert(out@ =~= old(out)@ + bytes_u16(value));
}

/// Appends the four little-endian bytes of `value`.
pub fn put_le_u32(out: &mut Vec<u8>, value: u32)
    ensures
        final(out)@ == old(out)@ + bytes_u32(value),
{
    out.push((value % 256) as u8);
    out.push((value / 256 % 256) as u8);
    out.push((value / 65536 % 256) as u8);
    out.push((value / 16777216) as u8);
    assert(out@ =~= old(out)@ + bytes_u32(value));
}

/// Appends the two little-endian bytes of a signed `value`.
pub fn put_le_i16(out: &mut Vec<u8>, value: i16)
    ensures
        final(out)@ == old(out)@ + bytes_i16(value),
{
    let bits: u16 = if value >= 0 {
        value as u16
    } else {
        (value - i16::MIN) as u16 + 0x8000
    };
    put_le_u16(out, bits);
}

/// Appends the four little-endian bytes of a signed `value`.
pub fn put_le_i32(out: &mut Vec<u8>, value: i32)
    ensures
        final(out)@ == old(out)@ + bytes_i32(value),
{
    let bits: u32 = if value >= 0 {
        value as u32
    } else {
        (value - i32::MIN) as u32 + 0x8000_0000
    };
    put_le_u32(out, bits);
}

/// Appends a string: the count of its UTF-8 bytes, then the bytes.
pub fn put_string(out: &mut Vec<u8>, text: &str)
    ensures
        final(out)@ == old(out)@ + bytes_string(text@),
{
    let bytes = text.as_bytes();
    put_le_u16(out, (bytes.len() % 65536) as u16);
    out.extend_from_slice(bytes);
    assert(out@ =~= old(out)@ + bytes_string(text@));
}

/// The bytes of a string on the wire.
pub fn write_string(input: &str) -> (r: Vec<u8>)
    ensures
        r@ == bytes_string(input@),
{
    let mut out: Vec<u8> = Vec::new();
    put_string(&mut out, input);
    assert(out@ =~= bytes_string(input@));
    out
}

/// Appending is associative.
pub proof fn lemma_append_assoc(a: Seq<u8>, b: Seq<u8>, c: Seq<u8>)
    ensures
        (a + b) + c == a + (b + c),
{
    assert((a + b) + c =~= a + (b + c));
}

/// Skipping twice is skipping once.
pub proof fn lemma_skip_skip(s: Seq<u8>, m: int, n: int)
    requires
        0 <= m,
        0 <= n,
        m + n <= s.len(),
    ensures
        s.skip(m).skip(n) == s.skip(m + n),
{
    assert(s.skip(m).skip(n) =~= s.skip(m + n));
}

/// What stands behind a prefix is what is left when the prefix is skipped.
pub proof fn lemma_skip_prefix(a: Seq<u8>, b: Seq<u8>)
    ensures
        (a + b).skip(a.len() as int) == b,
        forall|i: int| 0 <= i < a.len() ==> (a + b)[i] == a[i],
{
    assert((a + b).skip(a.len() as int) =~= b);
}

/// A byte written and read again is the same byte, and what stood behind it
/// is left.
pub proof fn lemma_byte_round_trip(value: u8, tail: Seq<u8>)
    ensures
        spec_byte(seq![value] + tail) == Ok::<(Seq<u8>, u8), ParseError>((tail, value)),
{
    assert((seq![value] + tail).skip(1) =~= tail);
}

/// A `u16` written and read again is the same value.
pub proof fn lemma_u16_round_trip(value: u16, tail: Seq<u8>)
    ensures
        spec_le_u16(bytes_u16(value) + tail) == Ok::<(Seq<u8>, u16), ParseError>(
            (tail, value),
        ),
{
    assert((bytes_u16(value) + tail).skip(2) =~= tail);
}

/// A `u32` written and read again is the same value.
#[verifier::rlimit(40)]
pub proof fn lemma_u32_round_trip(value: u32, tail: Seq<u8>)
    ensures
        spec_le_u32(bytes_u32(value) + tail) == Ok::<(Seq<u8>, u32), ParseError>(
            (tail, value),
        ),
{
    assert((bytes_u32(value) + tail).skip(4) =~= tail);
}

/// An `i16` written and read again is the same value.
pub proof fn lemma_i16_round_trip(value: i16, tail: Seq<u8>)
    ensures
        spec_le_i16(bytes_i16(value) + tail) == Ok::<(Seq<u8>, i16), ParseError>(
            (tail, value),
        ),
{
    assert((bytes_i16(value) + tail).skip(2) =~= tail);
}

/// An `i32` written and read again is the same value.
#[verifier::rlimit(40)]
pub proof fn lemma_i32_round_trip(value: i32, tail: Seq<u8>)
    ensures
        spec_le_i32(bytes_i32(value) + tail) == Ok::<(Seq<u8>, i32), ParseError>(
            (tail, value),
        ),
{
    assert((bytes_i32(value) + tail).skip(4) =~= tail);
}

/// A string whose UTF-8 form fits the sixteen-bit count, written and read
/// again, is the same string: the empty one, and one with characters of
/// several bytes, among them.
pub proof fn lemma_string_round_trip(text: Seq<char>, tail: Seq<u8>)
    requires
        string_fits(text),
    ensures
        spec_read_string(bytes_string(text) + tail) == Ok::<(Seq<u8>, Seq<char>), ParseError>(
            (tail, text),
        ),
{
    let body = encode_utf8(text);
    let count = (body.len() % 65536) as u16;
    assert(bytes_string(text) + tail =~= bytes_u16(count) + (body + tail));
    lemma_u16_round_trip(count, body + tail);
    assert((body + tail).take(count as int) =~= body);
    assert((body + tail).skip(count as int) =~= tail);
    encode_utf8_valid_utf8(text);
    encode_utf8_decode_utf8(text);
}

} // verus!

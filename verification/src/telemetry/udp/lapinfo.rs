//! Timing of a single lap, as it is embedded in the realtime snapshots.
//!
//! On the wire a lap is: lap time (`i32`), car index (`u16`), driver index
//! (`u16`), a byte that counts the splits, that many split times (`i32`), and
//! four flag bytes (invalid, valid for best, out lap, in lap). A time equal to
//! `i32::MAX` means that there is no time yet.

use vstd::prelude::*;
use crate::telemetry::udp::wire::{
    bytes_i32, bytes_u16, i32_of_bits, le_i32, le_u16, lemma_i32_round_trip,
    lemma_u16_round_trip, parsed, put_le_i32, put_le_u16, u16_of, u32_of, byte, ParseError,
    Parsed,
};

verus! {

/// Whether a lap leaves the pits, enters them, or does neither.
#[derive(Clone, Copy, Debug, PartialEq, Eq, Structural)]
pub enum LapType {
    /// No lap has been read.
    Error,
    Outlap,
    Regular,
    Inlap,
}

impl LapType {
    /// The lap type that the two wire flags stand for: the out-lap flag wins.
    pub open spec fn of_flags(out_lap: bool, in_lap: bool) -> LapType {
        if out_lap {
            LapType::Outlap
        } else if in_lap {
            LapType::Inlap
        } else {
            LapType::Regular
        }
    }

    /// The lap type that the two wire flags stand for.
    pub fn new(out_lap: bool, in_lap: bool) -> (r: LapType)
        ensures
            r == Self::of_flags(out_lap, in_lap),
    {
        if out_lap {
            LapType::Outlap
        } else if in_lap {
            LapType::Inlap
        } else {
            LapType::Regular
        }
    }
}

impl Default for LapType {
    fn default() -> (r: LapType)
        ensures
            r == LapType::Error,
    {
        LapType::Error
    }
}

/// Information about a single lap.
#[derive(Clone, Debug, PartialEq)]
pub struct LapInfo {
    /// Out lap, in lap or regular lap.
    pub lap_type: LapType,
    /// Lap time in milliseconds, if there is one.
    pub laptime: Option<i32>,
    /// Index of the car.
    pub car_index: u16,
    /// Index of the driver.
    pub driver_index: u16,
    /// Split times in milliseconds, at least three once read off the wire.
    pub splits: Vec<Option<i32>>,
    /// The lap is invalidated.
    pub invalid: bool,
    /// The lap counts for the best time.
    pub valid_for_best: bool,
}

/// A lap as a mathematical value.
pub struct LapInfoView {
    pub lap_type: LapType,
    pub laptime: Option<i32>,
    pub car_index: u16,
    pub driver_index: u16,
    pub splits: Seq<Option<i32>>,
    pub invalid: bool,
    pub valid_for_best: bool,
}

impl View for LapInfo {
    type V = LapInfoView;

    open spec fn view(&self) -> LapInfoView {
        LapInfoView {
            lap_type: self.lap_type,
            laptime: self.laptime,
            car_index: self.car_index,
            driver_index: self.driver_index,
            splits: self.splits@,
            invalid: self.invalid,
            valid_for_best: self.valid_for_best,
        }
    }
}

impl LapInfoView {
    /// Whether the wire format can carry the lap as it is: no time equals the
    /// value that stands for a missing time, there are three to 255 splits,
    /// and the lap type is one that the flags can express.
    pub open spec fn fits(self) -> bool {
        &&& self.laptime != Some(i32::MAX)
        &&& 3 <= self.splits.len() <= 255
        &&& forall|i: int| 0 <= i < self.splits.len() ==> self.splits[i] != Some(i32::MAX)
        &&& self.lap_type != LapType::Error
    }
}

impl Default for LapInfo {
    /// A lap of which nothing is known.
    fn default() -> (r: LapInfo)
        ensures
            r@ == (LapInfoView {
                lap_type: LapType::Error,
                laptime: None,
                car_index: 0,
                driver_index: 0,
                splits: Seq::empty(),
                invalid: false,
                valid_for_best: false,
            }),
    {
        LapInfo {
            lap_type: LapType::Error,
            laptime: None,
            car_index: 0,
            driver_index: 0,
            splits: Vec::new(),
            invalid: false,
            valid_for_best: false,
        }
    }
}

/// The time that a wire value stands for: `i32::MAX` stands for none.
pub open spec fn optional(raw: i32) -> Option<i32> {
    if raw == i32::MAX {
        None
    } else {
        Some(raw)
    }
}

/// The wire value that stands for a time: a missing one is `i32::MAX`.
pub open spec fn sentinel(time: Option<i32>) -> i32 {
    match time {
        None => i32::MAX,
        Some(millis) => millis,
    }
}

/// The byte that stands for a flag.
pub open spec fn flag(value: bool) -> u8 {
    if value {
        1
    } else {
        0
    }
}

/// The `i`-th split time in `body`, a run of four-byte values.
pub open spec fn split_at(body: Seq<u8>, i: int) -> Option<i32> {
    optional(i32_of_bits(u32_of(body[4 * i], body[4 * i + 1], body[4 * i + 2], body[4 * i + 3])))
}

/// The splits of a lap: a count byte, then that many times. Fewer than three
/// are filled up to three with missing times. A buffer that ends inside them
/// is incomplete.
pub open spec fn spec_read_lap_split(input: Seq<u8>) -> Parsed<Seq<Option<i32>>> {
    if input.len() < 1 {
        Err(ParseError::Incomplete)
    } else {
        let count = input[0] as int;
        let body = input.skip(1);
        if body.len() < 4 * count {
            Err(ParseError::Incomplete)
        } else {
            Ok(
                (
                    body.skip(4 * count),
                    Seq::new(
                        (if count < 3 {
                            3
                        } else {
                            count
                        }) as nat,
                        |i: int|
                            if i < count {
                                split_at(body, i)
                            } else {
                                None
                            },
                    ),
                ),
            )
        }
    }
}

/// A lap on the wire. A buffer that ends inside it is incomplete.
pub open spec fn spec_read_lap(input: Seq<u8>) -> Parsed<LapInfoView> {
    if input.len() < 8 {
        Err(ParseError::Incomplete)
    } else {
        match spec_read_lap_split(input.skip(8)) {
            Err(e) => Err(e),
            Ok((rest, splits)) => {
                if rest.len() < 4 {
                    Err(ParseError::Incomplete)
                } else {
                    Ok(
                        (
                            rest.skip(4),
                            LapInfoView {
                                lap_type: LapType::of_flags(rest[2] > 0, rest[3] > 0),
                                laptime: optional(
                                    i32_of_bits(u32_of(input[0], input[1], input[2], input[3])),
                                ),
                                car_index: u16_of(input[4], input[5]),
                                driver_index: u16_of(input[6], input[7]),
                                splits,
                                invalid: rest[0] > 0,
                                valid_for_best: rest[1] > 0,
                            },
                        ),
                    )
                }
            },
        }
    }
}

/// The bytes of the splits: their count, reduced to a byte, then each time.
pub open spec fn bytes_splits(splits: Seq<Option<i32>>) -> Seq<u8> {
    seq![(splits.len() % 256) as u8] + Seq::new(
        4 * splits.len(),
        |j: int| bytes_i32(sentinel(splits[j / 4]))[j % 4],
    )
}

/// The bytes of a lap on the wire.
pub open spec fn bytes_lap(lap: LapInfoView) -> Seq<u8> {
    bytes_i32(sentinel(lap.laptime)) + bytes_u16(lap.car_index) + bytes_u16(lap.driver_index)
        + bytes_splits(lap.splits) + seq![
        flag(lap.invalid),
        flag(lap.valid_for_best),
        flag(lap.lap_type == LapType::Outlap),
        flag(lap.lap_type == LapType::Inlap),
    ]
}

/// Reads the splits of a lap.
pub fn read_lap_split<'a>(input: &'a [u8]) -> (r: Result<
    (&'a [u8], Vec<Option<i32>>),
    ParseError,
>)
    ensures
        parsed(r, spec_read_lap_split(input@)),
{
    let (body, number) = byte(input)?;
    let mut rest = body;
    let mut splits: Vec<Option<i32>> = Vec::new();
    let mut i: u8 = 0;
    while i < number
        invariant
            input@.len() >= 1,
            number == input@[0],
            body@ == input@.skip(1),
            i <= number,
            4 * i <= body@.len(),
            rest@ == body@.skip(4 * i),
            splits@ == Seq::new(i as nat, |k: int| split_at(body@, k)),
        decreases number - i,
    {
        match le_i32(rest) {
            Err(e) => {
                assert(rest@.len() == body@.len() - 4 * i);
                assert(body@.len() < 4 * number);
                return Err(e);
            },
            Ok((next, raw)) => {
                assert(next@ =~= body@.skip(4 * (i + 1)));
                assert(optional(raw) == split_at(body@, i as int));
                let split = if raw == i32::MAX {
                    None
                } else {
                    Some(raw)
                };
                splits.push(split);
                assert(splits@ =~= Seq::new((i + 1) as nat, |k: int| split_at(body@, k)));
                rest = next;
            },
        }
        i += 1;
    }
    while splits.len() < 3
        invariant
            number <= splits.len() <= 3 || splits.len() == number,
            splits@ == Seq::new(
                splits.len() as nat,
                |k: int|
                    if k < number {
                        split_at(body@, k)
                    } else {
                        None
                    },
            ),
        decreases 3 - splits.len(),
    {
        splits.push(None);
        assert(splits@ =~= Seq::new(
            splits.len() as nat,
            |k: int|
                if k < number {
                    split_at(body@, k)
                } else {
                    None
                },
        ));
    }
    assert(splits@ =~= spec_read_lap_split(input@)->Ok_0.1);
    Ok((rest, splits))
}

/// Reads a lap.
pub fn read_lap<'a>(input: &'a [u8]) -> (r: Result<(&'a [u8], LapInfo), ParseError>)
    ensures
        parsed(r, spec_read_lap(input@)),
        r matches Ok((_, lap)) ==> lap.splits@.len() >= 3,
{
    let (r1, laptime) = le_i32(input)?;
    let (r2, car_index) = le_u16(r1)?;
    let (r3, driver_index) = le_u16(r2)?;
    assert(r3@ =~= input@.skip(8));
    let (r4, splits) = read_lap_split(r3)?;
    let (r5, invalid) = byte(r4)?;
    let (r6, valid_for_best) = byte(r5)?;
    let (r7, out_lap) = byte(r6)?;
    let (r8, in_lap) = byte(r7)?;
    assert(r8@ =~= r4@.skip(4));
    let lap = LapInfo {
        lap_type: LapType::new(out_lap > 0, in_lap > 0),
        laptime: if laptime == i32::MAX {
            None
        } else {
            Some(laptime)
        },
        car_index,
        driver_index,
        splits,
        invalid: invalid > 0,
        valid_for_best: valid_for_best > 0,
    };
    Ok((r8, lap))
}

/// Appends the bytes of the splits.
pub fn put_lap_split(out: &mut Vec<u8>, splits: &Vec<Option<i32>>)
    ensures
        final(out)@ == old(out)@ + bytes_splits(splits@),
{
    out.push((splits.len() % 256) as u8);
    let mut i: usize = 0;
    while i < splits.len()
        invariant
            i <= splits.len(),
            out@ == old(out)@ + seq![(splits.len() % 256) as u8] + Seq::new(
                4 * (i as nat),
                |j: int| bytes_i32(sentinel(splits@[j / 4]))[j % 4],
            ),
        decreases splits.len() - i,
    {
        let ghost before = out@;
        let raw: i32 = match splits[i] {
            None => i32::MAX,
            Some(millis) => millis,
        };
        put_le_i32(out, raw);
        assert(out@ =~= old(out)@ + seq![(splits.len() % 256) as u8] + Seq::new(
            4 * ((i + 1) as nat),
            |j: int| bytes_i32(sentinel(splits@[j / 4]))[j % 4],
        ));
        i += 1;
    }
    assert(out@ =~= old(out)@ + bytes_splits(splits@));
}

/// The byte that stands for a flag.
pub fn flag_byte(value: bool) -> (r: u8)
    ensures
        r == flag(value),
{
    if value {
        1
    } else {
        0
    }
}

/// Appends the bytes of a lap.
#[verifier::rlimit(30)]
pub fn put_lap(out: &mut Vec<u8>, lap: &LapInfo)
    ensures
        final(out)@ == old(out)@ + bytes_lap(lap@),
{
    let raw: i32 = match lap.laptime {
        None => i32::MAX,
        Some(millis) => millis,
    };
    put_le_i32(out, raw);
    put_le_u16(out, lap.car_index);
    put_le_u16(out, lap.driver_index);
    put_lap_split(out, &lap.splits);
    out.push(flag_byte(lap.invalid));
    out.push(flag_byte(lap.valid_for_best));
    out.push(flag_byte(lap.lap_type == LapType::Outlap));
    out.push(flag_byte(lap.lap_type == LapType::Inlap));
    assert(out@ =~= old(out)@ + bytes_lap(lap@));
}

/// The bytes of a lap on the wire.
pub fn write_lap(lap: &LapInfo) -> (r: Vec<u8>)
    ensures
        r@ == bytes_lap(lap@),
{
    let mut out: Vec<u8> = Vec::new();
    put_lap(&mut out, lap);
    assert(out@ =~= bytes_lap(lap@));
    out
}

/// Splits that the wire format can carry, written and read again, are the
/// same splits, missing times included.
#[verifier::rlimit(30)]
pub proof fn lemma_splits_round_trip(splits: Seq<Option<i32>>, tail: Seq<u8>)
    requires
        3 <= splits.len() <= 255,
        forall|i: int| 0 <= i < splits.len() ==> splits[i] != Some(i32::MAX),
    ensures
        spec_read_lap_split(bytes_splits(splits) + tail) == Ok::<
            (Seq<u8>, Seq<Option<i32>>),
            ParseError,
        >((tail, splits)),
{
    let input = bytes_splits(splits) + tail;
    let body = input.skip(1);
    let count = splits.len() as int;
    assert(input[0] == count);
    assert(body.skip(4 * count) =~= tail);
    let read = spec_read_lap_split(input)->Ok_0.1;
    assert forall|i: int| 0 <= i < count implies read[i] == splits[i] by {
        let raw = sentinel(splits[i]);
        assert(body[4 * i] == bytes_i32(raw)[0]);
        assert(body[4 * i + 1] == bytes_i32(raw)[1]);
        assert(body[4 * i + 2] == bytes_i32(raw)[2]);
        assert(body[4 * i + 3] == bytes_i32(raw)[3]);
        lemma_i32_round_trip(raw, Seq::empty());
    }
    assert(read =~= splits);
}

/// Where the parts of a lap lie in a buffer: the eight bytes of times and
/// indices in front, the splits behind them, the four flags behind those.
proof fn lemma_lap_layout(head: Seq<u8>, splits: Seq<u8>, flags: Seq<u8>, tail: Seq<u8>)
    requires
        head.len() == 8,
    ensures
        (head + splits + flags + tail).len() >= 8,
        (head + splits + flags + tail).skip(8) == splits + (flags + tail),
        forall|i: int| 0 <= i < 8 ==> (head + splits + flags + tail)[i] == head[i],
{
    assert((head + splits + flags + tail).skip(8) =~= splits + (flags + tail));
}

/// The eight bytes in front of a lap give back its time and its indices.
proof fn lemma_lap_head(laptime: Option<i32>, car_index: u16, driver_index: u16)
    requires
        laptime != Some(i32::MAX),
    ensures
        ({
            let head = bytes_i32(sentinel(laptime)) + bytes_u16(car_index) + bytes_u16(
                driver_index,
            );
            &&& head.len() == 8
            &&& optional(i32_of_bits(u32_of(head[0], head[1], head[2], head[3]))) == laptime
            &&& u16_of(head[4], head[5]) == car_index
            &&& u16_of(head[6], head[7]) == driver_index
        }),
{
    lemma_i32_round_trip(sentinel(laptime), Seq::empty());
    lemma_u16_round_trip(car_index, Seq::empty());
    lemma_u16_round_trip(driver_index, Seq::empty());
}

/// A lap that the wire format can carry, written and read again, is the same
/// lap.
#[verifier::rlimit(30)]
pub proof fn lemma_lap_round_trip(lap: LapInfoView, tail: Seq<u8>)
    requires
        lap.fits(),
    ensures
        spec_read_lap(bytes_lap(lap) + tail) == Ok::<(Seq<u8>, LapInfoView), ParseError>(
            (tail, lap),
        ),
{
    let flags = seq![
        flag(lap.invalid),
        flag(lap.valid_for_best),
        flag(lap.lap_type == LapType::Outlap),
        flag(lap.lap_type == LapType::Inlap),
    ];
    let head = bytes_i32(sentinel(lap.laptime)) + bytes_u16(lap.car_index) + bytes_u16(
        lap.driver_index,
    );
    let splits = bytes_splits(lap.splits);
    let input = bytes_lap(lap) + tail;
    lemma_lap_head(lap.laptime, lap.car_index, lap.driver_index);
    lemma_lap_layout(head, splits, flags, tail);
    lemma_splits_round_trip(lap.splits, flags + tail);
    assert((flags + tail).skip(4) =~= tail);
    let read = spec_read_lap(input)->Ok_0.1;
    assert(read.splits == lap.splits);
    assert(read.laptime == lap.laptime);
    assert(read.car_index == lap.car_index);
    assert(read.driver_index == lap.driver_index);
}

} // verus!

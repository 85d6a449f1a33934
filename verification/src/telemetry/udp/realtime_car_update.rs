//! The per-car snapshot that the simulator pushes for every car on track.
//!
//! Payload: car index and driver index (`i16` each), driver count and gear
//! (one byte each), world position x and y and yaw (single precision), car
//! location (one byte), speed, position, cup position and track position
//! (`u16` each), spline position (single precision), completed laps (`u16`),
//! delta to the best session lap (`i32`), and three laps: the best of the
//! session, the last and the current one.

use vstd::prelude::*;
use vstd::slice::slice_subrange;
use crate::telemetry::udp::data::CarLocation;
use crate::telemetry::udp::float::{
    bytes_float, float_at, lemma_float_at, put_le_float, read_float_at, Float32,
};
use crate::telemetry::udp::lapinfo::{
    bytes_lap, lemma_lap_round_trip, put_lap, read_lap, spec_read_lap, LapInfo, LapInfoView,
    LapType,
};
use crate::telemetry::udp::wire::{
    bytes_i16, bytes_i32, bytes_u16, i16_at, i16_of_bits, i32_at, i32_of_bits,
    lemma_append_assoc, lemma_i16_round_trip, lemma_i32_round_trip, lemma_skip_prefix,
    lemma_u16_round_trip, parsed, put_le_i16, put_le_i32, put_le_u16, u16_at, u16_of, u32_of,
    ParseError, Parsed,
};

verus! {

/// The snapshot of one car.
#[derive(Clone, Debug, PartialEq)]
pub struct RealtimeCarUpdate {
    /// Index of the car.
    pub car_index: i16,
    /// Index of the driver at the wheel.
    pub driver_index: i16,
    /// Number of drivers of the car.
    pub driver_count: u8,
    /// Gear: reverse is 1, neutral 2, first gear 3, and so on.
    pub gear: u8,
    pub world_pos_x: Float32,
    pub world_pos_y: Float32,
    pub yaw: Float32,
    /// Whether the car is on track or in the pit lane.
    pub car_location: CarLocation,
    /// Speed in km/h.
    pub kmh: u16,
    /// Official position overall, counted from 1.
    pub position: u16,
    /// Official position within the class, counted from 1.
    pub cup_position: u16,
    /// Position on track, counted from 1.
    pub track_position: u16,
    /// Position along the track, from 0.0 to 1.0.
    pub spline_position: Float32,
    /// Completed laps.
    pub laps: u16,
    /// Delta to the best lap of the session, in milliseconds.
    pub delta: i32,
    pub best_session_lap: LapInfo,
    pub last_lap: LapInfo,
    pub current_lap: LapInfo,
}

/// The snapshot of one car as a mathematical value.
pub struct RealtimeCarUpdateView {
    pub car_index: i16,
    pub driver_index: i16,
    pub driver_count: u8,
    pub gear: u8,
    pub world_pos_x: Float32,
    pub world_pos_y: Float32,
    pub yaw: Float32,
    pub car_location: CarLocation,
    pub kmh: u16,
    pub position: u16,
    pub cup_position: u16,
    pub track_position: u16,
    pub spline_position: Float32,
    pub laps: u16,
    pub delta: i32,
    pub best_session_lap: LapInfoView,
    pub last_lap: LapInfoView,
    pub current_lap: LapInfoView,
}

impl View for RealtimeCarUpdate {
    type V = RealtimeCarUpdateView;

    open spec fn view(&self) -> RealtimeCarUpdateView {
        RealtimeCarUpdateView {
            car_index: self.car_index,
            driver_index: self.driver_index,
            driver_count: self.driver_count,
            gear: self.gear,
            world_pos_x: self.world_pos_x,
            world_pos_y: self.world_pos_y,
            yaw: self.yaw,
            car_location: self.car_location,
            kmh: self.kmh,
            position: self.position,
            cup_position: self.cup_position,
            track_position: self.track_position,
            spline_position: self.spline_position,
            laps: self.laps,
            delta: self.delta,
            best_session_lap: self.best_session_lap@,
            last_lap: self.last_lap@,
            current_lap: self.current_lap@,
        }
    }
}

/// A lap of which nothing is known.
pub open spec fn no_lap() -> LapInfoView {
    LapInfoView {
        lap_type: LapType::Error,
        laptime: None,
        car_index: 0,
        driver_index: 0,
        splits: Seq::empty(),
        invalid: false,
        valid_for_best: false,
    }
}

impl RealtimeCarUpdateView {
    /// Whether the wire format can carry the snapshot: each of its laps fits.
    pub open spec fn fits(self) -> bool {
        &&& self.best_session_lap.fits()
        &&& self.last_lap.fits()
        &&& self.current_lap.fits()
    }

    /// The snapshot before anything was received.
    pub open spec fn initial() -> RealtimeCarUpdateView {
        RealtimeCarUpdateView {
            car_index: 0,
            driver_index: 0,
            driver_count: 0,
            gear: 0,
            world_pos_x: Float32 { bits: 0 },
            world_pos_y: Float32 { bits: 0 },
            yaw: Float32 { bits: 0 },
            car_location: CarLocation::Unset,
            kmh: 0,
            position: 0,
            cup_position: 0,
            track_position: 0,
            spline_position: Float32 { bits: 0 },
            laps: 0,
            delta: 0,
            best_session_lap: no_lap(),
            last_lap: no_lap(),
            current_lap: no_lap(),
        }
    }
}

impl Default for RealtimeCarUpdate {
    /// The snapshot before anything was received.
    fn default() -> (r: RealtimeCarUpdate)
        ensures
            r@ == RealtimeCarUpdateView::initial(),
    {
        RealtimeCarUpdate {
            car_index: 0,
            driver_index: 0,
            driver_count: 0,
            gear: 0,
            world_pos_x: Float32 { bits: 0 },
            world_pos_y: Float32 { bits: 0 },
            yaw: Float32 { bits: 0 },
            car_location: CarLocation::Unset,
            kmh: 0,
            position: 0,
            cup_position: 0,
            track_position: 0,
            spline_position: Float32 { bits: 0 },
            laps: 0,
            delta: 0,
            best_session_lap: LapInfo::default(),
            last_lap: LapInfo::default(),
            current_lap: LapInfo::default(),
        }
    }
}

/// What stands before the laps of a car's snapshot.
pub struct CarHead {
    pub car_index: i16,
    pub driver_index: i16,
    pub driver_count: u8,
    pub gear: u8,
    pub world_pos_x: Float32,
    pub world_pos_y: Float32,
    pub yaw: Float32,
    pub car_location: CarLocation,
    pub kmh: u16,
    pub position: u16,
    pub cup_position: u16,
    pub track_position: u16,
    pub spline_position: Float32,
    pub laps: u16,
    pub delta: i32,
}

impl RealtimeCarUpdate {
    /// What the first thirty-seven bytes of a payload hold.
    pub open spec fn head_of(input: Seq<u8>) -> CarHead {
        CarHead {
            car_index: i16_of_bits(u16_of(input[0], input[1])),
            driver_index: i16_of_bits(u16_of(input[2], input[3])),
            driver_count: input[4],
            gear: input[5],
            world_pos_x: float_at(input, 6),
            world_pos_y: float_at(input, 10),
            yaw: float_at(input, 14),
            car_location: CarLocation::of_code(input[18]),
            kmh: u16_of(input[19], input[20]),
            position: u16_of(input[21], input[22]),
            cup_position: u16_of(input[23], input[24]),
            track_position: u16_of(input[25], input[26]),
            spline_position: float_at(input, 27),
            laps: u16_of(input[31], input[32]),
            delta: i32_of_bits(u32_of(input[33], input[34], input[35], input[36])),
        }
    }

    /// What stands before the laps of `v`.
    pub open spec fn head(v: RealtimeCarUpdateView) -> CarHead {
        CarHead {
            car_index: v.car_index,
            driver_index: v.driver_index,
            driver_count: v.driver_count,
            gear: v.gear,
            world_pos_x: v.world_pos_x,
            world_pos_y: v.world_pos_y,
            yaw: v.yaw,
            car_location: v.car_location,
            kmh: v.kmh,
            position: v.position,
            cup_position: v.cup_position,
            track_position: v.track_position,
            spline_position: v.spline_position,
            laps: v.laps,
            delta: v.delta,
        }
    }

    /// The snapshot made of a head and three laps.
    pub open spec fn assemble(
        head: CarHead,
        best_session_lap: LapInfoView,
        last_lap: LapInfoView,
        current_lap: LapInfoView,
    ) -> RealtimeCarUpdateView {
        RealtimeCarUpdateView {
            car_index: head.car_index,
            driver_index: head.driver_index,
            driver_count: head.driver_count,
            gear: head.gear,
            world_pos_x: head.world_pos_x,
            world_pos_y: head.world_pos_y,
            yaw: head.yaw,
            car_location: head.car_location,
            kmh: head.kmh,
            position: head.position,
            cup_position: head.cup_position,
            track_position: head.track_position,
            spline_position: head.spline_position,
            laps: head.laps,
            delta: head.delta,
            best_session_lap,
            last_lap,
            current_lap,
        }
    }

    /// The first thirty-seven bytes of the payload: what stands before the
    /// laps.
    pub open spec fn bytes_head(h: CarHead) -> Seq<u8> {
        bytes_i16(h.car_index) + bytes_i16(h.driver_index) + seq![h.driver_count, h.gear]
            + bytes_float(h.world_pos_x) + bytes_float(h.world_pos_y) + bytes_float(h.yaw) + seq![
            h.car_location.code(),
        ] + bytes_u16(h.kmh) + bytes_u16(h.position) + bytes_u16(h.cup_position) + bytes_u16(
            h.track_position,
        ) + bytes_float(h.spline_position) + bytes_u16(h.laps) + bytes_i32(h.delta)
    }

    /// The payload of the snapshot.
    pub open spec fn spec_serialize(v: RealtimeCarUpdateView) -> Seq<u8> {
        Self::bytes_head(Self::head(v)) + bytes_lap(v.best_session_lap) + bytes_lap(v.last_lap)
            + bytes_lap(v.current_lap)
    }

    /// The snapshot that a payload holds. A buffer that ends inside it is
    /// incomplete.
    ///
    /// The definition is opaque, to keep it out of proofs that do not need
    /// it: `reveal` it to unfold it.
    #[verifier::opaque]
    pub open spec fn spec_deserialize(input: Seq<u8>) -> Parsed<RealtimeCarUpdateView> {
        if input.len() < 37 {
            Err(ParseError::Incomplete)
        } else {
            match spec_read_lap(input.skip(37)) {
                Err(e) => Err(e),
                Ok((r1, best_session_lap)) => match spec_read_lap(r1) {
                    Err(e) => Err(e),
                    Ok((r2, last_lap)) => match spec_read_lap(r2) {
                        Err(e) => Err(e),
                        Ok((r3, current_lap)) => Ok(
                            (
                                r3,
                                Self::assemble(
                                    Self::head_of(input),
                                    best_session_lap,
                                    last_lap,
                                    current_lap,
                                ),
                            ),
                        ),
                    },
                },
            }
        }
    }

    /// Appends the first thirty-seven bytes of the payload.
    fn put_head(&self, out: &mut Vec<u8>)
        ensures
            final(out)@ == old(out)@ + Self::bytes_head(Self::head(self@)),
    {
        put_le_i16(out, self.car_index);
        put_le_i16(out, self.driver_index);
        out.push(self.driver_count);
        out.push(self.gear);
        put_le_float(out, self.world_pos_x);
        put_le_float(out, self.world_pos_y);
        put_le_float(out, self.yaw);
        out.push(self.car_location.to_primitive());
        put_le_u16(out, self.kmh);
        put_le_u16(out, self.position);
        put_le_u16(out, self.cup_position);
        put_le_u16(out, self.track_position);
        put_le_float(out, self.spline_position);
        put_le_u16(out, self.laps);
        put_le_i32(out, self.delta);
        assert(out@ =~= old(out)@ + Self::bytes_head(Self::head(self@)));
    }

    /// Appends the payload of the snapshot.
    pub fn write(&self, out: &mut Vec<u8>)
        ensures
            final(out)@ == old(out)@ + Self::spec_serialize(self@),
    {
        let ghost start = out@;
        let ghost acc0 = Self::bytes_head(Self::head(self@));
        let ghost acc1 = acc0 + bytes_lap(self.best_session_lap@);
        let ghost acc2 = acc1 + bytes_lap(self.last_lap@);
        self.put_head(out);
        put_lap(out, &self.best_session_lap);
        put_lap(out, &self.last_lap);
        put_lap(out, &self.current_lap);
        proof {
            lemma_append_assoc(start, acc0, bytes_lap(self.best_session_lap@));
            lemma_append_assoc(start, acc1, bytes_lap(self.last_lap@));
            lemma_append_assoc(start, acc2, bytes_lap(self.current_lap@));
        }
    }

    /// The payload of the snapshot.
    pub fn serialize(&self) -> (r: Vec<u8>)
        ensures
            r@ == Self::spec_serialize(self@),
    {
        let mut out: Vec<u8> = Vec::new();
        self.write(&mut out);
        assert(out@ =~= Self::spec_serialize(self@));
        out
    }

    /// Reads a snapshot off its payload and returns the bytes behind it.
    pub fn deserialize<'a>(input: &'a [u8]) -> (r: Result<
        (&'a [u8], RealtimeCarUpdate),
        ParseError,
    >)
        ensures
            parsed(r, Self::spec_deserialize(input@)),
    {
        reveal(RealtimeCarUpdate::spec_deserialize);
        if input.len() < 37 {
            return Err(ParseError::Incomplete);
        }
        let car_index = i16_at(input, 0);
        let driver_index = i16_at(input, 2);
        let driver_count = input[4];
        let gear = input[5];
        let world_pos_x = read_float_at(input, 6);
        let world_pos_y = read_float_at(input, 10);
        let yaw = read_float_at(input, 14);
        let car_location = CarLocation::from_primitive(input[18]);
        let kmh = u16_at(input, 19);
        let position = u16_at(input, 21);
        let cup_position = u16_at(input, 23);
        let track_position = u16_at(input, 25);
        let spline_position = read_float_at(input, 27);
        let laps = u16_at(input, 31);
        let delta = i32_at(input, 33);
        let r0 = slice_subrange(input, 37, input.len());
        let (r1, best_session_lap) = read_lap(r0)?;
        let (r2, last_lap) = read_lap(r1)?;
        let (r3, current_lap) = read_lap(r2)?;
        Ok(
            (
                r3,
                RealtimeCarUpdate {
                    car_index,
                    driver_index,
                    driver_count,
                    gear,
                    world_pos_x,
                    world_pos_y,
                    yaw,
                    car_location,
                    kmh,
                    position,
                    cup_position,
                    track_position,
                    spline_position,
                    laps,
                    delta,
                    best_session_lap,
                    last_lap,
                    current_lap,
                },
            ),
        )
    }

    /// The first thirty-seven bytes give back what stands before the laps.
    #[verifier::rlimit(40)]
    proof fn lemma_head(h: CarHead)
        ensures
            Self::bytes_head(h).len() == 37,
            Self::head_of(Self::bytes_head(h)) == h,
    {
        lemma_i16_round_trip(h.car_index, Seq::empty());
        lemma_i16_round_trip(h.driver_index, Seq::empty());
        lemma_float_at(h.world_pos_x);
        lemma_float_at(h.world_pos_y);
        lemma_float_at(h.yaw);
        h.car_location.lemma_code_round_trip();
        lemma_u16_round_trip(h.kmh, Seq::empty());
        lemma_u16_round_trip(h.position, Seq::empty());
        lemma_u16_round_trip(h.cup_position, Seq::empty());
        lemma_u16_round_trip(h.track_position, Seq::empty());
        lemma_float_at(h.spline_position);
        lemma_u16_round_trip(h.laps, Seq::empty());
        lemma_i32_round_trip(h.delta, Seq::empty());
    }

    /// A snapshot that the wire format can carry, written and read again, is
    /// the same snapshot.
    #[verifier::rlimit(40)]
    pub proof fn lemma_round_trip(v: RealtimeCarUpdateView, tail: Seq<u8>)
        requires
            v.fits(),
        ensures
            Self::spec_deserialize(Self::spec_serialize(v) + tail) == Ok::<
                (Seq<u8>, RealtimeCarUpdateView),
                ParseError,
            >((tail, v)),
    {
        reveal(RealtimeCarUpdate::spec_deserialize);
        let head = Self::bytes_head(Self::head(v));
        let l1 = bytes_lap(v.best_session_lap);
        let l2 = bytes_lap(v.last_lap);
        let l3 = bytes_lap(v.current_lap);
        let input = Self::spec_serialize(v) + tail;
        assert(input == head + (l1 + (l2 + (l3 + tail)))) by {
            lemma_append_assoc(head + l1 + l2, l3, tail);
            lemma_append_assoc(head + l1, l2, l3 + tail);
            lemma_append_assoc(head, l1, l2 + (l3 + tail));
        }
        Self::lemma_head(Self::head(v));
        lemma_skip_prefix(head, l1 + (l2 + (l3 + tail)));
        assert(Self::head_of(input) == Self::head(v)) by {
            assert(float_at(input, 6) == float_at(head, 6));
            assert(float_at(input, 10) == float_at(head, 10));
            assert(float_at(input, 14) == float_at(head, 14));
            assert(float_at(input, 27) == float_at(head, 27));
        }
        lemma_lap_round_trip(v.best_session_lap, l2 + (l3 + tail));
        lemma_lap_round_trip(v.last_lap, l3 + tail);
        lemma_lap_round_trip(v.current_lap, tail);
    }
}

} // verus!

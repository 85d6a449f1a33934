//! The fuel estimate: how much fuel a race or a qualifying session takes.
//!
//! * Laps in a session: the length of the session divided by the average
//!   lap time, rounded down.
//! * Fuel for a session: laps in the session plus reserve laps, times the
//!   fuel per lap, times 1.1, rounded up to a whole litre.
//! * Reserve fuel: reserve laps times the fuel per lap, rounded up.
//!
//! The fuel per lap is a single-precision number of litres, and the products
//! are products in single precision. No session is estimated from a length,
//! a lap time or a fuel per lap that is zero, and no reserve from a fuel per
//! lap that is zero.

use vstd::prelude::*;
use vstd::arithmetic::power2::{lemma2_to64, lemma2_to64_rest};
use crate::telemetry::udp::float_product::{
    lemma_of_small_integer, lemma_product_of_normal, lemma_product_with_zero,
};
use crate::telemetry::udp::float_sum::lemma_bit_length_is;
use crate::telemetry::udp::float::Float32;
use crate::telemetry::LapTime;

verus! {

/// The bit pattern of 1.1 in single precision: the fuel for a session with a
/// tenth on top.
pub const ELEVEN_TENTHS: u32 = 0x3f8c_cccd;

/// Whether a fuel per lap is anything but zero.
pub open spec fn known(fuel_per_lap: Float32) -> bool {
    !fuel_per_lap.same_number(Float32 { bits: 0 })
}

/// Whether a session of `length` milliseconds can be estimated from an
/// average lap of `lap` milliseconds and `fuel_per_lap` litres a lap.
pub open spec fn computable(length: u64, lap: u64, fuel_per_lap: Float32) -> bool {
    length != 0 && lap != 0 && known(fuel_per_lap)
}

/// The whole litres that `laps` laps and `reserve_laps` more take at
/// `fuel_per_lap` litres a lap, with a tenth on top.
pub open spec fn required_fuel(laps: int, reserve_laps: i32, fuel_per_lap: Float32) -> i32 {
    Float32::of_integer(laps + reserve_laps).product(fuel_per_lap).product(
        Float32 { bits: ELEVEN_TENTHS },
    ).ceil_i32()
}

/// The whole litres that `reserve_laps` laps take at `fuel_per_lap` litres a
/// lap.
pub open spec fn reserve_fuel(reserve_laps: i32, fuel_per_lap: Float32) -> i32 {
    Float32::of_integer(reserve_laps as int).product(fuel_per_lap).ceil_i32()
}

/// The fuel for a session of `length` milliseconds, where it can be
/// estimated.
pub open spec fn session_fuel(
    length: u64,
    lap: u64,
    reserve_laps: i32,
    fuel_per_lap: Float32,
) -> Option<i32> {
    if computable(length, lap, fuel_per_lap) {
        Some(required_fuel(length as int / lap as int, reserve_laps, fuel_per_lap))
    } else {
        None
    }
}

/// What the estimate rests on and what came out of it.
#[derive(Clone, Copy, Debug, PartialEq, Eq, Structural)]
pub struct FuelData {
    /// Length of the race in milliseconds.
    pub race_length: u64,
    /// Length of the qualifying session in milliseconds.
    pub quali_length: u64,
    pub avg_lap_time: LapTime,
    /// Fuel per lap in litres.
    pub fuel_per_lap: Float32,
    /// Fuel for the race in litres.
    pub race_fuel: i32,
    /// Fuel for the qualifying session in litres.
    pub quali_fuel: i32,
    /// Fuel for the reserve laps in litres.
    pub reserve_fuel: i32,
    pub reserve_laps: i32,
}

/// What changes the estimate.
#[derive(Clone, Copy, Debug, PartialEq, Eq, Structural)]
pub enum FuelMessage {
    /// The length of the race in milliseconds.
    RaceLength(u64),
    /// The length of the qualifying session in milliseconds.
    QualiLength(u64),
    AvgLapTime(LapTime),
    /// Fuel per lap in litres.
    FuelPerLap(Float32),
    ReserveLaps(i32),
}

/// Which of the two estimates is asked for.
#[derive(Clone, Copy, Debug, PartialEq, Eq, Structural)]
pub enum FuelRequest {
    RaceFuel,
    QualiFuel,
}

/// The estimates that a message brought about: each is there where it was
/// made anew and could be made.
#[derive(Clone, Copy, Debug, PartialEq, Eq, Structural)]
pub struct FuelChange {
    pub race_fuel: Option<i32>,
    pub quali_fuel: Option<i32>,
}

impl FuelData {
    /// Nothing known and nothing estimated.
    pub open spec fn initial() -> FuelData {
        FuelData {
            race_length: 0,
            quali_length: 0,
            avg_lap_time: LapTime { millis: 0 },
            fuel_per_lap: Float32 { bits: 0 },
            race_fuel: 0,
            quali_fuel: 0,
            reserve_fuel: 0,
            reserve_laps: 0,
        }
    }

    /// The fuel for the race, where it can be estimated.
    pub open spec fn spec_race(self) -> Option<i32> {
        session_fuel(
            self.race_length,
            self.avg_lap_time.millis,
            self.reserve_laps,
            self.fuel_per_lap,
        )
    }

    /// The fuel for the qualifying session, where it can be estimated.
    pub open spec fn spec_quali(self) -> Option<i32> {
        session_fuel(
            self.quali_length,
            self.avg_lap_time.millis,
            self.reserve_laps,
            self.fuel_per_lap,
        )
    }

    /// The fuel for the reserve laps, where the fuel per lap is known; for no
    /// reserve laps it is no fuel.
    pub open spec fn spec_reserve(self) -> Option<i32> {
        if known(self.fuel_per_lap) {
            Some(reserve_fuel(self.reserve_laps, self.fuel_per_lap))
        } else {
            None
        }
    }

    /// The data with the race estimated anew, where it can be.
    pub open spec fn with_race(self) -> FuelData {
        match self.spec_race() {
            Some(fuel) => FuelData { race_fuel: fuel, ..self },
            None => self,
        }
    }

    /// The data with the qualifying session estimated anew, where it can be.
    pub open spec fn with_quali(self) -> FuelData {
        match self.spec_quali() {
            Some(fuel) => FuelData { quali_fuel: fuel, ..self },
            None => self,
        }
    }

    /// The data with the reserve estimated anew, where it can be.
    pub open spec fn with_reserve(self) -> FuelData {
        match self.spec_reserve() {
            Some(fuel) => FuelData { reserve_fuel: fuel, ..self },
            None => self,
        }
    }

    /// The data after a message: the input that the message names is
    /// replaced, and every estimate that rests on it is made anew. The
    /// length of one kind of session leaves the estimate of the other alone.
    pub open spec fn spec_handle(self, msg: FuelMessage) -> FuelData {
        match msg {
            FuelMessage::RaceLength(length) => (FuelData { race_length: length, ..self }).with_race(),
            FuelMessage::QualiLength(length) => (FuelData {
                quali_length: length,
                ..self
            }).with_quali(),
            FuelMessage::AvgLapTime(time) => (FuelData {
                avg_lap_time: time,
                ..self
            }).with_race().with_quali(),
            FuelMessage::FuelPerLap(fuel) => (FuelData {
                fuel_per_lap: fuel,
                ..self
            }).with_reserve().with_race().with_quali(),
            FuelMessage::ReserveLaps(laps) => (FuelData {
                reserve_laps: laps,
                ..self
            }).with_reserve().with_race().with_quali(),
        }
    }

    /// The estimates that a message brings about.
    pub open spec fn spec_change(self, msg: FuelMessage) -> FuelChange {
        let after = self.spec_handle(msg);
        match msg {
            FuelMessage::RaceLength(_) => FuelChange {
                race_fuel: after.spec_race(),
                quali_fuel: None,
            },
            FuelMessage::QualiLength(_) => FuelChange {
                race_fuel: None,
                quali_fuel: after.spec_quali(),
            },
            _ => FuelChange { race_fuel: after.spec_race(), quali_fuel: after.spec_quali() },
        }
    }

    /// Nothing known and nothing estimated.
    pub fn new() -> (r: FuelData)
        ensures
            r == Self::initial(),
    {
        FuelData {
            race_length: 0,
            quali_length: 0,
            avg_lap_time: LapTime { millis: 0 },
            fuel_per_lap: Float32 { bits: 0 },
            race_fuel: 0,
            quali_fuel: 0,
            reserve_fuel: 0,
            reserve_laps: 0,
        }
    }

    /// Puts `new` in the place of the data.
    pub fn replace(&mut self, new: FuelData)
        ensures
            *final(self) == new,
    {
        *self = new;
    }

    /// Forgets the lengths of the sessions and the fuel estimated for them;
    /// the average lap, the fuel per lap and the reserve stay.
    pub fn reset(&mut self)
        ensures
            *final(self) == (FuelData {
                race_length: 0,
                quali_length: 0,
                race_fuel: 0,
                quali_fuel: 0,
                ..*old(self)
            }),
    {
        self.race_length = 0;
        self.quali_length = 0;
        self.race_fuel = 0;
        self.quali_fuel = 0;
    }

    /// Estimates the fuel for the reserve laps and keeps it.
    pub fn calculate_reserve(&mut self) -> (r: Option<i32>)
        ensures
            r == old(self).spec_reserve(),
            *final(self) == old(self).with_reserve(),
    {
        if !self.fuel_per_lap.eq_number(Float32 { bits: 0 }) {
            let fuel = Float32::from_integer(self.reserve_laps as i128).multiply(
                self.fuel_per_lap,
            ).ceil_to_i32();
            self.reserve_fuel = fuel;
            Some(fuel)
        } else {
            None
        }
    }

    /// Estimates the fuel for the race and keeps it.
    pub fn calculate_race(&mut self) -> (r: Option<i32>)
        ensures
            r == old(self).spec_race(),
            *final(self) == old(self).with_race(),
    {
        let fuel = estimate(
            self.race_length,
            self.avg_lap_time.millis,
            self.reserve_laps,
            self.fuel_per_lap,
        );
        if let Some(litres) = fuel {
            self.race_fuel = litres;
        }
        fuel
    }

    /// Estimates the fuel for the qualifying session and keeps it.
    pub fn calculate_quali(&mut self) -> (r: Option<i32>)
        ensures
            r == old(self).spec_quali(),
            *final(self) == old(self).with_quali(),
    {
        let fuel = estimate(
            self.quali_length,
            self.avg_lap_time.millis,
            self.reserve_laps,
            self.fuel_per_lap,
        );
        if let Some(litres) = fuel {
            self.quali_fuel = litres;
        }
        fuel
    }

    /// Takes a message in: replaces the input that it names and makes every
    /// estimate anew that rests on it. Returns the estimates made.
    pub fn handle(&mut self, msg: FuelMessage) -> (r: FuelChange)
        ensures
            *final(self) == old(self).spec_handle(msg),
            r == old(self).spec_change(msg),
    {
        match msg {
            FuelMessage::RaceLength(length) => {
                self.race_length = length;
                let race_fuel = self.calculate_race();
                FuelChange { race_fuel, quali_fuel: None }
            },
            FuelMessage::QualiLength(length) => {
                self.quali_length = length;
                let quali_fuel = self.calculate_quali();
                FuelChange { race_fuel: None, quali_fuel }
            },
            FuelMessage::AvgLapTime(time) => {
                self.avg_lap_time = time;
                let race_fuel = self.calculate_race();
                let quali_fuel = self.calculate_quali();
                FuelChange { race_fuel, quali_fuel }
            },
            FuelMessage::FuelPerLap(fuel) => {
                self.fuel_per_lap = fuel;
                let _ = self.calculate_reserve();
                let race_fuel = self.calculate_race();
                let quali_fuel = self.calculate_quali();
                FuelChange { race_fuel, quali_fuel }
            },
            FuelMessage::ReserveLaps(laps) => {
                self.reserve_laps = laps;
                let _ = self.calculate_reserve();
                let race_fuel = self.calculate_race();
                let quali_fuel = self.calculate_quali();
                FuelChange { race_fuel, quali_fuel }
            },
        }
    }

    /// Answers a request: estimates the fuel that is asked for and keeps it.
    pub fn request(&mut self, request: FuelRequest) -> (r: Option<i32>)
        ensures
            request == FuelRequest::RaceFuel ==> r == old(self).spec_race() && *final(self) == old(
                self,
            ).with_race(),
            request == FuelRequest::QualiFuel ==> r == old(self).spec_quali() && *final(self)
                == old(self).with_quali(),
    {
        match request {
            FuelRequest::RaceFuel => self.calculate_race(),
            FuelRequest::QualiFuel => self.calculate_quali(),
        }
    }
}

impl Default for FuelData {
    fn default() -> (r: FuelData)
        ensures
            r == FuelData::initial(),
    {
        FuelData::new()
    }
}

/// The fuel for a session of `length` milliseconds, where it can be
/// estimated.
pub fn estimate(length: u64, lap: u64, reserve_laps: i32, fuel_per_lap: Float32) -> (r: Option<
    i32,
>)
    ensures
        r == session_fuel(length, lap, reserve_laps, fuel_per_lap),
{
    if length != 0 && lap != 0 && !fuel_per_lap.eq_number(Float32 { bits: 0 }) {
        let laps: u64 = length / lap;
        let total: i128 = laps as i128 + reserve_laps as i128;
        let fuel = Float32::from_integer(total).multiply(fuel_per_lap).multiply(
            Float32 { bits: ELEVEN_TENTHS },
        );
        Some(fuel.ceil_to_i32())
    } else {
        None
    }
}

/// A worked estimate: a race of twenty-five minutes at laps of a minute and
/// thirty-five seconds is fifteen laps; with two reserve laps and 2.93 litres
/// a lap it takes fifty-five litres.
pub proof fn lemma_twenty_five_minutes()
    ensures
        session_fuel(1_500_000, 95_000, 2, Float32 { bits: 0x403b_851f }) == Some(55i32),
{
    let per_lap = Float32 { bits: 0x403b_851f };
    let tenth_more = Float32 { bits: ELEVEN_TENTHS };
    lemma2_to64();
    lemma2_to64_rest();
    assert(1_500_000int / 95_000 == 15);
    // seventeen laps as a number
    let laps = Float32::of_integer(17);
    lemma_bit_length_is(17, 5);
    lemma_of_small_integer(17);
    assert(laps.bits == 0x4188_0000);
    assert(laps.significand() == 0x88_0000 && laps.level() == 130);
    // times the fuel per lap: 49.81 litres
    assert(per_lap.significand() == 0xbb_851f && per_lap.level() == 127);
    assert(0x88_0000 * 0xbb_851f == 109533350854656int);
    lemma_bit_length_is(109533350854656, 47);
    lemma_product_of_normal(laps, per_lap);
    let fuel = laps.product(per_lap);
    assert(109533350854656int / 0x80_0000 == 13057392 && 109533350854656int % 0x80_0000
        == 7864320);
    assert(fuel.bits == 0x4247_3d71);
    assert(fuel.significand() == 0xc7_3d71 && fuel.level() == 131);
    // with a tenth on top: 54.79 litres
    assert(tenth_more.significand() == 0x8c_cccd && tenth_more.level() == 126);
    assert(0xc7_3d71 * 0x8c_cccd == 120486689128317int);
    lemma_bit_length_is(120486689128317, 47);
    lemma_product_of_normal(fuel, tenth_more);
    let total = fuel.product(tenth_more);
    assert(120486689128317int / 0x80_0000 == 14363132 && 120486689128317int % 0x80_0000
        == 5128061);
    assert(total.bits == 0x425b_29fd);
    // rounded up: 55 litres
    assert(total.significand() == 0xdb_29fd && total.exponent() == -18);
    assert((0xdb_29fd + 0x4_0000 - 1) / 0x4_0000 == 55int);
    assert(total.ceil_u64() == 55);
    assert(required_fuel(15, 2, per_lap) == 55);
}

/// No reserve laps take no reserve fuel, whatever the fuel per lap.
pub proof fn lemma_no_laps_no_reserve(fuel_per_lap: Float32)
    ensures
        reserve_fuel(0, fuel_per_lap) == 0,
{
    lemma_product_with_zero(fuel_per_lap);
}

/// Whenever the fuel per lap is known the reserve fuel is made anew from the
/// reserve laps and the fuel per lap, whatever it was before; nothing else
/// changes.
pub proof fn lemma_reserve_is_made_anew(data: FuelData)
    requires
        known(data.fuel_per_lap),
    ensures
        data.spec_reserve() == Some(reserve_fuel(data.reserve_laps, data.fuel_per_lap)),
        data.with_reserve() == (FuelData {
            reserve_fuel: reserve_fuel(data.reserve_laps, data.fuel_per_lap),
            ..data
        }),
        data.reserve_laps == 0 ==> data.with_reserve().reserve_fuel == 0,
{
    lemma_no_laps_no_reserve(data.fuel_per_lap);
}

/// The length of one kind of session leaves the estimate for the other kind
/// as it was.
pub proof fn lemma_lengths_are_apart(data: FuelData, length: u64)
    ensures
        data.spec_handle(FuelMessage::RaceLength(length)).quali_fuel == data.quali_fuel,
        data.spec_handle(FuelMessage::QualiLength(length)).race_fuel == data.race_fuel,
        data.spec_change(FuelMessage::RaceLength(length)).quali_fuel is None,
        data.spec_change(FuelMessage::QualiLength(length)).race_fuel is None,
{
}

/// An estimate that was made is the fuel that the data holds afterwards, and
/// it rests on the inputs that the data holds afterwards, not on earlier
/// ones.
pub proof fn lemma_estimates_are_current(data: FuelData, msg: FuelMessage)
    ensures
        ({
            let after = data.spec_handle(msg);
            let change = data.spec_change(msg);
            &&& change.race_fuel matches Some(fuel) ==> after.race_fuel == fuel && after.spec_race()
                == Some(fuel)
            &&& change.quali_fuel matches Some(fuel) ==> after.quali_fuel == fuel
                && after.spec_quali() == Some(fuel)
        }),
{
}

} // verus!

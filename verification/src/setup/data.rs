//! A car's setup as the simulator stores it. Pressures, cambers and the like
//! are counted in clicks of the setup screen; the few quantities that the
//! simulator stores as numbers with a fraction are single-precision numbers.

use vstd::prelude::*;
use crate::telemetry::udp::float::Float32;

verus! {

/// A car's setup.
#[derive(Clone, Debug, PartialEq, Eq)]
pub struct Setup {
    pub car_name: String,
    pub basic_setup: BasicSetup,
    pub advanced_setup: AdvancedSetup,
    pub track_bop_type: i32,
}

/// Tyres, alignment, electronics and strategy.
#[derive(Clone, Debug, PartialEq, Eq)]
pub struct BasicSetup {
    pub tyres: Tyres,
    pub alignment: Alignment,
    pub electronics: Electronics,
    pub strategy: Strategy,
}

/// A set of tyres: the compound and the pressure of each tyre, front left,
/// front right, rear left, rear right.
#[derive(Clone, Copy, Debug, PartialEq, Eq)]
pub struct Tyres {
    pub tyre_compound: i32,
    pub tyre_pressure: [i32; 4],
}

/// The alignment of the wheels.
#[derive(Clone, Copy, Debug, PartialEq, Eq)]
pub struct Alignment {
    pub camber: [i32; 4],
    pub static_camber: [Float32; 4],
    pub toe: [i32; 4],
    pub toe_out_linear: [Float32; 4],
    pub caster_lf: i32,
    pub caster_rf: i32,
    pub steer_ratio: i32,
}

/// The electronic aids.
#[derive(Clone, Copy, Debug, PartialEq, Eq)]
pub struct Electronics {
    pub tc1: i32,
    pub tc2: i32,
    pub abs: i32,
    pub ecu_map: i32,
    pub fuel_mix: i32,
    pub telemetry_laps: i32,
}

/// Fuel, tyre sets, brake pads and pit stops.
#[derive(Clone, Debug, PartialEq, Eq)]
pub struct Strategy {
    /// Fuel at the start in litres.
    pub fuel: i32,
    pub n_pit_stops: i32,
    pub tyre_set: i32,
    pub front_brake_pad_compound: i32,
    pub rear_brake_pad_compound: i32,
    pub pit_strategy: Vec<PitStrategy>,
    /// Fuel per lap in litres.
    pub fuel_per_lap: Float32,
}

/// What is done at a pit stop.
#[derive(Clone, Copy, Debug, PartialEq, Eq)]
pub struct PitStrategy {
    pub fuel_to_add: i32,
    pub tyres: Tyres,
    pub tyre_set: i32,
    pub front_brake_pad_compound: i32,
    pub rear_brake_pad_compound: i32,
}

/// Balance, dampers, aerodynamics and drivetrain.
#[derive(Clone, Copy, Debug, PartialEq, Eq)]
pub struct AdvancedSetup {
    pub mechanical_balance: MechanicalBalance,
    pub dampers: Dampers,
    pub aero_balance: AeroBalance,
    pub drivetrain: Drivetrain,
}

/// Anti-roll bars, springs, bump stops and brakes.
#[derive(Clone, Copy, Debug, PartialEq, Eq)]
pub struct MechanicalBalance {
    pub arb_front: i32,
    pub arb_rear: i32,
    pub wheel_rate: [i32; 4],
    pub bump_stop_rate_up: [i32; 4],
    pub bump_stop_rate_dn: [i32; 4],
    pub bump_stop_window: [i32; 4],
    pub brake_torque: i32,
    pub brake_bias: i32,
}

/// The dampers of the four wheels.
#[derive(Clone, Copy, Debug, PartialEq, Eq)]
pub struct Dampers {
    pub bump_slow: [i32; 4],
    pub bump_fast: [i32; 4],
    pub rebound_slow: [i32; 4],
    pub rebound_fast: [i32; 4],
}

/// Ride height, wings and ducts.
#[derive(Clone, Copy, Debug, PartialEq, Eq)]
pub struct AeroBalance {
    pub ride_height: [i32; 4],
    pub rod_length: [Float32; 4],
    pub splitter: i32,
    pub rear_wing: i32,
    pub brake_duct: [i32; 2],
}

/// The differential.
#[derive(Clone, Copy, Debug, PartialEq, Eq)]
pub struct Drivetrain {
    pub preload: i32,
}

/// A whole number for each corner of the car.
#[derive(Clone, Copy, Debug, PartialEq, Eq)]
pub struct Corners {
    pub front_left: i32,
    pub front_right: i32,
    pub rear_left: i32,
    pub rear_right: i32,
}

impl Tyres {
    /// The tyres with every pressure changed by `clicks`, each brought into
    /// the range of `i32`.
    pub open spec fn shifted(self, clicks: int) -> Tyres {
        Tyres {
            tyre_compound: self.tyre_compound,
            tyre_pressure: [
                clamp(self.tyre_pressure[0] + clicks),
                clamp(self.tyre_pressure[1] + clicks),
                clamp(self.tyre_pressure[2] + clicks),
                clamp(self.tyre_pressure[3] + clicks),
            ],
        }
    }

    /// Changes every pressure by `clicks`.
    pub fn shift(&mut self, clicks: i32)
        ensures
            *final(self) == old(self).shifted(clicks as int),
    {
        let pressure = self.tyre_pressure;
        self.tyre_pressure = [
            add_clamped(pressure[0], clicks),
            add_clamped(pressure[1], clicks),
            add_clamped(pressure[2], clicks),
            add_clamped(pressure[3], clicks),
        ];
    }
}

/// `v` brought into the range of `i32`.
pub open spec fn clamp(v: int) -> i32 {
    if v > i32::MAX {
        i32::MAX
    } else if v < i32::MIN {
        i32::MIN
    } else {
        v as i32
    }
}

/// The sum of two numbers, brought into the range of `i32`.
pub fn add_clamped(a: i32, b: i32) -> (r: i32)
    ensures
        r == clamp(a + b),
{
    let sum: i64 = a as i64 + b as i64;
    if sum > i32::MAX as i64 {
        i32::MAX
    } else if sum < i32::MIN as i64 {
        i32::MIN
    } else {
        sum as i32
    }
}

} // verus!

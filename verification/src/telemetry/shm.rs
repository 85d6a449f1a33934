//! What the session client reads of the simulator's shared memory: whether
//! the simulator is live, and the numbered samples of its graphics and
//! physics pages. Reading the pages is not this library's work; it takes the
//! samples as plain values.

use vstd::prelude::*;
use crate::telemetry::udp::float::Float32;

verus! {

/// The status of the simulator as the graphics page holds it.
#[derive(Clone, Copy, Debug, PartialEq, Eq, Structural)]
pub struct StatusRaw {
    pub data: i32,
}

/// The status of the simulator.
#[derive(Clone, Copy, Debug, PartialEq, Eq, Structural)]
pub enum Status {
    Off,
    Replay,
    Live,
    Pause,
}

impl Status {
    /// The status that a raw value stands for: 1 is a replay, 2 live, 3 a
    /// pause, and every other value off.
    pub open spec fn of_raw(raw: StatusRaw) -> Status {
        if raw.data == 1 {
            Status::Replay
        } else if raw.data == 2 {
            Status::Live
        } else if raw.data == 3 {
            Status::Pause
        } else {
            Status::Off
        }
    }

    /// The status that a raw value stands for.
    pub fn from_raw(raw: StatusRaw) -> (r: Status)
        ensures
            r == Status::of_raw(raw),
    {
        match raw.data {
            1 => Status::Replay,
            2 => Status::Live,
            3 => Status::Pause,
            _ => Status::Off,
        }
    }

    /// Whether a session runs in this status: live or paused.
    pub open spec fn in_session(self) -> bool {
        self == Status::Live || self == Status::Pause
    }
}

impl Default for Status {
    fn default() -> (r: Status)
        ensures
            r == Status::Off,
    {
        Status::Off
    }
}

/// A value for each of the four wheels.
#[derive(Clone, Copy, Debug, PartialEq, Eq, Structural)]
pub struct Wheels<T> {
    pub front_left: T,
    pub front_right: T,
    pub rear_left: T,
    pub rear_right: T,
}

/// A sample of the graphics page.
#[derive(Clone, Copy, Debug, PartialEq, Eq, Structural)]
pub struct Graphics {
    /// The number of the sample; it grows from sample to sample.
    pub packet_id: i32,
    pub status: Status,
    pub completed_laps: i32,
    /// Average fuel per lap in litres, in single precision.
    pub fuel_used_per_lap: Float32,
    /// The index of the player's car.
    pub player_car_id: i32,
}

/// A sample of the physics page.
#[derive(Clone, Copy, Debug, PartialEq, Eq, Structural)]
pub struct Physics {
    /// The number of the sample; it grows from sample to sample.
    pub packet_id: i32,
    pub tyre_pressure: Wheels<Float32>,
    pub tyre_core_temperature: Wheels<Float32>,
    pub brake_temperature: Wheels<Float32>,
}

impl Graphics {
    /// The sample before anything was read.
    pub open spec fn initial() -> Graphics {
        Graphics {
            packet_id: 0,
            status: Status::Off,
            completed_laps: 0,
            fuel_used_per_lap: Float32 { bits: 0 },
            player_car_id: 0,
        }
    }
}

impl Default for Graphics {
    fn default() -> (r: Graphics)
        ensures
            r == Graphics::initial(),
    {
        Graphics {
            packet_id: 0,
            status: Status::Off,
            completed_laps: 0,
            fuel_used_per_lap: Float32 { bits: 0 },
            player_car_id: 0,
        }
    }
}

impl Physics {
    /// The sample before anything was read.
    pub open spec fn initial() -> Physics {
        let still = Wheels {
            front_left: Float32 { bits: 0 },
            front_right: Float32 { bits: 0 },
            rear_left: Float32 { bits: 0 },
            rear_right: Float32 { bits: 0 },
        };
        Physics {
            packet_id: 0,
            tyre_pressure: still,
            tyre_core_temperature: still,
            brake_temperature: still,
        }
    }
}

impl Default for Physics {
    fn default() -> (r: Physics)
        ensures
            r == Physics::initial(),
    {
        let still = Wheels {
            front_left: Float32 { bits: 0 },
            front_right: Float32 { bits: 0 },
            rear_left: Float32 { bits: 0 },
            rear_right: Float32 { bits: 0 },
        };
        Physics {
            packet_id: 0,
            tyre_pressure: still,
            tyre_core_temperature: still,
            brake_temperature: still,
        }
    }
}

} // verus!

//! Telemetry sources of the simulator.

use vstd::prelude::*;

pub mod udp;
pub mod laphistory;
pub mod shm;
pub mod tracker;

verus! {

/// A lap or sector time, in whole milliseconds.
#[derive(Clone, Copy, Debug, PartialEq, Eq, Structural)]
pub struct LapTime {
    pub millis: u64,
}

impl LapTime {
    /// The time of `millis` milliseconds.
    pub fn from_millis(millis: u64) -> (r: LapTime)
        ensures
            r.millis == millis,
    {
        LapTime { millis }
    }

    /// The time in whole milliseconds.
    pub fn duration(&self) -> (r: u64)
        ensures
            r == self.millis,
    {
        self.millis
    }

    /// The time as it is shown on a clock: whole minutes, the seconds of the
    /// minute and the milliseconds of the second.
    pub fn clock(&self) -> (r: (u64, u64, u64))
        ensures
            r.0 == self.millis / 60_000,
            r.1 == (self.millis / 1000) % 60,
            r.2 == self.millis % 1000,
            r.0 * 60_000 + r.1 * 1000 + r.2 == self.millis,
    {
        let secs = self.millis / 1000;
        let minutes = secs / 60;
        (minutes, secs - minutes * 60, self.millis % 1000)
    }
}

impl Default for LapTime {
    /// No time at all.
    fn default() -> (r: LapTime)
        ensures
            r.millis == 0,
    {
        LapTime { millis: 0 }
    }
}

} // verus!

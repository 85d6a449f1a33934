//! The samples of the lap that is being driven.

use vstd::prelude::*;
use crate::telemetry::udp::float::Float32;
use crate::telemetry::shm::{Graphics, Physics, Wheels};

verus! {

/// The samples of the lap that is being driven, oldest first.
#[derive(Clone, Debug, PartialEq, Eq)]
pub struct LapHistory {
    pub h_physics: Vec<Physics>,
    pub h_graphics: Vec<Graphics>,
}

/// The samples of a lap as a mathematical value.
pub struct LapHistoryView {
    pub h_physics: Seq<Physics>,
    pub h_graphics: Seq<Graphics>,
}

impl View for LapHistory {
    type V = LapHistoryView;

    open spec fn view(&self) -> LapHistoryView {
        LapHistoryView { h_physics: self.h_physics@, h_graphics: self.h_graphics@ }
    }
}

impl LapHistoryView {
    /// The newest sample of each page, where there are samples of both.
    pub open spec fn last_point(self) -> Option<(Physics, Graphics)> {
        if self.h_physics.len() > 0 && self.h_graphics.len() > 0 {
            Some((self.h_physics.last(), self.h_graphics.last()))
        } else {
            None
        }
    }

    /// No sample at all.
    pub open spec fn empty() -> LapHistoryView {
        LapHistoryView { h_physics: Seq::empty(), h_graphics: Seq::empty() }
    }
}

impl LapHistory {
    /// A history without a sample.
    pub fn new() -> (r: LapHistory)
        ensures
            r@ == LapHistoryView::empty(),
    {
        LapHistory { h_physics: Vec::new(), h_graphics: Vec::new() }
    }

    /// The newest sample of each page, where there are samples of both.
    pub fn last_point(&self) -> (r: Option<(&Physics, &Graphics)>)
        ensures
            match r {
                Some((physics, graphics)) => self@.last_point() == Some((*physics, *graphics)),
                None => self@.last_point() is None,
            },
    {
        if self.h_physics.len() > 0 && self.h_graphics.len() > 0 {
            Some(
                (
                    &self.h_physics[self.h_physics.len() - 1],
                    &self.h_graphics[self.h_graphics.len() - 1],
                ),
            )
        } else {
            None
        }
    }
}

/// The average, the least and the largest of a quantity over a lap.
#[derive(Clone, Copy, Debug, PartialEq, Eq)]
pub struct AvgMinMax<T> {
    pub avg: T,
    pub min: T,
    pub max: T,
}

/// What the wheels went through in a lap.
#[derive(Clone, Copy, Debug, PartialEq, Eq)]
pub struct LapWheels {
    /// The number of the lap.
    pub number: i32,
    pub tyre_pressure: AvgMinMax<Wheels<Float32>>,
    pub tyre_temperature: AvgMinMax<Wheels<Float32>>,
    pub brake_temperature: AvgMinMax<Wheels<Float32>>,
}

/// A quantity that the physics page gives for each wheel.
#[derive(Clone, Copy, Debug, PartialEq, Eq, Structural)]
pub enum Reading {
    BrakeTemperature,
    TyreTemperature,
    TyrePressure,
}

/// The bit pattern of the largest finite single-precision number.
pub const LARGEST_BITS: u32 = 0x7f7f_ffff;

/// The bit pattern of the least finite single-precision number.
pub const LEAST_BITS: u32 = 0xff7f_ffff;

/// The same number for each wheel.
pub open spec fn all_wheels(value: Float32) -> Wheels<Float32> {
    Wheels { front_left: value, front_right: value, rear_left: value, rear_right: value }
}

/// The larger of two numbers, the first where neither is larger.
pub open spec fn larger(so_far: Float32, value: Float32) -> Float32 {
    if so_far.less(value) {
        value
    } else {
        so_far
    }
}

/// The smaller of two numbers, the first where neither is smaller.
pub open spec fn smaller(so_far: Float32, value: Float32) -> Float32 {
    if value.less(so_far) {
        value
    } else {
        so_far
    }
}

impl Reading {
    /// What a sample reads of the quantity.
    pub open spec fn of(self, sample: Physics) -> Wheels<Float32> {
        match self {
            Reading::BrakeTemperature => sample.brake_temperature,
            Reading::TyreTemperature => sample.tyre_core_temperature,
            Reading::TyrePressure => sample.tyre_pressure,
        }
    }

    /// Whether a sample counts: it reads more than zero for one wheel at
    /// least.
    pub open spec fn counts(self, sample: Physics) -> bool {
        let wheels = self.of(sample);
        let zero = Float32 { bits: 0 };
        zero.less(wheels.front_left) || zero.less(wheels.front_right) || zero.less(
            wheels.rear_left,
        ) || zero.less(wheels.rear_right)
    }

    /// The largest reading of each wheel over the samples that count; the
    /// least finite number where none counts.
    pub open spec fn max_over(self, samples: Seq<Physics>) -> Wheels<Float32>
        decreases samples.len(),
    {
        if samples.len() == 0 {
            all_wheels(Float32 { bits: LEAST_BITS })
        } else {
            let so_far = self.max_over(samples.drop_last());
            let wheels = self.of(samples.last());
            if self.counts(samples.last()) {
                Wheels {
                    front_left: larger(so_far.front_left, wheels.front_left),
                    front_right: larger(so_far.front_right, wheels.front_right),
                    rear_left: larger(so_far.rear_left, wheels.rear_left),
                    rear_right: larger(so_far.rear_right, wheels.rear_right),
                }
            } else {
                so_far
            }
        }
    }

    /// The least reading of each wheel over the samples that count; the
    /// largest finite number where none counts.
    pub open spec fn min_over(self, samples: Seq<Physics>) -> Wheels<Float32>
        decreases samples.len(),
    {
        if samples.len() == 0 {
            all_wheels(Float32 { bits: LARGEST_BITS })
        } else {
            let so_far = self.min_over(samples.drop_last());
            let wheels = self.of(samples.last());
            if self.counts(samples.last()) {
                Wheels {
                    front_left: smaller(so_far.front_left, wheels.front_left),
                    front_right: smaller(so_far.front_right, wheels.front_right),
                    rear_left: smaller(so_far.rear_left, wheels.rear_left),
                    rear_right: smaller(so_far.rear_right, wheels.rear_right),
                }
            } else {
                so_far
            }
        }
    }

    /// The sum of the readings of each wheel over the samples that count,
    /// added up in their order in single precision.
    pub open spec fn sum_over(self, samples: Seq<Physics>) -> Wheels<Float32>
        decreases samples.len(),
    {
        if samples.len() == 0 {
            all_wheels(Float32 { bits: 0 })
        } else {
            let so_far = self.sum_over(samples.drop_last());
            let wheels = self.of(samples.last());
            if self.counts(samples.last()) {
                Wheels {
                    front_left: so_far.front_left.sum(wheels.front_left),
                    front_right: so_far.front_right.sum(wheels.front_right),
                    rear_left: so_far.rear_left.sum(wheels.rear_left),
                    rear_right: so_far.rear_right.sum(wheels.rear_right),
                }
            } else {
                so_far
            }
        }
    }

    /// The number of samples that count.
    pub open spec fn count_over(self, samples: Seq<Physics>) -> nat
        decreases samples.len(),
    {
        if samples.len() == 0 {
            0
        } else if self.counts(samples.last()) {
            self.count_over(samples.drop_last()) + 1
        } else {
            self.count_over(samples.drop_last())
        }
    }

    /// The average reading of each wheel over the samples that count: their
    /// sum by their number, in single precision. Where none counts it is not
    /// a number.
    pub open spec fn avg_over(self, samples: Seq<Physics>) -> Wheels<Float32> {
        let sum = self.sum_over(samples);
        let count = Float32::of_count(self.count_over(samples) as u64);
        Wheels {
            front_left: sum.front_left.quotient(count),
            front_right: sum.front_right.quotient(count),
            rear_left: sum.rear_left.quotient(count),
            rear_right: sum.rear_right.quotient(count),
        }
    }

    /// Average, least and largest reading over the samples that count.
    pub open spec fn over(self, samples: Seq<Physics>) -> AvgMinMax<Wheels<Float32>> {
        AvgMinMax {
            avg: self.avg_over(samples),
            min: self.min_over(samples),
            max: self.max_over(samples),
        }
    }

    /// What a sample reads of the quantity.
    pub fn read(self, sample: &Physics) -> (r: Wheels<Float32>)
        ensures
            r == self.of(*sample),
    {
        match self {
            Reading::BrakeTemperature => sample.brake_temperature,
            Reading::TyreTemperature => sample.tyre_core_temperature,
            Reading::TyrePressure => sample.tyre_pressure,
        }
    }

    /// Whether a sample counts.
    pub fn is_counted(self, sample: &Physics) -> (r: bool)
        ensures
            r == self.counts(*sample),
    {
        let wheels = self.read(sample);
        let zero = Float32 { bits: 0 };
        zero.lt(wheels.front_left) || zero.lt(wheels.front_right) || zero.lt(wheels.rear_left)
            || zero.lt(wheels.rear_right)
    }
}

/// The larger of two numbers.
fn pick_larger(so_far: Float32, value: Float32) -> (r: Float32)
    ensures
        r == larger(so_far, value),
{
    if so_far.lt(value) {
        value
    } else {
        so_far
    }
}

/// The smaller of two numbers.
fn pick_smaller(so_far: Float32, value: Float32) -> (r: Float32)
    ensures
        r == smaller(so_far, value),
{
    if value.lt(so_far) {
        value
    } else {
        so_far
    }
}

impl LapHistory {
    /// The largest reading of each wheel over the lap.
    pub fn max_of(&self, which: Reading) -> (r: Wheels<Float32>)
        ensures
            r == which.max_over(self@.h_physics),
    {
        let least = Float32 { bits: LEAST_BITS };
        let mut so_far = Wheels {
            front_left: least,
            front_right: least,
            rear_left: least,
            rear_right: least,
        };
        let mut i: usize = 0;
        assert(self.h_physics@.take(0) =~= Seq::<Physics>::empty());
        while i < self.h_physics.len()
            invariant
                i <= self.h_physics@.len(),
                so_far == which.max_over(self.h_physics@.take(i as int)),
            decreases self.h_physics@.len() - i,
        {
            assert(self.h_physics@.take(i + 1).drop_last() =~= self.h_physics@.take(i as int));
            if which.is_counted(&self.h_physics[i]) {
                let wheels = which.read(&self.h_physics[i]);
                so_far = Wheels {
                    front_left: pick_larger(so_far.front_left, wheels.front_left),
                    front_right: pick_larger(so_far.front_right, wheels.front_right),
                    rear_left: pick_larger(so_far.rear_left, wheels.rear_left),
                    rear_right: pick_larger(so_far.rear_right, wheels.rear_right),
                };
            }
            i += 1;
        }
        assert(self.h_physics@.take(self.h_physics@.len() as int) =~= self.h_physics@);
        so_far
    }

    /// The least reading of each wheel over the lap.
    pub fn min_of(&self, which: Reading) -> (r: Wheels<Float32>)
        ensures
            r == which.min_over(self@.h_physics),
    {
        let largest = Float32 { bits: LARGEST_BITS };
        let mut so_far = Wheels {
            front_left: largest,
            front_right: largest,
            rear_left: largest,
            rear_right: largest,
        };
        let mut i: usize = 0;
        assert(self.h_physics@.take(0) =~= Seq::<Physics>::empty());
        while i < self.h_physics.len()
            invariant
                i <= self.h_physics@.len(),
                so_far == which.min_over(self.h_physics@.take(i as int)),
            decreases self.h_physics@.len() - i,
        {
            assert(self.h_physics@.take(i + 1).drop_last() =~= self.h_physics@.take(i as int));
            if which.is_counted(&self.h_physics[i]) {
                let wheels = which.read(&self.h_physics[i]);
                so_far = Wheels {
                    front_left: pick_smaller(so_far.front_left, wheels.front_left),
                    front_right: pick_smaller(so_far.front_right, wheels.front_right),
                    rear_left: pick_smaller(so_far.rear_left, wheels.rear_left),
                    rear_right: pick_smaller(so_far.rear_right, wheels.rear_right),
                };
            }
            i += 1;
        }
        assert(self.h_physics@.take(self.h_physics@.len() as int) =~= self.h_physics@);
        so_far
    }

    /// The average reading of each wheel over the lap.
    pub fn avg_of(&self, which: Reading) -> (r: Wheels<Float32>)
        ensures
            r == which.avg_over(self@.h_physics),
    {
        let zero = Float32 { bits: 0 };
        let mut sum = Wheels {
            front_left: zero,
            front_right: zero,
            rear_left: zero,
            rear_right: zero,
        };
        let mut count: u64 = 0;
        let mut i: usize = 0;
        assert(self.h_physics@.take(0) =~= Seq::<Physics>::empty());
        while i < self.h_physics.len()
            invariant
                i <= self.h_physics@.len(),
                sum == which.sum_over(self.h_physics@.take(i as int)),
                count == which.count_over(self.h_physics@.take(i as int)),
                count <= i,
            decreases self.h_physics@.len() - i,
        {
            assert(self.h_physics@.take(i + 1).drop_last() =~= self.h_physics@.take(i as int));
            if which.is_counted(&self.h_physics[i]) {
                let wheels = which.read(&self.h_physics[i]);
                sum = Wheels {
                    front_left: sum.front_left.add(wheels.front_left),
                    front_right: sum.front_right.add(wheels.front_right),
                    rear_left: sum.rear_left.add(wheels.rear_left),
                    rear_right: sum.rear_right.add(wheels.rear_right),
                };
                count = count + 1;
            }
            i += 1;
        }
        assert(self.h_physics@.take(self.h_physics@.len() as int) =~= self.h_physics@);
        let by = Float32::from_count(count);
        Wheels {
            front_left: sum.front_left.divide(by),
            front_right: sum.front_right.divide(by),
            rear_left: sum.rear_left.divide(by),
            rear_right: sum.rear_right.divide(by),
        }
    }

    /// The largest brake temperature of each wheel over the lap.
    pub fn max_brake_temperature(&self) -> (r: Wheels<Float32>)
        ensures
            r == Reading::BrakeTemperature.max_over(self@.h_physics),
    {
        self.max_of(Reading::BrakeTemperature)
    }

    /// The least brake temperature of each wheel over the lap.
    pub fn min_brake_temperature(&self) -> (r: Wheels<Float32>)
        ensures
            r == Reading::BrakeTemperature.min_over(self@.h_physics),
    {
        self.min_of(Reading::BrakeTemperature)
    }

    /// The average brake temperature of each wheel over the lap.
    pub fn avg_brake_temperature(&self) -> (r: Wheels<Float32>)
        ensures
            r == Reading::BrakeTemperature.avg_over(self@.h_physics),
    {
        self.avg_of(Reading::BrakeTemperature)
    }

    /// The largest tyre temperature of each wheel over the lap.
    pub fn max_tyre_temperature(&self) -> (r: Wheels<Float32>)
        ensures
            r == Reading::TyreTemperature.max_over(self@.h_physics),
    {
        self.max_of(Reading::TyreTemperature)
    }

    /// The least tyre temperature of each wheel over the lap.
    pub fn min_tyre_temperature(&self) -> (r: Wheels<Float32>)
        ensures
            r == Reading::TyreTemperature.min_over(self@.h_physics),
    {
        self.min_of(Reading::TyreTemperature)
    }

    /// The average tyre temperature of each wheel over the lap.
    pub fn avg_tyre_temperature(&self) -> (r: Wheels<Float32>)
        ensures
            r == Reading::TyreTemperature.avg_over(self@.h_physics),
    {
        self.avg_of(Reading::TyreTemperature)
    }

    /// The largest tyre pressure of each wheel over the lap.
    pub fn max_tyre_pressure(&self) -> (r: Wheels<Float32>)
        ensures
            r == Reading::TyrePressure.max_over(self@.h_physics),
    {
        self.max_of(Reading::TyrePressure)
    }

    /// The least tyre pressure of each wheel over the lap.
    pub fn min_tyre_pressure(&self) -> (r: Wheels<Float32>)
        ensures
            r == Reading::TyrePressure.min_over(self@.h_physics),
    {
        self.min_of(Reading::TyrePressure)
    }

    /// The average tyre pressure of each wheel over the lap.
    pub fn avg_tyre_pressure(&self) -> (r: Wheels<Float32>)
        ensures
            r == Reading::TyrePressure.avg_over(self@.h_physics),
    {
        self.avg_of(Reading::TyrePressure)
    }

    /// Average, least and largest reading of each wheel over the lap.
    pub fn avg_min_max(&self, which: Reading) -> (r: AvgMinMax<Wheels<Float32>>)
        ensures
            r == which.over(self@.h_physics),
    {
        AvgMinMax { avg: self.avg_of(which), min: self.min_of(which), max: self.max_of(which) }
    }
}

impl LapWheels {
    /// What the wheels went through in the lap `number`, from its samples.
    pub open spec fn of(number: i32, samples: Seq<Physics>) -> LapWheels {
        LapWheels {
            number,
            tyre_pressure: Reading::TyrePressure.over(samples),
            tyre_temperature: Reading::TyreTemperature.over(samples),
            brake_temperature: Reading::BrakeTemperature.over(samples),
        }
    }

    /// Takes average, least and largest pressures and temperatures from the
    /// samples of a lap; the number of the lap stays.
    pub fn get_avg_min_max(&mut self, history: &LapHistory)
        ensures
            *final(self) == Self::of(old(self).number, history@.h_physics),
    {
        self.tyre_pressure = history.avg_min_max(Reading::TyrePressure);
        self.tyre_temperature = history.avg_min_max(Reading::TyreTemperature);
        self.brake_temperature = history.avg_min_max(Reading::BrakeTemperature);
    }
}

impl LapWheels {
    /// No lap, and zero for every reading.
    pub open spec fn initial() -> LapWheels {
        let none = AvgMinMax {
            avg: all_wheels(Float32 { bits: 0 }),
            min: all_wheels(Float32 { bits: 0 }),
            max: all_wheels(Float32 { bits: 0 }),
        };
        LapWheels { number: 0, tyre_pressure: none, tyre_temperature: none, brake_temperature: none }
    }
}

impl Default for LapWheels {
    /// No lap, and zero for every reading.
    fn default() -> (r: LapWheels)
        ensures
            r == LapWheels::initial(),
    {
        let zero = Float32 { bits: 0 };
        let wheels = Wheels {
            front_left: zero,
            front_right: zero,
            rear_left: zero,
            rear_right: zero,
        };
        let none = AvgMinMax { avg: wheels, min: wheels, max: wheels };
        LapWheels { number: 0, tyre_pressure: none, tyre_temperature: none, brake_temperature: none }
    }
}

impl Default for LapHistory {
    fn default() -> (r: LapHistory)
        ensures
            r@ == LapHistoryView::empty(),
    {
        LapHistory::new()
    }
}

} // verus!

//! What follows from the samples of the shared memory: whether the
//! simulator went live or away, when a lap was completed, and when the fuel
//! per lap changed.

use vstd::prelude::*;
use crate::telemetry::udp::float::Float32;
use crate::telemetry::laphistory::{LapHistory, LapHistoryView, LapWheels};
use crate::telemetry::shm::{Graphics, Physics, Status};

verus! {

/// Whether the simulator runs a session.
#[derive(Clone, Copy, Debug, PartialEq, Eq, Structural)]
pub enum ShmGameState {
    Disconnected,
    Connected,
}

/// A sample of both pages, read at the same time.
#[derive(Clone, Copy, Debug, PartialEq, Eq, Structural)]
pub struct TelemetryUpdate {
    pub physics: Physics,
    pub graphics: Graphics,
}

/// What is known from the samples so far.
#[derive(Clone, Debug, PartialEq, Eq)]
pub struct Telemetry {
    /// Whether the simulator was last seen in a session.
    pub connected: bool,
    /// The newest sample of the physics page.
    pub physics: Physics,
    /// The newest sample of the graphics page.
    pub graphics: Graphics,
    /// The samples of the lap that is being driven.
    pub lap_history: LapHistory,
}

/// What is known from the samples, as a mathematical value.
pub struct TelemetryView {
    pub connected: bool,
    pub physics: Physics,
    pub graphics: Graphics,
    pub lap_history: LapHistoryView,
}

impl View for Telemetry {
    type V = TelemetryView;

    open spec fn view(&self) -> TelemetryView {
        TelemetryView {
            connected: self.connected,
            physics: self.physics,
            graphics: self.graphics,
            lap_history: self.lap_history@,
        }
    }
}

/// What a sample brought about.
#[derive(Clone, Copy, Debug, PartialEq, Eq)]
pub struct SampleOutcome {
    /// The simulator went live or away.
    pub game_state: Option<ShmGameState>,
    /// The fuel per lap to report: a lap was completed and the fuel per lap
    /// of the sample differs from that of the sample before.
    pub fuel_per_lap: Option<Float32>,
    /// What the wheels went through in the lap that was completed.
    pub lap_wheels: Option<LapWheels>,
}

impl TelemetryView {
    /// Nothing read yet.
    pub open spec fn initial() -> TelemetryView {
        TelemetryView {
            connected: false,
            physics: Physics::initial(),
            graphics: Graphics::initial(),
            lap_history: LapHistoryView::empty(),
        }
    }

    /// What a status says of the game, where it says something new: a
    /// status that differs from that of the newest sample, and that turns
    /// what is known around.
    pub open spec fn game_event(self, status: Status) -> Option<ShmGameState> {
        if status == self.graphics.status {
            None
        } else if status.in_session() && !self.connected {
            Some(ShmGameState::Connected)
        } else if !status.in_session() && self.connected {
            Some(ShmGameState::Disconnected)
        } else {
            None
        }
    }

    /// What is known after a status.
    pub open spec fn game_state(self, status: Status) -> TelemetryView {
        match self.game_event(status) {
            Some(ShmGameState::Connected) => TelemetryView { connected: true, ..self },
            Some(ShmGameState::Disconnected) => TelemetryView { connected: false, ..self },
            None => self,
        }
    }

    /// Whether a sample completes the lap of the history: there are samples
    /// of both pages and the newest counts fewer laps than the sample.
    pub open spec fn completes_lap(self, update: TelemetryUpdate) -> bool {
        match self.lap_history.last_point() {
            Some((_, graphics)) => graphics.completed_laps < update.graphics.completed_laps,
            None => false,
        }
    }

    /// The fuel per lap that a sample gives reason to report: that of the
    /// newest sample so far, where the sample completes a lap and reads
    /// another fuel per lap than the last sample of the history.
    pub open spec fn fuel_event(self, update: TelemetryUpdate) -> Option<Float32> {
        if self.completes_lap(update) && !self.lap_history.h_graphics.last().fuel_used_per_lap.same_number(
            update.graphics.fuel_used_per_lap,
        ) {
            Some(self.graphics.fuel_used_per_lap)
        } else {
            None
        }
    }

    /// The number of the lap that is completed when the newest sample counts
    /// `completed` laps; it stops at the largest number that it can hold.
    pub open spec fn lap_number(completed: i32) -> i32 {
        if completed == i32::MAX {
            completed
        } else {
            (completed + 1) as i32
        }
    }

    /// What the wheels went through in the lap that a sample completes:
    /// the readings of the samples of the history, under the number of the
    /// lap.
    pub open spec fn lap_event(self, update: TelemetryUpdate) -> Option<LapWheels> {
        if self.completes_lap(update) {
            Some(
                LapWheels::of(
                    Self::lap_number(self.graphics.completed_laps),
                    self.lap_history.h_physics,
                ),
            )
        } else {
            None
        }
    }

    /// What is known after a sample was committed: each page's sample takes
    /// the place of the newest and enters the history where its number is
    /// larger than that of the newest.
    pub open spec fn commit(self, update: TelemetryUpdate) -> TelemetryView {
        let newer_graphics = update.graphics.packet_id > self.graphics.packet_id;
        let newer_physics = update.physics.packet_id > self.physics.packet_id;
        TelemetryView {
            connected: self.connected,
            graphics: if newer_graphics {
                update.graphics
            } else {
                self.graphics
            },
            physics: if newer_physics {
                update.physics
            } else {
                self.physics
            },
            lap_history: LapHistoryView {
                h_graphics: if newer_graphics {
                    self.lap_history.h_graphics.push(update.graphics)
                } else {
                    self.lap_history.h_graphics
                },
                h_physics: if newer_physics {
                    self.lap_history.h_physics.push(update.physics)
                } else {
                    self.lap_history.h_physics
                },
            },
        }
    }

    /// What is known after a sample: the game state follows its status, a
    /// completed lap empties the history, and the sample is committed.
    pub open spec fn sample(self, update: TelemetryUpdate) -> TelemetryView {
        let stated = self.game_state(update.graphics.status);
        if stated.completes_lap(update) {
            (TelemetryView { lap_history: LapHistoryView::empty(), ..stated }).commit(update)
        } else {
            stated.commit(update)
        }
    }
}

impl Telemetry {
    /// Nothing read yet.
    pub fn new() -> (r: Telemetry)
        ensures
            r@ == TelemetryView::initial(),
    {
        Telemetry {
            connected: false,
            physics: Physics::default(),
            graphics: Graphics::default(),
            lap_history: LapHistory::new(),
        }
    }

    /// Holds a status against the newest sample and says whether the
    /// simulator went live or away.
    pub fn game_state(&mut self, status: Status) -> (r: Option<ShmGameState>)
        ensures
            r == old(self)@.game_event(status),
            final(self)@ == old(self)@.game_state(status),
    {
        if status != self.graphics.status {
            match status {
                Status::Off | Status::Replay => {
                    if self.connected {
                        self.connected = false;
                        return Some(ShmGameState::Disconnected);
                    }
                },
                Status::Live | Status::Pause => {
                    if !self.connected {
                        self.connected = true;
                        return Some(ShmGameState::Connected);
                    }
                },
            }
        }
        None
    }

    /// Commits a sample: each page's sample takes the place of the newest
    /// and enters the history where its number is larger.
    pub fn commit_update(&mut self, update: TelemetryUpdate)
        ensures
            final(self)@ == old(self)@.commit(update),
    {
        if update.graphics.packet_id > self.graphics.packet_id {
            self.graphics = update.graphics;
            self.lap_history.h_graphics.push(update.graphics);
        }
        if update.physics.packet_id > self.physics.packet_id {
            self.physics = update.physics;
            self.lap_history.h_physics.push(update.physics);
        }
    }

    /// Takes a sample in. Says whether the simulator went live or away,
    /// what the wheels went through in a lap that the sample completes, and
    /// the fuel per lap where there is reason to report it.
    pub fn update(&mut self, update: TelemetryUpdate) -> (r: SampleOutcome)
        ensures
            final(self)@ == old(self)@.sample(update),
            r.game_state == old(self)@.game_event(update.graphics.status),
            r.fuel_per_lap == old(self)@.game_state(update.graphics.status).fuel_event(update),
            r.lap_wheels == old(self)@.game_state(update.graphics.status).lap_event(update),
    {
        let game_state = self.game_state(update.graphics.status);
        let mut fuel_per_lap: Option<Float32> = None;
        let mut completed = false;
        if let Some((_, last)) = self.lap_history.last_point() {
            if last.completed_laps < update.graphics.completed_laps {
                completed = true;
                if !last.fuel_used_per_lap.eq_number(update.graphics.fuel_used_per_lap) {
                    fuel_per_lap = Some(self.graphics.fuel_used_per_lap);
                }
            }
        }
        let mut lap_wheels: Option<LapWheels> = None;
        if completed {
            let mut wheels = LapWheels::default();
            wheels.get_avg_min_max(&self.lap_history);
            wheels.number = if self.graphics.completed_laps == i32::MAX {
                i32::MAX
            } else {
                self.graphics.completed_laps + 1
            };
            lap_wheels = Some(wheels);
            self.lap_history = LapHistory::new();
        }
        self.commit_update(update);
        SampleOutcome { game_state, fuel_per_lap, lap_wheels }
    }
}

impl Default for Telemetry {
    fn default() -> (r: Telemetry)
        ensures
            r@ == TelemetryView::initial(),
    {
        Telemetry::new()
    }
}

/// A sample whose number is not larger than that of the newest leaves the
/// newest sample and the history of its page as they are.
pub proof fn lemma_stale_samples_are_dropped(known: TelemetryView, update: TelemetryUpdate)
    requires
        update.graphics.packet_id <= known.graphics.packet_id,
        update.physics.packet_id <= known.physics.packet_id,
    ensures
        known.commit(update) == known,
{
}

/// The game state is reported only when it turns: two reports in a row are
/// never the same.
pub proof fn lemma_game_state_turns(known: TelemetryView, first: Status, second: Status)
    requires
        known.game_event(first) is Some,
    ensures
        known.game_state(first).game_event(second) != known.game_event(first),
{
}

} // verus!

//! What a connection knows of its session, and the facts that it derives
//! from the messages of the simulator.
//!
//! The simulator sends snapshots, not changes. The session keeps the last
//! snapshot of each kind, holds every new one against it, and reports what
//! differs: the weather, the length of the session, the name of the track,
//! a completed lap and the running average of the valid laps.

use vstd::prelude::*;
use crate::fuel_calculator::FuelMessage;
use crate::telemetry::udp::data::RaceSessionType;
use crate::telemetry::udp::lapinfo::LapType;
use crate::telemetry::udp::message::{BroadcastInboundMessage, BroadcastInboundMessageView};
use crate::telemetry::udp::realtime_car_update::{RealtimeCarUpdate, RealtimeCarUpdateView};
use crate::telemetry::udp::realtime_update::{RealtimeUpdate, RealtimeUpdateView};
use crate::telemetry::udp::track_data::{TrackData, TrackDataView};
use crate::telemetry::LapTime;

verus! {

/// The weather of a session.
#[derive(Clone, Copy, Debug, PartialEq, Eq, Structural)]
pub struct Weather {
    pub ambient_temp: u8,
    pub track_temp: u8,
    pub clouds: u8,
    pub rain_level: u8,
    pub wetness: u8,
}

impl Default for Weather {
    fn default() -> (r: Weather)
        ensures
            r == Weather::initial(),
    {
        Weather { ambient_temp: 0, track_temp: 0, clouds: 0, rain_level: 0, wetness: 0 }
    }
}

impl Weather {
    /// The weather before anything was received.
    pub open spec fn initial() -> Weather {
        Weather { ambient_temp: 0, track_temp: 0, clouds: 0, rain_level: 0, wetness: 0 }
    }

    /// The weather that a snapshot reports.
    pub open spec fn of(update: RealtimeUpdateView) -> Weather {
        Weather {
            ambient_temp: update.ambient_temp,
            track_temp: update.track_temp,
            clouds: update.clouds,
            rain_level: update.rain_level,
            wetness: update.wetness,
        }
    }

    /// The weather that a snapshot reports.
    pub fn from_update(update: &RealtimeUpdate) -> (r: Weather)
        ensures
            r == Weather::of(update@),
    {
        Weather {
            ambient_temp: update.ambient_temp,
            track_temp: update.track_temp,
            clouds: update.clouds,
            rain_level: update.rain_level,
            wetness: update.wetness,
        }
    }
}

/// The result of a completed lap.
#[derive(Clone, Debug, PartialEq, Eq)]
pub struct LapTimeData {
    /// The number of the lap, counted from 1.
    pub number: i32,
    /// The sector times that the simulator gave.
    pub sectors: Vec<LapTime>,
    pub time: LapTime,
    pub valid: bool,
    pub lap_type: LapType,
}

/// The result of a completed lap as a mathematical value.
pub struct LapTimeDataView {
    pub number: i32,
    pub sectors: Seq<LapTime>,
    pub time: LapTime,
    pub valid: bool,
    pub lap_type: LapType,
}

impl View for LapTimeData {
    type V = LapTimeDataView;

    open spec fn view(&self) -> LapTimeDataView {
        LapTimeDataView {
            number: self.number,
            sectors: self.sectors@,
            time: self.time,
            valid: self.valid,
            lap_type: self.lap_type,
        }
    }
}

/// A fact that the session derived.
#[derive(Clone, Debug, PartialEq, Eq)]
pub enum SessionEvent {
    /// The weather changed; the new weather.
    Weather(Weather),
    /// The track changed; the name of the new one.
    TrackName(String),
    /// The length of the qualifying session changed; the new length in
    /// milliseconds.
    QualiLength(u64),
    /// The length of the race changed; the new length in milliseconds.
    RaceLength(u64),
    /// A lap was completed.
    LapResult(LapTimeData),
    /// A valid lap changed the running average of the lap times.
    AvgLapTime(LapTime),
}

/// A derived fact as a mathematical value.
pub enum SessionEventView {
    Weather(Weather),
    TrackName(Seq<char>),
    QualiLength(u64),
    RaceLength(u64),
    LapResult(LapTimeDataView),
    AvgLapTime(LapTime),
}

impl View for SessionEvent {
    type V = SessionEventView;

    open spec fn view(&self) -> SessionEventView {
        match self {
            SessionEvent::Weather(w) => SessionEventView::Weather(*w),
            SessionEvent::TrackName(name) => SessionEventView::TrackName(name@),
            SessionEvent::QualiLength(millis) => SessionEventView::QualiLength(*millis),
            SessionEvent::RaceLength(millis) => SessionEventView::RaceLength(*millis),
            SessionEvent::LapResult(lap) => SessionEventView::LapResult(lap@),
            SessionEvent::AvgLapTime(time) => SessionEventView::AvgLapTime(*time),
        }
    }
}

impl SessionEventView {
    /// What the event tells the fuel estimate, if anything.
    pub open spec fn fuel_message(self) -> Option<FuelMessage> {
        match self {
            SessionEventView::QualiLength(millis) => Some(FuelMessage::QualiLength(millis)),
            SessionEventView::RaceLength(millis) => Some(FuelMessage::RaceLength(millis)),
            SessionEventView::AvgLapTime(time) => Some(FuelMessage::AvgLapTime(time)),
            _ => None,
        }
    }
}

impl SessionEvent {
    /// What the event tells the fuel estimate, if anything.
    pub fn fuel_message(&self) -> (r: Option<FuelMessage>)
        ensures
            r == self@.fuel_message(),
    {
        match self {
            SessionEvent::QualiLength(millis) => Some(FuelMessage::QualiLength(*millis)),
            SessionEvent::RaceLength(millis) => Some(FuelMessage::RaceLength(*millis)),
            SessionEvent::AvgLapTime(time) => Some(FuelMessage::AvgLapTime(*time)),
            _ => None,
        }
    }
}

/// The views of the events in `events`, in their order.
pub open spec fn event_views(events: Seq<SessionEvent>) -> Seq<SessionEventView> {
    Seq::new(events.len(), |i: int| events[i]@)
}

/// What a connection knows of its session.
#[derive(Clone, Debug, PartialEq)]
pub struct ConnectionSession {
    /// The id that the simulator gave the connection.
    pub connection_id: i32,
    /// The index of the car that the session follows.
    pub car_id: i16,
    /// The weather that was reported last.
    pub weather: Weather,
    /// The name of the track that was reported last.
    pub track_name: String,
    pub track_data: TrackData,
    /// The last session-wide snapshot.
    pub realtime_update: RealtimeUpdate,
    /// The last snapshot of the car that the session follows.
    pub realtime_car_update: RealtimeCarUpdate,
    /// The number of valid laps in the running average.
    pub avg_lap_count: u32,
    /// The running average of the valid laps.
    pub avg_lap_time: LapTime,
}

/// What a connection knows of its session, as a mathematical value.
pub struct ConnectionSessionView {
    pub connection_id: i32,
    pub car_id: i16,
    pub weather: Weather,
    pub track_name: Seq<char>,
    pub track_data: TrackDataView,
    pub realtime_update: RealtimeUpdateView,
    pub realtime_car_update: RealtimeCarUpdateView,
    pub avg_lap_count: u32,
    pub avg_lap_time: LapTime,
}

impl View for ConnectionSession {
    type V = ConnectionSessionView;

    open spec fn view(&self) -> ConnectionSessionView {
        ConnectionSessionView {
            connection_id: self.connection_id,
            car_id: self.car_id,
            weather: self.weather,
            track_name: self.track_name@,
            track_data: self.track_data@,
            realtime_update: self.realtime_update@,
            realtime_car_update: self.realtime_car_update@,
            avg_lap_count: self.avg_lap_count,
            avg_lap_time: self.avg_lap_time,
        }
    }
}

/// The event that reports a session length, by the type of the session:
/// qualifying and superpole report the length of the qualifying session,
/// race and hotstint the length of the race, the others nothing.
pub open spec fn length_event(session_type: RaceSessionType, millis: u64) -> Option<
    SessionEventView,
> {
    match session_type {
        RaceSessionType::Qualifying | RaceSessionType::Superpole => Some(
            SessionEventView::QualiLength(millis),
        ),
        RaceSessionType::Race | RaceSessionType::Hotstint => Some(
            SessionEventView::RaceLength(millis),
        ),
        _ => None,
    }
}

/// The time of a lap in milliseconds, where the lap has one that is not
/// negative.
pub open spec fn lap_millis(time: Option<i32>) -> Option<u64> {
    match time {
        Some(millis) if millis >= 0 => Some(millis as u64),
        _ => None,
    }
}

/// The sector times among the splits of a lap: the splits that have a time
/// that is not negative, in their order.
pub open spec fn sectors_of(splits: Seq<Option<i32>>) -> Seq<LapTime>
    decreases splits.len(),
{
    if splits.len() == 0 {
        Seq::empty()
    } else {
        let front = sectors_of(splits.drop_last());
        match lap_millis(splits.last()) {
            Some(millis) => front.push(LapTime { millis }),
            None => front,
        }
    }
}

/// The running average of `count` laps with one more lap in it, rounded
/// down.
pub open spec fn next_average(average: u64, count: u32, lap: u64) -> u64 {
    ((average * count + lap) / (count + 1)) as u64
}

/// The number of laps in the running average with one more lap in it; it
/// stops at the largest number that it can hold.
pub open spec fn next_count(count: u32) -> u32 {
    if count == u32::MAX {
        count
    } else {
        (count + 1) as u32
    }
}

/// Zero or one event as a sequence.
pub open spec fn maybe(event: Option<SessionEventView>) -> Seq<SessionEventView> {
    match event {
        Some(e) => seq![e],
        None => Seq::empty(),
    }
}

impl ConnectionSessionView {
    /// The session before anything was received, for the connection
    /// `connection_id` and the car `car_id`.
    pub open spec fn fresh(connection_id: i32, car_id: i16) -> ConnectionSessionView {
        ConnectionSessionView {
            connection_id,
            car_id,
            weather: Weather::initial(),
            track_name: Seq::empty(),
            track_data: TrackDataView::initial(),
            realtime_update: RealtimeUpdateView::initial(),
            realtime_car_update: RealtimeCarUpdateView::initial(),
            avg_lap_count: 0,
            avg_lap_time: LapTime { millis: 0 },
        }
    }

    /// The session with everything forgotten but the connection and the car.
    pub open spec fn reset(self) -> ConnectionSessionView {
        Self::fresh(self.connection_id, self.car_id)
    }

    /// Whether the weather of `update` differs from that of the last
    /// snapshot.
    pub open spec fn weather_changed(self, update: RealtimeUpdateView) -> bool {
        Weather::of(self.realtime_update) != Weather::of(update)
    }

    /// The weather event that `update` brings about.
    pub open spec fn weather_event(self, update: RealtimeUpdateView) -> Option<Weather> {
        if self.weather_changed(update) {
            Some(Weather::of(update))
        } else {
            None
        }
    }

    /// The session after the weather of `update` was held against the last
    /// snapshot.
    pub open spec fn update_weather(self, update: RealtimeUpdateView) -> ConnectionSessionView {
        if self.weather_changed(update) {
            ConnectionSessionView { weather: Weather::of(update), ..self }
        } else {
            self
        }
    }

    /// Whether the session length by `update` differs from that by the last
    /// snapshot. A length that is not a number differs from every length.
    pub open spec fn length_changed(self, update: RealtimeUpdateView) -> bool {
        !self.realtime_update.session_length().same_number(update.session_length())
    }

    /// The event that the session length by `update` brings about: where it
    /// differs from that by the last snapshot, the event that reports the
    /// new length, rounded up to whole milliseconds, for the type of the
    /// session.
    pub open spec fn time_event(self, update: RealtimeUpdateView) -> Option<SessionEventView> {
        if self.length_changed(update) {
            length_event(update.session_type, update.session_length().ceil_u64())
        } else {
            None
        }
    }

    /// The session after the session length by `update` was held against
    /// that by the last snapshot: where it differs, the last snapshot takes
    /// the two clock readings of `update`.
    pub open spec fn update_time(self, update: RealtimeUpdateView) -> ConnectionSessionView {
        if self.length_changed(update) {
            ConnectionSessionView {
                realtime_update: RealtimeUpdateView {
                    session_time: update.session_time,
                    session_end_time: update.session_end_time,
                    ..self.realtime_update
                },
                ..self
            }
        } else {
            self
        }
    }

    /// The event that the track `track` brings about.
    pub open spec fn track_event(self, track: TrackDataView) -> Option<SessionEventView> {
        if self.track_data.name != track.name {
            Some(SessionEventView::TrackName(track.name))
        } else {
            None
        }
    }

    /// The session after the name of `track` was held against the last track.
    pub open spec fn update_track_name(self, track: TrackDataView) -> ConnectionSessionView {
        if self.track_data.name != track.name {
            ConnectionSessionView { track_name: track.name, ..self }
        } else {
            self
        }
    }

    /// The time of the lap that `update` reports as completed: the lap
    /// count went up, is at least one, and the last lap has a time.
    pub open spec fn completed_lap(self, update: RealtimeCarUpdateView) -> Option<u64> {
        if update.laps > self.realtime_car_update.laps && update.laps >= 1 {
            lap_millis(update.last_lap.laptime)
        } else {
            None
        }
    }

    /// The result of the lap that `update` reports, with the time `millis`.
    pub open spec fn lap_result(update: RealtimeCarUpdateView, millis: u64) -> LapTimeDataView {
        LapTimeDataView {
            number: update.laps as i32,
            sectors: sectors_of(update.last_lap.splits),
            time: LapTime { millis },
            valid: !update.last_lap.invalid,
            lap_type: update.last_lap.lap_type,
        }
    }

    /// The events that the snapshot of a car brings about: the result of a
    /// completed lap and, where the lap is valid, the new running average.
    /// The snapshot of another car than the one that the session follows
    /// brings about nothing.
    pub open spec fn lap_events(self, update: RealtimeCarUpdateView) -> Seq<SessionEventView> {
        if update.car_index != self.car_id {
            Seq::empty()
        } else {
            match self.completed_lap(update) {
                None => Seq::empty(),
                Some(millis) => {
                    let result = SessionEventView::LapResult(Self::lap_result(update, millis));
                    if update.last_lap.invalid {
                        seq![result]
                    } else {
                        seq![
                            result,
                            SessionEventView::AvgLapTime(
                                LapTime {
                                    millis: next_average(
                                        self.avg_lap_time.millis,
                                        self.avg_lap_count,
                                        millis,
                                    ),
                                },
                            ),
                        ]
                    }
                },
            }
        }
    }

    /// The session after the snapshot of a car: the snapshot of the car that
    /// the session follows takes the place of the last one, and a valid
    /// completed lap enters the running average. The snapshot of another
    /// car changes nothing.
    pub open spec fn update_laps(self, update: RealtimeCarUpdateView) -> ConnectionSessionView {
        if update.car_index != self.car_id {
            self
        } else {
            match self.completed_lap(update) {
                Some(millis) if !update.last_lap.invalid => ConnectionSessionView {
                    realtime_car_update: update,
                    avg_lap_count: next_count(self.avg_lap_count),
                    avg_lap_time: LapTime {
                        millis: next_average(self.avg_lap_time.millis, self.avg_lap_count, millis),
                    },
                    ..self
                },
                _ => ConnectionSessionView { realtime_car_update: update, ..self },
            }
        }
    }

    /// The events that a session-wide snapshot brings about: the weather,
    /// where it changed, then the session length, where it changed.
    pub open spec fn realtime_events(self, update: RealtimeUpdateView) -> Seq<SessionEventView> {
        maybe(
            match self.weather_event(update) {
                Some(w) => Some(SessionEventView::Weather(w)),
                None => None,
            },
        ) + maybe(self.time_event(update))
    }

    /// The session after a session-wide snapshot: the weather follows the
    /// snapshot, and the snapshot takes the place of the last one.
    pub open spec fn on_realtime_update(self, update: RealtimeUpdateView) -> ConnectionSessionView {
        ConnectionSessionView { realtime_update: update, ..self.update_weather(update) }
    }

    /// The session after the track was received: the track takes the place
    /// of the last one.
    pub open spec fn on_track_data(self, track: TrackDataView) -> ConnectionSessionView {
        ConnectionSessionView { track_data: track, ..self.update_track_name(track) }
    }

    /// The events that a message brings about.
    pub open spec fn events(self, msg: BroadcastInboundMessageView) -> Seq<SessionEventView> {
        match msg {
            BroadcastInboundMessageView::RealtimeUpdate(update) => self.realtime_events(update),
            BroadcastInboundMessageView::RealtimeCarUpdate(update) => self.lap_events(update),
            BroadcastInboundMessageView::TrackData(track) => maybe(self.track_event(track)),
            _ => Seq::empty(),
        }
    }

    /// The session after a message.
    pub open spec fn apply(self, msg: BroadcastInboundMessageView) -> ConnectionSessionView {
        match msg {
            BroadcastInboundMessageView::RealtimeUpdate(update) => self.on_realtime_update(update),
            BroadcastInboundMessageView::RealtimeCarUpdate(update) => self.update_laps(update),
            BroadcastInboundMessageView::TrackData(track) => self.on_track_data(track),
            _ => self,
        }
    }
}

/// The sector times among the splits of a lap.
pub fn sectors(splits: &Vec<Option<i32>>) -> (r: Vec<LapTime>)
    ensures
        r@ == sectors_of(splits@),
{
    let mut out: Vec<LapTime> = Vec::new();
    let mut i: usize = 0;
    assert(splits@.take(0) =~= Seq::<Option<i32>>::empty());
    while i < splits.len()
        invariant
            i <= splits.len(),
            out@ == sectors_of(splits@.take(i as int)),
        decreases splits.len() - i,
    {
        assert(splits@.take(i + 1).drop_last() =~= splits@.take(i as int));
        match splits[i] {
            Some(millis) => {
                if millis >= 0 {
                    out.push(LapTime { millis: millis as u64 });
                }
            },
            None => {},
        }
        i += 1;
    }
    assert(splits@.take(splits@.len() as int) =~= splits@);
    out
}

/// The running average of `count` laps with one more lap in it.
pub fn average_with(average: u64, count: u32, lap: u64) -> (r: u64)
    ensures
        r == next_average(average, count, lap),
{
    assert(average * count <= 0xffff_ffff_ffff_ffff * 0xffff_ffff) by (nonlinear_arith)
        requires
            0 <= average <= 0xffff_ffff_ffff_ffff,
            0 <= count <= 0xffff_ffff,
    ;
    let sum: u128 = average as u128 * count as u128 + lap as u128;
    let laps: u128 = count as u128 + 1;
    let mean: u128 = sum / laps;
    assert(mean <= u64::MAX) by (nonlinear_arith)
        requires
            mean == (average * count + lap) / (count + 1),
            0 <= average <= u64::MAX,
            0 <= lap <= u64::MAX,
            0 <= count,
    ;
    mean as u64
}

impl ConnectionSession {
    /// A session before anything was received, for the car `car_id`.
    pub fn new(car_id: i16) -> (r: ConnectionSession)
        ensures
            r@ == ConnectionSessionView::fresh(0, car_id),
            r@.track_data.wf(),
    {
        ConnectionSession {
            connection_id: 0,
            car_id,
            weather: Weather::default(),
            track_name: String::new(),
            track_data: TrackData::default(),
            realtime_update: RealtimeUpdate::default(),
            realtime_car_update: RealtimeCarUpdate::default(),
            avg_lap_count: 0,
            avg_lap_time: LapTime { millis: 0 },
        }
    }

    /// Forgets everything but the connection and the car: a new session
    /// starts from nothing.
    pub fn reset(&mut self)
        ensures
            final(self)@ == old(self)@.reset(),
            final(self)@.track_data.wf(),
    {
        self.avg_lap_count = 0;
        self.avg_lap_time = LapTime { millis: 0 };
        self.weather = Weather::default();
        self.track_name = String::new();
        self.track_data = TrackData::default();
        self.realtime_update = RealtimeUpdate::default();
        self.realtime_car_update = RealtimeCarUpdate::default();
    }

    /// Holds the weather of `update` against the last snapshot and returns
    /// the new weather where it differs.
    pub fn update_weather(&mut self, update: &RealtimeUpdate) -> (r: Option<Weather>)
        ensures
            r == old(self)@.weather_event(update@),
            final(self)@ == old(self)@.update_weather(update@),
    {
        let before = Weather::from_update(&self.realtime_update);
        let now = Weather::from_update(update);
        if before != now {
            self.weather = now;
            Some(now)
        } else {
            None
        }
    }

    /// Holds the session length by `update` against that by the last
    /// snapshot and returns the event that reports it where it differs.
    pub fn update_time(&mut self, update: &RealtimeUpdate) -> (r: Option<SessionEvent>)
        ensures
            match r {
                Some(e) => old(self)@.time_event(update@) == Some(e@),
                None => old(self)@.time_event(update@) is None,
            },
            final(self)@ == old(self)@.update_time(update@),
    {
        let length = update.session_length();
        if self.realtime_update.session_length().eq_number(length) {
            None
        } else {
            self.realtime_update.session_time = update.session_time;
            self.realtime_update.session_end_time = update.session_end_time;
            let millis = length.ceil_to_u64();
            match update.session_type {
                RaceSessionType::Qualifying | RaceSessionType::Superpole => Some(
                    SessionEvent::QualiLength(millis),
                ),
                RaceSessionType::Race | RaceSessionType::Hotstint => Some(
                    SessionEvent::RaceLength(millis),
                ),
                _ => None,
            }
        }
    }

    /// Holds the name of `track` against the last track and returns the
    /// event that reports it where it differs.
    pub fn update_track_name(&mut self, track: &TrackData) -> (r: Option<SessionEvent>)
        ensures
            match r {
                Some(e) => old(self)@.track_event(track@) == Some(e@),
                None => old(self)@.track_event(track@) is None,
            },
            final(self)@ == old(self)@.update_track_name(track@),
    {
        if self.track_data.name == track.name {
            None
        } else {
            self.track_name = track.name.clone();
            Some(SessionEvent::TrackName(track.name.clone()))
        }
    }

    /// Takes the snapshot of a car in. Returns the result of a lap that it
    /// reports as completed and, where the lap is valid, the new running
    /// average.
    pub fn update_laps(&mut self, update: RealtimeCarUpdate) -> (r: Vec<SessionEvent>)
        ensures
            event_views(r@) == old(self)@.lap_events(update@),
            r@.len() == old(self)@.lap_events(update@).len(),
            final(self)@ == old(self)@.update_laps(update@),
    {
        let mut events: Vec<SessionEvent> = Vec::new();
        if update.car_index != self.car_id {
            assert(event_views(events@) =~= Seq::<SessionEventView>::empty());
            return events;
        }
        if update.laps > self.realtime_car_update.laps && update.laps >= 1 {
            match update.last_lap.laptime {
                Some(time) => {
                    if time >= 0 {
                        let millis = time as u64;
                        let result = LapTimeData {
                            number: update.laps as i32,
                            sectors: sectors(&update.last_lap.splits),
                            time: LapTime { millis },
                            valid: !update.last_lap.invalid,
                            lap_type: update.last_lap.lap_type,
                        };
                        events.push(SessionEvent::LapResult(result));
                        if !update.last_lap.invalid {
                            let average = average_with(
                                self.avg_lap_time.millis,
                                self.avg_lap_count,
                                millis,
                            );
                            if self.avg_lap_count < u32::MAX {
                                self.avg_lap_count = self.avg_lap_count + 1;
                            }
                            self.avg_lap_time = LapTime { millis: average };
                            events.push(SessionEvent::AvgLapTime(self.avg_lap_time));
                        }
                    }
                },
                None => {},
            }
        }
        self.realtime_car_update = update;
        assert(event_views(events@) =~= old(self)@.lap_events(update@));
        events
    }

    /// Takes a session-wide snapshot in. Returns the weather, where it
    /// changed, and the session length, where it changed.
    pub fn on_realtime_update(&mut self, update: RealtimeUpdate) -> (r: Vec<SessionEvent>)
        ensures
            event_views(r@) == old(self)@.realtime_events(update@),
            r@.len() == old(self)@.realtime_events(update@).len(),
            final(self)@ == old(self)@.on_realtime_update(update@),
    {
        let mut events: Vec<SessionEvent> = Vec::new();
        if let Some(weather) = self.update_weather(&update) {
            events.push(SessionEvent::Weather(weather));
        }
        if let Some(event) = self.update_time(&update) {
            events.push(event);
        }
        self.realtime_update = update;
        assert(event_views(events@) =~= old(self)@.realtime_events(update@));
        events
    }

    /// Takes the track in. Returns its name where it differs from that of
    /// the last track.
    pub fn on_track_data(&mut self, track: TrackData) -> (r: Vec<SessionEvent>)
        ensures
            event_views(r@) == maybe(old(self)@.track_event(track@)),
            r@.len() == maybe(old(self)@.track_event(track@)).len(),
            final(self)@ == old(self)@.on_track_data(track@),
    {
        let mut events: Vec<SessionEvent> = Vec::new();
        if let Some(event) = self.update_track_name(&track) {
            events.push(event);
        }
        self.track_data = track;
        assert(event_views(events@) =~= maybe(old(self)@.track_event(track@)));
        events
    }

    /// Takes a message of the simulator in and returns the facts that it
    /// brings about.
    pub fn apply(&mut self, msg: BroadcastInboundMessage) -> (r: Vec<SessionEvent>)
        ensures
            event_views(r@) == old(self)@.events(msg@),
            r@.len() == old(self)@.events(msg@).len(),
            final(self)@ == old(self)@.apply(msg@),
    {
        match msg {
            BroadcastInboundMessage::RealtimeUpdate(update) => self.on_realtime_update(update),
            BroadcastInboundMessage::RealtimeCarUpdate(update) => self.update_laps(update),
            BroadcastInboundMessage::TrackData(track) => self.on_track_data(track),
            _ => {
                let events: Vec<SessionEvent> = Vec::new();
                assert(event_views(events@) =~= Seq::<SessionEventView>::empty());
                events
            },
        }
    }
}

/// A snapshot that is fed in twice in a row reports the weather at most
/// once: the second time it brings about no weather event.
pub proof fn lemma_weather_reported_once(session: ConnectionSessionView, update: RealtimeUpdateView)
    ensures
        session.on_realtime_update(update).weather_event(update) is None,
{
}

/// A snapshot that is fed in twice in a row, with a session length that is
/// a number, brings about no event at all the second time.
pub proof fn lemma_same_snapshot_is_silent(
    session: ConnectionSessionView,
    update: RealtimeUpdateView,
)
    requires
        !update.session_length().is_nan(),
    ensures
        session.on_realtime_update(update).realtime_events(update)
            =~= Seq::<SessionEventView>::empty(),
{
}

/// A snapshot with the weather of the last one brings about no weather
/// event, whatever else it holds.
pub proof fn lemma_same_weather_is_silent(
    session: ConnectionSessionView,
    update: RealtimeUpdateView,
)
    requires
        Weather::of(update) == Weather::of(session.realtime_update),
    ensures
        session.weather_event(update) is None,
        session.update_weather(update) == session,
{
}

/// A lap count that does not go up brings about no event, whatever else the
/// snapshot holds, and leaves the running average as it is.
pub proof fn lemma_no_lap_without_increase(
    session: ConnectionSessionView,
    update: RealtimeCarUpdateView,
)
    requires
        update.laps <= session.realtime_car_update.laps,
    ensures
        session.lap_events(update) =~= Seq::<SessionEventView>::empty(),
        session.update_laps(update).avg_lap_count == session.avg_lap_count,
        session.update_laps(update).avg_lap_time == session.avg_lap_time,
{
}

/// The running average that is reported is the one that the session holds
/// afterwards, and it is reported exactly when a valid lap was completed;
/// then, and only then, the number of laps in the average moves.
pub proof fn lemma_average_follows_valid_laps(
    session: ConnectionSessionView,
    update: RealtimeCarUpdateView,
)
    requires
        update.car_index == session.car_id,
    ensures
        ({
            let events = session.lap_events(update);
            let after = session.update_laps(update);
            let valid = session.completed_lap(update) is Some && !update.last_lap.invalid;
            &&& events.len() == 2 <==> valid
            &&& valid ==> events[1] == SessionEventView::AvgLapTime(after.avg_lap_time)
            &&& valid ==> after.avg_lap_count == next_count(session.avg_lap_count)
            &&& !valid ==> after.avg_lap_count == session.avg_lap_count && after.avg_lap_time
                == session.avg_lap_time
            &&& after.realtime_car_update == update
        }),
{
}

/// The running average of laps that all took the same time is that time.
pub proof fn lemma_average_of_equal_laps(time: u64, count: u32)
    ensures
        next_average(time, count, time) == time,
{
    assert((time * count + time) / (count + 1) == time) by (nonlinear_arith)
        requires
            time >= 0,
            count >= 0,
    ;
}

/// The running average with one more lap in it lies between the average
/// before and the time of the lap.
pub proof fn lemma_average_lies_between(average: u64, count: u32, lap: u64)
    ensures
        average <= lap ==> average <= next_average(average, count, lap) <= lap,
        lap <= average ==> lap <= next_average(average, count, lap) <= average,
{
    let sum = average * count + lap;
    let laps = count + 1;
    let mean = sum / laps;
    assert(average <= lap ==> average <= mean <= lap) by (nonlinear_arith)
        requires
            sum == average * count + lap,
            laps == count + 1,
            mean == sum / laps,
            average >= 0,
            lap >= 0,
            count >= 0,
    ;
    assert(lap <= average ==> lap <= mean <= average) by (nonlinear_arith)
        requires
            sum == average * count + lap,
            laps == count + 1,
            mean == sum / laps,
            average >= 0,
            lap >= 0,
            count >= 0,
    ;
}

/// The snapshot of a car that the session does not follow changes nothing
/// and brings about nothing.
pub proof fn lemma_other_cars_are_ignored(
    session: ConnectionSessionView,
    update: RealtimeCarUpdateView,
)
    requires
        update.car_index != session.car_id,
    ensures
        session.lap_events(update) =~= Seq::<SessionEventView>::empty(),
        session.update_laps(update) == session,
{
}

} // verus!

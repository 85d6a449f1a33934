//! The session-wide snapshot that the simulator pushes at the interval asked
//! for at registration.
//!
//! Payload: event index and session index (`u16` each), session type and
//! phase (one byte each), session time and session end time (single
//! precision), focused car index (`i32`), three strings (camera set, camera,
//! HUD page), the replay flag, followed only if it is set by two
//! single-precision replay times, the time of day (single precision), five
//! weather bytes, and the best lap of the session.

use vstd::prelude::*;
use crate::telemetry::udp::data::{RaceSessionType, SessionPhase};
use crate::telemetry::udp::float::{
    bytes_float, float_at, le_float, lemma_float_at, put_le_float, Float32,
};
use crate::telemetry::udp::lapinfo::{
    bytes_lap, lemma_lap_round_trip, put_lap, read_lap, spec_read_lap, LapInfo, LapInfoView,
    LapType,
};
use crate::telemetry::udp::wire::{
    byte, bytes_i32, bytes_string, bytes_u16, i32_of_bits, le_i32, le_u16, lemma_append_assoc,
    lemma_i32_round_trip, lemma_skip_prefix, lemma_skip_skip, lemma_string_round_trip,
    lemma_u16_round_trip,
    parsed, put_le_i32, put_le_u16, put_string, read_string, spec_read_string, string_fits,
    u16_of, u32_of, ParseError, Parsed,
};

verus! {

/// The session-wide snapshot.
#[derive(Clone, Debug, PartialEq)]
pub struct RealtimeUpdate {
    pub event_index: u16,
    pub session_index: u16,
    pub session_type: RaceSessionType,
    pub phase: SessionPhase,
    /// Time into the session, in milliseconds.
    pub session_time: Float32,
    /// Time until the session ends, in milliseconds.
    pub session_end_time: Float32,
    pub focused_car_index: i32,
    pub active_camera_set: String,
    pub active_camera: String,
    pub current_hud_page: String,
    pub replay_playing: bool,
    /// Present on the wire only while a replay plays.
    pub replay_session_time: Option<Float32>,
    /// Present on the wire only while a replay plays.
    pub replay_remaining_time: Option<Float32>,
    pub time_of_day: Float32,
    pub ambient_temp: u8,
    pub track_temp: u8,
    pub clouds: u8,
    pub rain_level: u8,
    pub wetness: u8,
    pub best_session_lap: LapInfo,
}

/// A session-wide snapshot as a mathematical value.
pub struct RealtimeUpdateView {
    pub event_index: u16,
    pub session_index: u16,
    pub session_type: RaceSessionType,
    pub phase: SessionPhase,
    pub session_time: Float32,
    pub session_end_time: Float32,
    pub focused_car_index: i32,
    pub active_camera_set: Seq<char>,
    pub active_camera: Seq<char>,
    pub current_hud_page: Seq<char>,
    pub replay_playing: bool,
    pub replay_session_time: Option<Float32>,
    pub replay_remaining_time: Option<Float32>,
    pub time_of_day: Float32,
    pub ambient_temp: u8,
    pub track_temp: u8,
    pub clouds: u8,
    pub rain_level: u8,
    pub wetness: u8,
    pub best_session_lap: LapInfoView,
}

impl View for RealtimeUpdate {
    type V = RealtimeUpdateView;

    open spec fn view(&self) -> RealtimeUpdateView {
        RealtimeUpdateView {
            event_index: self.event_index,
            session_index: self.session_index,
            session_type: self.session_type,
            phase: self.phase,
            session_time: self.session_time,
            session_end_time: self.session_end_time,
            focused_car_index: self.focused_car_index,
            active_camera_set: self.active_camera_set@,
            active_camera: self.active_camera@,
            current_hud_page: self.current_hud_page@,
            replay_playing: self.replay_playing,
            replay_session_time: self.replay_session_time,
            replay_remaining_time: self.replay_remaining_time,
            time_of_day: self.time_of_day,
            ambient_temp: self.ambient_temp,
            track_temp: self.track_temp,
            clouds: self.clouds,
            rain_level: self.rain_level,
            wetness: self.wetness,
            best_session_lap: self.best_session_lap@,
        }
    }
}

impl RealtimeUpdateView {
    /// Whether the wire format can carry the snapshot: the strings fit their
    /// counts, the replay times are there exactly while a replay plays, and
    /// the lap fits.
    pub open spec fn fits(self) -> bool {
        &&& string_fits(self.active_camera_set)
        &&& string_fits(self.active_camera)
        &&& string_fits(self.current_hud_page)
        &&& (self.replay_session_time is Some <==> self.replay_playing)
        &&& (self.replay_remaining_time is Some <==> self.replay_playing)
        &&& self.best_session_lap.fits()
    }

    /// The length of the session by the snapshot, in milliseconds: the sum
    /// of the session end time and the session time, in single precision.
    pub open spec fn session_length(self) -> Float32 {
        self.session_end_time.sum(self.session_time)
    }

    /// The snapshot before anything was received.
    pub open spec fn initial() -> RealtimeUpdateView {
        RealtimeUpdateView {
            event_index: 0,
            session_index: 0,
            session_type: RaceSessionType::Practice,
            phase: SessionPhase::Unset,
            session_time: Float32 { bits: 0 },
            session_end_time: Float32 { bits: 0 },
            focused_car_index: 0,
            active_camera_set: Seq::empty(),
            active_camera: Seq::empty(),
            current_hud_page: Seq::empty(),
            replay_playing: false,
            replay_session_time: None,
            replay_remaining_time: None,
            time_of_day: Float32 { bits: 0 },
            ambient_temp: 0,
            track_temp: 0,
            clouds: 0,
            rain_level: 0,
            wetness: 0,
            best_session_lap: LapInfoView {
                lap_type: LapType::Error,
                laptime: None,
                car_index: 0,
                driver_index: 0,
                splits: Seq::empty(),
                invalid: false,
                valid_for_best: false,
            },
        }
    }
}

impl Default for RealtimeUpdate {
    /// The snapshot before anything was received.
    fn default() -> (r: RealtimeUpdate)
        ensures
            r@ == RealtimeUpdateView::initial(),
    {
        RealtimeUpdate {
            event_index: 0,
            session_index: 0,
            session_type: RaceSessionType::Practice,
            phase: SessionPhase::Unset,
            session_time: Float32 { bits: 0 },
            session_end_time: Float32 { bits: 0 },
            focused_car_index: 0,
            active_camera_set: String::new(),
            active_camera: String::new(),
            current_hud_page: String::new(),
            replay_playing: false,
            replay_session_time: None,
            replay_remaining_time: None,
            time_of_day: Float32 { bits: 0 },
            ambient_temp: 0,
            track_temp: 0,
            clouds: 0,
            rain_level: 0,
            wetness: 0,
            best_session_lap: LapInfo::default(),
        }
    }
}

/// The three strings of a snapshot: camera set, camera, HUD page.
pub open spec fn spec_read_names(input: Seq<u8>) -> Parsed<(Seq<char>, Seq<char>, Seq<char>)> {
    match spec_read_string(input) {
        Err(e) => Err(e),
        Ok((r1, camera_set)) => match spec_read_string(r1) {
            Err(e) => Err(e),
            Ok((r2, camera)) => match spec_read_string(r2) {
                Err(e) => Err(e),
                Ok((r3, hud_page)) => Ok((r3, (camera_set, camera, hud_page))),
            },
        },
    }
}

/// The replay part of a snapshot: the flag, and behind a flag that is set the
/// two replay times.
pub open spec fn spec_read_replay(input: Seq<u8>) -> Parsed<
    (bool, Option<Float32>, Option<Float32>),
> {
    if input.len() < 1 {
        Err(ParseError::Incomplete)
    } else if input[0] == 0 {
        Ok((input.skip(1), (false, None, None)))
    } else if input.len() < 9 {
        Err(ParseError::Incomplete)
    } else {
        Ok((input.skip(9), (true, Some(float_at(input, 1)), Some(float_at(input, 5)))))
    }
}

/// The bytes of the replay part: the flag, and behind a flag that is set the
/// two replay times, a missing one as zero.
pub open spec fn bytes_replay(
    playing: bool,
    session_time: Option<Float32>,
    remaining_time: Option<Float32>,
) -> Seq<u8> {
    if playing {
        seq![1u8] + bytes_float(
            match session_time {
                Some(t) => t,
                None => Float32 { bits: 0 },
            },
        ) + bytes_float(
            match remaining_time {
                Some(t) => t,
                None => Float32 { bits: 0 },
            },
        )
    } else {
        seq![0u8]
    }
}

impl RealtimeUpdate {
    /// The length of the session by the snapshot, in milliseconds: the sum
    /// of the session end time and the session time, in single precision.
    pub fn session_length(&self) -> (r: Float32)
        ensures
            r == self@.session_length(),
    {
        self.session_end_time.add(self.session_time)
    }

    /// The first eighteen bytes of the payload: what stands before the strings.
    pub open spec fn bytes_head(v: RealtimeUpdateView) -> Seq<u8> {
        bytes_u16(v.event_index) + bytes_u16(v.session_index) + seq![
            v.session_type.code(),
            v.phase.code(),
        ] + bytes_float(v.session_time) + bytes_float(v.session_end_time) + bytes_i32(
            v.focused_car_index,
        )
    }

    /// The nine bytes between the replay part and the lap: the time of day
    /// and the weather.
    pub open spec fn bytes_weather(v: RealtimeUpdateView) -> Seq<u8> {
        bytes_float(v.time_of_day) + seq![
            v.ambient_temp,
            v.track_temp,
            v.clouds,
            v.rain_level,
            v.wetness,
        ]
    }

    /// The payload of the snapshot.
    pub open spec fn spec_serialize(v: RealtimeUpdateView) -> Seq<u8> {
        Self::bytes_head(v) + bytes_string(v.active_camera_set) + bytes_string(v.active_camera)
            + bytes_string(v.current_hud_page) + bytes_replay(
            v.replay_playing,
            v.replay_session_time,
            v.replay_remaining_time,
        ) + Self::bytes_weather(v) + bytes_lap(v.best_session_lap)
    }

    /// The snapshot that a payload holds. A buffer that ends inside one of
    /// its numbers is incomplete; one that ends inside the text of a string is
    /// an error; a string that is not UTF-8 is a failure.
    ///
    /// The definition is opaque, to keep it out of proofs that do not need
    /// it: `reveal` it to unfold it.
    #[verifier::opaque]
    pub open spec fn spec_deserialize(input: Seq<u8>) -> Parsed<RealtimeUpdateView> {
        if input.len() < 18 {
            Err(ParseError::Incomplete)
        } else {
            match spec_read_names(input.skip(18)) {
                Err(e) => Err(e),
                Ok((r1, names)) => match spec_read_replay(r1) {
                    Err(e) => Err(e),
                    Ok((r2, replay)) => {
                        if r2.len() < 9 {
                            Err(ParseError::Incomplete)
                        } else {
                            match spec_read_lap(r2.skip(9)) {
                                Err(e) => Err(e),
                                Ok((r3, lap)) => Ok(
                                    (
                                        r3,
                                        RealtimeUpdateView {
                                            event_index: u16_of(input[0], input[1]),
                                            session_index: u16_of(input[2], input[3]),
                                            session_type: RaceSessionType::of_code(input[4]),
                                            phase: SessionPhase::of_code(input[5]),
                                            session_time: float_at(input, 6),
                                            session_end_time: float_at(input, 10),
                                            focused_car_index: i32_of_bits(
                                                u32_of(
                                                    input[14],
                                                    input[15],
                                                    input[16],
                                                    input[17],
                                                ),
                                            ),
                                            active_camera_set: names.0,
                                            active_camera: names.1,
                                            current_hud_page: names.2,
                                            replay_playing: replay.0,
                                            replay_session_time: replay.1,
                                            replay_remaining_time: replay.2,
                                            time_of_day: float_at(r2, 0),
                                            ambient_temp: r2[4],
                                            track_temp: r2[5],
                                            clouds: r2[6],
                                            rain_level: r2[7],
                                            wetness: r2[8],
                                            best_session_lap: lap,
                                        },
                                    ),
                                ),
                            }
                        }
                    },
                },
            }
        }
    }

    /// Appends the first eighteen bytes of the payload.
    fn put_head(&self, out: &mut Vec<u8>)
        ensures
            final(out)@ == old(out)@ + Self::bytes_head(self@),
    {
        put_le_u16(out, self.event_index);
        put_le_u16(out, self.session_index);
        out.push(self.session_type.to_primitive());
        out.push(self.phase.to_primitive());
        put_le_float(out, self.session_time);
        put_le_float(out, self.session_end_time);
        put_le_i32(out, self.focused_car_index);
        assert(out@ =~= old(out)@ + Self::bytes_head(self@));
    }

    /// Appends the replay part of the payload.
    fn put_replay(&self, out: &mut Vec<u8>)
        ensures
            final(out)@ == old(out)@ + bytes_replay(
                self.replay_playing,
                self.replay_session_time,
                self.replay_remaining_time,
            ),
    {
        if self.replay_playing {
            out.push(1);
            let session_time = match self.replay_session_time {
                Some(t) => t,
                None => Float32 { bits: 0 },
            };
            let remaining_time = match self.replay_remaining_time {
                Some(t) => t,
                None => Float32 { bits: 0 },
            };
            put_le_float(out, session_time);
            put_le_float(out, remaining_time);
        } else {
            out.push(0);
        }
        assert(out@ =~= old(out)@ + bytes_replay(
            self.replay_playing,
            self.replay_session_time,
            self.replay_remaining_time,
        ));
    }

    /// Appends the time of day and the weather.
    fn put_weather(&self, out: &mut Vec<u8>)
        ensures
            final(out)@ == old(out)@ + Self::bytes_weather(self@),
    {
        put_le_float(out, self.time_of_day);
        out.push(self.ambient_temp);
        out.push(self.track_temp);
        out.push(self.clouds);
        out.push(self.rain_level);
        out.push(self.wetness);
        assert(out@ =~= old(out)@ + Self::bytes_weather(self@));
    }

    /// Appends the payload of the snapshot.
    pub fn write(&self, out: &mut Vec<u8>)
        ensures
            final(out)@ == old(out)@ + Self::spec_serialize(self@),
    {
        let ghost start = out@;
        let ghost acc0 = Self::bytes_head(self@);
        let ghost acc1 = acc0 + bytes_string(self.active_camera_set@);
        let ghost acc2 = acc1 + bytes_string(self.active_camera@);
        let ghost acc3 = acc2 + bytes_string(self.current_hud_page@);
        let ghost acc4 = acc3 + bytes_replay(
            self.replay_playing,
            self.replay_session_time,
            self.replay_remaining_time,
        );
        let ghost acc5 = acc4 + Self::bytes_weather(self@);
        self.put_head(out);
        put_string(out, self.active_camera_set.as_str());
        proof {
            lemma_append_assoc(start, acc0, bytes_string(self.active_camera_set@));
        }
        put_string(out, self.active_camera.as_str());
        proof {
            lemma_append_assoc(start, acc1, bytes_string(self.active_camera@));
        }
        put_string(out, self.current_hud_page.as_str());
        proof {
            lemma_append_assoc(start, acc2, bytes_string(self.current_hud_page@));
        }
        self.put_replay(out);
        proof {
            lemma_append_assoc(
                start,
                acc3,
                bytes_replay(
                    self.replay_playing,
                    self.replay_session_time,
                    self.replay_remaining_time,
                ),
            );
        }
        self.put_weather(out);
        proof {
            lemma_append_assoc(start, acc4, Self::bytes_weather(self@));
        }
        put_lap(out, &self.best_session_lap);
        proof {
            lemma_append_assoc(start, acc5, bytes_lap(self.best_session_lap@));
        }
    }

    /// The payload of the snapshot.
    pub fn serialize(&self) -> (r: Vec<u8>)
        ensures
            r@ == Self::spec_serialize(self@),
    {
        let mut out: Vec<u8> = Vec::new();
        self.write(&mut out);
        assert(out@ =~= Self::spec_serialize(self@));
        out
    }

    /// Reads a snapshot off its payload and returns the bytes behind it.
    pub fn deserialize<'a>(input: &'a [u8]) -> (r: Result<(&'a [u8], RealtimeUpdate), ParseError>)
        ensures
            parsed(r, Self::spec_deserialize(input@)),
    {
        reveal(RealtimeUpdate::spec_deserialize);
        let (r0, head) = read_head(input)?;
        let (r1, names) = read_names(r0)?;
        let (r2, replay) = read_replay(r1)?;
        let (r3, weather) = read_weather(r2)?;
        let (r4, best_session_lap) = read_lap(r3)?;
        Ok(
            (
                r4,
                RealtimeUpdate {
                    event_index: head.event_index,
                    session_index: head.session_index,
                    session_type: RaceSessionType::from_primitive(head.session_type),
                    phase: SessionPhase::from_primitive(head.phase),
                    session_time: head.session_time,
                    session_end_time: head.session_end_time,
                    focused_car_index: head.focused_car_index,
                    active_camera_set: names.0.to_owned(),
                    active_camera: names.1.to_owned(),
                    current_hud_page: names.2.to_owned(),
                    replay_playing: replay.0,
                    replay_session_time: replay.1,
                    replay_remaining_time: replay.2,
                    time_of_day: weather.time_of_day,
                    ambient_temp: weather.ambient_temp,
                    track_temp: weather.track_temp,
                    clouds: weather.clouds,
                    rain_level: weather.rain_level,
                    wetness: weather.wetness,
                    best_session_lap,
                },
            ),
        )
    }
}

/// The three strings, written and read again, are the same strings.
pub proof fn lemma_names_round_trip(
    camera_set: Seq<char>,
    camera: Seq<char>,
    hud_page: Seq<char>,
    tail: Seq<u8>,
)
    requires
        string_fits(camera_set),
        string_fits(camera),
        string_fits(hud_page),
    ensures
        spec_read_names(
            bytes_string(camera_set) + (bytes_string(camera) + (bytes_string(hud_page) + tail)),
        ) == Ok::<(Seq<u8>, (Seq<char>, Seq<char>, Seq<char>)), ParseError>(
            (tail, (camera_set, camera, hud_page)),
        ),
{
    lemma_string_round_trip(camera_set, bytes_string(camera) + (bytes_string(hud_page) + tail));
    lemma_string_round_trip(camera, bytes_string(hud_page) + tail);
    lemma_string_round_trip(hud_page, tail);
}

/// The replay part, written and read again, is the same, where the replay
/// times are there exactly while a replay plays.
pub proof fn lemma_replay_round_trip(
    playing: bool,
    session_time: Option<Float32>,
    remaining_time: Option<Float32>,
    tail: Seq<u8>,
)
    requires
        session_time is Some <==> playing,
        remaining_time is Some <==> playing,
    ensures
        spec_read_replay(bytes_replay(playing, session_time, remaining_time) + tail) == Ok::<
            (Seq<u8>, (bool, Option<Float32>, Option<Float32>)),
            ParseError,
        >((tail, (playing, session_time, remaining_time))),
{
    let part = bytes_replay(playing, session_time, remaining_time);
    lemma_skip_prefix(part, tail);
    if playing {
        lemma_float_at(session_time->Some_0);
        lemma_float_at(remaining_time->Some_0);
        assert(part.len() == 9);
        assert(float_at(part + tail, 1) == session_time->Some_0);
        assert(float_at(part + tail, 5) == remaining_time->Some_0);
    }
}

/// Where the parts of a snapshot lie in a buffer.
proof fn lemma_layout(
    head: Seq<u8>,
    s1: Seq<u8>,
    s2: Seq<u8>,
    s3: Seq<u8>,
    replay: Seq<u8>,
    weather: Seq<u8>,
    lap: Seq<u8>,
    tail: Seq<u8>,
)
    ensures
        head + s1 + s2 + s3 + replay + weather + lap + tail == head + (s1 + (s2 + (s3 + (replay + (
            weather + (lap + tail)))))),
{
    assert(head + s1 + s2 + s3 + replay + weather + lap + tail =~= head + (s1 + (s2 + (s3 + (replay
        + (weather + (lap + tail)))))));
}

impl RealtimeUpdate {
    /// The first eighteen bytes give back what stands before the strings.
    proof fn lemma_head(v: RealtimeUpdateView)
        ensures
            ({
                let head = Self::bytes_head(v);
                &&& head.len() == 18
                &&& u16_of(head[0], head[1]) == v.event_index
                &&& u16_of(head[2], head[3]) == v.session_index
                &&& RaceSessionType::of_code(head[4]) == v.session_type
                &&& SessionPhase::of_code(head[5]) == v.phase
                &&& float_at(head, 6) == v.session_time
                &&& float_at(head, 10) == v.session_end_time
                &&& i32_of_bits(u32_of(head[14], head[15], head[16], head[17]))
                    == v.focused_car_index
            }),
    {
        lemma_u16_round_trip(v.event_index, Seq::empty());
        lemma_u16_round_trip(v.session_index, Seq::empty());
        lemma_float_at(v.session_time);
        lemma_float_at(v.session_end_time);
        lemma_i32_round_trip(v.focused_car_index, Seq::empty());
        v.session_type.lemma_code_round_trip();
        v.phase.lemma_code_round_trip();
    }

    /// The nine bytes of time of day and weather give both back.
    proof fn lemma_weather(v: RealtimeUpdateView)
        ensures
            ({
                let weather = Self::bytes_weather(v);
                &&& weather.len() == 9
                &&& float_at(weather, 0) == v.time_of_day
                &&& weather[4] == v.ambient_temp
                &&& weather[5] == v.track_temp
                &&& weather[6] == v.clouds
                &&& weather[7] == v.rain_level
                &&& weather[8] == v.wetness
            }),
    {
        lemma_float_at(v.time_of_day);
    }

    /// A snapshot that the wire format can carry, written and read again, is
    /// the same snapshot.
    #[verifier::rlimit(40)]
    pub proof fn lemma_round_trip(v: RealtimeUpdateView, tail: Seq<u8>)
        requires
            v.fits(),
        ensures
            Self::spec_deserialize(Self::spec_serialize(v) + tail) == Ok::<
                (Seq<u8>, RealtimeUpdateView),
                ParseError,
            >((tail, v)),
    {
        reveal(RealtimeUpdate::spec_deserialize);
        let head = Self::bytes_head(v);
        let s1 = bytes_string(v.active_camera_set);
        let s2 = bytes_string(v.active_camera);
        let s3 = bytes_string(v.current_hud_page);
        let replay = bytes_replay(v.replay_playing, v.replay_session_time, v.replay_remaining_time);
        let weather = Self::bytes_weather(v);
        let lap = bytes_lap(v.best_session_lap);
        let input = Self::spec_serialize(v) + tail;
        let t4 = weather + (lap + tail);
        let t3 = replay + t4;
        let t0 = s1 + (s2 + (s3 + t3));
        lemma_layout(head, s1, s2, s3, replay, weather, lap, tail);
        Self::lemma_head(v);
        lemma_skip_prefix(head, t0);
        lemma_names_round_trip(v.active_camera_set, v.active_camera, v.current_hud_page, t3);
        lemma_replay_round_trip(
            v.replay_playing,
            v.replay_session_time,
            v.replay_remaining_time,
            t4,
        );
        Self::lemma_weather(v);
        lemma_skip_prefix(weather, lap + tail);
        lemma_lap_round_trip(v.best_session_lap, tail);
        let read = Self::spec_deserialize(input);
        assert(input.skip(18) == t0);
        assert(spec_read_names(t0) is Ok);
        assert(spec_read_replay(t3) is Ok);
        assert(t4.skip(9) == lap + tail);
        assert(read is Ok);
        assert(read->Ok_0.0 == tail);
        assert(read->Ok_0.1.session_time == v.session_time);
        assert(read->Ok_0.1.session_end_time == v.session_end_time);
        assert(read->Ok_0.1.time_of_day == v.time_of_day);
        assert(read->Ok_0.1.best_session_lap == v.best_session_lap);
        assert(read->Ok_0.1 == v);
    }
}

/// What stands before the strings of a snapshot.
struct Head {
    event_index: u16,
    session_index: u16,
    session_type: u8,
    phase: u8,
    session_time: Float32,
    session_end_time: Float32,
    focused_car_index: i32,
}

/// What stands between the replay part and the lap of a snapshot.
struct Weather {
    time_of_day: Float32,
    ambient_temp: u8,
    track_temp: u8,
    clouds: u8,
    rain_level: u8,
    wetness: u8,
}

/// Reads the eighteen bytes before the strings.
fn read_head<'a>(input: &'a [u8]) -> (r: Result<(&'a [u8], Head), ParseError>)
    ensures
        input@.len() < 18 ==> r == Err::<(&[u8], Head), ParseError>(ParseError::Incomplete),
        input@.len() >= 18 ==> r is Ok && r->Ok_0.0@ == input@.skip(18) && r->Ok_0.1 == (Head {
            event_index: u16_of(input@[0], input@[1]),
            session_index: u16_of(input@[2], input@[3]),
            session_type: input@[4],
            phase: input@[5],
            session_time: float_at(input@, 6),
            session_end_time: float_at(input@, 10),
            focused_car_index: i32_of_bits(u32_of(input@[14], input@[15], input@[16], input@[17])),
        }),
{
    let (a1, event_index) = le_u16(input)?;
    let (a2, session_index) = le_u16(a1)?;
    proof {
        lemma_skip_skip(input@, 2, 2);
    }
    let (a3, session_type) = byte(a2)?;
    let (a4, phase) = byte(a3)?;
    proof {
        lemma_skip_skip(input@, 4, 1);
        lemma_skip_skip(input@, 5, 1);
    }
    let (a5, session_time) = le_float(a4)?;
    proof {
        lemma_skip_skip(input@, 6, 4);
    }
    let (a6, session_end_time) = le_float(a5)?;
    proof {
        lemma_skip_skip(input@, 10, 4);
    }
    let (a7, focused_car_index) = le_i32(a6)?;
    proof {
        lemma_skip_skip(input@, 14, 4);
    }
    Ok(
        (
            a7,
            Head {
                event_index,
                session_index,
                session_type,
                phase,
                session_time,
                session_end_time,
                focused_car_index,
            },
        ),
    )
}

/// Reads the three strings.
fn read_names<'a>(input: &'a [u8]) -> (r: Result<(&'a [u8], (&'a str, &'a str, &'a str)), ParseError>)
    ensures
        parsed(r, spec_read_names(input@)),
{
    let (b1, camera_set) = read_string(input)?;
    let (b2, camera) = read_string(b1)?;
    let (b3, hud_page) = read_string(b2)?;
    Ok((b3, (camera_set, camera, hud_page)))
}

/// Reads the replay part.
fn read_replay<'a>(input: &'a [u8]) -> (r: Result<
    (&'a [u8], (bool, Option<Float32>, Option<Float32>)),
    ParseError,
>)
    ensures
        parsed(r, spec_read_replay(input@)),
{
    let (c1, replay_flag) = byte(input)?;
    if replay_flag > 0 {
        let (c2, session) = le_float(c1)?;
        let (c3, remaining) = le_float(c2)?;
        proof {
            lemma_skip_skip(input@, 1, 4);
            lemma_skip_skip(input@, 5, 4);
        }
        Ok((c3, (true, Some(session), Some(remaining))))
    } else {
        Ok((c1, (false, None, None)))
    }
}

/// Reads the time of day and the weather.
fn read_weather<'a>(input: &'a [u8]) -> (r: Result<(&'a [u8], Weather), ParseError>)
    ensures
        input@.len() < 9 ==> r == Err::<(&[u8], Weather), ParseError>(ParseError::Incomplete),
        input@.len() >= 9 ==> r is Ok && r->Ok_0.0@ == input@.skip(9) && r->Ok_0.1 == (Weather {
            time_of_day: float_at(input@, 0),
            ambient_temp: input@[4],
            track_temp: input@[5],
            clouds: input@[6],
            rain_level: input@[7],
            wetness: input@[8],
        }),
{
    let (d1, time_of_day) = le_float(input)?;
    let (d2, ambient_temp) = byte(d1)?;
    let (d3, track_temp) = byte(d2)?;
    let (d4, clouds) = byte(d3)?;
    let (d5, rain_level) = byte(d4)?;
    let (d6, wetness) = byte(d5)?;
    proof {
        lemma_skip_skip(input@, 4, 1);
        lemma_skip_skip(input@, 5, 1);
        lemma_skip_skip(input@, 6, 1);
        lemma_skip_skip(input@, 7, 1);
        lemma_skip_skip(input@, 8, 1);
    }
    Ok((d6, Weather { time_of_day, ambient_temp, track_temp, clouds, rain_level, wetness }))
}

} // verus!

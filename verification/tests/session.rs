use vapor_telemetry::fuel_calculator::FuelMessage;
use vapor_telemetry::session::{
    average_with, sectors, ConnectionSession, LapTimeData, SessionEvent, Weather,
};
use vapor_telemetry::telemetry::udp::{
    BroadcastInboundMessage, BroadcastingCarEventType, BroadcastingEvent, EntryList, Float32,
    LapInfo, LapType, RaceSessionType, RealtimeCarUpdate, RealtimeUpdate, TrackData,
};
use vapor_telemetry::telemetry::LapTime;

fn float(value: f32) -> Float32 {
    Float32::from_bits(value.to_bits())
}

fn snapshot(session_type: RaceSessionType, time: f32, end: f32, ambient: u8) -> RealtimeUpdate {
    let mut update = RealtimeUpdate::default();
    update.session_type = session_type;
    update.session_time = float(time);
    update.session_end_time = float(end);
    update.ambient_temp = ambient;
    update.track_temp = 30;
    update
}

fn car(index: i16, laps: u16, time: Option<i32>, invalid: bool) -> RealtimeCarUpdate {
    let mut update = RealtimeCarUpdate::default();
    update.car_index = index;
    update.laps = laps;
    update.last_lap = LapInfo {
        lap_type: LapType::Regular,
        laptime: time,
        car_index: index as u16,
        driver_index: 0,
        splits: vec![Some(30_000), None, Some(25_000), Some(-1)],
        invalid,
        valid_for_best: !invalid,
    };
    update
}

#[test]
fn same_snapshot_twice_reports_the_weather_once() {
    let mut session = ConnectionSession::new(0);
    let update = snapshot(RaceSessionType::Practice, 10.0, 20.0, 21);
    let first = session.on_realtime_update(update.clone());
    assert_eq!(
        first,
        vec![SessionEvent::Weather(Weather {
            ambient_temp: 21,
            track_temp: 30,
            clouds: 0,
            rain_level: 0,
            wetness: 0
        })]
    );
    assert_eq!(session.weather.ambient_temp, 21);
    let second = session.on_realtime_update(update.clone());
    assert_eq!(second, vec![]);
    assert_eq!(session.realtime_update, update);
}

#[test]
fn each_weather_field_is_looked_at() {
    for field in 0..5 {
        let mut session = ConnectionSession::new(0);
        let mut update = RealtimeUpdate::default();
        match field {
            0 => update.ambient_temp = 1,
            1 => update.track_temp = 1,
            2 => update.clouds = 1,
            3 => update.rain_level = 1,
            _ => update.wetness = 1,
        }
        assert_eq!(session.update_weather(&update), Some(Weather::from_update(&update)));
        assert_eq!(session.weather, Weather::from_update(&update));
    }
    let mut session = ConnectionSession::new(0);
    assert_eq!(session.update_weather(&RealtimeUpdate::default()), None);
    assert_eq!(session.weather, Weather::default());
}

#[test]
fn session_length_goes_to_the_bucket_of_the_session_type() {
    let cases = [
        (RaceSessionType::Qualifying, Some(SessionEvent::QualiLength(600_000))),
        (RaceSessionType::Superpole, Some(SessionEvent::QualiLength(600_000))),
        (RaceSessionType::Race, Some(SessionEvent::RaceLength(600_000))),
        (RaceSessionType::Hotstint, Some(SessionEvent::RaceLength(600_000))),
        (RaceSessionType::Practice, None),
        (RaceSessionType::Hotlap, None),
        (RaceSessionType::HotlapSuperpole, None),
        (RaceSessionType::Replay, None),
        (RaceSessionType::Error, None),
    ];
    for (session_type, expected) in cases {
        let mut session = ConnectionSession::new(0);
        let update = snapshot(session_type, 1_000.25, 598_999.5, 0);
        assert_eq!(session.update_time(&update), expected, "{:?}", session_type);
        assert_eq!(session.realtime_update.session_time, update.session_time);
        assert_eq!(session.realtime_update.session_end_time, update.session_end_time);
        assert_eq!(session.update_time(&update), None);
    }
}

#[test]
fn session_length_is_the_sum_in_single_precision_rounded_up() {
    let update = snapshot(RaceSessionType::Race, 25253.5, 3574746.5, 0);
    assert_eq!(f32::from_bits(update.session_length().to_bits()), 25253.5f32 + 3574746.5f32);
    let mut session = ConnectionSession::new(0);
    assert_eq!(session.update_time(&update), Some(SessionEvent::RaceLength(3_600_000)));
    let update = snapshot(RaceSessionType::Race, 0.25, 1.5, 0);
    assert_eq!(session.update_time(&update), Some(SessionEvent::RaceLength(2)));
    let same_sum = snapshot(RaceSessionType::Race, 1.5, 0.25, 0);
    assert_eq!(session.update_time(&same_sum), None);
}

#[test]
fn track_name_is_reported_when_it_differs() {
    let mut session = ConnectionSession::new(0);
    let mut track = TrackData::default();
    track.name = "Monza".to_string();
    track.meters = 5793;
    assert_eq!(
        session.apply(BroadcastInboundMessage::TrackData(track.clone())),
        vec![SessionEvent::TrackName("Monza".to_string())]
    );
    assert_eq!(session.track_name, "Monza");
    assert_eq!(session.track_data, track);
    assert_eq!(session.apply(BroadcastInboundMessage::TrackData(track.clone())), vec![]);
    track.name = "Imola".to_string();
    assert_eq!(
        session.on_track_data(track),
        vec![SessionEvent::TrackName("Imola".to_string())]
    );
}

#[test]
fn three_valid_laps_average() {
    let mut session = ConnectionSession::new(5);
    let mut averages = Vec::new();
    for (lap, time) in [(1u16, 80_000), (2, 82_000), (3, 78_000)] {
        let events = session.update_laps(car(5, lap, Some(time), false));
        assert_eq!(events.len(), 2);
        assert_eq!(
            events[0],
            SessionEvent::LapResult(LapTimeData {
                number: lap as i32,
                sectors: vec![LapTime::from_millis(30_000), LapTime::from_millis(25_000)],
                time: LapTime::from_millis(time as u64),
                valid: true,
                lap_type: LapType::Regular,
            })
        );
        match &events[1] {
            SessionEvent::AvgLapTime(average) => averages.push(average.duration()),
            other => panic!("{:?}", other),
        }
    }
    assert_eq!(averages, vec![80_000, 81_000, 80_000]);
    assert_eq!(session.avg_lap_count, 3);
    assert_eq!(session.avg_lap_time, LapTime::from_millis(80_000));
}

#[test]
fn average_is_rounded_down() {
    assert_eq!(average_with(0, 0, 80_000), 80_000);
    assert_eq!(average_with(80_000, 1, 82_000), 81_000);
    assert_eq!(average_with(81_000, 2, 78_000), 80_000);
    assert_eq!(average_with(10, 2, 12), 10);
    assert_eq!(average_with(u64::MAX, u32::MAX, u64::MAX), u64::MAX);
}

#[test]
fn invalid_lap_is_reported_and_stays_out_of_the_average() {
    let mut session = ConnectionSession::new(5);
    session.update_laps(car(5, 1, Some(80_000), false));
    let events = session.update_laps(car(5, 2, Some(200_000), true));
    assert_eq!(events.len(), 1);
    match &events[0] {
        SessionEvent::LapResult(result) => {
            assert_eq!(result.number, 2);
            assert!(!result.valid);
            assert_eq!(result.time, LapTime::from_millis(200_000));
        }
        other => panic!("{:?}", other),
    }
    assert_eq!(session.avg_lap_count, 1);
    assert_eq!(session.avg_lap_time, LapTime::from_millis(80_000));
}

#[test]
fn lap_count_that_does_not_go_up_reports_nothing() {
    let mut session = ConnectionSession::new(5);
    session.update_laps(car(5, 3, Some(80_000), false));
    assert_eq!(session.update_laps(car(5, 3, Some(81_000), false)), vec![]);
    assert_eq!(session.update_laps(car(5, 1, Some(81_000), false)), vec![]);
    assert_eq!(session.realtime_car_update.laps, 1);
    assert_eq!(session.avg_lap_count, 1);
    assert_eq!(session.update_laps(car(5, 2, Some(90_000), false)).len(), 2);
    assert_eq!(session.avg_lap_time, LapTime::from_millis(85_000));
}

#[test]
fn lap_without_a_time_reports_nothing() {
    let mut session = ConnectionSession::new(5);
    assert_eq!(session.update_laps(car(5, 1, None, false)), vec![]);
    assert_eq!(session.update_laps(car(5, 2, Some(-1), false)), vec![]);
    assert_eq!(session.avg_lap_count, 0);
    assert_eq!(session.realtime_car_update.laps, 2);
}

#[test]
fn other_cars_are_ignored() {
    let mut session = ConnectionSession::new(5);
    let before = session.clone();
    assert_eq!(
        session.apply(BroadcastInboundMessage::RealtimeCarUpdate(car(6, 9, Some(1), false))),
        vec![]
    );
    assert_eq!(session, before);
}

#[test]
fn messages_without_a_fact_change_nothing() {
    let mut session = ConnectionSession::new(5);
    let before = session.clone();
    let messages = vec![
        BroadcastInboundMessage::EntryList(EntryList { connection_id: 1, cars: vec![1] }),
        BroadcastInboundMessage::BroadcastingEvent(BroadcastingEvent {
            event_type: BroadcastingCarEventType::Accident,
            msg: "x".to_string(),
            time_ms: 1,
            car_id: 5,
        }),
    ];
    for message in messages {
        assert_eq!(session.apply(message), vec![]);
        assert_eq!(session, before);
    }
}

#[test]
fn reset_starts_the_session_anew() {
    let mut session = ConnectionSession::new(5);
    session.connection_id = 77;
    session.on_realtime_update(snapshot(RaceSessionType::Race, 1.0, 2.0, 25));
    session.update_laps(car(5, 1, Some(80_000), false));
    session.reset();
    let mut fresh = ConnectionSession::new(5);
    fresh.connection_id = 77;
    assert_eq!(session, fresh);
}

#[test]
fn sectors_are_the_splits_that_have_a_time() {
    assert_eq!(sectors(&vec![]), vec![]);
    assert_eq!(sectors(&vec![None, None]), vec![]);
    assert_eq!(
        sectors(&vec![Some(1), None, Some(0), Some(-5), Some(i32::MAX)]),
        vec![
            LapTime::from_millis(1),
            LapTime::from_millis(0),
            LapTime::from_millis(i32::MAX as u64)
        ]
    );
}

#[test]
fn events_name_what_the_fuel_estimate_takes() {
    assert_eq!(
        SessionEvent::RaceLength(5).fuel_message(),
        Some(FuelMessage::RaceLength(5))
    );
    assert_eq!(
        SessionEvent::QualiLength(6).fuel_message(),
        Some(FuelMessage::QualiLength(6))
    );
    assert_eq!(
        SessionEvent::AvgLapTime(LapTime::from_millis(7)).fuel_message(),
        Some(FuelMessage::AvgLapTime(LapTime::from_millis(7)))
    );
    assert_eq!(SessionEvent::TrackName("x".to_string()).fuel_message(), None);
    assert_eq!(SessionEvent::Weather(Weather::default()).fuel_message(), None);
}

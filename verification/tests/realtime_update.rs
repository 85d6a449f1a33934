use vapor_telemetry::telemetry::udp::{
    Float32, LapInfo, LapType, ParseError, RaceSessionType, RealtimeUpdate, SessionPhase,
};

fn float(value: f32) -> Float32 {
    Float32::from_bits(value.to_bits())
}

fn sample() -> RealtimeUpdate {
    RealtimeUpdate {
        event_index: 0,
        session_index: 0,
        session_type: RaceSessionType::Practice,
        phase: SessionPhase::Session,
        session_time: float(25253.5),
        session_end_time: float(3574746.5),
        focused_car_index: 0,
        active_camera_set: "Drivable".to_string(),
        active_camera: "Cockpit".to_string(),
        current_hud_page: "Basic HUD".to_string(),
        replay_playing: false,
        replay_session_time: None,
        replay_remaining_time: None,
        time_of_day: float(50425.273),
        ambient_temp: 27,
        track_temp: 37,
        clouds: 0,
        rain_level: 0,
        wetness: 0,
        best_session_lap: LapInfo {
            lap_type: LapType::Regular,
            laptime: None,
            car_index: 0,
            driver_index: 0,
            splits: vec![None, None, None],
            invalid: false,
            valid_for_best: true,
        },
    }
}

#[test]
fn test_realtime_update_deserialize() {
    let buf = [
        0, 0, 0, 0, 0, 5, 0, 75, 197, 70, 106, 47, 90, 74, 0, 0, 0, 0, 8, 0, 68, 114, 105, 118, 97,
        98, 108, 101, 7, 0, 67, 111, 99, 107, 112, 105, 116, 9, 0, 66, 97, 115, 105, 99, 32, 72,
        85, 68, 0, 70, 249, 68, 71, 27, 37, 0, 0, 0, 255, 255, 255, 127, 0, 0, 0, 0, 3, 255, 255,
        255, 127, 255, 255, 255, 127, 255, 255, 255, 127, 0, 1, 0, 0, 0, 0, 0, 0,
    ];

    let update = sample();

    let (_input, parsed) = RealtimeUpdate::deserialize(&buf[..]).unwrap();

    assert_eq!(update, parsed)
}

#[test]
fn realtime_update_single_precision_fields_keep_their_value() {
    let buf = sample().serialize();
    let (_rest, parsed) = RealtimeUpdate::deserialize(&buf).unwrap();
    assert_eq!(f32::from_bits(parsed.session_time.to_bits()), 25253.5);
    assert_eq!(f32::from_bits(parsed.session_end_time.to_bits()), 3574746.5);
    assert_eq!(f32::from_bits(parsed.time_of_day.to_bits()), 50425.273);
}

#[test]
fn realtime_update_round_trips() {
    let update = sample();
    let bytes = update.serialize();
    assert_eq!(bytes.len(), 18 + 10 + 9 + 11 + 1 + 9 + 25);
    let (rest, parsed) = RealtimeUpdate::deserialize(&bytes).unwrap();
    assert!(rest.is_empty());
    assert_eq!(parsed, update);
}

#[test]
fn realtime_update_with_replay_round_trips() {
    let mut update = sample();
    update.replay_playing = true;
    update.replay_session_time = Some(float(12.5));
    update.replay_remaining_time = Some(float(-3.25));
    update.session_type = RaceSessionType::Hotstint;
    update.phase = SessionPhase::PostSession;
    update.focused_car_index = -17;
    update.best_session_lap.laptime = Some(91_234);
    update.best_session_lap.splits = vec![Some(30_000), Some(30_500), None];
    let bytes = update.serialize();
    assert_eq!(bytes.len(), 18 + 10 + 9 + 11 + 9 + 9 + 25);
    let (rest, parsed) = RealtimeUpdate::deserialize(&bytes).unwrap();
    assert!(rest.is_empty());
    assert_eq!(parsed, update);
}

#[test]
fn realtime_update_cut_short_is_incomplete_but_in_its_text() {
    let bytes = sample().serialize();
    for cut in 0..bytes.len() {
        // the three strings: counts at 18, 28 and 37, text behind each count
        let in_text = (20..28).contains(&cut) || (30..37).contains(&cut) || (39..48).contains(&cut);
        let expected = if in_text { ParseError::Error } else { ParseError::Incomplete };
        assert_eq!(
            RealtimeUpdate::deserialize(&bytes[..cut]).unwrap_err(),
            expected,
            "cut at {}",
            cut
        );
    }
}

#[test]
fn realtime_update_with_text_that_is_not_utf8_is_a_failure() {
    let mut bytes = sample().serialize();
    bytes[20] = 0xff;
    assert_eq!(RealtimeUpdate::deserialize(&bytes).unwrap_err(), ParseError::Failure);
}

#[test]
fn realtime_update_default_is_empty() {
    let update = RealtimeUpdate::default();
    assert_eq!(update.session_type, RaceSessionType::Practice);
    assert_eq!(update.session_time.to_bits(), 0);
    assert_eq!(update.active_camera, "");
    assert_eq!(update.best_session_lap.splits, vec![]);
    assert_eq!(update.best_session_lap.lap_type, LapType::Error);
}

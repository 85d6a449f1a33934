use vapor_telemetry::telemetry::udp::{
    BroadcastingCarEventType, BroadcastingEvent, CameraSet, CarInfo, CarLocation, Driver,
    DriverCategory, EntryList, Float32, InboundMessageTypes, LapInfo, LapType, Nationality,
    OutboundMessageTypes, ParseError, RaceSessionType, RealtimeCarUpdate, RegisterConnection,
    RegistrationResult, RequestEntryList, RequestTrackData, SessionPhase, TrackData,
};

fn lap(time: Option<i32>) -> LapInfo {
    LapInfo {
        lap_type: LapType::Regular,
        laptime: time,
        car_index: 3,
        driver_index: 1,
        splits: vec![Some(1), None, Some(3)],
        invalid: false,
        valid_for_best: true,
    }
}

fn driver(name: &str) -> Driver {
    Driver {
        first_name: name.to_string(),
        last_name: "M\u{00fc}ller".to_string(),
        short_name: "MUE".to_string(),
        category: DriverCategory::Gold,
        nationality: Nationality::Germany,
    }
}

#[test]
fn registration_result_is_read_off_its_payload() {
    let payload = [7, 0, 0, 0, 1, 0, 2, 0, b'o', b'k', 99];
    let (rest, result) = RegistrationResult::deserialize(&payload).unwrap();
    assert_eq!(rest, &[99u8][..]);
    assert_eq!(result.id, 7);
    assert!(result.connection_success);
    assert!(result.read_only);
    assert_eq!(result.err_msg, "ok");
}

#[test]
fn registration_result_round_trips() {
    for (success, read_only) in [(true, true), (true, false), (false, true), (false, false)] {
        let result = RegistrationResult {
            id: -5,
            connection_success: success,
            read_only,
            err_msg: "Falsches Passwort \u{2620}".to_string(),
        };
        let bytes = result.serialize();
        assert_eq!(bytes[4], success as u8);
        assert_eq!(bytes[5], !read_only as u8);
        let (rest, parsed) = RegistrationResult::deserialize(&bytes).unwrap();
        assert!(rest.is_empty());
        assert_eq!(parsed, result);
    }
}

#[test]
fn registration_result_cut_short_is_incomplete() {
    assert_eq!(RegistrationResult::deserialize(&[]).unwrap_err(), ParseError::Incomplete);
    assert_eq!(RegistrationResult::deserialize(&[1, 0, 0]).unwrap_err(), ParseError::Incomplete);
    assert_eq!(
        RegistrationResult::deserialize(&[1, 0, 0, 0, 1]).unwrap_err(),
        ParseError::Incomplete
    );
    assert_eq!(
        RegistrationResult::deserialize(&[1, 0, 0, 0, 1, 1, 4]).unwrap_err(),
        ParseError::Incomplete
    );
}

#[test]
fn registration_result_with_less_text_than_counted_is_an_error() {
    assert_eq!(
        RegistrationResult::deserialize(&[1, 0, 0, 0, 1, 1, 4, 0, b'a']).unwrap_err(),
        ParseError::Error
    );
    assert_eq!(
        RegistrationResult::deserialize(&[1, 0, 0, 0, 1, 1, 4, 0]).unwrap_err(),
        ParseError::Error
    );
}

#[test]
fn register_connection_payload_is_byte_exact() {
    let request = RegisterConnection {
        display_name: "Vapor".to_string(),
        connection_password: "asd".to_string(),
        ms_realtime_update_interval: 250,
        command_password: "".to_string(),
    };
    let bytes = request.serialize();
    assert_eq!(
        bytes,
        vec![
            4, 5, 0, b'V', b'a', b'p', b'o', b'r', 3, 0, b'a', b's', b'd', 250, 0, 0, 0, 0, 0
        ]
    );
    let (rest, parsed) = RegisterConnection::deserialize(&bytes).unwrap();
    assert!(rest.is_empty());
    assert_eq!(parsed, request);
}

#[test]
fn requests_carry_the_connection_id() {
    let entry = RequestEntryList::new(0x0102_0304);
    assert_eq!(entry.serialize(), vec![4, 3, 2, 1]);
    assert_eq!(RequestEntryList::deserialize(&[4, 3, 2, 1]).unwrap().1, entry);
    let track = RequestTrackData::new(-1);
    assert_eq!(track.serialize(), vec![255, 255, 255, 255]);
    assert_eq!(RequestTrackData::deserialize(&[255, 255, 255, 255, 0]).unwrap().1, track);
    assert_eq!(RequestTrackData::deserialize(&[1, 2]).unwrap_err(), ParseError::Incomplete);
}

#[test]
fn realtime_car_update_round_trips() {
    let update = RealtimeCarUpdate {
        car_index: -2,
        driver_index: 1,
        driver_count: 3,
        gear: 5,
        world_pos_x: Float32::from_bits(1.5f32.to_bits()),
        world_pos_y: Float32::from_bits((-200.25f32).to_bits()),
        yaw: Float32::from_bits(f32::NAN.to_bits()),
        car_location: CarLocation::Pitlane,
        kmh: 287,
        position: 4,
        cup_position: 2,
        track_position: 9,
        spline_position: Float32::from_bits(0.75f32.to_bits()),
        laps: 12,
        delta: -345,
        best_session_lap: lap(Some(90_000)),
        last_lap: lap(Some(91_000)),
        current_lap: lap(None),
    };
    let bytes = update.serialize();
    assert_eq!(bytes.len(), 37 + 3 * 25);
    assert_eq!(&bytes[0..2], &(-2i16).to_le_bytes()[..]);
    assert_eq!(&bytes[6..10], &1.5f32.to_le_bytes()[..]);
    assert_eq!(bytes[18], 2);
    assert_eq!(&bytes[31..33], &12u16.to_le_bytes()[..]);
    let (rest, parsed) = RealtimeCarUpdate::deserialize(&bytes).unwrap();
    assert!(rest.is_empty());
    assert_eq!(parsed, update);
    for cut in 0..bytes.len() {
        assert_eq!(
            RealtimeCarUpdate::deserialize(&bytes[..cut]).unwrap_err(),
            ParseError::Incomplete
        );
    }
}

#[test]
fn broadcasting_event_round_trips() {
    let event = BroadcastingEvent {
        event_type: BroadcastingCarEventType::Accident,
        msg: "car 12".to_string(),
        time_ms: 123_456,
        car_id: 12,
    };
    let bytes = event.serialize();
    assert_eq!(bytes[0], 4);
    let (rest, parsed) = BroadcastingEvent::deserialize(&bytes).unwrap();
    assert!(rest.is_empty());
    assert_eq!(parsed, event);
}

#[test]
fn broadcasting_event_cut_short_is_incomplete_but_in_its_text() {
    let event = BroadcastingEvent {
        event_type: BroadcastingCarEventType::LapCompleted,
        msg: "x".to_string(),
        time_ms: 1,
        car_id: 2,
    };
    let bytes = event.serialize();
    assert_eq!(BroadcastingEvent::deserialize(&[]).unwrap_err(), ParseError::Incomplete);
    assert_eq!(BroadcastingEvent::deserialize(&bytes[..1]).unwrap_err(), ParseError::Incomplete);
    assert_eq!(BroadcastingEvent::deserialize(&bytes[..2]).unwrap_err(), ParseError::Incomplete);
    assert_eq!(BroadcastingEvent::deserialize(&bytes[..3]).unwrap_err(), ParseError::Error);
    assert_eq!(BroadcastingEvent::deserialize(&bytes[..4]).unwrap_err(), ParseError::Incomplete);
    assert_eq!(BroadcastingEvent::deserialize(&bytes[..6]).unwrap_err(), ParseError::Incomplete);
    assert_eq!(
        BroadcastingEvent::deserialize(&bytes[..bytes.len() - 1]).unwrap_err(),
        ParseError::Incomplete
    );
}

#[test]
fn entry_list_round_trips() {
    let list = EntryList { connection_id: 9, cars: vec![0, 1, 2, 1000, 65_535] };
    let bytes = list.serialize();
    assert_eq!(&bytes[0..6], &[9u8, 0, 0, 0, 5, 0][..]);
    assert_eq!(bytes.len(), 6 + 10);
    let (rest, parsed) = EntryList::deserialize(&bytes).unwrap();
    assert!(rest.is_empty());
    assert_eq!(parsed, list);
    assert_eq!(EntryList::deserialize(&bytes[..7]).unwrap_err(), ParseError::Incomplete);
    assert_eq!(EntryList::deserialize(&bytes[..3]).unwrap_err(), ParseError::Incomplete);
    let empty = EntryList::default();
    assert_eq!(EntryList::deserialize(&empty.serialize()).unwrap().1, empty);
}

#[test]
fn car_info_round_trips() {
    let car = CarInfo {
        id: 17,
        model_type: 31,
        team_name: "Scuderia \u{00c9}clair".to_string(),
        race_number: 991,
        cup_category: DriverCategory::Silver,
        current_driver_id: 1,
        nationality: Nationality::Italy,
        drivers: vec![driver("Anna"), driver("Bernd"), driver("")],
    };
    let bytes = car.serialize();
    let (rest, parsed) = CarInfo::deserialize(&bytes).unwrap();
    assert!(rest.is_empty());
    assert_eq!(parsed, car);
    let one = driver("Carla");
    let one_bytes = one.serialize();
    let (rest, parsed) = Driver::deserialize(&one_bytes).unwrap();
    assert!(rest.is_empty());
    assert_eq!(parsed, one);
}

#[test]
fn car_info_cut_short_is_incomplete_in_a_number_and_an_error_in_a_string() {
    let car = CarInfo {
        id: 1,
        model_type: 2,
        team_name: "T".to_string(),
        race_number: 3,
        cup_category: DriverCategory::Bronze,
        current_driver_id: 0,
        nationality: Nationality::Any,
        drivers: vec![driver("A")],
    };
    let bytes = car.serialize();
    assert_eq!(bytes.len(), 35);
    assert_eq!(CarInfo::deserialize(&bytes[..2]).unwrap_err(), ParseError::Incomplete);
    assert_eq!(CarInfo::deserialize(&bytes[..4]).unwrap_err(), ParseError::Incomplete);
    assert_eq!(CarInfo::deserialize(&bytes[..5]).unwrap_err(), ParseError::Error);
    assert_eq!(CarInfo::deserialize(&bytes[..10]).unwrap_err(), ParseError::Incomplete);
    assert_eq!(CarInfo::deserialize(&bytes[..16]).unwrap_err(), ParseError::Incomplete);
    assert_eq!(CarInfo::deserialize(&bytes[..17]).unwrap_err(), ParseError::Error);
    assert_eq!(CarInfo::deserialize(&bytes[..21]).unwrap_err(), ParseError::Error);
    assert_eq!(CarInfo::deserialize(&bytes[..32]).unwrap_err(), ParseError::Incomplete);
    assert_eq!(
        CarInfo::deserialize(&bytes[..bytes.len() - 1]).unwrap_err(),
        ParseError::Incomplete
    );
}

#[test]
fn track_data_round_trips() {
    let track = TrackData {
        name: "N\u{00fc}rburgring".to_string(),
        id: 12,
        meters: 5137,
        camera_sets: vec![
            CameraSet {
                name: "Drivable".to_string(),
                cameras: vec!["Cockpit".to_string(), "Bonnet".to_string()],
            },
            CameraSet { name: "set2".to_string(), cameras: vec![] },
        ],
        hud_pages: vec!["Basic HUD".to_string(), "Help".to_string()],
    };
    let bytes = track.serialize();
    assert_eq!(&bytes[0..4], &[0u8, 0, 0, 0][..]);
    let (rest, parsed) = TrackData::deserialize(&bytes).unwrap();
    assert!(rest.is_empty());
    assert_eq!(parsed, track);
    assert_eq!(TrackData::deserialize(&bytes[..2]).unwrap_err(), ParseError::Incomplete);
    assert_eq!(
        TrackData::deserialize(&bytes[..bytes.len() - 1]).unwrap_err(),
        ParseError::Error
    );
}

#[test]
fn track_data_keeps_the_last_camera_set_of_a_name() {
    let mut bytes = vec![5, 0, 0, 0];
    bytes.extend([1, 0, b't']);
    bytes.extend(1i32.to_le_bytes());
    bytes.extend(2i32.to_le_bytes());
    bytes.push(3);
    bytes.extend([1, 0, b'a', 1, 1, 0, b'x']);
    bytes.extend([1, 0, b'b', 0]);
    bytes.extend([1, 0, b'a', 1, 1, 0, b'y']);
    bytes.push(0);
    let (rest, track) = TrackData::deserialize(&bytes).unwrap();
    assert!(rest.is_empty());
    assert_eq!(
        track.camera_sets,
        vec![
            CameraSet { name: "a".to_string(), cameras: vec!["y".to_string()] },
            CameraSet { name: "b".to_string(), cameras: vec![] },
        ]
    );
}

#[test]
fn every_code_reads_and_every_variant_keeps_its_code() {
    for code in 0..=255u8 {
        assert_eq!(
            RaceSessionType::from_primitive(RaceSessionType::from_primitive(code).to_primitive()),
            RaceSessionType::from_primitive(code)
        );
        assert_eq!(
            SessionPhase::from_primitive(SessionPhase::from_primitive(code).to_primitive()),
            SessionPhase::from_primitive(code)
        );
        assert_eq!(
            InboundMessageTypes::from_primitive(
                InboundMessageTypes::from_primitive(code).to_primitive()
            ),
            InboundMessageTypes::from_primitive(code)
        );
        assert_eq!(
            OutboundMessageTypes::from_primitive(
                OutboundMessageTypes::from_primitive(code).to_primitive()
            ),
            OutboundMessageTypes::from_primitive(code)
        );
    }
    assert_eq!(RaceSessionType::from_primitive(4), RaceSessionType::Qualifying);
    assert_eq!(RaceSessionType::from_primitive(9), RaceSessionType::Superpole);
    assert_eq!(RaceSessionType::from_primitive(10), RaceSessionType::Race);
    assert_eq!(RaceSessionType::from_primitive(12), RaceSessionType::Hotstint);
    assert_eq!(RaceSessionType::from_primitive(77), RaceSessionType::Error);
    assert_eq!(SessionPhase::from_primitive(5), SessionPhase::Session);
    assert_eq!(InboundMessageTypes::from_primitive(1), InboundMessageTypes::RegistrationResult);
    assert_eq!(InboundMessageTypes::from_primitive(2), InboundMessageTypes::RealtimeUpdate);
    assert_eq!(InboundMessageTypes::from_primitive(3), InboundMessageTypes::RealtimeCarUpdate);
    assert_eq!(InboundMessageTypes::from_primitive(4), InboundMessageTypes::EntryList);
    assert_eq!(InboundMessageTypes::from_primitive(5), InboundMessageTypes::TrackData);
    assert_eq!(InboundMessageTypes::from_primitive(6), InboundMessageTypes::EntryListCar);
    assert_eq!(InboundMessageTypes::from_primitive(7), InboundMessageTypes::BroadcastingEvent);
    assert_eq!(InboundMessageTypes::from_primitive(0), InboundMessageTypes::Error);
    assert_eq!(InboundMessageTypes::from_primitive(8), InboundMessageTypes::Error);
    assert_eq!(OutboundMessageTypes::RegisterCommandApplication.to_primitive(), 1);
    assert_eq!(OutboundMessageTypes::UnregisterCommandApplication.to_primitive(), 9);
    assert_eq!(OutboundMessageTypes::RequestEntryList.to_primitive(), 10);
    assert_eq!(OutboundMessageTypes::RequestTrackData.to_primitive(), 11);
    for code in [0u16, 1, 2, 77, 78, 4000, 65_535] {
        assert_eq!(
            Nationality::from_primitive(Nationality::from_primitive(code).to_primitive()),
            Nationality::from_primitive(code)
        );
    }
    assert_eq!(Nationality::from_primitive(2), Nationality::Germany);
    assert_eq!(Nationality::from_primitive(78), Nationality::Error);
}

fn payload_round_trips<T>(message: T) -> InboundMessageTypes
where
    T: vapor_telemetry::telemetry::udp::BroadcastNetworkProtocolInbound
        + PartialEq
        + std::fmt::Debug,
{
    let payload = T::serialize(&message);
    let (rest, parsed) = T::deserialize(&payload).unwrap();
    assert!(rest.is_empty());
    assert_eq!(parsed, message);
    T::message_type()
}

#[test]
fn every_inbound_message_round_trips_through_the_protocol() {
    assert_eq!(
        payload_round_trips(RegistrationResult {
            id: 1,
            connection_success: true,
            read_only: true,
            err_msg: "".to_string(),
        }),
        InboundMessageTypes::RegistrationResult
    );
    assert_eq!(
        payload_round_trips(EntryList { connection_id: 1, cars: vec![7] }),
        InboundMessageTypes::EntryList
    );
    assert_eq!(
        payload_round_trips(TrackData {
            name: "Kyalami".to_string(),
            id: 1,
            meters: 4522,
            camera_sets: vec![],
            hud_pages: vec![],
        }),
        InboundMessageTypes::TrackData
    );
    assert_eq!(
        payload_round_trips(BroadcastingEvent {
            event_type: BroadcastingCarEventType::BestSessionLap,
            msg: "1:43.210".to_string(),
            time_ms: 103_210,
            car_id: 3,
        }),
        InboundMessageTypes::BroadcastingEvent
    );
    let mut snapshot = vapor_telemetry::telemetry::udp::RealtimeUpdate::default();
    snapshot.best_session_lap = lap(Some(1));
    snapshot.phase = SessionPhase::Session;
    snapshot.session_type = RaceSessionType::Race;
    assert_eq!(payload_round_trips(snapshot), InboundMessageTypes::RealtimeUpdate);
    let mut car = RealtimeCarUpdate::default();
    car.best_session_lap = lap(None);
    car.last_lap = lap(Some(2));
    car.current_lap = lap(Some(i32::MIN));
    car.car_location = CarLocation::Track;
    assert_eq!(payload_round_trips(car), InboundMessageTypes::RealtimeCarUpdate);
}

use vapor_telemetry::telemetry::udp::message::BroadcastOutboundMessage as Outbound;
use vapor_telemetry::telemetry::udp::{
    disconnect, BroadcastCodec, BroadcastDebugger, BroadcastInboundMessage,
    BroadcastingCarEventType,
    BroadcastingEvent, EntryList, FramedError, ParseError, RegisterConnection,
    RegistrationResult, RequestEntryList, RequestTrackData, TrackData,
};

fn registration_datagram(success: bool) -> Vec<u8> {
    BroadcastInboundMessage::RegistrationResult(RegistrationResult {
        id: 3,
        connection_success: success,
        read_only: false,
        err_msg: "".to_string(),
    })
    .serialize()
}

#[test]
fn decoding_yields_the_message_and_empties_the_buffer() {
    let mut codec = BroadcastCodec::new();
    let mut buffer = registration_datagram(true);
    assert_eq!(buffer, vec![1, 3, 0, 0, 0, 1, 1, 0, 0]);
    let message = codec.decode(&mut buffer).unwrap().unwrap();
    assert!(buffer.is_empty());
    match message {
        BroadcastInboundMessage::RegistrationResult(result) => {
            assert_eq!(result.id, 3);
            assert!(result.connection_success);
            assert!(!result.read_only);
        }
        other => panic!("{:?}", other),
    }
}

#[test]
fn datagram_of_an_unknown_kind_yields_nothing() {
    let mut codec = BroadcastCodec::new();
    for kind in [0u8, 8, 9, 200, 255] {
        let mut buffer = vec![kind, 1, 2, 3];
        assert_eq!(codec.decode(&mut buffer), Ok(None));
        assert_eq!(buffer, vec![kind, 1, 2, 3]);
    }
}

#[test]
fn incomplete_datagram_yields_nothing_and_stays() {
    let mut codec = BroadcastCodec::new();
    let whole = BroadcastInboundMessage::EntryList(EntryList { connection_id: 1, cars: vec![4, 5] })
        .serialize();
    let mut buffer = whole[..whole.len() - 1].to_vec();
    let kept = buffer.clone();
    assert_eq!(codec.decode(&mut buffer), Ok(None));
    assert_eq!(buffer, kept);
    let mut buffer = whole.clone();
    assert_eq!(
        codec.decode(&mut buffer),
        Ok(Some(BroadcastInboundMessage::EntryList(EntryList {
            connection_id: 1,
            cars: vec![4, 5]
        })))
    );
    assert!(buffer.is_empty());
}

#[test]
fn datagram_that_needs_more_bytes_yields_nothing_and_stays() {
    let mut codec = BroadcastCodec::new();
    let mut buffer = vec![1, 7, 0];
    assert_eq!(codec.decode(&mut buffer), Ok(None));
    assert_eq!(buffer, vec![1, 7, 0]);
    let mut empty = Vec::new();
    assert_eq!(codec.decode(&mut empty), Ok(None));
    assert!(empty.is_empty());
    let whole = registration_datagram(true);
    for cut in 0..whole.len() {
        let mut buffer = whole[..cut].to_vec();
        assert_eq!(codec.decode(&mut buffer), Ok(None), "cut at {}", cut);
        assert_eq!(buffer, whole[..cut].to_vec());
    }
}

#[test]
fn datagram_with_less_text_than_counted_is_an_error() {
    let mut codec = BroadcastCodec::new();
    let mut buffer = vec![1, 3, 0, 0, 0, 1, 1, 4, 0, b'a', b'b'];
    assert_eq!(codec.decode(&mut buffer), Err(FramedError::NomError));
    assert_eq!(buffer.len(), 11);
}

#[test]
fn datagram_with_text_that_is_not_utf8_is_a_failure() {
    let mut codec = BroadcastCodec::new();
    let mut buffer = vec![1, 3, 0, 0, 0, 1, 1, 2, 0, 0xff, 0xfe];
    assert_eq!(codec.decode(&mut buffer), Err(FramedError::NomFailure));
    assert_eq!(buffer.len(), 11);
}

#[test]
fn every_kind_of_message_is_decoded_from_its_datagram() {
    let mut codec = BroadcastCodec::new();
    let messages = vec![
        BroadcastInboundMessage::RegistrationResult(RegistrationResult {
            id: 1,
            connection_success: false,
            read_only: true,
            err_msg: "wrong password".to_string(),
        }),
        BroadcastInboundMessage::EntryList(EntryList { connection_id: 2, cars: vec![] }),
        BroadcastInboundMessage::TrackData(TrackData {
            name: "Zolder".to_string(),
            id: 3,
            meters: 4011,
            camera_sets: vec![],
            hud_pages: vec!["a".to_string()],
        }),
        BroadcastInboundMessage::BroadcastingEvent(BroadcastingEvent {
            event_type: BroadcastingCarEventType::GreenFlag,
            msg: "".to_string(),
            time_ms: 0,
            car_id: -1,
        }),
    ];
    for message in messages {
        let mut buffer = message.serialize();
        assert_eq!(codec.decode(&mut buffer), Ok(Some(message)));
        assert!(buffer.is_empty());
    }
}

#[test]
fn encoding_is_byte_exact() {
    let mut codec = BroadcastCodec::new();
    let mut out = vec![0xee];
    codec
        .encode(Outbound::RequestTrackData(RequestTrackData::new(0x0a0b_0c0d)), &mut out)
        .unwrap();
    assert_eq!(out, vec![0xee, 11, 0x0d, 0x0c, 0x0b, 0x0a]);
    let mut out = Vec::new();
    codec.encode(Outbound::UnregisterCommandApplication, &mut out).unwrap();
    assert_eq!(out, vec![9]);
    assert_eq!(disconnect(), vec![9]);
    let mut out = Vec::new();
    codec.encode(Outbound::RequestEntryList(RequestEntryList::new(1)), &mut out).unwrap();
    assert_eq!(out, vec![10, 1, 0, 0, 0]);
    let mut out = Vec::new();
    codec
        .encode(
            Outbound::RegisterCommandApplication(RegisterConnection {
                display_name: "ab".to_string(),
                connection_password: "".to_string(),
                ms_realtime_update_interval: 1000,
                command_password: "c".to_string(),
            }),
            &mut out,
        )
        .unwrap();
    assert_eq!(out, vec![1, 4, 2, 0, b'a', b'b', 0, 0, 0xe8, 3, 0, 0, 1, 0, b'c']);
}

#[test]
fn outbound_messages_are_read_back_from_their_datagrams() {
    let messages = vec![
        Outbound::RegisterCommandApplication(RegisterConnection {
            display_name: "Vapor Manager".to_string(),
            connection_password: "asd".to_string(),
            ms_realtime_update_interval: 250,
            command_password: "".to_string(),
        }),
        Outbound::UnregisterCommandApplication,
        Outbound::RequestEntryList(RequestEntryList::new(-7)),
        Outbound::RequestTrackData(RequestTrackData::new(i32::MAX)),
    ];
    for message in messages {
        let datagram = message.serialize();
        assert_eq!(Outbound::decode(&datagram), Ok(Some(message)));
    }
    assert_eq!(Outbound::decode(&[49, 0]), Ok(None));
    assert_eq!(Outbound::decode(&[]), Err(ParseError::Incomplete));
    assert_eq!(Outbound::decode(&[10, 1]), Err(ParseError::Incomplete));
    assert_eq!(Outbound::decode(&[1, 4, 2, 0, b'a']), Err(ParseError::Error));
}

#[test]
fn stand_in_for_the_simulator_serves_a_registered_client() {
    let mut simulator = BroadcastDebugger::new();
    let message = BroadcastInboundMessage::EntryList(EntryList { connection_id: 1, cars: vec![] });
    assert_eq!(simulator.send(&message), None);
    assert_eq!(
        simulator.receive(&Outbound::RequestTrackData(RequestTrackData::new(1)).serialize()),
        Ok(Some(Outbound::RequestTrackData(RequestTrackData::new(1))))
    );
    assert!(!simulator.registered);
    assert_eq!(simulator.receive(&[1, 4]), Err(ParseError::Incomplete));
    assert!(!simulator.registered);
    let request = Outbound::RegisterCommandApplication(RegisterConnection {
        display_name: "x".to_string(),
        connection_password: "".to_string(),
        ms_realtime_update_interval: 250,
        command_password: "".to_string(),
    });
    assert_eq!(simulator.receive(&request.serialize()), Ok(Some(request)));
    assert!(simulator.registered);
    assert_eq!(simulator.send(&message), Some(vec![4, 1, 0, 0, 0, 0, 0]));
    assert_eq!(simulator.receive(&[9]), Ok(Some(Outbound::UnregisterCommandApplication)));
    assert!(simulator.registered);
}

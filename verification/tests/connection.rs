use vapor_telemetry::connection::{
    Broadcast, BroadcastMsg, ConnectionAction, ConnectionEvent, ConnectionState, Outcome,
    RETRY_DELAY_MILLIS,
};
use vapor_telemetry::session::SessionEvent;
use vapor_telemetry::telemetry::udp::{
    BroadcastInboundMessage, BroadcastOutboundMessage, FramedError, RealtimeUpdate,
    RegisterConnection, RegistrationResult, RequestTrackData, TrackData,
};

fn config() -> RegisterConnection {
    RegisterConnection {
        display_name: "Vapor Manager".to_string(),
        connection_password: "asd".to_string(),
        ms_realtime_update_interval: 250,
        command_password: "".to_string(),
    }
}

fn answer(success: bool, id: i32) -> ConnectionEvent {
    ConnectionEvent::Message(BroadcastInboundMessage::RegistrationResult(RegistrationResult {
        id,
        connection_success: success,
        read_only: false,
        err_msg: if success { "".to_string() } else { "no".to_string() },
    }))
}

fn track(name: &str) -> ConnectionEvent {
    let mut data = TrackData::default();
    data.name = name.to_string();
    ConnectionEvent::Message(BroadcastInboundMessage::TrackData(data))
}

fn awaiting() -> Broadcast {
    let mut connection = Broadcast::new(config(), 4);
    connection.step(ConnectionEvent::Control(BroadcastMsg::Connect));
    connection.step(ConnectionEvent::SocketOpened);
    assert_eq!(connection.state, ConnectionState::AwaitingRegistration);
    connection
}

fn registered() -> Broadcast {
    let mut connection = awaiting();
    connection.step(answer(true, 9));
    assert!(connection.is_registered());
    connection
}

fn nothing() -> Outcome {
    Outcome { actions: vec![], events: vec![] }
}

#[test]
fn connection_walks_through_its_life() {
    let mut connection = Broadcast::new(config(), 4);
    assert_eq!(connection.state, ConnectionState::Disconnected);
    assert_eq!(
        connection.step(ConnectionEvent::Control(BroadcastMsg::Connect)).actions,
        vec![ConnectionAction::OpenSocket]
    );
    assert_eq!(connection.state, ConnectionState::Connecting);
    assert_eq!(
        connection.step(ConnectionEvent::SocketOpened).actions,
        vec![ConnectionAction::Send(BroadcastOutboundMessage::RegisterCommandApplication(
            config()
        ))]
    );
    assert_eq!(connection.state, ConnectionState::AwaitingRegistration);
    assert_eq!(
        connection.step(answer(true, 9)),
        Outcome {
            actions: vec![
                ConnectionAction::Send(BroadcastOutboundMessage::RequestTrackData(
                    RequestTrackData::new(9)
                )),
                ConnectionAction::Live(true),
                ConnectionAction::Reset,
            ],
            events: vec![],
        }
    );
    assert_eq!(connection.state, ConnectionState::Registered);
    assert_eq!(connection.session.connection_id, 9);
    assert_eq!(
        connection.step(track("Spa")),
        Outcome { actions: vec![], events: vec![SessionEvent::TrackName("Spa".to_string())] }
    );
    assert_eq!(
        connection.step(ConnectionEvent::Control(BroadcastMsg::Disconnect)).actions,
        vec![
            ConnectionAction::Send(BroadcastOutboundMessage::UnregisterCommandApplication),
            ConnectionAction::Live(false),
            ConnectionAction::CloseSocket,
        ]
    );
    assert_eq!(connection.state, ConnectionState::Disconnecting);
    assert_eq!(connection.step(ConnectionEvent::SocketClosed), nothing());
    assert_eq!(connection.state, ConnectionState::Disconnected);
}

#[test]
fn failed_registration_sends_nothing_and_keeps_the_session() {
    let mut connection = awaiting();
    let before = connection.session.clone();
    let outcome = connection.step(answer(false, 9));
    assert_eq!(
        outcome,
        Outcome {
            actions: vec![ConnectionAction::Live(false), ConnectionAction::CloseSocket],
            events: vec![],
        }
    );
    assert_eq!(connection.state, ConnectionState::Disconnected);
    assert_eq!(connection.session, before);

    let mut connection = registered();
    connection.step(track("Spa"));
    let before = connection.session.clone();
    let outcome = connection.step(answer(false, 10));
    assert!(outcome.actions.iter().all(|a| !matches!(a, ConnectionAction::Send(_))));
    assert_eq!(connection.session, before);
    assert_eq!(connection.state, ConnectionState::Disconnected);
}

#[test]
fn failed_registration_is_not_tried_again_by_itself() {
    let mut connection = awaiting();
    connection.step(answer(false, 9));
    assert_eq!(connection.step(ConnectionEvent::SocketClosed), nothing());
    assert_eq!(connection.step(ConnectionEvent::SocketFailed), nothing());
    assert_eq!(connection.state, ConnectionState::Disconnected);
    assert_eq!(
        connection.step(ConnectionEvent::Control(BroadcastMsg::Connect)).actions,
        vec![ConnectionAction::OpenSocket]
    );
}

#[test]
fn socket_that_does_not_open_is_tried_again() {
    let mut connection = Broadcast::new(config(), 4);
    connection.step(ConnectionEvent::Control(BroadcastMsg::Connect));
    for _ in 0..3 {
        assert_eq!(
            connection.step(ConnectionEvent::SocketFailed).actions,
            vec![ConnectionAction::RetryOpen(RETRY_DELAY_MILLIS)]
        );
        assert_eq!(connection.state, ConnectionState::Connecting);
    }
    assert_eq!(RETRY_DELAY_MILLIS, 500);
    assert_eq!(connection.step(ConnectionEvent::SocketOpened).actions.len(), 1);
}

#[test]
fn registration_starts_the_session_anew() {
    let mut connection = registered();
    connection.step(track("Spa"));
    assert_eq!(connection.session.track_name, "Spa");
    let outcome = connection.step(answer(true, 12));
    assert_eq!(
        outcome.actions[0],
        ConnectionAction::Send(BroadcastOutboundMessage::RequestTrackData(
            RequestTrackData::new(12)
        ))
    );
    assert_eq!(connection.session.connection_id, 12);
    assert_eq!(connection.session.car_id, 4);
    assert_eq!(connection.session.track_name, "");
    assert_eq!(connection.session.realtime_update, RealtimeUpdate::default());
}

#[test]
fn messages_reach_the_session_only_when_registered() {
    let mut connection = awaiting();
    let before = connection.clone();
    assert_eq!(connection.step(track("Spa")), nothing());
    assert_eq!(connection, before);
    let mut connection = Broadcast::new(config(), 4);
    assert_eq!(connection.step(track("Spa")), nothing());
    assert_eq!(connection.step(answer(true, 1)), nothing());
    assert_eq!(connection.state, ConnectionState::Disconnected);
    assert_eq!(connection.session.connection_id, 0);
}

#[test]
fn failed_read_is_a_disconnection() {
    let mut connection = registered();
    assert_eq!(
        connection.step(ConnectionEvent::SocketFailed).actions,
        vec![ConnectionAction::Live(false), ConnectionAction::CloseSocket]
    );
    assert_eq!(connection.state, ConnectionState::Disconnecting);
    assert_eq!(connection.step(ConnectionEvent::SocketFailed), nothing());
    assert_eq!(connection.state, ConnectionState::Disconnected);
}

#[test]
fn disconnect_before_registration_sends_nothing() {
    let mut connection = awaiting();
    assert_eq!(
        connection.step(ConnectionEvent::Control(BroadcastMsg::Disconnect)).actions,
        vec![ConnectionAction::Live(false), ConnectionAction::CloseSocket]
    );
    let mut connection = Broadcast::new(config(), 4);
    connection.step(ConnectionEvent::Control(BroadcastMsg::Connect));
    assert_eq!(
        connection.step(ConnectionEvent::Control(BroadcastMsg::Disconnect)).actions,
        vec![ConnectionAction::CloseSocket]
    );
    assert_eq!(connection.state, ConnectionState::Disconnected);
}

#[test]
fn abort_tears_down_without_a_word() {
    let mut connection = registered();
    assert_eq!(
        connection.step(ConnectionEvent::Control(BroadcastMsg::Aborted)).actions,
        vec![ConnectionAction::Live(false), ConnectionAction::CloseSocket]
    );
    assert_eq!(connection.state, ConnectionState::Disconnecting);
}

#[test]
fn datagram_that_cannot_be_decoded_is_dropped() {
    let mut connection = registered();
    let before = connection.clone();
    assert_eq!(connection.step(ConnectionEvent::Undecodable(FramedError::NomFailure)), nothing());
    assert_eq!(connection.step(ConnectionEvent::Undecodable(FramedError::NomError)), nothing());
    assert_eq!(connection, before);
}

#[test]
fn connect_is_ignored_unless_disconnected() {
    for mut connection in [awaiting(), registered()] {
        let before = connection.clone();
        assert_eq!(connection.step(ConnectionEvent::Control(BroadcastMsg::Connect)), nothing());
        assert_eq!(connection, before);
    }
}

#[test]
fn followed_car_can_be_changed() {
    let mut connection = registered();
    connection.follow(11);
    assert_eq!(connection.session.car_id, 11);
    assert_eq!(connection.session.connection_id, 9);
    let copy = config().duplicate();
    assert_eq!(copy, config());
}

#[test]
fn failed_registration_handled_sends_nothing_and_keeps_the_session() {
    let mut connection = registered();
    connection.handle(Ok(BroadcastInboundMessage::TrackData({
        let mut data = TrackData::default();
        data.name = "Spa".to_string();
        data
    })));
    let session = connection.session.clone();
    let outcome = connection.handle(Ok(BroadcastInboundMessage::RegistrationResult(
        RegistrationResult {
            id: 77,
            connection_success: false,
            read_only: false,
            err_msg: "wrong password".to_string(),
        },
    )));
    assert_eq!(
        outcome,
        Outcome {
            actions: vec![ConnectionAction::Live(false), ConnectionAction::CloseSocket],
            events: vec![],
        }
    );
    assert!(!outcome.actions.iter().any(|action| matches!(action, ConnectionAction::Send(_))));
    assert_eq!(connection.session, session);
    assert_eq!(connection.session.connection_id, 9);
    assert_eq!(connection.state, ConnectionState::Disconnected);
}

#[test]
fn handling_a_datagram_is_the_step_for_what_it_brought() {
    let mut handled = awaiting();
    let mut stepped = awaiting();
    assert_eq!(
        handled.handle(Ok(BroadcastInboundMessage::RegistrationResult(RegistrationResult {
            id: 5,
            connection_success: true,
            read_only: false,
            err_msg: "".to_string(),
        }))),
        stepped.step(answer(true, 5))
    );
    assert_eq!(handled, stepped);
    assert_eq!(handled.session.connection_id, 5);
    assert_eq!(handled.handle(Err(FramedError::NomFailure)), nothing());
    assert_eq!(handled.handle(Err(FramedError::NomError)), nothing());
    assert_eq!(handled, stepped);
    assert!(handled.is_registered());
}

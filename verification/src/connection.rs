//! The life cycle of a connection to the simulator.
//!
//! A connection is `Disconnected` until its owner asks it to connect. It then
//! opens a socket (`Connecting`), sends the registration request and waits
//! for the answer (`AwaitingRegistration`), and with a successful answer is
//! `Registered`: from then on the messages of the simulator reach the session.
//! It tears the socket down on its way out (`Disconnecting`).
//!
//! The connection decides; it does not act. `step` takes what happened and
//! returns what is to be done: the caller owns the socket, performs the
//! actions in their order and reports back what came of them. `handle` is
//! the step for what a datagram brought.

use vstd::prelude::*;
use crate::session::{
    event_views, ConnectionSession, ConnectionSessionView, SessionEvent, SessionEventView,
};
use crate::telemetry::udp::framed::FramedError;
use crate::telemetry::udp::message::{
    BroadcastInboundMessage, BroadcastInboundMessageView, BroadcastOutboundMessage,
    BroadcastOutboundMessageView, RequestTrackData,
};
use crate::telemetry::udp::registration::{RegisterConnection, RegisterConnectionView};

verus! {

/// How long to wait before a socket that could not be opened is tried again,
/// in milliseconds.
pub const RETRY_DELAY_MILLIS: u64 = 500;

/// What the owner of a connection asks of it.
#[derive(Clone, Copy, Debug, PartialEq, Eq, Structural)]
pub enum BroadcastMsg {
    /// The simulator is live: connect.
    Connect,
    /// Unregister and disconnect.
    Disconnect,
    /// Give the connection up without a word to the simulator.
    Aborted,
}

/// Where a connection stands.
#[derive(Clone, Copy, Debug, PartialEq, Eq, Structural)]
pub enum ConnectionState {
    Disconnected,
    Connecting,
    AwaitingRegistration,
    Registered,
    Disconnecting,
}

/// What happened to a connection.
#[derive(Clone, Debug, PartialEq)]
pub enum ConnectionEvent {
    /// The owner asks for something.
    Control(BroadcastMsg),
    /// The socket is open and connected to the simulator.
    SocketOpened,
    /// Opening the socket, sending or receiving failed.
    SocketFailed,
    /// The socket is torn down.
    SocketClosed,
    /// A datagram held a message.
    Message(BroadcastInboundMessage),
    /// A datagram could not be decoded.
    Undecodable(FramedError),
}

/// What happened to a connection, as a mathematical value.
pub enum ConnectionEventView {
    Control(BroadcastMsg),
    SocketOpened,
    SocketFailed,
    SocketClosed,
    Message(BroadcastInboundMessageView),
    Undecodable(FramedError),
}

impl View for ConnectionEvent {
    type V = ConnectionEventView;

    open spec fn view(&self) -> ConnectionEventView {
        match self {
            ConnectionEvent::Control(msg) => ConnectionEventView::Control(*msg),
            ConnectionEvent::SocketOpened => ConnectionEventView::SocketOpened,
            ConnectionEvent::SocketFailed => ConnectionEventView::SocketFailed,
            ConnectionEvent::SocketClosed => ConnectionEventView::SocketClosed,
            ConnectionEvent::Message(msg) => ConnectionEventView::Message(msg@),
            ConnectionEvent::Undecodable(e) => ConnectionEventView::Undecodable(*e),
        }
    }
}

/// What the caller is to do for a connection.
#[derive(Clone, Debug, PartialEq, Eq)]
pub enum ConnectionAction {
    /// Open a socket on any local port and connect it to the simulator.
    OpenSocket,
    /// Wait for so many milliseconds, then open the socket again.
    RetryOpen(u64),
    /// Send the message.
    Send(BroadcastOutboundMessage),
    /// Tear the socket down.
    CloseSocket,
    /// Tell the owner whether the session is live.
    Live(bool),
    /// Tell the collaborators that a new session starts: what they hold of
    /// the session before is void.
    Reset,
}

/// What the caller is to do, as a mathematical value.
pub enum ConnectionActionView {
    OpenSocket,
    RetryOpen(u64),
    Send(BroadcastOutboundMessageView),
    CloseSocket,
    Live(bool),
    Reset,
}

impl View for ConnectionAction {
    type V = ConnectionActionView;

    open spec fn view(&self) -> ConnectionActionView {
        match self {
            ConnectionAction::OpenSocket => ConnectionActionView::OpenSocket,
            ConnectionAction::RetryOpen(millis) => ConnectionActionView::RetryOpen(*millis),
            ConnectionAction::Send(msg) => ConnectionActionView::Send(msg@),
            ConnectionAction::CloseSocket => ConnectionActionView::CloseSocket,
            ConnectionAction::Live(live) => ConnectionActionView::Live(*live),
            ConnectionAction::Reset => ConnectionActionView::Reset,
        }
    }
}

/// The views of the actions in `actions`, in their order.
pub open spec fn action_views(actions: Seq<ConnectionAction>) -> Seq<ConnectionActionView> {
    Seq::new(actions.len(), |i: int| actions[i]@)
}

/// What a step of a connection asks for: the actions to perform, in their
/// order, and the facts that the session derived.
#[derive(Clone, Debug, PartialEq, Eq)]
pub struct Outcome {
    pub actions: Vec<ConnectionAction>,
    pub events: Vec<SessionEvent>,
}

/// A connection to the broadcasting interface of the simulator.
#[derive(Clone, Debug, PartialEq)]
pub struct Broadcast {
    pub state: ConnectionState,
    /// The request with which the connection registers.
    pub config: RegisterConnection,
    pub session: ConnectionSession,
}

/// A connection as a mathematical value.
pub struct BroadcastView {
    pub state: ConnectionState,
    pub config: RegisterConnectionView,
    pub session: ConnectionSessionView,
}

impl View for Broadcast {
    type V = BroadcastView;

    open spec fn view(&self) -> BroadcastView {
        BroadcastView { state: self.state, config: self.config@, session: self.session@ }
    }
}

/// Whether a message is the answer to the registration request, and whether
/// the answer is a success.
pub open spec fn registration(event: ConnectionEventView) -> Option<bool> {
    match event {
        ConnectionEventView::Message(BroadcastInboundMessageView::RegistrationResult(r)) => {
            Some(r.connection_success)
        },
        _ => None,
    }
}

/// What came of a datagram, as something that happened to the connection:
/// the message that it held, or the reason why it could not be decoded.
pub open spec fn received(item: Result<BroadcastInboundMessage, FramedError>) -> ConnectionEventView {
    match item {
        Ok(msg) => ConnectionEventView::Message(msg@),
        Err(e) => ConnectionEventView::Undecodable(e),
    }
}

/// The id that a registration result gives the connection.
pub open spec fn registered_id(event: ConnectionEventView) -> i32 {
    match event {
        ConnectionEventView::Message(BroadcastInboundMessageView::RegistrationResult(r)) => {
            r.id
        },
        _ => 0,
    }
}

impl BroadcastView {
    /// Whether the connection waits for, or lives on, a registration.
    pub open spec fn on_the_wire(self) -> bool {
        self.state == ConnectionState::AwaitingRegistration || self.state
            == ConnectionState::Registered
    }

    /// The state after `event`.
    pub open spec fn next_state(self, event: ConnectionEventView) -> ConnectionState {
        match self.state {
            ConnectionState::Disconnected => match event {
                ConnectionEventView::Control(BroadcastMsg::Connect) => ConnectionState::Connecting,
                _ => ConnectionState::Disconnected,
            },
            ConnectionState::Connecting => match event {
                ConnectionEventView::SocketOpened => ConnectionState::AwaitingRegistration,
                ConnectionEventView::Control(BroadcastMsg::Disconnect)
                | ConnectionEventView::Control(BroadcastMsg::Aborted) => {
                    ConnectionState::Disconnected
                },
                _ => ConnectionState::Connecting,
            },
            ConnectionState::AwaitingRegistration | ConnectionState::Registered => {
                match registration(event) {
                    Some(true) => ConnectionState::Registered,
                    Some(false) => ConnectionState::Disconnected,
                    None => match event {
                        ConnectionEventView::Control(BroadcastMsg::Disconnect)
                        | ConnectionEventView::Control(BroadcastMsg::Aborted)
                        | ConnectionEventView::SocketFailed => ConnectionState::Disconnecting,
                        ConnectionEventView::SocketClosed => ConnectionState::Disconnected,
                        _ => self.state,
                    },
                }
            },
            ConnectionState::Disconnecting => match event {
                ConnectionEventView::SocketClosed | ConnectionEventView::SocketFailed => {
                    ConnectionState::Disconnected
                },
                _ => ConnectionState::Disconnecting,
            },
        }
    }

    /// The session after `event`: a successful registration starts it anew
    /// under the id that the simulator gave; a registered connection hands
    /// every other message to it; everything else leaves it alone.
    pub open spec fn next_session(self, event: ConnectionEventView) -> ConnectionSessionView {
        if !self.on_the_wire() {
            self.session
        } else {
            match registration(event) {
                Some(true) => ConnectionSessionView::fresh(
                    registered_id(event),
                    self.session.car_id,
                ),
                Some(false) => self.session,
                None => match event {
                    ConnectionEventView::Message(msg) if self.state
                        == ConnectionState::Registered => self.session.apply(msg),
                    _ => self.session,
                },
            }
        }
    }

    /// The facts that the session derives from `event`.
    pub open spec fn events(self, event: ConnectionEventView) -> Seq<SessionEventView> {
        match event {
            ConnectionEventView::Message(msg) if self.state == ConnectionState::Registered
                && registration(event) is None => self.session.events(msg),
            _ => Seq::empty(),
        }
    }

    /// What the caller is to do after `event`, in this order.
    pub open spec fn actions(self, event: ConnectionEventView) -> Seq<ConnectionActionView> {
        match self.state {
            ConnectionState::Disconnected => match event {
                ConnectionEventView::Control(BroadcastMsg::Connect) => seq![
                    ConnectionActionView::OpenSocket,
                ],
                _ => Seq::empty(),
            },
            ConnectionState::Connecting => match event {
                ConnectionEventView::SocketOpened => seq![
                    ConnectionActionView::Send(
                        BroadcastOutboundMessageView::RegisterCommandApplication(self.config),
                    ),
                ],
                ConnectionEventView::SocketFailed => seq![
                    ConnectionActionView::RetryOpen(RETRY_DELAY_MILLIS),
                ],
                ConnectionEventView::Control(BroadcastMsg::Disconnect)
                | ConnectionEventView::Control(BroadcastMsg::Aborted) => seq![
                    ConnectionActionView::CloseSocket,
                ],
                _ => Seq::empty(),
            },
            ConnectionState::AwaitingRegistration | ConnectionState::Registered => {
                match registration(event) {
                    Some(true) => seq![
                        ConnectionActionView::Send(
                            BroadcastOutboundMessageView::RequestTrackData(
                                RequestTrackData { connection_id: registered_id(event) },
                            ),
                        ),
                        ConnectionActionView::Live(true),
                        ConnectionActionView::Reset,
                    ],
                    Some(false) => seq![
                        ConnectionActionView::Live(false),
                        ConnectionActionView::CloseSocket,
                    ],
                    None => match event {
                        ConnectionEventView::Control(BroadcastMsg::Disconnect) => {
                            if self.state == ConnectionState::Registered {
                                seq![
                                    ConnectionActionView::Send(
                                        BroadcastOutboundMessageView::UnregisterCommandApplication,
                                    ),
                                    ConnectionActionView::Live(false),
                                    ConnectionActionView::CloseSocket,
                                ]
                            } else {
                                seq![
                                    ConnectionActionView::Live(false),
                                    ConnectionActionView::CloseSocket,
                                ]
                            }
                        },
                        ConnectionEventView::Control(BroadcastMsg::Aborted)
                        | ConnectionEventView::SocketFailed => seq![
                            ConnectionActionView::Live(false),
                            ConnectionActionView::CloseSocket,
                        ],
                        ConnectionEventView::SocketClosed => seq![
                            ConnectionActionView::Live(false),
                        ],
                        _ => Seq::empty(),
                    },
                }
            },
            ConnectionState::Disconnecting => Seq::empty(),
        }
    }

    /// The connection after `event`.
    pub open spec fn next(self, event: ConnectionEventView) -> BroadcastView {
        BroadcastView {
            state: self.next_state(event),
            config: self.config,
            session: self.next_session(event),
        }
    }
}

impl RegisterConnection {
    /// A copy of the request.
    pub fn duplicate(&self) -> (r: RegisterConnection)
        ensures
            r@ == self@,
    {
        RegisterConnection {
            display_name: self.display_name.clone(),
            connection_password: self.connection_password.clone(),
            ms_realtime_update_interval: self.ms_realtime_update_interval,
            command_password: self.command_password.clone(),
        }
    }
}

impl Broadcast {
    /// A connection that is not connected. It will register with `config`
    /// and follow the car `car_id`.
    pub fn new(config: RegisterConnection, car_id: i16) -> (r: Broadcast)
        ensures
            r@ == (BroadcastView {
                state: ConnectionState::Disconnected,
                config: config@,
                session: ConnectionSessionView::fresh(0, car_id),
            }),
    {
        Broadcast {
            state: ConnectionState::Disconnected,
            config,
            session: ConnectionSession::new(car_id),
        }
    }

    /// Whether the connection is registered with the simulator.
    pub fn is_registered(&self) -> (r: bool)
        ensures
            r == (self@.state == ConnectionState::Registered),
    {
        self.state == ConnectionState::Registered
    }

    /// Follows the car `car_id` from now on.
    pub fn follow(&mut self, car_id: i16)
        ensures
            final(self)@ == (BroadcastView {
                session: ConnectionSessionView { car_id, ..old(self)@.session },
                ..old(self)@
            }),
    {
        self.session.car_id = car_id;
    }

    /// Takes in what happened and returns what is to be done.
    pub fn step(&mut self, event: ConnectionEvent) -> (r: Outcome)
        ensures
            final(self)@ == old(self)@.next(event@),
            action_views(r.actions@) == old(self)@.actions(event@),
            event_views(r.events@) == old(self)@.events(event@),
            r.actions@.len() == old(self)@.actions(event@).len(),
            r.events@.len() == old(self)@.events(event@).len(),
    {
        let mut actions: Vec<ConnectionAction> = Vec::new();
        let mut events: Vec<SessionEvent> = Vec::new();
        match self.state {
            ConnectionState::Disconnected => {
                match event {
                    ConnectionEvent::Control(BroadcastMsg::Connect) => {
                        self.state = ConnectionState::Connecting;
                        actions.push(ConnectionAction::OpenSocket);
                    },
                    _ => {},
                }
            },
            ConnectionState::Connecting => {
                match event {
                    ConnectionEvent::SocketOpened => {
                        self.state = ConnectionState::AwaitingRegistration;
                        actions.push(
                            ConnectionAction::Send(
                                BroadcastOutboundMessage::RegisterCommandApplication(
                                    self.config.duplicate(),
                                ),
                            ),
                        );
                    },
                    ConnectionEvent::SocketFailed => {
                        actions.push(ConnectionAction::RetryOpen(RETRY_DELAY_MILLIS));
                    },
                    ConnectionEvent::Control(BroadcastMsg::Disconnect)
                    | ConnectionEvent::Control(BroadcastMsg::Aborted) => {
                        self.state = ConnectionState::Disconnected;
                        actions.push(ConnectionAction::CloseSocket);
                    },
                    _ => {},
                }
            },
            ConnectionState::AwaitingRegistration | ConnectionState::Registered => {
                match event {
                    ConnectionEvent::Message(
                        BroadcastInboundMessage::RegistrationResult(result),
                    ) => {
                        if result.connection_success {
                            self.state = ConnectionState::Registered;
                            self.session.reset();
                            self.session.connection_id = result.id;
                            actions.push(
                                ConnectionAction::Send(
                                    BroadcastOutboundMessage::RequestTrackData(
                                        RequestTrackData::new(result.id),
                                    ),
                                ),
                            );
                            actions.push(ConnectionAction::Live(true));
                            actions.push(ConnectionAction::Reset);
                        } else {
                            self.state = ConnectionState::Disconnected;
                            actions.push(ConnectionAction::Live(false));
                            actions.push(ConnectionAction::CloseSocket);
                        }
                    },
                    ConnectionEvent::Message(msg) => {
                        if self.state == ConnectionState::Registered {
                            events = self.session.apply(msg);
                        }
                    },
                    ConnectionEvent::Control(BroadcastMsg::Disconnect) => {
                        if self.state == ConnectionState::Registered {
                            actions.push(
                                ConnectionAction::Send(
                                    BroadcastOutboundMessage::UnregisterCommandApplication,
                                ),
                            );
                        }
                        self.state = ConnectionState::Disconnecting;
                        actions.push(ConnectionAction::Live(false));
                        actions.push(ConnectionAction::CloseSocket);
                    },
                    ConnectionEvent::Control(BroadcastMsg::Aborted)
                    | ConnectionEvent::SocketFailed => {
                        self.state = ConnectionState::Disconnecting;
                        actions.push(ConnectionAction::Live(false));
                        actions.push(ConnectionAction::CloseSocket);
                    },
                    ConnectionEvent::SocketClosed => {
                        self.state = ConnectionState::Disconnected;
                        actions.push(ConnectionAction::Live(false));
                    },
                    _ => {},
                }
            },
            ConnectionState::Disconnecting => {
                match event {
                    ConnectionEvent::SocketClosed | ConnectionEvent::SocketFailed => {
                        self.state = ConnectionState::Disconnected;
                    },
                    _ => {},
                }
            },
        }
        assert(action_views(actions@) =~= old(self)@.actions(event@));
        assert(event_views(events@) =~= old(self)@.events(event@));
        Outcome { actions, events }
    }

    /// Takes in what came of a datagram of the simulator and returns what is
    /// to be done: the step for the message that it held, or for the failure
    /// to decode it.
    pub fn handle(&mut self, item: Result<BroadcastInboundMessage, FramedError>) -> (r: Outcome)
        ensures
            final(self)@ == old(self)@.next(received(item)),
            action_views(r.actions@) == old(self)@.actions(received(item)),
            event_views(r.events@) == old(self)@.events(received(item)),
            r.actions@.len() == old(self)@.actions(received(item)).len(),
            r.events@.len() == old(self)@.events(received(item)).len(),
    {
        match item {
            Ok(msg) => self.step(ConnectionEvent::Message(msg)),
            Err(e) => self.step(ConnectionEvent::Undecodable(e)),
        }
    }
}

/// Whether the actions hold the sending of a message.
pub open spec fn sends(actions: Seq<ConnectionActionView>) -> bool {
    exists|i: int| 0 <= i < actions.len() && (#[trigger] actions[i]) is Send
}

/// Nothing is sent before the registration request, and nothing but it
/// before the simulator answered with a success: a connection that is not
/// registered sends the registration request when its socket opens, and
/// otherwise sends only in the step that registers it.
pub proof fn lemma_registration_comes_first(connection: BroadcastView, event: ConnectionEventView)
    requires
        connection.state != ConnectionState::Registered,
    ensures
        forall|i: int|
            0 <= i < connection.actions(event).len() ==> (match #[trigger] connection.actions(
                event,
            )[i] {
                ConnectionActionView::Send(
                    BroadcastOutboundMessageView::RegisterCommandApplication(config),
                ) => connection.state == ConnectionState::Connecting && config == connection.config,
                ConnectionActionView::Send(_) => connection.next_state(event)
                    == ConnectionState::Registered && registration(event) == Some(true),
                _ => true,
            }),
{
}

/// Every request that a connection sends for its session carries the id
/// that the session holds after the step.
pub proof fn lemma_requests_carry_the_id(connection: BroadcastView, event: ConnectionEventView)
    ensures
        forall|i: int|
            0 <= i < connection.actions(event).len() ==> (match #[trigger] connection.actions(
                event,
            )[i] {
                ConnectionActionView::Send(BroadcastOutboundMessageView::RequestTrackData(r)) => {
                    r.connection_id == connection.next(event).session.connection_id
                },
                ConnectionActionView::Send(BroadcastOutboundMessageView::RequestEntryList(r)) => {
                    r.connection_id == connection.next(event).session.connection_id
                },
                _ => true,
            }),
{
}

/// A registration that failed sends nothing and starts no session: the
/// session and the request stay as they were and no collaborator is told to
/// reset. It ends the attempt: the connection is disconnected and says so.
pub proof fn lemma_failed_registration(connection: BroadcastView, event: ConnectionEventView)
    requires
        registration(event) == Some(false),
    ensures
        !sends(connection.actions(event)),
        forall|i: int|
            0 <= i < connection.actions(event).len() ==> !((#[trigger] connection.actions(
                event,
            )[i]) is Reset),
        connection.next(event).session == connection.session,
        connection.next(event).config == connection.config,
        connection.events(event) =~= Seq::<SessionEventView>::empty(),
        connection.on_the_wire() ==> connection.next(event).state == ConnectionState::Disconnected,
        connection.on_the_wire() ==> connection.actions(event)[0] == ConnectionActionView::Live(
            false,
        ),
{
}

/// A connection becomes registered only by a successful answer of the
/// simulator, and then starts its session anew under the id of the answer.
pub proof fn lemma_registered_by_success(connection: BroadcastView, event: ConnectionEventView)
    requires
        connection.next(event).state == ConnectionState::Registered,
        connection.state != ConnectionState::Registered,
    ensures
        connection.state == ConnectionState::AwaitingRegistration,
        registration(event) == Some(true),
        connection.next(event).session == ConnectionSessionView::fresh(
            registered_id(event),
            connection.session.car_id,
        ),
{
}

/// Only a registered connection hands messages to its session: in every
/// other state a message that is not a registration result changes nothing
/// and brings about nothing.
pub proof fn lemma_session_needs_registration(
    connection: BroadcastView,
    event: ConnectionEventView,
)
    requires
        connection.state != ConnectionState::Registered,
        registration(event) is None,
    ensures
        connection.next(event).session == connection.session,
        connection.events(event) =~= Seq::<SessionEventView>::empty(),
{
}

} // verus!

//! The catalogue of messages: the kinds that the simulator sends and the
//! kinds that a client sends, each named by the first byte of its datagram.
//!
//! A datagram is that byte followed by the payload of the message.

use vstd::prelude::*;
use crate::telemetry::udp::event::{BroadcastingEvent, BroadcastingEventView};
use crate::telemetry::udp::entrylist::{CarInfo, CarInfoView, EntryList, EntryListView};
use crate::telemetry::udp::realtime_car_update::{RealtimeCarUpdate, RealtimeCarUpdateView};
use crate::telemetry::udp::realtime_update::{RealtimeUpdate, RealtimeUpdateView};
use crate::telemetry::udp::registration::{
    RegisterConnection, RegisterConnectionView, RegistrationResult, RegistrationResultView,
};
use crate::telemetry::udp::track_data::{TrackData, TrackDataView};
use crate::telemetry::udp::wire::{
    byte, bytes_i32, le_i32, lemma_byte_round_trip, lemma_i32_round_trip, parsed, put_le_i32,
    spec_byte, spec_le_i32, ParseError, Parsed,
};

verus! {

/// The kinds of message that the simulator sends, by the first byte of the datagram.
#[derive(Clone, Copy, Debug, PartialEq, Eq, Structural)]
pub enum InboundMessageTypes {
    RegistrationResult,
    RealtimeUpdate,
    RealtimeCarUpdate,
    EntryList,
    TrackData,
    EntryListCar,
    BroadcastingEvent,
    /// A first byte that stands for no kind of message.
    Error,
}

impl InboundMessageTypes {
    /// The variant that `code` stands for on the wire; a code that stands
    /// for none is `Error`.
    pub open spec fn of_code(code: u8) -> InboundMessageTypes {
        if code == 1 {
            InboundMessageTypes::RegistrationResult
        } else if code == 2 {
            InboundMessageTypes::RealtimeUpdate
        } else if code == 3 {
            InboundMessageTypes::RealtimeCarUpdate
        } else if code == 4 {
            InboundMessageTypes::EntryList
        } else if code == 5 {
            InboundMessageTypes::TrackData
        } else if code == 6 {
            InboundMessageTypes::EntryListCar
        } else if code == 7 {
            InboundMessageTypes::BroadcastingEvent
        } else {
            InboundMessageTypes::Error
        }
    }

    /// The code that stands for the variant on the wire.
    pub open spec fn code(self) -> u8 {
        match self {
            InboundMessageTypes::RegistrationResult => 1,
            InboundMessageTypes::RealtimeUpdate => 2,
            InboundMessageTypes::RealtimeCarUpdate => 3,
            InboundMessageTypes::EntryList => 4,
            InboundMessageTypes::TrackData => 5,
            InboundMessageTypes::EntryListCar => 6,
            InboundMessageTypes::BroadcastingEvent => 7,
            InboundMessageTypes::Error => 0,
        }
    }

    /// Reads the variant off its wire code.
    pub fn from_primitive(code: u8) -> (r: InboundMessageTypes)
        ensures
            r == Self::of_code(code),
    {
        match code {
            1 => InboundMessageTypes::RegistrationResult,
            2 => InboundMessageTypes::RealtimeUpdate,
            3 => InboundMessageTypes::RealtimeCarUpdate,
            4 => InboundMessageTypes::EntryList,
            5 => InboundMessageTypes::TrackData,
            6 => InboundMessageTypes::EntryListCar,
            7 => InboundMessageTypes::BroadcastingEvent,
            _ => InboundMessageTypes::Error,
        }
    }

    /// The wire code of the variant.
    pub fn to_primitive(self) -> (r: u8)
        ensures
            r == self.code(),
    {
        match self {
            InboundMessageTypes::RegistrationResult => 1,
            InboundMessageTypes::RealtimeUpdate => 2,
            InboundMessageTypes::RealtimeCarUpdate => 3,
            InboundMessageTypes::EntryList => 4,
            InboundMessageTypes::TrackData => 5,
            InboundMessageTypes::EntryListCar => 6,
            InboundMessageTypes::BroadcastingEvent => 7,
            InboundMessageTypes::Error => 0,
        }
    }

    /// Every variant is the one that its own code stands for.
    pub proof fn lemma_code_round_trip(self)
        ensures
            Self::of_code(self.code()) == self,
    {
    }
}

impl View for InboundMessageTypes {
    type V = InboundMessageTypes;

    open spec fn view(&self) -> InboundMessageTypes {
        *self
    }
}

impl Default for InboundMessageTypes {
    fn default() -> (r: InboundMessageTypes)
        ensures
            r == InboundMessageTypes::Error,
    {
        InboundMessageTypes::Error
    }
}

/// The kinds of message that a client sends, by the first byte of the datagram.
#[derive(Clone, Copy, Debug, PartialEq, Eq, Structural)]
pub enum OutboundMessageTypes {
    RegisterCommandApplication,
    UnregisterCommandApplication,
    RequestEntryList,
    RequestTrackData,
    ChangeHudPage,
    ChangeFocus,
    InstantReplayRequest,
    PlayManualReplayHighlight,
    SaveManualReplayHighlight,
    /// A first byte that stands for no kind of message.
    Error,
}

impl OutboundMessageTypes {
    /// The variant that `code` stands for on the wire; a code that stands
    /// for none is `Error`.
    pub open spec fn of_code(code: u8) -> OutboundMessageTypes {
        if code == 1 {
            OutboundMessageTypes::RegisterCommandApplication
        } else if code == 9 {
            OutboundMessageTypes::UnregisterCommandApplication
        } else if code == 10 {
            OutboundMessageTypes::RequestEntryList
        } else if code == 11 {
            OutboundMessageTypes::RequestTrackData
        } else if code == 49 {
            OutboundMessageTypes::ChangeHudPage
        } else if code == 50 {
            OutboundMessageTypes::ChangeFocus
        } else if code == 51 {
            OutboundMessageTypes::InstantReplayRequest
        } else if code == 52 {
            OutboundMessageTypes::PlayManualReplayHighlight
        } else if code == 60 {
            OutboundMessageTypes::SaveManualReplayHighlight
        } else {
            OutboundMessageTypes::Error
        }
    }

    /// The code that stands for the variant on the wire.
    pub open spec fn code(self) -> u8 {
        match self {
            OutboundMessageTypes::RegisterCommandApplication => 1,
            OutboundMessageTypes::UnregisterCommandApplication => 9,
            OutboundMessageTypes::RequestEntryList => 10,
            OutboundMessageTypes::RequestTrackData => 11,
            OutboundMessageTypes::ChangeHudPage => 49,
            OutboundMessageTypes::ChangeFocus => 50,
            OutboundMessageTypes::InstantReplayRequest => 51,
            OutboundMessageTypes::PlayManualReplayHighlight => 52,
            OutboundMessageTypes::SaveManualReplayHighlight => 60,
            OutboundMessageTypes::Error => 0,
        }
    }

    /// Reads the variant off its wire code.
    pub fn from_primitive(code: u8) -> (r: OutboundMessageTypes)
        ensures
            r == Self::of_code(code),
    {
        match code {
            1 => OutboundMessageTypes::RegisterCommandApplication,
            9 => OutboundMessageTypes::UnregisterCommandApplication,
            10 => OutboundMessageTypes::RequestEntryList,
            11 => OutboundMessageTypes::RequestTrackData,
            49 => OutboundMessageTypes::ChangeHudPage,
            50 => OutboundMessageTypes::ChangeFocus,
            51 => OutboundMessageTypes::InstantReplayRequest,
            52 => OutboundMessageTypes::PlayManualReplayHighlight,
            60 => OutboundMessageTypes::SaveManualReplayHighlight,
            _ => OutboundMessageTypes::Error,
        }
    }

    /// The wire code of the variant.
    pub fn to_primitive(self) -> (r: u8)
        ensures
            r == self.code(),
    {
        match self {
            OutboundMessageTypes::RegisterCommandApplication => 1,
            OutboundMessageTypes::UnregisterCommandApplication => 9,
            OutboundMessageTypes::RequestEntryList => 10,
            OutboundMessageTypes::RequestTrackData => 11,
            OutboundMessageTypes::ChangeHudPage => 49,
            OutboundMessageTypes::ChangeFocus => 50,
            OutboundMessageTypes::InstantReplayRequest => 51,
            OutboundMessageTypes::PlayManualReplayHighlight => 52,
            OutboundMessageTypes::SaveManualReplayHighlight => 60,
            OutboundMessageTypes::Error => 0,
        }
    }

    /// Every variant is the one that its own code stands for.
    pub proof fn lemma_code_round_trip(self)
        ensures
            Self::of_code(self.code()) == self,
    {
    }
}

impl View for OutboundMessageTypes {
    type V = OutboundMessageTypes;

    open spec fn view(&self) -> OutboundMessageTypes {
        *self
    }
}

impl Default for OutboundMessageTypes {
    fn default() -> (r: OutboundMessageTypes)
        ensures
            r == OutboundMessageTypes::Error,
    {
        OutboundMessageTypes::Error
    }
}

impl InboundMessageTypes {
    /// The kind that the first byte of a datagram names, and the payload.
    pub open spec fn spec_read(input: Seq<u8>) -> Parsed<InboundMessageTypes> {
        match spec_byte(input) {
            Err(e) => Err(e),
            Ok((rest, code)) => Ok((rest, Self::of_code(code))),
        }
    }

    /// Reads the kind of a datagram and returns its payload.
    pub fn read<'a>(input: &'a [u8]) -> (r: Result<(&'a [u8], InboundMessageTypes), ParseError>)
        ensures
            parsed(r, Self::spec_read(input@)),
    {
        let (rest, code) = byte(input)?;
        Ok((rest, Self::from_primitive(code)))
    }
}

impl OutboundMessageTypes {
    /// The kind that the first byte of a datagram names, and the payload.
    pub open spec fn spec_read(input: Seq<u8>) -> Parsed<OutboundMessageTypes> {
        match spec_byte(input) {
            Err(e) => Err(e),
            Ok((rest, code)) => Ok((rest, Self::of_code(code))),
        }
    }

    /// Reads the kind of a datagram and returns its payload.
    pub fn read<'a>(input: &'a [u8]) -> (r: Result<(&'a [u8], OutboundMessageTypes), ParseError>)
        ensures
            parsed(r, Self::spec_read(input@)),
    {
        let (rest, code) = byte(input)?;
        Ok((rest, Self::from_primitive(code)))
    }
}

/// Asks for the entry list of the session.
#[derive(Clone, Copy, Debug, PartialEq, Eq, Structural)]
pub struct RequestEntryList {
    /// The connection that asks.
    pub connection_id: i32,
}

impl View for RequestEntryList {
    type V = RequestEntryList;

    open spec fn view(&self) -> RequestEntryList {
        *self
    }
}

impl RequestEntryList {
    /// The request of the connection `id`.
    pub fn new(id: i32) -> (r: RequestEntryList)
        ensures
            r.connection_id == id,
    {
        RequestEntryList { connection_id: id }
    }

    /// The payload of the request: the connection id (`i32`).
    pub open spec fn spec_serialize(v: RequestEntryList) -> Seq<u8> {
        bytes_i32(v.connection_id)
    }

    /// The request that a payload holds.
    pub open spec fn spec_deserialize(input: Seq<u8>) -> Parsed<RequestEntryList> {
        match spec_le_i32(input) {
            Err(e) => Err(e),
            Ok((rest, id)) => Ok((rest, RequestEntryList { connection_id: id })),
        }
    }

    /// The payload of the request.
    pub fn serialize(&self) -> (r: Vec<u8>)
        ensures
            r@ == Self::spec_serialize(*self),
    {
        let mut out: Vec<u8> = Vec::new();
        put_le_i32(&mut out, self.connection_id);
        assert(out@ =~= Self::spec_serialize(*self));
        out
    }

    /// Reads a request off its payload and returns the bytes behind it.
    pub fn deserialize<'a>(input: &'a [u8]) -> (r: Result<(&'a [u8], RequestEntryList), ParseError>)
        ensures
            parsed(r, Self::spec_deserialize(input@)),
    {
        let (rest, id) = le_i32(input)?;
        Ok((rest, RequestEntryList { connection_id: id }))
    }

    /// A request written and read again is the same request.
    pub proof fn lemma_round_trip(v: RequestEntryList, tail: Seq<u8>)
        ensures
            Self::spec_deserialize(Self::spec_serialize(v) + tail) == Ok::<
                (Seq<u8>, RequestEntryList),
                ParseError,
            >((tail, v)),
    {
        lemma_i32_round_trip(v.connection_id, tail);
    }
}

/// Asks for the track of the session.
#[derive(Clone, Copy, Debug, PartialEq, Eq, Structural)]
pub struct RequestTrackData {
    /// The connection that asks.
    pub connection_id: i32,
}

impl View for RequestTrackData {
    type V = RequestTrackData;

    open spec fn view(&self) -> RequestTrackData {
        *self
    }
}

impl RequestTrackData {
    /// The request of the connection `id`.
    pub fn new(id: i32) -> (r: RequestTrackData)
        ensures
            r.connection_id == id,
    {
        RequestTrackData { connection_id: id }
    }

    /// The payload of the request: the connection id (`i32`).
    pub open spec fn spec_serialize(v: RequestTrackData) -> Seq<u8> {
        bytes_i32(v.connection_id)
    }

    /// The request that a payload holds.
    pub open spec fn spec_deserialize(input: Seq<u8>) -> Parsed<RequestTrackData> {
        match spec_le_i32(input) {
            Err(e) => Err(e),
            Ok((rest, id)) => Ok((rest, RequestTrackData { connection_id: id })),
        }
    }

    /// The payload of the request.
    pub fn serialize(&self) -> (r: Vec<u8>)
        ensures
            r@ == Self::spec_serialize(*self),
    {
        let mut out: Vec<u8> = Vec::new();
        put_le_i32(&mut out, self.connection_id);
        assert(out@ =~= Self::spec_serialize(*self));
        out
    }

    /// Reads a request off its payload and returns the bytes behind it.
    pub fn deserialize<'a>(input: &'a [u8]) -> (r: Result<(&'a [u8], RequestTrackData), ParseError>)
        ensures
            parsed(r, Self::spec_deserialize(input@)),
    {
        let (rest, id) = le_i32(input)?;
        Ok((rest, RequestTrackData { connection_id: id }))
    }

    /// A request written and read again is the same request.
    pub proof fn lemma_round_trip(v: RequestTrackData, tail: Seq<u8>)
        ensures
            Self::spec_deserialize(Self::spec_serialize(v) + tail) == Ok::<
                (Seq<u8>, RequestTrackData),
                ParseError,
            >((tail, v)),
    {
        lemma_i32_round_trip(v.connection_id, tail);
    }
}

/// The datagram that unregisters a client: its kind and nothing else.
pub fn disconnect() -> (r: Vec<u8>)
    ensures
        r@ == seq![OutboundMessageTypes::UnregisterCommandApplication.code()],
{
    let mut out: Vec<u8> = Vec::new();
    out.push(OutboundMessageTypes::UnregisterCommandApplication.to_primitive());
    assert(out@ =~= seq![OutboundMessageTypes::UnregisterCommandApplication.code()]);
    out
}

/// A message that the simulator sends.
#[derive(Clone, Debug, PartialEq)]
pub enum BroadcastInboundMessage {
    RegistrationResult(RegistrationResult),
    RealtimeUpdate(RealtimeUpdate),
    RealtimeCarUpdate(RealtimeCarUpdate),
    EntryList(EntryList),
    EntryListCar(CarInfo),
    TrackData(TrackData),
    BroadcastingEvent(BroadcastingEvent),
}

/// A message that the simulator sends, as a mathematical value.
pub enum BroadcastInboundMessageView {
    RegistrationResult(RegistrationResultView),
    RealtimeUpdate(RealtimeUpdateView),
    RealtimeCarUpdate(RealtimeCarUpdateView),
    EntryList(EntryListView),
    EntryListCar(CarInfoView),
    TrackData(TrackDataView),
    BroadcastingEvent(BroadcastingEventView),
}

impl View for BroadcastInboundMessage {
    type V = BroadcastInboundMessageView;

    open spec fn view(&self) -> BroadcastInboundMessageView {
        match self {
            BroadcastInboundMessage::RegistrationResult(m) => {
                BroadcastInboundMessageView::RegistrationResult(m@)
            },
            BroadcastInboundMessage::RealtimeUpdate(m) => {
                BroadcastInboundMessageView::RealtimeUpdate(m@)
            },
            BroadcastInboundMessage::RealtimeCarUpdate(m) => {
                BroadcastInboundMessageView::RealtimeCarUpdate(m@)
            },
            BroadcastInboundMessage::EntryList(m) => BroadcastInboundMessageView::EntryList(m@),
            BroadcastInboundMessage::EntryListCar(m) => {
                BroadcastInboundMessageView::EntryListCar(m@)
            },
            BroadcastInboundMessage::TrackData(m) => BroadcastInboundMessageView::TrackData(m@),
            BroadcastInboundMessage::BroadcastingEvent(m) => {
                BroadcastInboundMessageView::BroadcastingEvent(m@)
            },
        }
    }
}

impl BroadcastInboundMessageView {
    /// The kind of the message.
    pub open spec fn kind(self) -> InboundMessageTypes {
        match self {
            BroadcastInboundMessageView::RegistrationResult(_) => {
                InboundMessageTypes::RegistrationResult
            },
            BroadcastInboundMessageView::RealtimeUpdate(_) => InboundMessageTypes::RealtimeUpdate,
            BroadcastInboundMessageView::RealtimeCarUpdate(_) => {
                InboundMessageTypes::RealtimeCarUpdate
            },
            BroadcastInboundMessageView::EntryList(_) => InboundMessageTypes::EntryList,
            BroadcastInboundMessageView::EntryListCar(_) => InboundMessageTypes::EntryListCar,
            BroadcastInboundMessageView::TrackData(_) => InboundMessageTypes::TrackData,
            BroadcastInboundMessageView::BroadcastingEvent(_) => {
                InboundMessageTypes::BroadcastingEvent
            },
        }
    }

    /// The payload of the message.
    pub open spec fn payload(self) -> Seq<u8> {
        match self {
            BroadcastInboundMessageView::RegistrationResult(m) => {
                RegistrationResult::spec_serialize(m)
            },
            BroadcastInboundMessageView::RealtimeUpdate(m) => RealtimeUpdate::spec_serialize(m),
            BroadcastInboundMessageView::RealtimeCarUpdate(m) => {
                RealtimeCarUpdate::spec_serialize(m)
            },
            BroadcastInboundMessageView::EntryList(m) => EntryList::spec_serialize(m),
            BroadcastInboundMessageView::EntryListCar(m) => CarInfo::spec_serialize(m),
            BroadcastInboundMessageView::TrackData(m) => TrackData::spec_serialize(m),
            BroadcastInboundMessageView::BroadcastingEvent(m) => {
                BroadcastingEvent::spec_serialize(m)
            },
        }
    }

    /// The datagram of the message: its kind, then its payload.
    pub open spec fn datagram(self) -> Seq<u8> {
        seq![self.kind().code()] + self.payload()
    }

    /// Whether the wire format can carry the message.
    pub open spec fn fits(self) -> bool {
        match self {
            BroadcastInboundMessageView::RegistrationResult(m) => m.fits(),
            BroadcastInboundMessageView::RealtimeUpdate(m) => m.fits(),
            BroadcastInboundMessageView::RealtimeCarUpdate(m) => m.fits(),
            BroadcastInboundMessageView::EntryList(m) => m.fits(),
            BroadcastInboundMessageView::EntryListCar(m) => m.fits(),
            BroadcastInboundMessageView::TrackData(m) => m.fits(),
            BroadcastInboundMessageView::BroadcastingEvent(m) => m.fits(),
        }
    }
}

impl BroadcastInboundMessage {
    /// The datagram of the message: its kind, then its payload.
    pub fn serialize(&self) -> (r: Vec<u8>)
        ensures
            r@ == self@.datagram(),
    {
        let mut out: Vec<u8> = Vec::new();
        match self {
            BroadcastInboundMessage::RegistrationResult(m) => {
                out.push(InboundMessageTypes::RegistrationResult.to_primitive());
                m.write(&mut out);
            },
            BroadcastInboundMessage::RealtimeUpdate(m) => {
                out.push(InboundMessageTypes::RealtimeUpdate.to_primitive());
                m.write(&mut out);
            },
            BroadcastInboundMessage::RealtimeCarUpdate(m) => {
                out.push(InboundMessageTypes::RealtimeCarUpdate.to_primitive());
                m.write(&mut out);
            },
            BroadcastInboundMessage::EntryList(m) => {
                out.push(InboundMessageTypes::EntryList.to_primitive());
                m.write(&mut out);
            },
            BroadcastInboundMessage::EntryListCar(m) => {
                out.push(InboundMessageTypes::EntryListCar.to_primitive());
                m.write(&mut out);
            },
            BroadcastInboundMessage::TrackData(m) => {
                out.push(InboundMessageTypes::TrackData.to_primitive());
                m.write(&mut out);
            },
            BroadcastInboundMessage::BroadcastingEvent(m) => {
                out.push(InboundMessageTypes::BroadcastingEvent.to_primitive());
                m.write(&mut out);
            },
        }
        assert(out@ =~= self@.datagram());
        out
    }
}

/// A message that a client sends.
#[derive(Clone, Debug, PartialEq, Eq)]
pub enum BroadcastOutboundMessage {
    RegisterCommandApplication(RegisterConnection),
    UnregisterCommandApplication,
    RequestEntryList(RequestEntryList),
    RequestTrackData(RequestTrackData),
}

/// A message that a client sends, as a mathematical value.
pub enum BroadcastOutboundMessageView {
    RegisterCommandApplication(RegisterConnectionView),
    UnregisterCommandApplication,
    RequestEntryList(RequestEntryList),
    RequestTrackData(RequestTrackData),
}

impl View for BroadcastOutboundMessage {
    type V = BroadcastOutboundMessageView;

    open spec fn view(&self) -> BroadcastOutboundMessageView {
        match self {
            BroadcastOutboundMessage::RegisterCommandApplication(m) => {
                BroadcastOutboundMessageView::RegisterCommandApplication(m@)
            },
            BroadcastOutboundMessage::UnregisterCommandApplication => {
                BroadcastOutboundMessageView::UnregisterCommandApplication
            },
            BroadcastOutboundMessage::RequestEntryList(m) => {
                BroadcastOutboundMessageView::RequestEntryList(*m)
            },
            BroadcastOutboundMessage::RequestTrackData(m) => {
                BroadcastOutboundMessageView::RequestTrackData(*m)
            },
        }
    }
}

impl BroadcastOutboundMessageView {
    /// The kind of the message.
    pub open spec fn kind(self) -> OutboundMessageTypes {
        match self {
            BroadcastOutboundMessageView::RegisterCommandApplication(_) => {
                OutboundMessageTypes::RegisterCommandApplication
            },
            BroadcastOutboundMessageView::UnregisterCommandApplication => {
                OutboundMessageTypes::UnregisterCommandApplication
            },
            BroadcastOutboundMessageView::RequestEntryList(_) => {
                OutboundMessageTypes::RequestEntryList
            },
            BroadcastOutboundMessageView::RequestTrackData(_) => {
                OutboundMessageTypes::RequestTrackData
            },
        }
    }

    /// The payload of the message; unregistering has none.
    pub open spec fn payload(self) -> Seq<u8> {
        match self {
            BroadcastOutboundMessageView::RegisterCommandApplication(m) => {
                RegisterConnection::spec_serialize(m)
            },
            BroadcastOutboundMessageView::UnregisterCommandApplication => Seq::empty(),
            BroadcastOutboundMessageView::RequestEntryList(m) => {
                RequestEntryList::spec_serialize(m)
            },
            BroadcastOutboundMessageView::RequestTrackData(m) => {
                RequestTrackData::spec_serialize(m)
            },
        }
    }

    /// The datagram of the message: its kind, then its payload.
    pub open spec fn datagram(self) -> Seq<u8> {
        seq![self.kind().code()] + self.payload()
    }

    /// Whether the wire format can carry the message.
    pub open spec fn fits(self) -> bool {
        match self {
            BroadcastOutboundMessageView::RegisterCommandApplication(m) => m.fits(),
            _ => true,
        }
    }

    /// The message that a datagram holds. A datagram of a kind that this
    /// library does not send holds none.
    pub open spec fn spec_decode(input: Seq<u8>) -> Result<
        Option<BroadcastOutboundMessageView>,
        ParseError,
    > {
        match OutboundMessageTypes::spec_read(input) {
            Err(e) => Err(e),
            Ok((payload, kind)) => match kind {
                OutboundMessageTypes::RegisterCommandApplication => {
                    match RegisterConnection::spec_deserialize(payload) {
                        Err(e) => Err(e),
                        Ok((_, m)) => Ok(
                            Some(BroadcastOutboundMessageView::RegisterCommandApplication(m)),
                        ),
                    }
                },
                OutboundMessageTypes::UnregisterCommandApplication => Ok(
                    Some(BroadcastOutboundMessageView::UnregisterCommandApplication),
                ),
                OutboundMessageTypes::RequestEntryList => {
                    match RequestEntryList::spec_deserialize(payload) {
                        Err(e) => Err(e),
                        Ok((_, m)) => Ok(Some(BroadcastOutboundMessageView::RequestEntryList(m))),
                    }
                },
                OutboundMessageTypes::RequestTrackData => {
                    match RequestTrackData::spec_deserialize(payload) {
                        Err(e) => Err(e),
                        Ok((_, m)) => Ok(Some(BroadcastOutboundMessageView::RequestTrackData(m))),
                    }
                },
                _ => Ok(None),
            },
        }
    }

    /// A message that the wire format can carry is the one that its datagram
    /// holds.
    pub proof fn lemma_round_trip(self)
        requires
            self.fits(),
        ensures
            Self::spec_decode(self.datagram()) == Ok::<
                Option<BroadcastOutboundMessageView>,
                ParseError,
            >(Some(self)),
    {
        lemma_byte_round_trip(self.kind().code(), self.payload());
        self.kind().lemma_code_round_trip();
        assert(self.payload() + Seq::<u8>::empty() =~= self.payload());
        match self {
            BroadcastOutboundMessageView::RegisterCommandApplication(m) => {
                RegisterConnection::lemma_round_trip(m, Seq::empty());
            },
            BroadcastOutboundMessageView::UnregisterCommandApplication => {},
            BroadcastOutboundMessageView::RequestEntryList(m) => {
                RequestEntryList::lemma_round_trip(m, Seq::empty());
            },
            BroadcastOutboundMessageView::RequestTrackData(m) => {
                RequestTrackData::lemma_round_trip(m, Seq::empty());
            },
        }
    }
}

impl BroadcastOutboundMessage {
    /// The datagram of the message: its kind, then its payload.
    pub fn serialize(&self) -> (r: Vec<u8>)
        ensures
            r@ == self@.datagram(),
    {
        let mut out: Vec<u8> = Vec::new();
        match self {
            BroadcastOutboundMessage::RegisterCommandApplication(m) => {
                out.push(OutboundMessageTypes::RegisterCommandApplication.to_primitive());
                m.write(&mut out);
            },
            BroadcastOutboundMessage::UnregisterCommandApplication => {
                out.push(OutboundMessageTypes::UnregisterCommandApplication.to_primitive());
            },
            BroadcastOutboundMessage::RequestEntryList(m) => {
                out.push(OutboundMessageTypes::RequestEntryList.to_primitive());
                put_le_i32(&mut out, m.connection_id);
            },
            BroadcastOutboundMessage::RequestTrackData(m) => {
                out.push(OutboundMessageTypes::RequestTrackData.to_primitive());
                put_le_i32(&mut out, m.connection_id);
            },
        }
        assert(out@ =~= self@.datagram());
        out
    }

    /// Reads the message that a datagram holds, as the simulator would.
    pub fn decode(input: &[u8]) -> (r: Result<Option<BroadcastOutboundMessage>, ParseError>)
        ensures
            match r {
                Ok(Some(m)) => BroadcastOutboundMessageView::spec_decode(input@) == Ok::<
                    Option<BroadcastOutboundMessageView>,
                    ParseError,
                >(Some(m@)),
                Ok(None) => BroadcastOutboundMessageView::spec_decode(input@) == Ok::<
                    Option<BroadcastOutboundMessageView>,
                    ParseError,
                >(None),
                Err(e) => BroadcastOutboundMessageView::spec_decode(input@) == Err::<
                    Option<BroadcastOutboundMessageView>,
                    ParseError,
                >(e),
            },
    {
        let (payload, kind) = OutboundMessageTypes::read(input)?;
        match kind {
            OutboundMessageTypes::RegisterCommandApplication => {
                let (_, m) = RegisterConnection::deserialize(payload)?;
                Ok(Some(BroadcastOutboundMessage::RegisterCommandApplication(m)))
            },
            OutboundMessageTypes::UnregisterCommandApplication => {
                Ok(Some(BroadcastOutboundMessage::UnregisterCommandApplication))
            },
            OutboundMessageTypes::RequestEntryList => {
                let (_, m) = RequestEntryList::deserialize(payload)?;
                Ok(Some(BroadcastOutboundMessage::RequestEntryList(m)))
            },
            OutboundMessageTypes::RequestTrackData => {
                let (_, m) = RequestTrackData::deserialize(payload)?;
                Ok(Some(BroadcastOutboundMessage::RequestTrackData(m)))
            },
            _ => Ok(None),
        }
    }
}

} // verus!

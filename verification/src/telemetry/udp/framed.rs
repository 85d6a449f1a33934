//! The framed codec: one datagram in, at most one message out, and one
//! message in, one datagram out.
//!
//! A datagram is a whole message. Decoding reads the kind off the first byte
//! and hands the rest to the reader of that kind. A datagram of an unknown
//! kind, and one that ends inside a field of fixed width, yield nothing: the
//! datagram is incomplete. One that cannot be a message is an error: a string
//! with less text than its count says, or with text that is not UTF-8. A
//! datagram that was decoded is taken out of the buffer; one that was not
//! stays in it.

use vstd::prelude::*;
use crate::telemetry::udp::event::{BroadcastingEvent, BroadcastingEventView};
use crate::telemetry::udp::entrylist::{CarInfo, CarInfoView, EntryList, EntryListView};
use crate::telemetry::udp::message::{
    BroadcastInboundMessage, BroadcastInboundMessageView, BroadcastOutboundMessage,
    InboundMessageTypes,
};
use crate::telemetry::udp::realtime_car_update::{RealtimeCarUpdate, RealtimeCarUpdateView};
use crate::telemetry::udp::realtime_update::{RealtimeUpdate, RealtimeUpdateView};
use crate::telemetry::udp::registration::{RegistrationResult, RegistrationResultView};
use crate::telemetry::udp::track_data::{TrackData, TrackDataView};
use crate::telemetry::udp::wire::{lemma_byte_round_trip, ParseError};

verus! {

/// The codec of the broadcasting protocol. It keeps nothing between two
/// datagrams.
#[derive(Clone, Copy, Debug)]
pub struct BroadcastCodec {}

/// Why a datagram could not be decoded.
#[derive(Clone, Copy, Debug, PartialEq, Eq, Structural)]
pub enum FramedError {
    /// A string of the datagram has less text than its count says.
    NomError,
    /// A string of the datagram holds text that is not UTF-8.
    NomFailure,
}

/// What the codec makes of a reader's error: an incomplete datagram yields
/// nothing, the other two are errors of their own.
pub open spec fn spec_err<V>(e: ParseError) -> Result<Option<V>, FramedError> {
    match e {
        ParseError::Incomplete => Ok(None),
        ParseError::Error => Err(FramedError::NomError),
        ParseError::Failure => Err(FramedError::NomFailure),
    }
}

/// What the codec makes of the payload of a registration result.
pub open spec fn spec_decode_registration_result(payload: Seq<u8>) -> Result<
    Option<BroadcastInboundMessageView>,
    FramedError,
> {
    match RegistrationResult::spec_deserialize(payload) {
        Ok((_, m)) => Ok(Some(BroadcastInboundMessageView::RegistrationResult(m))),
        Err(e) => spec_err(e),
    }
}

/// What the codec makes of the payload of a session-wide snapshot.
pub open spec fn spec_decode_realtime_update(payload: Seq<u8>) -> Result<
    Option<BroadcastInboundMessageView>,
    FramedError,
> {
    match RealtimeUpdate::spec_deserialize(payload) {
        Ok((_, m)) => Ok(Some(BroadcastInboundMessageView::RealtimeUpdate(m))),
        Err(e) => spec_err(e),
    }
}

/// What the codec makes of the payload of the snapshot of a car.
pub open spec fn spec_decode_realtime_car_update(payload: Seq<u8>) -> Result<
    Option<BroadcastInboundMessageView>,
    FramedError,
> {
    match RealtimeCarUpdate::spec_deserialize(payload) {
        Ok((_, m)) => Ok(Some(BroadcastInboundMessageView::RealtimeCarUpdate(m))),
        Err(e) => spec_err(e),
    }
}

/// What the codec makes of the payload of an entry list.
pub open spec fn spec_decode_entry_list(payload: Seq<u8>) -> Result<
    Option<BroadcastInboundMessageView>,
    FramedError,
> {
    match EntryList::spec_deserialize(payload) {
        Ok((_, m)) => Ok(Some(BroadcastInboundMessageView::EntryList(m))),
        Err(e) => spec_err(e),
    }
}

/// What the codec makes of the payload of a car of the entry list.
pub open spec fn spec_decode_entry_list_car(payload: Seq<u8>) -> Result<
    Option<BroadcastInboundMessageView>,
    FramedError,
> {
    match CarInfo::spec_deserialize(payload) {
        Ok((_, m)) => Ok(Some(BroadcastInboundMessageView::EntryListCar(m))),
        Err(e) => spec_err(e),
    }
}

/// What the codec makes of the payload of a track.
pub open spec fn spec_decode_track_data(payload: Seq<u8>) -> Result<
    Option<BroadcastInboundMessageView>,
    FramedError,
> {
    match TrackData::spec_deserialize(payload) {
        Ok((_, m)) => Ok(Some(BroadcastInboundMessageView::TrackData(m))),
        Err(e) => spec_err(e),
    }
}

/// What the codec makes of the payload of an event.
pub open spec fn spec_decode_broadcasting_event(payload: Seq<u8>) -> Result<
    Option<BroadcastInboundMessageView>,
    FramedError,
> {
    match BroadcastingEvent::spec_deserialize(payload) {
        Ok((_, m)) => Ok(Some(BroadcastInboundMessageView::BroadcastingEvent(m))),
        Err(e) => spec_err(e),
    }
}

/// The message that a datagram holds.
pub open spec fn spec_decode(src: Seq<u8>) -> Result<
    Option<BroadcastInboundMessageView>,
    FramedError,
> {
    match InboundMessageTypes::spec_read(src) {
        Err(e) => spec_err(e),
        Ok((payload, kind)) => match kind {
            InboundMessageTypes::RegistrationResult => spec_decode_registration_result(payload),
            InboundMessageTypes::RealtimeUpdate => spec_decode_realtime_update(payload),
            InboundMessageTypes::RealtimeCarUpdate => spec_decode_realtime_car_update(payload),
            InboundMessageTypes::EntryList => spec_decode_entry_list(payload),
            InboundMessageTypes::EntryListCar => spec_decode_entry_list_car(payload),
            InboundMessageTypes::TrackData => spec_decode_track_data(payload),
            InboundMessageTypes::BroadcastingEvent => spec_decode_broadcasting_event(payload),
            InboundMessageTypes::Error => Ok(None),
        },
    }
}

/// The executable result `r` is the one that the specification `s` names.
pub open spec fn decoded(
    r: Result<Option<BroadcastInboundMessage>, FramedError>,
    s: Result<Option<BroadcastInboundMessageView>, FramedError>,
) -> bool {
    match r {
        Ok(Some(m)) => s == Ok::<Option<BroadcastInboundMessageView>, FramedError>(Some(m@)),
        Ok(None) => s == Ok::<Option<BroadcastInboundMessageView>, FramedError>(None),
        Err(e) => s == Err::<Option<BroadcastInboundMessageView>, FramedError>(e),
    }
}

/// What the codec makes of a reader's error.
pub fn err<T>(e: ParseError) -> (r: Result<Option<T>, FramedError>)
    ensures
        r == spec_err::<T>(e),
{
    match e {
        ParseError::Incomplete => Ok(None),
        ParseError::Error => Err(FramedError::NomError),
        ParseError::Failure => Err(FramedError::NomFailure),
    }
}

/// Decodes the payload of a registration result.
fn decode_registration_result(input: &[u8]) -> (r: Result<Option<BroadcastInboundMessage>, FramedError>)
    ensures
        decoded(r, spec_decode_registration_result(input@)),
        !(r matches Ok(Some(BroadcastInboundMessage::TrackData(_)))),
{
    match RegistrationResult::deserialize(input) {
        Ok((_, m)) => Ok(Some(BroadcastInboundMessage::RegistrationResult(m))),
        Err(e) => err(e),
    }
}

/// Decodes the payload of a session-wide snapshot.
#[verifier::rlimit(30)]
fn decode_realtime_update(input: &[u8]) -> (r: Result<Option<BroadcastInboundMessage>, FramedError>)
    ensures
        decoded(r, spec_decode_realtime_update(input@)),
        !(r matches Ok(Some(BroadcastInboundMessage::TrackData(_)))),
{
    match RealtimeUpdate::deserialize(input) {
        Ok((_, m)) => Ok(Some(BroadcastInboundMessage::RealtimeUpdate(m))),
        Err(e) => err(e),
    }
}

/// Decodes the payload of the snapshot of a car.
#[verifier::rlimit(30)]
fn decode_realtime_car_update(input: &[u8]) -> (r: Result<Option<BroadcastInboundMessage>, FramedError>)
    ensures
        decoded(r, spec_decode_realtime_car_update(input@)),
        !(r matches Ok(Some(BroadcastInboundMessage::TrackData(_)))),
{
    match RealtimeCarUpdate::deserialize(input) {
        Ok((_, m)) => Ok(Some(BroadcastInboundMessage::RealtimeCarUpdate(m))),
        Err(e) => err(e),
    }
}

/// Decodes the payload of an entry list.
fn decode_entry_list(input: &[u8]) -> (r: Result<Option<BroadcastInboundMessage>, FramedError>)
    ensures
        decoded(r, spec_decode_entry_list(input@)),
        !(r matches Ok(Some(BroadcastInboundMessage::TrackData(_)))),
{
    match EntryList::deserialize(input) {
        Ok((_, m)) => Ok(Some(BroadcastInboundMessage::EntryList(m))),
        Err(e) => err(e),
    }
}

/// Decodes the payload of a car of the entry list.
#[verifier::rlimit(30)]
fn decode_entry_list_car(input: &[u8]) -> (r: Result<Option<BroadcastInboundMessage>, FramedError>)
    ensures
        decoded(r, spec_decode_entry_list_car(input@)),
        !(r matches Ok(Some(BroadcastInboundMessage::TrackData(_)))),
{
    match CarInfo::deserialize(input) {
        Ok((_, m)) => Ok(Some(BroadcastInboundMessage::EntryListCar(m))),
        Err(e) => err(e),
    }
}

/// Decodes the payload of a track.
#[verifier::rlimit(30)]
fn decode_track_data(input: &[u8]) -> (r: Result<Option<BroadcastInboundMessage>, FramedError>)
    ensures
        decoded(r, spec_decode_track_data(input@)),
        r matches Ok(Some(BroadcastInboundMessage::TrackData(track))) ==> track@.wf(),
{
    match TrackData::deserialize(input) {
        Ok((_, m)) => Ok(Some(BroadcastInboundMessage::TrackData(m))),
        Err(e) => err(e),
    }
}

/// Decodes the payload of an event.
fn decode_broadcasting_event(input: &[u8]) -> (r: Result<Option<BroadcastInboundMessage>, FramedError>)
    ensures
        decoded(r, spec_decode_broadcasting_event(input@)),
        !(r matches Ok(Some(BroadcastInboundMessage::TrackData(_)))),
{
    match BroadcastingEvent::deserialize(input) {
        Ok((_, m)) => Ok(Some(BroadcastInboundMessage::BroadcastingEvent(m))),
        Err(e) => err(e),
    }
}

/// Decodes the message that a datagram holds.
pub fn decode_datagram(src: &[u8]) -> (r: Result<Option<BroadcastInboundMessage>, FramedError>)
    ensures
        decoded(r, spec_decode(src@)),
        r matches Ok(Some(BroadcastInboundMessage::TrackData(track))) ==> track@.wf(),
{
    let (input, kind) = match InboundMessageTypes::read(src) {
        Ok(read) => read,
        Err(e) => {
            return err(e);
        },
    };
    match kind {
        InboundMessageTypes::RegistrationResult => decode_registration_result(input),
        InboundMessageTypes::RealtimeUpdate => decode_realtime_update(input),
        InboundMessageTypes::RealtimeCarUpdate => decode_realtime_car_update(input),
        InboundMessageTypes::EntryList => decode_entry_list(input),
        InboundMessageTypes::EntryListCar => decode_entry_list_car(input),
        InboundMessageTypes::TrackData => decode_track_data(input),
        InboundMessageTypes::BroadcastingEvent => decode_broadcasting_event(input),
        InboundMessageTypes::Error => Ok(None),
    }
}

impl BroadcastCodec {
    /// A codec.
    pub fn new() -> (r: BroadcastCodec) {
        BroadcastCodec {  }
    }

    /// Decodes the datagram in `src`. Where it holds a message, the message is
    /// returned and the buffer is emptied; else the buffer stays as it is.
    pub fn decode(&mut self, src: &mut Vec<u8>) -> (r: Result<
        Option<BroadcastInboundMessage>,
        FramedError,
    >)
        ensures
            decoded(r, spec_decode(old(src)@)),
            r matches Ok(Some(BroadcastInboundMessage::TrackData(track))) ==> track@.wf(),
            final(src)@ == (if r matches Ok(Some(_)) {
                Seq::<u8>::empty()
            } else {
                old(src)@
            }),
    {
        let r = decode_datagram(src.as_slice());
        match r {
            Ok(Some(_)) => {
                src.clear();
            },
            _ => {},
        }
        r
    }

    /// Appends the datagram of `item` to `dst`. Encoding does not fail.
    pub fn encode(&mut self, item: BroadcastOutboundMessage, dst: &mut Vec<u8>) -> (r: Result<
        (),
        FramedError,
    >)
        ensures
            r is Ok,
            final(dst)@ == old(dst)@ + item@.datagram(),
    {
        let datagram = item.serialize();
        dst.extend_from_slice(datagram.as_slice());
        Ok(())
    }
}

/// The payload of a registration result that the wire format can carry decodes to it.
proof fn lemma_decode_registration_result(v: RegistrationResultView)
    requires
        v.fits(),
    ensures
        spec_decode_registration_result(RegistrationResult::spec_serialize(v)) == Ok::<
            Option<BroadcastInboundMessageView>,
            FramedError,
        >(Some(BroadcastInboundMessageView::RegistrationResult(v))),
{
    assert(RegistrationResult::spec_serialize(v) + Seq::<u8>::empty() =~= RegistrationResult::spec_serialize(v));
    RegistrationResult::lemma_round_trip(v, Seq::empty());
}

/// The payload of a session-wide snapshot that the wire format can carry decodes to it.
proof fn lemma_decode_realtime_update(v: RealtimeUpdateView)
    requires
        v.fits(),
    ensures
        spec_decode_realtime_update(RealtimeUpdate::spec_serialize(v)) == Ok::<
            Option<BroadcastInboundMessageView>,
            FramedError,
        >(Some(BroadcastInboundMessageView::RealtimeUpdate(v))),
{
    assert(RealtimeUpdate::spec_serialize(v) + Seq::<u8>::empty() =~= RealtimeUpdate::spec_serialize(v));
    RealtimeUpdate::lemma_round_trip(v, Seq::empty());
}

/// The payload of the snapshot of a car that the wire format can carry decodes to it.
proof fn lemma_decode_realtime_car_update(v: RealtimeCarUpdateView)
    requires
        v.fits(),
    ensures
        spec_decode_realtime_car_update(RealtimeCarUpdate::spec_serialize(v)) == Ok::<
            Option<BroadcastInboundMessageView>,
            FramedError,
        >(Some(BroadcastInboundMessageView::RealtimeCarUpdate(v))),
{
    assert(RealtimeCarUpdate::spec_serialize(v) + Seq::<u8>::empty() =~= RealtimeCarUpdate::spec_serialize(v));
    RealtimeCarUpdate::lemma_round_trip(v, Seq::empty());
}

/// The payload of an entry list that the wire format can carry decodes to it.
proof fn lemma_decode_entry_list(v: EntryListView)
    requires
        v.fits(),
    ensures
        spec_decode_entry_list(EntryList::spec_serialize(v)) == Ok::<
            Option<BroadcastInboundMessageView>,
            FramedError,
        >(Some(BroadcastInboundMessageView::EntryList(v))),
{
    assert(EntryList::spec_serialize(v) + Seq::<u8>::empty() =~= EntryList::spec_serialize(v));
    EntryList::lemma_round_trip(v, Seq::empty());
}

/// The payload of a car of the entry list that the wire format can carry decodes to it.
proof fn lemma_decode_entry_list_car(v: CarInfoView)
    requires
        v.fits(),
    ensures
        spec_decode_entry_list_car(CarInfo::spec_serialize(v)) == Ok::<
            Option<BroadcastInboundMessageView>,
            FramedError,
        >(Some(BroadcastInboundMessageView::EntryListCar(v))),
{
    assert(CarInfo::spec_serialize(v) + Seq::<u8>::empty() =~= CarInfo::spec_serialize(v));
    CarInfo::lemma_round_trip(v, Seq::empty());
}

/// The payload of a track that the wire format can carry decodes to it.
proof fn lemma_decode_track_data(v: TrackDataView)
    requires
        v.fits(),
    ensures
        spec_decode_track_data(TrackData::spec_serialize(v)) == Ok::<
            Option<BroadcastInboundMessageView>,
            FramedError,
        >(Some(BroadcastInboundMessageView::TrackData(v))),
{
    assert(TrackData::spec_serialize(v) + Seq::<u8>::empty() =~= TrackData::spec_serialize(v));
    TrackData::lemma_round_trip(v, Seq::empty());
}

/// The payload of an event that the wire format can carry decodes to it.
proof fn lemma_decode_broadcasting_event(v: BroadcastingEventView)
    requires
        v.fits(),
    ensures
        spec_decode_broadcasting_event(BroadcastingEvent::spec_serialize(v)) == Ok::<
            Option<BroadcastInboundMessageView>,
            FramedError,
        >(Some(BroadcastInboundMessageView::BroadcastingEvent(v))),
{
    assert(BroadcastingEvent::spec_serialize(v) + Seq::<u8>::empty() =~= BroadcastingEvent::spec_serialize(v));
    BroadcastingEvent::lemma_round_trip(v, Seq::empty());
}

/// A message that the wire format can carry is the one that the codec
/// decodes from its datagram.
pub proof fn lemma_decode_datagram(m: BroadcastInboundMessageView)
    requires
        m.fits(),
    ensures
        spec_decode(m.datagram()) == Ok::<Option<BroadcastInboundMessageView>, FramedError>(
            Some(m),
        ),
{
    lemma_byte_round_trip(m.kind().code(), m.payload());
    m.kind().lemma_code_round_trip();
    match m {
        BroadcastInboundMessageView::RegistrationResult(v) => {
            lemma_decode_registration_result(v);
        },
        BroadcastInboundMessageView::RealtimeUpdate(v) => {
            lemma_decode_realtime_update(v);
        },
        BroadcastInboundMessageView::RealtimeCarUpdate(v) => {
            lemma_decode_realtime_car_update(v);
        },
        BroadcastInboundMessageView::EntryList(v) => {
            lemma_decode_entry_list(v);
        },
        BroadcastInboundMessageView::EntryListCar(v) => {
            lemma_decode_entry_list_car(v);
        },
        BroadcastInboundMessageView::TrackData(v) => {
            lemma_decode_track_data(v);
        },
        BroadcastInboundMessageView::BroadcastingEvent(v) => {
            lemma_decode_broadcasting_event(v);
        },
    }
}

} // verus!

//! What every message of the protocol offers: its kind, its payload, and the
//! reader that gives the message back.

use vstd::prelude::*;
use crate::telemetry::udp::event::BroadcastingEvent;
use crate::telemetry::udp::entrylist::{CarInfo, EntryList};
use crate::telemetry::udp::message::{
    InboundMessageTypes, OutboundMessageTypes, RequestEntryList, RequestTrackData,
};
use crate::telemetry::udp::realtime_car_update::RealtimeCarUpdate;
use crate::telemetry::udp::realtime_update::RealtimeUpdate;
use crate::telemetry::udp::registration::{RegisterConnection, RegistrationResult};
use crate::telemetry::udp::track_data::TrackData;
use crate::telemetry::udp::wire::{parsed, ParseError, Parsed};

verus! {

/// A message that the simulator sends.
pub trait BroadcastNetworkProtocolInbound: View + Sized {
    /// The kind of the message.
    spec fn kind() -> InboundMessageTypes;

    /// The payload of a message.
    spec fn payload(v: Self::V) -> Seq<u8>;

    /// The message that a payload holds, and the bytes behind it.
    spec fn parse(input: Seq<u8>) -> Parsed<Self::V>;

    /// The kind of the message.
    fn message_type() -> (r: InboundMessageTypes)
        ensures
            r == Self::kind(),
    ;

    /// The payload of the message.
    fn serialize(&self) -> (r: Vec<u8>)
        ensures
            r@ == Self::payload(self@),
    ;

    /// Reads a message off its payload and returns the bytes behind it.
    fn deserialize<'a>(input: &'a [u8]) -> (r: Result<(&'a [u8], Self), ParseError>)
        ensures
            parsed(r, Self::parse(input@)),
    ;
}

/// A message that a client sends.
pub trait BroadcastNetworkProtocolOutbound: View + Sized {
    /// The kind of the message.
    spec fn kind() -> OutboundMessageTypes;

    /// The payload of a message.
    spec fn payload(v: Self::V) -> Seq<u8>;

    /// The message that a payload holds, and the bytes behind it.
    spec fn parse(input: Seq<u8>) -> Parsed<Self::V>;

    /// The kind of the message.
    fn message_type() -> (r: OutboundMessageTypes)
        ensures
            r == Self::kind(),
    ;

    /// The payload of the message.
    fn serialize(&self) -> (r: Vec<u8>)
        ensures
            r@ == Self::payload(self@),
    ;

    /// Reads a message off its payload and returns the bytes behind it.
    fn deserialize<'a>(input: &'a [u8]) -> (r: Result<(&'a [u8], Self), ParseError>)
        ensures
            parsed(r, Self::parse(input@)),
    ;
}

impl BroadcastNetworkProtocolInbound for RegistrationResult {
    open spec fn kind() -> InboundMessageTypes {
        InboundMessageTypes::RegistrationResult
    }

    open spec fn payload(v: Self::V) -> Seq<u8> {
        RegistrationResult::spec_serialize(v)
    }

    open spec fn parse(input: Seq<u8>) -> Parsed<Self::V> {
        RegistrationResult::spec_deserialize(input)
    }

    fn message_type() -> (r: InboundMessageTypes) {
        InboundMessageTypes::RegistrationResult
    }

    fn serialize(&self) -> (r: Vec<u8>) {
        RegistrationResult::serialize(self)
    }

    fn deserialize<'a>(input: &'a [u8]) -> (r: Result<(&'a [u8], Self), ParseError>) {
        RegistrationResult::deserialize(input)
    }
}

impl BroadcastNetworkProtocolInbound for RealtimeUpdate {
    open spec fn kind() -> InboundMessageTypes {
        InboundMessageTypes::RealtimeUpdate
    }

    open spec fn payload(v: Self::V) -> Seq<u8> {
        RealtimeUpdate::spec_serialize(v)
    }

    open spec fn parse(input: Seq<u8>) -> Parsed<Self::V> {
        RealtimeUpdate::spec_deserialize(input)
    }

    fn message_type() -> (r: InboundMessageTypes) {
        InboundMessageTypes::RealtimeUpdate
    }

    fn serialize(&self) -> (r: Vec<u8>) {
        RealtimeUpdate::serialize(self)
    }

    fn deserialize<'a>(input: &'a [u8]) -> (r: Result<(&'a [u8], Self), ParseError>) {
        RealtimeUpdate::deserialize(input)
    }
}

impl BroadcastNetworkProtocolInbound for RealtimeCarUpdate {
    open spec fn kind() -> InboundMessageTypes {
        InboundMessageTypes::RealtimeCarUpdate
    }

    open spec fn payload(v: Self::V) -> Seq<u8> {
        RealtimeCarUpdate::spec_serialize(v)
    }

    open spec fn parse(input: Seq<u8>) -> Parsed<Self::V> {
        RealtimeCarUpdate::spec_deserialize(input)
    }

    fn message_type() -> (r: InboundMessageTypes) {
        InboundMessageTypes::RealtimeCarUpdate
    }

    fn serialize(&self) -> (r: Vec<u8>) {
        RealtimeCarUpdate::serialize(self)
    }

    fn deserialize<'a>(input: &'a [u8]) -> (r: Result<(&'a [u8], Self), ParseError>) {
        RealtimeCarUpdate::deserialize(input)
    }
}

impl BroadcastNetworkProtocolInbound for EntryList {
    open spec fn kind() -> InboundMessageTypes {
        InboundMessageTypes::EntryList
    }

    open spec fn payload(v: Self::V) -> Seq<u8> {
        EntryList::spec_serialize(v)
    }

    open spec fn parse(input: Seq<u8>) -> Parsed<Self::V> {
        EntryList::spec_deserialize(input)
    }

    fn message_type() -> (r: InboundMessageTypes) {
        InboundMessageTypes::EntryList
    }

    fn serialize(&self) -> (r: Vec<u8>) {
        EntryList::serialize(self)
    }

    fn deserialize<'a>(input: &'a [u8]) -> (r: Result<(&'a [u8], Self), ParseError>) {
        EntryList::deserialize(input)
    }
}

impl BroadcastNetworkProtocolInbound for CarInfo {
    open spec fn kind() -> InboundMessageTypes {
        InboundMessageTypes::EntryListCar
    }

    open spec fn payload(v: Self::V) -> Seq<u8> {
        CarInfo::spec_serialize(v)
    }

    open spec fn parse(input: Seq<u8>) -> Parsed<Self::V> {
        CarInfo::spec_deserialize(input)
    }

    fn message_type() -> (r: InboundMessageTypes) {
        InboundMessageTypes::EntryListCar
    }

    fn serialize(&self) -> (r: Vec<u8>) {
        CarInfo::serialize(self)
    }

    fn deserialize<'a>(input: &'a [u8]) -> (r: Result<(&'a [u8], Self), ParseError>) {
        CarInfo::deserialize(input)
    }
}

impl BroadcastNetworkProtocolInbound for TrackData {
    open spec fn kind() -> InboundMessageTypes {
        InboundMessageTypes::TrackData
    }

    open spec fn payload(v: Self::V) -> Seq<u8> {
        TrackData::spec_serialize(v)
    }

    open spec fn parse(input: Seq<u8>) -> Parsed<Self::V> {
        TrackData::spec_deserialize(input)
    }

    fn message_type() -> (r: InboundMessageTypes) {
        InboundMessageTypes::TrackData
    }

    fn serialize(&self) -> (r: Vec<u8>) {
        TrackData::serialize(self)
    }

    fn deserialize<'a>(input: &'a [u8]) -> (r: Result<(&'a [u8], Self), ParseError>) {
        TrackData::deserialize(input)
    }
}

impl BroadcastNetworkProtocolInbound for BroadcastingEvent {
    open spec fn kind() -> InboundMessageTypes {
        InboundMessageTypes::BroadcastingEvent
    }

    open spec fn payload(v: Self::V) -> Seq<u8> {
        BroadcastingEvent::spec_serialize(v)
    }

    open spec fn parse(input: Seq<u8>) -> Parsed<Self::V> {
        BroadcastingEvent::spec_deserialize(input)
    }

    fn message_type() -> (r: InboundMessageTypes) {
        InboundMessageTypes::BroadcastingEvent
    }

    fn serialize(&self) -> (r: Vec<u8>) {
        BroadcastingEvent::serialize(self)
    }

    fn deserialize<'a>(input: &'a [u8]) -> (r: Result<(&'a [u8], Self), ParseError>) {
        BroadcastingEvent::deserialize(input)
    }
}

impl BroadcastNetworkProtocolOutbound for RegisterConnection {
    open spec fn kind() -> OutboundMessageTypes {
        OutboundMessageTypes::RegisterCommandApplication
    }

    open spec fn payload(v: Self::V) -> Seq<u8> {
        RegisterConnection::spec_serialize(v)
    }

    open spec fn parse(input: Seq<u8>) -> Parsed<Self::V> {
        RegisterConnection::spec_deserialize(input)
    }

    fn message_type() -> (r: OutboundMessageTypes) {
        OutboundMessageTypes::RegisterCommandApplication
    }

    fn serialize(&self) -> (r: Vec<u8>) {
        RegisterConnection::serialize(self)
    }

    fn deserialize<'a>(input: &'a [u8]) -> (r: Result<(&'a [u8], Self), ParseError>) {
        RegisterConnection::deserialize(input)
    }
}

impl BroadcastNetworkProtocolOutbound for RequestEntryList {
    open spec fn kind() -> OutboundMessageTypes {
        OutboundMessageTypes::RequestEntryList
    }

    open spec fn payload(v: Self::V) -> Seq<u8> {
        RequestEntryList::spec_serialize(v)
    }

    open spec fn parse(input: Seq<u8>) -> Parsed<Self::V> {
        RequestEntryList::spec_deserialize(input)
    }

    fn message_type() -> (r: OutboundMessageTypes) {
        OutboundMessageTypes::RequestEntryList
    }

    fn serialize(&self) -> (r: Vec<u8>) {
        RequestEntryList::serialize(self)
    }

    fn deserialize<'a>(input: &'a [u8]) -> (r: Result<(&'a [u8], Self), ParseError>) {
        RequestEntryList::deserialize(input)
    }
}

impl BroadcastNetworkProtocolOutbound for RequestTrackData {
    open spec fn kind() -> OutboundMessageTypes {
        OutboundMessageTypes::RequestTrackData
    }

    open spec fn payload(v: Self::V) -> Seq<u8> {
        RequestTrackData::spec_serialize(v)
    }

    open spec fn parse(input: Seq<u8>) -> Parsed<Self::V> {
        RequestTrackData::spec_deserialize(input)
    }

    fn message_type() -> (r: OutboundMessageTypes) {
        OutboundMessageTypes::RequestTrackData
    }

    fn serialize(&self) -> (r: Vec<u8>) {
        RequestTrackData::serialize(self)
    }

    fn deserialize<'a>(input: &'a [u8]) -> (r: Result<(&'a [u8], Self), ParseError>) {
        RequestTrackData::deserialize(input)
    }
}

} // verus!

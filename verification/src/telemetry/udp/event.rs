//! Events that the simulator announces: flags, penalties, accidents, laps.
//!
//! Payload: the event type (one byte), a message (string), the time of the
//! event in milliseconds (`i32`) and the car it concerns (`i32`).

use vstd::prelude::*;
use vstd::slice::slice_subrange;
use crate::telemetry::udp::data::BroadcastingCarEventType;
use crate::telemetry::udp::wire::{
    byte, bytes_i32, bytes_string, i32_at, i32_of_bits, lemma_append_assoc,
    lemma_byte_round_trip, lemma_i32_round_trip, lemma_skip_prefix, lemma_string_round_trip,
    parsed, put_le_i32, put_string, read_string, spec_byte, spec_read_string, string_fits, u32_of,
    ParseError, Parsed,
};

verus! {

/// An event that the simulator announces.
#[derive(Clone, Debug, PartialEq, Eq)]
pub struct BroadcastingEvent {
    pub event_type: BroadcastingCarEventType,
    pub msg: String,
    pub time_ms: i32,
    pub car_id: i32,
}

/// An event as a mathematical value.
pub struct BroadcastingEventView {
    pub event_type: BroadcastingCarEventType,
    pub msg: Seq<char>,
    pub time_ms: i32,
    pub car_id: i32,
}

impl View for BroadcastingEvent {
    type V = BroadcastingEventView;

    open spec fn view(&self) -> BroadcastingEventView {
        BroadcastingEventView {
            event_type: self.event_type,
            msg: self.msg@,
            time_ms: self.time_ms,
            car_id: self.car_id,
        }
    }
}

impl BroadcastingEventView {
    /// Whether the wire format can carry the event: the message fits its
    /// sixteen-bit count.
    pub open spec fn fits(self) -> bool {
        string_fits(self.msg)
    }
}

impl BroadcastingEvent {
    /// The payload of the event.
    pub open spec fn spec_serialize(v: BroadcastingEventView) -> Seq<u8> {
        seq![v.event_type.code()] + bytes_string(v.msg) + bytes_i32(v.time_ms) + bytes_i32(
            v.car_id,
        )
    }

    /// The event that a payload holds.
    pub open spec fn spec_deserialize(input: Seq<u8>) -> Parsed<BroadcastingEventView> {
        match spec_byte(input) {
            Err(e) => Err(e),
            Ok((r1, code)) => match spec_read_string(r1) {
                Err(e) => Err(e),
                Ok((r2, msg)) => {
                    if r2.len() < 8 {
                        Err(ParseError::Incomplete)
                    } else {
                        Ok(
                            (
                                r2.skip(8),
                                BroadcastingEventView {
                                    event_type: BroadcastingCarEventType::of_code(code),
                                    msg,
                                    time_ms: i32_of_bits(u32_of(r2[0], r2[1], r2[2], r2[3])),
                                    car_id: i32_of_bits(u32_of(r2[4], r2[5], r2[6], r2[7])),
                                },
                            ),
                        )
                    }
                },
            },
        }
    }

    /// Appends the payload of the event.
    pub fn write(&self, out: &mut Vec<u8>)
        ensures
            final(out)@ == old(out)@ + Self::spec_serialize(self@),
    {
        out.push(self.event_type.to_primitive());
        put_string(out, self.msg.as_str());
        put_le_i32(out, self.time_ms);
        put_le_i32(out, self.car_id);
        assert(out@ =~= old(out)@ + Self::spec_serialize(self@));
    }

    /// The payload of the event.
    pub fn serialize(&self) -> (r: Vec<u8>)
        ensures
            r@ == Self::spec_serialize(self@),
    {
        let mut out: Vec<u8> = Vec::new();
        self.write(&mut out);
        assert(out@ =~= Self::spec_serialize(self@));
        out
    }

    /// Reads an event off its payload and returns the bytes behind it.
    pub fn deserialize<'a>(input: &'a [u8]) -> (r: Result<
        (&'a [u8], BroadcastingEvent),
        ParseError,
    >)
        ensures
            parsed(r, Self::spec_deserialize(input@)),
    {
        let (r1, code) = byte(input)?;
        let (r2, msg) = read_string(r1)?;
        if r2.len() < 8 {
            return Err(ParseError::Incomplete);
        }
        let time_ms = i32_at(r2, 0);
        let car_id = i32_at(r2, 4);
        let r3 = slice_subrange(r2, 8, r2.len());
        Ok(
            (
                r3,
                BroadcastingEvent {
                    event_type: BroadcastingCarEventType::from_primitive(code),
                    msg: msg.to_owned(),
                    time_ms,
                    car_id,
                },
            ),
        )
    }

    /// An event that the wire format can carry, written and read again, is
    /// the same event.
    #[verifier::rlimit(40)]
    pub proof fn lemma_round_trip(v: BroadcastingEventView, tail: Seq<u8>)
        requires
            v.fits(),
        ensures
            Self::spec_deserialize(Self::spec_serialize(v) + tail) == Ok::<
                (Seq<u8>, BroadcastingEventView),
                ParseError,
            >((tail, v)),
    {
        let code = seq![v.event_type.code()];
        let msg = bytes_string(v.msg);
        let numbers = bytes_i32(v.time_ms) + bytes_i32(v.car_id);
        let input = Self::spec_serialize(v) + tail;
        assert(input == code + (msg + (numbers + tail))) by {
            assert(Self::spec_serialize(v) =~= code + msg + numbers);
            lemma_append_assoc(code + msg, numbers, tail);
            lemma_append_assoc(code, msg, numbers + tail);
        }
        lemma_byte_round_trip(v.event_type.code(), msg + (numbers + tail));
        v.event_type.lemma_code_round_trip();
        lemma_string_round_trip(v.msg, numbers + tail);
        lemma_skip_prefix(numbers, tail);
        lemma_i32_round_trip(v.time_ms, Seq::empty());
        lemma_i32_round_trip(v.car_id, Seq::empty());
    }
}

} // verus!

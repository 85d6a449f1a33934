//! The handshake: the request to register and the simulator's answer.

use vstd::prelude::*;
use crate::telemetry::udp::lapinfo::{flag, flag_byte};
use crate::telemetry::udp::wire::{
    byte, bytes_i32, bytes_string, i32_of_bits, le_i32, lemma_byte_round_trip,
    lemma_i32_round_trip, lemma_string_round_trip, parsed, put_le_i32, put_string, read_string,
    spec_byte, spec_le_i32, spec_read_string, string_fits, u32_of, ParseError, Parsed,
};

verus! {

/// The version of the protocol that this client speaks.
pub const PROTOCOL_VERSION: u8 = 4;

/// Asks the simulator to register this client. It has to be sent once, before
/// anything else can happen.
#[derive(Clone, Debug, PartialEq, Eq)]
pub struct RegisterConnection {
    /// The name under which the client shows up.
    pub display_name: String,
    /// The password that the simulator asks of every client.
    pub connection_password: String,
    /// How often the simulator is to send realtime updates, in milliseconds.
    pub ms_realtime_update_interval: i32,
    /// The password that allows commands; empty where none are sent.
    pub command_password: String,
}

/// A registration request as a mathematical value.
pub struct RegisterConnectionView {
    pub display_name: Seq<char>,
    pub connection_password: Seq<char>,
    pub ms_realtime_update_interval: i32,
    pub command_password: Seq<char>,
}

impl View for RegisterConnection {
    type V = RegisterConnectionView;

    open spec fn view(&self) -> RegisterConnectionView {
        RegisterConnectionView {
            display_name: self.display_name@,
            connection_password: self.connection_password@,
            ms_realtime_update_interval: self.ms_realtime_update_interval,
            command_password: self.command_password@,
        }
    }
}

impl RegisterConnectionView {
    /// Whether the wire format can carry the request: each string fits its
    /// sixteen-bit count.
    pub open spec fn fits(self) -> bool {
        &&& string_fits(self.display_name)
        &&& string_fits(self.connection_password)
        &&& string_fits(self.command_password)
    }
}

impl RegisterConnection {
    /// The payload of the request: the protocol version, the display name,
    /// the connection password, the update interval, the command password.
    pub open spec fn spec_serialize(v: RegisterConnectionView) -> Seq<u8> {
        seq![PROTOCOL_VERSION] + bytes_string(v.display_name) + bytes_string(
            v.connection_password,
        ) + bytes_i32(v.ms_realtime_update_interval) + bytes_string(v.command_password)
    }

    /// The request that a payload holds. The version byte is read and not
    /// looked at.
    pub open spec fn spec_deserialize(input: Seq<u8>) -> Parsed<RegisterConnectionView> {
        match spec_byte(input) {
            Err(e) => Err(e),
            Ok((r1, _version)) => match spec_read_string(r1) {
                Err(e) => Err(e),
                Ok((r2, display_name)) => match spec_read_string(r2) {
                    Err(e) => Err(e),
                    Ok((r3, connection_password)) => match spec_le_i32(r3) {
                        Err(e) => Err(e),
                        Ok((r4, ms_realtime_update_interval)) => match spec_read_string(r4) {
                            Err(e) => Err(e),
                            Ok((r5, command_password)) => Ok(
                                (
                                    r5,
                                    RegisterConnectionView {
                                        display_name,
                                        connection_password,
                                        ms_realtime_update_interval,
                                        command_password,
                                    },
                                ),
                            ),
                        },
                    },
                },
            },
        }
    }

    /// Appends the payload of the request.
    pub fn write(&self, out: &mut Vec<u8>)
        ensures
            final(out)@ == old(out)@ + Self::spec_serialize(self@),
    {
        out.push(PROTOCOL_VERSION);
        put_string(out, self.display_name.as_str());
        put_string(out, self.connection_password.as_str());
        put_le_i32(out, self.ms_realtime_update_interval);
        put_string(out, self.command_password.as_str());
        assert(out@ =~= old(out)@ + Self::spec_serialize(self@));
    }

    /// The payload of the request.
    pub fn serialize(&self) -> (r: Vec<u8>)
        ensures
            r@ == Self::spec_serialize(self@),
    {
        let mut out: Vec<u8> = Vec::new();
        self.write(&mut out);
        assert(out@ =~= Self::spec_serialize(self@));
        out
    }

    /// Reads a request off its payload and returns the bytes behind it.
    pub fn deserialize<'a>(input: &'a [u8]) -> (r: Result<
        (&'a [u8], RegisterConnection),
        ParseError,
    >)
        ensures
            parsed(r, Self::spec_deserialize(input@)),
    {
        let (r1, _version) = byte(input)?;
        let (r2, display_name) = read_string(r1)?;
        let (r3, connection_password) = read_string(r2)?;
        let (r4, ms_realtime_update_interval) = le_i32(r3)?;
        let (r5, command_password) = read_string(r4)?;
        Ok(
            (
                r5,
                RegisterConnection {
                    display_name: display_name.to_owned(),
                    connection_password: connection_password.to_owned(),
                    ms_realtime_update_interval,
                    command_password: command_password.to_owned(),
                },
            ),
        )
    }

    /// A request that the wire format can carry, written and read again, is
    /// the same request.
    #[verifier::rlimit(30)]
    pub proof fn lemma_round_trip(v: RegisterConnectionView, tail: Seq<u8>)
        requires
            v.fits(),
        ensures
            Self::spec_deserialize(Self::spec_serialize(v) + tail) == Ok::<
                (Seq<u8>, RegisterConnectionView),
                ParseError,
            >((tail, v)),
    {
        let t4 = bytes_string(v.command_password) + tail;
        let t3 = bytes_i32(v.ms_realtime_update_interval) + t4;
        let t2 = bytes_string(v.connection_password) + t3;
        let t1 = bytes_string(v.display_name) + t2;
        assert(Self::spec_serialize(v) + tail =~= seq![PROTOCOL_VERSION] + t1);
        lemma_byte_round_trip(PROTOCOL_VERSION, t1);
        lemma_string_round_trip(v.display_name, t2);
        lemma_string_round_trip(v.connection_password, t3);
        lemma_i32_round_trip(v.ms_realtime_update_interval, t4);
        lemma_string_round_trip(v.command_password, tail);
    }
}

/// The simulator's answer to a registration request.
#[derive(Clone, Debug, PartialEq, Eq)]
pub struct RegistrationResult {
    /// The id that names this connection in later requests.
    pub id: i32,
    /// Whether the client is registered.
    pub connection_success: bool,
    /// Whether the connection may only read. On the wire the byte is zero for
    /// a connection that may only read.
    pub read_only: bool,
    /// Why the registration failed.
    pub err_msg: String,
}

/// A registration result as a mathematical value.
pub struct RegistrationResultView {
    pub id: i32,
    pub connection_success: bool,
    pub read_only: bool,
    pub err_msg: Seq<char>,
}

impl View for RegistrationResult {
    type V = RegistrationResultView;

    open spec fn view(&self) -> RegistrationResultView {
        RegistrationResultView {
            id: self.id,
            connection_success: self.connection_success,
            read_only: self.read_only,
            err_msg: self.err_msg@,
        }
    }
}

impl RegistrationResultView {
    /// Whether the wire format can carry the result: the message fits its
    /// sixteen-bit count.
    pub open spec fn fits(self) -> bool {
        string_fits(self.err_msg)
    }
}

impl RegistrationResult {
    /// The payload of the result: the connection id, the success flag, the
    /// read-only byte, the error message.
    pub open spec fn spec_serialize(v: RegistrationResultView) -> Seq<u8> {
        bytes_i32(v.id) + seq![flag(v.connection_success), flag(!v.read_only)] + bytes_string(
            v.err_msg,
        )
    }

    /// The result that a payload holds. A buffer that ends inside one of its
    /// numbers is incomplete.
    pub open spec fn spec_deserialize(input: Seq<u8>) -> Parsed<RegistrationResultView> {
        if input.len() < 6 {
            Err(ParseError::Incomplete)
        } else {
            match spec_read_string(input.skip(6)) {
                Err(e) => Err(e),
                Ok((rest, err_msg)) => Ok(
                    (
                        rest,
                        RegistrationResultView {
                            id: i32_of_bits(u32_of(input[0], input[1], input[2], input[3])),
                            connection_success: input[4] > 0,
                            read_only: input[5] == 0,
                            err_msg,
                        },
                    ),
                ),
            }
        }
    }

    /// Appends the payload of the result.
    pub fn write(&self, out: &mut Vec<u8>)
        ensures
            final(out)@ == old(out)@ + Self::spec_serialize(self@),
    {
        put_le_i32(out, self.id);
        out.push(flag_byte(self.connection_success));
        out.push(flag_byte(!self.read_only));
        put_string(out, self.err_msg.as_str());
        assert(out@ =~= old(out)@ + Self::spec_serialize(self@));
    }

    /// The payload of the result.
    pub fn serialize(&self) -> (r: Vec<u8>)
        ensures
            r@ == Self::spec_serialize(self@),
    {
        let mut out: Vec<u8> = Vec::new();
        self.write(&mut out);
        assert(out@ =~= Self::spec_serialize(self@));
        out
    }

    /// Reads a result off its payload and returns the bytes behind it.
    pub fn deserialize<'a>(input: &'a [u8]) -> (r: Result<
        (&'a [u8], RegistrationResult),
        ParseError,
    >)
        ensures
            parsed(r, Self::spec_deserialize(input@)),
    {
        let (r1, id) = le_i32(input)?;
        let (r2, connection_success) = byte(r1)?;
        let (r3, read_only) = byte(r2)?;
        assert(r3@ =~= input@.skip(6));
        let (r4, err_msg) = read_string(r3)?;
        Ok(
            (
                r4,
                RegistrationResult {
                    id,
                    connection_success: connection_success > 0,
                    read_only: read_only == 0,
                    err_msg: err_msg.to_owned(),
                },
            ),
        )
    }

    /// A result that the wire format can carry, written and read again, is
    /// the same result.
    pub proof fn lemma_round_trip(v: RegistrationResultView, tail: Seq<u8>)
        requires
            v.fits(),
        ensures
            Self::spec_deserialize(Self::spec_serialize(v) + tail) == Ok::<
                (Seq<u8>, RegistrationResultView),
                ParseError,
            >((tail, v)),
    {
        let flags = seq![flag(v.connection_success), flag(!v.read_only)];
        let input = Self::spec_serialize(v) + tail;
        assert(input =~= bytes_i32(v.id) + (flags + (bytes_string(v.err_msg) + tail)));
        lemma_i32_round_trip(v.id, flags + (bytes_string(v.err_msg) + tail));
        assert(input.skip(6) =~= bytes_string(v.err_msg) + tail);
        lemma_string_round_trip(v.err_msg, tail);
    }
}

} // verus!

//! The simulator's side of the protocol, as far as it takes to try a client
//! out without a simulator: it takes the datagrams of a client in and, once
//! a client has registered, frames the messages that are to reach it.

use vstd::prelude::*;
use crate::telemetry::udp::message::{
    BroadcastInboundMessage, BroadcastOutboundMessage, BroadcastOutboundMessageView,
};
use crate::telemetry::udp::wire::ParseError;

verus! {

/// A stand-in for the simulator.
#[derive(Clone, Copy, Debug, PartialEq, Eq, Structural)]
pub struct BroadcastDebugger {
    /// Whether a client has registered.
    pub registered: bool,
}

impl BroadcastDebugger {
    /// A stand-in without a client.
    pub fn new() -> (r: BroadcastDebugger)
        ensures
            !r.registered,
    {
        BroadcastDebugger { registered: false }
    }

    /// Whether a datagram registers a client.
    pub open spec fn registers(datagram: Seq<u8>) -> bool {
        BroadcastOutboundMessageView::spec_decode(datagram) matches Ok(
            Some(BroadcastOutboundMessageView::RegisterCommandApplication(_)),
        )
    }

    /// Takes the datagram of a client in and returns the message that it
    /// holds. A registration request makes its sender the client; nothing
    /// else changes who the client is.
    pub fn receive(&mut self, datagram: &[u8]) -> (r: Result<
        Option<BroadcastOutboundMessage>,
        ParseError,
    >)
        ensures
            match r {
                Ok(Some(m)) => BroadcastOutboundMessageView::spec_decode(datagram@) == Ok::<
                    Option<BroadcastOutboundMessageView>,
                    ParseError,
                >(Some(m@)),
                Ok(None) => BroadcastOutboundMessageView::spec_decode(datagram@) == Ok::<
                    Option<BroadcastOutboundMessageView>,
                    ParseError,
                >(None),
                Err(e) => BroadcastOutboundMessageView::spec_decode(datagram@) == Err::<
                    Option<BroadcastOutboundMessageView>,
                    ParseError,
                >(e),
            },
            final(self).registered == (old(self).registered || Self::registers(datagram@)),
    {
        let decoded = BroadcastOutboundMessage::decode(datagram);
        match &decoded {
            Ok(Some(BroadcastOutboundMessage::RegisterCommandApplication(_))) => {
                self.registered = true;
            },
            _ => {},
        }
        decoded
    }

    /// The datagram that carries `message` to the client, where there is a
    /// client.
    pub fn send(&self, message: &BroadcastInboundMessage) -> (r: Option<Vec<u8>>)
        ensures
            match r {
                Some(datagram) => self.registered && datagram@ == message@.datagram(),
                None => !self.registered,
            },
    {
        if self.registered {
            Some(message.serialize())
        } else {
            None
        }
    }
}

} // verus!

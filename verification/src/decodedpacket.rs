//! A decoded packet kept together with the datagram buffer it came from, so
//! that the buffer can be handed back for reuse once the packet is done with.

use crate::packet::{DecodePacket, RawPacket};
use vstd::prelude::*;

verus! {

/// A packet and the raw datagram that it was decoded from.
///
/// The packet type must be one that copies what it keeps out of the
/// datagram, so that packet and buffer can travel together.
pub struct DecodedPacket<P> {
    raw: RawPacket,
    packet: P,
}

impl<P> DecodedPacket<P> {
    /// The raw datagram.
    pub closed spec fn raw(&self) -> RawPacket {
        self.raw
    }

    /// The decoded packet.
    pub closed spec fn spec_packet(&self) -> P {
        self.packet
    }

    /// The decoded packet.
    pub fn packet(&self) -> (r: &P)
        ensures
            *r == self.spec_packet(),
    {
        &self.packet
    }

    /// Gives up the packet and returns the datagram's buffer, zeroed for
    /// reuse.
    pub fn into_inner(self) -> (buffer: Vec<u8>)
        ensures
            buffer@.len() == self.raw().buffer().len(),
            forall|i: int| 0 <= i < buffer@.len() ==> buffer@[i] == 0,
    {
        self.raw.get_buffer()
    }
}

impl<P: for <'a>DecodePacket<'a>> DecodedPacket<P> {
    /// Decodes `raw` as a packet of type `P` and keeps the two together.
    ///
    /// Returns `None`, and drops the datagram, if it does not decode.
    pub fn decode(raw: RawPacket) -> (r: Option<DecodedPacket<P>>)
        requires
            raw.wf(),
        ensures
            match r {
                Some(decoded) => decoded.raw() == raw && Some(decoded.spec_packet()@) == P::parse(
                    raw.bytes(),
                ),
                None => P::parse(raw.bytes()) is None,
            },
    {
        let decoded: Option<P> = P::decode(raw.packet_buf());
        match decoded {
            Some(packet) => Some(DecodedPacket { raw: raw, packet: packet }),
            None => None,
        }
    }
}

impl<P> std::ops::Deref for DecodedPacket<P> {
    type Target = P;

    fn deref(&self) -> (r: &P)
        ensures
            *r == self.spec_packet(),
    {
        &self.packet
    }
}

} // verus!

//! Length-prefixed framing of raw packets on a byte stream.
use vstd::prelude::*;

use super::buffer::Buffer;
use crate::java::proto::u32_from_be;

verus! {

broadcast use vstd::seq::group_seq_axioms, vstd::seq_lib::group_seq_properties;

/// The payload of one framed packet.
#[derive(Debug, Clone, PartialEq, Eq)]
pub struct RawPacket(pub Vec<u8>);

impl RawPacket {
    #[must_use]
    pub fn new(data: Vec<u8>) -> (r: Self)
        ensures
            r.0@ == data@,
    {
        RawPacket(data)
    }

    #[must_use]
    pub fn len(&self) -> (r: usize)
        ensures
            r == self.0@.len(),
    {
        self.0.len()
    }

    #[must_use]
    pub fn is_empty(&self) -> (r: bool)
        ensures
            r == (self.0@.len() == 0),
    {
        self.0.is_empty()
    }

    #[must_use]
    pub fn into_data(self) -> (r: Vec<u8>)
        ensures
            r@ == self.0@,
    {
        self.0
    }
}

/// The frame at the front of `bytes`: a big-endian u32 payload length, then
/// the payload. Gives the payload and the frame's total length, or `None`
/// while the frame is incomplete.
pub open spec fn spec_frame(bytes: Seq<u8>) -> Option<(Seq<u8>, nat)> {
    if bytes.len() < 4 {
        None
    } else {
        let len = u32_from_be(bytes.take(4)) as nat;
        if 4 + len > bytes.len() {
            None
        } else {
            Some((bytes.subrange(4, 4 + len as int), 4 + len))
        }
    }
}

/// Takes one complete frame off the front of the buffer. An incomplete
/// frame leaves the buffer untouched.
#[must_use]
pub fn frame_packet(buf: &mut Buffer) -> (r: Option<RawPacket>)
    ensures
        match spec_frame(old(buf)@) {
            None => r is None && final(buf)@ == old(buf)@,
            Some((payload, used)) => (r matches Some(p) && p.0@ == payload) && final(buf)@ == old(buf)@.skip(used as int),
        },
{
    if buf.len() < 4 {
        return None;
    }
    let header = match buf.peek(4) {
        Some(header) => header,
        None => return None,
    };
    let len = (((header[0] as u32) << 24) | ((header[1] as u32) << 16) | ((header[2] as u32) << 8) | (header[3] as u32)) as usize;
    let total = match len.checked_add(4) {
        Some(total) => total,
        None => return None,
    };
    let bytes = match buf.take(total) {
        Some(bytes) => bytes,
        None => return None,
    };
    let mut payload: Vec<u8> = Vec::new();
    let mut i: usize = 4;
    while i < bytes.len()
        invariant
            4 <= i <= bytes@.len(),
            payload@ == bytes@.subrange(4, i as int),
        decreases bytes.len() - i,
    {
        payload.push(bytes[i]);
        i = i + 1;
        assert(payload@ =~= bytes@.subrange(4, i as int));
    }
    proof {
        assert(bytes@.subrange(4, bytes@.len() as int) =~= old(buf)@.subrange(4, 4 + len as int));
    }
    Some(RawPacket::new(payload))
}

/// Framing round trip: a payload behind its big-endian u32 length comes
/// back whole, whatever bytes follow it, and exactly the frame is consumed.
pub proof fn law_frame_roundtrip(payload: Seq<u8>, rest: Seq<u8>)
    requires
        payload.len() <= u32::MAX,
    ensures
        spec_frame(crate::java::proto::u32_be(payload.len() as u32) + payload + rest)
            == Some((payload, 4 + payload.len())),
{
    let n = payload.len() as u32;
    let bytes = crate::java::proto::u32_be(n) + payload + rest;
    assert(bytes.take(4) =~= crate::java::proto::u32_be(n));
    assert((((((n >> 24) as u8) as u32) << 24) | ((((n >> 16) as u8) as u32) << 16) | ((((n >> 8) as u8) as u32) << 8) | ((n as u8) as u32)) == n) by (bit_vector);
    assert(bytes.subrange(4, 4 + payload.len() as int) =~= payload);
}

/// A frame that has only partly arrived is waited for: every proper
/// prefix of a framed payload gives no frame.
pub proof fn law_frame_waits(payload: Seq<u8>, cut: int)
    requires
        payload.len() <= u32::MAX,
        0 <= cut < 4 + payload.len(),
    ensures
        spec_frame((crate::java::proto::u32_be(payload.len() as u32) + payload).take(cut)) is None,
{
    let bytes = crate::java::proto::u32_be(payload.len() as u32) + payload;
    if cut >= 4 {
        law_frame_roundtrip(payload, Seq::empty());
        assert(bytes.take(cut).take(4) =~= (bytes + Seq::empty()).take(4));
    }
}

} // verus!

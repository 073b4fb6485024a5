//! Packet framing: `[2-byte little-endian length][payload]`, where the length
//! counts its own two bytes.

use vstd::prelude::*;

verus! {

/// Largest payload a frame can carry.
pub const MAX_PAYLOAD_LEN: usize = 65533;

/// The two header bytes written in front of a payload of `payload_len` bytes:
/// `payload_len + 2` as a 16-bit little-endian number. A payload of more than
/// `MAX_PAYLOAD_LEN` bytes has no header.
pub open spec fn frame_header(payload_len: nat) -> Seq<u8>
    recommends
        payload_len <= MAX_PAYLOAD_LEN,
{
    let total = payload_len + 2;
    seq![(total % 256) as u8, (total / 256) as u8]
}

/// The frame of a payload: header, then the payload as it is.
pub open spec fn frame_of(payload: Seq<u8>) -> Seq<u8> {
    frame_header(payload.len()) + payload
}

/// The total length a header declares.
pub open spec fn declared_length(lo: u8, hi: u8) -> int {
    hi as int * 256 + lo as int
}

/// The payload length a header stands for, if the header is acceptable: the
/// declared total must cover the header itself, and the payload may not
/// exceed `MAX_PAYLOAD_LEN`.
pub open spec fn payload_length(lo: u8, hi: u8) -> Option<usize> {
    let total = declared_length(lo, hi);
    if total < 2 || total - 2 > MAX_PAYLOAD_LEN {
        None
    } else {
        Some((total - 2) as usize)
    }
}

/// Encodes a payload into a frame. The payload must fit a frame: its length
/// plus the two header bytes is what the header declares.
pub fn encode_frame(payload: &[u8]) -> (frame: Vec<u8>)
    requires
        payload@.len() <= MAX_PAYLOAD_LEN,
    ensures
        frame@ == frame_of(payload@),
        frame@.len() == payload@.len() + 2,
        declared_length(frame@[0], frame@[1]) == frame@.len(),
        payload_length(frame@[0], frame@[1]) == Some(payload@.len() as usize),
{
    let total: usize = payload.len() + 2;
    let mut frame: Vec<u8> = Vec::new();
    frame.push((total % 256) as u8);
    frame.push((total / 256) as u8);
    let ghost header = frame@;
    frame.extend_from_slice(payload);
    assert(frame@ =~= header + payload@);
    frame
}

/// Recovers the payload length from the two header bytes.
pub fn decode_length(lo: u8, hi: u8) -> (r: Option<usize>)
    ensures
        r == payload_length(lo, hi),
        r is None <==> declared_length(lo, hi) < 2,
{
    let length: u16 = (hi as u16) * 256 + (lo as u16);
    if length < 2 {
        return None;
    }
    let data_len: usize = (length - 2) as usize;
    if data_len > MAX_PAYLOAD_LEN {
        return None;
    }
    Some(data_len)
}

/// Every payload that fits a frame is announced by its header with its exact
/// length.
pub proof fn lemma_frame_length_round_trip(p: Seq<u8>)
    requires
        p.len() <= MAX_PAYLOAD_LEN,
    ensures
        payload_length(frame_of(p)[0], frame_of(p)[1]) == Some(p.len() as usize),
{
}

/// Headers that declare a total length of 0 or 1 are rejected.
pub proof fn lemma_short_headers_rejected()
    ensures
        payload_length(0, 0) is None,
        payload_length(1, 0) is None,
{
}

} // verus!

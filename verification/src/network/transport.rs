//! What goes over the wire after the handshake: each payload is padded to a
//! multiple of four bytes, encrypted, and framed; each frame that arrives is
//! decrypted.

use crate::network::cipher::{advance_key, decrypt_bytes, encrypt_bytes, lemma_round_trip, Cipher};
use crate::network::codec::{encode_frame, frame_of, MAX_PAYLOAD_LEN};
use vstd::prelude::*;

verus! {

/// Largest payload that can be sealed: with its padding it still fits a
/// frame.
pub const MAX_SEALED_LEN: usize = 65532;

/// How many zero bytes are appended to a payload of `n` bytes: as few as make
/// its length a multiple of four that is not zero.
pub open spec fn padding_len(n: nat) -> nat {
    if n == 0 {
        4
    } else {
        ((4 - n % 4) % 4) as nat
    }
}

/// A payload with its padding.
pub open spec fn padded(payload: Seq<u8>) -> Seq<u8> {
    payload + Seq::new(padding_len(payload.len()), |i: int| 0u8)
}

/// Pads a payload with zero bytes to a multiple of four bytes, and to four
/// bytes at least.
pub fn pad_payload(payload: &mut Vec<u8>)
    ensures
        final(payload)@ == padded(old(payload)@),
        final(payload)@.len() >= 4,
        final(payload)@.len() % 4 == 0,
        final(payload)@.len() < old(payload)@.len() + 4 || old(payload)@.len() == 0,
{
    let ghost start = payload@;
    assert(payload@ =~= start + Seq::new(0, |i: int| 0u8));
    while payload.len() < 4 || payload.len() % 4 != 0
        invariant
            payload@.len() >= start.len(),
            payload@ == start + Seq::new((payload@.len() - start.len()) as nat, |i: int| 0u8),
            payload@.len() - start.len() <= padding_len(start.len()),
            payload@.len() < 4 || payload@.len() % 4 != 0 ==> payload@.len() - start.len()
                < padding_len(start.len()),
        decreases padding_len(start.len()) - (payload@.len() - start.len()),
    {
        let ghost before = payload@;
        payload.push(0);
        assert(payload@ =~= start + Seq::new(
            (payload@.len() - start.len()) as nat,
            |i: int| 0u8,
        ));
    }
}

/// The frame that carries a payload under an encrypt key.
pub open spec fn sealed(key: Seq<u8>, payload: Seq<u8>) -> Seq<u8> {
    frame_of(encrypt_bytes(key, padded(payload)))
}

/// Pads, encrypts and frames a payload, and advances the encrypt key. The
/// payload must be one that fits a frame once it is padded.
pub fn seal_packet(cipher: &mut Cipher, payload: Vec<u8>) -> (frame: Vec<u8>)
    requires
        payload@.len() <= MAX_SEALED_LEN,
    ensures
        frame@ == sealed(old(cipher)@.enc, payload@),
        padded(payload@).len() <= MAX_PAYLOAD_LEN,
        frame@.len() == padded(payload@).len() + 2,
        final(cipher)@.enc == advance_key(old(cipher)@.enc, padded(payload@).subrange(0, 4)),
        final(cipher)@.dec == old(cipher)@.dec,
{
    let mut body = payload;
    pad_payload(&mut body);
    cipher.encrypt(body.as_mut_slice());
    encode_frame(body.as_slice())
}

/// Decrypts the body of a frame that arrived, and advances the decrypt key.
/// A body of fewer than four bytes cannot have been encrypted; it is handed
/// back as `None` and the cipher stays as it is.
pub fn open_packet(cipher: &mut Cipher, body: Vec<u8>) -> (payload: Option<Vec<u8>>)
    ensures
        body@.len() < 4 ==> payload is None && *final(cipher) == *old(cipher),
        body@.len() >= 4 ==> {
            &&& payload is Some
            &&& payload.unwrap()@ == decrypt_bytes(old(cipher)@.dec, body@)
            &&& final(cipher)@.dec == advance_key(
                old(cipher)@.dec,
                payload.unwrap()@.subrange(0, 4),
            )
            &&& final(cipher)@.enc == old(cipher)@.enc
        },
{
    if body.len() < 4 {
        return None;
    }
    let mut data = body;
    cipher.decrypt(data.as_mut_slice());
    Some(data)
}

/// What was sealed under a key is opened under the same key as the padded
/// payload: the payload itself, followed by zero bytes only.
pub proof fn lemma_sealed_body_opens(key: Seq<u8>, payload: Seq<u8>)
    requires
        key.len() == 8,
    ensures
        ({
            let body = encrypt_bytes(key, padded(payload));
            &&& sealed(key, payload) == frame_of(body)
            &&& body.len() >= 4
            &&& decrypt_bytes(key, body) == padded(payload)
            &&& padded(payload).subrange(0, payload.len() as int) == payload
        }),
{
    lemma_round_trip(key, padded(payload));
    assert(padded(payload).subrange(0, payload.len() as int) =~= payload);
}

} // verus!

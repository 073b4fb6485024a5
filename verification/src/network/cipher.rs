//! XOR-chain packet cipher.
//!
//! Each connection owns one `Cipher`. Both directions start from the same
//! eight key bytes, derived from the handshake seed, and each direction's key
//! advances after every packet using the first four plaintext bytes.

use vstd::prelude::*;

verus! {

pub const C1: u32 = 0x9c30d539;
pub const C2: u32 = 0x930fd7e2;
pub const C3: u32 = 0x7c72e993;
pub const C4: u32 = 0x287effc3;

/// Mathematical state of a cipher: the two eight-byte keys.
pub struct CipherState {
    pub enc: Seq<u8>,
    pub dec: Seq<u8>,
}

/// Rotation of a 32-bit word to the left by 19 bits.
pub open spec fn rotl19(x: u32) -> u32 {
    (x << 19u32) | (x >> 13u32)
}

/// Byte `j` (0 = least significant) of a 32-bit word.
pub open spec fn word_byte(w: u32, j: int) -> u8 {
    if j == 0 {
        (w & 0xff) as u8
    } else if j == 1 {
        ((w >> 8u32) & 0xff) as u8
    } else if j == 2 {
        ((w >> 16u32) & 0xff) as u8
    } else {
        ((w >> 24u32) & 0xff) as u8
    }
}

/// The little-endian 32-bit word made of four bytes.
pub open spec fn word_of(b0: u8, b1: u8, b2: u8, b3: u8) -> u32 {
    ((b3 as u32) << 24u32) | ((b2 as u32) << 16u32) | ((b1 as u32) << 8u32) | (b0 as u32)
}

/// First key word derived from the handshake seed.
pub open spec fn seed_word0(seed: u32) -> u32 {
    rotl19(seed ^ C1)
}

/// Second key word derived from the handshake seed.
pub open spec fn seed_word1(seed: u32) -> u32 {
    C2 ^ seed_word0(seed) ^ C3
}

/// The eight key bytes both directions start from.
pub open spec fn key_from_seed(seed: u32) -> Seq<u8> {
    let w0 = seed_word0(seed);
    let w1 = seed_word1(seed);
    seq![
        word_byte(w0, 0),
        word_byte(w0, 1),
        word_byte(w0, 2),
        word_byte(w0, 3),
        word_byte(w1, 0),
        word_byte(w1, 1),
        word_byte(w1, 2),
        word_byte(w1, 3),
    ]
}

/// 32-bit addition with wraparound.
pub open spec fn add_wrap32(a: u32, b: u32) -> u32 {
    ((a as int + b as int) % 0x1_0000_0000) as u32
}

/// Key after one packet whose first four plaintext bytes are `r`.
pub open spec fn advance_key(key: Seq<u8>, r: Seq<u8>) -> Seq<u8>
    recommends
        key.len() == 8,
        r.len() >= 4,
{
    let w = add_wrap32(word_of(key[4], key[5], key[6], key[7]), C4);
    seq![
        key[0] ^ r[0],
        key[1] ^ r[1],
        key[2] ^ r[2],
        key[3] ^ r[3],
        word_byte(w, 0),
        word_byte(w, 1),
        word_byte(w, 2),
        word_byte(w, 3),
    ]
}

/// Byte `i` of the forward XOR chain over plaintext `p`: each byte is XORed
/// with the previous output byte and the key byte at `i mod 8`.
pub open spec fn chain_byte(key: Seq<u8>, p: Seq<u8>, i: int) -> u8
    recommends
        key.len() == 8,
        0 <= i < p.len(),
    decreases i,
{
    if i <= 0 {
        p[0] ^ key[0]
    } else {
        p[i] ^ chain_byte(key, p, i - 1) ^ key[i % 8]
    }
}

/// The forward XOR chain over the whole buffer.
pub open spec fn chain(key: Seq<u8>, p: Seq<u8>) -> Seq<u8> {
    Seq::new(p.len(), |i: int| chain_byte(key, p, i))
}

/// The re-mixing pass over the first four bytes of a chained buffer.
pub open spec fn mix_head(key: Seq<u8>, c: Seq<u8>) -> Seq<u8>
    recommends
        key.len() == 8,
        c.len() >= 4,
{
    let m3 = c[3] ^ key[2];
    let m2 = c[2] ^ (key[3] ^ m3);
    let m1 = c[1] ^ (key[4] ^ m2);
    let m0 = c[0] ^ (key[5] ^ m1);
    c.update(0, m0).update(1, m1).update(2, m2).update(3, m3)
}

/// Inverse of `mix_head`.
pub open spec fn unmix_head(key: Seq<u8>, c: Seq<u8>) -> Seq<u8>
    recommends
        key.len() == 8,
        c.len() >= 4,
{
    let u0 = c[0] ^ (key[5] ^ c[1]);
    let u1 = c[1] ^ (key[4] ^ c[2]);
    let u2 = c[2] ^ (key[3] ^ c[3]);
    let u3 = c[3] ^ key[2];
    c.update(0, u0).update(1, u1).update(2, u2).update(3, u3)
}

/// Byte `i` of the backward pass over a buffer `d` whose head is unmixed.
pub open spec fn unchain_byte(key: Seq<u8>, d: Seq<u8>, i: int) -> u8
    recommends
        key.len() == 8,
        0 <= i < d.len(),
{
    if i <= 0 {
        d[0] ^ key[0]
    } else {
        d[i] ^ (d[i - 1] ^ key[i % 8])
    }
}

/// The backward pass over the whole buffer.
pub open spec fn unchain(key: Seq<u8>, d: Seq<u8>) -> Seq<u8> {
    Seq::new(d.len(), |i: int| unchain_byte(key, d, i))
}

/// Ciphertext of plaintext `p` under `key`.
pub open spec fn encrypt_bytes(key: Seq<u8>, p: Seq<u8>) -> Seq<u8>
    recommends
        key.len() == 8,
        p.len() >= 4,
{
    mix_head(key, chain(key, p))
}

/// Plaintext of ciphertext `c` under `key`.
pub open spec fn decrypt_bytes(key: Seq<u8>, c: Seq<u8>) -> Seq<u8>
    recommends
        key.len() == 8,
        c.len() >= 4,
{
    unchain(key, unmix_head(key, c))
}

/// The state every cipher built from `seed` starts in: both directions hold
/// the same key.
pub open spec fn initial_state(seed: u32) -> CipherState {
    CipherState { enc: key_from_seed(seed), dec: key_from_seed(seed) }
}

pub struct Cipher {
    /// Encrypt key (8 bytes, advanced after each encrypt call)
    eb: [u8; 8],
    /// Decrypt key (8 bytes, advanced after each decrypt call)
    db: [u8; 8],
}

impl View for Cipher {
    type V = CipherState;

    closed spec fn view(&self) -> CipherState {
        CipherState { enc: self.eb@, dec: self.db@ }
    }
}

proof fn lemma_xor_cancel(a: u8, b: u8, k: u8)
    ensures
        (a ^ b ^ k) ^ (b ^ k) == a,
        (a ^ (b ^ k)) ^ (b ^ k) == a,
{
    assert((a ^ b ^ k) ^ (b ^ k) == a) by (bit_vector);
    assert((a ^ (b ^ k)) ^ (b ^ k) == a) by (bit_vector);
}

proof fn lemma_low3(i: usize)
    ensures
        (i & 7) == i % 8,
        (i & 7) < 8,
{
    assert((i & 7) == i % 8) by (bit_vector);
    assert((i & 7) < 8) by (bit_vector);
}

proof fn lemma_low_byte(w: u32)
    ensures
        (w & 0xff) as u8 == (w % 256) as u8,
{
    assert((w & 0xff) == w % 256) by (bit_vector);
}

/// Two ciphers built from the same seed are in the same state.
pub proof fn lemma_same_seed_same_state(a: Cipher, b: Cipher, seed: u32)
    requires
        a@ == initial_state(seed),
        b@ == initial_state(seed),
    ensures
        a@ == b@,
        a@.enc == a@.dec,
{
}

/// Undoing the head mix restores the chained bytes.
proof fn lemma_unmix_mix(key: Seq<u8>, c: Seq<u8>)
    requires
        key.len() == 8,
        c.len() >= 4,
    ensures
        unmix_head(key, mix_head(key, c)) == c,
{
    let m = mix_head(key, c);
    lemma_xor_cancel(c[0], key[5], m[1]);
    lemma_xor_cancel(c[1], key[4], m[2]);
    lemma_xor_cancel(c[2], key[3], m[3]);
    let k2 = key[2];
    let c3 = c[3];
    assert((c3 ^ k2) ^ k2 == c3) by (bit_vector);
    assert(unmix_head(key, m) =~= c);
}

/// Decrypting what was encrypted under the same key gives the plaintext back,
/// for every buffer of at least four bytes.
pub proof fn lemma_round_trip(key: Seq<u8>, b: Seq<u8>)
    requires
        key.len() == 8,
        b.len() >= 4,
    ensures
        decrypt_bytes(key, encrypt_bytes(key, b)) == b,
{
    let c = chain(key, b);
    lemma_unmix_mix(key, c);
    assert forall|i: int| 0 <= i < b.len() implies unchain_byte(key, c, i) == b[i] by {
        if i == 0 {
            let b0 = b[0];
            let k0 = key[0];
            assert((b0 ^ k0) ^ k0 == b0) by (bit_vector);
        } else {
            lemma_xor_cancel(b[i], c[i - 1], key[i % 8]);
        }
    }
    assert(unchain(key, c) =~= b);
}

/// A sender and a receiver that start from the same key stay synchronized:
/// after a packet is encrypted on one side and decrypted on the other, the
/// plaintext is recovered and both sides hold the same next key.
pub proof fn lemma_keys_stay_synchronized(key: Seq<u8>, b: Seq<u8>)
    requires
        key.len() == 8,
        b.len() >= 4,
    ensures
        advance_key(key, decrypt_bytes(key, encrypt_bytes(key, b)).subrange(0, 4)) == advance_key(
            key,
            b.subrange(0, 4),
        ),
        advance_key(key, b.subrange(0, 4)).len() == 8,
{
    lemma_round_trip(key, b);
}

/// Two packets encrypted in order and decrypted in the same order are both
/// recovered.
pub proof fn lemma_in_order_packets_recovered(key: Seq<u8>, p1: Seq<u8>, p2: Seq<u8>)
    requires
        key.len() == 8,
        p1.len() >= 4,
        p2.len() >= 4,
    ensures
        ({
            let c1 = encrypt_bytes(key, p1);
            let sender_key = advance_key(key, p1.subrange(0, 4));
            let c2 = encrypt_bytes(sender_key, p2);
            let d1 = decrypt_bytes(key, c1);
            let receiver_key = advance_key(key, d1.subrange(0, 4));
            let d2 = decrypt_bytes(receiver_key, c2);
            d1 == p1 && receiver_key == sender_key && d2 == p2
        }),
{
    lemma_round_trip(key, p1);
    lemma_keys_stay_synchronized(key, p1);
    lemma_round_trip(advance_key(key, p1.subrange(0, 4)), p2);
}

/// The ciphertexts of a stream of packets that are encrypted one after the
/// other, the key advancing with each.
pub open spec fn encrypt_stream(key: Seq<u8>, packets: Seq<Seq<u8>>) -> Seq<Seq<u8>>
    decreases packets.len(),
{
    if packets.len() == 0 {
        Seq::empty()
    } else {
        seq![encrypt_bytes(key, packets[0])] + encrypt_stream(
            advance_key(key, packets[0].subrange(0, 4)),
            packets.drop_first(),
        )
    }
}

/// The plaintexts of a stream of ciphertexts that are decrypted one after the
/// other, the key advancing with each.
pub open spec fn decrypt_stream(key: Seq<u8>, ciphertexts: Seq<Seq<u8>>) -> Seq<Seq<u8>>
    decreases ciphertexts.len(),
{
    if ciphertexts.len() == 0 {
        Seq::empty()
    } else {
        let plain = decrypt_bytes(key, ciphertexts[0]);
        seq![plain] + decrypt_stream(
            advance_key(key, plain.subrange(0, 4)),
            ciphertexts.drop_first(),
        )
    }
}

/// Any number of packets encrypted in order and decrypted in the same order
/// are all recovered.
pub proof fn lemma_stream_round_trip(key: Seq<u8>, packets: Seq<Seq<u8>>)
    requires
        key.len() == 8,
        forall|i: int| 0 <= i < packets.len() ==> (#[trigger] packets[i]).len() >= 4,
    ensures
        decrypt_stream(key, encrypt_stream(key, packets)) == packets,
    decreases packets.len(),
{
    if packets.len() > 0 {
        let first = packets[0];
        let rest = packets.drop_first();
        let next = advance_key(key, first.subrange(0, 4));
        let sealed = encrypt_stream(key, packets);
        lemma_round_trip(key, first);
        assert forall|i: int| 0 <= i < rest.len() implies (#[trigger] rest[i]).len() >= 4 by {
            assert(rest[i] == packets[i + 1]);
        }
        lemma_stream_round_trip(next, rest);
        assert(sealed[0] == encrypt_bytes(key, first));
        assert(sealed.drop_first() =~= encrypt_stream(next, rest));
        assert(decrypt_stream(key, sealed) =~= seq![first] + rest);
        assert(seq![first] + rest =~= packets);
    } else {
        assert(decrypt_stream(key, encrypt_stream(key, packets)) =~= packets);
    }
}

/// Processing a packet always changes the key, so a side that skips a packet
/// no longer shares a key with its peer.
pub proof fn lemma_skipped_packet_desynchronizes(key: Seq<u8>, r: Seq<u8>)
    requires
        key.len() == 8,
        r.len() >= 4,
    ensures
        advance_key(key, r) != key,
        advance_key(key, r)[4] != key[4],
{
    let w0 = word_of(key[4], key[5], key[6], key[7]);
    let w = add_wrap32(w0, C4);
    let k4 = key[4];
    let k5 = key[5];
    let k6 = key[6];
    let k7 = key[7];
    assert((((k7 as u32) << 24u32) | ((k6 as u32) << 16u32) | ((k5 as u32) << 8u32) | (k4 as u32))
        & 0xff == k4 as u32) by (bit_vector);
    lemma_low_byte(w0);
    lemma_low_byte(w);
    assert(w0 % 256 == k4);
    assert(w % 256 == (w0 + 0xc3) % 256);
}

/// Packets that differ in their first four bytes lead to different keys, so
/// processing packets in another order than the peer did leaves the two
/// sides with different keys.
pub proof fn lemma_different_heads_different_keys(key: Seq<u8>, r1: Seq<u8>, r2: Seq<u8>)
    requires
        key.len() == 8,
        r1.len() >= 4,
        r2.len() >= 4,
        r1.subrange(0, 4) != r2.subrange(0, 4),
    ensures
        advance_key(key, r1) != advance_key(key, r2),
{
    let a = advance_key(key, r1);
    let b = advance_key(key, r2);
    if a == b {
        assert forall|i: int| 0 <= i < 4 implies r1[i] == r2[i] by {
            let x = key[i];
            let y = r1[i];
            let z = r2[i];
            assert(a[i] == b[i]);
            assert((x ^ y) == (x ^ z) ==> y == z) by (bit_vector);
        }
        assert(r1.subrange(0, 4) =~= r2.subrange(0, 4));
    }
}

impl Cipher {
    /// Creates the cipher for a connection from the handshake seed.
    pub fn new(key: u32) -> (c: Cipher)
        ensures
            c@ == initial_state(key),
    {
        let k0: u32 = key ^ C1;
        let w0: u32 = (k0 << 19u32) | (k0 >> 13u32);
        let w1: u32 = C2 ^ w0 ^ C3;
        let eb: [u8; 8] = [
            (w0 & 0xff) as u8,
            ((w0 >> 8u32) & 0xff) as u8,
            ((w0 >> 16u32) & 0xff) as u8,
            ((w0 >> 24u32) & 0xff) as u8,
            (w1 & 0xff) as u8,
            ((w1 >> 8u32) & 0xff) as u8,
            ((w1 >> 16u32) & 0xff) as u8,
            ((w1 >> 24u32) & 0xff) as u8,
        ];
        let db: [u8; 8] = eb;
        assert(eb@ =~= key_from_seed(key));
        Cipher { eb, db }
    }

    /// The current encrypt-direction key.
    pub fn encrypt_key(&self) -> (k: [u8; 8])
        ensures
            k@ == self@.enc,
    {
        self.eb
    }

    /// The current decrypt-direction key.
    pub fn decrypt_key(&self) -> (k: [u8; 8])
        ensures
            k@ == self@.dec,
    {
        self.db
    }

    /// The key that follows `key` after a packet starting with `reference`.
    fn update_key(key: &[u8; 8], reference: &[u8; 4]) -> (next: [u8; 8])
        ensures
            next@ == advance_key(key@, reference@),
    {
        let w: u32 = ((key[7] as u32) << 24u32) | ((key[6] as u32) << 16u32) | ((key[5] as u32)
            << 8u32) | (key[4] as u32);
        let w2: u32 = w.wrapping_add(C4);
        let next: [u8; 8] = [
            key[0] ^ reference[0],
            key[1] ^ reference[1],
            key[2] ^ reference[2],
            key[3] ^ reference[3],
            (w2 & 0xff) as u8,
            ((w2 >> 8u32) & 0xff) as u8,
            ((w2 >> 16u32) & 0xff) as u8,
            ((w2 >> 24u32) & 0xff) as u8,
        ];
        assert(next@ =~= advance_key(key@, reference@));
        next
    }

    /// Encrypts `data` in place and advances the encrypt key with the first
    /// four plaintext bytes.
    pub fn encrypt(&mut self, data: &mut [u8])
        requires
            old(data)@.len() >= 4,
        ensures
            final(data)@ == encrypt_bytes(old(self)@.enc, old(data)@),
            final(self)@.enc == advance_key(old(self)@.enc, old(data)@.subrange(0, 4)),
            final(self)@.dec == old(self)@.dec,
    {
        let ghost p = data@;
        let ghost key = self.eb@;
        let tb: [u8; 4] = [data[0], data[1], data[2], data[3]];
        let n: usize = data.len();

        data[0] = data[0] ^ self.eb[0];
        let mut i: usize = 1;
        while i < n
            invariant
                1 <= i <= n,
                n == p.len(),
                data@.len() == n,
                key == self.eb@,
                forall|j: int| 0 <= j < i ==> data@[j] == chain_byte(key, p, j),
                forall|j: int| i <= j < n ==> data@[j] == p[j],
            decreases n - i,
        {
            proof {
                lemma_low3(i);
            }
            let ghost prev = data@;
            data[i] = data[i] ^ data[i - 1] ^ self.eb[i & 7];
            assert(data@[i as int] == p[i as int] ^ chain_byte(key, p, i - 1) ^ key[(i % 8) as int]);
            assert(forall|j: int| 0 <= j < i ==> data@[j] == prev[j]);
            i += 1;
        }
        assert(data@ =~= chain(key, p));

        data[3] = data[3] ^ self.eb[2];
        data[2] = data[2] ^ (self.eb[3] ^ data[3]);
        data[1] = data[1] ^ (self.eb[4] ^ data[2]);
        data[0] = data[0] ^ (self.eb[5] ^ data[1]);
        assert(data@ =~= mix_head(key, chain(key, p)));

        self.eb = Self::update_key(&self.eb, &tb);
        assert(tb@ =~= p.subrange(0, 4));
    }

    /// Decrypts `data` in place and advances the decrypt key with the first
    /// four plaintext bytes.
    pub fn decrypt(&mut self, data: &mut [u8])
        requires
            old(data)@.len() >= 4,
        ensures
            final(data)@ == decrypt_bytes(old(self)@.dec, old(data)@),
            final(self)@.dec == advance_key(old(self)@.dec, final(data)@.subrange(0, 4)),
            final(self)@.enc == old(self)@.enc,
    {
        let ghost c = data@;
        let ghost key = self.db@;
        let n: usize = data.len();

        data[0] = data[0] ^ (self.db[5] ^ data[1]);
        data[1] = data[1] ^ (self.db[4] ^ data[2]);
        data[2] = data[2] ^ (self.db[3] ^ data[3]);
        data[3] = data[3] ^ self.db[2];
        assert(data@ =~= unmix_head(key, c));
        let ghost d = data@;

        let mut i: usize = n - 1;
        while i >= 1
            invariant
                0 <= i < n,
                n == d.len(),
                data@.len() == n,
                key == self.db@,
                forall|j: int| i < j < n ==> data@[j] == unchain_byte(key, d, j),
                forall|j: int| 0 <= j <= i ==> data@[j] == d[j],
            decreases i,
        {
            proof {
                lemma_low3(i);
            }
            data[i] = data[i] ^ (data[i - 1] ^ self.db[i & 7]);
            i -= 1;
        }
        data[0] = data[0] ^ self.db[0];
        assert(data@ =~= unchain(key, d));

        let rb: [u8; 4] = [data[0], data[1], data[2], data[3]];
        assert(rb@ =~= data@.subrange(0, 4));
        self.db = Self::update_key(&self.db, &rb);
    }
}

} // verus!

//! Packet builder and reader.
//!
//! All multi-byte integers are little-endian. Strings are Big5 bytes followed
//! by a zero byte. A read that would run past the end of the buffer yields
//! zero (or the empty string) and leaves the cursor where it was.

use crate::protocol::encoding::{big5_decode, big5_encode, decode_big5, encode_big5, MAX_TEXT_LEN};
use vstd::prelude::*;
use vstd::slice::slice_subrange;

verus! {

// ---------------------------------------------------------------------------
// Field layouts
// ---------------------------------------------------------------------------

/// The 32-bit two's complement pattern of `v`, as a natural number.
pub open spec fn bits32(v: i32) -> int {
    if v < 0 {
        v + 0x1_0000_0000
    } else {
        v as int
    }
}

/// Byte `k` (0 = least significant) of the two's complement pattern of `v`.
pub open spec fn byte_of(v: i32, k: int) -> u8 {
    if k == 0 {
        (bits32(v) % 256) as u8
    } else if k == 1 {
        ((bits32(v) / 0x100) % 256) as u8
    } else if k == 2 {
        ((bits32(v) / 0x1_0000) % 256) as u8
    } else {
        ((bits32(v) / 0x100_0000) % 256) as u8
    }
}

/// One byte: the low eight bits of `v`.
pub open spec fn field_c(v: i32) -> Seq<u8> {
    seq![byte_of(v, 0)]
}

/// Two bytes: the low sixteen bits of `v`, little-endian.
pub open spec fn field_h(v: i32) -> Seq<u8> {
    seq![byte_of(v, 0), byte_of(v, 1)]
}

/// Four bytes: `v`, little-endian.
pub open spec fn field_d(v: i32) -> Seq<u8> {
    seq![byte_of(v, 0), byte_of(v, 1), byte_of(v, 2), byte_of(v, 3)]
}

/// A text field: the Big5 bytes of the text, then a zero byte.
pub open spec fn field_s(text: Seq<char>) -> Seq<u8> {
    big5_encode(text).push(0u8)
}

/// A text field that may be absent: an absent text is the bare terminator.
pub open spec fn field_opt_s(text: Option<Seq<char>>) -> Seq<u8> {
    match text {
        Some(t) => field_s(t),
        None => seq![0u8],
    }
}

/// The unsigned 16-bit number whose little-endian bytes are `b0, b1`.
pub open spec fn u16_of_le(b0: u8, b1: u8) -> u16 {
    (b0 as int + 0x100 * b1 as int) as u16
}

/// The signed 32-bit number whose little-endian bytes are `b0 .. b3`.
pub open spec fn i32_of_le(b0: u8, b1: u8, b2: u8, b3: u8) -> i32 {
    let u = b0 as int + 0x100 * b1 as int + 0x1_0000 * b2 as int + 0x100_0000 * b3 as int;
    if u >= 0x8000_0000 {
        (u - 0x1_0000_0000) as i32
    } else {
        u as i32
    }
}

/// The signed 32-bit number with the same low 32 bits as `v`: what is left
/// of a number when it is cut to 32 bits.
pub open spec fn cut32(v: int) -> i32 {
    let m = v % 0x1_0000_0000;
    if m >= 0x8000_0000 {
        (m - 0x1_0000_0000) as i32
    } else {
        m as i32
    }
}

/// Cuts a number to 32 bits.
pub fn cut_to_32(v: i128) -> (r: i32)
    ensures
        r == cut32(v as int),
{
    let m: i128 = v % 0x1_0000_0000;
    let m: i128 = if m < 0 {
        m + 0x1_0000_0000
    } else {
        m
    };
    if m >= 0x8000_0000 {
        (m - 0x1_0000_0000) as i32
    } else {
        m as i32
    }
}

/// Cuts an unsigned 32-bit number to a signed one with the same bits.
pub fn cut_u32(v: u32) -> (r: i32)
    ensures
        r == cut32(v as int),
{
    if v >= 0x8000_0000 {
        (v as i64 - 0x1_0000_0000) as i32
    } else {
        v as i32
    }
}

/// Cuts a length to a signed 32-bit number with the same low bits.
pub fn cut_len(n: usize) -> (r: i32)
    ensures
        r == cut32(n as int),
{
    let m: u64 = (n as u64) % 0x1_0000_0000;
    if m >= 0x8000_0000 {
        (m as i64 - 0x1_0000_0000) as i32
    } else {
        m as i32
    }
}

/// A number kept between two bounds.
pub open spec fn clamped(v: i32, low: i32, high: i32) -> i32 {
    if v < low {
        low
    } else if v > high {
        high
    } else {
        v
    }
}

/// Keeps a number between two bounds.
pub fn clamp_to(v: i32, low: i32, high: i32) -> (r: i32)
    requires
        low <= high,
    ensures
        r == clamped(v, low, high),
{
    if v < low {
        low
    } else if v > high {
        high
    } else {
        v
    }
}

// ---------------------------------------------------------------------------
// Reading: what a cursor at `pos` over `data` yields, and where it goes
// ---------------------------------------------------------------------------

/// Value of an 8-bit read at `pos`.
pub open spec fn peek_c(data: Seq<u8>, pos: int) -> u8 {
    if 0 <= pos < data.len() {
        data[pos]
    } else {
        0
    }
}

/// Cursor after an 8-bit read at `pos`.
pub open spec fn after_c(data: Seq<u8>, pos: int) -> int {
    if 0 <= pos < data.len() {
        pos + 1
    } else {
        pos
    }
}

/// Value of a 16-bit read at `pos`.
pub open spec fn peek_h(data: Seq<u8>, pos: int) -> u16 {
    if 0 <= pos && pos + 1 < data.len() {
        u16_of_le(data[pos], data[pos + 1])
    } else {
        0
    }
}

/// Cursor after a 16-bit read at `pos`.
pub open spec fn after_h(data: Seq<u8>, pos: int) -> int {
    if 0 <= pos && pos + 1 < data.len() {
        pos + 2
    } else {
        pos
    }
}

/// Value of a 32-bit read at `pos`.
pub open spec fn peek_d(data: Seq<u8>, pos: int) -> i32 {
    if 0 <= pos && pos + 3 < data.len() {
        i32_of_le(data[pos], data[pos + 1], data[pos + 2], data[pos + 3])
    } else {
        0
    }
}

/// Cursor after a 32-bit read at `pos`.
pub open spec fn after_d(data: Seq<u8>, pos: int) -> int {
    if 0 <= pos && pos + 3 < data.len() {
        pos + 4
    } else {
        pos
    }
}

/// Index of the first zero byte at or after `pos`, or the end of the data
/// if there is none. A cursor beyond the end stays where it is.
pub open spec fn text_end(data: Seq<u8>, pos: int) -> int
    decreases data.len() - pos,
{
    if pos < 0 || pos >= data.len() {
        pos
    } else if data[pos] == 0 {
        pos
    } else {
        text_end(data, pos + 1)
    }
}

/// The raw bytes of the text field at `pos`, without the terminator.
pub open spec fn text_span(data: Seq<u8>, pos: int) -> Seq<u8> {
    if 0 <= pos < data.len() {
        data.subrange(pos, text_end(data, pos))
    } else {
        Seq::empty()
    }
}

/// Value of a text read at `pos`: the decoded text field, or the empty text
/// where the cursor is at or beyond the end of the data.
pub open spec fn peek_s(data: Seq<u8>, pos: int) -> Seq<char> {
    if 0 <= pos < data.len() {
        big5_decode(text_span(data, pos))
    } else {
        Seq::empty()
    }
}

/// Cursor after a text read at `pos`: past the terminator if there is one.
pub open spec fn after_s(data: Seq<u8>, pos: int) -> int {
    let end = text_end(data, pos);
    if 0 <= end < data.len() {
        end + 1
    } else {
        end
    }
}

/// The end of a text field lies between the cursor and the end of the data.
pub proof fn lemma_text_end_bounds(data: Seq<u8>, pos: int)
    requires
        0 <= pos <= data.len(),
    ensures
        pos <= text_end(data, pos) <= data.len(),
        forall|j: int| pos <= j < text_end(data, pos) ==> data[j] != 0,
        text_end(data, pos) < data.len() ==> data[text_end(data, pos)] == 0,
    decreases data.len() - pos,
{
    if pos < data.len() && data[pos] != 0 {
        lemma_text_end_bounds(data, pos + 1);
    }
}

// ---------------------------------------------------------------------------
// PacketBuilder - for constructing server -> client packets
// ---------------------------------------------------------------------------

pub struct PacketBuilder {
    buf: Vec<u8>,
}

impl View for PacketBuilder {
    type V = Seq<u8>;

    closed spec fn view(&self) -> Seq<u8> {
        self.buf@
    }
}

/// The two's complement pattern of `value`.
fn pattern_of(value: i32) -> (u: u32)
    ensures
        u == bits32(value),
{
    if value < 0 {
        (value as i64 + 0x1_0000_0000) as u32
    } else {
        value as u32
    }
}

impl PacketBuilder {
    /// Starts a packet with the given opcode as the first byte.
    pub fn new(opcode: u8) -> (pb: PacketBuilder)
        ensures
            pb@ == seq![opcode],
    {
        let mut buf: Vec<u8> = Vec::with_capacity(64);
        buf.push(opcode);
        assert(buf@ =~= seq![opcode]);
        PacketBuilder { buf }
    }

    /// Writes a single byte: the low eight bits of `value`.
    pub fn write_c(self, value: i32) -> (pb: PacketBuilder)
        ensures
            pb@ == self@ + field_c(value),
    {
        let mut buf = self.buf;
        let u: u32 = pattern_of(value);
        buf.push((u % 256) as u8);
        assert(buf@ =~= self@ + field_c(value));
        PacketBuilder { buf }
    }

    /// Writes a 16-bit integer (little-endian): the low sixteen bits of `value`.
    pub fn write_h(self, value: i32) -> (pb: PacketBuilder)
        ensures
            pb@ == self@ + field_h(value),
    {
        let mut buf = self.buf;
        let u: u32 = pattern_of(value);
        buf.push((u % 256) as u8);
        buf.push(((u / 0x100) % 256) as u8);
        assert(buf@ =~= self@ + field_h(value));
        PacketBuilder { buf }
    }

    /// Writes a 32-bit integer (little-endian).
    pub fn write_d(self, value: i32) -> (pb: PacketBuilder)
        ensures
            pb@ == self@ + field_d(value),
    {
        let mut buf = self.buf;
        let u: u32 = pattern_of(value);
        buf.push((u % 256) as u8);
        buf.push(((u / 0x100) % 256) as u8);
        buf.push(((u / 0x1_0000) % 256) as u8);
        buf.push(((u / 0x100_0000) % 256) as u8);
        assert(buf@ =~= self@ + field_d(value));
        PacketBuilder { buf }
    }

    /// Writes a zero-terminated string in Big5 encoding. An absent string is
    /// written as the bare terminator.
    pub fn write_s(self, text: Option<&str>) -> (pb: PacketBuilder)
        requires
            text is Some ==> text.unwrap()@.len() <= MAX_TEXT_LEN,
        ensures
            pb@ == self@ + match text {
                Some(s) => field_s(s@),
                None => seq![0u8],
            },
    {
        let mut buf = self.buf;
        if let Some(s) = text {
            let mut encoded = encode_big5(s);
            buf.append(&mut encoded);
        }
        buf.push(0x00);
        assert(buf@ =~= self@ + match text {
            Some(s) => field_s(s@),
            None => seq![0u8],
        });
        PacketBuilder { buf }
    }

    /// Writes raw bytes as they are.
    pub fn write_bytes(self, bytes: &[u8]) -> (pb: PacketBuilder)
        ensures
            pb@ == self@ + bytes@,
    {
        let mut buf = self.buf;
        buf.extend_from_slice(bytes);
        assert(buf@ =~= self@ + bytes@);
        PacketBuilder { buf }
    }

    /// Consumes the builder and returns the raw packet bytes.
    pub fn build(self) -> (bytes: Vec<u8>)
        ensures
            bytes@ == self@,
    {
        self.buf
    }
}

// ---------------------------------------------------------------------------
// PacketReader - for parsing client -> server packets
// ---------------------------------------------------------------------------

pub struct PacketReader<'a> {
    data: &'a [u8],
    pos: usize,
}

impl<'a> PacketReader<'a> {
    /// The bytes being read.
    pub closed spec fn bytes(&self) -> Seq<u8> {
        self.data@
    }

    /// The cursor: index of the next byte to read.
    pub closed spec fn cursor(&self) -> nat {
        self.pos as nat
    }

    /// Creates a reader over raw packet data.
    pub fn new(data: &'a [u8]) -> (r: PacketReader<'a>)
        ensures
            r.bytes() == data@,
            r.cursor() == 0,
    {
        PacketReader { data, pos: 0 }
    }

    /// Creates a reader starting after the opcode byte.
    pub fn after_opcode(data: &'a [u8]) -> (r: PacketReader<'a>)
        ensures
            r.bytes() == data@,
            r.cursor() == 1,
    {
        PacketReader { data, pos: 1 }
    }

    /// Reads a single byte (8-bit unsigned).
    pub fn read_c(&mut self) -> (v: u8)
        ensures
            v == peek_c(old(self).bytes(), old(self).cursor() as int),
            final(self).cursor() == after_c(old(self).bytes(), old(self).cursor() as int),
            final(self).bytes() == old(self).bytes(),
    {
        if self.pos >= self.data.len() {
            return 0;
        }
        let v = self.data[self.pos];
        self.pos += 1;
        v
    }

    /// Reads a 16-bit integer (little-endian, unsigned).
    pub fn read_h(&mut self) -> (v: u16)
        ensures
            v == peek_h(old(self).bytes(), old(self).cursor() as int),
            final(self).cursor() == after_h(old(self).bytes(), old(self).cursor() as int),
            final(self).bytes() == old(self).bytes(),
    {
        let n: usize = self.data.len();
        if n < 2 || self.pos > n - 2 {
            return 0;
        }
        let v: u16 = (self.data[self.pos] as u16) + 0x100 * (self.data[self.pos + 1] as u16);
        self.pos += 2;
        v
    }

    /// Reads a 32-bit integer (little-endian, signed).
    pub fn read_d(&mut self) -> (v: i32)
        ensures
            v == peek_d(old(self).bytes(), old(self).cursor() as int),
            final(self).cursor() == after_d(old(self).bytes(), old(self).cursor() as int),
            final(self).bytes() == old(self).bytes(),
    {
        let n: usize = self.data.len();
        if n < 4 || self.pos > n - 4 {
            return 0;
        }
        let u: i64 = (self.data[self.pos] as i64) + 0x100 * (self.data[self.pos + 1] as i64)
            + 0x1_0000 * (self.data[self.pos + 2] as i64) + 0x100_0000 * (self.data[self.pos
            + 3] as i64);
        self.pos += 4;
        if u >= 0x8000_0000 {
            (u - 0x1_0000_0000) as i32
        } else {
            u as i32
        }
    }

    /// Reads a zero-terminated string, decoding from Big5.
    pub fn read_s(&mut self) -> (s: String)
        requires
            old(self).bytes().len() <= MAX_TEXT_LEN,
        ensures
            s@ == peek_s(old(self).bytes(), old(self).cursor() as int),
            final(self).cursor() == after_s(old(self).bytes(), old(self).cursor() as int),
            final(self).bytes() == old(self).bytes(),
    {
        let n: usize = self.data.len();
        if self.pos >= n {
            return String::new();
        }
        let start: usize = self.pos;
        let ghost data = self.data@;
        while self.pos < n && self.data[self.pos] != 0
            invariant
                n == data.len(),
                data == self.data@,
                start <= self.pos <= n,
                text_end(data, start as int) == text_end(data, self.pos as int),
            decreases n - self.pos,
        {
            self.pos += 1;
        }
        proof {
            lemma_text_end_bounds(data, start as int);
        }
        let s = decode_big5(slice_subrange(self.data, start, self.pos));
        if self.pos < n {
            self.pos += 1;
        }
        s
    }

    /// Skips `n` bytes.
    pub fn skip(&mut self, n: usize)
        requires
            old(self).cursor() + n <= usize::MAX,
        ensures
            final(self).cursor() == old(self).cursor() + n,
            final(self).bytes() == old(self).bytes(),
    {
        self.pos += n;
    }

    /// Whether there is more data to read.
    pub fn has_remaining(&self) -> (b: bool)
        ensures
            b == (self.cursor() < self.bytes().len()),
    {
        self.pos < self.data.len()
    }
}

/// A 32-bit field that was written is read back as the same number.
pub proof fn lemma_field_d_round_trip(v: i32)
    ensures
        peek_d(field_d(v), 0) == v,
        after_d(field_d(v), 0) == 4,
{
}

/// A 16-bit field that was written is read back as the low sixteen bits.
pub proof fn lemma_field_h_round_trip(v: i32)
    ensures
        peek_h(field_h(v), 0) as int == bits32(v) % 0x1_0000,
        after_h(field_h(v), 0) == 2,
{
}

/// An 8-bit field that was written is read back as the low eight bits.
pub proof fn lemma_field_c_round_trip(v: i32)
    ensures
        peek_c(field_c(v), 0) as int == bits32(v) % 256,
        after_c(field_c(v), 0) == 1,
{
}

} // verus!

//! Big5 text encoding used on the wire.
//!
//! Text is kept as Rust strings everywhere inside the server and is
//! transcoded only where a packet is written or read.

use encoding_rs::BIG5;
use vstd::prelude::*;

verus! {

/// Longest text, in characters, that is handed to the encoder, and longest
/// byte span that is handed to the decoder. Both size their output buffers
/// from the input length, with room for replacements; below this bound those
/// computations cannot overflow, whatever the width of `usize`.
pub const MAX_TEXT_LEN: usize = 0x100_0000;

/// The Big5 bytes of a text, with characters that Big5 cannot express
/// replaced by numeric character references.
pub uninterp spec fn big5_encode(text: Seq<char>) -> Seq<u8>;

/// The text that a span of Big5 bytes stands for, with malformed sequences
/// replaced by U+FFFD. A span that starts with a byte order mark stands for
/// what follows the mark, read in the encoding that the mark names.
pub uninterp spec fn big5_decode(bytes: Seq<u8>) -> Seq<char>;

/// Encodes a string to Big5 bytes, without a terminator.
///
/// Calls `encoding_rs::Encoding::encode` on `BIG5`. The contract only names
/// the result: the same text always gives the same bytes. The bound keeps the
/// encoder's buffer size computation from overflowing.
#[verifier::external_body]
pub fn encode_big5(text: &str) -> (bytes: Vec<u8>)
    requires
        text@.len() <= MAX_TEXT_LEN,
    ensures
        bytes@ == big5_encode(text@),
{
    let (encoded, _encoding, _had_errors) = BIG5.encode(text);
    encoded.into_owned()
}

/// Decodes Big5 bytes, given without a terminator, into a string.
///
/// Calls `encoding_rs::Encoding::decode` on `BIG5`, which looks for a byte
/// order mark first and never fails. The contract only names the result: the
/// same bytes always give the same text. The bound keeps the decoder's buffer
/// size computation from overflowing.
#[verifier::external_body]
pub fn decode_big5(bytes: &[u8]) -> (text: String)
    requires
        bytes@.len() <= MAX_TEXT_LEN,
    ensures
        text@ == big5_decode(bytes@),
{
    let (decoded, _encoding, _had_errors) = BIG5.decode(bytes);
    decoded.into_owned()
}

} // verus!

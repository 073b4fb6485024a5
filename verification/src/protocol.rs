//! Wire protocol: field codecs, text encoding, request parsers and response
//! builders.

pub mod client;
pub mod encoding;
pub mod opcodes;
pub mod packet;
pub mod server;

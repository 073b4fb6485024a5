//! Packet opcodes.

pub mod client;
pub mod server;

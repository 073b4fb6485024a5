//! Connection-level building blocks: cipher, framing, shared registry.

pub mod cipher;
pub mod codec;
pub mod session;
pub mod shared_state;
pub mod transport;

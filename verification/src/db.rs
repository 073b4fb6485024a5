//! Records of the account, character and clan stores.

pub mod account;
pub mod char_create;
pub mod character;
pub mod clan;

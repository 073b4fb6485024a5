//! Parsers for the packets the client sends.

pub mod action;
pub mod char_create;
pub mod char_select;
pub mod chat;
pub mod clan;
pub mod login;
pub mod movement;
pub mod skill;
pub mod teleport;

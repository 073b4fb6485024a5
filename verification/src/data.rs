//! Static content tables.

pub mod bookmark_table;
pub mod dungeon_table;

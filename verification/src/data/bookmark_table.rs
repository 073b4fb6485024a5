//! Character teleport bookmarks: saved locations that players can teleport
//! to.

use vstd::prelude::*;

verus! {

/// A single bookmark entry.
#[derive(Debug, Clone)]
pub struct Bookmark {
    pub id: i32,
    pub char_id: i32,
    pub name: String,
    pub loc_x: i32,
    pub loc_y: i32,
    pub map_id: i32,
}

/// Maximum bookmarks per character.
pub const MAX_BOOKMARKS: usize = 49;

} // verus!

//! World model: spatial index and map tiles.

pub mod grid;
pub mod map_data;

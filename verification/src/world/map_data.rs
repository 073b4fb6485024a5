//! Map tile data and passability.
//!
//! A map holds its tiles either one byte per tile (V1) or one 16-bit value
//! per tile (V2). Callers ask `is_passable`, `is_safety_zone` and
//! `is_combat_zone` and need not know which.

use vstd::prelude::*;

pub mod v1_flags;

verus! {

/// Map properties.
#[derive(Debug, Clone)]
pub struct MapProperties {
    pub map_id: i32,
    pub locationname: String,
    pub startx: i32,
    pub endx: i32,
    pub starty: i32,
    pub endy: i32,
    pub underwater: bool,
    pub markable: bool,
    pub teleportable: bool,
    pub escapable: bool,
    pub resurrection: bool,
    pub painwand: bool,
    pub death_penalty: bool,
    pub take_pets: bool,
    pub recall_pets: bool,
    pub usable_item: bool,
    pub usable_skill: bool,
}

/// The properties of an ordinary map: no name, no extent, not underwater,
/// and everything allowed.
pub open spec fn ordinary_map(p: MapProperties) -> bool {
    &&& p.map_id == 0
    &&& p.locationname@ == Seq::<char>::empty()
    &&& p.startx == 0
    &&& p.endx == 0
    &&& p.starty == 0
    &&& p.endy == 0
    &&& !p.underwater
    &&& p.markable
    &&& p.teleportable
    &&& p.escapable
    &&& p.resurrection
    &&& p.painwand
    &&& p.death_penalty
    &&& p.take_pets
    &&& p.recall_pets
    &&& p.usable_item
    &&& p.usable_skill
}

impl Default for MapProperties {
    fn default() -> (p: Self)
        ensures
            ordinary_map(p),
    {
        MapProperties {
            map_id: 0,
            locationname: String::new(),
            startx: 0,
            endx: 0,
            starty: 0,
            endy: 0,
            underwater: false,
            markable: true,
            teleportable: true,
            escapable: true,
            resurrection: true,
            painwand: true,
            death_penalty: true,
            take_pets: true,
            recall_pets: true,
            usable_item: true,
            usable_skill: true,
        }
    }
}

/// A loaded map's tile data.
#[derive(Debug, Clone)]
pub struct MapTileData {
    pub map_id: i32,
    /// world X of top-left corner
    pub x_loc: i32,
    /// world Y of top-left corner
    pub y_loc: i32,
    pub width: i32,
    pub height: i32,
    /// V1: 1 byte per tile
    pub tiles_v1: Option<Vec<u8>>,
    /// V2: 1 u16 per tile
    pub tiles_v2: Option<Vec<u16>>,
    pub props: MapProperties,
}

/// Whether a V2 tile value blocks walking.
pub open spec fn v2_blocks(tile: u16) -> bool {
    tile == 1 || tile == 9 || tile == 65 || tile == 69 || tile == 73
}

impl MapTileData {
    /// The V1 tiles, row by row, if the map is in that format.
    pub open spec fn v1_tiles(&self) -> Option<Seq<u8>> {
        match self.tiles_v1 {
            Some(t) => Some(t@),
            None => None,
        }
    }

    /// The V2 tiles, row by row, if the map is in that format.
    pub open spec fn v2_tiles(&self) -> Option<Seq<u16>> {
        match self.tiles_v2 {
            Some(t) => Some(t@),
            None => None,
        }
    }

    /// Whether a world coordinate lies on the map.
    pub open spec fn covers(&self, x: i32, y: i32) -> bool {
        self.x_loc <= x < self.x_loc + self.width && self.y_loc <= y < self.y_loc + self.height
    }

    /// Position of a tile in the row-by-row tile list.
    pub open spec fn tile_index(&self, x: i32, y: i32) -> int {
        (y - self.y_loc) * self.width + (x - self.x_loc)
    }

    /// The V1 tile at a world coordinate; impassable off the map or beyond
    /// the tile list.
    pub open spec fn v1_tile_at(&self, x: i32, y: i32) -> u8 {
        if self.covers(x, y) && self.v1_tiles() is Some && self.tile_index(x, y)
            < self.v1_tiles().unwrap().len() {
            self.v1_tiles().unwrap()[self.tile_index(x, y)]
        } else {
            v1_flags::IMPASSABLE
        }
    }

    /// The V2 tile at a world coordinate; impassable (1) off the map or
    /// beyond the tile list.
    pub open spec fn v2_tile_at(&self, x: i32, y: i32) -> u16 {
        if self.covers(x, y) && self.v2_tiles() is Some && self.tile_index(x, y)
            < self.v2_tiles().unwrap().len() {
            self.v2_tiles().unwrap()[self.tile_index(x, y)]
        } else {
            1
        }
    }

    /// Whether the tile at a world coordinate can be walked on. A V1 map
    /// counts where it has V1 tiles, whatever else it has.
    pub open spec fn passable_at(&self, x: i32, y: i32) -> bool {
        if self.v1_tiles() is Some {
            self.v1_tile_at(x, y) & v1_flags::IMPASSABLE == 0
        } else if self.v2_tiles() is Some {
            !v2_blocks(self.v2_tile_at(x, y))
        } else {
            false
        }
    }

    /// Whether the tile at a world coordinate is a safety zone.
    pub open spec fn safety_zone_at(&self, x: i32, y: i32) -> bool {
        if self.v1_tiles() is Some {
            self.v1_tile_at(x, y) & v1_flags::ZONE_SAFETY != 0
        } else if self.v2_tiles() is Some {
            self.v2_tile_at(x, y) == 4
        } else {
            false
        }
    }

    /// Whether the tile at a world coordinate is a combat zone.
    pub open spec fn combat_zone_at(&self, x: i32, y: i32) -> bool {
        if self.v1_tiles() is Some {
            self.v1_tile_at(x, y) & v1_flags::ZONE_COMBAT != 0
        } else if self.v2_tiles() is Some {
            self.v2_tile_at(x, y) == 8
        } else {
            false
        }
    }

    /// Create a V1 map from raw tile bytes.
    pub fn from_v1(
        map_id: i32,
        x_loc: i32,
        y_loc: i32,
        width: i32,
        height: i32,
        tiles: Vec<u8>,
        props: MapProperties,
    ) -> (map: MapTileData)
        ensures
            map.map_id == map_id,
            map.x_loc == x_loc,
            map.y_loc == y_loc,
            map.width == width,
            map.height == height,
            map.v1_tiles() == Some(tiles@),
            map.v2_tiles() is None,
            map.props == props,
    {
        MapTileData {
            map_id,
            x_loc,
            y_loc,
            width,
            height,
            tiles_v1: Some(tiles),
            tiles_v2: None,
            props,
        }
    }

    /// Create a V2 map from raw tile u16 values.
    pub fn from_v2(
        map_id: i32,
        x_loc: i32,
        y_loc: i32,
        width: i32,
        height: i32,
        tiles: Vec<u16>,
        props: MapProperties,
    ) -> (map: MapTileData)
        ensures
            map.map_id == map_id,
            map.x_loc == x_loc,
            map.y_loc == y_loc,
            map.width == width,
            map.height == height,
            map.v1_tiles() is None,
            map.v2_tiles() == Some(tiles@),
            map.props == props,
    {
        MapTileData {
            map_id,
            x_loc,
            y_loc,
            width,
            height,
            tiles_v1: None,
            tiles_v2: Some(tiles),
            props,
        }
    }

    /// Create a null/empty map (for a map that was not found).
    pub fn null_map(map_id: i32) -> (map: MapTileData)
        ensures
            map.map_id == map_id,
            map.x_loc == 0,
            map.y_loc == 0,
            map.width == 0,
            map.height == 0,
            map.v1_tiles() is None,
            map.v2_tiles() is None,
            ordinary_map(map.props),
    {
        MapTileData {
            map_id,
            x_loc: 0,
            y_loc: 0,
            width: 0,
            height: 0,
            tiles_v1: None,
            tiles_v2: None,
            props: MapProperties::default(),
        }
    }

    /// Check if a world coordinate is within this map's bounds.
    pub fn in_bounds(&self, x: i32, y: i32) -> (inside: bool)
        ensures
            inside == self.covers(x, y),
    {
        let right: i64 = self.x_loc as i64 + self.width as i64;
        let bottom: i64 = self.y_loc as i64 + self.height as i64;
        x >= self.x_loc && (x as i64) < right && y >= self.y_loc && (y as i64) < bottom
    }

    /// Position of a tile of the map in the row-by-row tile list.
    fn index_of(&self, x: i32, y: i32) -> (idx: i128)
        requires
            self.covers(x, y),
        ensures
            idx == self.tile_index(x, y),
            0 <= idx,
    {
        let row: i64 = y as i64 - self.y_loc as i64;
        let column: i64 = x as i64 - self.x_loc as i64;
        let width: i64 = self.width as i64;
        assert(0 <= row * width <= 0x4000_0000_0000_0000) by (nonlinear_arith)
            requires
                0 <= row <= 0x8000_0000,
                0 <= width <= 0x8000_0000,
        ;
        (row as i128) * (width as i128) + column as i128
    }

    /// Get the raw V1 tile byte at world coordinates.
    fn get_v1_tile(&self, x: i32, y: i32) -> (tile: u8)
        ensures
            tile == self.v1_tile_at(x, y),
    {
        if !self.in_bounds(x, y) {
            return v1_flags::IMPASSABLE;
        }
        match &self.tiles_v1 {
            Some(tiles) => {
                let idx = self.index_of(x, y);
                if idx < tiles.len() as i128 {
                    return tiles[idx as usize];
                }
            },
            None => {},
        }
        v1_flags::IMPASSABLE
    }

    /// Get the raw V2 tile value at world coordinates.
    fn get_v2_tile(&self, x: i32, y: i32) -> (tile: u16)
        ensures
            tile == self.v2_tile_at(x, y),
    {
        if !self.in_bounds(x, y) {
            return 1;
        }
        match &self.tiles_v2 {
            Some(tiles) => {
                let idx = self.index_of(x, y);
                if idx < tiles.len() as i128 {
                    return tiles[idx as usize];
                }
            },
            None => {},
        }
        1
    }

    /// Check if a tile is passable (for walking).
    pub fn is_passable(&self, x: i32, y: i32) -> (passable: bool)
        ensures
            passable == self.passable_at(x, y),
    {
        if self.tiles_v1.is_some() {
            let tile = self.get_v1_tile(x, y);
            tile & v1_flags::IMPASSABLE == 0
        } else if self.tiles_v2.is_some() {
            let tile = self.get_v2_tile(x, y);
            !(tile == 1 || tile == 9 || tile == 65 || tile == 69 || tile == 73)
        } else {
            false
        }
    }

    /// Check if a tile is a safety zone.
    pub fn is_safety_zone(&self, x: i32, y: i32) -> (safe: bool)
        ensures
            safe == self.safety_zone_at(x, y),
    {
        if self.tiles_v1.is_some() {
            let tile = self.get_v1_tile(x, y);
            tile & v1_flags::ZONE_SAFETY != 0
        } else if self.tiles_v2.is_some() {
            self.get_v2_tile(x, y) == 4
        } else {
            false
        }
    }

    /// Check if a tile is a combat zone.
    pub fn is_combat_zone(&self, x: i32, y: i32) -> (combat: bool)
        ensures
            combat == self.combat_zone_at(x, y),
    {
        if self.tiles_v1.is_some() {
            let tile = self.get_v1_tile(x, y);
            tile & v1_flags::ZONE_COMBAT != 0
        } else if self.tiles_v2.is_some() {
            self.get_v2_tile(x, y) == 8
        } else {
            false
        }
    }
}

} // verus!

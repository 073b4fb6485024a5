//! Position component - every entity in the world has a position.

use vstd::prelude::*;

verus! {

#[derive(Debug, Clone, Copy, PartialEq)]
pub struct Position {
    pub x: i32,
    pub y: i32,
    pub map_id: i32,
    /// 0-7 direction
    pub heading: i32,
}

/// The direction a heading stands for: its low three bits.
pub open spec fn direction_of(heading: i32) -> int {
    heading as int % 8
}

/// The step on the x axis for a direction.
/// 0=S, 1=SW, 2=W, 3=NW, 4=N, 5=NE, 6=E, 7=SE
pub open spec fn step_dx(direction: int) -> int {
    if direction == 1 || direction == 2 || direction == 3 {
        -1
    } else if direction == 5 || direction == 6 || direction == 7 {
        1
    } else {
        0
    }
}

/// The step on the y axis for a direction (south is +y).
pub open spec fn step_dy(direction: int) -> int {
    if direction == 0 || direction == 1 || direction == 7 {
        1
    } else if direction == 3 || direction == 4 || direction == 5 {
        -1
    } else {
        0
    }
}

/// Distance between two coordinates on one axis.
pub open spec fn axis_distance(a: i32, b: i32) -> int {
    if a >= b {
        a - b
    } else {
        b - a
    }
}

/// Tile-line (Chebyshev) distance between two points.
pub open spec fn chebyshev(ax: i32, ay: i32, bx: i32, by: i32) -> int {
    if axis_distance(ax, bx) >= axis_distance(ay, by) {
        axis_distance(ax, bx)
    } else {
        axis_distance(ay, by)
    }
}

/// The position one step from `p` in the given heading.
pub open spec fn stepped(p: Position, heading: i32) -> Position {
    Position {
        x: (p.x + step_dx(direction_of(heading))) as i32,
        y: (p.y + step_dy(direction_of(heading))) as i32,
        map_id: p.map_id,
        heading,
    }
}

impl Position {
    pub fn new(x: i32, y: i32, map_id: i32) -> (p: Position)
        ensures
            p == (Position { x, y, map_id, heading: 0 }),
    {
        Position { x, y, map_id, heading: 0 }
    }

    /// Check if another position is within screen range (18 tiles).
    pub fn is_in_screen(&self, other: &Position) -> (b: bool)
        ensures
            b == (self.map_id == other.map_id && chebyshev(self.x, self.y, other.x, other.y)
                <= 18),
    {
        if self.map_id != other.map_id {
            return false;
        }
        let dx: i64 = self.x as i64 - other.x as i64;
        let dy: i64 = self.y as i64 - other.y as i64;
        -18 <= dx && dx <= 18 && -18 <= dy && dy <= 18
    }

    /// Tile-line distance (Chebyshev distance); `i32::MAX` across maps.
    pub fn tile_distance(&self, other: &Position) -> (d: i32)
        requires
            self.map_id == other.map_id ==> chebyshev(self.x, self.y, other.x, other.y)
                <= i32::MAX,
        ensures
            d == if self.map_id == other.map_id {
                chebyshev(self.x, self.y, other.x, other.y)
            } else {
                i32::MAX as int
            },
    {
        if self.map_id != other.map_id {
            return i32::MAX;
        }
        let dx: i64 = if self.x >= other.x {
            self.x as i64 - other.x as i64
        } else {
            other.x as i64 - self.x as i64
        };
        let dy: i64 = if self.y >= other.y {
            self.y as i64 - other.y as i64
        } else {
            other.y as i64 - self.y as i64
        };
        if dx >= dy {
            dx as i32
        } else {
            dy as i32
        }
    }

    /// Move one step in the given heading direction.
    /// Heading: 0=S, 1=SW, 2=W, 3=NW, 4=N, 5=NE, 6=E, 7=SE
    pub fn step(&self, heading: i32) -> (p: Position)
        requires
            i32::MIN <= self.x + step_dx(direction_of(heading)) <= i32::MAX,
            i32::MIN <= self.y + step_dy(direction_of(heading)) <= i32::MAX,
        ensures
            p == stepped(*self, heading),
    {
        let (dx, dy) = heading_delta(heading);
        Position { x: self.x + dx, y: self.y + dy, map_id: self.map_id, heading }
    }
}

/// Get the (dx, dy) delta for a heading direction.
/// 0=South(+y), 1=SW, 2=West(-x), 3=NW, 4=North(-y), 5=NE, 6=East(+x), 7=SE
pub fn heading_delta(heading: i32) -> (d: (i32, i32))
    ensures
        d.0 == step_dx(direction_of(heading)),
        d.1 == step_dy(direction_of(heading)),
{
    let h: i64 = heading as i64 + 0x8000_0000;
    let direction: i64 = h % 8;
    if direction == 0 {
        (0, 1)
    } else if direction == 1 {
        (-1, 1)
    } else if direction == 2 {
        (-1, 0)
    } else if direction == 3 {
        (-1, -1)
    } else if direction == 4 {
        (0, -1)
    } else if direction == 5 {
        (1, -1)
    } else if direction == 6 {
        (1, 0)
    } else {
        (1, 1)
    }
}

} // verus!

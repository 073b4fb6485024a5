//! Movement component - tracks pending movement for an entity.

use vstd::prelude::*;

verus! {

#[derive(Debug, Clone)]
pub struct Movement {
    /// Pending move direction (heading 0-7), or -1 if no move pending
    pub pending_heading: i32,
    /// Move speed in ticks (lower = faster)
    pub move_delay_ticks: u32,
    /// Ticks remaining until next move allowed
    pub cooldown_ticks: u32,
}

impl Movement {
    pub fn new() -> (m: Movement)
        ensures
            m.pending_heading == -1,
            m.move_delay_ticks == 1,
            m.cooldown_ticks == 0,
    {
        Movement { pending_heading: -1, move_delay_ticks: 1, cooldown_ticks: 0 }
    }

    pub fn can_move(&self) -> (b: bool)
        ensures
            b == (self.cooldown_ticks == 0),
    {
        self.cooldown_ticks == 0
    }

    /// Counts the cooldown down by one tick, stopping at zero.
    pub fn tick(&mut self)
        ensures
            final(self).cooldown_ticks == if old(self).cooldown_ticks > 0 {
                old(self).cooldown_ticks - 1
            } else {
                0
            },
            final(self).pending_heading == old(self).pending_heading,
            final(self).move_delay_ticks == old(self).move_delay_ticks,
    {
        if self.cooldown_ticks > 0 {
            self.cooldown_ticks -= 1;
        }
    }
}

} // verus!

//! Visual appearance component - how an entity looks to clients.

use vstd::prelude::*;

verus! {

#[derive(Debug, Clone)]
pub struct Visual {
    /// sprite graphics ID
    pub gfx_id: i32,
    /// temporary GFX (polymorph etc.), 0 if none
    pub temp_gfx_id: i32,
    pub light_size: i32,
    pub name: String,
    pub nameid: String,
    pub title: String,
    /// animation status
    pub status: i32,
}

impl Visual {
    pub fn new_npc(gfx_id: i32, name: String, nameid: String) -> (v: Visual)
        ensures
            v.gfx_id == gfx_id,
            v.temp_gfx_id == 0,
            v.light_size == 0,
            v.name == name,
            v.nameid == nameid,
            v.title@ == Seq::<char>::empty(),
            v.status == 0,
    {
        Visual {
            gfx_id,
            temp_gfx_id: 0,
            light_size: 0,
            name,
            nameid,
            title: String::new(),
            status: 0,
        }
    }

    /// Get the effective GFX ID (temp if set, otherwise base).
    pub fn effective_gfx(&self) -> (g: i32)
        ensures
            g == if self.temp_gfx_id != 0 {
                self.temp_gfx_id
            } else {
                self.gfx_id
            },
    {
        if self.temp_gfx_id != 0 {
            self.temp_gfx_id
        } else {
            self.gfx_id
        }
    }
}

} // verus!

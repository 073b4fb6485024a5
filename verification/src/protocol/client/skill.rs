//! C_USESKILL packet parser.
//!
//! Skill ID = row * 8 + column + 1 (from the client UI grid).

use crate::protocol::encoding::MAX_TEXT_LEN;
use crate::protocol::packet::{
    after_c, after_d, after_h, peek_c, peek_d, peek_h, peek_s, PacketReader,
};
use vstd::prelude::*;

verus! {

/// Parsed C_USESKILL packet.
#[derive(Debug)]
pub struct UseSkill {
    pub skill_id: i32,
    pub target_id: i32,
    pub target_x: i32,
    pub target_y: i32,
    /// for CALL_CLAN / TRUE_TARGET
    pub char_name: String,
    /// for TELEPORT
    pub bookmark_id: i32,
}

/// Special skill IDs with unique packet formats.
pub const SKILL_TELEPORT: i32 = 5;
pub const SKILL_FIRE_WALL: i32 = 49;
pub const SKILL_LIFE_STREAM: i32 = 50;
pub const SKILL_CALL_CLAN: i32 = 68;
pub const SKILL_RUN_CLAN: i32 = 69;
pub const SKILL_TRUE_TARGET: i32 = 70;

/// The skill id for a position in the client's skill grid.
pub open spec fn skill_id_of(row: u8, column: u8) -> i32 {
    (row as int * 8 + column as int + 1) as i32
}

/// The plain fields of a skill request.
pub struct SkillFields {
    pub skill_id: i32,
    pub target_id: i32,
    pub target_x: i32,
    pub target_y: i32,
    pub char_name: Seq<char>,
    pub bookmark_id: i32,
}

/// The skill request in a packet. Row and column (8 bits each) give the
/// skill id. What follows depends on the skill: a character name for the
/// clan calls; target id, x, y and a name for the true target; a map id that
/// is passed over and a bookmark id for the teleport; x and y for the wall
/// and the stream; target id, x and y for every other skill. A packet that
/// ends after the column carries none of these.
pub open spec fn use_skill_of(d: Seq<u8>) -> SkillFields {
    let p1 = after_c(d, 1);
    let p2 = after_c(d, p1);
    let skill_id = skill_id_of(peek_c(d, 1), peek_c(d, p1));
    let none = SkillFields {
        skill_id,
        target_id: 0,
        target_x: 0,
        target_y: 0,
        char_name: Seq::empty(),
        bookmark_id: 0,
    };
    if !(p2 < d.len()) {
        none
    } else if skill_id == SKILL_CALL_CLAN || skill_id == SKILL_RUN_CLAN {
        SkillFields { char_name: peek_s(d, p2), ..none }
    } else if skill_id == SKILL_TRUE_TARGET {
        let p3 = after_d(d, p2);
        let p4 = after_h(d, p3);
        let p5 = after_h(d, p4);
        SkillFields {
            target_id: peek_d(d, p2),
            target_x: peek_h(d, p3) as i32,
            target_y: peek_h(d, p4) as i32,
            char_name: peek_s(d, p5),
            ..none
        }
    } else if skill_id == SKILL_TELEPORT {
        SkillFields { bookmark_id: peek_d(d, after_h(d, p2)), ..none }
    } else if skill_id == SKILL_FIRE_WALL || skill_id == SKILL_LIFE_STREAM {
        SkillFields {
            target_x: peek_h(d, p2) as i32,
            target_y: peek_h(d, after_h(d, p2)) as i32,
            ..none
        }
    } else {
        let p3 = after_d(d, p2);
        SkillFields {
            target_id: peek_d(d, p2),
            target_x: peek_h(d, p3) as i32,
            target_y: peek_h(d, after_h(d, p3)) as i32,
            ..none
        }
    }
}

impl View for UseSkill {
    type V = SkillFields;

    open spec fn view(&self) -> SkillFields {
        SkillFields {
            skill_id: self.skill_id,
            target_id: self.target_id,
            target_x: self.target_x,
            target_y: self.target_y,
            char_name: self.char_name@,
            bookmark_id: self.bookmark_id,
        }
    }
}

pub fn parse_use_skill(data: &[u8]) -> (request: UseSkill)
    requires
        data@.len() <= MAX_TEXT_LEN,
    ensures
        request@ == use_skill_of(data@),
{
    let mut r = PacketReader::after_opcode(data);
    let row = r.read_c() as i32;
    let column = r.read_c() as i32;
    let skill_id: i32 = row * 8 + column + 1;

    let mut result = UseSkill {
        skill_id,
        target_id: 0,
        target_x: 0,
        target_y: 0,
        char_name: String::new(),
        bookmark_id: 0,
    };

    if !r.has_remaining() {
        return result;
    }
    if skill_id == SKILL_CALL_CLAN || skill_id == SKILL_RUN_CLAN {
        result.char_name = r.read_s();
    } else if skill_id == SKILL_TRUE_TARGET {
        result.target_id = r.read_d();
        result.target_x = r.read_h() as i32;
        result.target_y = r.read_h() as i32;
        result.char_name = r.read_s();
    } else if skill_id == SKILL_TELEPORT {
        let _map_id = r.read_h();
        result.bookmark_id = r.read_d();
    } else if skill_id == SKILL_FIRE_WALL || skill_id == SKILL_LIFE_STREAM {
        result.target_x = r.read_h() as i32;
        result.target_y = r.read_h() as i32;
    } else {
        result.target_id = r.read_d();
        result.target_x = r.read_h() as i32;
        result.target_y = r.read_h() as i32;
    }
    result
}

} // verus!

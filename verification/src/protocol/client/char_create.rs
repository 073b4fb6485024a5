//! C_NEWCHAR packet parser and the rules for a new character.

use crate::protocol::encoding::MAX_TEXT_LEN;
use crate::protocol::packet::{after_c, after_s, peek_c, peek_s, PacketReader};
use vstd::prelude::*;

verus! {

/// Parsed C_NEWCHAR packet.
#[derive(Debug)]
pub struct NewChar {
    pub name: String,
    /// 0=Prince,1=Knight,2=Elf,3=Mage,4=DarkElf,5=DragonKnight,6=Illusionist
    pub char_type: i32,
    /// 0=male, 1=female
    pub sex: i32,
    pub str_stat: i32,
    pub dex_stat: i32,
    pub con_stat: i32,
    pub wis_stat: i32,
    pub cha_stat: i32,
    pub int_stat: i32,
}

/// Cursor after `n` 8-bit reads from `pos`.
pub open spec fn after_bytes(d: Seq<u8>, pos: int, n: nat) -> int
    decreases n,
{
    if n == 0 {
        pos
    } else {
        after_c(d, after_bytes(d, pos, (n - 1) as nat))
    }
}

/// Parse C_NEWCHAR: the name, then class, sex and the six stats in the order
/// STR, DEX, CON, WIS, CHA, INT, one byte each.
pub fn parse_new_char(data: &[u8]) -> (nc: NewChar)
    requires
        data@.len() <= MAX_TEXT_LEN,
    ensures
        nc.name@ == peek_s(data@, 1),
        ({
            let p = after_s(data@, 1);
            &&& nc.char_type == peek_c(data@, after_bytes(data@, p, 0))
            &&& nc.sex == peek_c(data@, after_bytes(data@, p, 1))
            &&& nc.str_stat == peek_c(data@, after_bytes(data@, p, 2))
            &&& nc.dex_stat == peek_c(data@, after_bytes(data@, p, 3))
            &&& nc.con_stat == peek_c(data@, after_bytes(data@, p, 4))
            &&& nc.wis_stat == peek_c(data@, after_bytes(data@, p, 5))
            &&& nc.cha_stat == peek_c(data@, after_bytes(data@, p, 6))
            &&& nc.int_stat == peek_c(data@, after_bytes(data@, p, 7))
        }),
{
    reveal_with_fuel(after_bytes, 9);
    let mut r = PacketReader::after_opcode(data);
    let name = r.read_s();
    let char_type = r.read_c() as i32;
    let sex = r.read_c() as i32;
    let str_stat = r.read_c() as i32;
    let dex_stat = r.read_c() as i32;
    let con_stat = r.read_c() as i32;
    let wis_stat = r.read_c() as i32;
    let cha_stat = r.read_c() as i32;
    let int_stat = r.read_c() as i32;
    NewChar { name, char_type, sex, str_stat, dex_stat, con_stat, wis_stat, cha_stat, int_stat }
}

/// Base stats of a class: STR, DEX, CON, WIS, CHA, INT.
pub open spec fn base_stats(char_type: int) -> (int, int, int, int, int, int) {
    if char_type == 0 {
        (13, 10, 10, 11, 13, 10)
    } else if char_type == 1 {
        (16, 12, 14, 9, 12, 8)
    } else if char_type == 2 {
        (11, 12, 12, 12, 9, 12)
    } else if char_type == 3 {
        (8, 7, 12, 12, 8, 12)
    } else if char_type == 4 {
        (12, 15, 8, 10, 9, 11)
    } else if char_type == 5 {
        (13, 11, 14, 12, 8, 11)
    } else {
        (11, 10, 12, 12, 8, 12)
    }
}

/// Points a class may spend above its base stats.
pub open spec fn bonus_points(char_type: int) -> int {
    if char_type == 0 {
        8
    } else if char_type == 1 {
        4
    } else if char_type == 2 {
        7
    } else if char_type == 3 {
        16
    } else if char_type == 4 {
        10
    } else if char_type == 5 {
        6
    } else {
        10
    }
}

/// Starting location (all classes).
pub const START_X: i32 = 32689;
pub const START_Y: i32 = 32842;
pub const START_MAP: i32 = 2005;

/// The rule for the stats of a new character: the class is one of the seven,
/// the six stats add up to 75, and none is below the base stat of the class.
pub open spec fn stats_valid(
    char_type: i32,
    str_stat: i32,
    dex_stat: i32,
    con_stat: i32,
    wis_stat: i32,
    cha_stat: i32,
    int_stat: i32,
) -> bool {
    let base = base_stats(char_type as int);
    &&& 0 <= char_type <= 6
    &&& str_stat + dex_stat + con_stat + wis_stat + cha_stat + int_stat == 75
    &&& str_stat >= base.0
    &&& dex_stat >= base.1
    &&& con_stat >= base.2
    &&& wis_stat >= base.3
    &&& cha_stat >= base.4
    &&& int_stat >= base.5
}

fn base_stats_of(char_type: i32) -> (base: (i32, i32, i32, i32, i32, i32))
    requires
        0 <= char_type <= 6,
    ensures
        base.0 == base_stats(char_type as int).0,
        base.1 == base_stats(char_type as int).1,
        base.2 == base_stats(char_type as int).2,
        base.3 == base_stats(char_type as int).3,
        base.4 == base_stats(char_type as int).4,
        base.5 == base_stats(char_type as int).5,
{
    if char_type == 0 {
        (13, 10, 10, 11, 13, 10)
    } else if char_type == 1 {
        (16, 12, 14, 9, 12, 8)
    } else if char_type == 2 {
        (11, 12, 12, 12, 9, 12)
    } else if char_type == 3 {
        (8, 7, 12, 12, 8, 12)
    } else if char_type == 4 {
        (12, 15, 8, 10, 9, 11)
    } else if char_type == 5 {
        (13, 11, 14, 12, 8, 11)
    } else {
        (11, 10, 12, 12, 8, 12)
    }
}

/// Validate character creation stats.
pub fn validate_stats(nc: &NewChar) -> (valid: bool)
    ensures
        valid == stats_valid(
            nc.char_type,
            nc.str_stat,
            nc.dex_stat,
            nc.con_stat,
            nc.wis_stat,
            nc.cha_stat,
            nc.int_stat,
        ),
{
    if nc.char_type < 0 || nc.char_type > 6 {
        return false;
    }
    let base = base_stats_of(nc.char_type);
    let total: i64 = nc.str_stat as i64 + nc.dex_stat as i64 + nc.con_stat as i64
        + nc.wis_stat as i64 + nc.cha_stat as i64 + nc.int_stat as i64;
    if total != 75 {
        return false;
    }
    nc.str_stat >= base.0 && nc.dex_stat >= base.1 && nc.con_stat >= base.2 && nc.wis_stat
        >= base.3 && nc.cha_stat >= base.4 && nc.int_stat >= base.5
}

/// Every class's base stats and bonus points add up to the 75 points that a
/// new character must have.
pub proof fn lemma_base_stats_leave_bonus(char_type: int)
    requires
        0 <= char_type <= 6,
    ensures
        ({
            let base = base_stats(char_type);
            base.0 + base.1 + base.2 + base.3 + base.4 + base.5 + bonus_points(char_type) == 75
        }),
{
}

/// Initial MP by class and WIS.
pub open spec fn init_mp(char_type: i32, wis: i32) -> i32 {
    if char_type == 0 {
        if wis >= 16 {
            4
        } else if wis >= 12 {
            3
        } else {
            2
        }
    } else if char_type == 1 {
        if wis >= 12 {
            2
        } else {
            1
        }
    } else if char_type == 2 {
        if wis >= 16 {
            6
        } else {
            4
        }
    } else if char_type == 3 {
        if wis >= 16 {
            8
        } else {
            6
        }
    } else if char_type == 4 {
        if wis >= 16 {
            6
        } else if wis >= 12 {
            4
        } else {
            3
        }
    } else if char_type == 5 {
        2
    } else if char_type == 6 {
        if wis >= 16 {
            6
        } else {
            5
        }
    } else {
        2
    }
}

/// Calculate initial MP based on class and WIS.
pub fn calc_init_mp(char_type: i32, wis: i32) -> (mp: i32)
    ensures
        mp == init_mp(char_type, wis),
{
    if char_type == 0 {
        if wis >= 16 {
            4
        } else if wis >= 12 {
            3
        } else {
            2
        }
    } else if char_type == 1 {
        if wis >= 12 {
            2
        } else {
            1
        }
    } else if char_type == 2 {
        if wis >= 16 {
            6
        } else {
            4
        }
    } else if char_type == 3 {
        if wis >= 16 {
            8
        } else {
            6
        }
    } else if char_type == 4 {
        if wis >= 16 {
            6
        } else if wis >= 12 {
            4
        } else {
            3
        }
    } else if char_type == 5 {
        2
    } else if char_type == 6 {
        if wis >= 16 {
            6
        } else {
            5
        }
    } else {
        2
    }
}

/// GFX ID by class and sex: any sex below 1 counts as male (0), any other as
/// female; 0 for an unknown class.
pub open spec fn class_gfx(char_type: i32, sex: i32) -> i32 {
    let female = sex >= 1;
    if char_type == 0 {
        if female { 1 } else { 0 }
    } else if char_type == 1 {
        if female { 48 } else { 61 }
    } else if char_type == 2 {
        if female { 37 } else { 138 }
    } else if char_type == 3 {
        if female { 1186 } else { 734 }
    } else if char_type == 4 {
        if female { 2796 } else { 2786 }
    } else if char_type == 5 {
        if female { 6661 } else { 6658 }
    } else if char_type == 6 {
        if female { 6650 } else { 6671 }
    } else {
        0
    }
}

/// Get GFX ID for class+sex.
pub fn get_gfx_id(char_type: i32, sex: i32) -> (gfx: i32)
    ensures
        gfx == class_gfx(char_type, sex),
{
    let female = sex >= 1;
    if char_type == 0 {
        if female { 1 } else { 0 }
    } else if char_type == 1 {
        if female { 48 } else { 61 }
    } else if char_type == 2 {
        if female { 37 } else { 138 }
    } else if char_type == 3 {
        if female { 1186 } else { 734 }
    } else if char_type == 4 {
        if female { 2796 } else { 2786 }
    } else if char_type == 5 {
        if female { 6661 } else { 6658 }
    } else if char_type == 6 {
        if female { 6650 } else { 6671 }
    } else {
        0
    }
}

/// Initial HP by class; 14 for an unknown class.
pub open spec fn init_hp(char_type: i32) -> i32 {
    if char_type == 1 || char_type == 5 {
        16
    } else if char_type == 2 {
        15
    } else if char_type == 3 || char_type == 4 {
        12
    } else {
        14
    }
}

/// Get initial HP for class.
pub fn get_init_hp(char_type: i32) -> (hp: i32)
    ensures
        hp == init_hp(char_type),
{
    if char_type == 1 || char_type == 5 {
        16
    } else if char_type == 2 {
        15
    } else if char_type == 3 || char_type == 4 {
        12
    } else {
        14
    }
}

} // verus!

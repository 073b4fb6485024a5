//! Dark elf skill ids.

use vstd::prelude::*;

verus! {

pub const DARK_BLIND: i32 = 97;
pub const ENCHANT_VENOM: i32 = 98;
pub const SHADOW_ARMOR: i32 = 99;
pub const BRING_STONE: i32 = 100;
pub const MOVING_ACCEL: i32 = 101;
pub const BURNING_SPIRIT: i32 = 102;
pub const DARK_BLIND_ATTACK: i32 = 103;
pub const VENOM_RESIST: i32 = 104;
pub const DOUBLE_BREAK: i32 = 105;
pub const SHADOW_FANG: i32 = 106;
pub const SHADOW_BITE: i32 = 107;
pub const FINAL_BURN: i32 = 108;
pub const STR_UP: i32 = 109;
pub const DEX_UP: i32 = 110;
pub const DODGE_UP: i32 = 111;
pub const ARMOR_BREAK: i32 = 112;

} // verus!

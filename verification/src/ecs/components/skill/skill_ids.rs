//! Known skill IDs for common skills.

use vstd::prelude::*;

verus! {

// Mage skills
pub const ENERGY_BOLT: i32 = 1;
pub const LIGHT: i32 = 2;
pub const SHIELD: i32 = 3;
pub const TELEPORT: i32 = 4;
pub const ICE_DAGGER: i32 = 6;
pub const WIND_CUTTER: i32 = 7;
pub const HEAL: i32 = 9;
pub const CHILL_TOUCH: i32 = 10;
pub const CURSE_PARALYZE: i32 = 11;
pub const HASTE: i32 = 14;
pub const FIREBALL: i32 = 17;
pub const GREATER_HEAL: i32 = 19;
pub const ENCHANT_WEAPON: i32 = 22;
pub const DETECTION: i32 = 24;
pub const LIGHTNING: i32 = 26;
pub const TURN_UNDEAD: i32 = 27;
pub const GREATER_HASTE: i32 = 31;
pub const CANCELLATION: i32 = 35;
pub const EARTH_JAIL: i32 = 36;
pub const COUNTER_BARRIER: i32 = 38;
pub const HOLY_WALK: i32 = 42;
pub const CALL_LIGHTNING: i32 = 44;
pub const FULL_HEAL: i32 = 46;
pub const FREEZING_BLIZZARD: i32 = 49;
pub const METEOR_STRIKE: i32 = 54;
pub const ABSOLUTE_BARRIER: i32 = 56;

// Status effects
pub const STATUS_HASTE: i32 = 1000;
pub const STATUS_BRAVE: i32 = 1001;
pub const STATUS_THIRD_SPEED: i32 = 1031;
pub const STATUS_POISON: i32 = 1060;

// Item effects
pub const COOKING_1_7_N: i32 = 3000;
pub const COOKING_1_7_S: i32 = 3006;

} // verus!

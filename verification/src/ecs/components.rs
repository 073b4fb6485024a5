//! Components that make up an entity's state.

pub mod clan;
pub mod item;
pub mod movement;
pub mod npc;
pub mod position;
pub mod skill;
pub mod stats;
pub mod visual;

//! Game entities: components, skill tables and castle sieges.

pub mod class_skills;
pub mod components;
pub mod darkelf_skills;
pub mod siege;

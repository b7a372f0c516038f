//! Helpers shared by the whole crate.

pub mod constant;
pub mod debug;
pub mod edit_map;
pub mod skip;

//! What can stand on the map.

pub mod entity;
pub mod player;

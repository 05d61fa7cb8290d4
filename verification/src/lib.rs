//! A tile map coloured from a noise field, and a player glyph that walks on it.
//!
//! The crate holds the rules of the game: how coordinates are kept inside the
//! world, how the grid of tiles is laid out, which key does what. Colours are
//! `bracket_lib` values that the crate stores and hands on without looking
//! inside them.

pub mod camera;
pub mod color;
pub mod entities;
pub mod state;
pub mod util;

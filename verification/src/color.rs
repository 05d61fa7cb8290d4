//! Colours: the `RGB` type of `bracket_lib`, the named colours the game uses,
//! and the gradients that terrain is painted with.

use bracket_lib::color::RGB;
use vstd::prelude::*;

verus! {

/// `bracket_lib::color::RGB`. The crate stores such values and hands them on;
/// it never reads a channel.
#[verifier::external_type_specification]
#[verifier::external_body]
pub struct ExRGB(RGB);

/// The colour that `RGB::from_u8` builds from three bytes.
pub uninterp spec fn rgb_of_bytes(r: u8, g: u8, b: u8) -> RGB;

/// Calls `RGB::from_u8`, which divides each byte by 255 and has no other
/// input: the result is the colour of those three bytes.
#[verifier::external_body]
pub(crate) fn rgb_from_u8(r: u8, g: u8, b: u8) -> (c: RGB)
    ensures
        c == rgb_of_bytes(r, g, b),
{
    RGB::from_u8(r, g, b)
}

/// Calls `RGB::named`, which hands the three bytes of the tuple to
/// `RGB::from_u8`: the result is the colour of those three bytes.
#[verifier::external_body]
pub(crate) fn rgb_named(col: (u8, u8, u8)) -> (c: RGB)
    ensures
        c == named(col),
{
    RGB::named(col)
}

/// The colour a byte triple stands for.
pub open spec fn named(col: (u8, u8, u8)) -> RGB {
    rgb_of_bytes(col.0, col.1, col.2)
}

// The named colours the game uses, with the bytes `bracket_lib` gives them.

pub const WHITE: (u8, u8, u8) = (255, 255, 255);

pub const BLACK: (u8, u8, u8) = (0, 0, 0);

pub const RED: (u8, u8, u8) = (255, 0, 0);

pub const LIMEGREEN: (u8, u8, u8) = (50, 205, 50);

pub const MAGENTA: (u8, u8, u8) = (255, 0, 255);

pub const CYAN: (u8, u8, u8) = (0, 255, 255);

/// The reference colour that the base colour of every tile is blended with.
pub const DEEP_BLUE: (u8, u8, u8) = (0, 48, 255);

/// Lowest land.
pub const DARK_GREEN: (u8, u8, u8) = (16, 48, 0);

/// Highest land.
pub const BRIGHT_GREEN: (u8, u8, u8) = (48, 200, 8);

/// Shallowest water.
pub const MID_BLUE: (u8, u8, u8) = (0, 64, 200);

/// Deepest water.
pub const NAVY: (u8, u8, u8) = (0, 0, 48);

/// What a tile is, once its blended colour has been looked at: land where
/// green is at least as strong as blue, water elsewhere.
#[derive(Clone, Copy, Debug, PartialEq, Eq, Structural)]
pub enum Terrain {
    Land,
    Water,
}

/// The two ends of the gradient a terrain is painted with, as byte triples:
/// where the blend starts, and where it ends.
pub open spec fn gradient_ends(terrain: Terrain) -> ((u8, u8, u8), (u8, u8, u8)) {
    match terrain {
        Terrain::Land => (DARK_GREEN, BRIGHT_GREEN),
        Terrain::Water => (MID_BLUE, NAVY),
    }
}

/// The colours between which a tile of the given terrain is blended: land
/// runs from dark to bright green, water from mid blue to navy.
pub fn gradient(terrain: Terrain) -> (ends: (RGB, RGB))
    ensures
        ends.0 == named(gradient_ends(terrain).0),
        ends.1 == named(gradient_ends(terrain).1),
{
    match terrain {
        Terrain::Land => (
            rgb_from_u8(DARK_GREEN.0, DARK_GREEN.1, DARK_GREEN.2),
            rgb_from_u8(BRIGHT_GREEN.0, BRIGHT_GREEN.1, BRIGHT_GREEN.2),
        ),
        Terrain::Water => (
            rgb_from_u8(MID_BLUE.0, MID_BLUE.1, MID_BLUE.2),
            rgb_from_u8(NAVY.0, NAVY.1, NAVY.2),
        ),
    }
}

/// The deep blue that the base colour of a tile is blended with.
pub fn deep_blue() -> (c: RGB)
    ensures
        c == named(DEEP_BLUE),
{
    rgb_from_u8(DEEP_BLUE.0, DEEP_BLUE.1, DEEP_BLUE.2)
}

/// The base colour of a tile: no red, no blue, and the given level of green.
pub fn base_color(green: u8) -> (c: RGB)
    ensures
        c == rgb_of_bytes(0, green, 0),
{
    rgb_from_u8(0, green, 0)
}

} // verus!

use bracket_lib::color::RGB;
use brogue::color::{
    BLACK, BRIGHT_GREEN, CYAN, DARK_GREEN, DEEP_BLUE, LIMEGREEN, MAGENTA, MID_BLUE, NAVY, RED,
    WHITE,
};

#[test]
fn named_colours_have_the_bytes_of_the_toolkit() {
    assert_eq!(WHITE, bracket_lib::color::WHITE);
    assert_eq!(BLACK, bracket_lib::color::BLACK);
    assert_eq!(RED, bracket_lib::color::RED);
    assert_eq!(LIMEGREEN, bracket_lib::color::LIMEGREEN);
    assert_eq!(MAGENTA, bracket_lib::color::MAGENTA);
    assert_eq!(CYAN, bracket_lib::color::CYAN);
}

#[test]
fn terrain_colours_have_their_bytes() {
    assert_eq!(DEEP_BLUE, (0, 48, 255));
    assert_eq!(DARK_GREEN, (16, 48, 0));
    assert_eq!(BRIGHT_GREEN, (48, 200, 8));
    assert_eq!(MID_BLUE, (0, 64, 200));
    assert_eq!(NAVY, (0, 0, 48));
}

#[test]
fn white_and_black_are_the_ends_of_every_channel() {
    let white = RGB::named(WHITE);
    let black = RGB::named(BLACK);
    assert_eq!((white.r, white.g, white.b), (1.0, 1.0, 1.0));
    assert_eq!((black.r, black.g, black.b), (0.0, 0.0, 0.0));
}

//! Helpers shared by everything that moves.

use crate::color::{named, rgb_named, CYAN, LIMEGREEN, MAGENTA, RED, WHITE};
use crate::state::Cell;
use bracket_lib::color::RGB;
use rand::seq::IteratorRandom;
use rand::Rng;
use vstd::arithmetic::div_mod::lemma_fundamental_div_mod_converse;
use vstd::prelude::*;

verus! {

/// A position on the grid, or the size of a rectangle.
#[derive(Clone, Copy, Debug, PartialEq, Eq, Structural)]
pub struct Point {
    pub x: i32,
    pub y: i32,
}

impl Point {
    /// The point `(x, y)`.
    pub fn new(x: i32, y: i32) -> (p: Point)
        ensures
            p == (Point { x, y }),
    {
        Point { x, y }
    }
}

/// `v` raised to at least 0, then lowered to at most `size - 1`.
///
/// For a `size` of at least 1 this is the nearest coordinate inside
/// `0..size`. For a smaller `size` nothing is inside, and the result is
/// `size - 1` whatever `v` is.
pub open spec fn clamp_axis(v: int, size: int) -> int {
    let raised: int = if v < 0 { 0 } else { v };
    if raised < size - 1 { raised } else { size - 1 }
}

/// Brings `(x, y)` into the rectangle of `w` columns and `h` rows: each
/// coordinate is raised to 0 and then lowered to the last column or row.
pub fn constrain_coords(x: i32, y: i32, w: i32, h: i32) -> (p: Point)
    requires
        w > i32::MIN,
        h > i32::MIN,
    ensures
        p.x == clamp_axis(x as int, w as int),
        p.y == clamp_axis(y as int, h as int),
        w >= 1 ==> 0 <= p.x <= w - 1,
        h >= 1 ==> 0 <= p.y <= h - 1,
        0 <= x < w ==> p.x == x,
        0 <= y < h ==> p.y == y,
{
    Point::new(x.max(0).min(w - 1), y.max(0).min(h - 1))
}

/// The coordinate one step below `v`. At the lowest `i32` there is no such
/// coordinate; `v` itself then clamps to the same place.
pub(crate) fn step_back(v: i32) -> (r: i32)
    ensures
        forall|size: int| #[trigger] clamp_axis(r as int, size) == clamp_axis(v - 1, size),
        v > i32::MIN ==> r == v - 1,
{
    if v > i32::MIN { v - 1 } else { v }
}

/// The coordinate one step above `v`. At the highest `i32` there is no such
/// coordinate; `v` itself then clamps to the same place.
pub(crate) fn step_forth(v: i32) -> (r: i32)
    ensures
        forall|size: int|
            size <= i32::MAX ==> #[trigger] clamp_axis(r as int, size) == clamp_axis(v + 1, size),
        v < i32::MAX ==> r == v + 1,
{
    if v < i32::MAX { v + 1 } else { v }
}

/// A clamped coordinate lies in `0..size`, whenever `size` leaves room for one.
pub proof fn lemma_clamp_axis_in_range(v: int, size: int)
    requires
        size >= 1,
    ensures
        0 <= clamp_axis(v, size) <= size - 1,
{
}

/// A coordinate that already lies in `0..size` is left where it is.
pub proof fn lemma_clamp_axis_fixes_valid(v: int, size: int)
    requires
        0 <= v < size,
    ensures
        clamp_axis(v, size) == v,
{
}

/// Clamping twice is clamping once.
pub proof fn lemma_clamp_axis_idempotent(v: int, size: int)
    requires
        size >= 1,
    ensures
        clamp_axis(clamp_axis(v, size), size) == clamp_axis(v, size),
{
}

/// Where a coordinate is after `n` steps of `delta` each, every step
/// clamped to `0..size`.
pub open spec fn walked(v: int, delta: int, n: nat, size: int) -> int
    decreases n,
{
    if n == 0 {
        v
    } else {
        walked(clamp_axis(v + delta, size), delta, (n - 1) as nat, size)
    }
}

/// Walking towards 0 from inside `0..size` takes one off the coordinate with
/// each step until 0 is reached, and stays there.
pub proof fn lemma_walk_back(v: int, n: nat, size: int)
    requires
        0 <= v < size,
    ensures
        walked(v, -1, n, size) == (if v >= n { v - n } else { 0 }),
    decreases n,
{
    if n > 0 {
        lemma_walk_back(clamp_axis(v - 1, size), (n - 1) as nat, size);
    }
}

/// Walking away from 0 from inside `0..size` adds one to the coordinate with
/// each step until the last coordinate is reached, and stays there.
pub proof fn lemma_walk_forth(v: int, n: nat, size: int)
    requires
        0 <= v < size,
    ensures
        walked(v, 1, n, size) == (if v + n <= size - 1 { v + n } else { size - 1 }),
    decreases n,
{
    if n > 0 {
        lemma_walk_forth(clamp_axis(v + 1, size), (n - 1) as nat, size);
    }
}

/// Calls `IteratorRandom::choose` of `rand` on the items, with the thread's
/// generator. It returns nothing exactly when there is nothing to choose
/// from, and otherwise one of the items; which one is left to chance.
#[verifier::external_body]
pub(crate) fn pick<T: Copy>(items: &Vec<T>) -> (picked: Option<T>)
    ensures
        picked is None <==> items@.len() == 0,
        picked matches Some(item) ==> items@.contains(item),
{
    items.iter().copied().choose(&mut rand::thread_rng())
}

/// Calls `Rng::gen_range` of `rand` on `low..high`, with the thread's
/// generator. It panics on an empty range and otherwise returns a number of
/// the range; which one is left to chance.
#[verifier::external_body]
pub(crate) fn gen_range(low: i32, high: i32) -> (n: i32)
    requires
        low < high,
    ensures
        low <= n < high,
{
    rand::thread_rng().gen_range(low..high)
}

/// The glyphs a random entity may show.
pub open spec fn random_chars() -> Seq<char> {
    seq!['@', '#', '%']
}

/// The colours a random entity may have.
pub open spec fn random_colors() -> Seq<RGB> {
    seq![named(RED), named(LIMEGREEN), named(MAGENTA), named(CYAN), named(WHITE)]
}

/// One of `@`, `#` and `%`, chosen at random.
pub fn get_random_char() -> (c: char)
    ensures
        random_chars().contains(c),
{
    let chars: Vec<char> = vec!['@', '#', '%'];
    pick(&chars).unwrap_or_default()
}

/// One of red, lime green, magenta, cyan and white, chosen at random.
pub fn get_random_color() -> (c: RGB)
    ensures
        random_colors().contains(c),
{
    let cols: Vec<RGB> = vec![
        rgb_named(RED),
        rgb_named(LIMEGREEN),
        rgb_named(MAGENTA),
        rgb_named(CYAN),
        rgb_named(WHITE),
    ];
    pick(&cols).unwrap_or(rgb_named(WHITE))
}

/// A random position in a rectangle of `max_w` columns and `max_h` rows.
pub fn get_random_pos(max_w: i32, max_h: i32) -> (pos: (i32, i32))
    requires
        max_w > 0,
        max_h > 0,
    ensures
        0 <= pos.0 < max_w,
        0 <= pos.1 < max_h,
{
    let x: i32 = gen_range(0, max_w);
    let y: i32 = gen_range(0, max_h);
    (x, y)
}

/// In a list that holds `w` columns of `h` entries each, one column after
/// the other, entry `y` of column `x` has the index `x * h + y`, and the
/// index gives both back.
pub proof fn lemma_column_major(x: int, y: int, w: int, h: int)
    requires
        0 <= x < w,
        0 <= y < h,
    ensures
        0 <= x * h + y < w * h,
        (x * h + y) / h == x,
        (x * h + y) % h == y,
{
    assert(0 <= x * h && x * h + h <= w * h) by (nonlinear_arith)
        requires
            0 <= x,
            x + 1 <= w,
            0 <= h,
    ;
    lemma_fundamental_div_mod_converse(x * h + y, h, x, y);
}

/// The cells that fill a screen of `w` columns and `h` rows with one glyph
/// in one pair of colours, in the order they are drawn: column by column
/// from the left, each column from the top. A screen without columns or
/// without rows has no cells.
pub open spec fn filled(w: int, h: int, fg_color: RGB, bg_color: RGB, glyph: char) -> Seq<Cell> {
    if w <= 0 || h <= 0 {
        Seq::empty()
    } else {
        Seq::new(
            (w * h) as nat,
            |i: int| Cell { x: (i / h) as i32, y: (i % h) as i32, fg: fg_color, bg: bg_color, char: glyph },
        )
    }
}

/// The cells that fill a screen of `w` columns and `h` rows with one glyph
/// in one pair of colours, in the order they are drawn.
pub fn fill_bg(w: i32, h: i32, fg_color: RGB, bg_color: RGB, char: char) -> (list: Vec<Cell>)
    ensures
        list@ == filled(w as int, h as int, fg_color, bg_color, char),
{
    let mut list: Vec<Cell> = Vec::new();
    if w <= 0 || h <= 0 {
        return list;
    }
    let ghost all = filled(w as int, h as int, fg_color, bg_color, char);
    let mut x: i32 = 0;
    while x < w
        invariant
            0 <= x <= w,
            0 < h,
            all == filled(w as int, h as int, fg_color, bg_color, char),
            0 <= x * h <= w * h,
            list@ == all.take(x * h),
        decreases w - x,
    {
        let mut y: i32 = 0;
        while y < h
            invariant
                0 <= x < w,
                0 <= y <= h,
                all == filled(w as int, h as int, fg_color, bg_color, char),
                0 <= x * h + y <= w * h,
                list@ == all.take(x * h + y),
            decreases h - y,
        {
            proof {
                lemma_column_major(x as int, y as int, w as int, h as int);
            }
            list.push(Cell::new(x, y, char, fg_color, bg_color));
            y += 1;
        }
        proof {
            assert(x * h + h == (x + 1) * h && (x + 1) * h <= w * h) by (nonlinear_arith)
                requires
                    x + 1 <= w,
                    0 <= h,
            ;
        }
        x += 1;
    }
    list
}

/// The seed a noise field is built with: `seed` itself, unless it is 0. A
/// seed of 0 asks for a field that differs from run to run, and `clock` is
/// then read for the seed. `clock` is not called for any other seed.
pub fn noise_seed<F: FnOnce() -> u64>(seed: u64, clock: F) -> (chosen: u64)
    requires
        seed == 0 ==> call_requires(clock, ()),
    ensures
        seed != 0 ==> chosen == seed,
        seed == 0 ==> call_ensures(clock, (), chosen),
{
    if seed == 0 {
        clock()
    } else {
        seed
    }
}

} // verus!

//! What every entity has, and what every entity can do.

use crate::state::Cell;
use crate::util::{clamp_axis, Point};
use bracket_lib::color::RGB;
use vstd::prelude::*;

verus! {

/// Position, glyph and colours of one entity.
pub struct EntityProps {
    pub x: i32,
    pub y: i32,
    pub char: char,
    pub fg_color: RGB,
    pub bg_color: RGB,
}

impl EntityProps {
    /// An entity at `(x, y)` that shows `c` in the given colours.
    pub fn new(x: i32, y: i32, c: char, fg_color: RGB, bg_color: RGB) -> (props: Self)
        ensures
            props == (EntityProps { x, y, char: c, fg_color, bg_color }),
    {
        Self { x, y, char: c, fg_color, bg_color }
    }
}

/// Reading and writing the properties of an entity.
///
/// `props` is the model: every getter returns one of its fields, and every
/// setter changes exactly the fields it names.
pub trait EntityFuncs {
    /// The properties the entity has now.
    spec fn props(&self) -> EntityProps;

    fn x(&self) -> (x: i32)
        ensures
            x == self.props().x,
    ;

    fn y(&self) -> (y: i32)
        ensures
            y == self.props().y,
    ;

    fn char(&self) -> (c: char)
        ensures
            c == self.props().char,
    ;

    fn fg_color(&self) -> (c: RGB)
        ensures
            c == self.props().fg_color,
    ;

    fn bg_color(&self) -> (c: RGB)
        ensures
            c == self.props().bg_color,
    ;

    fn set_x(&mut self, x: i32)
        ensures
            final(self).props() == (EntityProps { x, ..old(self).props() }),
    ;

    fn set_y(&mut self, y: i32)
        ensures
            final(self).props() == (EntityProps { y, ..old(self).props() }),
    ;

    fn set_pos(&mut self, x: i32, y: i32)
        ensures
            final(self).props() == (EntityProps { x, y, ..old(self).props() }),
    {
        self.set_x(x);
        self.set_y(y);
    }

    fn set_char(&mut self, c: char)
        ensures
            final(self).props() == (EntityProps { char: c, ..old(self).props() }),
    ;

    fn set_fg_color(&mut self, c: RGB)
        ensures
            final(self).props() == (EntityProps { fg_color: c, ..old(self).props() }),
    ;

    fn set_bg_color(&mut self, c: RGB)
        ensures
            final(self).props() == (EntityProps { bg_color: c, ..old(self).props() }),
    ;
}

/// One step in each of the four directions, kept inside `bounds`.
///
/// `bounds.x` is the number of columns and `bounds.y` the number of rows. A
/// step changes one coordinate by one; both coordinates are then clamped, so
/// an entity that stood outside the bounds is brought inside by any step.
pub trait Movable {
    /// Where the entity stands now.
    spec fn position(&self) -> Point;

    fn move_up(&mut self, bounds: Point)
        requires
            bounds.x > i32::MIN,
            bounds.y > i32::MIN,
        ensures
            final(self).position().x == clamp_axis(old(self).position().x as int, bounds.x as int),
            final(self).position().y == clamp_axis(old(self).position().y - 1, bounds.y as int),
    ;

    fn move_down(&mut self, bounds: Point)
        requires
            bounds.x > i32::MIN,
            bounds.y > i32::MIN,
        ensures
            final(self).position().x == clamp_axis(old(self).position().x as int, bounds.x as int),
            final(self).position().y == clamp_axis(old(self).position().y + 1, bounds.y as int),
    ;

    fn move_left(&mut self, bounds: Point)
        requires
            bounds.x > i32::MIN,
            bounds.y > i32::MIN,
        ensures
            final(self).position().x == clamp_axis(old(self).position().x - 1, bounds.x as int),
            final(self).position().y == clamp_axis(old(self).position().y as int, bounds.y as int),
    ;

    fn move_right(&mut self, bounds: Point)
        requires
            bounds.x > i32::MIN,
            bounds.y > i32::MIN,
        ensures
            final(self).position().x == clamp_axis(old(self).position().x + 1, bounds.x as int),
            final(self).position().y == clamp_axis(old(self).position().y as int, bounds.y as int),
    ;
}

/// What is drawn as a single glyph.
///
/// Nothing here touches a screen: `draw` says what is to be put where, and
/// the caller puts it there.
pub trait Drawable {
    /// The screen cell the entity fills.
    spec fn glyph(&self) -> Cell;

    fn draw(&self) -> (cell: Cell)
        ensures
            cell == self.glyph(),
    ;
}

} // verus!

//! The player: one glyph that walks.

use crate::color::{named, rgb_named, BLACK, WHITE};
use crate::entities::entity::{Drawable, EntityFuncs, EntityProps, Movable};
use crate::state::Cell;
use crate::util::{constrain_coords, step_back, step_forth, Point};
use bracket_lib::color::RGB;
use vstd::prelude::*;

verus! {

/// The entity that the keyboard moves.
pub struct Player {
    pub props: EntityProps,
}

impl Player {
    /// The player a game starts with.
    pub open spec fn new_spec() -> Player {
        Player {
            props: EntityProps {
                x: 0,
                y: 0,
                char: 'B',
                fg_color: named(WHITE),
                bg_color: named(BLACK),
            },
        }
    }

    /// A white `B` on black, in the top left corner.
    #[verifier::when_used_as_spec(new_spec)]
    pub fn new() -> (player: Self)
        ensures
            player == Player::new_spec(),
    {
        Self { props: EntityProps::new(0, 0, 'B', rgb_named(WHITE), rgb_named(BLACK)) }
    }
}

impl Drawable for Player {
    open spec fn glyph(&self) -> Cell {
        Cell {
            x: self.props.x,
            y: self.props.y,
            fg: self.props.fg_color,
            bg: self.props.bg_color,
            char: self.props.char,
        }
    }

    fn draw(&self) -> Cell {
        Cell::new(
            self.props.x,
            self.props.y,
            self.props.char,
            self.props.fg_color,
            self.props.bg_color,
        )
    }
}

impl Movable for Player {
    open spec fn position(&self) -> Point {
        Point { x: self.props.x, y: self.props.y }
    }

    fn move_up(&mut self, bounds: Point)
        ensures
            final(self).props == (EntityProps {
                x: final(self).props.x,
                y: final(self).props.y,
                ..old(self).props
            }),
    {
        let new_pos = constrain_coords(self.x(), step_back(self.y()), bounds.x, bounds.y);
        self.set_pos(new_pos.x, new_pos.y);
    }

    fn move_down(&mut self, bounds: Point)
        ensures
            final(self).props == (EntityProps {
                x: final(self).props.x,
                y: final(self).props.y,
                ..old(self).props
            }),
    {
        let new_pos = constrain_coords(self.x(), step_forth(self.y()), bounds.x, bounds.y);
        self.set_pos(new_pos.x, new_pos.y);
    }

    fn move_left(&mut self, bounds: Point)
        ensures
            final(self).props == (EntityProps {
                x: final(self).props.x,
                y: final(self).props.y,
                ..old(self).props
            }),
    {
        let new_pos = constrain_coords(step_back(self.x()), self.y(), bounds.x, bounds.y);
        self.set_pos(new_pos.x, new_pos.y);
    }

    fn move_right(&mut self, bounds: Point)
        ensures
            final(self).props == (EntityProps {
                x: final(self).props.x,
                y: final(self).props.y,
                ..old(self).props
            }),
    {
        let new_pos = constrain_coords(step_forth(self.x()), self.y(), bounds.x, bounds.y);
        self.set_pos(new_pos.x, new_pos.y);
    }
}

impl EntityFuncs for Player {
    open spec fn props(&self) -> EntityProps {
        self.props
    }

    fn x(&self) -> i32 {
        self.props.x
    }

    fn y(&self) -> i32 {
        self.props.y
    }

    fn char(&self) -> char {
        self.props.char
    }

    fn fg_color(&self) -> RGB {
        self.props.fg_color
    }

    fn bg_color(&self) -> RGB {
        self.props.bg_color
    }

    fn set_x(&mut self, x: i32) {
        self.props.x = x;
    }

    fn set_y(&mut self, y: i32) {
        self.props.y = y;
    }

    fn set_char(&mut self, c: char) {
        self.props.char = c;
    }

    fn set_fg_color(&mut self, c: RGB) {
        self.props.fg_color = c;
    }

    fn set_bg_color(&mut self, c: RGB) {
        self.props.bg_color = c;
    }
}

} // verus!

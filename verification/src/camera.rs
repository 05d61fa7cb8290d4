//! A viewport that can be moved over the world.

use crate::entities::entity::Movable;
use crate::util::{constrain_coords, step_back, step_forth, Point};
use vstd::prelude::*;

verus! {

/// A viewport of `cols` columns and `rows` rows whose top left corner is at
/// `origin`.
pub struct Camera {
    pub cols: i32,
    pub rows: i32,
    pub origin: Point,
}

impl Camera {
    /// A viewport of the given size with its corner at `(0, 0)`.
    pub fn new(cols: i32, rows: i32) -> (camera: Self)
        ensures
            camera == (Camera { cols, rows, origin: Point { x: 0, y: 0 } }),
    {
        Self { cols, rows, origin: Point::new(0, 0) }
    }

    /// Puts the corner at `(x, y)`.
    pub fn set_origin(&mut self, x: i32, y: i32)
        ensures
            *final(self) == (Camera { origin: Point { x, y }, ..*old(self) }),
    {
        self.origin = Point::new(x, y);
    }
}

impl Movable for Camera {
    open spec fn position(&self) -> Point {
        self.origin
    }

    fn move_up(&mut self, bounds: Point)
        ensures
            final(self).cols == old(self).cols,
            final(self).rows == old(self).rows,
    {
        let new_pos = constrain_coords(self.origin.x, step_back(self.origin.y), bounds.x, bounds.y);
        self.set_origin(new_pos.x, new_pos.y);
    }

    fn move_down(&mut self, bounds: Point)
        ensures
            final(self).cols == old(self).cols,
            final(self).rows == old(self).rows,
    {
        let new_pos = constrain_coords(self.origin.x, step_forth(self.origin.y), bounds.x, bounds.y);
        self.set_origin(new_pos.x, new_pos.y);
    }

    fn move_left(&mut self, bounds: Point)
        ensures
            final(self).cols == old(self).cols,
            final(self).rows == old(self).rows,
    {
        let new_pos = constrain_coords(step_back(self.origin.x), self.origin.y, bounds.x, bounds.y);
        self.set_origin(new_pos.x, new_pos.y);
    }

    fn move_right(&mut self, bounds: Point)
        ensures
            final(self).cols == old(self).cols,
            final(self).rows == old(self).rows,
    {
        let new_pos = constrain_coords(step_forth(self.origin.x), self.origin.y, bounds.x, bounds.y);
        self.set_origin(new_pos.x, new_pos.y);
    }
}

} // verus!

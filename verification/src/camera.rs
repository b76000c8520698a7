//! The scrolling camera: where the viewport sits on the grid and how large it
//! is.

use vstd::prelude::*;
use crate::geometry::{clamp_coord, saturate, Rect, Region, Vec2};

verus! {

/// Distance that one press of a pan key moves the camera.
pub const PAN_STEP: i64 = 64;

/// A viewport of `viewport` layout units whose top-left corner is at
/// `position` on the grid.
#[derive(Clone, Copy, Debug)]
pub struct Camera2D {
    pub position: Vec2,
    pub viewport: Vec2,
}

impl Camera2D {
    /// The part of the grid that the camera shows.
    pub open spec fn region(self) -> Region {
        Region {
            x: self.position.x as int,
            y: self.position.y as int,
            width: self.viewport.x as int,
            height: self.viewport.y as int,
        }
    }

    /// A camera at the origin with an empty viewport.
    pub fn new() -> (r: Camera2D)
        ensures
            r.position == (Vec2 { x: 0, y: 0 }),
            r.viewport == (Vec2 { x: 0, y: 0 }),
    {
        Camera2D { position: Vec2 { x: 0, y: 0 }, viewport: Vec2 { x: 0, y: 0 } }
    }

    /// Adopts the size of the window after a resize. The position stays.
    pub fn update_viewport_dimensions(&mut self, window_width: u32, window_height: u32)
        ensures
            final(self).position == old(self).position,
            final(self).viewport.x == window_width,
            final(self).viewport.y == window_height,
    {
        self.viewport = Vec2 { x: window_width as i64, y: window_height as i64 };
    }

    /// Moves the camera by `(dx, dy)` at once, with no animation. At the ends
    /// of the coordinate range the camera stops.
    pub fn pan(&mut self, dx: i64, dy: i64)
        ensures
            final(self).viewport == old(self).viewport,
            final(self).position.x == clamp_coord(old(self).position.x + dx),
            final(self).position.y == clamp_coord(old(self).position.y + dy),
    {
        let x: i64 = saturate(self.position.x as i128 + dx as i128);
        let y: i64 = saturate(self.position.y as i128 + dy as i128);
        self.position = Vec2 { x, y };
    }

    /// Where a point of the grid appears relative to the top-left corner of
    /// the viewport. Far outside the coordinate range the result saturates.
    pub fn get_position_in_screen_space(&self, position: Vec2) -> (r: Vec2)
        ensures
            r.x == clamp_coord(position.x - self.position.x),
            r.y == clamp_coord(position.y - self.position.y),
    {
        let x: i64 = saturate(position.x as i128 - self.position.x as i128);
        let y: i64 = saturate(position.y as i128 - self.position.y as i128);
        Vec2 { x, y }
    }

    /// Whether the rectangle at `position` with extent `dimensions` is at least
    /// partly inside the viewport, borders included.
    pub fn is_rectangle_in_view(&self, position: Vec2, dimensions: Vec2) -> (r: bool)
        ensures
            r == (Rect { origin: position, size: dimensions })@.overlaps(self.region()),
    {
        let far_x: i128 = self.position.x as i128 + self.viewport.x as i128;
        let far_y: i128 = self.position.y as i128 + self.viewport.y as i128;
        let end_x: i128 = position.x as i128 + dimensions.x as i128;
        let end_y: i128 = position.y as i128 + dimensions.y as i128;
        position.x as i128 <= far_x && end_x >= self.position.x as i128
            && position.y as i128 <= far_y && end_y >= self.position.y as i128
    }
}

} // verus!

//! Continuous cursor position samples and the per-frame cursor delta.

use vstd::prelude::*;

use crate::fixed::Vec2Fx;

verus! {

/// The current and previous cursor position, in fixed-point window pixels.
#[derive(Clone, Copy, PartialEq, Eq, Structural, Debug)]
pub struct MouseListener {
    pub mouse_position: Vec2Fx,
    pub prev_mouse_position: Vec2Fx,
}

impl MouseListener {
    /// A listener with the cursor at the origin and no pending delta.
    pub fn new() -> (r: MouseListener)
        ensures
            r == (MouseListener {
                mouse_position: Vec2Fx { x: 0, y: 0 },
                prev_mouse_position: Vec2Fx { x: 0, y: 0 },
            }),
    {
        MouseListener {
            mouse_position: Vec2Fx { x: 0, y: 0 },
            prev_mouse_position: Vec2Fx { x: 0, y: 0 },
        }
    }

    /// Record a cursor sample: the old sample becomes the previous one.
    pub fn mouse_pos_callback(&mut self, x: i64, y: i64)
        ensures
            *final(self) == (MouseListener {
                mouse_position: Vec2Fx { x, y },
                prev_mouse_position: old(self).mouse_position,
            }),
    {
        self.prev_mouse_position = self.mouse_position;
        self.mouse_position = Vec2Fx { x, y };
    }

    /// The cursor movement since the last frame ended.
    pub fn get_mouse_delta(&self) -> (r: Vec2Fx)
        requires
            i64::MIN <= self.mouse_position.x - self.prev_mouse_position.x <= i64::MAX,
            i64::MIN <= self.mouse_position.y - self.prev_mouse_position.y <= i64::MAX,
        ensures
            r == (Vec2Fx {
                x: (self.mouse_position.x - self.prev_mouse_position.x) as i64,
                y: (self.mouse_position.y - self.prev_mouse_position.y) as i64,
            }),
    {
        Vec2Fx {
            x: self.mouse_position.x - self.prev_mouse_position.x,
            y: self.mouse_position.y - self.prev_mouse_position.y,
        }
    }

    /// Consume the pending delta: the next delta is measured from here.
    pub fn end_frame(&mut self)
        ensures
            *final(self) == (MouseListener {
                mouse_position: old(self).mouse_position,
                prev_mouse_position: old(self).mouse_position,
            }),
    {
        self.prev_mouse_position = self.mouse_position;
    }
}

} // verus!

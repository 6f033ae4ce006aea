//! Module containing the [Viewport] struct.

use vstd::prelude::*;

verus! {

/// Manages the size of the render target's viewport rectangle.
#[derive(Debug, Clone, Copy, PartialEq, Eq, Structural)]
pub struct Viewport {
    pub x: i32,
    pub y: i32,
    pub w: u32,
    pub h: u32,
}

impl Viewport {
    /// Initialize a [Viewport] with the given window size.
    pub fn for_window(w: i32, h: i32) -> (vp: Viewport)
        requires
            w >= 0,
            h >= 0,
        ensures
            vp == (Viewport { x: 0, y: 0, w: w as u32, h: h as u32 }),
    {
        Viewport { x: 0, y: 0, w: w as u32, h: h as u32 }
    }

    /// Update the desired size for the viewport.
    pub fn update_size(&mut self, w: i32, h: i32)
        requires
            w >= 0,
            h >= 0,
        ensures
            *final(self) == (Viewport {
                w: w as u32,
                h: h as u32,
                ..*old(self)
            }),
    {
        self.w = w as u32;
        self.h = h as u32;
    }

    /// Get the current viewport size.
    pub fn size(&self) -> (s: (u32, u32))
        ensures
            s == (self.w, self.h),
    {
        (self.w, self.h)
    }
}

} // verus!

//! Window geometry on the render side, and the monitor rectangle it covers.

use vstd::prelude::*;
use crate::frame::CropRegion;

verus! {

/// Position (which may be negative) and size of the overlay window, and
/// whether it has input focus.
#[derive(Clone, Copy, Debug, PartialEq, Eq, Structural)]
pub struct WindowGeometry {
    pub x: i32,
    pub y: i32,
    pub width: u32,
    pub height: u32,
    pub focused: bool,
}

/// The monitor rectangle that the window covers.
pub open spec fn region_of(g: WindowGeometry) -> CropRegion {
    CropRegion { x: g.x as i64, y: g.y as i64, width: g.width, height: g.height }
}

/// Render-side record of the window's geometry, fed by the windowing
/// system's move, resize and focus events.
pub struct RegionTracker {
    pub geometry: WindowGeometry,
}

impl RegionTracker {
    pub fn new(geometry: WindowGeometry) -> (t: Self)
        ensures
            t.geometry == geometry,
    {
        RegionTracker { geometry }
    }

    /// The window was resized; returns the size update for the capture side.
    pub fn on_resize(&mut self, width: u32, height: u32) -> (update: (u32, u32))
        ensures
            final(self).geometry == (WindowGeometry { width, height, ..old(self).geometry }),
            update == (width, height),
    {
        self.geometry.width = width;
        self.geometry.height = height;
        (width, height)
    }

    /// The window moved, possibly partly off the monitor; returns the
    /// position update for the capture side.
    pub fn on_move(&mut self, x: i32, y: i32) -> (update: (i32, i32))
        ensures
            final(self).geometry == (WindowGeometry { x, y, ..old(self).geometry }),
            update == (x, y),
    {
        self.geometry.x = x;
        self.geometry.y = y;
        (x, y)
    }

    /// The window gained or lost input focus.
    pub fn on_focus(&mut self, focused: bool)
        ensures
            final(self).geometry == (WindowGeometry { focused, ..old(self).geometry }),
    {
        self.geometry.focused = focused;
    }

    /// The rectangle that the window currently covers.
    pub fn region(&self) -> (r: CropRegion)
        ensures
            r == region_of(self.geometry),
    {
        CropRegion {
            x: self.geometry.x as i64,
            y: self.geometry.y as i64,
            width: self.geometry.width,
            height: self.geometry.height,
        }
    }
}

} // verus!

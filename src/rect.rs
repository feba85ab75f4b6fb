//! Axis-aligned rectangular regions of the canvas.
use vstd::prelude::*;

verus! {

/// A region with its top left corner at `(x, y)`, `w` pixels wide and `h`
/// pixels high.
#[derive(Clone, Copy, Debug, PartialEq, Eq, Structural)]
pub struct Rect {
    pub x: u16,
    pub y: u16,
    pub w: u16,
    pub h: u16,
}

impl Rect {
    /// Whether pixel `(px, py)` lies in the region.
    pub open spec fn contains(self, px: int, py: int) -> bool {
        self.x <= px < self.x + self.w && self.y <= py < self.y + self.h
    }

    /// Creates a region from its corner and size.
    pub fn from(x: u16, y: u16, w: u16, h: u16) -> (r: Rect)
        ensures
            r == (Rect { x, y, w, h }),
    {
        Rect { x, y, w, h }
    }
}

} // verus!

//! Plain integer geometry: rectangles and buffer sizes, with the
//! logical-to-physical conversion the compositor supplies a scale factor for.

use vstd::prelude::*;

verus! {

/// An axis-aligned rectangle: location and extent, in whichever coordinate
/// space (logical or physical) the context gives it.
#[derive(Clone, Copy, Debug, PartialEq, Eq, Structural)]
pub struct Rect {
    pub x: i32,
    pub y: i32,
    pub w: i32,
    pub h: i32,
}

/// The size of a target buffer, in physical pixels.
#[derive(Clone, Copy, Debug, PartialEq, Eq, Structural)]
pub struct Extent {
    pub w: i32,
    pub h: i32,
}

/// All four scaled coordinates of `r` stay representable.
pub open spec fn scaled_fits(r: Rect, scale: int) -> bool {
    &&& i32::MIN <= r.x * scale <= i32::MAX
    &&& i32::MIN <= r.y * scale <= i32::MAX
    &&& i32::MIN <= r.w * scale <= i32::MAX
    &&& i32::MIN <= r.h * scale <= i32::MAX
}

/// `r` scaled coordinate-wise, as mathematical integers.
pub open spec fn spec_scaled(r: Rect, scale: int) -> Rect {
    Rect {
        x: (r.x * scale) as i32,
        y: (r.y * scale) as i32,
        w: (r.w * scale) as i32,
        h: (r.h * scale) as i32,
    }
}

/// The rectangle covering a whole buffer of size `size`.
pub open spec fn full_rect(size: Extent) -> Rect {
    Rect { x: 0, y: 0, w: size.w, h: size.h }
}

impl Rect {
    /// Convert a logical rectangle to physical coordinates by the active
    /// scale factor.
    pub fn to_physical(&self, scale: i32) -> (r: Rect)
        requires
            scaled_fits(*self, scale as int),
        ensures
            r == spec_scaled(*self, scale as int),
    {
        Rect { x: self.x * scale, y: self.y * scale, w: self.w * scale, h: self.h * scale }
    }
}

impl Extent {
    /// The rectangle covering this whole buffer.
    pub fn full(&self) -> (r: Rect)
        ensures
            r == full_rect(*self),
    {
        Rect { x: 0, y: 0, w: self.w, h: self.h }
    }
}

} // verus!

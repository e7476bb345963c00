//! Integer rectangles and extents, in pixels.

use vstd::prelude::*;

verus! {

#[derive(Clone, Copy, Debug, PartialEq, Eq, Hash, Structural)]
pub struct Offset2D {
    pub x: i32,
    pub y: i32,
}

#[derive(Clone, Copy, Debug, PartialEq, Eq, Hash, Structural)]
pub struct Extent2D {
    pub width: u32,
    pub height: u32,
}

#[derive(Clone, Copy, Debug, PartialEq, Eq, Hash, Structural)]
pub struct Rect2D {
    pub offset: Offset2D,
    pub extent: Extent2D,
}

/// A viewport in whole pixels. Its depth range is always the unit interval. A
/// negative height turns the image upside down: the viewport then begins at its
/// lower edge and extends upwards.
#[derive(Clone, Copy, Debug, PartialEq, Eq, Hash, Structural)]
pub struct Viewport {
    pub x: i64,
    pub y: i64,
    pub width: i64,
    pub height: i64,
}

impl Rect2D {
    /// The viewport that covers exactly the rectangle's extent, with the y axis
    /// pointing up: the native API's own y axis points down, so the viewport
    /// begins at the lower edge and has a negative height.
    pub open spec fn full_viewport(self) -> Viewport {
        Viewport {
            x: 0,
            y: self.extent.height as i64,
            width: self.extent.width as i64,
            height: (-(self.extent.height as int)) as i64,
        }
    }

    /// The scissor that covers exactly the rectangle's extent, from the origin.
    pub open spec fn full_scissor(self) -> Rect2D {
        Rect2D { offset: Offset2D { x: 0, y: 0 }, extent: self.extent }
    }
}

} // verus!

//! Sizes and points on the canvas, in whole canvas units.

use vstd::prelude::*;

verus! {

/// Canvas units in one pixel. A unit is a thousandth of a pixel, so that the
/// half-pixel bounds of a star's size are whole numbers.
pub const UNITS_PER_PIXEL: u64 = 1000;

/// A position, in canvas units. Which origin it is measured from is said
/// where it is used.
#[derive(Clone, Copy, Debug, PartialEq, Eq, Structural)]
pub struct Point {
    pub x: i64,
    pub y: i64,
}

/// The extent of a canvas, in canvas units.
#[derive(Clone, Copy, Debug, PartialEq, Eq, Structural)]
pub struct Size {
    pub width: u64,
    pub height: u64,
}

impl Size {
    /// A canvas without area: nothing is painted on it.
    pub open spec fn spec_is_empty(&self) -> bool {
        self.width == 0 || self.height == 0
    }

    /// The canvas centre, measured from the top-left corner. Each coordinate
    /// is half the extent, rounded down to a whole unit.
    pub open spec fn spec_center(&self) -> Point {
        Point { x: (self.width / 2) as i64, y: (self.height / 2) as i64 }
    }

    /// The size of a canvas of `width` by `height` whole pixels.
    pub fn from_pixels(width: u32, height: u32) -> (size: Size)
        ensures
            size.width == width * UNITS_PER_PIXEL,
            size.height == height * UNITS_PER_PIXEL,
    {
        Size { width: width as u64 * UNITS_PER_PIXEL, height: height as u64 * UNITS_PER_PIXEL }
    }

    /// Whether the canvas has no area.
    #[verifier::when_used_as_spec(spec_is_empty)]
    pub fn is_empty(&self) -> (empty: bool)
        ensures
            empty == (self.width == 0 || self.height == 0),
    {
        self.width == 0 || self.height == 0
    }

    /// The canvas centre, measured from the top-left corner, rounded down to
    /// a whole unit.
    #[verifier::when_used_as_spec(spec_center)]
    pub fn center(&self) -> (point: Point)
        ensures
            point.x == self.width / 2,
            point.y == self.height / 2,
    {
        Point { x: (self.width / 2) as i64, y: (self.height / 2) as i64 }
    }
}

} // verus!

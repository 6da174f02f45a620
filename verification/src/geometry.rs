//! Rectangles in the accessibility coordinate space (origin at the top left
//! of the primary screen, y growing downwards).
//!
//! Screens and windows as read are measured in sixths of a point (`Rect`),
//! which holds exactly every position and size aligned to the pixels of a
//! screen at one, two or three pixels per point. The rectangles that layouts
//! ask for are measured six times finer, in thirty-sixths of a point
//! (`FineRect`): every layout divides a screen by 2, 3 or 6, so each target
//! is exact.

use vstd::prelude::*;

verus! {

/// Largest magnitude a coordinate or extent of a `Rect` may have for the
/// layout arithmetic, done six times finer, to stay inside `i64` (2^59).
pub const COORD_LIMIT: i64 = 576460752303423488;

/// Units of a `Rect` (sixths of a point) in one point.
pub const UNITS_PER_POINT: i64 = 6;

/// Units of a `FineRect` (thirty-sixths of a point) in one point.
pub const FINE_UNITS_PER_POINT: i64 = 36;

/// An axis-aligned rectangle in sixths of a point: top-left corner `(x, y)`
/// and its extent.
#[derive(Clone, Copy, Debug, PartialEq, Eq, Structural)]
pub struct Rect {
    pub x: i64,
    pub y: i64,
    pub width: i64,
    pub height: i64,
}

/// An axis-aligned rectangle measured in thirty-sixths of a point.
#[derive(Clone, Copy, Debug, PartialEq, Eq, Structural)]
pub struct FineRect {
    pub x: i64,
    pub y: i64,
    pub width: i64,
    pub height: i64,
}

/// `v` lies within `[-COORD_LIMIT, COORD_LIMIT]`.
pub open spec fn coord_fits(v: int) -> bool {
    -COORD_LIMIT <= v <= COORD_LIMIT
}

/// The four fields `(x, y, width, height)` of a rectangle as integers.
pub type Quad = (int, int, int, int);

impl Rect {
    /// Every field lies within `[-COORD_LIMIT, COORD_LIMIT]`.
    pub open spec fn fits(self) -> bool {
        &&& coord_fits(self.x as int)
        &&& coord_fits(self.y as int)
        &&& coord_fits(self.width as int)
        &&& coord_fits(self.height as int)
    }

    /// Right edge `x + width`.
    pub open spec fn right(self) -> int {
        self.x + self.width
    }

    /// Bottom edge `y + height`.
    pub open spec fn bottom(self) -> int {
        self.y + self.height
    }

    /// The fields, in sixths of a point.
    pub open spec fn quad(self) -> Quad {
        (self.x as int, self.y as int, self.width as int, self.height as int)
    }

    /// The fields in the units of a `FineRect`, six times finer.
    pub open spec fn as_fine(self) -> Quad {
        (6 * self.x, 6 * self.y, 6 * self.width, 6 * self.height)
    }

    /// Checks that every field lies within `[-COORD_LIMIT, COORD_LIMIT]`.
    pub fn is_within_limits(&self) -> (r: bool)
        ensures
            r == self.fits(),
    {
        -COORD_LIMIT <= self.x && self.x <= COORD_LIMIT && -COORD_LIMIT <= self.y && self.y
            <= COORD_LIMIT && -COORD_LIMIT <= self.width && self.width <= COORD_LIMIT
            && -COORD_LIMIT <= self.height && self.height <= COORD_LIMIT
    }
}

impl FineRect {
    /// The fields, in thirty-sixths of a point.
    pub open spec fn quad(self) -> Quad {
        (self.x as int, self.y as int, self.width as int, self.height as int)
    }
}

} // verus!

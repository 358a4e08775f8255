//! Primitive geometry: points, sizes and rectangles with optional parts.
//!
//! All coordinates are fixed-point millimeters: one unit is a thousandth of a
//! millimeter.  Arithmetic on coordinates saturates at the `i64` range, and
//! sizes produced by `inset` are clamped at zero, so over-constrained input
//! yields degenerate (empty) geometry instead of nonsense.

use vstd::prelude::*;
use crate::style::Space;

verus! {

/// Dots per inch used to convert image pixel dimensions to millimeters.
pub const DPI: u64 = 300;

/// Thousandths of a millimeter in one inch.
pub const UM_PER_INCH: u64 = 25400;

/// The value of `x` clamped to the `i64` range.
pub open spec fn sat64(x: int) -> int {
    if x > i64::MAX {
        i64::MAX as int
    } else if x < i64::MIN {
        i64::MIN as int
    } else {
        x
    }
}

/// Saturating addition on coordinates.
pub fn sat_add(a: i64, b: i64) -> (r: i64)
    ensures
        r as int == sat64(a + b),
{
    match a.checked_add(b) {
        Some(c) => c,
        None => {
            if b > 0 {
                i64::MAX
            } else {
                i64::MIN
            }
        },
    }
}

/// Saturating subtraction on coordinates.
pub fn sat_sub(a: i64, b: i64) -> (r: i64)
    ensures
        r as int == sat64(a - b),
{
    match a.checked_sub(b) {
        Some(c) => c,
        None => {
            if b < 0 {
                i64::MAX
            } else {
                i64::MIN
            }
        },
    }
}

/// The larger of two coordinates.
pub fn max64(a: i64, b: i64) -> (r: i64)
    ensures
        r as int == if a >= b { a as int } else { b as int },
{
    if a >= b {
        a
    } else {
        b
    }
}

/// A position, in thousandths of a millimeter from the top-left origin.
#[derive(Clone, Copy, Debug, PartialEq, Eq, Structural)]
pub struct GeoPoint {
    pub x: i64,
    pub y: i64,
}

/// An extent, in thousandths of a millimeter.
#[derive(Clone, Copy, Debug, PartialEq, Eq, Structural)]
pub struct GeoSize {
    pub width: i64,
    pub height: i64,
}

impl GeoSize {
    /// A size from a width and a height.
    pub fn new(width: i64, height: i64) -> (r: GeoSize)
        ensures
            r == (GeoSize { width, height }),
    {
        GeoSize { width, height }
    }
}

/// A rectangle whose position and extent are independently optional.
///
/// A frame with both parts present is fully specified; with neither, fully
/// auto; the mixed states are legal and meaningful.
#[derive(Clone, Copy, Debug, PartialEq, Eq)]
pub struct GeoRect {
    pub point: Option<GeoPoint>,
    pub size: Option<GeoSize>,
}

impl GeoRect {
    /// The width, or zero if the size is absent.
    pub open spec fn spec_width(self) -> int {
        match self.size {
            Some(s) => s.width as int,
            None => 0,
        }
    }

    /// The height, or zero if the size is absent.
    pub open spec fn spec_height(self) -> int {
        match self.size {
            Some(s) => s.height as int,
            None => 0,
        }
    }

    /// The left edge, with an absent position read as the origin.
    pub open spec fn spec_min_x(self) -> int {
        match self.point {
            Some(p) => p.x as int,
            None => 0,
        }
    }

    /// The top edge, with an absent position read as the origin.
    pub open spec fn spec_min_y(self) -> int {
        match self.point {
            Some(p) => p.y as int,
            None => 0,
        }
    }

    /// The right edge: left edge plus width, saturating.
    pub open spec fn spec_max_x(self) -> int {
        sat64(self.spec_min_x() + self.spec_width())
    }

    /// The bottom edge: top edge plus height, saturating.
    pub open spec fn spec_max_y(self) -> int {
        sat64(self.spec_min_y() + self.spec_height())
    }

    /// Whether both position and size are present.
    pub open spec fn is_fully_specified(self) -> bool {
        self.point is Some && self.size is Some
    }

    /// A fully specified rectangle from a width, height and position.
    pub fn new(width: i64, height: i64, x: i64, y: i64) -> (r: GeoRect)
        ensures
            r == (GeoRect {
                point: Some(GeoPoint { x, y }),
                size: Some(GeoSize { width, height }),
            }),
    {
        GeoRect { point: Some(GeoPoint { x, y }), size: Some(GeoSize { width, height }) }
    }

    /// The fully specified rectangle at the origin with zero extent.
    pub fn zero() -> (r: GeoRect)
        ensures
            r == (GeoRect {
                point: Some(GeoPoint { x: 0, y: 0 }),
                size: Some(GeoSize { width: 0, height: 0 }),
            }),
    {
        GeoRect { point: Some(GeoPoint { x: 0, y: 0 }), size: Some(GeoSize { width: 0, height: 0 }) }
    }

    /// The fully auto rectangle: no position, no size.
    pub fn none() -> (r: GeoRect)
        ensures
            r == (GeoRect { point: None, size: None }),
    {
        GeoRect { point: None, size: None }
    }

    /// The width, or zero if the size is absent.
    pub fn width(&self) -> (r: i64)
        ensures
            r as int == self.spec_width(),
    {
        match &self.size {
            Some(s) => s.width,
            None => 0,
        }
    }

    /// The height, or zero if the size is absent.
    pub fn height(&self) -> (r: i64)
        ensures
            r as int == self.spec_height(),
    {
        match &self.size {
            Some(s) => s.height,
            None => 0,
        }
    }

    /// The left edge, with an absent position read as the origin.
    pub fn min_x(&self) -> (r: i64)
        ensures
            r as int == self.spec_min_x(),
    {
        match &self.point {
            Some(p) => p.x,
            None => 0,
        }
    }

    /// The right edge: left edge plus width, saturating.
    pub fn max_x(&self) -> (r: i64)
        ensures
            r as int == self.spec_max_x(),
    {
        sat_add(self.min_x(), self.width())
    }

    /// The top edge, with an absent position read as the origin.
    pub fn min_y(&self) -> (r: i64)
        ensures
            r as int == self.spec_min_y(),
    {
        match &self.point {
            Some(p) => p.y,
            None => 0,
        }
    }

    /// The bottom edge: top edge plus height, saturating.
    pub fn max_y(&self) -> (r: i64)
        ensures
            r as int == self.spec_max_y(),
    {
        sat_add(self.min_y(), self.height())
    }

    /// The rectangle shrunk by `space`, in spec form.
    ///
    /// The position moves right by `space.left` and down by `space.top`; the
    /// extent loses the padding on each axis and is clamped at zero.  An
    /// absent part is read as zero before padding; the result is always fully
    /// specified.
    pub open spec fn spec_inset(self, space: Space) -> GeoRect {
        GeoRect {
            point: Some(GeoPoint {
                x: sat64(self.spec_min_x() + space.left) as i64,
                y: sat64(self.spec_min_y() + space.top) as i64,
            }),
            size: Some(GeoSize {
                width: max_0(sat64(sat64(self.spec_width() - space.left) - space.right)) as i64,
                height: max_0(sat64(sat64(self.spec_height() - space.top) - space.bottom)) as i64,
            }),
        }
    }

    /// The rectangle shrunk by `space`: padding moves the position inward and
    /// reduces the extent, which is clamped at zero.
    pub fn inset(&self, space: &Space) -> (r: GeoRect)
        ensures
            r == self.spec_inset(*space),
    {
        GeoRect {
            point: Some(GeoPoint {
                x: sat_add(self.min_x(), space.left),
                y: sat_add(self.min_y(), space.top),
            }),
            size: Some(GeoSize {
                width: max64(sat_sub(sat_sub(self.width(), space.left), space.right), 0),
                height: max64(sat_sub(sat_sub(self.height(), space.top), space.bottom), 0),
            }),
        }
    }

    /// The smallest rectangle containing both `self` and `other`, in spec
    /// form, with absent parts read as zero.
    pub open spec fn spec_union(self, other: GeoRect) -> GeoRect {
        GeoRect {
            point: Some(GeoPoint {
                x: min_of(self.spec_min_x(), other.spec_min_x()) as i64,
                y: min_of(self.spec_min_y(), other.spec_min_y()) as i64,
            }),
            size: Some(GeoSize {
                width: sat64(
                    max_of(self.spec_max_x(), other.spec_max_x()) - min_of(
                        self.spec_min_x(),
                        other.spec_min_x(),
                    ),
                ) as i64,
                height: sat64(
                    max_of(self.spec_max_y(), other.spec_max_y()) - min_of(
                        self.spec_min_y(),
                        other.spec_min_y(),
                    ),
                ) as i64,
            }),
        }
    }

    /// The smallest rectangle containing both `self` and `other`, used to
    /// accumulate a visited extent; absent parts are read as zero.
    pub fn union(&self, other: &GeoRect) -> (r: GeoRect)
        ensures
            r == self.spec_union(*other),
    {
        let min_x = if self.min_x() <= other.min_x() {
            self.min_x()
        } else {
            other.min_x()
        };
        let min_y = if self.min_y() <= other.min_y() {
            self.min_y()
        } else {
            other.min_y()
        };
        let max_x = max64(self.max_x(), other.max_x());
        let max_y = max64(self.max_y(), other.max_y());
        GeoRect {
            point: Some(GeoPoint { x: min_x, y: min_y }),
            size: Some(GeoSize { width: sat_sub(max_x, min_x), height: sat_sub(max_y, min_y) }),
        }
    }

    /// The coordinate transform from top-left origin to bottom-left origin,
    /// in spec form: `x` shifts by the parent's left edge and `y` becomes
    /// `parent.height - y - height + parent.y`; the size is kept.
    pub open spec fn spec_transform(self, parent: GeoRect) -> GeoRect {
        GeoRect {
            point: Some(GeoPoint {
                x: sat64(self.spec_min_x() + parent.spec_min_x()) as i64,
                y: sat64(
                    sat64(sat64(parent.spec_height() - self.spec_min_y()) - self.spec_height())
                        + parent.spec_min_y(),
                ) as i64,
            }),
            size: self.size,
        }
    }

    /// Converts this top-left-origin rectangle into the bottom-left-origin
    /// space of `parent`.  Layout runs entirely in top-left-origin space; a
    /// renderer applies this transform exactly once per resolved frame.
    pub fn transform(&self, parent: &GeoRect) -> (r: GeoRect)
        ensures
            r == self.spec_transform(*parent),
    {
        GeoRect {
            point: Some(GeoPoint {
                x: sat_add(self.min_x(), parent.min_x()),
                y: sat_add(sat_sub(sat_sub(parent.height(), self.min_y()), self.height()), parent.min_y()),
            }),
            size: self.size,
        }
    }
}

/// The larger of `x` and zero.
pub open spec fn max_0(x: int) -> int {
    if x >= 0 {
        x
    } else {
        0
    }
}

/// The larger of two mathematical integers.
pub open spec fn max_of(a: int, b: int) -> int {
    if a >= b {
        a
    } else {
        b
    }
}

/// The smaller of two mathematical integers.
pub open spec fn min_of(a: int, b: int) -> int {
    if a <= b {
        a
    } else {
        b
    }
}

/// Pixel dimensions converted to thousandths of a millimeter at `DPI` dots
/// per inch: `px / (DPI / 25.4mm)`.
pub open spec fn spec_px_to_mm(px: int) -> int {
    px * UM_PER_INCH / DPI as int
}

/// Converts a pixel count (as from an image file) to thousandths of a
/// millimeter at `DPI` dots per inch.
pub fn px_to_mm(px: u32) -> (r: i64)
    ensures
        r as int == spec_px_to_mm(px as int),
{
    let wide: u64 = px as u64 * UM_PER_INCH / DPI;
    wide as i64
}

/// Transforming with a parent of height `h` at the origin, twice, restores
/// the original position: the bottom-left transform is an involution.
pub proof fn lemma_transform_involution(f: GeoRect, parent: GeoRect)
    requires
        f.point is Some,
        f.size is Some,
        parent.spec_min_x() == 0,
        parent.spec_min_y() == 0,
        0 <= f.spec_min_y(),
        0 <= f.spec_height(),
        f.spec_min_y() + f.spec_height() <= parent.spec_height(),
    ensures
        f.spec_transform(parent).spec_transform(parent).point->0.x == f.spec_min_x(),
        f.spec_transform(parent).spec_transform(parent).point->0.y == f.spec_min_y(),
        f.spec_transform(parent).spec_transform(parent).size == f.size,
{
}

} // verus!

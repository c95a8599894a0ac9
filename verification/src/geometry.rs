//! Integer geometry of the shared coordinate space.
//!
//! Rectangles and the places of surfaces are given in whole logical pixels.
//! A pointer moves in finer steps, so a [`Position`] counts sub-pixel units,
//! [`UNITS_PER_PIXEL`] of them to one pixel.

use vstd::prelude::*;

verus! {

/// The number of sub-pixel units in one logical pixel.
pub const UNITS_PER_PIXEL: i64 = 256;

/// A place in sub-pixel units.
#[derive(Clone, Copy, Debug, PartialEq, Eq, Structural)]
pub struct Position {
    pub x: i64,
    pub y: i64,
}

/// A place in whole pixels, narrow enough to be scaled and summed freely.
#[derive(Clone, Copy, Debug, PartialEq, Eq, Structural)]
pub struct Point {
    pub x: i32,
    pub y: i32,
}

/// A place in whole pixels as computed from several [`Point`]s and a
/// [`Position`]; wide enough to hold any such result.
#[derive(Clone, Copy, Debug, PartialEq, Eq, Structural)]
pub struct Location {
    pub x: i64,
    pub y: i64,
}

/// A rectangle in whole pixels: its top-left corner and its extent.
#[derive(Clone, Copy, Debug, PartialEq, Eq, Structural)]
pub struct Rect {
    pub x: i32,
    pub y: i32,
    pub w: u32,
    pub h: u32,
}

/// `v` kept within `lo ..= hi`; `lo` where the bounds cross.
pub open spec fn clamp_int(v: int, lo: int, hi: int) -> int {
    if v < lo {
        lo
    } else if v > hi {
        hi
    } else {
        v
    }
}

/// The sum of two sub-pixel coordinates, kept within the range of `i64`.
pub open spec fn saturating_sum(a: int, b: int) -> int {
    clamp_int(a + b, i64::MIN as int, i64::MAX as int)
}

/// The whole pixel nearest to `units` sub-pixel units; a half rounds away
/// from zero.
pub open spec fn round_to_pixel(units: int) -> int {
    if units >= 0 {
        (units + UNITS_PER_PIXEL / 2) / (UNITS_PER_PIXEL as int)
    } else {
        -((UNITS_PER_PIXEL / 2 - units) / (UNITS_PER_PIXEL as int))
    }
}

impl Position {
    /// This position moved by `delta`, each coordinate saturating at the
    /// ends of `i64`.
    pub open spec fn spec_moved_by(self, delta: Position) -> Position {
        Position {
            x: saturating_sum(self.x as int, delta.x as int) as i64,
            y: saturating_sum(self.y as int, delta.y as int) as i64,
        }
    }

    /// Moves the position by `delta`.
    pub fn moved_by(self, delta: Position) -> (moved: Position)
        ensures
            moved == self.spec_moved_by(delta),
    {
        Position { x: sum_saturating(self.x, delta.x), y: sum_saturating(self.y, delta.y) }
    }
}

/// `a + b`, saturating at the ends of `i64`.
pub fn sum_saturating(a: i64, b: i64) -> (sum: i64)
    ensures
        sum == saturating_sum(a as int, b as int),
{
    let wide: i128 = a as i128 + b as i128;
    if wide < i64::MIN as i128 {
        i64::MIN
    } else if wide > i64::MAX as i128 {
        i64::MAX
    } else {
        wide as i64
    }
}

/// The rounded number of whole pixels by which `to` lies beyond `from`.
pub fn rounded_pixels_between(from: i64, to: i64) -> (pixels: i64)
    ensures
        pixels == round_to_pixel(to - from),
{
    let units: i128 = to as i128 - from as i128;
    let half: i128 = (UNITS_PER_PIXEL / 2) as i128;
    if units >= 0 {
        ((units + half) / UNITS_PER_PIXEL as i128) as i64
    } else {
        let magnitude: i128 = (half - units) / UNITS_PER_PIXEL as i128;
        (-magnitude) as i64
    }
}

impl Rect {
    /// The rectangle's left edge in sub-pixel units, seen from a frame whose
    /// origin lies `origin` pixels before the rectangle's own.
    pub open spec fn left(self, origin: int) -> int {
        (origin + self.x) * UNITS_PER_PIXEL
    }

    /// The first sub-pixel column right of the rectangle.
    pub open spec fn right(self, origin: int) -> int {
        (origin + self.x + self.w) * UNITS_PER_PIXEL
    }

    /// The rectangle's top edge in sub-pixel units.
    pub open spec fn top(self, origin: int) -> int {
        (origin + self.y) * UNITS_PER_PIXEL
    }

    /// The first sub-pixel row below the rectangle.
    pub open spec fn bottom(self, origin: int) -> int {
        (origin + self.y + self.h) * UNITS_PER_PIXEL
    }

    /// Whether the rectangle, shifted by `(ox, oy)` pixels, holds the
    /// sub-pixel place `(px, py)`. The left and top edges belong to the
    /// rectangle, the right and bottom edges do not.
    pub open spec fn covers(self, ox: int, oy: int, px: int, py: int) -> bool {
        &&& self.left(ox) <= px < self.right(ox)
        &&& self.top(oy) <= py < self.bottom(oy)
    }

    /// Whether the rectangle holds `p`.
    pub open spec fn spec_contains(self, p: Position) -> bool {
        self.covers(0, 0, p.x as int, p.y as int)
    }

    /// `p` moved into the closed rectangle: both edges count as inside.
    pub open spec fn spec_clamp(self, p: Position) -> Position {
        Position {
            x: clamp_int(p.x as int, self.left(0), self.right(0)) as i64,
            y: clamp_int(p.y as int, self.top(0), self.bottom(0)) as i64,
        }
    }

    /// Whether `p` lies within the closed rectangle.
    pub open spec fn bounds(self, p: Position) -> bool {
        &&& self.left(0) <= p.x <= self.right(0)
        &&& self.top(0) <= p.y <= self.bottom(0)
    }

    /// Tests whether the rectangle, shifted by `origin`, holds `p`.
    pub fn contains_from(&self, origin: Location, p: Position) -> (inside: bool)
        requires
            -0x1_0000_0000 <= origin.x <= 0x1_0000_0000,
            -0x1_0000_0000 <= origin.y <= 0x1_0000_0000,
        ensures
            inside == self.covers(origin.x as int, origin.y as int, p.x as int, p.y as int),
    {
        let left: i64 = (origin.x + self.x as i64) * UNITS_PER_PIXEL;
        let right: i64 = (origin.x + self.x as i64 + self.w as i64) * UNITS_PER_PIXEL;
        let top: i64 = (origin.y + self.y as i64) * UNITS_PER_PIXEL;
        let bottom: i64 = (origin.y + self.y as i64 + self.h as i64) * UNITS_PER_PIXEL;
        left <= p.x && p.x < right && top <= p.y && p.y < bottom
    }

    /// Tests whether the rectangle holds `p`.
    pub fn contains(&self, p: Position) -> (inside: bool)
        ensures
            inside == self.spec_contains(p),
    {
        self.contains_from(Location { x: 0, y: 0 }, p)
    }

    /// Moves `p` to the nearest place of the closed rectangle.
    pub fn clamp(&self, p: Position) -> (clamped: Position)
        ensures
            clamped == self.spec_clamp(p),
            self.bounds(clamped),
    {
        let left: i64 = self.x as i64 * UNITS_PER_PIXEL;
        let right: i64 = (self.x as i64 + self.w as i64) * UNITS_PER_PIXEL;
        let top: i64 = self.y as i64 * UNITS_PER_PIXEL;
        let bottom: i64 = (self.y as i64 + self.h as i64) * UNITS_PER_PIXEL;
        let x: i64 = if p.x < left {
            left
        } else if p.x > right {
            right
        } else {
            p.x
        };
        let y: i64 = if p.y < top {
            top
        } else if p.y > bottom {
            bottom
        } else {
            p.y
        };
        Position { x, y }
    }

    /// The rectangle's top-left corner.
    pub fn origin(&self) -> (corner: Point)
        ensures
            corner == (Point { x: self.x, y: self.y }),
    {
        Point { x: self.x, y: self.y }
    }
}

/// A place that a rectangle holds stays where it is when it is clamped to
/// that rectangle, and every clamped place lies within the closed rectangle.
pub proof fn lemma_clamp_keeps_inner(r: Rect, p: Position)
    ensures
        r.bounds(r.spec_clamp(p)),
        r.spec_contains(p) ==> r.spec_clamp(p) == p,
        r.bounds(p) ==> r.spec_clamp(p) == p,
{
}

} // verus!

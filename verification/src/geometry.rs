//! Points and rectangles in whole-pixel coordinates, with the hit tests the
//! divider widget needs.

use vstd::prelude::*;

verus! {

/// A pointer position in whole pixels.
#[derive(Clone, Copy, Debug, PartialEq, Eq)]
pub struct Point {
    pub x: i32,
    pub y: i32,
}

/// An axis-aligned rectangle: origin plus extent, in whole pixels.
#[derive(Clone, Copy, Debug, PartialEq, Eq)]
pub struct Rect {
    pub x: i32,
    pub y: i32,
    pub width: i32,
    pub height: i32,
}

/// Membership in a rectangle: inclusive on the leading edges, exclusive on
/// the trailing ones.
pub open spec fn rect_contains(r: Rect, p: Point) -> bool {
    &&& r.x <= p.x < r.x + r.width
    &&& r.y <= p.y < r.y + r.height
}

impl Rect {
    /// Whether `p` lies inside this rectangle.
    pub fn contains(&self, p: Point) -> (b: bool)
        ensures
            b == rect_contains(*self, p),
    {
        let x = self.x as i64;
        let y = self.y as i64;
        let px = p.x as i64;
        let py = p.y as i64;
        x <= px && px < x + self.width as i64 && y <= py && py < y + self.height as i64
    }
}

} // verus!

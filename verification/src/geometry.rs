//! Integer geometry: points, element bounds and drawing regions.
//!
//! Coordinates are whole device units. Bounds keep a 32-bit origin and size;
//! everything derived from them is computed in 64 bits, where it cannot
//! overflow.

use vstd::prelude::*;

verus! {

/// A position in device units.
#[derive(Clone, Copy, Debug, PartialEq, Eq, Structural)]
pub struct Point {
    pub x: i32,
    pub y: i32,
}

/// An axis-aligned rectangle given by its origin and size; the authoritative
/// bounds of an element for hit-testing and placement.
#[derive(Clone, Copy, Debug, PartialEq, Eq, Structural)]
pub struct Rect {
    pub x: i32,
    pub y: i32,
    pub width: u32,
    pub height: u32,
}

/// A drawing region given by its four edges. A region whose right edge lies
/// left of its left edge, or whose bottom edge lies above its top edge, is empty.
#[derive(Clone, Copy, Debug, PartialEq, Eq, Structural)]
pub struct Region {
    pub left: i64,
    pub top: i64,
    pub right: i64,
    pub bottom: i64,
}

impl Rect {
    /// The rectangle with origin `(x, y)` and the given size.
    pub fn from_xywh(x: i32, y: i32, width: u32, height: u32) -> (r: Rect)
        ensures
            r == (Rect { x, y, width, height }),
    {
        Rect { x, y, width, height }
    }

    pub open spec fn spec_right(&self) -> int {
        self.x + self.width
    }

    pub open spec fn spec_bottom(&self) -> int {
        self.y + self.height
    }

    /// Point containment; all four edges belong to the rectangle.
    pub open spec fn spec_contains(&self, p: Point) -> bool {
        &&& self.x <= p.x <= self.spec_right()
        &&& self.y <= p.y <= self.spec_bottom()
    }

    /// Whether `p` lies inside the rectangle or on one of its edges.
    #[verifier::when_used_as_spec(spec_contains)]
    pub fn contains(&self, p: Point) -> (hit: bool)
        ensures
            hit == self.spec_contains(p),
    {
        let px: i64 = p.x as i64;
        let py: i64 = p.y as i64;
        let left: i64 = self.x as i64;
        let top: i64 = self.y as i64;
        left <= px && px <= left + self.width as i64 && top <= py && py <= top + self.height as i64
    }

    /// The four edges of the rectangle.
    pub open spec fn spec_region(&self) -> Region {
        Region {
            left: self.x as i64,
            top: self.y as i64,
            right: self.spec_right() as i64,
            bottom: self.spec_bottom() as i64,
        }
    }

    /// The rectangle as a drawing region.
    #[verifier::when_used_as_spec(spec_region)]
    pub fn region(&self) -> (r: Region)
        ensures
            r == self.spec_region(),
            r.left == self.x,
            r.top == self.y,
            r.right == self.x + self.width,
            r.bottom == self.y + self.height,
    {
        Region {
            left: self.x as i64,
            top: self.y as i64,
            right: self.x as i64 + self.width as i64,
            bottom: self.y as i64 + self.height as i64,
        }
    }

    /// The horizontal centre, rounded towards the left edge.
    pub open spec fn spec_center_x(&self) -> int {
        self.x + self.width / 2
    }

    /// The vertical centre, rounded towards the top edge.
    pub open spec fn spec_center_y(&self) -> int {
        self.y + self.height / 2
    }

    /// The horizontal centre, rounded towards the left edge.
    pub fn center_x(&self) -> (c: i64)
        ensures
            c == self.spec_center_x(),
    {
        self.x as i64 + (self.width / 2) as i64
    }

    /// The vertical centre, rounded towards the top edge.
    pub fn center_y(&self) -> (c: i64)
        ensures
            c == self.spec_center_y(),
    {
        self.y as i64 + (self.height / 2) as i64
    }
}

} // verus!

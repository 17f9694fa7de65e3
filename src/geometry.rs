use vstd::prelude::*;

verus! {

/// Integer steps per map unit.
pub const UNIT: i64 = 100;

/// A point of the map, in fixed-point steps.
#[derive(Clone, Copy, Debug, PartialEq, Eq, Structural)]
pub struct Point {
    pub x: i64,
    pub y: i64,
}

/// An axis-aligned box: corner `(x, y)`, width `w` and height `h`, in
/// fixed-point steps. The `y` axis points down the map.
#[derive(Clone, Copy, Debug, PartialEq, Eq, Structural)]
pub struct Rect {
    pub x: i64,
    pub y: i64,
    pub w: i64,
    pub h: i64,
}

pub open spec fn max(a: int, b: int) -> int {
    if a >= b { a } else { b }
}

pub open spec fn min(a: int, b: int) -> int {
    if a <= b { a } else { b }
}

/// The point at map coordinates `(x, y)`, in whole units.
pub open spec fn map_point(x: int, y: int) -> Point {
    Point { x: (x * UNIT) as i64, y: (y * UNIT) as i64 }
}

impl Point {
    pub fn new(x: i64, y: i64) -> (r: Point)
        ensures
            r == (Point { x, y }),
    {
        Point { x, y }
    }
}

impl Rect {
    pub fn new(x: i64, y: i64, w: i64, h: i64) -> (r: Rect)
        ensures
            r == (Rect { x, y, w, h }),
    {
        Rect { x, y, w, h }
    }

    pub open spec fn right(self) -> int {
        self.x + self.w
    }

    pub open spec fn bottom(self) -> int {
        self.y + self.h
    }

    /// Two boxes meet when their overlap is non-empty or they only touch:
    /// the largest left edge is not right of the smallest right edge, and
    /// likewise vertically. A box of negative width or height meets nothing.
    pub open spec fn meets(self, other: Rect) -> bool {
        &&& max(self.x as int, other.x as int) <= min(self.right(), other.right())
        &&& max(self.y as int, other.y as int) <= min(self.bottom(), other.bottom())
    }

    pub fn intersects(&self, other: &Rect) -> (r: bool)
        ensures
            r == self.meets(*other),
    {
        let left: i128 = if self.x >= other.x { self.x as i128 } else { other.x as i128 };
        let top: i128 = if self.y >= other.y { self.y as i128 } else { other.y as i128 };
        let r1: i128 = self.x as i128 + self.w as i128;
        let r2: i128 = other.x as i128 + other.w as i128;
        let b1: i128 = self.y as i128 + self.h as i128;
        let b2: i128 = other.y as i128 + other.h as i128;
        let right: i128 = if r1 <= r2 { r1 } else { r2 };
        let bottom: i128 = if b1 <= b2 { b1 } else { b2 };
        !(right < left || bottom < top)
    }
}

} // verus!

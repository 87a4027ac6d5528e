use vstd::prelude::*;

verus! {

/// A pixel offset inside a clip region: `x` grows rightward, `y` downward.
#[derive(Debug, PartialEq, Eq, Clone, Copy)]
pub struct Point {
    pub x: i32,
    pub y: i32,
}

impl Point {
    /// The zero offset, the default layout position of every entry.
    pub fn zero() -> (p: Point)
        ensures
            p == (Point { x: 0, y: 0 }),
    {
        Point { x: 0, y: 0 }
    }
}

/// An axis-aligned region of the drawing surface: origin in surface
/// coordinates, extent in pixels.
#[derive(Debug, PartialEq, Eq, Clone, Copy)]
pub struct Rect {
    pub x: i32,
    pub y: i32,
    pub width: u32,
    pub height: u32,
}

impl Rect {
    /// The region lies in the non-negative quadrant and its coordinate sums
    /// stay within `i32`, so clipping arithmetic cannot overflow.
    pub open spec fn wf(self) -> bool {
        &&& 0 <= self.x
        &&& 0 <= self.y
        &&& self.x + self.width <= i32::MAX
        &&& self.y + self.height <= i32::MAX
    }

    /// The other region lies entirely inside this one.
    pub open spec fn contains(self, other: Rect) -> bool {
        &&& self.x <= other.x
        &&& self.y <= other.y
        &&& other.x + other.width <= self.x + self.width
        &&& other.y + other.height <= self.y + self.height
    }
}

} // verus!

//! Pixel geometry: points, sizes, rectangles and corner radii.

use vstd::prelude::*;

verus! {

/// The value of `n` reduced to the range of `i32`, as two's complement
/// arithmetic on 32 bits would leave it.
pub open spec fn wrap_i32(n: int) -> int {
    (n + 0x8000_0000) % 0x1_0000_0000 - 0x8000_0000
}

/// The value of `n` reduced to the range of `u32`.
pub open spec fn wrap_u32(n: int) -> int {
    n % 0x1_0000_0000
}

/// A position on the pixel grid; `y` grows downwards.
#[derive(Clone, Copy, Debug, PartialEq, Eq, Structural)]
pub struct Point {
    pub x: i32,
    pub y: i32,
}

/// A width and a height in pixels.
#[derive(Clone, Copy, Debug, PartialEq, Eq, Structural)]
pub struct Size {
    pub width: u32,
    pub height: u32,
}

/// An axis-aligned rectangle, `size` pixels large, whose top left pixel is
/// `top_left`.
#[derive(Clone, Copy, Debug, PartialEq, Eq, Structural)]
pub struct Rectangle {
    pub top_left: Point,
    pub size: Size,
}

/// The radii of the four corners of a rounded rectangle.
#[derive(Clone, Copy, Debug, PartialEq, Eq, Structural)]
pub struct CornerRadii {
    pub top_left: Size,
    pub top_right: Size,
    pub bottom_right: Size,
    pub bottom_left: Size,
}

impl Point {
    pub fn new(x: i32, y: i32) -> (p: Point)
        ensures
            p == (Point { x, y }),
    {
        Point { x, y }
    }

    /// This point moved by `dx` and `dy`, where both coordinates stay in the
    /// range of `i32`.
    pub open spec fn moved(self, dx: int, dy: int) -> Option<Point> {
        if i32::MIN <= self.x + dx <= i32::MAX && i32::MIN <= self.y + dy <= i32::MAX {
            Some(Point { x: (self.x + dx) as i32, y: (self.y + dy) as i32 })
        } else {
            None
        }
    }

    /// Moves the point by `dx` to the right and `dy` down; `None` where a
    /// coordinate would leave the range of `i32`.
    pub fn offset(self, dx: i32, dy: i32) -> (p: Option<Point>)
        ensures
            p == self.moved(dx as int, dy as int),
    {
        match (self.x.checked_add(dx), self.y.checked_add(dy)) {
            (Some(x), Some(y)) => Some(Point { x, y }),
            _ => None,
        }
    }
}

impl Size {
    pub fn new(width: u32, height: u32) -> (s: Size)
        ensures
            s == (Size { width, height }),
    {
        Size { width, height }
    }

    /// A size with no extent.
    pub fn zero() -> (s: Size)
        ensures
            s == (Size { width: 0, height: 0 }),
    {
        Size { width: 0, height: 0 }
    }
}

impl Rectangle {
    pub fn new(top_left: Point, size: Size) -> (r: Rectangle)
        ensures
            r == (Rectangle { top_left, size }),
    {
        Rectangle { top_left, size }
    }

    /// Whether the rectangle covers no pixel.
    pub open spec fn is_empty(self) -> bool {
        self.size.width == 0 || self.size.height == 0
    }

    /// The bottom right pixel of a rectangle that covers at least one pixel,
    /// where it lies in the range of `i32`.
    pub open spec fn corner(self) -> Option<Point> {
        if self.is_empty() {
            None
        } else {
            self.top_left.moved(self.size.width - 1, self.size.height - 1)
        }
    }

    /// The bottom right pixel of the rectangle. `None` where the rectangle is
    /// empty, and where that pixel lies outside the range of `i32`.
    pub fn bottom_right(&self) -> (p: Option<Point>)
        ensures
            p == self.corner(),
    {
        if self.size.width == 0 || self.size.height == 0 {
            return None;
        }
        let x: i64 = self.top_left.x as i64 + (self.size.width as i64 - 1);
        let y: i64 = self.top_left.y as i64 + (self.size.height as i64 - 1);
        if x <= i32::MAX as i64 && y <= i32::MAX as i64 {
            Some(Point { x: x as i32, y: y as i32 })
        } else {
            None
        }
    }
}

impl CornerRadii {
    /// Radii that round the two bottom corners by `radius` and leave the two
    /// top corners square.
    pub open spec fn bottom_only(radius: Size) -> CornerRadii {
        CornerRadii {
            top_left: Size { width: 0, height: 0 },
            top_right: Size { width: 0, height: 0 },
            bottom_right: radius,
            bottom_left: radius,
        }
    }

    /// Rounds the two bottom corners by `radius`; the two top corners stay
    /// square.
    pub fn bottom(radius: Size) -> (r: CornerRadii)
        ensures
            r == CornerRadii::bottom_only(radius),
    {
        CornerRadii {
            top_left: Size::zero(),
            top_right: Size::zero(),
            bottom_right: radius,
            bottom_left: radius,
        }
    }
}

} // verus!

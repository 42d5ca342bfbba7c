//! Fixed-point 2D points and colors.
//!
//! A coordinate is an `i64` counting micro-units: [`COORD_ONE`] micro-units
//! make one drawing unit, so the normalized device range `-1.0 ..= 1.0`
//! becomes `-COORD_ONE ..= COORD_ONE`.

use vstd::prelude::*;

verus! {

/// Micro-units in one drawing unit.
pub const COORD_ONE: i64 = 1_000_000;

/// Largest coordinate magnitude the drawing operations accept. Keeping
/// inputs within this bound keeps every intermediate product of the line
/// geometry inside `i64`.
pub const COORD_MAX: i64 = 0x1000_0000;

/// A 2D point in micro-units.
#[derive(Clone, Copy, Debug, PartialEq, Eq, Structural)]
pub struct Point2 {
    pub x: i64,
    pub y: i64,
}

impl Point2 {
    /// Both coordinates are within [`COORD_MAX`] in magnitude.
    pub open spec fn in_range(self) -> bool {
        -COORD_MAX <= self.x <= COORD_MAX && -COORD_MAX <= self.y <= COORD_MAX
    }

    pub fn new(x: i64, y: i64) -> (p: Point2)
        ensures
            p == (Point2 { x, y }),
    {
        Point2 { x, y }
    }

    /// The point moved by `rhs` along the x axis.
    pub fn add_to_x(self, rhs: i64) -> (p: Point2)
        requires
            i64::MIN <= self.x + rhs <= i64::MAX,
        ensures
            p.x == self.x + rhs,
            p.y == self.y,
    {
        Point2 { x: self.x + rhs, y: self.y }
    }

    /// The point moved by `rhs` along the y axis.
    pub fn add_to_y(self, rhs: i64) -> (p: Point2)
        requires
            i64::MIN <= self.y + rhs <= i64::MAX,
        ensures
            p.x == self.x,
            p.y == self.y + rhs,
    {
        Point2 { x: self.x, y: self.y + rhs }
    }

    /// The point moved by `rhs` along both axes.
    pub fn add_scalar(self, rhs: i64) -> (p: Point2)
        requires
            i64::MIN <= self.x + rhs <= i64::MAX,
            i64::MIN <= self.y + rhs <= i64::MAX,
        ensures
            p.x == self.x + rhs,
            p.y == self.y + rhs,
    {
        Point2 { x: self.x + rhs, y: self.y + rhs }
    }

    /// The point moved by `-rhs` along both axes.
    pub fn sub_scalar(self, rhs: i64) -> (p: Point2)
        requires
            i64::MIN <= self.x - rhs <= i64::MAX,
            i64::MIN <= self.y - rhs <= i64::MAX,
        ensures
            p.x == self.x - rhs,
            p.y == self.y - rhs,
    {
        Point2 { x: self.x - rhs, y: self.y - rhs }
    }
}

/// An sRGB color with alpha; each channel is in micro-units, so a fully
/// saturated channel is [`COORD_ONE`].
#[derive(Clone, Copy, Debug, PartialEq, Eq, Structural)]
pub struct Color(pub i64, pub i64, pub i64, pub i64);

impl Color {
    pub fn from_srgba(r: i64, g: i64, b: i64, a: i64) -> (c: Color)
        ensures
            c == Color(r, g, b, a),
    {
        Color(r, g, b, a)
    }
}

/// A colored point, the shape a vertex takes once colors join coordinates
/// in the vertex buffer.
#[derive(Clone, Copy, Debug, PartialEq, Eq, Structural)]
pub struct Vertex {
    pub coords: Point2,
    pub color: Color,
}

} // verus!

//! A 2-dimensional vector over the toolkit's scalar type.
//!
//! The toolkit works on a fixed-precision integer scalar (`i64`): every
//! operation states its exact result, and every sum or product carries the
//! precondition that keeps it inside the machine range.

use vstd::prelude::*;

verus! {

/// A 2-D vector `<x, y>`.
#[derive(Debug, Clone, Copy, PartialEq, Eq, Hash, Structural)]
pub struct Vector2 {
    pub x: i64,
    pub y: i64,
}

impl Vector2 {
    /// Creates a new 2-dimensional vector.
    #[inline]
    pub fn new(x: i64, y: i64) -> (r: Self)
        ensures
            r.x == x && r.y == y,
    {
        Self { x, y }
    }

    /// The x component of `<x, y>`.
    pub fn x(&self) -> (r: i64)
        ensures
            r == self.x,
    {
        self.x
    }

    /// The y component of `<x, y>`.
    pub fn y(&self) -> (r: i64)
        ensures
            r == self.y,
    {
        self.y
    }

    /// The vector pointing to the right of the graph: `<1, 0>`.
    pub fn right() -> (r: Self)
        ensures
            r.x == 1 && r.y == 0,
    {
        Self { x: 1, y: 0 }
    }

    /// The vector pointing to the left of the graph: `<-1, 0>`.
    pub fn left() -> (r: Self)
        ensures
            r.x == -1 && r.y == 0,
    {
        Self { x: -1, y: 0 }
    }

    /// The vector pointing to the top of the graph: `<0, 1>`.
    pub fn top() -> (r: Self)
        ensures
            r.x == 0 && r.y == 1,
    {
        Self { x: 0, y: 1 }
    }

    /// The vector pointing to the bottom of the graph: `<0, -1>`.
    pub fn bottom() -> (r: Self)
        ensures
            r.x == 0 && r.y == -1,
    {
        Self { x: 0, y: -1 }
    }

    /// The current vector rotated a quarter turn counter-clockwise.
    pub fn perpendicular(self) -> (r: Self)
        requires
            self.y > i64::MIN,
        ensures
            r.x == -self.y && r.y == self.x,
    {
        Self { x: -self.y, y: self.x }
    }

    /// The dimension of the vector type.
    #[inline]
    pub fn len(&self) -> (r: usize)
        ensures
            r == 2,
    {
        2
    }

    /// Component-wise sum.
    pub fn add(self, rhs: Self) -> (r: Self)
        requires
            i64::MIN <= self.x + rhs.x <= i64::MAX,
            i64::MIN <= self.y + rhs.y <= i64::MAX,
        ensures
            r.x == self.x + rhs.x && r.y == self.y + rhs.y,
    {
        Self { x: self.x + rhs.x, y: self.y + rhs.y }
    }

    /// Component-wise difference.
    pub fn sub(self, rhs: Self) -> (r: Self)
        requires
            i64::MIN <= self.x - rhs.x <= i64::MAX,
            i64::MIN <= self.y - rhs.y <= i64::MAX,
        ensures
            r.x == self.x - rhs.x && r.y == self.y - rhs.y,
    {
        Self { x: self.x - rhs.x, y: self.y - rhs.y }
    }

    /// Component-wise product.
    pub fn mul(self, rhs: Self) -> (r: Self)
        requires
            i64::MIN <= self.x * rhs.x <= i64::MAX,
            i64::MIN <= self.y * rhs.y <= i64::MAX,
        ensures
            r.x == self.x * rhs.x && r.y == self.y * rhs.y,
    {
        Self { x: self.x * rhs.x, y: self.y * rhs.y }
    }

    /// Scales both components by one scalar.
    pub fn scalar_multiplication(&self, rhs: i64) -> (r: Self)
        requires
            i64::MIN <= self.x * rhs <= i64::MAX,
            i64::MIN <= self.y * rhs <= i64::MAX,
        ensures
            r.x == self.x * rhs && r.y == self.y * rhs,
    {
        Self { x: self.x * rhs, y: self.y * rhs }
    }

    /// The inner (dot) product, a measure of how aligned two vectors are.
    pub fn inner_product(&self, other: Self) -> (r: i64)
        requires
            i64::MIN <= self.x * other.x <= i64::MAX,
            i64::MIN <= self.y * other.y <= i64::MAX,
            i64::MIN <= self.x * other.x + self.y * other.y <= i64::MAX,
        ensures
            r == self.x * other.x + self.y * other.y,
    {
        self.x * other.x + self.y * other.y
    }

    /// The wedge product: the signed area of the parallelogram the two
    /// vectors span.
    pub fn wedge_product(&self, rhs: Self) -> (r: i64)
        requires
            i64::MIN <= self.x * rhs.y <= i64::MAX,
            i64::MIN <= self.y * rhs.x <= i64::MAX,
            i64::MIN <= self.x * rhs.y - self.y * rhs.x <= i64::MAX,
        ensures
            r == self.x * rhs.y - self.y * rhs.x,
    {
        self.x * rhs.y - self.y * rhs.x
    }

    /// Component-wise minimum.
    pub fn min(self, other: Self) -> (r: Self)
        ensures
            r.x == if self.x <= other.x { self.x } else { other.x },
            r.y == if self.y <= other.y { self.y } else { other.y },
    {
        Self {
            x: if self.x <= other.x { self.x } else { other.x },
            y: if self.y <= other.y { self.y } else { other.y },
        }
    }

    /// Component-wise maximum.
    pub fn max(self, other: Self) -> (r: Self)
        ensures
            r.x == if self.x >= other.x { self.x } else { other.x },
            r.y == if self.y >= other.y { self.y } else { other.y },
    {
        Self {
            x: if self.x >= other.x { self.x } else { other.x },
            y: if self.y >= other.y { self.y } else { other.y },
        }
    }
}

} // verus!

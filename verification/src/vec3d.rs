//! A 3-dimensional vector over the toolkit's integer scalar.

use vstd::prelude::*;

verus! {

/// A 3-D vector `<x, y, z>`.
#[derive(Debug, Clone, Copy, PartialEq, Eq, Hash, Structural)]
pub struct Vector3 {
    pub x: i64,
    pub y: i64,
    pub z: i64,
}

impl Vector3 {
    /// Creates a new 3-dimensional vector.
    #[inline]
    pub fn new(x: i64, y: i64, z: i64) -> (r: Self)
        ensures
            r.x == x && r.y == y && r.z == z,
    {
        Self { x, y, z }
    }

    /// The x component.
    pub fn x(&self) -> (r: i64)
        ensures
            r == self.x,
    {
        self.x
    }

    /// The y component.
    pub fn y(&self) -> (r: i64)
        ensures
            r == self.y,
    {
        self.y
    }

    /// The z component.
    pub fn z(&self) -> (r: i64)
        ensures
            r == self.z,
    {
        self.z
    }

    /// The vector pointing to the right: `<1, 0, 0>`.
    pub fn right() -> (r: Self)
        ensures
            r.x == 1 && r.y == 0 && r.z == 0,
    {
        Self { x: 1, y: 0, z: 0 }
    }

    /// The vector pointing to the left: `<-1, 0, 0>`.
    pub fn left() -> (r: Self)
        ensures
            r.x == -1 && r.y == 0 && r.z == 0,
    {
        Self { x: -1, y: 0, z: 0 }
    }

    /// The vector pointing up: `<0, 1, 0>`.
    pub fn top() -> (r: Self)
        ensures
            r.x == 0 && r.y == 1 && r.z == 0,
    {
        Self { x: 0, y: 1, z: 0 }
    }

    /// The vector pointing down: `<0, -1, 0>`.
    pub fn bottom() -> (r: Self)
        ensures
            r.x == 0 && r.y == -1 && r.z == 0,
    {
        Self { x: 0, y: -1, z: 0 }
    }

    /// The vector pointing forward: `<0, 0, 1>`.
    pub fn forward() -> (r: Self)
        ensures
            r.x == 0 && r.y == 0 && r.z == 1,
    {
        Self { x: 0, y: 0, z: 1 }
    }

    /// The vector pointing backward: `<0, 0, -1>`.
    pub fn backward() -> (r: Self)
        ensures
            r.x == 0 && r.y == 0 && r.z == -1,
    {
        Self { x: 0, y: 0, z: -1 }
    }

    /// The dimension of the vector type.
    #[inline]
    pub fn len(&self) -> (r: usize)
        ensures
            r == 3,
    {
        3
    }

    /// Component-wise sum.
    pub fn add(self, rhs: Self) -> (r: Self)
        requires
            i64::MIN <= self.x + rhs.x <= i64::MAX,
            i64::MIN <= self.y + rhs.y <= i64::MAX,
            i64::MIN <= self.z + rhs.z <= i64::MAX,
        ensures
            r.x == self.x + rhs.x && r.y == self.y + rhs.y && r.z == self.z + rhs.z,
    {
        Self { x: self.x + rhs.x, y: self.y + rhs.y, z: self.z + rhs.z }
    }

    /// Component-wise difference.
    pub fn sub(self, rhs: Self) -> (r: Self)
        requires
            i64::MIN <= self.x - rhs.x <= i64::MAX,
            i64::MIN <= self.y - rhs.y <= i64::MAX,
            i64::MIN <= self.z - rhs.z <= i64::MAX,
        ensures
            r.x == self.x - rhs.x && r.y == self.y - rhs.y && r.z == self.z - rhs.z,
    {
        Self { x: self.x - rhs.x, y: self.y - rhs.y, z: self.z - rhs.z }
    }

    /// Scales every component by one scalar.
    pub fn scalar_multiplication(&self, rhs: i64) -> (r: Self)
        requires
            i64::MIN <= self.x * rhs <= i64::MAX,
            i64::MIN <= self.y * rhs <= i64::MAX,
            i64::MIN <= self.z * rhs <= i64::MAX,
        ensures
            r.x == self.x * rhs && r.y == self.y * rhs && r.z == self.z * rhs,
    {
        Self { x: self.x * rhs, y: self.y * rhs, z: self.z * rhs }
    }

    /// The inner (dot) product.
    pub fn inner_product(&self, other: Self) -> (r: i64)
        requires
            i64::MIN <= self.x * other.x <= i64::MAX,
            i64::MIN <= self.y * other.y <= i64::MAX,
            i64::MIN <= self.z * other.z <= i64::MAX,
            i64::MIN <= self.x * other.x + self.y * other.y <= i64::MAX,
            i64::MIN <= self.x * other.x + self.y * other.y + self.z * other.z <= i64::MAX,
        ensures
            r == self.x * other.x + self.y * other.y + self.z * other.z,
    {
        self.x * other.x + self.y * other.y + self.z * other.z
    }

    /// The wedge (cross) product: the vector normal to the parallelogram
    /// the two vectors span, with its area as length.
    pub fn wedge_product(&self, rhs: Self) -> (r: Self)
        requires
            i64::MIN <= self.y * rhs.z - self.z * rhs.y <= i64::MAX,
            i64::MIN <= self.z * rhs.x - self.x * rhs.z <= i64::MAX,
            i64::MIN <= self.x * rhs.y - self.y * rhs.x <= i64::MAX,
            i64::MIN <= self.y * rhs.z <= i64::MAX,
            i64::MIN <= self.z * rhs.y <= i64::MAX,
            i64::MIN <= self.z * rhs.x <= i64::MAX,
            i64::MIN <= self.x * rhs.z <= i64::MAX,
            i64::MIN <= self.x * rhs.y <= i64::MAX,
            i64::MIN <= self.y * rhs.x <= i64::MAX,
        ensures
            r.x == self.y * rhs.z - self.z * rhs.y,
            r.y == self.z * rhs.x - self.x * rhs.z,
            r.z == self.x * rhs.y - self.y * rhs.x,
    {
        Self {
            x: self.y * rhs.z - self.z * rhs.y,
            y: self.z * rhs.x - self.x * rhs.z,
            z: self.x * rhs.y - self.y * rhs.x,
        }
    }

    /// Component-wise minimum.
    pub fn min(self, other: Self) -> (r: Self)
        ensures
            r.x == if self.x <= other.x { self.x } else { other.x },
            r.y == if self.y <= other.y { self.y } else { other.y },
            r.z == if self.z <= other.z { self.z } else { other.z },
    {
        Self {
            x: if self.x <= other.x { self.x } else { other.x },
            y: if self.y <= other.y { self.y } else { other.y },
            z: if self.z <= other.z { self.z } else { other.z },
        }
    }

    /// Component-wise maximum.
    pub fn max(self, other: Self) -> (r: Self)
        ensures
            r.x == if self.x >= other.x { self.x } else { other.x },
            r.y == if self.y >= other.y { self.y } else { other.y },
            r.z == if self.z >= other.z { self.z } else { other.z },
    {
        Self {
            x: if self.x >= other.x { self.x } else { other.x },
            y: if self.y >= other.y { self.y } else { other.y },
            z: if self.z >= other.z { self.z } else { other.z },
        }
    }
}

} // verus!

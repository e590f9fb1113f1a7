//! A 4-dimensional vector over the toolkit's integer scalar.

use vstd::prelude::*;

verus! {

/// A 4-D vector `<x, y, z, w>`.
#[derive(Debug, Clone, Copy, PartialEq, Eq, Hash, Structural)]
pub struct Vector4 {
    pub x: i64,
    pub y: i64,
    pub z: i64,
    pub w: i64,
}

impl Vector4 {
    /// Creates a new 4-dimensional vector.
    #[inline]
    pub fn new(x: i64, y: i64, z: i64, w: i64) -> (r: Self)
        ensures
            r.x == x && r.y == y && r.z == z && r.w == w,
    {
        Self { x, y, z, w }
    }

    /// The x component.
    pub fn x(&self) -> (r: i64)
        ensures
            r == self.x,
    {
        self.x
    }

    /// The y component.
    pub fn y(&self) -> (r: i64)
        ensures
            r == self.y,
    {
        self.y
    }

    /// The z component.
    pub fn z(&self) -> (r: i64)
        ensures
            r == self.z,
    {
        self.z
    }

    /// The w component.
    pub fn w(&self) -> (r: i64)
        ensures
            r == self.w,
    {
        self.w
    }

    /// The vector pointing to the right: `<1, 0, 0, 0>`.
    pub fn right() -> (r: Self)
        ensures
            r.x == 1 && r.y == 0 && r.z == 0 && r.w == 0,
    {
        Self { x: 1, y: 0, z: 0, w: 0 }
    }

    /// The vector pointing to the left: `<-1, 0, 0, 0>`.
    pub fn left() -> (r: Self)
        ensures
            r.x == -1 && r.y == 0 && r.z == 0 && r.w == 0,
    {
        Self { x: -1, y: 0, z: 0, w: 0 }
    }

    /// The vector pointing up: `<0, 1, 0, 0>`.
    pub fn top() -> (r: Self)
        ensures
            r.x == 0 && r.y == 1 && r.z == 0 && r.w == 0,
    {
        Self { x: 0, y: 1, z: 0, w: 0 }
    }

    /// The vector pointing down: `<0, -1, 0, 0>`.
    pub fn bottom() -> (r: Self)
        ensures
            r.x == 0 && r.y == -1 && r.z == 0 && r.w == 0,
    {
        Self { x: 0, y: -1, z: 0, w: 0 }
    }

    /// The vector pointing forward: `<0, 0, 1, 0>`.
    pub fn forward() -> (r: Self)
        ensures
            r.x == 0 && r.y == 0 && r.z == 1 && r.w == 0,
    {
        Self { x: 0, y: 0, z: 1, w: 0 }
    }

    /// The vector pointing backward: `<0, 0, -1, 0>`.
    pub fn backward() -> (r: Self)
        ensures
            r.x == 0 && r.y == 0 && r.z == -1 && r.w == 0,
    {
        Self { x: 0, y: 0, z: -1, w: 0 }
    }

    /// The dimension of the vector type.
    #[inline]
    pub fn len(&self) -> (r: usize)
        ensures
            r == 4,
    {
        4
    }

    /// Component-wise sum.
    pub fn add(self, rhs: Self) -> (r: Self)
        requires
            i64::MIN <= self.x + rhs.x <= i64::MAX,
            i64::MIN <= self.y + rhs.y <= i64::MAX,
            i64::MIN <= self.z + rhs.z <= i64::MAX,
            i64::MIN <= self.w + rhs.w <= i64::MAX,
        ensures
            r.x == self.x + rhs.x && r.y == self.y + rhs.y,
            r.z == self.z + rhs.z && r.w == self.w + rhs.w,
    {
        Self { x: self.x + rhs.x, y: self.y + rhs.y, z: self.z + rhs.z, w: self.w + rhs.w }
    }

    /// Component-wise difference.
    pub fn sub(self, rhs: Self) -> (r: Self)
        requires
            i64::MIN <= self.x - rhs.x <= i64::MAX,
            i64::MIN <= self.y - rhs.y <= i64::MAX,
            i64::MIN <= self.z - rhs.z <= i64::MAX,
            i64::MIN <= self.w - rhs.w <= i64::MAX,
        ensures
            r.x == self.x - rhs.x && r.y == self.y - rhs.y,
            r.z == self.z - rhs.z && r.w == self.w - rhs.w,
    {
        Self { x: self.x - rhs.x, y: self.y - rhs.y, z: self.z - rhs.z, w: self.w - rhs.w }
    }

    /// Scales every component by one scalar.
    pub fn scalar_multiplication(&self, rhs: i64) -> (r: Self)
        requires
            i64::MIN <= self.x * rhs <= i64::MAX,
            i64::MIN <= self.y * rhs <= i64::MAX,
            i64::MIN <= self.z * rhs <= i64::MAX,
            i64::MIN <= self.w * rhs <= i64::MAX,
        ensures
            r.x == self.x * rhs && r.y == self.y * rhs,
            r.z == self.z * rhs && r.w == self.w * rhs,
    {
        Self { x: self.x * rhs, y: self.y * rhs, z: self.z * rhs, w: self.w * rhs }
    }

    /// The inner (dot) product.
    pub fn inner_product(&self, other: Self) -> (r: i64)
        requires
            i64::MIN <= self.x * other.x <= i64::MAX,
            i64::MIN <= self.y * other.y <= i64::MAX,
            i64::MIN <= self.z * other.z <= i64::MAX,
            i64::MIN <= self.w * other.w <= i64::MAX,
            i64::MIN <= self.x * other.x + self.y * other.y <= i64::MAX,
            i64::MIN <= self.x * other.x + self.y * other.y + self.z * other.z <= i64::MAX,
            i64::MIN <= self.x * other.x + self.y * other.y + self.z * other.z + self.w * other.w
                <= i64::MAX,
        ensures
            r == self.x * other.x + self.y * other.y + self.z * other.z + self.w * other.w,
    {
        self.x * other.x + self.y * other.y + self.z * other.z + self.w * other.w
    }
}

} // verus!

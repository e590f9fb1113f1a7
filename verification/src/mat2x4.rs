//! A matrix with 2 columns and 4 rows, stored as 2 column
//! vectors over the toolkit's integer scalar.

use vstd::prelude::*;
use crate::vec2d::Vector2;
use crate::vec4d::Vector4;

verus! {

/// A matrix with 2 columns and 4 rows.
#[derive(Debug, Clone, Copy, PartialEq, Eq, Structural)]
pub struct Matrix2x4 {
    /// Column 1 of the matrix.
    pub x: Vector4,
    /// Column 2 of the matrix.
    pub y: Vector4,
}

impl Matrix2x4 {
    /// Builds the matrix from its columns.
    pub fn new(x: Vector4, y: Vector4) -> (m: Self)
        ensures
            m.x == x && m.y == y,
    {
        Self { x, y }
    }

    /// Entry-wise sum.
    pub fn add(self, rhs: Self) -> (m: Self)
        requires
            i64::MIN <= self.x.x + rhs.x.x <= i64::MAX,
            i64::MIN <= self.x.y + rhs.x.y <= i64::MAX,
            i64::MIN <= self.x.z + rhs.x.z <= i64::MAX,
            i64::MIN <= self.x.w + rhs.x.w <= i64::MAX,
            i64::MIN <= self.y.x + rhs.y.x <= i64::MAX,
            i64::MIN <= self.y.y + rhs.y.y <= i64::MAX,
            i64::MIN <= self.y.z + rhs.y.z <= i64::MAX,
            i64::MIN <= self.y.w + rhs.y.w <= i64::MAX,
        ensures
            m.x.x == self.x.x + rhs.x.x,
            m.x.y == self.x.y + rhs.x.y,
            m.x.z == self.x.z + rhs.x.z,
            m.x.w == self.x.w + rhs.x.w,
            m.y.x == self.y.x + rhs.y.x,
            m.y.y == self.y.y + rhs.y.y,
            m.y.z == self.y.z + rhs.y.z,
            m.y.w == self.y.w + rhs.y.w,
    {
        Self::new(
            Vector4::new(self.x.x + rhs.x.x, self.x.y + rhs.x.y, self.x.z + rhs.x.z, self.x.w + rhs.x.w),
            Vector4::new(self.y.x + rhs.y.x, self.y.y + rhs.y.y, self.y.z + rhs.y.z, self.y.w + rhs.y.w),
        )
    }

    /// Entry-wise difference.
    pub fn sub(self, rhs: Self) -> (m: Self)
        requires
            i64::MIN <= self.x.x - rhs.x.x <= i64::MAX,
            i64::MIN <= self.x.y - rhs.x.y <= i64::MAX,
            i64::MIN <= self.x.z - rhs.x.z <= i64::MAX,
            i64::MIN <= self.x.w - rhs.x.w <= i64::MAX,
            i64::MIN <= self.y.x - rhs.y.x <= i64::MAX,
            i64::MIN <= self.y.y - rhs.y.y <= i64::MAX,
            i64::MIN <= self.y.z - rhs.y.z <= i64::MAX,
            i64::MIN <= self.y.w - rhs.y.w <= i64::MAX,
        ensures
            m.x.x == self.x.x - rhs.x.x,
            m.x.y == self.x.y - rhs.x.y,
            m.x.z == self.x.z - rhs.x.z,
            m.x.w == self.x.w - rhs.x.w,
            m.y.x == self.y.x - rhs.y.x,
            m.y.y == self.y.y - rhs.y.y,
            m.y.z == self.y.z - rhs.y.z,
            m.y.w == self.y.w - rhs.y.w,
    {
        Self::new(
            Vector4::new(self.x.x - rhs.x.x, self.x.y - rhs.x.y, self.x.z - rhs.x.z, self.x.w - rhs.x.w),
            Vector4::new(self.y.x - rhs.y.x, self.y.y - rhs.y.y, self.y.z - rhs.y.z, self.y.w - rhs.y.w),
        )
    }
}

} // verus!

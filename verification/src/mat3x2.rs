//! A matrix with 3 columns and 2 rows, stored as 3 column
//! vectors over the toolkit's integer scalar.

use vstd::prelude::*;
use crate::vec2d::Vector2;
use crate::vec3d::Vector3;
use crate::mat2x3::Matrix2x3;

verus! {

/// A matrix with 3 columns and 2 rows.
#[derive(Debug, Clone, Copy, PartialEq, Eq, Structural)]
pub struct Matrix3x2 {
    /// Column 1 of the matrix.
    pub x: Vector2,
    /// Column 2 of the matrix.
    pub y: Vector2,
    /// Column 3 of the matrix.
    pub z: Vector2,
}

impl Matrix3x2 {
    /// Builds the matrix from its columns.
    pub fn new(x: Vector2, y: Vector2, z: Vector2) -> (m: Self)
        ensures
            m.x == x && m.y == y && m.z == z,
    {
        Self { x, y, z }
    }

    /// Writes row `x` across all columns; every other entry
    /// keeps its value.
    #[inline]
    pub fn set_x_row(&mut self, row: Vector3)
        ensures
            final(self).x.x == row.x,
            final(self).y.x == row.y,
            final(self).z.x == row.z,
            final(self).x.y == old(self).x.y,
            final(self).y.y == old(self).y.y,
            final(self).z.y == old(self).z.y,
    {
        self.x.x = row.x;
        self.y.x = row.y;
        self.z.x = row.z;
    }

    /// Writes row `y` across all columns; every other entry
    /// keeps its value.
    #[inline]
    pub fn set_y_row(&mut self, row: Vector3)
        ensures
            final(self).x.y == row.x,
            final(self).y.y == row.y,
            final(self).z.y == row.z,
            final(self).x.x == old(self).x.x,
            final(self).y.x == old(self).y.x,
            final(self).z.x == old(self).z.x,
    {
        self.x.y = row.x;
        self.y.y = row.y;
        self.z.y = row.z;
    }

    /// The transpose: rows become columns.
    pub fn transpose(&self) -> (m: Matrix2x3)
        ensures
            m.x.x == self.x.x,
            m.y.x == self.x.y,
            m.x.y == self.y.x,
            m.y.y == self.y.y,
            m.x.z == self.z.x,
            m.y.z == self.z.y,
    {
        Matrix2x3::new(
            Vector3::new(self.x.x, self.y.x, self.z.x),
            Vector3::new(self.x.y, self.y.y, self.z.y),
        )
    }

    /// Entry-wise sum.
    pub fn add(self, rhs: Self) -> (m: Self)
        requires
            i64::MIN <= self.x.x + rhs.x.x <= i64::MAX,
            i64::MIN <= self.x.y + rhs.x.y <= i64::MAX,
            i64::MIN <= self.y.x + rhs.y.x <= i64::MAX,
            i64::MIN <= self.y.y + rhs.y.y <= i64::MAX,
            i64::MIN <= self.z.x + rhs.z.x <= i64::MAX,
            i64::MIN <= self.z.y + rhs.z.y <= i64::MAX,
        ensures
            m.x.x == self.x.x + rhs.x.x,
            m.x.y == self.x.y + rhs.x.y,
            m.y.x == self.y.x + rhs.y.x,
            m.y.y == self.y.y + rhs.y.y,
            m.z.x == self.z.x + rhs.z.x,
            m.z.y == self.z.y + rhs.z.y,
    {
        Self::new(
            Vector2::new(self.x.x + rhs.x.x, self.x.y + rhs.x.y),
            Vector2::new(self.y.x + rhs.y.x, self.y.y + rhs.y.y),
            Vector2::new(self.z.x + rhs.z.x, self.z.y + rhs.z.y),
        )
    }

    /// Entry-wise difference.
    pub fn sub(self, rhs: Self) -> (m: Self)
        requires
            i64::MIN <= self.x.x - rhs.x.x <= i64::MAX,
            i64::MIN <= self.x.y - rhs.x.y <= i64::MAX,
            i64::MIN <= self.y.x - rhs.y.x <= i64::MAX,
            i64::MIN <= self.y.y - rhs.y.y <= i64::MAX,
            i64::MIN <= self.z.x - rhs.z.x <= i64::MAX,
            i64::MIN <= self.z.y - rhs.z.y <= i64::MAX,
        ensures
            m.x.x == self.x.x - rhs.x.x,
            m.x.y == self.x.y - rhs.x.y,
            m.y.x == self.y.x - rhs.y.x,
            m.y.y == self.y.y - rhs.y.y,
            m.z.x == self.z.x - rhs.z.x,
            m.z.y == self.z.y - rhs.z.y,
    {
        Self::new(
            Vector2::new(self.x.x - rhs.x.x, self.x.y - rhs.x.y),
            Vector2::new(self.y.x - rhs.y.x, self.y.y - rhs.y.y),
            Vector2::new(self.z.x - rhs.z.x, self.z.y - rhs.z.y),
        )
    }
}

} // verus!

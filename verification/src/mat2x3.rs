//! A matrix with 2 columns and 3 rows, stored as 2 column
//! vectors over the toolkit's integer scalar.

use vstd::prelude::*;
use crate::vec2d::Vector2;
use crate::vec3d::Vector3;
use crate::mat3x2::Matrix3x2;

verus! {

/// A matrix with 2 columns and 3 rows.
#[derive(Debug, Clone, Copy, PartialEq, Eq, Structural)]
pub struct Matrix2x3 {
    /// Column 1 of the matrix.
    pub x: Vector3,
    /// Column 2 of the matrix.
    pub y: Vector3,
}

impl Matrix2x3 {
    /// Builds the matrix from its columns.
    pub fn new(x: Vector3, y: Vector3) -> (m: Self)
        ensures
            m.x == x && m.y == y,
    {
        Self { x, y }
    }

    /// Writes row `x` across all columns; every other entry
    /// keeps its value.
    #[inline]
    pub fn set_x_row(&mut self, row: Vector2)
        ensures
            final(self).x.x == row.x,
            final(self).y.x == row.y,
            final(self).x.y == old(self).x.y,
            final(self).x.z == old(self).x.z,
            final(self).y.y == old(self).y.y,
            final(self).y.z == old(self).y.z,
    {
        self.x.x = row.x;
        self.y.x = row.y;
    }

    /// Writes row `y` across all columns; every other entry
    /// keeps its value.
    #[inline]
    pub fn set_y_row(&mut self, row: Vector2)
        ensures
            final(self).x.y == row.x,
            final(self).y.y == row.y,
            final(self).x.x == old(self).x.x,
            final(self).x.z == old(self).x.z,
            final(self).y.x == old(self).y.x,
            final(self).y.z == old(self).y.z,
    {
        self.x.y = row.x;
        self.y.y = row.y;
    }

    /// Writes row `z` across all columns; every other entry
    /// keeps its value.
    #[inline]
    pub fn set_z_row(&mut self, row: Vector2)
        ensures
            final(self).x.z == row.x,
            final(self).y.z == row.y,
            final(self).x.x == old(self).x.x,
            final(self).x.y == old(self).x.y,
            final(self).y.x == old(self).y.x,
            final(self).y.y == old(self).y.y,
    {
        self.x.z = row.x;
        self.y.z = row.y;
    }

    /// The transpose: rows become columns.
    pub fn transpose(&self) -> (m: Matrix3x2)
        ensures
            m.x.x == self.x.x,
            m.y.x == self.x.y,
            m.z.x == self.x.z,
            m.x.y == self.y.x,
            m.y.y == self.y.y,
            m.z.y == self.y.z,
    {
        Matrix3x2::new(
            Vector2::new(self.x.x, self.y.x),
            Vector2::new(self.x.y, self.y.y),
            Vector2::new(self.x.z, self.y.z),
        )
    }

    /// Entry-wise sum.
    pub fn add(self, rhs: Self) -> (m: Self)
        requires
            i64::MIN <= self.x.x + rhs.x.x <= i64::MAX,
            i64::MIN <= self.x.y + rhs.x.y <= i64::MAX,
            i64::MIN <= self.x.z + rhs.x.z <= i64::MAX,
            i64::MIN <= self.y.x + rhs.y.x <= i64::MAX,
            i64::MIN <= self.y.y + rhs.y.y <= i64::MAX,
            i64::MIN <= self.y.z + rhs.y.z <= i64::MAX,
        ensures
            m.x.x == self.x.x + rhs.x.x,
            m.x.y == self.x.y + rhs.x.y,
            m.x.z == self.x.z + rhs.x.z,
            m.y.x == self.y.x + rhs.y.x,
            m.y.y == self.y.y + rhs.y.y,
            m.y.z == self.y.z + rhs.y.z,
    {
        Self::new(
            Vector3::new(self.x.x + rhs.x.x, self.x.y + rhs.x.y, self.x.z + rhs.x.z),
            Vector3::new(self.y.x + rhs.y.x, self.y.y + rhs.y.y, self.y.z + rhs.y.z),
        )
    }

    /// Entry-wise difference.
    pub fn sub(self, rhs: Self) -> (m: Self)
        requires
            i64::MIN <= self.x.x - rhs.x.x <= i64::MAX,
            i64::MIN <= self.x.y - rhs.x.y <= i64::MAX,
            i64::MIN <= self.x.z - rhs.x.z <= i64::MAX,
            i64::MIN <= self.y.x - rhs.y.x <= i64::MAX,
            i64::MIN <= self.y.y - rhs.y.y <= i64::MAX,
            i64::MIN <= self.y.z - rhs.y.z <= i64::MAX,
        ensures
            m.x.x == self.x.x - rhs.x.x,
            m.x.y == self.x.y - rhs.x.y,
            m.x.z == self.x.z - rhs.x.z,
            m.y.x == self.y.x - rhs.y.x,
            m.y.y == self.y.y - rhs.y.y,
            m.y.z == self.y.z - rhs.y.z,
    {
        Self::new(
            Vector3::new(self.x.x - rhs.x.x, self.x.y - rhs.x.y, self.x.z - rhs.x.z),
            Vector3::new(self.y.x - rhs.y.x, self.y.y - rhs.y.y, self.y.z - rhs.y.z),
        )
    }
}

} // verus!

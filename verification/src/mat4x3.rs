//! A matrix with 4 columns and 3 rows, stored as 4 column
//! vectors over the toolkit's integer scalar.

use vstd::prelude::*;
use crate::vec3d::Vector3;
use crate::vec4d::Vector4;
use crate::mat3x4::Matrix3x4;

verus! {

/// A matrix with 4 columns and 3 rows.
#[derive(Debug, Clone, Copy, PartialEq, Eq, Structural)]
pub struct Matrix4x3 {
    /// Column 1 of the matrix.
    pub x: Vector3,
    /// Column 2 of the matrix.
    pub y: Vector3,
    /// Column 3 of the matrix.
    pub z: Vector3,
    /// Column 4 of the matrix.
    pub w: Vector3,
}

impl Matrix4x3 {
    /// Builds the matrix from its columns.
    pub fn new(x: Vector3, y: Vector3, z: Vector3, w: Vector3) -> (m: Self)
        ensures
            m.x == x && m.y == y && m.z == z && m.w == w,
    {
        Self { x, y, z, w }
    }

    /// Reads row `x` across all columns.
    pub fn get_x_row(&self) -> (row: Vector4)
        ensures
            row.x == self.x.x && row.y == self.y.x && row.z == self.z.x && row.w == self.w.x,
    {
        Vector4::new(self.x.x, self.y.x, self.z.x, self.w.x)
    }

    /// Reads row `y` across all columns.
    pub fn get_y_row(&self) -> (row: Vector4)
        ensures
            row.x == self.x.y && row.y == self.y.y && row.z == self.z.y && row.w == self.w.y,
    {
        Vector4::new(self.x.y, self.y.y, self.z.y, self.w.y)
    }

    /// Reads row `z` across all columns.
    pub fn get_z_row(&self) -> (row: Vector4)
        ensures
            row.x == self.x.z && row.y == self.y.z && row.z == self.z.z && row.w == self.w.z,
    {
        Vector4::new(self.x.z, self.y.z, self.z.z, self.w.z)
    }

    /// Writes row `x` across all columns; every other entry
    /// keeps its value.
    #[inline]
    pub fn set_x_row(&mut self, row: Vector4)
        ensures
            final(self).x.x == row.x,
            final(self).y.x == row.y,
            final(self).z.x == row.z,
            final(self).w.x == row.w,
            final(self).x.y == old(self).x.y,
            final(self).x.z == old(self).x.z,
            final(self).y.y == old(self).y.y,
            final(self).y.z == old(self).y.z,
            final(self).z.y == old(self).z.y,
            final(self).z.z == old(self).z.z,
            final(self).w.y == old(self).w.y,
            final(self).w.z == old(self).w.z,
    {
        self.x.x = row.x;
        self.y.x = row.y;
        self.z.x = row.z;
        self.w.x = row.w;
    }

    /// Writes row `y` across all columns; every other entry
    /// keeps its value.
    #[inline]
    pub fn set_y_row(&mut self, row: Vector4)
        ensures
            final(self).x.y == row.x,
            final(self).y.y == row.y,
            final(self).z.y == row.z,
            final(self).w.y == row.w,
            final(self).x.x == old(self).x.x,
            final(self).x.z == old(self).x.z,
            final(self).y.x == old(self).y.x,
            final(self).y.z == old(self).y.z,
            final(self).z.x == old(self).z.x,
            final(self).z.z == old(self).z.z,
            final(self).w.x == old(self).w.x,
            final(self).w.z == old(self).w.z,
    {
        self.x.y = row.x;
        self.y.y = row.y;
        self.z.y = row.z;
        self.w.y = row.w;
    }

    /// Writes row `z` across all columns; every other entry
    /// keeps its value.
    #[inline]
    pub fn set_z_row(&mut self, row: Vector4)
        ensures
            final(self).x.z == row.x,
            final(self).y.z == row.y,
            final(self).z.z == row.z,
            final(self).w.z == row.w,
            final(self).x.x == old(self).x.x,
            final(self).x.y == old(self).x.y,
            final(self).y.x == old(self).y.x,
            final(self).y.y == old(self).y.y,
            final(self).z.x == old(self).z.x,
            final(self).z.y == old(self).z.y,
            final(self).w.x == old(self).w.x,
            final(self).w.y == old(self).w.y,
    {
        self.x.z = row.x;
        self.y.z = row.y;
        self.z.z = row.z;
        self.w.z = row.w;
    }

    /// The transpose: rows become columns.
    pub fn transpose(&self) -> (m: Matrix3x4)
        ensures
            m.x.x == self.x.x,
            m.y.x == self.x.y,
            m.z.x == self.x.z,
            m.x.y == self.y.x,
            m.y.y == self.y.y,
            m.z.y == self.y.z,
            m.x.z == self.z.x,
            m.y.z == self.z.y,
            m.z.z == self.z.z,
            m.x.w == self.w.x,
            m.y.w == self.w.y,
            m.z.w == self.w.z,
    {
        Matrix3x4::new(
            Vector4::new(self.x.x, self.y.x, self.z.x, self.w.x),
            Vector4::new(self.x.y, self.y.y, self.z.y, self.w.y),
            Vector4::new(self.x.z, self.y.z, self.z.z, self.w.z),
        )
    }

    /// Entry-wise sum.
    pub fn add(self, rhs: Self) -> (m: Self)
        requires
            i64::MIN <= self.x.x + rhs.x.x <= i64::MAX,
            i64::MIN <= self.x.y + rhs.x.y <= i64::MAX,
            i64::MIN <= self.x.z + rhs.x.z <= i64::MAX,
            i64::MIN <= self.y.x + rhs.y.x <= i64::MAX,
            i64::MIN <= self.y.y + rhs.y.y <= i64::MAX,
            i64::MIN <= self.y.z + rhs.y.z <= i64::MAX,
            i64::MIN <= self.z.x + rhs.z.x <= i64::MAX,
            i64::MIN <= self.z.y + rhs.z.y <= i64::MAX,
            i64::MIN <= self.z.z + rhs.z.z <= i64::MAX,
            i64::MIN <= self.w.x + rhs.w.x <= i64::MAX,
            i64::MIN <= self.w.y + rhs.w.y <= i64::MAX,
            i64::MIN <= self.w.z + rhs.w.z <= i64::MAX,
        ensures
            m.x.x == self.x.x + rhs.x.x,
            m.x.y == self.x.y + rhs.x.y,
            m.x.z == self.x.z + rhs.x.z,
            m.y.x == self.y.x + rhs.y.x,
            m.y.y == self.y.y + rhs.y.y,
            m.y.z == self.y.z + rhs.y.z,
            m.z.x == self.z.x + rhs.z.x,
            m.z.y == self.z.y + rhs.z.y,
            m.z.z == self.z.z + rhs.z.z,
            m.w.x == self.w.x + rhs.w.x,
            m.w.y == self.w.y + rhs.w.y,
            m.w.z == self.w.z + rhs.w.z,
    {
        Self::new(
            Vector3::new(self.x.x + rhs.x.x, self.x.y + rhs.x.y, self.x.z + rhs.x.z),
            Vector3::new(self.y.x + rhs.y.x, self.y.y + rhs.y.y, self.y.z + rhs.y.z),
            Vector3::new(self.z.x + rhs.z.x, self.z.y + rhs.z.y, self.z.z + rhs.z.z),
            Vector3::new(self.w.x + rhs.w.x, self.w.y + rhs.w.y, self.w.z + rhs.w.z),
        )
    }

    /// Entry-wise difference.
    pub fn sub(self, rhs: Self) -> (m: Self)
        requires
            i64::MIN <= self.x.x - rhs.x.x <= i64::MAX,
            i64::MIN <= self.x.y - rhs.x.y <= i64::MAX,
            i64::MIN <= self.x.z - rhs.x.z <= i64::MAX,
            i64::MIN <= self.y.x - rhs.y.x <= i64::MAX,
            i64::MIN <= self.y.y - rhs.y.y <= i64::MAX,
            i64::MIN <= self.y.z - rhs.y.z <= i64::MAX,
            i64::MIN <= self.z.x - rhs.z.x <= i64::MAX,
            i64::MIN <= self.z.y - rhs.z.y <= i64::MAX,
            i64::MIN <= self.z.z - rhs.z.z <= i64::MAX,
            i64::MIN <= self.w.x - rhs.w.x <= i64::MAX,
            i64::MIN <= self.w.y - rhs.w.y <= i64::MAX,
            i64::MIN <= self.w.z - rhs.w.z <= i64::MAX,
        ensures
            m.x.x == self.x.x - rhs.x.x,
            m.x.y == self.x.y - rhs.x.y,
            m.x.z == self.x.z - rhs.x.z,
            m.y.x == self.y.x - rhs.y.x,
            m.y.y == self.y.y - rhs.y.y,
            m.y.z == self.y.z - rhs.y.z,
            m.z.x == self.z.x - rhs.z.x,
            m.z.y == self.z.y - rhs.z.y,
            m.z.z == self.z.z - rhs.z.z,
            m.w.x == self.w.x - rhs.w.x,
            m.w.y == self.w.y - rhs.w.y,
            m.w.z == self.w.z - rhs.w.z,
    {
        Self::new(
            Vector3::new(self.x.x - rhs.x.x, self.x.y - rhs.x.y, self.x.z - rhs.x.z),
            Vector3::new(self.y.x - rhs.y.x, self.y.y - rhs.y.y, self.y.z - rhs.y.z),
            Vector3::new(self.z.x - rhs.z.x, self.z.y - rhs.z.y, self.z.z - rhs.z.z),
            Vector3::new(self.w.x - rhs.w.x, self.w.y - rhs.w.y, self.w.z - rhs.w.z),
        )
    }
}

} // verus!

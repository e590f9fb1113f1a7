//! A matrix with 3 columns and 4 rows, stored as 3 column
//! vectors over the toolkit's integer scalar.

use vstd::prelude::*;
use crate::vec3d::Vector3;
use crate::vec4d::Vector4;
use crate::mat4x3::Matrix4x3;

verus! {

/// A matrix with 3 columns and 4 rows.
#[derive(Debug, Clone, Copy, PartialEq, Eq, Structural)]
pub struct Matrix3x4 {
    /// Column 1 of the matrix.
    pub x: Vector4,
    /// Column 2 of the matrix.
    pub y: Vector4,
    /// Column 3 of the matrix.
    pub z: Vector4,
}

impl Matrix3x4 {
    /// Builds the matrix from its columns.
    pub fn new(x: Vector4, y: Vector4, z: Vector4) -> (m: Self)
        ensures
            m.x == x && m.y == y && m.z == z,
    {
        Self { x, y, z }
    }

    /// Reads row `x` across all columns.
    pub fn get_x_row(&self) -> (row: Vector3)
        ensures
            row.x == self.x.x && row.y == self.y.x && row.z == self.z.x,
    {
        Vector3::new(self.x.x, self.y.x, self.z.x)
    }

    /// Reads row `y` across all columns.
    pub fn get_y_row(&self) -> (row: Vector3)
        ensures
            row.x == self.x.y && row.y == self.y.y && row.z == self.z.y,
    {
        Vector3::new(self.x.y, self.y.y, self.z.y)
    }

    /// Reads row `z` across all columns.
    pub fn get_z_row(&self) -> (row: Vector3)
        ensures
            row.x == self.x.z && row.y == self.y.z && row.z == self.z.z,
    {
        Vector3::new(self.x.z, self.y.z, self.z.z)
    }

    /// Reads row `w` across all columns.
    pub fn get_w_row(&self) -> (row: Vector3)
        ensures
            row.x == self.x.w && row.y == self.y.w && row.z == self.z.w,
    {
        Vector3::new(self.x.w, self.y.w, self.z.w)
    }

    /// Writes row `x` across all columns; every other entry
    /// keeps its value.
    #[inline]
    pub fn set_x_row(&mut self, row: Vector3)
        ensures
            final(self).x.x == row.x,
            final(self).y.x == row.y,
            final(self).z.x == row.z,
            final(self).x.y == old(self).x.y,
            final(self).x.z == old(self).x.z,
            final(self).x.w == old(self).x.w,
            final(self).y.y == old(self).y.y,
            final(self).y.z == old(self).y.z,
            final(self).y.w == old(self).y.w,
            final(self).z.y == old(self).z.y,
            final(self).z.z == old(self).z.z,
            final(self).z.w == old(self).z.w,
    {
        self.x.x = row.x;
        self.y.x = row.y;
        self.z.x = row.z;
    }

    /// Writes row `y` across all columns; every other entry
    /// keeps its value.
    #[inline]
    pub fn set_y_row(&mut self, row: Vector3)
        ensures
            final(self).x.y == row.x,
            final(self).y.y == row.y,
            final(self).z.y == row.z,
            final(self).x.x == old(self).x.x,
            final(self).x.z == old(self).x.z,
            final(self).x.w == old(self).x.w,
            final(self).y.x == old(self).y.x,
            final(self).y.z == old(self).y.z,
            final(self).y.w == old(self).y.w,
            final(self).z.x == old(self).z.x,
            final(self).z.z == old(self).z.z,
            final(self).z.w == old(self).z.w,
    {
        self.x.y = row.x;
        self.y.y = row.y;
        self.z.y = row.z;
    }

    /// Writes row `z` across all columns; every other entry
    /// keeps its value.
    #[inline]
    pub fn set_z_row(&mut self, row: Vector3)
        ensures
            final(self).x.z == row.x,
            final(self).y.z == row.y,
            final(self).z.z == row.z,
            final(self).x.x == old(self).x.x,
            final(self).x.y == old(self).x.y,
            final(self).x.w == old(self).x.w,
            final(self).y.x == old(self).y.x,
            final(self).y.y == old(self).y.y,
            final(self).y.w == old(self).y.w,
            final(self).z.x == old(self).z.x,
            final(self).z.y == old(self).z.y,
            final(self).z.w == old(self).z.w,
    {
        self.x.z = row.x;
        self.y.z = row.y;
        self.z.z = row.z;
    }

    /// Writes row `w` across all columns; every other entry
    /// keeps its value.
    #[inline]
    pub fn set_w_row(&mut self, row: Vector3)
        ensures
            final(self).x.w == row.x,
            final(self).y.w == row.y,
            final(self).z.w == row.z,
            final(self).x.x == old(self).x.x,
            final(self).x.y == old(self).x.y,
            final(self).x.z == old(self).x.z,
            final(self).y.x == old(self).y.x,
            final(self).y.y == old(self).y.y,
            final(self).y.z == old(self).y.z,
            final(self).z.x == old(self).z.x,
            final(self).z.y == old(self).z.y,
            final(self).z.z == old(self).z.z,
    {
        self.x.w = row.x;
        self.y.w = row.y;
        self.z.w = row.z;
    }

    /// The transpose: rows become columns.
    pub fn transpose(&self) -> (m: Matrix4x3)
        ensures
            m.x.x == self.x.x,
            m.y.x == self.x.y,
            m.z.x == self.x.z,
            m.w.x == self.x.w,
            m.x.y == self.y.x,
            m.y.y == self.y.y,
            m.z.y == self.y.z,
            m.w.y == self.y.w,
            m.x.z == self.z.x,
            m.y.z == self.z.y,
            m.z.z == self.z.z,
            m.w.z == self.z.w,
    {
        Matrix4x3::new(
            Vector3::new(self.x.x, self.y.x, self.z.x),
            Vector3::new(self.x.y, self.y.y, self.z.y),
            Vector3::new(self.x.z, self.y.z, self.z.z),
            Vector3::new(self.x.w, self.y.w, self.z.w),
        )
    }

    /// Entry-wise sum.
    pub fn add(self, rhs: Self) -> (m: Self)
        requires
            i64::MIN <= self.x.x + rhs.x.x <= i64::MAX,
            i64::MIN <= self.x.y + rhs.x.y <= i64::MAX,
            i64::MIN <= self.x.z + rhs.x.z <= i64::MAX,
            i64::MIN <= self.x.w + rhs.x.w <= i64::MAX,
            i64::MIN <= self.y.x + rhs.y.x <= i64::MAX,
            i64::MIN <= self.y.y + rhs.y.y <= i64::MAX,
            i64::MIN <= self.y.z + rhs.y.z <= i64::MAX,
            i64::MIN <= self.y.w + rhs.y.w <= i64::MAX,
            i64::MIN <= self.z.x + rhs.z.x <= i64::MAX,
            i64::MIN <= self.z.y + rhs.z.y <= i64::MAX,
            i64::MIN <= self.z.z + rhs.z.z <= i64::MAX,
            i64::MIN <= self.z.w + rhs.z.w <= i64::MAX,
        ensures
            m.x.x == self.x.x + rhs.x.x,
            m.x.y == self.x.y + rhs.x.y,
            m.x.z == self.x.z + rhs.x.z,
            m.x.w == self.x.w + rhs.x.w,
            m.y.x == self.y.x + rhs.y.x,
            m.y.y == self.y.y + rhs.y.y,
            m.y.z == self.y.z + rhs.y.z,
            m.y.w == self.y.w + rhs.y.w,
            m.z.x == self.z.x + rhs.z.x,
            m.z.y == self.z.y + rhs.z.y,
            m.z.z == self.z.z + rhs.z.z,
            m.z.w == self.z.w + rhs.z.w,
    {
        Self::new(
            Vector4::new(self.x.x + rhs.x.x, self.x.y + rhs.x.y, self.x.z + rhs.x.z, self.x.w + rhs.x.w),
            Vector4::new(self.y.x + rhs.y.x, self.y.y + rhs.y.y, self.y.z + rhs.y.z, self.y.w + rhs.y.w),
            Vector4::new(self.z.x + rhs.z.x, self.z.y + rhs.z.y, self.z.z + rhs.z.z, self.z.w + rhs.z.w),
        )
    }

    /// Entry-wise difference.
    pub fn sub(self, rhs: Self) -> (m: Self)
        requires
            i64::MIN <= self.x.x - rhs.x.x <= i64::MAX,
            i64::MIN <= self.x.y - rhs.x.y <= i64::MAX,
            i64::MIN <= self.x.z - rhs.x.z <= i64::MAX,
            i64::MIN <= self.x.w - rhs.x.w <= i64::MAX,
            i64::MIN <= self.y.x - rhs.y.x <= i64::MAX,
            i64::MIN <= self.y.y - rhs.y.y <= i64::MAX,
            i64::MIN <= self.y.z - rhs.y.z <= i64::MAX,
            i64::MIN <= self.y.w - rhs.y.w <= i64::MAX,
            i64::MIN <= self.z.x - rhs.z.x <= i64::MAX,
            i64::MIN <= self.z.y - rhs.z.y <= i64::MAX,
            i64::MIN <= self.z.z - rhs.z.z <= i64::MAX,
            i64::MIN <= self.z.w - rhs.z.w <= i64::MAX,
        ensures
            m.x.x == self.x.x - rhs.x.x,
            m.x.y == self.x.y - rhs.x.y,
            m.x.z == self.x.z - rhs.x.z,
            m.x.w == self.x.w - rhs.x.w,
            m.y.x == self.y.x - rhs.y.x,
            m.y.y == self.y.y - rhs.y.y,
            m.y.z == self.y.z - rhs.y.z,
            m.y.w == self.y.w - rhs.y.w,
            m.z.x == self.z.x - rhs.z.x,
            m.z.y == self.z.y - rhs.z.y,
            m.z.z == self.z.z - rhs.z.z,
            m.z.w == self.z.w - rhs.z.w,
    {
        Self::new(
            Vector4::new(self.x.x - rhs.x.x, self.x.y - rhs.x.y, self.x.z - rhs.x.z, self.x.w - rhs.x.w),
            Vector4::new(self.y.x - rhs.y.x, self.y.y - rhs.y.y, self.y.z - rhs.y.z, self.y.w - rhs.y.w),
            Vector4::new(self.z.x - rhs.z.x, self.z.y - rhs.z.y, self.z.z - rhs.z.z, self.z.w - rhs.z.w),
        )
    }
}

} // verus!

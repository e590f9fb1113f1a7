//! A matrix with 4 columns and 4 rows, stored as 4 column
//! vectors over the toolkit's integer scalar.

use vstd::prelude::*;
use crate::matrix::{QUAD_LIMIT, TRIPLE_LIMIT};
use crate::vec4d::Vector4;

verus! {

/// A matrix with 4 columns and 4 rows.
#[derive(Debug, Clone, Copy, PartialEq, Eq, Structural)]
pub struct Matrix4x4 {
    /// Column 1 of the matrix.
    pub x: Vector4,
    /// Column 2 of the matrix.
    pub y: Vector4,
    /// Column 3 of the matrix.
    pub z: Vector4,
    /// Column 4 of the matrix.
    pub w: Vector4,
}

impl Matrix4x4 {
    /// Builds the matrix from its columns.
    pub fn new(x: Vector4, y: Vector4, z: Vector4, w: Vector4) -> (m: Self)
        ensures
            m.x == x && m.y == y && m.z == z && m.w == w,
    {
        Self { x, y, z, w }
    }

    /// A matrix holding `diagonal` on its main diagonal and zeros
    /// elsewhere.
    pub fn from_diagonal(diagonal: Vector4) -> (m: Self)
        ensures
            m.x.x == diagonal.x,
            m.x.y == 0,
            m.x.z == 0,
            m.x.w == 0,
            m.y.x == 0,
            m.y.y == diagonal.y,
            m.y.z == 0,
            m.y.w == 0,
            m.z.x == 0,
            m.z.y == 0,
            m.z.z == diagonal.z,
            m.z.w == 0,
            m.w.x == 0,
            m.w.y == 0,
            m.w.z == 0,
            m.w.w == diagonal.w,
    {
        Self { x: Vector4::new(diagonal.x, 0, 0, 0), y: Vector4::new(0, diagonal.y, 0, 0), z: Vector4::new(0, 0, diagonal.z, 0), w: Vector4::new(0, 0, 0, diagonal.w) }
    }

    /// Reads row `x` across all columns.
    pub fn get_x_row(&self) -> (row: Vector4)
        ensures
            row.x == self.x.x && row.y == self.y.x && row.z == self.z.x && row.w == self.w.x,
    {
        Vector4::new(self.x.x, self.y.x, self.z.x, self.w.x)
    }

    /// Reads row `y` across all columns.
    pub fn get_y_row(&self) -> (row: Vector4)
        ensures
            row.x == self.x.y && row.y == self.y.y && row.z == self.z.y && row.w == self.w.y,
    {
        Vector4::new(self.x.y, self.y.y, self.z.y, self.w.y)
    }

    /// Reads row `z` across all columns.
    pub fn get_z_row(&self) -> (row: Vector4)
        ensures
            row.x == self.x.z && row.y == self.y.z && row.z == self.z.z && row.w == self.w.z,
    {
        Vector4::new(self.x.z, self.y.z, self.z.z, self.w.z)
    }

    /// Reads row `w` across all columns.
    pub fn get_w_row(&self) -> (row: Vector4)
        ensures
            row.x == self.x.w && row.y == self.y.w && row.z == self.z.w && row.w == self.w.w,
    {
        Vector4::new(self.x.w, self.y.w, self.z.w, self.w.w)
    }

    /// Writes row `x` across all columns; every other entry
    /// keeps its value.
    #[inline]
    pub fn set_x_row(&mut self, row: Vector4)
        ensures
            final(self).x.x == row.x,
            final(self).y.x == row.y,
            final(self).z.x == row.z,
            final(self).w.x == row.w,
            final(self).x.y == old(self).x.y,
            final(self).x.z == old(self).x.z,
            final(self).x.w == old(self).x.w,
            final(self).y.y == old(self).y.y,
            final(self).y.z == old(self).y.z,
            final(self).y.w == old(self).y.w,
            final(self).z.y == old(self).z.y,
            final(self).z.z == old(self).z.z,
            final(self).z.w == old(self).z.w,
            final(self).w.y == old(self).w.y,
            final(self).w.z == old(self).w.z,
            final(self).w.w == old(self).w.w,
    {
        self.x.x = row.x;
        self.y.x = row.y;
        self.z.x = row.z;
        self.w.x = row.w;
    }

    /// Writes row `y` across all columns; every other entry
    /// keeps its value.
    #[inline]
    pub fn set_y_row(&mut self, row: Vector4)
        ensures
            final(self).x.y == row.x,
            final(self).y.y == row.y,
            final(self).z.y == row.z,
            final(self).w.y == row.w,
            final(self).x.x == old(self).x.x,
            final(self).x.z == old(self).x.z,
            final(self).x.w == old(self).x.w,
            final(self).y.x == old(self).y.x,
            final(self).y.z == old(self).y.z,
            final(self).y.w == old(self).y.w,
            final(self).z.x == old(self).z.x,
            final(self).z.z == old(self).z.z,
            final(self).z.w == old(self).z.w,
            final(self).w.x == old(self).w.x,
            final(self).w.z == old(self).w.z,
            final(self).w.w == old(self).w.w,
    {
        self.x.y = row.x;
        self.y.y = row.y;
        self.z.y = row.z;
        self.w.y = row.w;
    }

    /// Writes row `z` across all columns; every other entry
    /// keeps its value.
    #[inline]
    pub fn set_z_row(&mut self, row: Vector4)
        ensures
            final(self).x.z == row.x,
            final(self).y.z == row.y,
            final(self).z.z == row.z,
            final(self).w.z == row.w,
            final(self).x.x == old(self).x.x,
            final(self).x.y == old(self).x.y,
            final(self).x.w == old(self).x.w,
            final(self).y.x == old(self).y.x,
            final(self).y.y == old(self).y.y,
            final(self).y.w == old(self).y.w,
            final(self).z.x == old(self).z.x,
            final(self).z.y == old(self).z.y,
            final(self).z.w == old(self).z.w,
            final(self).w.x == old(self).w.x,
            final(self).w.y == old(self).w.y,
            final(self).w.w == old(self).w.w,
    {
        self.x.z = row.x;
        self.y.z = row.y;
        self.z.z = row.z;
        self.w.z = row.w;
    }

    /// Writes row `w` across all columns; every other entry
    /// keeps its value.
    #[inline]
    pub fn set_w_row(&mut self, row: Vector4)
        ensures
            final(self).x.w == row.x,
            final(self).y.w == row.y,
            final(self).z.w == row.z,
            final(self).w.w == row.w,
            final(self).x.x == old(self).x.x,
            final(self).x.y == old(self).x.y,
            final(self).x.z == old(self).x.z,
            final(self).y.x == old(self).y.x,
            final(self).y.y == old(self).y.y,
            final(self).y.z == old(self).y.z,
            final(self).z.x == old(self).z.x,
            final(self).z.y == old(self).z.y,
            final(self).z.z == old(self).z.z,
            final(self).w.x == old(self).w.x,
            final(self).w.y == old(self).w.y,
            final(self).w.z == old(self).w.z,
    {
        self.x.w = row.x;
        self.y.w = row.y;
        self.z.w = row.z;
        self.w.w = row.w;
    }

    /// The transpose: rows become columns.
    pub fn transpose(&self) -> (m: Matrix4x4)
        ensures
            m.x.x == self.x.x,
            m.y.x == self.x.y,
            m.z.x == self.x.z,
            m.w.x == self.x.w,
            m.x.y == self.y.x,
            m.y.y == self.y.y,
            m.z.y == self.y.z,
            m.w.y == self.y.w,
            m.x.z == self.z.x,
            m.y.z == self.z.y,
            m.z.z == self.z.z,
            m.w.z == self.z.w,
            m.x.w == self.w.x,
            m.y.w == self.w.y,
            m.z.w == self.w.z,
            m.w.w == self.w.w,
    {
        Matrix4x4::new(
            Vector4::new(self.x.x, self.y.x, self.z.x, self.w.x),
            Vector4::new(self.x.y, self.y.y, self.z.y, self.w.y),
            Vector4::new(self.x.z, self.y.z, self.z.z, self.w.z),
            Vector4::new(self.x.w, self.y.w, self.z.w, self.w.w),
        )
    }

    /// Entry-wise sum.
    pub fn add(self, rhs: Self) -> (m: Self)
        requires
            i64::MIN <= self.x.x + rhs.x.x <= i64::MAX,
            i64::MIN <= self.x.y + rhs.x.y <= i64::MAX,
            i64::MIN <= self.x.z + rhs.x.z <= i64::MAX,
            i64::MIN <= self.x.w + rhs.x.w <= i64::MAX,
            i64::MIN <= self.y.x + rhs.y.x <= i64::MAX,
            i64::MIN <= self.y.y + rhs.y.y <= i64::MAX,
            i64::MIN <= self.y.z + rhs.y.z <= i64::MAX,
            i64::MIN <= self.y.w + rhs.y.w <= i64::MAX,
            i64::MIN <= self.z.x + rhs.z.x <= i64::MAX,
            i64::MIN <= self.z.y + rhs.z.y <= i64::MAX,
            i64::MIN <= self.z.z + rhs.z.z <= i64::MAX,
            i64::MIN <= self.z.w + rhs.z.w <= i64::MAX,
            i64::MIN <= self.w.x + rhs.w.x <= i64::MAX,
            i64::MIN <= self.w.y + rhs.w.y <= i64::MAX,
            i64::MIN <= self.w.z + rhs.w.z <= i64::MAX,
            i64::MIN <= self.w.w + rhs.w.w <= i64::MAX,
        ensures
            m.x.x == self.x.x + rhs.x.x,
            m.x.y == self.x.y + rhs.x.y,
            m.x.z == self.x.z + rhs.x.z,
            m.x.w == self.x.w + rhs.x.w,
            m.y.x == self.y.x + rhs.y.x,
            m.y.y == self.y.y + rhs.y.y,
            m.y.z == self.y.z + rhs.y.z,
            m.y.w == self.y.w + rhs.y.w,
            m.z.x == self.z.x + rhs.z.x,
            m.z.y == self.z.y + rhs.z.y,
            m.z.z == self.z.z + rhs.z.z,
            m.z.w == self.z.w + rhs.z.w,
            m.w.x == self.w.x + rhs.w.x,
            m.w.y == self.w.y + rhs.w.y,
            m.w.z == self.w.z + rhs.w.z,
            m.w.w == self.w.w + rhs.w.w,
    {
        Self::new(
            Vector4::new(self.x.x + rhs.x.x, self.x.y + rhs.x.y, self.x.z + rhs.x.z, self.x.w + rhs.x.w),
            Vector4::new(self.y.x + rhs.y.x, self.y.y + rhs.y.y, self.y.z + rhs.y.z, self.y.w + rhs.y.w),
            Vector4::new(self.z.x + rhs.z.x, self.z.y + rhs.z.y, self.z.z + rhs.z.z, self.z.w + rhs.z.w),
            Vector4::new(self.w.x + rhs.w.x, self.w.y + rhs.w.y, self.w.z + rhs.w.z, self.w.w + rhs.w.w),
        )
    }

    /// Entry-wise difference.
    pub fn sub(self, rhs: Self) -> (m: Self)
        requires
            i64::MIN <= self.x.x - rhs.x.x <= i64::MAX,
            i64::MIN <= self.x.y - rhs.x.y <= i64::MAX,
            i64::MIN <= self.x.z - rhs.x.z <= i64::MAX,
            i64::MIN <= self.x.w - rhs.x.w <= i64::MAX,
            i64::MIN <= self.y.x - rhs.y.x <= i64::MAX,
            i64::MIN <= self.y.y - rhs.y.y <= i64::MAX,
            i64::MIN <= self.y.z - rhs.y.z <= i64::MAX,
            i64::MIN <= self.y.w - rhs.y.w <= i64::MAX,
            i64::MIN <= self.z.x - rhs.z.x <= i64::MAX,
            i64::MIN <= self.z.y - rhs.z.y <= i64::MAX,
            i64::MIN <= self.z.z - rhs.z.z <= i64::MAX,
            i64::MIN <= self.z.w - rhs.z.w <= i64::MAX,
            i64::MIN <= self.w.x - rhs.w.x <= i64::MAX,
            i64::MIN <= self.w.y - rhs.w.y <= i64::MAX,
            i64::MIN <= self.w.z - rhs.w.z <= i64::MAX,
            i64::MIN <= self.w.w - rhs.w.w <= i64::MAX,
        ensures
            m.x.x == self.x.x - rhs.x.x,
            m.x.y == self.x.y - rhs.x.y,
            m.x.z == self.x.z - rhs.x.z,
            m.x.w == self.x.w - rhs.x.w,
            m.y.x == self.y.x - rhs.y.x,
            m.y.y == self.y.y - rhs.y.y,
            m.y.z == self.y.z - rhs.y.z,
            m.y.w == self.y.w - rhs.y.w,
            m.z.x == self.z.x - rhs.z.x,
            m.z.y == self.z.y - rhs.z.y,
            m.z.z == self.z.z - rhs.z.z,
            m.z.w == self.z.w - rhs.z.w,
            m.w.x == self.w.x - rhs.w.x,
            m.w.y == self.w.y - rhs.w.y,
            m.w.z == self.w.z - rhs.w.z,
            m.w.w == self.w.w - rhs.w.w,
    {
        Self::new(
            Vector4::new(self.x.x - rhs.x.x, self.x.y - rhs.x.y, self.x.z - rhs.x.z, self.x.w - rhs.x.w),
            Vector4::new(self.y.x - rhs.y.x, self.y.y - rhs.y.y, self.y.z - rhs.y.z, self.y.w - rhs.y.w),
            Vector4::new(self.z.x - rhs.z.x, self.z.y - rhs.z.y, self.z.z - rhs.z.z, self.z.w - rhs.z.w),
            Vector4::new(self.w.x - rhs.w.x, self.w.y - rhs.w.y, self.w.z - rhs.w.z, self.w.w - rhs.w.w),
        )
    }

    /// Whether this is the multiplicative identity matrix.
    pub fn is_identity(&self) -> (r: bool)
        ensures
            r == (self.x.x == 1 && self.x.y == 0 && self.x.z == 0 && self.x.w == 0 && self.y.x == 0 && self.y.y == 1 && self.y.z == 0 && self.y.w == 0 && self.z.x == 0 && self.z.y == 0 && self.z.z == 1 && self.z.w == 0 && self.w.x == 0 && self.w.y == 0 && self.w.z == 0 && self.w.w == 1),
    {
        self.x.x == 1
            && self.x.y == 0
            && self.x.z == 0
            && self.x.w == 0
            && self.y.x == 0
            && self.y.y == 1
            && self.y.z == 0
            && self.y.w == 0
            && self.z.x == 0
            && self.z.y == 0
            && self.z.z == 1
            && self.z.w == 0
            && self.w.x == 0
            && self.w.y == 0
            && self.w.z == 0
            && self.w.w == 1
    }
    /// Every entry lies within `TRIPLE_LIMIT`, keeping minor
    /// arithmetic inside the machine range.
    pub open spec fn entries_within(&self) -> bool {
        -TRIPLE_LIMIT <= self.x.x <= TRIPLE_LIMIT && -TRIPLE_LIMIT <= self.x.y <= TRIPLE_LIMIT && -TRIPLE_LIMIT <= self.x.z <= TRIPLE_LIMIT && -TRIPLE_LIMIT <= self.x.w <= TRIPLE_LIMIT && -TRIPLE_LIMIT <= self.y.x <= TRIPLE_LIMIT && -TRIPLE_LIMIT <= self.y.y <= TRIPLE_LIMIT && -TRIPLE_LIMIT <= self.y.z <= TRIPLE_LIMIT && -TRIPLE_LIMIT <= self.y.w <= TRIPLE_LIMIT && -TRIPLE_LIMIT <= self.z.x <= TRIPLE_LIMIT && -TRIPLE_LIMIT <= self.z.y <= TRIPLE_LIMIT && -TRIPLE_LIMIT <= self.z.z <= TRIPLE_LIMIT && -TRIPLE_LIMIT <= self.z.w <= TRIPLE_LIMIT && -TRIPLE_LIMIT <= self.w.x <= TRIPLE_LIMIT && -TRIPLE_LIMIT <= self.w.y <= TRIPLE_LIMIT && -TRIPLE_LIMIT <= self.w.z <= TRIPLE_LIMIT && -TRIPLE_LIMIT <= self.w.w <= TRIPLE_LIMIT
    }

    /// The minor of the entry at `column`, `row`: the determinant of
    /// what remains after deleting that column and that row, as a
    /// specification-level value.
    pub open spec fn minor_spec(&self, column: int, row: int) -> int {
        if column == 0 && row == 0 {
            (self.y.y * self.z.z * self.w.w + self.z.y * self.w.z * self.y.w + self.w.y * self.y.z * self.z.w) - (self.y.w * self.z.z * self.w.y + self.z.w * self.w.z * self.y.y + self.w.w * self.y.z * self.z.y)
        } else if column == 0 && row == 1 {
            (self.y.x * self.z.z * self.w.w + self.z.x * self.w.z * self.y.w + self.w.x * self.y.z * self.z.w) - (self.y.w * self.z.z * self.w.x + self.z.w * self.w.z * self.y.x + self.w.w * self.y.z * self.z.x)
        } else if column == 0 && row == 2 {
            (self.y.x * self.z.y * self.w.w + self.z.x * self.w.y * self.y.w + self.w.x * self.y.y * self.z.w) - (self.y.w * self.z.y * self.w.x + self.z.w * self.w.y * self.y.x + self.w.w * self.y.y * self.z.x)
        } else if column == 0 && row == 3 {
            (self.y.x * self.z.y * self.w.z + self.z.x * self.w.y * self.y.z + self.w.x * self.y.y * self.z.z) - (self.y.z * self.z.y * self.w.x + self.z.z * self.w.y * self.y.x + self.w.z * self.y.y * self.z.x)
        } else if column == 1 && row == 0 {
            (self.x.y * self.z.z * self.w.w + self.z.y * self.w.z * self.x.w + self.w.y * self.x.z * self.z.w) - (self.x.w * self.z.z * self.w.y + self.z.w * self.w.z * self.x.y + self.w.w * self.x.z * self.z.y)
        } else if column == 1 && row == 1 {
            (self.x.x * self.z.z * self.w.w + self.z.x * self.w.z * self.x.w + self.w.x * self.x.z * self.z.w) - (self.x.w * self.z.z * self.w.x + self.z.w * self.w.z * self.x.x + self.w.w * self.x.z * self.z.x)
        } else if column == 1 && row == 2 {
            (self.x.x * self.z.y * self.w.w + self.z.x * self.w.y * self.x.w + self.w.x * self.x.y * self.z.w) - (self.x.w * self.z.y * self.w.x + self.z.w * self.w.y * self.x.x + self.w.w * self.x.y * self.z.x)
        } else if column == 1 && row == 3 {
            (self.x.x * self.z.y * self.w.z + self.z.x * self.w.y * self.x.z + self.w.x * self.x.y * self.z.z) - (self.x.z * self.z.y * self.w.x + self.z.z * self.w.y * self.x.x + self.w.z * self.x.y * self.z.x)
        } else if column == 2 && row == 0 {
            (self.x.y * self.y.z * self.w.w + self.y.y * self.w.z * self.x.w + self.w.y * self.x.z * self.y.w) - (self.x.w * self.y.z * self.w.y + self.y.w * self.w.z * self.x.y + self.w.w * self.x.z * self.y.y)
        } else if column == 2 && row == 1 {
            (self.x.x * self.y.z * self.w.w + self.y.x * self.w.z * self.x.w + self.w.x * self.x.z * self.y.w) - (self.x.w * self.y.z * self.w.x + self.y.w * self.w.z * self.x.x + self.w.w * self.x.z * self.y.x)
        } else if column == 2 && row == 2 {
            (self.x.x * self.y.y * self.w.w + self.y.x * self.w.y * self.x.w + self.w.x * self.x.y * self.y.w) - (self.x.w * self.y.y * self.w.x + self.y.w * self.w.y * self.x.x + self.w.w * self.x.y * self.y.x)
        } else if column == 2 && row == 3 {
            (self.x.x * self.y.y * self.w.z + self.y.x * self.w.y * self.x.z + self.w.x * self.x.y * self.y.z) - (self.x.z * self.y.y * self.w.x + self.y.z * self.w.y * self.x.x + self.w.z * self.x.y * self.y.x)
        } else if column == 3 && row == 0 {
            (self.x.y * self.y.z * self.z.w + self.y.y * self.z.z * self.x.w + self.z.y * self.x.z * self.y.w) - (self.x.w * self.y.z * self.z.y + self.y.w * self.z.z * self.x.y + self.z.w * self.x.z * self.y.y)
        } else if column == 3 && row == 1 {
            (self.x.x * self.y.z * self.z.w + self.y.x * self.z.z * self.x.w + self.z.x * self.x.z * self.y.w) - (self.x.w * self.y.z * self.z.x + self.y.w * self.z.z * self.x.x + self.z.w * self.x.z * self.y.x)
        } else if column == 3 && row == 2 {
            (self.x.x * self.y.y * self.z.w + self.y.x * self.z.y * self.x.w + self.z.x * self.x.y * self.y.w) - (self.x.w * self.y.y * self.z.x + self.y.w * self.z.y * self.x.x + self.z.w * self.x.y * self.y.x)
        } else {
            (self.x.x * self.y.y * self.z.z + self.y.x * self.z.y * self.x.z + self.z.x * self.x.y * self.y.z) - (self.x.z * self.y.y * self.z.x + self.y.z * self.z.y * self.x.x + self.z.z * self.x.y * self.y.x)
        }
    }

    /// Returns the minor of the entry at `column`, `row`.
    pub fn minor(&self, column: usize, row: usize) -> (d: i64)
        requires
            column < 4,
            row < 4,
            self.entries_within(),
        ensures
            d == self.minor_spec(column as int, row as int),
            -0x1000000000000000 <= d <= 0x1000000000000000,
    {
        proof {
            crate::matrix::lemma_triple_product_bounds();
        }
        if column == 0 && row == 0 {
            (self.y.y * self.z.z * self.w.w + self.z.y * self.w.z * self.y.w + self.w.y * self.y.z * self.z.w) - (self.y.w * self.z.z * self.w.y + self.z.w * self.w.z * self.y.y + self.w.w * self.y.z * self.z.y)
        } else if column == 0 && row == 1 {
            (self.y.x * self.z.z * self.w.w + self.z.x * self.w.z * self.y.w + self.w.x * self.y.z * self.z.w) - (self.y.w * self.z.z * self.w.x + self.z.w * self.w.z * self.y.x + self.w.w * self.y.z * self.z.x)
        } else if column == 0 && row == 2 {
            (self.y.x * self.z.y * self.w.w + self.z.x * self.w.y * self.y.w + self.w.x * self.y.y * self.z.w) - (self.y.w * self.z.y * self.w.x + self.z.w * self.w.y * self.y.x + self.w.w * self.y.y * self.z.x)
        } else if column == 0 && row == 3 {
            (self.y.x * self.z.y * self.w.z + self.z.x * self.w.y * self.y.z + self.w.x * self.y.y * self.z.z) - (self.y.z * self.z.y * self.w.x + self.z.z * self.w.y * self.y.x + self.w.z * self.y.y * self.z.x)
        } else if column == 1 && row == 0 {
            (self.x.y * self.z.z * self.w.w + self.z.y * self.w.z * self.x.w + self.w.y * self.x.z * self.z.w) - (self.x.w * self.z.z * self.w.y + self.z.w * self.w.z * self.x.y + self.w.w * self.x.z * self.z.y)
        } else if column == 1 && row == 1 {
            (self.x.x * self.z.z * self.w.w + self.z.x * self.w.z * self.x.w + self.w.x * self.x.z * self.z.w) - (self.x.w * self.z.z * self.w.x + self.z.w * self.w.z * self.x.x + self.w.w * self.x.z * self.z.x)
        } else if column == 1 && row == 2 {
            (self.x.x * self.z.y * self.w.w + self.z.x * self.w.y * self.x.w + self.w.x * self.x.y * self.z.w) - (self.x.w * self.z.y * self.w.x + self.z.w * self.w.y * self.x.x + self.w.w * self.x.y * self.z.x)
        } else if column == 1 && row == 3 {
            (self.x.x * self.z.y * self.w.z + self.z.x * self.w.y * self.x.z + self.w.x * self.x.y * self.z.z) - (self.x.z * self.z.y * self.w.x + self.z.z * self.w.y * self.x.x + self.w.z * self.x.y * self.z.x)
        } else if column == 2 && row == 0 {
            (self.x.y * self.y.z * self.w.w + self.y.y * self.w.z * self.x.w + self.w.y * self.x.z * self.y.w) - (self.x.w * self.y.z * self.w.y + self.y.w * self.w.z * self.x.y + self.w.w * self.x.z * self.y.y)
        } else if column == 2 && row == 1 {
            (self.x.x * self.y.z * self.w.w + self.y.x * self.w.z * self.x.w + self.w.x * self.x.z * self.y.w) - (self.x.w * self.y.z * self.w.x + self.y.w * self.w.z * self.x.x + self.w.w * self.x.z * self.y.x)
        } else if column == 2 && row == 2 {
            (self.x.x * self.y.y * self.w.w + self.y.x * self.w.y * self.x.w + self.w.x * self.x.y * self.y.w) - (self.x.w * self.y.y * self.w.x + self.y.w * self.w.y * self.x.x + self.w.w * self.x.y * self.y.x)
        } else if column == 2 && row == 3 {
            (self.x.x * self.y.y * self.w.z + self.y.x * self.w.y * self.x.z + self.w.x * self.x.y * self.y.z) - (self.x.z * self.y.y * self.w.x + self.y.z * self.w.y * self.x.x + self.w.z * self.x.y * self.y.x)
        } else if column == 3 && row == 0 {
            (self.x.y * self.y.z * self.z.w + self.y.y * self.z.z * self.x.w + self.z.y * self.x.z * self.y.w) - (self.x.w * self.y.z * self.z.y + self.y.w * self.z.z * self.x.y + self.z.w * self.x.z * self.y.y)
        } else if column == 3 && row == 1 {
            (self.x.x * self.y.z * self.z.w + self.y.x * self.z.z * self.x.w + self.z.x * self.x.z * self.y.w) - (self.x.w * self.y.z * self.z.x + self.y.w * self.z.z * self.x.x + self.z.w * self.x.z * self.y.x)
        } else if column == 3 && row == 2 {
            (self.x.x * self.y.y * self.z.w + self.y.x * self.z.y * self.x.w + self.z.x * self.x.y * self.y.w) - (self.x.w * self.y.y * self.z.x + self.y.w * self.z.y * self.x.x + self.z.w * self.x.y * self.y.x)
        } else {
            (self.x.x * self.y.y * self.z.z + self.y.x * self.z.y * self.x.z + self.z.x * self.x.y * self.y.z) - (self.x.z * self.y.y * self.z.x + self.y.z * self.z.y * self.x.x + self.z.z * self.x.y * self.y.x)
        }
    }

    /// The cofactor: the minor, negated where `column + row` is odd.
    pub fn cofactor(&self, column: usize, row: usize) -> (d: i64)
        requires
            column < 4,
            row < 4,
            self.entries_within(),
        ensures
            (column + row) % 2 == 0 ==> d == self.minor_spec(column as int, row as int),
            (column + row) % 2 == 1 ==> d == -self.minor_spec(column as int, row as int),
    {
        let m = self.minor(column, row);
        if (column + row) % 2 == 0 {
            m
        } else {
            -m
        }
    }


    /// Every entry lies within `QUAD_LIMIT`, keeping the determinant
    /// expansion inside the machine range.
    pub open spec fn det_entries_within(&self) -> bool {
        &&& -QUAD_LIMIT <= self.x.x <= QUAD_LIMIT && -QUAD_LIMIT <= self.x.y <= QUAD_LIMIT
        &&& -QUAD_LIMIT <= self.x.z <= QUAD_LIMIT && -QUAD_LIMIT <= self.x.w <= QUAD_LIMIT
        &&& -QUAD_LIMIT <= self.y.x <= QUAD_LIMIT && -QUAD_LIMIT <= self.y.y <= QUAD_LIMIT
        &&& -QUAD_LIMIT <= self.y.z <= QUAD_LIMIT && -QUAD_LIMIT <= self.y.w <= QUAD_LIMIT
        &&& -QUAD_LIMIT <= self.z.x <= QUAD_LIMIT && -QUAD_LIMIT <= self.z.y <= QUAD_LIMIT
        &&& -QUAD_LIMIT <= self.z.z <= QUAD_LIMIT && -QUAD_LIMIT <= self.z.w <= QUAD_LIMIT
        &&& -QUAD_LIMIT <= self.w.x <= QUAD_LIMIT && -QUAD_LIMIT <= self.w.y <= QUAD_LIMIT
        &&& -QUAD_LIMIT <= self.w.z <= QUAD_LIMIT && -QUAD_LIMIT <= self.w.w <= QUAD_LIMIT
    }

    /// The determinant, by cofactor expansion along the first column.
    pub fn determinant(&self) -> (d: i64)
        requires
            self.det_entries_within(),
        ensures
            d == self.x.x * self.minor_spec(0, 0) - self.x.y * self.minor_spec(0, 1) + self.x.z
                * self.minor_spec(0, 2) - self.x.w * self.minor_spec(0, 3),
    {
        proof {
            crate::matrix::lemma_quad_product_bounds();
            assert(-0x180000000000 <= self.minor_spec(0, 0) <= 0x180000000000);
            assert(-0x180000000000 <= self.minor_spec(0, 1) <= 0x180000000000);
            assert(-0x180000000000 <= self.minor_spec(0, 2) <= 0x180000000000);
            assert(-0x180000000000 <= self.minor_spec(0, 3) <= 0x180000000000);
            assert forall|a: i64, m: int|
                -QUAD_LIMIT <= a <= QUAD_LIMIT && -0x180000000000 <= m <= 0x180000000000
                    implies -0x600000000000000 <= #[trigger] (a * m) <= 0x600000000000000 by {
                assert(-0x600000000000000 <= a * m <= 0x600000000000000) by (nonlinear_arith)
                    requires
                        -QUAD_LIMIT <= a <= QUAD_LIMIT,
                        -0x180000000000 <= m <= 0x180000000000,
                ;
            }
        }
        let m0 = self.minor(0, 0);
        let m1 = self.minor(0, 1);
        let m2 = self.minor(0, 2);
        let m3 = self.minor(0, 3);
        self.x.x * m0 - self.x.y * m1 + self.x.z * m2 - self.x.w * m3
    }
}

} // verus!

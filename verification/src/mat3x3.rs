//! A matrix with 3 columns and 3 rows, stored as 3 column
//! vectors over the toolkit's integer scalar.

use vstd::prelude::*;
use crate::matrix::PRODUCT_LIMIT;
use crate::vec3d::Vector3;

verus! {

/// A matrix with 3 columns and 3 rows.
#[derive(Debug, Clone, Copy, PartialEq, Eq, Structural)]
pub struct Matrix3x3 {
    /// Column 1 of the matrix.
    pub x: Vector3,
    /// Column 2 of the matrix.
    pub y: Vector3,
    /// Column 3 of the matrix.
    pub z: Vector3,
}

impl Matrix3x3 {
    /// Builds the matrix from its columns.
    pub fn new(x: Vector3, y: Vector3, z: Vector3) -> (m: Self)
        ensures
            m.x == x && m.y == y && m.z == z,
    {
        Self { x, y, z }
    }

    /// The all-zero matrix: the additive identity.
    pub fn empty() -> (m: Self)
        ensures
            m.x.x == 0,
            m.x.y == 0,
            m.x.z == 0,
            m.y.x == 0,
            m.y.y == 0,
            m.y.z == 0,
            m.z.x == 0,
            m.z.y == 0,
            m.z.z == 0,
    {
        Self { x: Vector3::new(0, 0, 0), y: Vector3::new(0, 0, 0), z: Vector3::new(0, 0, 0) }
    }

    /// A matrix holding `diagonal` on its main diagonal and zeros
    /// elsewhere.
    pub fn from_diagonal(diagonal: Vector3) -> (m: Self)
        ensures
            m.x.x == diagonal.x,
            m.x.y == 0,
            m.x.z == 0,
            m.y.x == 0,
            m.y.y == diagonal.y,
            m.y.z == 0,
            m.z.x == 0,
            m.z.y == 0,
            m.z.z == diagonal.z,
    {
        Self { x: Vector3::new(diagonal.x, 0, 0), y: Vector3::new(0, diagonal.y, 0), z: Vector3::new(0, 0, diagonal.z) }
    }

    /// Reads row `x` across all columns.
    pub fn get_x_row(&self) -> (row: Vector3)
        ensures
            row.x == self.x.x && row.y == self.y.x && row.z == self.z.x,
    {
        Vector3::new(self.x.x, self.y.x, self.z.x)
    }

    /// Reads row `y` across all columns.
    pub fn get_y_row(&self) -> (row: Vector3)
        ensures
            row.x == self.x.y && row.y == self.y.y && row.z == self.z.y,
    {
        Vector3::new(self.x.y, self.y.y, self.z.y)
    }

    /// Reads row `z` across all columns.
    pub fn get_z_row(&self) -> (row: Vector3)
        ensures
            row.x == self.x.z && row.y == self.y.z && row.z == self.z.z,
    {
        Vector3::new(self.x.z, self.y.z, self.z.z)
    }

    /// Writes row `x` across all columns; every other entry
    /// keeps its value.
    #[inline]
    pub fn set_x_row(&mut self, row: Vector3)
        ensures
            final(self).x.x == row.x,
            final(self).y.x == row.y,
            final(self).z.x == row.z,
            final(self).x.y == old(self).x.y,
            final(self).x.z == old(self).x.z,
            final(self).y.y == old(self).y.y,
            final(self).y.z == old(self).y.z,
            final(self).z.y == old(self).z.y,
            final(self).z.z == old(self).z.z,
    {
        self.x.x = row.x;
        self.y.x = row.y;
        self.z.x = row.z;
    }

    /// Writes row `y` across all columns; every other entry
    /// keeps its value.
    #[inline]
    pub fn set_y_row(&mut self, row: Vector3)
        ensures
            final(self).x.y == row.x,
            final(self).y.y == row.y,
            final(self).z.y == row.z,
            final(self).x.x == old(self).x.x,
            final(self).x.z == old(self).x.z,
            final(self).y.x == old(self).y.x,
            final(self).y.z == old(self).y.z,
            final(self).z.x == old(self).z.x,
            final(self).z.z == old(self).z.z,
    {
        self.x.y = row.x;
        self.y.y = row.y;
        self.z.y = row.z;
    }

    /// Writes row `z` across all columns; every other entry
    /// keeps its value.
    #[inline]
    pub fn set_z_row(&mut self, row: Vector3)
        ensures
            final(self).x.z == row.x,
            final(self).y.z == row.y,
            final(self).z.z == row.z,
            final(self).x.x == old(self).x.x,
            final(self).x.y == old(self).x.y,
            final(self).y.x == old(self).y.x,
            final(self).y.y == old(self).y.y,
            final(self).z.x == old(self).z.x,
            final(self).z.y == old(self).z.y,
    {
        self.x.z = row.x;
        self.y.z = row.y;
        self.z.z = row.z;
    }

    /// The transpose: rows become columns.
    pub fn transpose(&self) -> (m: Matrix3x3)
        ensures
            m.x.x == self.x.x,
            m.y.x == self.x.y,
            m.z.x == self.x.z,
            m.x.y == self.y.x,
            m.y.y == self.y.y,
            m.z.y == self.y.z,
            m.x.z == self.z.x,
            m.y.z == self.z.y,
            m.z.z == self.z.z,
    {
        Matrix3x3::new(
            Vector3::new(self.x.x, self.y.x, self.z.x),
            Vector3::new(self.x.y, self.y.y, self.z.y),
            Vector3::new(self.x.z, self.y.z, self.z.z),
        )
    }

    /// Entry-wise sum.
    pub fn add(self, rhs: Self) -> (m: Self)
        requires
            i64::MIN <= self.x.x + rhs.x.x <= i64::MAX,
            i64::MIN <= self.x.y + rhs.x.y <= i64::MAX,
            i64::MIN <= self.x.z + rhs.x.z <= i64::MAX,
            i64::MIN <= self.y.x + rhs.y.x <= i64::MAX,
            i64::MIN <= self.y.y + rhs.y.y <= i64::MAX,
            i64::MIN <= self.y.z + rhs.y.z <= i64::MAX,
            i64::MIN <= self.z.x + rhs.z.x <= i64::MAX,
            i64::MIN <= self.z.y + rhs.z.y <= i64::MAX,
            i64::MIN <= self.z.z + rhs.z.z <= i64::MAX,
        ensures
            m.x.x == self.x.x + rhs.x.x,
            m.x.y == self.x.y + rhs.x.y,
            m.x.z == self.x.z + rhs.x.z,
            m.y.x == self.y.x + rhs.y.x,
            m.y.y == self.y.y + rhs.y.y,
            m.y.z == self.y.z + rhs.y.z,
            m.z.x == self.z.x + rhs.z.x,
            m.z.y == self.z.y + rhs.z.y,
            m.z.z == self.z.z + rhs.z.z,
    {
        Self::new(
            Vector3::new(self.x.x + rhs.x.x, self.x.y + rhs.x.y, self.x.z + rhs.x.z),
            Vector3::new(self.y.x + rhs.y.x, self.y.y + rhs.y.y, self.y.z + rhs.y.z),
            Vector3::new(self.z.x + rhs.z.x, self.z.y + rhs.z.y, self.z.z + rhs.z.z),
        )
    }

    /// Entry-wise difference.
    pub fn sub(self, rhs: Self) -> (m: Self)
        requires
            i64::MIN <= self.x.x - rhs.x.x <= i64::MAX,
            i64::MIN <= self.x.y - rhs.x.y <= i64::MAX,
            i64::MIN <= self.x.z - rhs.x.z <= i64::MAX,
            i64::MIN <= self.y.x - rhs.y.x <= i64::MAX,
            i64::MIN <= self.y.y - rhs.y.y <= i64::MAX,
            i64::MIN <= self.y.z - rhs.y.z <= i64::MAX,
            i64::MIN <= self.z.x - rhs.z.x <= i64::MAX,
            i64::MIN <= self.z.y - rhs.z.y <= i64::MAX,
            i64::MIN <= self.z.z - rhs.z.z <= i64::MAX,
        ensures
            m.x.x == self.x.x - rhs.x.x,
            m.x.y == self.x.y - rhs.x.y,
            m.x.z == self.x.z - rhs.x.z,
            m.y.x == self.y.x - rhs.y.x,
            m.y.y == self.y.y - rhs.y.y,
            m.y.z == self.y.z - rhs.y.z,
            m.z.x == self.z.x - rhs.z.x,
            m.z.y == self.z.y - rhs.z.y,
            m.z.z == self.z.z - rhs.z.z,
    {
        Self::new(
            Vector3::new(self.x.x - rhs.x.x, self.x.y - rhs.x.y, self.x.z - rhs.x.z),
            Vector3::new(self.y.x - rhs.y.x, self.y.y - rhs.y.y, self.y.z - rhs.y.z),
            Vector3::new(self.z.x - rhs.z.x, self.z.y - rhs.z.y, self.z.z - rhs.z.z),
        )
    }

    /// Whether this is the multiplicative identity matrix.
    pub fn is_identity(&self) -> (r: bool)
        ensures
            r == (self.x.x == 1 && self.x.y == 0 && self.x.z == 0 && self.y.x == 0 && self.y.y == 1 && self.y.z == 0 && self.z.x == 0 && self.z.y == 0 && self.z.z == 1),
    {
        self.x.x == 1
            && self.x.y == 0
            && self.x.z == 0
            && self.y.x == 0
            && self.y.y == 1
            && self.y.z == 0
            && self.z.x == 0
            && self.z.y == 0
            && self.z.z == 1
    }
    /// The determinant, by the rule of Sarrus.
    pub fn determinant(&self) -> (d: i64)
        requires
            i64::MIN <= self.x.x * self.y.y <= i64::MAX,
            i64::MIN <= self.y.x * self.z.y <= i64::MAX,
            i64::MIN <= self.z.x * self.x.y <= i64::MAX,
            i64::MIN <= self.x.z * self.y.y <= i64::MAX,
            i64::MIN <= self.y.z * self.z.y <= i64::MAX,
            i64::MIN <= self.z.z * self.x.y <= i64::MAX,
            i64::MIN <= self.x.x * self.y.y * self.z.z <= i64::MAX,
            i64::MIN <= self.y.x * self.z.y * self.x.z <= i64::MAX,
            i64::MIN <= self.z.x * self.x.y * self.y.z <= i64::MAX,
            i64::MIN <= self.x.z * self.y.y * self.z.x <= i64::MAX,
            i64::MIN <= self.y.z * self.z.y * self.x.x <= i64::MAX,
            i64::MIN <= self.z.z * self.x.y * self.y.x <= i64::MAX,
            i64::MIN <= self.x.x * self.y.y * self.z.z + self.y.x * self.z.y * self.x.z <= i64::MAX,
            i64::MIN <= self.x.x * self.y.y * self.z.z + self.y.x * self.z.y * self.x.z + self.z.x * self.x.y * self.y.z <= i64::MAX,
            i64::MIN <= self.x.z * self.y.y * self.z.x + self.y.z * self.z.y * self.x.x <= i64::MAX,
            i64::MIN <= self.x.z * self.y.y * self.z.x + self.y.z * self.z.y * self.x.x + self.z.z * self.x.y * self.y.x <= i64::MAX,
            i64::MIN <= (self.x.x * self.y.y * self.z.z + self.y.x * self.z.y * self.x.z + self.z.x * self.x.y * self.y.z) - (self.x.z * self.y.y * self.z.x + self.y.z * self.z.y * self.x.x + self.z.z * self.x.y * self.y.x) <= i64::MAX,
        ensures
            d == (self.x.x * self.y.y * self.z.z + self.y.x * self.z.y * self.x.z + self.z.x * self.x.y * self.y.z) - (self.x.z * self.y.y * self.z.x + self.y.z * self.z.y * self.x.x + self.z.z * self.x.y * self.y.x),
    {
        (self.x.x * self.y.y * self.z.z + self.y.x * self.z.y * self.x.z + self.z.x * self.x.y * self.y.z) - (self.x.z * self.y.y * self.z.x + self.y.z * self.z.y * self.x.x + self.z.z * self.x.y * self.y.x)
    }


    /// Every entry lies within `PRODUCT_LIMIT`, keeping minor
    /// arithmetic inside the machine range.
    pub open spec fn entries_within(&self) -> bool {
        -PRODUCT_LIMIT <= self.x.x <= PRODUCT_LIMIT && -PRODUCT_LIMIT <= self.x.y <= PRODUCT_LIMIT && -PRODUCT_LIMIT <= self.x.z <= PRODUCT_LIMIT && -PRODUCT_LIMIT <= self.y.x <= PRODUCT_LIMIT && -PRODUCT_LIMIT <= self.y.y <= PRODUCT_LIMIT && -PRODUCT_LIMIT <= self.y.z <= PRODUCT_LIMIT && -PRODUCT_LIMIT <= self.z.x <= PRODUCT_LIMIT && -PRODUCT_LIMIT <= self.z.y <= PRODUCT_LIMIT && -PRODUCT_LIMIT <= self.z.z <= PRODUCT_LIMIT
    }

    /// The minor of the entry at `column`, `row`: the determinant of
    /// what remains after deleting that column and that row, as a
    /// specification-level value.
    pub open spec fn minor_spec(&self, column: int, row: int) -> int {
        if column == 0 && row == 0 {
            self.y.y * self.z.z - self.y.z * self.z.y
        } else if column == 0 && row == 1 {
            self.y.x * self.z.z - self.y.z * self.z.x
        } else if column == 0 && row == 2 {
            self.y.x * self.z.y - self.y.y * self.z.x
        } else if column == 1 && row == 0 {
            self.x.y * self.z.z - self.x.z * self.z.y
        } else if column == 1 && row == 1 {
            self.x.x * self.z.z - self.x.z * self.z.x
        } else if column == 1 && row == 2 {
            self.x.x * self.z.y - self.x.y * self.z.x
        } else if column == 2 && row == 0 {
            self.x.y * self.y.z - self.x.z * self.y.y
        } else if column == 2 && row == 1 {
            self.x.x * self.y.z - self.x.z * self.y.x
        } else {
            self.x.x * self.y.y - self.x.y * self.y.x
        }
    }

    /// Returns the minor of the entry at `column`, `row`.
    pub fn minor(&self, column: usize, row: usize) -> (d: i64)
        requires
            column < 3,
            row < 3,
            self.entries_within(),
        ensures
            d == self.minor_spec(column as int, row as int),
            -0x2000000000000000 <= d <= 0x2000000000000000,
    {
        proof {
            crate::matrix::lemma_pair_product_bounds();
        }
        if column == 0 && row == 0 {
            self.y.y * self.z.z - self.y.z * self.z.y
        } else if column == 0 && row == 1 {
            self.y.x * self.z.z - self.y.z * self.z.x
        } else if column == 0 && row == 2 {
            self.y.x * self.z.y - self.y.y * self.z.x
        } else if column == 1 && row == 0 {
            self.x.y * self.z.z - self.x.z * self.z.y
        } else if column == 1 && row == 1 {
            self.x.x * self.z.z - self.x.z * self.z.x
        } else if column == 1 && row == 2 {
            self.x.x * self.z.y - self.x.y * self.z.x
        } else if column == 2 && row == 0 {
            self.x.y * self.y.z - self.x.z * self.y.y
        } else if column == 2 && row == 1 {
            self.x.x * self.y.z - self.x.z * self.y.x
        } else {
            self.x.x * self.y.y - self.x.y * self.y.x
        }
    }

    /// The cofactor: the minor, negated where `column + row` is odd.
    pub fn cofactor(&self, column: usize, row: usize) -> (d: i64)
        requires
            column < 3,
            row < 3,
            self.entries_within(),
        ensures
            (column + row) % 2 == 0 ==> d == self.minor_spec(column as int, row as int),
            (column + row) % 2 == 1 ==> d == -self.minor_spec(column as int, row as int),
    {
        let m = self.minor(column, row);
        if (column + row) % 2 == 0 {
            m
        } else {
            -m
        }
    }

}

} // verus!

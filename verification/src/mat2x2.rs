//! A matrix with 2 columns and 2 rows, stored as 2 column
//! vectors over the toolkit's integer scalar.

use vstd::prelude::*;
use crate::vec2d::Vector2;

verus! {

/// A matrix with 2 columns and 2 rows.
#[derive(Debug, Clone, Copy, PartialEq, Eq, Structural)]
pub struct Matrix2x2 {
    /// Column 1 of the matrix.
    pub x: Vector2,
    /// Column 2 of the matrix.
    pub y: Vector2,
}

impl Matrix2x2 {
    /// Builds the matrix from its columns.
    pub fn new(x: Vector2, y: Vector2) -> (m: Self)
        ensures
            m.x == x && m.y == y,
    {
        Self { x, y }
    }

    /// The all-zero matrix: the additive identity.
    pub fn empty() -> (m: Self)
        ensures
            m.x.x == 0,
            m.x.y == 0,
            m.y.x == 0,
            m.y.y == 0,
    {
        Self { x: Vector2::new(0, 0), y: Vector2::new(0, 0) }
    }

    /// A matrix holding `diagonal` on its main diagonal and zeros
    /// elsewhere.
    pub fn from_diagonal(diagonal: Vector2) -> (m: Self)
        ensures
            m.x.x == diagonal.x,
            m.x.y == 0,
            m.y.x == 0,
            m.y.y == diagonal.y,
    {
        Self { x: Vector2::new(diagonal.x, 0), y: Vector2::new(0, diagonal.y) }
    }

    /// Writes row `x` across all columns; every other entry
    /// keeps its value.
    #[inline]
    pub fn set_x_row(&mut self, row: Vector2)
        ensures
            final(self).x.x == row.x,
            final(self).y.x == row.y,
            final(self).x.y == old(self).x.y,
            final(self).y.y == old(self).y.y,
    {
        self.x.x = row.x;
        self.y.x = row.y;
    }

    /// Writes row `y` across all columns; every other entry
    /// keeps its value.
    #[inline]
    pub fn set_y_row(&mut self, row: Vector2)
        ensures
            final(self).x.y == row.x,
            final(self).y.y == row.y,
            final(self).x.x == old(self).x.x,
            final(self).y.x == old(self).y.x,
    {
        self.x.y = row.x;
        self.y.y = row.y;
    }

    /// The transpose: rows become columns.
    pub fn transpose(&self) -> (m: Matrix2x2)
        ensures
            m.x.x == self.x.x,
            m.y.x == self.x.y,
            m.x.y == self.y.x,
            m.y.y == self.y.y,
    {
        Matrix2x2::new(
            Vector2::new(self.x.x, self.y.x),
            Vector2::new(self.x.y, self.y.y),
        )
    }

    /// Entry-wise sum.
    pub fn add(self, rhs: Self) -> (m: Self)
        requires
            i64::MIN <= self.x.x + rhs.x.x <= i64::MAX,
            i64::MIN <= self.x.y + rhs.x.y <= i64::MAX,
            i64::MIN <= self.y.x + rhs.y.x <= i64::MAX,
            i64::MIN <= self.y.y + rhs.y.y <= i64::MAX,
        ensures
            m.x.x == self.x.x + rhs.x.x,
            m.x.y == self.x.y + rhs.x.y,
            m.y.x == self.y.x + rhs.y.x,
            m.y.y == self.y.y + rhs.y.y,
    {
        Self::new(
            Vector2::new(self.x.x + rhs.x.x, self.x.y + rhs.x.y),
            Vector2::new(self.y.x + rhs.y.x, self.y.y + rhs.y.y),
        )
    }

    /// Entry-wise difference.
    pub fn sub(self, rhs: Self) -> (m: Self)
        requires
            i64::MIN <= self.x.x - rhs.x.x <= i64::MAX,
            i64::MIN <= self.x.y - rhs.x.y <= i64::MAX,
            i64::MIN <= self.y.x - rhs.y.x <= i64::MAX,
            i64::MIN <= self.y.y - rhs.y.y <= i64::MAX,
        ensures
            m.x.x == self.x.x - rhs.x.x,
            m.x.y == self.x.y - rhs.x.y,
            m.y.x == self.y.x - rhs.y.x,
            m.y.y == self.y.y - rhs.y.y,
    {
        Self::new(
            Vector2::new(self.x.x - rhs.x.x, self.x.y - rhs.x.y),
            Vector2::new(self.y.x - rhs.y.x, self.y.y - rhs.y.y),
        )
    }

    /// Whether this is the multiplicative identity matrix.
    pub fn is_identity(&self) -> (r: bool)
        ensures
            r == (self.x.x == 1 && self.x.y == 0 && self.y.x == 0 && self.y.y == 1),
    {
        self.x.x == 1
            && self.x.y == 0
            && self.y.x == 0
            && self.y.y == 1
    }

    /// The determinant.
    pub fn determinant(&self) -> (d: i64)
        requires
            i64::MIN <= self.x.x * self.y.y <= i64::MAX,
            i64::MIN <= self.x.y * self.y.x <= i64::MAX,
            i64::MIN <= self.x.x * self.y.y - self.x.y * self.y.x <= i64::MAX,
        ensures
            d == self.x.x * self.y.y - self.x.y * self.y.x,
    {
        self.x.x * self.y.y - self.x.y * self.y.x
    }

    /// The minor of an entry: what remains after deleting its column and
    /// its row.
    pub open spec fn minor_spec(&self, column: int, row: int) -> i64 {
        if column == 0 && row == 0 {
            self.y.y
        } else if column == 0 && row == 1 {
            self.y.x
        } else if column == 1 && row == 0 {
            self.x.y
        } else {
            self.x.x
        }
    }

    /// Returns the minor of the entry at `column`, `row`.
    pub fn minor(&self, column: usize, row: usize) -> (d: i64)
        requires
            column < 2,
            row < 2,
        ensures
            d == self.minor_spec(column as int, row as int),
    {
        if column == 0 && row == 0 {
            self.y.y
        } else if column == 0 && row == 1 {
            self.y.x
        } else if column == 1 && row == 0 {
            self.x.y
        } else {
            self.x.x
        }
    }

    /// The cofactor: the minor, negated where `column + row` is odd.
    pub fn cofactor(&self, column: usize, row: usize) -> (d: i64)
        requires
            column < 2,
            row < 2,
            self.x.x > i64::MIN && self.x.y > i64::MIN,
            self.y.x > i64::MIN && self.y.y > i64::MIN,
        ensures
            column + row == 1 ==> d == -self.minor_spec(column as int, row as int),
            column + row != 1 ==> d == self.minor_spec(column as int, row as int),
    {
        if (column + row) % 2 == 0 {
            self.minor(column, row)
        } else {
            -self.minor(column, row)
        }
    }

    /// The matrix of all cofactors.
    pub fn cofactor_matrix(&self) -> (m: Self)
        requires
            self.x.x > i64::MIN && self.x.y > i64::MIN,
            self.y.x > i64::MIN && self.y.y > i64::MIN,
        ensures
            m.x.x == self.y.y,
            m.x.y == -(self.y.x as int),
            m.y.x == -(self.x.y as int),
            m.y.y == self.x.x,
    {
        Self::new(Vector2::new(self.y.y, -self.y.x), Vector2::new(-self.x.y, self.x.x))
    }
}

} // verus!

//! Capability traits for matrices: transposition, the square-matrix
//! determinant family, and solving the linear system an `(n+1) x n`
//! matrix represents.

use vstd::prelude::*;
use crate::algebra::Semimodule;
use crate::properties::{Addition, Multiplication};

verus! {

/// A rectangular matrix over a module of column vectors.
pub trait Matrix {
    /// The column vector type.
    type Vector: Semimodule<Multiplication, Addition>;

    /// The matrix type with rows and columns exchanged.
    type TransposeMatrix;

    /// Returns the transpose.
    fn transpose(&self) -> Self::TransposeMatrix;
}

/// A square matrix: its transpose is itself, and it has the determinant
/// family of operations.
pub trait SquareMatrix: Matrix<TransposeMatrix = Self> + Sized {
    /// The determinant left after deleting `column` and `row`.
    fn minor(&self, column: usize, row: usize) -> <Self::Vector as Semimodule<
        Multiplication,
        Addition,
    >>::Scalar;

    /// The minor with the checkerboard sign applied.
    fn cofactor(&self, column: usize, row: usize) -> <Self::Vector as Semimodule<
        Multiplication,
        Addition,
    >>::Scalar;

    /// The matrix of all cofactors.
    fn cofactor_matrix(&self) -> Self;

    /// The signed volume scale of the matrix.
    fn determinant(&self) -> <Self::Vector as Semimodule<Multiplication, Addition>>::Scalar;
}

/// A matrix whose scalars form a semiring.
pub trait MatrixSemiring: Matrix {

}

/// A matrix whose scalars form a ring.
pub trait MatrixRing: Matrix {

}

/// A structure representing a family of equations, such as an
/// `(n+1) x n` matrix, that can be brought to solved form.
pub trait SolveEquations: Sized {
    /// Returns the solved system, or nothing when it is degenerate.
    fn solve_system(&self) -> Option<Self>;
}

/// The entry bound under which a 2 x 2 determinant cannot overflow.
pub const PRODUCT_LIMIT: i64 = 0x40000000;

/// The entry bound under which a 3 x 3 determinant cannot overflow.
pub const TRIPLE_LIMIT: i64 = 0x80000;

/// Products of two entries within `PRODUCT_LIMIT` stay far from the
/// integer boundary.
pub proof fn lemma_pair_product_bounds()
    ensures
        forall|a: i64, b: i64|
            -PRODUCT_LIMIT <= a <= PRODUCT_LIMIT && -PRODUCT_LIMIT <= b <= PRODUCT_LIMIT
                ==> -0x1000000000000000 <= #[trigger] (a * b) <= 0x1000000000000000,
{
    assert forall|a: i64, b: i64|
        -PRODUCT_LIMIT <= a <= PRODUCT_LIMIT && -PRODUCT_LIMIT <= b <= PRODUCT_LIMIT
            implies -0x1000000000000000 <= #[trigger] (a * b) <= 0x1000000000000000 by {
        assert(-0x1000000000000000 <= a * b <= 0x1000000000000000) by (nonlinear_arith)
            requires
                -PRODUCT_LIMIT <= a <= PRODUCT_LIMIT,
                -PRODUCT_LIMIT <= b <= PRODUCT_LIMIT,
        ;
    }
}

/// Products of two and of three entries within `TRIPLE_LIMIT` stay far
/// from the integer boundary.
pub proof fn lemma_triple_product_bounds()
    ensures
        forall|a: i64, b: i64|
            -TRIPLE_LIMIT <= a <= TRIPLE_LIMIT && -TRIPLE_LIMIT <= b <= TRIPLE_LIMIT
                ==> -0x4000000000 <= #[trigger] (a * b) <= 0x4000000000,
        forall|a: i64, b: i64, c: i64|
            -TRIPLE_LIMIT <= a <= TRIPLE_LIMIT && -TRIPLE_LIMIT <= b <= TRIPLE_LIMIT
                && -TRIPLE_LIMIT <= c <= TRIPLE_LIMIT ==> -0x200000000000000 <= #[trigger] (a * b
                * c) <= 0x200000000000000,
{
    assert forall|a: i64, b: i64|
        -TRIPLE_LIMIT <= a <= TRIPLE_LIMIT && -TRIPLE_LIMIT <= b <= TRIPLE_LIMIT
            implies -0x4000000000 <= #[trigger] (a * b) <= 0x4000000000 by {
        assert(-0x4000000000 <= a * b <= 0x4000000000) by (nonlinear_arith)
            requires
                -TRIPLE_LIMIT <= a <= TRIPLE_LIMIT,
                -TRIPLE_LIMIT <= b <= TRIPLE_LIMIT,
        ;
    }
    assert forall|a: i64, b: i64, c: i64|
        -TRIPLE_LIMIT <= a <= TRIPLE_LIMIT && -TRIPLE_LIMIT <= b <= TRIPLE_LIMIT
            && -TRIPLE_LIMIT <= c <= TRIPLE_LIMIT implies -0x200000000000000 <= #[trigger] (a * b
            * c) <= 0x200000000000000 by {
        assert(-0x200000000000000 <= a * b * c <= 0x200000000000000) by (nonlinear_arith)
            requires
                -TRIPLE_LIMIT <= a <= TRIPLE_LIMIT,
                -TRIPLE_LIMIT <= b <= TRIPLE_LIMIT,
                -TRIPLE_LIMIT <= c <= TRIPLE_LIMIT,
        ;
    }
}

/// The entry bound under which a 4 x 4 determinant cannot overflow.
pub const QUAD_LIMIT: i64 = 0x4000;

/// Products of two and of three entries within `QUAD_LIMIT` stay far
/// from the integer boundary.
pub proof fn lemma_quad_product_bounds()
    ensures
        forall|a: i64, b: i64|
            -QUAD_LIMIT <= a <= QUAD_LIMIT && -QUAD_LIMIT <= b <= QUAD_LIMIT
                ==> -0x10000000 <= #[trigger] (a * b) <= 0x10000000,
        forall|a: i64, b: i64, c: i64|
            -QUAD_LIMIT <= a <= QUAD_LIMIT && -QUAD_LIMIT <= b <= QUAD_LIMIT && -QUAD_LIMIT <= c
                <= QUAD_LIMIT ==> -0x40000000000 <= #[trigger] (a * b * c) <= 0x40000000000,
{
    assert forall|a: i64, b: i64|
        -QUAD_LIMIT <= a <= QUAD_LIMIT && -QUAD_LIMIT <= b <= QUAD_LIMIT
            implies -0x10000000 <= #[trigger] (a * b) <= 0x10000000 by {
        assert(-0x10000000 <= a * b <= 0x10000000) by (nonlinear_arith)
            requires
                -QUAD_LIMIT <= a <= QUAD_LIMIT,
                -QUAD_LIMIT <= b <= QUAD_LIMIT,
        ;
    }
    assert forall|a: i64, b: i64, c: i64|
        -QUAD_LIMIT <= a <= QUAD_LIMIT && -QUAD_LIMIT <= b <= QUAD_LIMIT && -QUAD_LIMIT <= c
            <= QUAD_LIMIT implies -0x40000000000 <= #[trigger] (a * b * c) <= 0x40000000000 by {
        assert(-0x40000000000 <= a * b * c <= 0x40000000000) by (nonlinear_arith)
            requires
                -QUAD_LIMIT <= a <= QUAD_LIMIT,
                -QUAD_LIMIT <= b <= QUAD_LIMIT,
                -QUAD_LIMIT <= c <= QUAD_LIMIT,
        ;
    }
}

impl<M: Matrix> MatrixSemiring for M {

}

impl<M: Matrix> MatrixRing for M {

}

impl Matrix for crate::mat2x2::Matrix2x2 {
    type Vector = crate::vec2d::Vector2;

    type TransposeMatrix = Self;

    fn transpose(&self) -> Self {
        crate::mat2x2::Matrix2x2::transpose(self)
    }
}

impl Matrix for crate::mat3x3::Matrix3x3 {
    type Vector = crate::vec3d::Vector3;

    type TransposeMatrix = Self;

    fn transpose(&self) -> Self {
        crate::mat3x3::Matrix3x3::transpose(self)
    }
}

impl Matrix for crate::mat4x4::Matrix4x4 {
    type Vector = crate::vec4d::Vector4;

    type TransposeMatrix = Self;

    fn transpose(&self) -> Self {
        crate::mat4x4::Matrix4x4::transpose(self)
    }
}

impl Matrix for crate::mat2x3::Matrix2x3 {
    type Vector = crate::vec3d::Vector3;

    type TransposeMatrix = crate::mat3x2::Matrix3x2;

    fn transpose(&self) -> crate::mat3x2::Matrix3x2 {
        crate::mat2x3::Matrix2x3::transpose(self)
    }
}

impl Matrix for crate::mat3x2::Matrix3x2 {
    type Vector = crate::vec2d::Vector2;

    type TransposeMatrix = crate::mat2x3::Matrix2x3;

    fn transpose(&self) -> crate::mat2x3::Matrix2x3 {
        crate::mat3x2::Matrix3x2::transpose(self)
    }
}

impl Matrix for crate::mat3x4::Matrix3x4 {
    type Vector = crate::vec4d::Vector4;

    type TransposeMatrix = crate::mat4x3::Matrix4x3;

    fn transpose(&self) -> crate::mat4x3::Matrix4x3 {
        crate::mat3x4::Matrix3x4::transpose(self)
    }
}

impl Matrix for crate::mat4x3::Matrix4x3 {
    type Vector = crate::vec3d::Vector3;

    type TransposeMatrix = crate::mat3x4::Matrix3x4;

    fn transpose(&self) -> crate::mat3x4::Matrix3x4 {
        crate::mat4x3::Matrix4x3::transpose(self)
    }
}

} // verus!

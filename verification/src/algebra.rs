//! The tower of algebraic structures, from groupoids to vector spaces.
//! Each level is a set closed under operators with the properties the
//! level names; the only operation, `Groupoid::op`, carries an exact
//! contract, and everything above is assembled by blanket
//! implementations exactly as the property traits are declared.

use vstd::prelude::*;
use crate::properties::{
    Addition, AssociativeOver, ClosedUnder, CommutativeOver, Distributive, Identity, Inverse,
    Multiplication, Operator, Subtraction,
};
use crate::vec2d::Vector2;

verus! {

/// A set closed under an operator, with the operation itself.
pub trait Groupoid<Op: Operator>: ClosedUnder<Op> + Copy + Sized {
    /// Whether applying the operator to these two values stays in the
    /// machine's range.
    spec fn op_ok(self, rhs: Self) -> bool;

    /// The result of the operator, as a specification-level value.
    spec fn op_spec(self, rhs: Self) -> Self;

    /// Applies the operator.
    fn op(&self, rhs: &Self) -> (r: Self)
        requires
            self.op_ok(*rhs),
        ensures
            r == self.op_spec(*rhs),
    ;
}

/// A groupoid whose operator is associative.
pub trait Semigroup<Op: Operator>: Groupoid<Op> + AssociativeOver<Op> {

}

impl<Op: Operator, T: Groupoid<Op> + AssociativeOver<Op>> Semigroup<Op> for T {

}

/// A semigroup whose operator has an identity.
pub trait Monoid<Op: Operator>: Semigroup<Op> + Identity<Op> {

}

impl<Op: Operator, T: Semigroup<Op> + Identity<Op>> Monoid<Op> for T {

}

/// A monoid whose operator is commutative.
pub trait CommutativeMonoid<Op: Operator>: Monoid<Op> + CommutativeOver<Op> {

}

impl<Op: Operator, T: Monoid<Op> + CommutativeOver<Op>> CommutativeMonoid<Op> for T {

}

/// A monoid whose operator has an inverse for every value.
pub trait Group<Op: Operator>: Monoid<Op> + Inverse<Op> {

}

impl<Op: Operator, T: Monoid<Op> + Inverse<Op>> Group<Op> for T {

}

/// A group whose operator is commutative.
pub trait AbelianGroup<Op: Operator>: Group<Op> + CommutativeOver<Op> {

}

impl<Op: Operator, T: Group<Op> + CommutativeOver<Op>> AbelianGroup<Op> for T {

}

/// A commutative monoid with a second monoid operator distributing over
/// the first.
pub trait Semiring<DistributiveOp: Operator = Multiplication, Op: Operator = Addition>:
    CommutativeMonoid<Op> + Monoid<DistributiveOp> + Distributive<DistributiveOp, Op> {

}

impl<
    DistributiveOp: Operator,
    Op: Operator,
    T: CommutativeMonoid<Op> + Monoid<DistributiveOp> + Distributive<DistributiveOp, Op>,
> Semiring<DistributiveOp, Op> for T {

}

/// An abelian group with a second semigroup operator distributing over
/// the first: a ring without a unit.
pub trait Rong<DistributiveOp: Operator = Multiplication, Op: Operator = Addition>:
    AbelianGroup<Op> + Semigroup<DistributiveOp> + Distributive<DistributiveOp, Op> {

}

impl<
    DistributiveOp: Operator,
    Op: Operator,
    T: AbelianGroup<Op> + Semigroup<DistributiveOp> + Distributive<DistributiveOp, Op>,
> Rong<DistributiveOp, Op> for T {

}

/// A rong whose second operator has an identity.
pub trait Ring<DistributiveOp: Operator = Multiplication, Op: Operator = Addition>:
    Rong<DistributiveOp, Op> + Identity<DistributiveOp> {

}

impl<
    DistributiveOp: Operator,
    Op: Operator,
    T: Rong<DistributiveOp, Op> + Identity<DistributiveOp>,
> Ring<DistributiveOp, Op> for T {

}

/// A ring whose second operator is commutative.
pub trait CommutativeRing<DistributiveOp: Operator = Multiplication, Op: Operator = Addition>:
    Ring<DistributiveOp, Op> + CommutativeOver<DistributiveOp> {

}

impl<
    DistributiveOp: Operator,
    Op: Operator,
    T: Ring<DistributiveOp, Op> + CommutativeOver<DistributiveOp>,
> CommutativeRing<DistributiveOp, Op> for T {

}

/// A commutative ring whose second operator has inverses: the space of
/// ordinary arithmetic.
pub trait Field<DistributiveOp: Operator = Multiplication, Op: Operator = Addition>:
    CommutativeRing<DistributiveOp, Op> + Inverse<DistributiveOp> {

}

impl<
    DistributiveOp: Operator,
    Op: Operator,
    T: CommutativeRing<DistributiveOp, Op> + Inverse<DistributiveOp>,
> Field<DistributiveOp, Op> for T {

}

/// An n-dimensional tuple of scalars from a semiring, with a scalar
/// multiplication that distributes over the tuple.
pub trait Semimodule<DistributiveOp: Operator = Multiplication, Op: Operator = Addition>: Sized {
    /// The scalar set.
    type Scalar: Semiring<DistributiveOp, Op>;

    /// Whether scaling this value stays in the machine's range.
    spec fn smul_ok(self, rhs: Self::Scalar) -> bool;

    /// The scaled value, as a specification-level value.
    spec fn smul_spec(self, rhs: Self::Scalar) -> Self;

    /// Scales every component by the scalar.
    fn scalar_multiplication(&self, rhs: Self::Scalar) -> (r: Self)
        requires
            self.smul_ok(rhs),
        ensures
            r == self.smul_spec(rhs),
    ;
}

/// A semimodule whose scalars form a ring.
pub trait Module<DistributiveOp: Operator = Multiplication, Op: Operator = Addition>:
    Semimodule<DistributiveOp, Op> where Self::Scalar: Ring<DistributiveOp, Op> {

}

impl<DistributiveOp: Operator, Op: Operator, T: Semimodule<DistributiveOp, Op>> Module<
    DistributiveOp,
    Op,
> for T where T::Scalar: Ring<DistributiveOp, Op> {

}

/// A module whose scalars form a field: the space of linear algebra.
pub trait VectorSpace<DistributiveOp: Operator, Op: Operator>: Semimodule<DistributiveOp, Op> where
    Self::Scalar: Field<DistributiveOp, Op> {

}

impl<DistributiveOp: Operator, Op: Operator, T: Semimodule<DistributiveOp, Op>> VectorSpace<
    DistributiveOp,
    Op,
> for T where T::Scalar: Field<DistributiveOp, Op> {

}

/// A scalar set with the whole of ordinary arithmetic on it.
pub trait BasicField: Semiring<Multiplication, Addition> + Sized + Copy {

}

impl<T: Semiring<Multiplication, Addition> + Sized + Copy> BasicField for T {

}

impl Groupoid<Addition> for i64 {
    open spec fn op_ok(self, rhs: i64) -> bool {
        i64::MIN <= self + rhs <= i64::MAX
    }

    open spec fn op_spec(self, rhs: i64) -> i64 {
        (self + rhs) as i64
    }

    fn op(&self, rhs: &i64) -> (r: i64) {
        *self + *rhs
    }
}

impl Groupoid<Subtraction> for i64 {
    open spec fn op_ok(self, rhs: i64) -> bool {
        i64::MIN <= self - rhs <= i64::MAX
    }

    open spec fn op_spec(self, rhs: i64) -> i64 {
        (self - rhs) as i64
    }

    fn op(&self, rhs: &i64) -> (r: i64) {
        *self - *rhs
    }
}

impl Groupoid<Multiplication> for i64 {
    open spec fn op_ok(self, rhs: i64) -> bool {
        i64::MIN <= self * rhs <= i64::MAX
    }

    open spec fn op_spec(self, rhs: i64) -> i64 {
        (self * rhs) as i64
    }

    fn op(&self, rhs: &i64) -> (r: i64) {
        *self * *rhs
    }
}

impl Groupoid<Addition> for Vector2 {
    open spec fn op_ok(self, rhs: Vector2) -> bool {
        i64::MIN <= self.x + rhs.x <= i64::MAX && i64::MIN <= self.y + rhs.y <= i64::MAX
    }

    open spec fn op_spec(self, rhs: Vector2) -> Vector2 {
        Vector2 { x: (self.x + rhs.x) as i64, y: (self.y + rhs.y) as i64 }
    }

    fn op(&self, rhs: &Vector2) -> (r: Vector2) {
        Vector2::new(self.x + rhs.x, self.y + rhs.y)
    }
}

impl Groupoid<Subtraction> for Vector2 {
    open spec fn op_ok(self, rhs: Vector2) -> bool {
        i64::MIN <= self.x - rhs.x <= i64::MAX && i64::MIN <= self.y - rhs.y <= i64::MAX
    }

    open spec fn op_spec(self, rhs: Vector2) -> Vector2 {
        Vector2 { x: (self.x - rhs.x) as i64, y: (self.y - rhs.y) as i64 }
    }

    fn op(&self, rhs: &Vector2) -> (r: Vector2) {
        Vector2::new(self.x - rhs.x, self.y - rhs.y)
    }
}

impl Groupoid<Multiplication> for Vector2 {
    open spec fn op_ok(self, rhs: Vector2) -> bool {
        i64::MIN <= self.x * rhs.x <= i64::MAX && i64::MIN <= self.y * rhs.y <= i64::MAX
    }

    open spec fn op_spec(self, rhs: Vector2) -> Vector2 {
        Vector2 { x: (self.x * rhs.x) as i64, y: (self.y * rhs.y) as i64 }
    }

    fn op(&self, rhs: &Vector2) -> (r: Vector2) {
        Vector2::new(self.x * rhs.x, self.y * rhs.y)
    }
}

impl Semimodule<Multiplication, Addition> for Vector2 {
    type Scalar = i64;

    open spec fn smul_ok(self, rhs: i64) -> bool {
        i64::MIN <= self.x * rhs <= i64::MAX && i64::MIN <= self.y * rhs <= i64::MAX
    }

    open spec fn smul_spec(self, rhs: i64) -> Vector2 {
        Vector2 { x: (self.x * rhs) as i64, y: (self.y * rhs) as i64 }
    }

    fn scalar_multiplication(&self, rhs: i64) -> (r: Vector2) {
        Vector2::new(self.x * rhs, self.y * rhs)
    }
}

impl Semimodule<Multiplication, Addition> for crate::vec3d::Vector3 {
    type Scalar = i64;

    open spec fn smul_ok(self, rhs: i64) -> bool {
        &&& i64::MIN <= self.x * rhs <= i64::MAX
        &&& i64::MIN <= self.y * rhs <= i64::MAX
        &&& i64::MIN <= self.z * rhs <= i64::MAX
    }

    open spec fn smul_spec(self, rhs: i64) -> crate::vec3d::Vector3 {
        crate::vec3d::Vector3 {
            x: (self.x * rhs) as i64,
            y: (self.y * rhs) as i64,
            z: (self.z * rhs) as i64,
        }
    }

    fn scalar_multiplication(&self, rhs: i64) -> (r: crate::vec3d::Vector3) {
        crate::vec3d::Vector3::scalar_multiplication(self, rhs)
    }
}

impl Semimodule<Multiplication, Addition> for crate::vec4d::Vector4 {
    type Scalar = i64;

    open spec fn smul_ok(self, rhs: i64) -> bool {
        &&& i64::MIN <= self.x * rhs <= i64::MAX
        &&& i64::MIN <= self.y * rhs <= i64::MAX
        &&& i64::MIN <= self.z * rhs <= i64::MAX
        &&& i64::MIN <= self.w * rhs <= i64::MAX
    }

    open spec fn smul_spec(self, rhs: i64) -> crate::vec4d::Vector4 {
        crate::vec4d::Vector4 {
            x: (self.x * rhs) as i64,
            y: (self.y * rhs) as i64,
            z: (self.z * rhs) as i64,
            w: (self.w * rhs) as i64,
        }
    }

    fn scalar_multiplication(&self, rhs: i64) -> (r: crate::vec4d::Vector4) {
        crate::vec4d::Vector4::scalar_multiplication(self, rhs)
    }
}

} // verus!

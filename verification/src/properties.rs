//! Operators over sets, and the properties an operator can have. The
//! operators are sizeless marker structures; the property traits merely
//! assert a property of an implementor, except for the few that carry an
//! operation, whose contracts pin the result down exactly.

use vstd::prelude::*;
use crate::vec2d::Vector2;

verus! {

/// The addition operator marker.
pub struct Addition;

/// The subtraction operator marker.
pub struct Subtraction;

/// The multiplication operator marker.
pub struct Multiplication;

/// The division operator marker.
pub struct Division;

/// A binary operator usable over some set, denoted by a sizeless marker
/// structure. The property traits only assert a property; nothing here
/// checks that an operation satisfies it.
pub trait Operator: Sized {

}

impl Operator for Addition {

}

impl Operator for Subtraction {

}

impl Operator for Multiplication {

}

impl Operator for Division {

}

/// The operator is associative over the set: `a (b c) = (a b) c`.
pub trait AssociativeOver<Op: Operator> {

}

/// The operator is commutative over the set: `a b = b a`.
pub trait CommutativeOver<Op: Operator> {

}

/// The operator maps the set into itself.
pub trait ClosedUnder<Op: Operator> {

}

/// The first operator distributes over the second:
/// `c (a + b) = c a + c b`.
pub trait Distributive<Distribute: Operator, Over: Operator> {

}

/// The operator has, for each value, a value undoing it.
pub trait Inverse<Op: Operator>: Sized {
    /// Whether the inverse of this value is representable.
    spec fn inv_ok(self) -> bool;

    /// The inverse, as a specification-level value.
    spec fn spec_inverse(self) -> Self;

    /// Returns the value undoing this one under the operator.
    fn inverse(self) -> (r: Self)
        requires
            self.inv_ok(),
        ensures
            r == self.spec_inverse(),
    ;
}

/// The operator has a value that does nothing: `a IDENTITY = a`.
pub trait Identity<Op: Operator>: Sized {
    /// The identity, as a specification-level value.
    spec fn spec_identity() -> Self;

    /// Returns the identity of the operator on this set.
    fn identity() -> (r: Self)
        ensures
            r == Self::spec_identity(),
    ;

    /// Whether this value is the identity.
    fn is_identity(&self) -> (r: bool)
        ensures
            r == (*self == Self::spec_identity()),
    ;
}

/// The operator has a value that swallows every other:
/// `a ABSORBING = ABSORBING`.
pub trait Absorption<Op: Operator>: Sized {
    /// The absorbing value, as a specification-level value.
    spec fn spec_absorbing() -> Self;

    /// Returns the absorbing value of the operator on this set.
    fn absorbing() -> (r: Self)
        ensures
            r == Self::spec_absorbing(),
    ;

    /// Whether this value absorbs every other.
    fn is_absorber(&self) -> (r: bool)
        ensures
            r == (*self == Self::spec_absorbing()),
    ;
}

impl AssociativeOver<Addition> for i64 {

}

impl CommutativeOver<Addition> for i64 {

}

impl ClosedUnder<Addition> for i64 {

}

impl AssociativeOver<Multiplication> for i64 {

}

impl CommutativeOver<Multiplication> for i64 {

}

impl ClosedUnder<Multiplication> for i64 {

}

impl AssociativeOver<Subtraction> for i64 {

}

impl ClosedUnder<Subtraction> for i64 {

}

impl Distributive<Multiplication, Addition> for i64 {

}

impl Distributive<Multiplication, Subtraction> for i64 {

}

impl Inverse<Addition> for i64 {
    open spec fn inv_ok(self) -> bool {
        self > i64::MIN
    }

    open spec fn spec_inverse(self) -> i64 {
        (-self) as i64
    }

    fn inverse(self) -> (r: i64) {
        -self
    }
}

impl Inverse<Subtraction> for i64 {
    open spec fn inv_ok(self) -> bool {
        self > i64::MIN
    }

    open spec fn spec_inverse(self) -> i64 {
        (-self) as i64
    }

    fn inverse(self) -> (r: i64) {
        -self
    }
}

impl Identity<Addition> for i64 {
    open spec fn spec_identity() -> i64 {
        0
    }

    fn identity() -> (r: i64) {
        0
    }

    fn is_identity(&self) -> (r: bool) {
        *self == 0
    }
}

impl Identity<Subtraction> for i64 {
    open spec fn spec_identity() -> i64 {
        0
    }

    fn identity() -> (r: i64) {
        0
    }

    fn is_identity(&self) -> (r: bool) {
        *self == 0
    }
}

impl Identity<Multiplication> for i64 {
    open spec fn spec_identity() -> i64 {
        1
    }

    fn identity() -> (r: i64) {
        1
    }

    fn is_identity(&self) -> (r: bool) {
        *self == 1
    }
}

impl Identity<Division> for i64 {
    open spec fn spec_identity() -> i64 {
        1
    }

    fn identity() -> (r: i64) {
        1
    }

    fn is_identity(&self) -> (r: bool) {
        *self == 1
    }
}

impl Absorption<Multiplication> for i64 {
    open spec fn spec_absorbing() -> i64 {
        0
    }

    fn absorbing() -> (r: i64) {
        0
    }

    fn is_absorber(&self) -> (r: bool) {
        *self == 0
    }
}

impl<Op: Operator> AssociativeOver<Op> for Vector2 where i64: AssociativeOver<Op> {

}

impl<Op: Operator> CommutativeOver<Op> for Vector2 where i64: CommutativeOver<Op> {

}

impl<Op: Operator> ClosedUnder<Op> for Vector2 where i64: ClosedUnder<Op> {

}

impl<D: Operator, Op: Operator> Distributive<D, Op> for Vector2 where i64: Distributive<D, Op> {

}

impl Identity<Addition> for Vector2 {
    open spec fn spec_identity() -> Vector2 {
        Vector2 { x: 0, y: 0 }
    }

    fn identity() -> (r: Vector2) {
        Vector2::new(0, 0)
    }

    fn is_identity(&self) -> (r: bool) {
        self.x == 0 && self.y == 0
    }
}

impl Identity<Multiplication> for Vector2 {
    open spec fn spec_identity() -> Vector2 {
        Vector2 { x: 1, y: 1 }
    }

    fn identity() -> (r: Vector2) {
        Vector2::new(1, 1)
    }

    fn is_identity(&self) -> (r: bool) {
        self.x == 1 && self.y == 1
    }
}

impl Inverse<Addition> for Vector2 {
    open spec fn inv_ok(self) -> bool {
        self.x > i64::MIN && self.y > i64::MIN
    }

    open spec fn spec_inverse(self) -> Vector2 {
        Vector2 { x: (-self.x) as i64, y: (-self.y) as i64 }
    }

    fn inverse(self) -> (r: Vector2) {
        Vector2::new(-self.x, -self.y)
    }
}

impl Absorption<Multiplication> for Vector2 {
    open spec fn spec_absorbing() -> Vector2 {
        Vector2 { x: 0, y: 0 }
    }

    fn absorbing() -> (r: Vector2) {
        Vector2::new(0, 0)
    }

    fn is_absorber(&self) -> (r: bool) {
        self.x == 0 && self.y == 0
    }
}

} // verus!

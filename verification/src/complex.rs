//! Complex numbers over the toolkit's integer scalar, stored as a
//! 2-D vector of real and imaginary parts.

use vstd::prelude::*;
use crate::vec2d::Vector2;

verus! {

/// A complex number `r + i·im`.
#[derive(Debug, Clone, Copy, PartialEq, Eq, Structural)]
pub struct Complex {
    inner: Vector2,
}

impl Complex {
    /// The real part, as a specification-level value.
    pub closed spec fn spec_real(&self) -> i64 {
        self.inner.x
    }

    /// The imaginary part, as a specification-level value.
    pub closed spec fn spec_imaginary(&self) -> i64 {
        self.inner.y
    }

    /// Builds a complex number from its real and imaginary parts.
    pub fn new(re: i64, im: i64) -> (c: Self)
        ensures
            c.spec_real() == re && c.spec_imaginary() == im,
    {
        Self { inner: Vector2 { x: re, y: im } }
    }

    /// The real part.
    #[inline]
    pub fn real_part(&self) -> (r: i64)
        ensures
            r == self.spec_real(),
    {
        self.inner.x
    }

    /// The imaginary part.
    #[inline]
    pub fn imaginary(&self) -> (r: i64)
        ensures
            r == self.spec_imaginary(),
    {
        self.inner.y
    }

    /// The real part; a shorthand for `real_part`.
    pub fn r(&self) -> (r: i64)
        ensures
            r == self.spec_real(),
    {
        self.inner.x
    }

    /// The imaginary part; a shorthand for `imaginary`.
    pub fn i(&self) -> (r: i64)
        ensures
            r == self.spec_imaginary(),
    {
        self.inner.y
    }

    /// The complex conjugate: the imaginary part negated.
    pub fn conjugate(self) -> (c: Self)
        requires
            self.spec_imaginary() > i64::MIN,
        ensures
            c.spec_real() == self.spec_real(),
            c.spec_imaginary() == -self.spec_imaginary(),
    {
        Self { inner: Vector2 { x: self.inner.x, y: -self.inner.y } }
    }

    /// Component-wise sum.
    pub fn add(self, rhs: Self) -> (c: Self)
        requires
            i64::MIN <= self.spec_real() + rhs.spec_real() <= i64::MAX,
            i64::MIN <= self.spec_imaginary() + rhs.spec_imaginary() <= i64::MAX,
        ensures
            c.spec_real() == self.spec_real() + rhs.spec_real(),
            c.spec_imaginary() == self.spec_imaginary() + rhs.spec_imaginary(),
    {
        Self { inner: Vector2 { x: self.inner.x + rhs.inner.x, y: self.inner.y + rhs.inner.y } }
    }

    /// The complex product:
    /// `(a + bi)(c + di) = (ac - bd) + (ad + cb)i`.
    pub fn mul(self, rhs: Self) -> (c: Self)
        requires
            i64::MIN <= self.spec_real() * rhs.spec_real() <= i64::MAX,
            i64::MIN <= self.spec_imaginary() * rhs.spec_imaginary() <= i64::MAX,
            i64::MIN <= self.spec_real() * rhs.spec_imaginary() <= i64::MAX,
            i64::MIN <= rhs.spec_real() * self.spec_imaginary() <= i64::MAX,
            i64::MIN <= self.spec_real() * rhs.spec_real() - self.spec_imaginary()
                * rhs.spec_imaginary() <= i64::MAX,
            i64::MIN <= self.spec_real() * rhs.spec_imaginary() + rhs.spec_real()
                * self.spec_imaginary() <= i64::MAX,
        ensures
            c.spec_real() == self.spec_real() * rhs.spec_real() - self.spec_imaginary()
                * rhs.spec_imaginary(),
            c.spec_imaginary() == self.spec_real() * rhs.spec_imaginary() + rhs.spec_real()
                * self.spec_imaginary(),
    {
        Self {
            inner: Vector2 {
                x: self.inner.x * rhs.inner.x - self.inner.y * rhs.inner.y,
                y: self.inner.x * rhs.inner.y + rhs.inner.x * self.inner.y,
            },
        }
    }
}

} // verus!

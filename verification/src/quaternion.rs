//! Quaternions over the toolkit's integer scalar, stored as a 4-D
//! vector: the scalar part first, then the three imaginary parts.

use vstd::prelude::*;
use crate::vec4d::Vector4;

verus! {

/// A quaternion `r + i·x + j·y + k·z`.
#[derive(Debug, Clone, Copy, PartialEq, Eq, Structural)]
pub struct Quaternion {
    inner: Vector4,
}

impl Quaternion {
    /// The scalar part, as a specification-level value.
    pub closed spec fn spec_r(&self) -> i64 {
        self.inner.x
    }

    /// The `i` part, as a specification-level value.
    pub closed spec fn spec_i(&self) -> i64 {
        self.inner.y
    }

    /// The `j` part, as a specification-level value.
    pub closed spec fn spec_j(&self) -> i64 {
        self.inner.z
    }

    /// The `k` part, as a specification-level value.
    pub closed spec fn spec_k(&self) -> i64 {
        self.inner.w
    }

    /// Builds a quaternion from its scalar and imaginary parts.
    pub fn new(scalar: i64, i: i64, j: i64, k: i64) -> (q: Self)
        ensures
            q.spec_r() == scalar && q.spec_i() == i && q.spec_j() == j && q.spec_k() == k,
    {
        Self { inner: Vector4 { x: scalar, y: i, z: j, w: k } }
    }

    /// The scalar part.
    pub fn r(&self) -> (r: i64)
        ensures
            r == self.spec_r(),
    {
        self.inner.x
    }

    /// The `i` part.
    pub fn i(&self) -> (r: i64)
        ensures
            r == self.spec_i(),
    {
        self.inner.y
    }

    /// The `j` part.
    pub fn j(&self) -> (r: i64)
        ensures
            r == self.spec_j(),
    {
        self.inner.z
    }

    /// The `k` part.
    pub fn k(&self) -> (r: i64)
        ensures
            r == self.spec_k(),
    {
        self.inner.w
    }

    /// The conjugate: every imaginary part negated.
    pub fn conjugate(self) -> (q: Self)
        requires
            self.spec_i() > i64::MIN,
            self.spec_j() > i64::MIN,
            self.spec_k() > i64::MIN,
        ensures
            q.spec_r() == self.spec_r(),
            q.spec_i() == -self.spec_i(),
            q.spec_j() == -self.spec_j(),
            q.spec_k() == -self.spec_k(),
    {
        Self {
            inner: Vector4 {
                x: self.inner.x,
                y: -self.inner.y,
                z: -self.inner.z,
                w: -self.inner.w,
            },
        }
    }

    /// Component-wise sum.
    pub fn add(self, rhs: Self) -> (q: Self)
        requires
            i64::MIN <= self.spec_r() + rhs.spec_r() <= i64::MAX,
            i64::MIN <= self.spec_i() + rhs.spec_i() <= i64::MAX,
            i64::MIN <= self.spec_j() + rhs.spec_j() <= i64::MAX,
            i64::MIN <= self.spec_k() + rhs.spec_k() <= i64::MAX,
        ensures
            q.spec_r() == self.spec_r() + rhs.spec_r(),
            q.spec_i() == self.spec_i() + rhs.spec_i(),
            q.spec_j() == self.spec_j() + rhs.spec_j(),
            q.spec_k() == self.spec_k() + rhs.spec_k(),
    {
        Self {
            inner: Vector4 {
                x: self.inner.x + rhs.inner.x,
                y: self.inner.y + rhs.inner.y,
                z: self.inner.z + rhs.inner.z,
                w: self.inner.w + rhs.inner.w,
            },
        }
    }

    /// The Hamilton product. Parts stay within `QUAT_LIMIT` so that the
    /// four products and their sums cannot overflow.
    pub fn mul(self, rhs: Self) -> (q: Self)
        requires
            self.parts_within(),
            rhs.parts_within(),
        ensures
            q.spec_r() == self.spec_r() * rhs.spec_r() - self.spec_i() * rhs.spec_i()
                - self.spec_j() * rhs.spec_j() - self.spec_k() * rhs.spec_k(),
            q.spec_i() == self.spec_r() * rhs.spec_i() + self.spec_i() * rhs.spec_r()
                + self.spec_j() * rhs.spec_k() - self.spec_k() * rhs.spec_j(),
            q.spec_j() == self.spec_r() * rhs.spec_j() - self.spec_i() * rhs.spec_k()
                + self.spec_j() * rhs.spec_r() + self.spec_k() * rhs.spec_i(),
            q.spec_k() == self.spec_r() * rhs.spec_k() + self.spec_i() * rhs.spec_j()
                - self.spec_j() * rhs.spec_i() + self.spec_k() * rhs.spec_r(),
    {
        proof {
            self.lemma_product_bounds(rhs);
        }
        Self {
            inner: Vector4 {
                x: self.inner.x * rhs.inner.x - self.inner.y * rhs.inner.y - self.inner.z
                    * rhs.inner.z - self.inner.w * rhs.inner.w,
                y: self.inner.x * rhs.inner.y + self.inner.y * rhs.inner.x + self.inner.z
                    * rhs.inner.w - self.inner.w * rhs.inner.z,
                z: self.inner.x * rhs.inner.z - self.inner.y * rhs.inner.w + self.inner.z
                    * rhs.inner.x + self.inner.w * rhs.inner.y,
                w: self.inner.x * rhs.inner.w + self.inner.y * rhs.inner.z - self.inner.z
                    * rhs.inner.y + self.inner.w * rhs.inner.x,
            },
        }
    }

    /// Every part lies within `QUAT_LIMIT`.
    pub open spec fn parts_within(&self) -> bool {
        &&& -QUAT_LIMIT <= self.spec_r() <= QUAT_LIMIT
        &&& -QUAT_LIMIT <= self.spec_i() <= QUAT_LIMIT
        &&& -QUAT_LIMIT <= self.spec_j() <= QUAT_LIMIT
        &&& -QUAT_LIMIT <= self.spec_k() <= QUAT_LIMIT
    }

    /// Products of parts within `QUAT_LIMIT` stay far from the integer
    /// boundary.
    proof fn lemma_product_bounds(self, rhs: Self)
        requires
            self.parts_within(),
            rhs.parts_within(),
        ensures
            forall|a: i64, b: i64|
                -QUAT_LIMIT <= a <= QUAT_LIMIT && -QUAT_LIMIT <= b <= QUAT_LIMIT
                    ==> -0x1000000000000000 <= #[trigger] (a * b) <= 0x1000000000000000,
    {
        assert forall|a: i64, b: i64|
            -QUAT_LIMIT <= a <= QUAT_LIMIT && -QUAT_LIMIT <= b <= QUAT_LIMIT
                implies -0x1000000000000000 <= #[trigger] (a * b)
            <= 0x1000000000000000 by {
            assert(-0x1000000000000000 <= a * b <= 0x1000000000000000) by (nonlinear_arith)
                requires
                    -QUAT_LIMIT <= a <= QUAT_LIMIT,
                    -QUAT_LIMIT <= b <= QUAT_LIMIT,
            ;
        }
    }
}

/// The part bound under which a Hamilton product cannot overflow.
pub const QUAT_LIMIT: i64 = 0x40000000;

} // verus!

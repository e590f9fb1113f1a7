//! Circles ("2-D spheres") over the toolkit's integer scalar. Distances
//! are measured squared, so no root is ever taken: a point lies inside
//! the circle when its squared distance from the center is at most the
//! radius field, which therefore carries a squared length.

use vstd::prelude::*;
use crate::vec2d::Vector2;

verus! {

/// A circle: a center and a radius, the radius measured as a squared
/// length.
#[derive(Debug, Clone, Copy, PartialEq, Eq, Structural)]
pub struct Sphere2D {
    /// The center point.
    pub center: Vector2,
    /// The squared radius.
    pub radius: i64,
}

impl Sphere2D {
    /// The squared distance of a point from the center, as unbounded
    /// arithmetic.
    pub open spec fn spec_sq_dist(&self, point: Vector2) -> int {
        (point.x - self.center.x) * (point.x - self.center.x) + (point.y - self.center.y) * (
        point.y - self.center.y)
    }

    /// Builds a circle from its center and squared radius.
    pub fn new(pos: Vector2, radius: i64) -> (s: Self)
        ensures
            s.center == pos && s.radius == radius,
    {
        Self { center: pos, radius }
    }

    /// The center point.
    pub fn center(&self) -> (r: Vector2)
        ensures
            r == self.center,
    {
        self.center
    }

    /// The squared radius.
    pub fn radius(&self) -> (r: i64)
        ensures
            r == self.radius,
    {
        self.radius
    }

    /// The squared distance of `point` from the center.
    pub fn distance_from_center(&self, point: Vector2) -> (d: i64)
        requires
            i64::MIN <= point.x - self.center.x <= i64::MAX,
            i64::MIN <= point.y - self.center.y <= i64::MAX,
            0 <= (point.x - self.center.x) * (point.x - self.center.x) <= i64::MAX,
            0 <= (point.y - self.center.y) * (point.y - self.center.y) <= i64::MAX,
            self.spec_sq_dist(point) <= i64::MAX,
        ensures
            d == self.spec_sq_dist(point),
    {
        let dx = point.x - self.center.x;
        let dy = point.y - self.center.y;
        dx * dx + dy * dy
    }

    /// Whether `point` lies in the circle: its squared distance from the
    /// center, when it does not exceed the squared radius.
    pub fn point_intersection(&self, point: Vector2) -> (r: Option<i64>)
        requires
            i64::MIN <= point.x - self.center.x <= i64::MAX,
            i64::MIN <= point.y - self.center.y <= i64::MAX,
            0 <= (point.x - self.center.x) * (point.x - self.center.x) <= i64::MAX,
            0 <= (point.y - self.center.y) * (point.y - self.center.y) <= i64::MAX,
            self.spec_sq_dist(point) <= i64::MAX,
        ensures
            self.spec_sq_dist(point) <= self.radius ==> r == Option::Some(
                self.spec_sq_dist(point) as i64,
            ),
            self.spec_sq_dist(point) > self.radius ==> r is None,
    {
        let dist = self.distance_from_center(point);
        if dist <= self.radius {
            Some(dist)
        } else {
            None
        }
    }
}

} // verus!

//! Capability traits over vector types — inner products, norms, wedge
//! products — and the vector operations built from them that stay within
//! integer arithmetic.

use vstd::prelude::*;
use crate::algebra::Semimodule;
use crate::properties::{Addition, Multiplication};
use crate::vec2d::Vector2;

verus! {

/// The marker for the ordinary flat metric.
pub struct Euclidean;

/// A set with a distance between its points.
pub trait MetricSpace: Sized {
    /// The type distances are measured in.
    type Distance;

    /// Returns the distance between the two points.
    fn distance(&self, other: Self) -> Self::Distance;
}

/// A vector space with a length for each vector.
pub trait NormedVectorSpace: Semimodule<Multiplication, Addition> {
    /// Fixes the vector's length to one.
    fn normalize(&self) -> Self;

    /// The length of the vector.
    fn magnitude(&self) -> Self::Scalar;
}

/// A normed space with an inner product measuring alignment.
pub trait InnerProductSpace: NormedVectorSpace {
    /// Returns the similarity between the two vectors; zero for
    /// perpendicular ones.
    fn inner_product(&self, other: Self) -> Self::Scalar;

    /// The squared length: the inner product of the vector with itself.
    fn squared_length(&self) -> Self::Scalar;
}

/// A space with a wedge product measuring oriented area.
pub trait GrassmanAlgebra: Semimodule<Multiplication, Addition> {
    /// The oriented-area type.
    type Bivector;

    /// The oriented area of the parallelogram the two vectors span;
    /// zero for parallel vectors, and anticommutative.
    fn wedge_product(&self, rhs: Self) -> Self::Bivector;
}

/// A space carrying both the inner and the wedge product at once.
pub trait GeometricAlgebra: GrassmanAlgebra + InnerProductSpace {
    /// Both products of the two vectors, as one pair.
    fn geometric_product(&self, other: Self) -> (Self::Scalar, Self::Bivector);
}

/// The reflection of an incident vector on a surface with the given
/// normal: `incident - normal * (2 * (incident . normal))`. The normal
/// is expected to have unit length for the result to be a mirror image.
pub fn reflect(incident: Vector2, normal: Vector2) -> (r: Vector2)
    requires
        i64::MIN <= incident.x * normal.x <= i64::MAX,
        i64::MIN <= incident.y * normal.y <= i64::MAX,
        i64::MIN <= incident.x * normal.x + incident.y * normal.y <= i64::MAX,
        i64::MIN <= 2 * (incident.x * normal.x + incident.y * normal.y) <= i64::MAX,
        i64::MIN <= normal.x * (2 * (incident.x * normal.x + incident.y * normal.y)) <= i64::MAX,
        i64::MIN <= normal.y * (2 * (incident.x * normal.x + incident.y * normal.y)) <= i64::MAX,
        i64::MIN <= incident.x - normal.x * (2 * (incident.x * normal.x + incident.y * normal.y))
            <= i64::MAX,
        i64::MIN <= incident.y - normal.y * (2 * (incident.x * normal.x + incident.y * normal.y))
            <= i64::MAX,
    ensures
        r.x == incident.x - normal.x * (2 * (incident.x * normal.x + incident.y * normal.y)),
        r.y == incident.y - normal.y * (2 * (incident.x * normal.x + incident.y * normal.y)),
{
    let d = incident.x * normal.x + incident.y * normal.y;
    let s = 2 * d;
    Vector2 { x: incident.x - normal.x * s, y: incident.y - normal.y * s }
}

/// The projection of a vector onto another, with the projection scale
/// rounded towards zero by integer division.
pub fn project(vector: Vector2, project_onto: Vector2) -> (r: Vector2)
    requires
        0 <= project_onto.x * project_onto.x <= i64::MAX,
        0 <= project_onto.y * project_onto.y <= i64::MAX,
        0 < project_onto.x * project_onto.x + project_onto.y * project_onto.y <= i64::MAX,
        i64::MIN <= vector.x * project_onto.x <= i64::MAX,
        i64::MIN <= vector.y * project_onto.y <= i64::MAX,
        0 <= vector.x * project_onto.x + vector.y * project_onto.y <= i64::MAX,
        i64::MIN <= project_onto.x * ((vector.x * project_onto.x + vector.y * project_onto.y) / (
        project_onto.x * project_onto.x + project_onto.y * project_onto.y)) <= i64::MAX,
        i64::MIN <= project_onto.y * ((vector.x * project_onto.x + vector.y * project_onto.y) / (
        project_onto.x * project_onto.x + project_onto.y * project_onto.y)) <= i64::MAX,
    ensures
        r.x == project_onto.x * ((vector.x * project_onto.x + vector.y * project_onto.y) / (
        project_onto.x * project_onto.x + project_onto.y * project_onto.y)),
        r.y == project_onto.y * ((vector.x * project_onto.x + vector.y * project_onto.y) / (
        project_onto.x * project_onto.x + project_onto.y * project_onto.y)),
{
    let len2 = project_onto.x * project_onto.x + project_onto.y * project_onto.y;
    let dot = vector.x * project_onto.x + vector.y * project_onto.y;
    let scale = dot / len2;
    Vector2 { x: project_onto.x * scale, y: project_onto.y * scale }
}

} // verus!

//! A polygon stored as explicit geometry: a vertex list and a triangle
//! index list, every three indices forming one triangle.

use vstd::prelude::*;
use crate::geometry::{PolygonOrdering, VertexShape};

verus! {

/// The explicit triangle-list form of a shape.
pub struct Shape2D<V> {
    vertices: Vec<V>,
    indices: Vec<u32>,
}

impl<V> Shape2D<V> {
    /// The vertex list, as a specification-level sequence.
    pub closed spec fn spec_vertices(&self) -> Seq<V> {
        self.vertices@
    }

    /// The index list, as a specification-level sequence.
    pub closed spec fn spec_indices(&self) -> Seq<u32> {
        self.indices@
    }

    /// Wraps an existing vertex and index list.
    pub fn new(vertices: Vec<V>, indices: Vec<u32>) -> (s: Self)
        ensures
            s.spec_vertices() == vertices@,
            s.spec_indices() == indices@,
    {
        Self { vertices, indices }
    }

    /// Extracts the triangle list of any vertex shape.
    pub fn from_vertices<S: VertexShape<Vertex = V>>(shape: &S, ordering: PolygonOrdering) -> (s:
        Self)
        requires
            shape.shape_wf(),
        ensures
            s.spec_vertices() == shape.spec_vertices(),
            s.spec_indices() == shape.spec_indices(ordering),
    {
        Self { vertices: shape.vertices(), indices: shape.indices(ordering) }
    }

    /// The number of vertices.
    pub fn vertex_count(&self) -> (n: usize)
        ensures
            n == self.spec_vertices().len(),
    {
        self.vertices.len()
    }

    /// The number of triangle indices.
    pub fn index_count(&self) -> (n: usize)
        ensures
            n == self.spec_indices().len(),
    {
        self.indices.len()
    }
}

} // verus!

//! Geometric capability traits: what a shape must offer so that other
//! components (the spatial index above all) can consume it.

use vstd::prelude::*;
use crate::rect2d::Rect2D;
use crate::vec2d::Vector2;

verus! {

/// The winding order of a polygon's triangle list.
#[derive(Debug, Clone, Copy, PartialEq, Eq, Structural)]
pub enum PolygonOrdering {
    Clockwise,
    CounterClockwise,
}

/// An n-dimensional axis-aligned box.
pub trait HyperCube {

}

/// A shape with vertices.
pub trait Polygon {
    /// The vertex type of the shape.
    type Vertex;

    /// Whether the shape's data is internally consistent; vertex queries
    /// assume it.
    spec fn shape_wf(&self) -> bool;
}

/// A shape described by a list of vertices and a triangle index list:
/// every three indices form one triangle.
pub trait VertexShape: Polygon {
    /// The vertex list, as a specification-level sequence.
    spec fn spec_vertices(&self) -> Seq<Self::Vertex>;

    /// The triangle index list for a winding order, as a
    /// specification-level sequence.
    spec fn spec_indices(&self, ordering: PolygonOrdering) -> Seq<u32>;

    /// Returns the vertices of the shape.
    fn vertices(&self) -> (r: Vec<Self::Vertex>)
        requires
            self.shape_wf(),
        ensures
            r@ == self.spec_vertices(),
    ;

    /// Returns the triangle indices into the vertex list.
    fn indices(&self, ordering: PolygonOrdering) -> (r: Vec<u32>)
        requires
            self.shape_wf(),
        ensures
            r@ == self.spec_indices(ordering),
    ;
}

/// A shape with a centroid.
pub trait Centroid: Polygon {
    /// The centroid, as a specification-level value.
    spec fn spec_center(&self) -> Self::Vertex;

    /// Returns the center point of the shape.
    fn center(&self) -> (r: Self::Vertex)
        requires
            self.shape_wf(),
        ensures
            r == self.spec_center(),
    ;
}

/// Where a ray meets a shape: the hit point and how far along the ray
/// it lies, measured squared.
#[derive(Debug, Clone, Copy, PartialEq, Eq, Structural)]
pub struct RayIntersection {
    /// The point where the shapes meet.
    pub point: Vector2,
    /// The squared distance along the ray to the hit.
    pub distance: i64,
}

/// A shape that can be intersected with another.
pub trait Intersect<T> {
    /// Returns the nearest intersection, or nothing when the shapes
    /// miss each other.
    fn intersect(&self, with: &T) -> Option<RayIntersection>;
}

/// A shape that can report a tight axis-aligned bounding rectangle; the
/// spatial index is built over this capability.
pub trait BoundingBox {
    /// The bounding rectangle, as a specification-level value.
    spec fn spec_bbox(&self) -> Rect2D;

    /// Returns a tight non-oriented bounding box which covers the entire
    /// shape.
    fn bounding_box(&self) -> (r: Rect2D)
        ensures
            r == self.spec_bbox(),
    ;
}

impl HyperCube for Rect2D {

}

impl Polygon for Rect2D {
    type Vertex = Vector2;

    open spec fn shape_wf(&self) -> bool {
        self.wf()
    }
}

impl Centroid for Rect2D {
    open spec fn spec_center(&self) -> Vector2 {
        Vector2 { x: (self.pos.x + self.dimensions.x / 2) as i64, y: (self.pos.y + self.dimensions.y / 2) as i64 }
    }

    fn center(&self) -> (r: Vector2) {
        Vector2 { x: self.pos.x + self.dimensions.x / 2, y: self.pos.y + self.dimensions.y / 2 }
    }
}

impl BoundingBox for Rect2D {
    open spec fn spec_bbox(&self) -> Rect2D {
        *self
    }

    fn bounding_box(&self) -> (r: Rect2D) {
        *self
    }
}

impl VertexShape for Rect2D {
    open spec fn spec_vertices(&self) -> Seq<Vector2> {
        seq![
            Vector2 { x: self.pos.x, y: self.pos.y },
            Vector2 { x: (self.pos.x + self.dimensions.x) as i64, y: self.pos.y },
            Vector2 {
                x: (self.pos.x + self.dimensions.x) as i64,
                y: (self.pos.y + self.dimensions.y) as i64,
            },
            Vector2 { x: self.pos.x, y: (self.pos.y + self.dimensions.y) as i64 },
        ]
    }

    open spec fn spec_indices(&self, ordering: PolygonOrdering) -> Seq<u32> {
        match ordering {
            PolygonOrdering::Clockwise => seq![0u32, 2u32, 1u32, 2u32, 0u32, 3u32],
            PolygonOrdering::CounterClockwise => seq![0u32, 1u32, 2u32, 2u32, 3u32, 0u32],
        }
    }

    fn vertices(&self) -> (r: Vec<Vector2>) {
        let mx = self.pos.x + self.dimensions.x;
        let my = self.pos.y + self.dimensions.y;
        let mut v: Vec<Vector2> = Vec::new();
        v.push(Vector2 { x: self.pos.x, y: self.pos.y });
        v.push(Vector2 { x: mx, y: self.pos.y });
        v.push(Vector2 { x: mx, y: my });
        v.push(Vector2 { x: self.pos.x, y: my });
        proof {
            assert(v@ =~= self.spec_vertices());
        }
        v
    }

    fn indices(&self, ordering: PolygonOrdering) -> (r: Vec<u32>)
    {
        let mut v: Vec<u32> = Vec::new();
        match ordering {
            PolygonOrdering::Clockwise => {
                v.push(0);
                v.push(2);
                v.push(1);
                v.push(2);
                v.push(0);
                v.push(3);
            }
            PolygonOrdering::CounterClockwise => {
                v.push(0);
                v.push(1);
                v.push(2);
                v.push(2);
                v.push(3);
                v.push(0);
            }
        }
        proof {
            assert(v@ =~= self.spec_indices(ordering));
        }
        v
    }
}

} // verus!

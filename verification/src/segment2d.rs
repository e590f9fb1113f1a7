//! Line segments between two points, and the capability trait for
//! parameterized curves.

use vstd::prelude::*;
use crate::vec2d::Vector2;

verus! {

/// A parameterized curve segment with a start and an end.
pub trait Segment {
    /// The point type the curve runs through.
    type Vertex;

    /// The order of the curve: 1 for a straight segment.
    fn order(&self) -> usize;

    /// The starting point of the segment.
    fn start(&self) -> Self::Vertex;

    /// The end point of the segment.
    fn end(&self) -> Self::Vertex;
}

/// A straight line segment between two points.
#[derive(Debug, Clone, Copy, PartialEq, Eq)]
pub struct LinearSegment2D {
    /// The two endpoints, in the order they were given.
    pub points: [Vector2; 2],
}

impl LinearSegment2D {
    /// Builds the segment running from `start` to `end`.
    pub fn new(start: Vector2, end: Vector2) -> (s: Self)
        ensures
            s.points@[0] == start && s.points@[1] == end,
    {
        Self { points: [start, end] }
    }

    /// The component-wise minimum of the two endpoints.
    pub fn min(&self) -> (r: Vector2)
        ensures
            r.x == if self.points@[0].x <= self.points@[1].x {
                self.points@[0].x
            } else {
                self.points@[1].x
            },
            r.y == if self.points@[0].y <= self.points@[1].y {
                self.points@[0].y
            } else {
                self.points@[1].y
            },
    {
        self.points[0].min(self.points[1])
    }

    /// The component-wise maximum of the two endpoints.
    pub fn max(&self) -> (r: Vector2)
        ensures
            r.x == if self.points@[0].x >= self.points@[1].x {
                self.points@[0].x
            } else {
                self.points@[1].x
            },
            r.y == if self.points@[0].y >= self.points@[1].y {
                self.points@[0].y
            } else {
                self.points@[1].y
            },
    {
        self.points[0].max(self.points[1])
    }
}

impl Segment for LinearSegment2D {
    type Vertex = Vector2;

    fn order(&self) -> usize {
        1
    }

    fn start(&self) -> Vector2 {
        self.points[0]
    }

    fn end(&self) -> Vector2 {
        self.points[1]
    }
}

} // verus!

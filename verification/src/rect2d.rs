//! Axis-aligned bounding rectangles: a minimum corner and non-negative
//! extents. The union ("fit") of two rectangles is the smallest rectangle
//! enclosing both; a dimensionless rectangle acts as the union identity.

use vstd::prelude::*;
use crate::vec2d::Vector2;

verus! {

/// Coordinates of rectangles fed to the spatial index stay within this
/// bound, so that centroid quantization arithmetic cannot overflow.
pub const COORD_LIMIT: i64 = 0x10000000000;

/// An axis-aligned rectangle: minimum corner `pos` and extents
/// `dimensions`, both extents intended to be non-negative.
#[derive(Debug, Clone, Copy, PartialEq, Eq, Structural)]
pub struct Rect2D {
    /// The minimum corner.
    pub pos: Vector2,
    /// The extents; the maximum corner is `pos + dimensions`.
    pub dimensions: Vector2,
}

impl Rect2D {
    /// A rectangle is well-formed when its extents are non-negative and
    /// its maximum corner is representable.
    pub open spec fn wf(&self) -> bool {
        &&& 0 <= self.dimensions.x
        &&& 0 <= self.dimensions.y
        &&& self.pos.x + self.dimensions.x <= i64::MAX
        &&& self.pos.y + self.dimensions.y <= i64::MAX
    }

    /// A rectangle of zero extent in both axes: the union identity.
    pub open spec fn spec_dimensionless(&self) -> bool {
        self.dimensions.x == 0 && self.dimensions.y == 0
    }

    /// The x coordinate of the maximum corner, as unbounded arithmetic.
    pub open spec fn spec_max_x(&self) -> int {
        self.pos.x + self.dimensions.x
    }

    /// The y coordinate of the maximum corner, as unbounded arithmetic.
    pub open spec fn spec_max_y(&self) -> int {
        self.pos.y + self.dimensions.y
    }

    /// `self` encloses `other`: every point of `other` lies in `self`.
    pub open spec fn spec_encloses(&self, other: Rect2D) -> bool {
        &&& self.pos.x <= other.pos.x
        &&& self.pos.y <= other.pos.y
        &&& other.spec_max_x() <= self.spec_max_x()
        &&& other.spec_max_y() <= self.spec_max_y()
    }

    /// The union of two rectangles, with a dimensionless argument acting
    /// as the identity.
    pub open spec fn spec_fit(a: Rect2D, b: Rect2D) -> Rect2D {
        if a.spec_dimensionless() {
            b
        } else if b.spec_dimensionless() {
            a
        } else {
            Rect2D {
                pos: Vector2 {
                    x: if a.pos.x <= b.pos.x { a.pos.x } else { b.pos.x },
                    y: if a.pos.y <= b.pos.y { a.pos.y } else { b.pos.y },
                },
                dimensions: Vector2 {
                    x: ((if a.spec_max_x() >= b.spec_max_x() { a.spec_max_x() } else { b.spec_max_x() })
                        - (if a.pos.x <= b.pos.x { a.pos.x } else { b.pos.x })) as i64,
                    y: ((if a.spec_max_y() >= b.spec_max_y() { a.spec_max_y() } else { b.spec_max_y() })
                        - (if a.pos.y <= b.pos.y { a.pos.y } else { b.pos.y })) as i64,
                },
            }
        }
    }

    /// Rectangles handed to the spatial index stay within `COORD_LIMIT`.
    pub open spec fn spec_bounded(&self) -> bool {
        &&& self.wf()
        &&& -COORD_LIMIT <= self.pos.x
        &&& -COORD_LIMIT <= self.pos.y
        &&& self.spec_max_x() <= COORD_LIMIT
        &&& self.spec_max_y() <= COORD_LIMIT
    }

    /// Creates a rectangle from its minimum corner and extents, as given.
    pub fn new(pos: Vector2, dimensions: Vector2) -> (r: Self)
        ensures
            r.pos == pos && r.dimensions == dimensions,
    {
        Self { pos, dimensions }
    }

    /// The rectangle of zero size at the origin: the union identity.
    pub fn dimensionless() -> (r: Self)
        ensures
            r.pos.x == 0 && r.pos.y == 0,
            r.dimensions.x == 0 && r.dimensions.y == 0,
            r.spec_dimensionless(),
            r.spec_bounded(),
    {
        Self { pos: Vector2 { x: 0, y: 0 }, dimensions: Vector2 { x: 0, y: 0 } }
    }

    /// The smallest rectangle containing two corner points, in any order.
    pub fn from_bounds(a: Vector2, b: Vector2) -> (r: Self)
        requires
            (if a.x >= b.x { a.x } else { b.x }) - (if a.x <= b.x { a.x } else { b.x })
                <= i64::MAX,
            (if a.y >= b.y { a.y } else { b.y }) - (if a.y <= b.y { a.y } else { b.y })
                <= i64::MAX,
        ensures
            r.pos.x == if a.x <= b.x { a.x } else { b.x },
            r.pos.y == if a.y <= b.y { a.y } else { b.y },
            r.pos.x + r.dimensions.x == if a.x >= b.x { a.x as int } else { b.x as int },
            r.pos.y + r.dimensions.y == if a.y >= b.y { a.y as int } else { b.y as int },
            r.wf(),
    {
        let pos = a.min(b);
        let max = a.max(b);
        Self { pos, dimensions: Vector2 { x: max.x - pos.x, y: max.y - pos.y } }
    }

    /// The minimum corner.
    pub fn min(&self) -> (r: Vector2)
        ensures
            r == self.pos,
    {
        self.pos
    }

    /// The maximum corner: `pos + dimensions`.
    pub fn max(&self) -> (r: Vector2)
        requires
            self.wf(),
            i64::MIN <= self.spec_max_x(),
            i64::MIN <= self.spec_max_y(),
        ensures
            r.x == self.spec_max_x() && r.y == self.spec_max_y(),
    {
        Vector2 { x: self.pos.x + self.dimensions.x, y: self.pos.y + self.dimensions.y }
    }

    /// The extent along x.
    pub fn width(&self) -> (r: i64)
        ensures
            r == self.dimensions.x,
    {
        self.dimensions.x
    }

    /// The extent along y.
    pub fn height(&self) -> (r: i64)
        ensures
            r == self.dimensions.y,
    {
        self.dimensions.y
    }

    /// Both extents.
    pub fn dimensions(&self) -> (r: Vector2)
        ensures
            r == self.dimensions,
    {
        self.dimensions
    }

    /// Whether the rectangle has zero extent in both axes.
    pub fn is_dimensionless(&self) -> (r: bool)
        ensures
            r == self.spec_dimensionless(),
    {
        self.dimensions.x == 0 && self.dimensions.y == 0
    }

    /// Grows the rectangle just enough to contain `point`.
    pub fn fit_point(&self, point: Vector2) -> (r: Self)
        requires
            self.wf(),
            (if self.spec_max_x() >= point.x { self.spec_max_x() } else { point.x as int })
                - (if self.pos.x <= point.x { self.pos.x as int } else { point.x as int })
                <= i64::MAX,
            (if self.spec_max_y() >= point.y { self.spec_max_y() } else { point.y as int })
                - (if self.pos.y <= point.y { self.pos.y as int } else { point.y as int })
                <= i64::MAX,
        ensures
            r.pos.x == if self.pos.x <= point.x { self.pos.x } else { point.x },
            r.pos.y == if self.pos.y <= point.y { self.pos.y } else { point.y },
            r.spec_max_x() == if self.spec_max_x() >= point.x {
                self.spec_max_x()
            } else {
                point.x as int
            },
            r.spec_max_y() == if self.spec_max_y() >= point.y {
                self.spec_max_y()
            } else {
                point.y as int
            },
            r.wf(),
            r.spec_encloses(*self),
    {
        let pos = self.pos.min(point);
        let mx = self.pos.x + self.dimensions.x;
        let my = self.pos.y + self.dimensions.y;
        let top = Vector2 { x: if mx >= point.x { mx } else { point.x }, y: if my >= point.y { my } else { point.y } };
        Self { pos, dimensions: Vector2 { x: top.x - pos.x, y: top.y - pos.y } }
    }

    /// The union of two rectangles; a dimensionless argument is returned
    /// unchanged as the identity.
    pub fn fit_rect(&self, rect: Rect2D) -> (r: Self)
        requires
            self.wf(),
            rect.wf(),
            (if self.spec_max_x() >= rect.spec_max_x() { self.spec_max_x() } else { rect.spec_max_x() })
                - (if self.pos.x <= rect.pos.x { self.pos.x as int } else { rect.pos.x as int })
                <= i64::MAX,
            (if self.spec_max_y() >= rect.spec_max_y() { self.spec_max_y() } else { rect.spec_max_y() })
                - (if self.pos.y <= rect.pos.y { self.pos.y as int } else { rect.pos.y as int })
                <= i64::MAX,
        ensures
            r == Self::spec_fit(*self, rect),
            r.wf(),
            self.spec_bounded() && rect.spec_bounded() ==> r.spec_bounded(),
    {
        if self.is_dimensionless() {
            return rect;
        }
        if rect.is_dimensionless() {
            return *self;
        }
        let pos = self.pos.min(rect.pos);
        let ax = self.pos.x + self.dimensions.x;
        let ay = self.pos.y + self.dimensions.y;
        let bx = rect.pos.x + rect.dimensions.x;
        let by = rect.pos.y + rect.dimensions.y;
        let top = Vector2 { x: if ax >= bx { ax } else { bx }, y: if ay >= by { ay } else { by } };
        Self { pos, dimensions: Vector2 { x: top.x - pos.x, y: top.y - pos.y } }
    }

    /// Whether `point` lies inside the rectangle, borders included.
    pub fn is_point_inside(&self, point: Vector2) -> (r: bool)
        requires
            self.wf(),
        ensures
            r <==> (self.pos.x <= point.x <= self.spec_max_x() && self.pos.y <= point.y
                <= self.spec_max_y()),
    {
        let mx = self.pos.x + self.dimensions.x;
        let my = self.pos.y + self.dimensions.y;
        self.pos.x <= point.x && point.x <= mx && self.pos.y <= point.y && point.y <= my
    }

    /// The centroid, rounded towards the minimum corner.
    pub fn center(&self) -> (r: Vector2)
        requires
            self.wf(),
        ensures
            r.x == self.pos.x + self.dimensions.x / 2,
            r.y == self.pos.y + self.dimensions.y / 2,
    {
        Vector2 { x: self.pos.x + self.dimensions.x / 2, y: self.pos.y + self.dimensions.y / 2 }
    }
}

/// The union is commutative whenever at most one argument is
/// dimensionless; two distinct dimensionless rectangles carry no extent to
/// order.
pub proof fn lemma_fit_commutative(a: Rect2D, b: Rect2D)
    requires
        !(a.spec_dimensionless() && b.spec_dimensionless()),
    ensures
        Rect2D::spec_fit(a, b) == Rect2D::spec_fit(b, a),
{
}

/// The union of a rectangle with itself changes nothing.
pub proof fn lemma_fit_idempotent(a: Rect2D)
    requires
        a.wf(),
    ensures
        Rect2D::spec_fit(a, a) == a,
{
}

/// A dimensionless rectangle is the union identity.
pub proof fn lemma_fit_identity(a: Rect2D, z: Rect2D)
    requires
        z.spec_dimensionless(),
    ensures
        Rect2D::spec_fit(z, a) == a,
        a.spec_dimensionless() || Rect2D::spec_fit(a, z) == a,
{
}

/// The union encloses both of its non-dimensionless arguments, and it is
/// dimensionless only when both arguments are.
pub proof fn lemma_fit_encloses(a: Rect2D, b: Rect2D)
    requires
        a.wf(),
        b.wf(),
        (if a.spec_max_x() >= b.spec_max_x() { a.spec_max_x() } else { b.spec_max_x() })
            - (if a.pos.x <= b.pos.x { a.pos.x as int } else { b.pos.x as int }) <= i64::MAX,
        (if a.spec_max_y() >= b.spec_max_y() { a.spec_max_y() } else { b.spec_max_y() })
            - (if a.pos.y <= b.pos.y { a.pos.y as int } else { b.pos.y as int }) <= i64::MAX,
    ensures
        !a.spec_dimensionless() ==> Rect2D::spec_fit(a, b).spec_encloses(a),
        !b.spec_dimensionless() ==> Rect2D::spec_fit(a, b).spec_encloses(b),
        Rect2D::spec_fit(a, b).spec_dimensionless() <==> (a.spec_dimensionless()
            && b.spec_dimensionless()),
        Rect2D::spec_fit(a, b).wf(),
{
}

} // verus!

use existant::algebra::{Groupoid, Semimodule};
use existant::complex::Complex;
use existant::geometry::{Centroid, PolygonOrdering, VertexShape};
use existant::mat2x2::Matrix2x2;
use existant::mat3x2::Matrix3x2;
use existant::mat3x3::Matrix3x3;
use existant::mat4x4::Matrix4x4;
use existant::properties::{Absorption, Addition, Identity, Inverse, Multiplication};
use existant::quaternion::Quaternion;
use existant::rect2d::Rect2D;
use existant::segment2d::LinearSegment2D;
use existant::shape2d::Shape2D;
use existant::sphere2d::Sphere2D;
use existant::vec2d::Vector2;
use existant::vec3d::Vector3;
use existant::vec4d::Vector4;
use existant::vectors::{project, reflect};

#[test]
fn vector2_arithmetic() {
    let a = Vector2::new(3, -2);
    let b = Vector2::new(1, 5);
    assert_eq!(a.add(b), Vector2::new(4, 3));
    assert_eq!(a.sub(b), Vector2::new(2, -7));
    assert_eq!(a.mul(b), Vector2::new(3, -10));
    assert_eq!(a.scalar_multiplication(-2), Vector2::new(-6, 4));
    assert_eq!(a.inner_product(b), 3 - 10);
    assert_eq!(a.wedge_product(b), 15 + 2);
    assert_eq!(a.min(b), Vector2::new(1, -2));
    assert_eq!(a.max(b), Vector2::new(3, 5));
    assert_eq!(a.perpendicular(), Vector2::new(2, 3));
    assert_eq!(a.x(), 3);
    assert_eq!(a.y(), -2);
    assert_eq!(a.len(), 2);
    assert_eq!(Vector2::right(), Vector2::new(1, 0));
    assert_eq!(Vector2::left(), Vector2::new(-1, 0));
    assert_eq!(Vector2::top(), Vector2::new(0, 1));
    assert_eq!(Vector2::bottom(), Vector2::new(0, -1));
}

#[test]
fn vector3_arithmetic() {
    let a = Vector3::new(1, 2, 3);
    let b = Vector3::new(4, 5, 6);
    assert_eq!(a.add(b), Vector3::new(5, 7, 9));
    assert_eq!(a.sub(b), Vector3::new(-3, -3, -3));
    assert_eq!(a.inner_product(b), 4 + 10 + 18);
    // the cross product of two known vectors
    assert_eq!(a.wedge_product(b), Vector3::new(-3, 6, -3));
    assert_eq!(a.scalar_multiplication(3), Vector3::new(3, 6, 9));
    assert_eq!(Vector3::forward(), Vector3::new(0, 0, 1));
    assert_eq!(Vector3::backward(), Vector3::new(0, 0, -1));
    assert_eq!(a.len(), 3);
    assert_eq!((a.x(), a.y(), a.z()), (1, 2, 3));
}

#[test]
fn vector4_arithmetic() {
    let a = Vector4::new(1, 2, 3, 4);
    let b = Vector4::new(5, 6, 7, 8);
    assert_eq!(a.add(b), Vector4::new(6, 8, 10, 12));
    assert_eq!(a.sub(b), Vector4::new(-4, -4, -4, -4));
    assert_eq!(a.inner_product(b), 5 + 12 + 21 + 32);
    assert_eq!(a.scalar_multiplication(-1), Vector4::new(-1, -2, -3, -4));
    assert_eq!((a.x(), a.y(), a.z(), a.w()), (1, 2, 3, 4));
    assert_eq!(a.len(), 4);
    assert_eq!(Vector4::top(), Vector4::new(0, 1, 0, 0));
}

#[test]
fn groupoid_operations_on_scalars_and_vectors() {
    let r: i64 = Groupoid::<Addition>::op(&3, &4);
    assert_eq!(r, 7);
    let s: i64 = Groupoid::<Multiplication>::op(&3, &4);
    assert_eq!(s, 12);
    let v = Groupoid::<Addition>::op(&Vector2::new(1, 2), &Vector2::new(3, 4));
    assert_eq!(v, Vector2::new(4, 6));
    let w = Semimodule::<Multiplication, Addition>::scalar_multiplication(&Vector2::new(1, 2), 5);
    assert_eq!(w, Vector2::new(5, 10));
}

#[test]
fn identities_and_inverses() {
    let zero: i64 = <i64 as Identity<Addition>>::identity();
    assert_eq!(zero, 0);
    let one: i64 = <i64 as Identity<Multiplication>>::identity();
    assert_eq!(one, 1);
    assert!(<i64 as Identity<Addition>>::is_identity(&0));
    assert!(!<i64 as Identity<Addition>>::is_identity(&3));
    let neg: i64 = <i64 as Inverse<Addition>>::inverse(5);
    assert_eq!(neg, -5);
    let absorb: i64 = <i64 as Absorption<Multiplication>>::absorbing();
    assert_eq!(absorb, 0);
    let vid: Vector2 = <Vector2 as Identity<Addition>>::identity();
    assert_eq!(vid, Vector2::new(0, 0));
    let vinv: Vector2 = <Vector2 as Inverse<Addition>>::inverse(Vector2::new(2, -3));
    assert_eq!(vinv, Vector2::new(-2, 3));
}

#[test]
fn matrix2x2_determinant_family() {
    let m = Matrix2x2::new(Vector2::new(1, 3), Vector2::new(2, 4));
    // columns (1,3) and (2,4): determinant 1*4 - 3*2
    assert_eq!(m.determinant(), -2);
    assert_eq!(m.minor(0, 0), 4);
    assert_eq!(m.minor(1, 1), 1);
    assert_eq!(m.cofactor(0, 1), -2);
    let c = m.cofactor_matrix();
    assert_eq!(c, Matrix2x2::new(Vector2::new(4, -2), Vector2::new(-3, 1)));
    let t = m.transpose();
    assert_eq!(t, Matrix2x2::new(Vector2::new(1, 2), Vector2::new(3, 4)));
    let e = Matrix2x2::empty();
    assert_eq!(e.add(m), m);
    assert_eq!(m.sub(m), e);
    let d = Matrix2x2::from_diagonal(Vector2::new(1, 1));
    assert!(d.is_identity());
    assert!(!m.is_identity());
}

#[test]
fn matrix_rows_and_transpose() {
    let mut m = Matrix3x3::empty();
    m.set_x_row(Vector3::new(1, 2, 3));
    m.set_y_row(Vector3::new(4, 5, 6));
    m.set_z_row(Vector3::new(7, 8, 9));
    assert_eq!(m.get_x_row(), Vector3::new(1, 2, 3));
    assert_eq!(m.get_y_row(), Vector3::new(4, 5, 6));
    assert_eq!(m.get_z_row(), Vector3::new(7, 8, 9));
    let t = m.transpose();
    assert_eq!(t.get_x_row(), Vector3::new(1, 4, 7));
    assert!(Matrix3x3::from_diagonal(Vector3::new(1, 1, 1)).is_identity());

    let mut r = Matrix3x2::new(Vector2::new(0, 0), Vector2::new(0, 0), Vector2::new(0, 0));
    r.set_x_row(Vector3::new(1, 2, 3));
    r.set_y_row(Vector3::new(4, 5, 6));
    let rt = r.transpose();
    assert_eq!(rt.x, Vector3::new(1, 2, 3));
    assert_eq!(rt.y, Vector3::new(4, 5, 6));
}

#[test]
fn matrix3x3_determinant_family() {
    let m = Matrix3x3::new(Vector3::new(1, 2, 3), Vector3::new(4, 5, 6), Vector3::new(7, 8, 10));
    assert_eq!(m.determinant(), -3);
    assert_eq!(m.minor(0, 0), 5 * 10 - 6 * 8);
    assert_eq!(m.cofactor(0, 0), 2);
    // the minor at column 1, row 0 is 2 * 10 - 3 * 8 = -4; the odd
    // position flips its sign
    assert_eq!(m.cofactor(1, 0), 4);
    assert_eq!(Matrix3x3::from_diagonal(Vector3::new(2, 3, 4)).determinant(), 24);
}

#[test]
fn matrix4x4_minors() {
    let m = Matrix4x4::from_diagonal(Vector4::new(2, 3, 4, 5));
    // deleting the first column and row leaves diag(3, 4, 5)
    assert_eq!(m.minor(0, 0), 60);
    assert_eq!(m.minor(1, 1), 40);
    assert_eq!(m.minor(0, 1), 0);
    assert_eq!(m.cofactor(0, 0), 60);
    assert_eq!(m.cofactor(1, 0), 0);
}

#[test]
fn matrix4x4_determinant() {
    assert_eq!(Matrix4x4::from_diagonal(Vector4::new(2, 3, 4, 5)).determinant(), 120);
    // an upper-triangular matrix: the determinant is the diagonal product
    let t = Matrix4x4::new(
        Vector4::new(1, 0, 0, 0),
        Vector4::new(0, 2, 0, 0),
        Vector4::new(0, 0, 3, 0),
        Vector4::new(1, 1, 1, 4),
    );
    assert_eq!(t.determinant(), 24);
}

#[test]
fn matrix4x4_rows_and_identity() {
    let m = Matrix4x4::from_diagonal(Vector4::new(1, 1, 1, 1));
    assert!(m.is_identity());
    assert_eq!(m.get_w_row(), Vector4::new(0, 0, 0, 1));
    let mut n = m;
    n.set_w_row(Vector4::new(9, 9, 9, 9));
    assert_eq!(n.get_w_row(), Vector4::new(9, 9, 9, 9));
    assert_eq!(n.get_x_row(), Vector4::new(1, 0, 0, 0));
    assert!(!n.is_identity());
}

#[test]
fn complex_numbers() {
    let a = Complex::new(1, 2);
    let b = Complex::new(3, -1);
    assert_eq!((a.real_part(), a.imaginary()), (1, 2));
    assert_eq!((a.r(), a.i()), (1, 2));
    let s = a.add(b);
    assert_eq!((s.r(), s.i()), (4, 1));
    // (1 + 2i)(3 - i) = 5 + 5i
    let p = a.mul(b);
    assert_eq!((p.r(), p.i()), (5, 5));
    let c = a.conjugate();
    assert_eq!((c.r(), c.i()), (1, -2));
}

#[test]
fn quaternions() {
    let q = Quaternion::new(1, 2, 3, 4);
    assert_eq!((q.r(), q.i(), q.j(), q.k()), (1, 2, 3, 4));
    let c = q.conjugate();
    assert_eq!((c.r(), c.i(), c.j(), c.k()), (1, -2, -3, -4));
    // i * j = k in Hamilton's algebra
    let i = Quaternion::new(0, 1, 0, 0);
    let j = Quaternion::new(0, 0, 1, 0);
    let k = i.mul(j);
    assert_eq!((k.r(), k.i(), k.j(), k.k()), (0, 0, 0, 1));
    // q times its conjugate gives the squared norm as the scalar part
    let n = q.mul(c);
    assert_eq!((n.r(), n.i(), n.j(), n.k()), (30, 0, 0, 0));
    let s = q.add(q);
    assert_eq!((s.r(), s.i(), s.j(), s.k()), (2, 4, 6, 8));
}

#[test]
fn sphere_point_intersection() {
    // radius is a squared length: 25 holds points within distance 5
    let s = Sphere2D::new(Vector2::new(1, 1), 25);
    assert_eq!(s.center(), Vector2::new(1, 1));
    assert_eq!(s.radius(), 25);
    assert_eq!(s.distance_from_center(Vector2::new(4, 5)), 25);
    assert_eq!(s.point_intersection(Vector2::new(4, 5)), Some(25));
    assert_eq!(s.point_intersection(Vector2::new(1, 2)), Some(1));
    assert_eq!(s.point_intersection(Vector2::new(7, 1)), None);
}

#[test]
fn segments() {
    let s = LinearSegment2D::new(Vector2::new(5, -1), Vector2::new(2, 3));
    assert_eq!(s.min(), Vector2::new(2, -1));
    assert_eq!(s.max(), Vector2::new(5, 3));
    assert_eq!(s.points[0], Vector2::new(5, -1));
}

#[test]
fn shapes_from_rectangles() {
    let r = Rect2D::new(Vector2::new(0, 0), Vector2::new(2, 1));
    let verts = r.vertices();
    assert_eq!(
        verts,
        vec![
            Vector2::new(0, 0),
            Vector2::new(2, 0),
            Vector2::new(2, 1),
            Vector2::new(0, 1),
        ]
    );
    assert_eq!(r.indices(PolygonOrdering::CounterClockwise), vec![0, 1, 2, 2, 3, 0]);
    assert_eq!(r.indices(PolygonOrdering::Clockwise), vec![0, 2, 1, 2, 0, 3]);
    assert_eq!(Centroid::center(&r), Vector2::new(1, 0));
    let shape = Shape2D::from_vertices(&r, PolygonOrdering::CounterClockwise);
    assert_eq!(shape.vertex_count(), 4);
    assert_eq!(shape.index_count(), 6);
    let direct = Shape2D::new(verts, vec![0, 1, 2]);
    assert_eq!(direct.vertex_count(), 4);
    assert_eq!(direct.index_count(), 3);
}

#[test]
fn reflect_and_project() {
    // reflecting a falling vector on a floor with unit normal <0, 1>
    let out = reflect(Vector2::new(3, -4), Vector2::new(0, 1));
    assert_eq!(out, Vector2::new(3, 4));
    // projecting onto the x axis keeps the x component
    let p = project(Vector2::new(3, 7), Vector2::new(1, 0));
    assert_eq!(p, Vector2::new(3, 0));
    // projection scale rounds towards zero in integer arithmetic
    let q = project(Vector2::new(3, 1), Vector2::new(2, 0));
    assert_eq!(q, Vector2::new(2, 0));
}

use existant::bvh2d::{BVH2D, BVH2DNodeTraverse, EmptyInputError};
use existant::geometry::BoundingBox;
use existant::heap::{ilog2, pow2_exec, to_power_of_two, RawHeap};
use existant::morton::MortonU32;
use existant::rect2d::Rect2D;
use existant::vec2d::Vector2;

fn rect(x: i64, y: i64, w: i64, h: i64) -> Rect2D {
    Rect2D::new(Vector2::new(x, y), Vector2::new(w, h))
}

fn four_corner_rects() -> Vec<Rect2D> {
    vec![rect(0, 0, 1, 1), rect(1, 0, 1, 1), rect(0, 1, 1, 1), rect(1, 1, 1, 1)]
}

#[test]
fn power_of_two_rounding() {
    assert_eq!(to_power_of_two(0), 1);
    assert_eq!(to_power_of_two(1), 1);
    assert_eq!(to_power_of_two(2), 2);
    assert_eq!(to_power_of_two(3), 4);
    assert_eq!(to_power_of_two(4), 4);
    assert_eq!(to_power_of_two(5), 8);
    assert_eq!(to_power_of_two(1023), 1024);
}

#[test]
fn integer_log2() {
    assert_eq!(ilog2(1), 0);
    assert_eq!(ilog2(2), 1);
    assert_eq!(ilog2(3), 1);
    assert_eq!(ilog2(4), 2);
    assert_eq!(ilog2(255), 7);
    assert_eq!(ilog2(256), 8);
    assert_eq!(pow2_exec(10), 1024);
}

#[test]
fn heap_shape_and_index_arithmetic() {
    let heap = RawHeap::new(4, 0u64);
    assert_eq!(heap.len(), 7);
    assert_eq!(heap.depth(), 2);
    assert_eq!(RawHeap::<u64>::left_child(0), 1);
    assert_eq!(RawHeap::<u64>::right_child(0), 2);
    assert_eq!(RawHeap::<u64>::left_child(2), 5);
    assert_eq!(RawHeap::<u64>::parent(5), 2);
    assert_eq!(RawHeap::<u64>::parent(1), 0);
}

#[test]
fn heap_leaves_are_the_last_level() {
    let heap = RawHeap::new(4, 0u64);
    // slots [3, 6] are the leaves of a 7-slot tree, and no others
    for i in 0..7 {
        assert_eq!(heap.is_leaf(i), (3..=6).contains(&i));
    }
}

#[test]
fn heap_depth_slices() {
    let v: Vec<u32> = (0..7).collect();
    let heap = RawHeap::from_vec(v);
    assert_eq!(heap.get_depth_slice(0).unwrap(), &[0]);
    assert_eq!(heap.get_depth_slice(1).unwrap(), &[1, 2]);
    assert_eq!(heap.get_depth_slice(2).unwrap(), &[3, 4, 5, 6]);
    assert!(heap.get_depth_slice(3).is_none());
}

#[test]
fn heap_from_iter_pads_leaves() {
    let heap = RawHeap::from_iter(vec![7u64, 8, 9], 0);
    assert_eq!(heap.len(), 7);
    assert_eq!(heap.get_depth_slice(2).unwrap(), &[7, 8, 9, 0]);
}

#[test]
fn morton_keys_interleave_bits() {
    assert_eq!(MortonU32::encode_xy(0, 0).0, 0);
    assert_eq!(MortonU32::encode_xy(1, 0).0, 1);
    assert_eq!(MortonU32::encode_xy(0, 1).0, 2);
    assert_eq!(MortonU32::encode_xy(3, 5).0, 39);
    assert_eq!(MortonU32::encode_xy(0xFFFF, 0).0, 0x55555555);
    assert_eq!(MortonU32::encode_xy(0, 0xFFFF).0, 0xAAAAAAAA);
}

#[test]
fn rect_from_bounds_orders_corners() {
    let r = Rect2D::from_bounds(Vector2::new(5, -2), Vector2::new(1, 3));
    assert_eq!(r.min(), Vector2::new(1, -2));
    assert_eq!(r.dimensions(), Vector2::new(4, 5));
    assert_eq!(r.max(), Vector2::new(5, 3));
}

#[test]
fn rect_union_and_identity() {
    let a = rect(0, 0, 1, 1);
    let b = rect(3, 2, 1, 1);
    let u = a.fit_rect(b);
    assert_eq!(u, rect(0, 0, 4, 3));
    // the union is commutative and idempotent
    assert_eq!(b.fit_rect(a), u);
    assert_eq!(a.fit_rect(a), a);
    // a dimensionless rectangle is the identity
    let z = Rect2D::dimensionless();
    assert!(z.is_dimensionless());
    assert_eq!(z.fit_rect(a), a);
    assert_eq!(a.fit_rect(z), a);
}

#[test]
fn rect_point_queries() {
    let a = rect(1, 1, 2, 2);
    assert!(a.is_point_inside(Vector2::new(1, 1)));
    assert!(a.is_point_inside(Vector2::new(3, 3)));
    assert!(a.is_point_inside(Vector2::new(2, 2)));
    assert!(!a.is_point_inside(Vector2::new(0, 2)));
    assert!(!a.is_point_inside(Vector2::new(2, 4)));
    assert_eq!(a.center(), Vector2::new(2, 2));
    let grown = a.fit_point(Vector2::new(-1, 2));
    assert_eq!(grown, rect(-1, 1, 4, 2));
}

#[test]
fn empty_input_is_rejected() {
    let r = BVH2D::<Rect2D>::new(Vec::new());
    assert!(matches!(r, Err(EmptyInputError)));
}

#[test]
fn four_corners_tree_shape() {
    // four unit rectangles at the corners of a 2 x 2 square
    let bvh = BVH2D::new(four_corner_rects()).unwrap();
    assert_eq!(bvh.rects.len(), 7);
    assert_eq!(bvh.depth(), 2);
    assert_eq!(bvh.leaf_count(), 4);
    assert_eq!(bvh.root_bounds(), rect(0, 0, 2, 2));
}

#[test]
fn four_corners_leaf_order_and_internal_unions() {
    let bvh = BVH2D::new(four_corner_rects()).unwrap();
    // Morton order of the quantized centroids: (0,0), (1,0), (0,1), (1,1)
    let leaves = bvh.rects.get_depth_slice(2).unwrap();
    assert_eq!(leaves, &[rect(0, 0, 1, 1), rect(1, 0, 1, 1), rect(0, 1, 1, 1), rect(1, 1, 1, 1)]);
    // each internal slot is the union of its two children
    assert_eq!(bvh.rects.get_depth_slice(1).unwrap(), &[rect(0, 0, 2, 1), rect(0, 1, 2, 1)]);
    assert_eq!(bvh.rects.get_depth_slice(0).unwrap(), &[rect(0, 0, 2, 2)]);
}

#[test]
fn four_corners_point_match_traversal() {
    let bvh = BVH2D::new(four_corner_rects()).unwrap();
    // an exact point-match predicate: admit subtrees whose rectangle
    // holds the query point, score a leaf by admission
    let queries = [
        (Vector2::new(0, 0), rect(0, 0, 1, 1)),
        (Vector2::new(2, 0), rect(1, 0, 1, 1)),
        (Vector2::new(0, 2), rect(0, 1, 1, 1)),
        (Vector2::new(2, 2), rect(1, 1, 1, 1)),
    ];
    for (p, expected) in queries {
        let found = bvh.traverse(|node| match node {
            BVH2DNodeTraverse::Node(r) => {
                if r.is_point_inside(p) {
                    Some(0)
                } else {
                    None
                }
            }
            BVH2DNodeTraverse::Leaf(o) => {
                if o.is_point_inside(p) {
                    Some(0)
                } else {
                    None
                }
            }
        });
        assert_eq!(found, Some(&expected));
    }
}

#[test]
fn rejecting_predicate_finds_nothing() {
    let bvh = BVH2D::new(four_corner_rects()).unwrap();
    let found = bvh.traverse(|_| None);
    assert_eq!(found, None);
}

#[test]
fn node_views_classify() {
    let bvh = BVH2D::new(four_corner_rects()).unwrap();
    let root = bvh.get_node(0);
    assert!(root.is_node());
    assert!(!root.is_leaf());
    let leaf = bvh.get_node(3);
    assert!(leaf.is_leaf());
    assert!(!leaf.is_node());
}

#[test]
fn table_round_trip() {
    let objects = four_corner_rects();
    let bvh = BVH2D::new(objects.clone()).unwrap();
    // every object index appears exactly once in the leaf index table
    let mut seen = vec![false; objects.len()];
    for &(_, oi) in bvh.indices.iter() {
        assert!(!seen[oi as usize]);
        seen[oi as usize] = true;
    }
    assert!(seen.iter().all(|&s| s));
    // the leaf slot of each object resolves back to that exact object
    for (t, &(_, oi)) in bvh.indices.iter().enumerate() {
        match bvh.get_node(3 + t) {
            BVH2DNodeTraverse::Leaf(o) => assert_eq!(o, &objects[oi as usize]),
            BVH2DNodeTraverse::Node(_) => panic!("leaf slot classified as internal"),
        }
    }
}

#[test]
fn rebuild_from_permutation_is_stable() {
    let objects = four_corner_rects();
    let permuted = vec![objects[3], objects[1], objects[0], objects[2]];
    let a = BVH2D::new(objects).unwrap();
    let b = BVH2D::new(permuted).unwrap();
    // same root bounds, and the same leaf rectangles: Morton order
    // depends only on spatial position
    assert_eq!(a.root_bounds(), b.root_bounds());
    assert_eq!(a.rects.get_depth_slice(2).unwrap(), b.rects.get_depth_slice(2).unwrap());
}

#[test]
fn equal_keys_keep_object_order() {
    // two identical rectangles quantize to the same Morton key; the
    // sort is stable, so the table keeps their original order
    let objects = vec![rect(0, 0, 2, 2), rect(0, 0, 2, 2), rect(1, 1, 1, 1)];
    let bvh = BVH2D::new(objects).unwrap();
    let ties: Vec<u32> = bvh
        .indices
        .iter()
        .filter(|(k, _)| *k == bvh.indices[0].0)
        .map(|&(_, oi)| oi)
        .collect();
    let mut sorted = ties.clone();
    sorted.sort();
    assert_eq!(ties, sorted);
    assert_eq!(ties.contains(&0), true);
    assert_eq!(ties.contains(&1), true);
}

#[test]
fn bounding_box_of_a_rect_is_itself() {
    let a = rect(2, 3, 4, 5);
    assert_eq!(a.bounding_box(), a);
}

//! A bounding-volume hierarchy over 2-D objects: an implicit binary tree
//! of bounding rectangles built bottom-up over leaves ordered by Morton
//! key, with a table mapping each leaf slot back to its object.
//!
//! Construction is `O(n log n)`: each object's bounding rectangle is
//! computed, its centroid is quantized against the scene bounds and
//! encoded as a Morton key, the `(key, index)` pairs are sorted, and the
//! rectangle heap is reduced bottom-up with the rectangle union. The
//! structure is build-once, query-many: queries borrow, never mutate.

use vstd::prelude::*;
use vstd::arithmetic::power2::{pow2, lemma_pow2_unfold, lemma_pow2_strictly_increases};
use crate::geometry::BoundingBox;
use crate::heap::{RawHeap, next_pow2, max_capacity, lg};
use crate::morton::{MortonU32, interleave};
use crate::rect2d::Rect2D;
use crate::vec2d::Vector2;

verus! {

/// The bounding rectangles of a sequence of objects, in object order.
pub open spec fn bboxes<Object: BoundingBox>(objects: Seq<Object>) -> Seq<Rect2D> {
    Seq::new(objects.len(), |i: int| objects[i].spec_bbox())
}

/// The union of a sequence of rectangles, folded left starting from the
/// dimensionless identity.
pub open spec fn scene_of(rs: Seq<Rect2D>) -> Rect2D
    decreases rs.len(),
{
    if rs.len() == 0 {
        Rect2D { pos: Vector2 { x: 0, y: 0 }, dimensions: Vector2 { x: 0, y: 0 } }
    } else {
        Rect2D::spec_fit(scene_of(rs.drop_last()), rs.last())
    }
}

/// Clamps `v` into `[0, hi]`.
pub open spec fn clamp_to(v: int, hi: int) -> int {
    if v < 0 {
        0
    } else if v > hi {
        hi
    } else {
        v
    }
}

/// One quantized centroid coordinate on the `[0, 1024]` grid: the doubled
/// centroid `c2`, measured from the doubled scene minimum `smin2`, scaled
/// by 512 over the scene extent `sdim`. A flat scene axis maps to 0.
pub open spec fn quant(c2: int, smin2: int, sdim: int) -> int {
    if sdim <= 0 {
        0
    } else {
        clamp_to(c2 - smin2, 2 * sdim) * 512 / sdim
    }
}

/// The doubled x centroid of a rectangle: `2 pos + extent`, exact where a
/// halved centroid would round.
pub open spec fn center2_x(r: Rect2D) -> int {
    2 * r.pos.x + r.dimensions.x
}

/// The doubled y centroid of a rectangle.
pub open spec fn center2_y(r: Rect2D) -> int {
    2 * r.pos.y + r.dimensions.y
}

/// The Morton key a rectangle sorts under, given the scene bounds.
pub open spec fn spec_key(r: Rect2D, scene: Rect2D) -> nat {
    interleave(
        quant(center2_x(r), 2 * scene.pos.x, scene.dimensions.x as int) as nat,
        quant(center2_y(r), 2 * scene.pos.y, scene.dimensions.y as int) as nat,
        16,
    )
}

/// `r` encloses every rectangle of `rs` that has any extent.
pub open spec fn encloses_all(r: Rect2D, rs: Seq<Rect2D>) -> bool {
    forall|j: int|
        0 <= j < rs.len() && !(#[trigger] rs[j]).spec_dimensionless() ==> r.spec_encloses(rs[j])
}

/// Every rectangle of `rs` is dimensionless.
pub open spec fn all_dimensionless(rs: Seq<Rect2D>) -> bool {
    forall|j: int| 0 <= j < rs.len() ==> (#[trigger] rs[j]).spec_dimensionless()
}

/// Each of `r`'s four bounds is attained by some rectangle of `rs` with
/// extent: `r` is tight around `rs`.
pub open spec fn attained(r: Rect2D, rs: Seq<Rect2D>) -> bool {
    &&& exists|j: int|
        0 <= j < rs.len() && !(#[trigger] rs[j]).spec_dimensionless() && rs[j].pos.x == r.pos.x
    &&& exists|j: int|
        0 <= j < rs.len() && !(#[trigger] rs[j]).spec_dimensionless() && rs[j].pos.y == r.pos.y
    &&& exists|j: int|
        0 <= j < rs.len() && !(#[trigger] rs[j]).spec_dimensionless() && rs[j].spec_max_x()
            == r.spec_max_x()
    &&& exists|j: int|
        0 <= j < rs.len() && !(#[trigger] rs[j]).spec_dimensionless() && rs[j].spec_max_y()
            == r.spec_max_y()
}

/// `r` is the union of `rs`: dimensionless when nothing in `rs` has
/// extent, otherwise the unique tight rectangle enclosing all of `rs`.
/// The characterization mentions no order, so the union is the same for
/// every permutation of `rs`.
pub open spec fn is_union_of(r: Rect2D, rs: Seq<Rect2D>) -> bool {
    if all_dimensionless(rs) {
        r.spec_dimensionless()
    } else {
        !r.spec_dimensionless() && encloses_all(r, rs) && attained(r, rs)
    }
}

/// Strict lexicographic order on `(key, object index)` pairs. Sorting by
/// it keeps equal keys in object order: the sort is stable.
pub open spec fn pair_lt(a: (MortonU32, u32), b: (MortonU32, u32)) -> bool {
    a.0.0 < b.0.0 || (a.0.0 == b.0.0 && a.1 < b.1)
}

/// Non-strict companion of `pair_lt`.
pub open spec fn pair_le(a: (MortonU32, u32), b: (MortonU32, u32)) -> bool {
    pair_lt(a, b) || a == b
}

/// The object indices of a pair sequence, in table order.
pub open spec fn seconds(s: Seq<(MortonU32, u32)>) -> Seq<u32> {
    s.map_values(|p: (MortonU32, u32)| p.1)
}

/// The identity table `0, 1, .., n - 1`.
pub open spec fn ident_seq(n: int) -> Seq<u32> {
    Seq::new(n as nat, |i: int| i as u32)
}

/// Sorts the `(key, index)` pairs lexicographically in place: ascending
/// by key, ties broken by original index, so the order is stable and
/// canonical whenever the indices are distinct.
fn sort_pairs(v: &mut Vec<(MortonU32, u32)>)
    ensures
        final(v)@.len() == old(v)@.len(),
        final(v)@.to_multiset() == old(v)@.to_multiset(),
        forall|a: int, b: int|
            0 <= a < b < final(v)@.len() ==> pair_le(final(v)@[a], final(v)@[b]),
{
    let n = v.len();
    if n < 2 {
        return ;
    }
    let mut i: usize = 1;
    while i < n
        invariant
            n == v@.len(),
            v@.to_multiset() == old(v)@.to_multiset(),
            1 <= i <= n,
            forall|a: int, b: int| 0 <= a < b < i ==> pair_le(v@[a], v@[b]),
        decreases n - i,
    {
        let mut j: usize = i;
        while j >= 1 && pair_less(v[j], v[j - 1])
            invariant
                n == v@.len(),
                v@.to_multiset() == old(v)@.to_multiset(),
                j <= i < n,
                forall|a: int, b: int|
                    0 <= a < b <= i && a != j && b != j ==> pair_le(v@[a], v@[b]),
                forall|a: int| j < a <= i ==> pair_le(v@[j as int], v@[a]),
            decreases j,
        {
            let ghost pre = v@;
            let x = v[j - 1];
            let y = v[j];
            v[j - 1] = y;
            v[j] = x;
            proof {
                broadcast use vstd::seq_lib::group_to_multiset_ensures;
                broadcast use vstd::seq_lib::to_multiset_update;

                assert(v@ == pre.update(j - 1, y).update(j as int, x));
                assert(pre.update(j - 1, y)[j as int] == y);
                assert(pre.to_multiset().contains(x));
                assert(pre.update(j - 1, y).to_multiset().contains(y)) by {
                    assert(pre.update(j - 1, y)[j as int] == y);
                }
                assert(v@.to_multiset() =~= pre.to_multiset());
            }
            j = j - 1;
        }
        proof {
            assert forall|a: int, b: int| 0 <= a < b <= i implies pair_le(v@[a], v@[b]) by {
                if b == j && a < j && a != j - 1 {
                    assert(pair_le(v@[a], v@[j - 1]));
                }
            }
        }
        i = i + 1;
    }
}

/// Exact lexicographic comparison of two `(key, index)` pairs.
fn pair_less(a: (MortonU32, u32), b: (MortonU32, u32)) -> (r: bool)
    ensures
        r == pair_lt(a, b),
{
    a.0.0 < b.0.0 || (a.0.0 == b.0.0 && a.1 < b.1)
}

/// Quantizes one doubled centroid coordinate against one scene axis.
fn quantize_axis(c2: i64, smin2: i64, sdim: i64) -> (q: u16)
    requires
        -2 * crate::rect2d::COORD_LIMIT <= c2 <= 2 * crate::rect2d::COORD_LIMIT,
        -2 * crate::rect2d::COORD_LIMIT <= smin2 <= 2 * crate::rect2d::COORD_LIMIT,
        sdim <= 2 * crate::rect2d::COORD_LIMIT,
    ensures
        q == quant(c2 as int, smin2 as int, sdim as int),
        q <= 1024,
{
    if sdim <= 0 {
        return 0;
    }
    let mut t = c2 - smin2;
    if t < 0 {
        t = 0;
    }
    let cap = 2 * sdim;
    if t > cap {
        t = cap;
    }
    let q = ((t as u64) * 512) / (sdim as u64);
    proof {
        vstd::arithmetic::div_mod::lemma_div_multiples_vanish(1024, sdim as int);
        vstd::arithmetic::div_mod::lemma_div_is_ordered(
            t as int * 512,
            1024 * (sdim as int),
            sdim as int,
        );
    }
    q as u16
}

/// Computes the Morton key of a rectangle's centroid within the scene.
fn quantize(r: &Rect2D, scene: &Rect2D) -> (k: MortonU32)
    requires
        r.spec_bounded(),
        scene.spec_bounded(),
    ensures
        k.0 == spec_key(*r, *scene),
{
    let qx = quantize_axis(
        2 * r.pos.x + r.dimensions.x,
        2 * scene.pos.x,
        scene.dimensions.x,
    );
    let qy = quantize_axis(
        2 * r.pos.y + r.dimensions.y,
        2 * scene.pos.y,
        scene.dimensions.y,
    );
    MortonU32::encode_xy(qx, qy)
}

/// The rejection a build answers on an empty object list: an empty set
/// has no bounds and no tree.
#[derive(Debug, Clone, Copy, PartialEq, Eq, Structural)]
pub struct EmptyInputError;

/// What a traversal sees at one slot: an internal node's merged rectangle,
/// or the object behind a leaf.
pub enum BVH2DNodeTraverse<'a, Object> {
    Node(&'a Rect2D),
    Leaf(&'a Object),
}

impl<'a, Object> BVH2DNodeTraverse<'a, Object> {
    /// Whether this view is an internal node.
    pub fn is_node(&self) -> (r: bool)
        ensures
            r == (self is Node),
    {
        if let BVH2DNodeTraverse::Node(_) = self {
            true
        } else {
            false
        }
    }

    /// Whether this view is a leaf.
    pub fn is_leaf(&self) -> (r: bool)
        ensures
            r == (self is Leaf),
    {
        if let BVH2DNodeTraverse::Leaf(_) = self {
            true
        } else {
            false
        }
    }
}

/// A bounding-volume hierarchy over 2-D objects.
pub struct BVH2D<Object: BoundingBox> {
    /// The rectangle heap: every internal slot is the union of its two
    /// children; the deepest level holds the objects' rectangles in Morton
    /// order, padded with dimensionless rectangles.
    pub rects: RawHeap<Rect2D>,
    /// The objects, in the order they were given.
    pub objects: Vec<Object>,
    /// The leaf index table: one `(key, object index)` pair per object,
    /// sorted by key; entry `t` belongs to leaf slot `L - 1 + t`.
    pub indices: Vec<(MortonU32, u32)>,
}

impl<Object: BoundingBox> BVH2D<Object> {
    /// The number of objects in the index.
    pub open spec fn spec_n(&self) -> nat {
        self.objects@.len()
    }

    /// The leaf capacity of the rectangle heap.
    pub open spec fn spec_l(&self) -> nat {
        self.rects.spec_leaf_count()
    }

    /// The internal invariant of a built index. `new` establishes it and
    /// every query requires it; the structure is read-only afterwards.
    pub open spec fn wf(&self) -> bool {
        let n = self.spec_n() as int;
        let l = self.spec_l() as int;
        let bb = bboxes(self.objects@);
        let scene = scene_of(bb);
        &&& 1 <= n <= u32::MAX
        &&& self.rects.wf()
        &&& l == next_pow2(n as nat)
        &&& n <= l
        &&& self.rects@.len() == 2 * l - 1
        &&& self.indices@.len() == n
        &&& forall|j: int| 0 <= j < n ==> (#[trigger] self.indices@[j]).1 < n
        &&& forall|j1: int, j2: int|
            0 <= j1 < j2 < n ==> pair_lt(self.indices@[j1], self.indices@[j2])
        &&& seconds(self.indices@).to_multiset() == ident_seq(n).to_multiset()
        &&& forall|j: int|
            0 <= j < n ==> (#[trigger] self.indices@[j]).0.0 == spec_key(
                bb[self.indices@[j].1 as int],
                scene,
            )
        &&& forall|t: int|
            l - 1 <= t < l - 1 + n ==> #[trigger] self.rects@[t] == bb[self.indices@[t - (l
                - 1)].1 as int]
        &&& forall|t: int|
            l - 1 + n <= t < 2 * l - 1 ==> #[trigger] self.rects@[t] == (Rect2D {
                pos: Vector2 { x: 0, y: 0 },
                dimensions: Vector2 { x: 0, y: 0 },
            })
        &&& forall|i: int|
            0 <= i < l - 1 ==> #[trigger] self.rects@[i] == Rect2D::spec_fit(
                self.rects@[2 * i + 1],
                self.rects@[2 * i + 2],
            )
        &&& forall|i: int| 0 <= i < 2 * l - 1 ==> (#[trigger] self.rects@[i]).spec_bounded()
        &&& forall|j: int| 0 <= j < n ==> (#[trigger] bb[j]).spec_bounded()
    }

    /// Builds the index over a finite object collection, or rejects an
    /// empty one. Objects' rectangles must be well-formed and stay within
    /// `COORD_LIMIT`; the collection must fit the machine.
    pub fn new(objects: Vec<Object>) -> (r: Result<Self, EmptyInputError>)
        requires
            objects@.len() <= u32::MAX,
            objects@.len() <= max_capacity(),
            forall|j: int|
                0 <= j < objects@.len() ==> (#[trigger] objects@[j].spec_bbox()).spec_bounded(),
        ensures
            match r {
                Result::Err(_) => objects@.len() == 0,
                Result::Ok(b) => {
                    &&& b.objects@ == objects@
                    &&& b.wf()
                },
            },
    {
        let n = objects.len();
        if n == 0 {
            return Err(EmptyInputError);
        }
        let ghost bb = bboxes(objects@);

        // Each object's bounding rectangle, in object order.
        let mut rects: Vec<Rect2D> = Vec::new();
        let mut j: usize = 0;
        while j < n
            invariant
                n == objects@.len(),
                bb == bboxes(objects@),
                j <= n,
                rects@.len() == j,
                forall|k: int| 0 <= k < j ==> #[trigger] rects@[k] == bb[k],
                forall|k: int|
                    0 <= k < n ==> (#[trigger] objects@[k].spec_bbox()).spec_bounded(),
            decreases n - j,
        {
            rects.push(objects[j].bounding_box());
            j = j + 1;
        }

        // The scene bounds: the union of every rectangle.
        let mut scene = Rect2D::dimensionless();
        let mut j2: usize = 0;
        while j2 < n
            invariant
                n == objects@.len(),
                bb == bboxes(objects@),
                j2 <= n,
                rects@.len() == n,
                forall|k: int| 0 <= k < n ==> #[trigger] rects@[k] == bb[k],
                forall|k: int| 0 <= k < n ==> (#[trigger] bb[k]).spec_bounded(),
                scene == scene_of(bb.take(j2 as int)),
                scene.spec_bounded(),
            decreases n - j2,
        {
            let ghost pre = scene;
            scene = scene.fit_rect(rects[j2]);
            proof {
                assert(bb.take(j2 + 1).drop_last() =~= bb.take(j2 as int));
                assert(bb.take(j2 + 1).last() == bb[j2 as int]);
            }
            j2 = j2 + 1;
        }
        proof {
            assert(bb.take(n as int) =~= bb);
        }

        // Morton keys of the quantized centroids, with the object index.
        let mut pairs: Vec<(MortonU32, u32)> = Vec::new();
        let mut j3: usize = 0;
        while j3 < n
            invariant
                n == objects@.len(),
                n <= u32::MAX,
                bb == bboxes(objects@),
                j3 <= n,
                rects@.len() == n,
                forall|k: int| 0 <= k < n ==> #[trigger] rects@[k] == bb[k],
                forall|k: int| 0 <= k < n ==> (#[trigger] bb[k]).spec_bounded(),
                scene == scene_of(bb),
                scene.spec_bounded(),
                pairs@.len() == j3,
                forall|k: int|
                    0 <= k < j3 ==> (#[trigger] pairs@[k]).0.0 == spec_key(bb[k], scene_of(bb))
                        && pairs@[k].1 == k,
            decreases n - j3,
        {
            let key = quantize(&rects[j3], &scene);
            pairs.push((key, j3 as u32));
            j3 = j3 + 1;
        }
        let ghost pairs0 = pairs@;

        // Sort by key; ties keep object order, so the table is canonical.
        sort_pairs(&mut pairs);

        proof {
            lemma_pairs_after_sort(pairs0, pairs@, n as int, bb, scene_of(bb));
        }

        // The leaf rectangles, in table order.
        let mut leaf_rects: Vec<Rect2D> = Vec::new();
        let mut t: usize = 0;
        while t < n
            invariant
                n == objects@.len(),
                bb == bboxes(objects@),
                t <= n,
                rects@.len() == n,
                pairs@.len() == n,
                forall|k: int| 0 <= k < n ==> #[trigger] rects@[k] == bb[k],
                forall|k: int| 0 <= k < n ==> (#[trigger] bb[k]).spec_bounded(),
                forall|k: int| 0 <= k < n ==> (#[trigger] pairs@[k]).1 < n,
                leaf_rects@.len() == t,
                forall|k: int|
                    0 <= k < t ==> #[trigger] leaf_rects@[k] == bb[pairs@[k].1 as int],
            decreases n - t,
        {
            let oi = pairs[t].1 as usize;
            leaf_rects.push(rects[oi]);
            t = t + 1;
        }

        // Reduce bottom-up with the rectangle union.
        let combine = |a: Rect2D, b: Rect2D| -> (rr: Rect2D)
            requires
                a.spec_bounded() && b.spec_bounded(),
            ensures
                rr == Rect2D::spec_fit(a, b),
                rr.spec_bounded(),
            { a.fit_rect(b) };
        let heap = RawHeap::bottom_up(
            leaf_rects,
            Rect2D::dimensionless(),
            combine,
            Ghost(|t: Rect2D| t.spec_bounded()),
        );

        let result = BVH2D { rects: heap, objects, indices: pairs };
        proof {
            crate::heap::lemma_next_pow2_ge(n as nat);
            let l = result.spec_l() as int;
            assert forall|tt: int| l - 1 <= tt < l - 1 + n implies #[trigger] result.rects@[tt]
                == bb[result.indices@[tt - (l - 1)].1 as int] by {
                assert(result.rects@[tt] == leaf_rects@[tt - (l - 1)]);
            }
            assert forall|i: int| 0 <= i < l - 1 implies #[trigger] result.rects@[i]
                == Rect2D::spec_fit(result.rects@[2 * i + 1], result.rects@[2 * i + 2]) by {
                assert(call_ensures(
                    combine,
                    (result.rects@[2 * i + 1], result.rects@[2 * i + 2]),
                    result.rects@[i],
                ));
                assert(result.rects@[2 * i + 1].spec_bounded());
                assert(result.rects@[2 * i + 2].spec_bounded());
            }
        }
        Ok(result)
    }
}

impl<Object: BoundingBox> BVH2D<Object> {
    /// Classifies a slot: an internal slot carries its merged rectangle, a
    /// leaf slot resolves through the index table to its object. Leaf
    /// slots beyond the object count are padding and carry no object.
    pub fn get_node(&self, index: usize) -> (r: BVH2DNodeTraverse<'_, Object>)
        requires
            self.wf(),
            index < self.rects@.len(),
            self.spec_l() - 1 <= index ==> index - (self.spec_l() - 1) < self.spec_n(),
        ensures
            match r {
                BVH2DNodeTraverse::Node(rc) => index < self.spec_l() - 1 && *rc
                    == self.rects@[index as int],
                BVH2DNodeTraverse::Leaf(o) => self.spec_l() - 1 <= index && *o
                    == self.objects@[self.indices@[index - (self.spec_l() - 1)].1 as int],
            },
    {
        proof {
            self.rects.lemma_shape();
        }
        if self.rects.is_leaf(index) {
            let entry = self.indices[index - (self.rects.len() / 2)];
            let obj = &self.objects[entry.1 as usize];
            BVH2DNodeTraverse::Leaf(obj)
        } else {
            let rect = self.rects.get(index);
            BVH2DNodeTraverse::Node(rect)
        }
    }

    /// Stack-based pruning search seeded at one slot. `f` scores a node
    /// view: `None` prunes the subtree, a score at a leaf makes it a
    /// candidate, and lower is better. The search is depth-first, not
    /// best-first: to find the globally best leaf, `f` must return at an
    /// internal node an admissible (never overestimating) bound for its
    /// subtree, in the branch-and-bound discipline. Padding leaves carry
    /// no object and are pruned without consulting `f`.
    fn traverse_inner<'a, F: Fn(BVH2DNodeTraverse<'a, Object>) -> Option<u64>>(
        &'a self,
        idx: usize,
        f: F,
    ) -> (r: Option<&'a Object>)
        requires
            self.wf(),
            idx < self.rects@.len(),
            forall|v: BVH2DNodeTraverse<'a, Object>| #[trigger] call_requires(f, (v,)),
        ensures
            match r {
                Option::Some(o) => {
                    &&& exists|j: int|
                        0 <= j < self.spec_n() && *o == self.objects@[self.indices@[j].1 as int]
                    &&& exists|s: u64|
                        call_ensures(f, (BVH2DNodeTraverse::Leaf(o),), Option::Some(s))
                },
                Option::None => true,
            },
            (forall|v: BVH2DNodeTraverse<'a, Object>, ret: Option<u64>|
                #[trigger] call_ensures(f, (v,), ret) ==> ret is None) ==> r is None,
    {
        let l_minus = self.rects.len() / 2;
        let n = self.objects.len();
        proof {
            self.rects.lemma_shape();
        }
        let mut stack: Vec<usize> = Vec::new();
        stack.push(idx);
        let mut best: Option<(u64, usize)> = None;
        let mut budget = self.rects.len();
        while budget > 0 && stack.len() > 0
            invariant
                self.wf(),
                self.rects@.len() <= usize::MAX,
                l_minus == self.spec_l() - 1,
                n == self.spec_n(),
                forall|k: int| 0 <= k < stack@.len() ==> #[trigger] stack@[k] < self.rects@.len(),
                forall|v: BVH2DNodeTraverse<'a, Object>| #[trigger] call_requires(f, (v,)),
                match best {
                    Option::Some(p) => {
                        &&& l_minus <= p.1 < l_minus + n
                        &&& exists|o: &Object|
                            *o == self.objects@[self.indices@[p.1 - l_minus].1 as int]
                                && call_ensures(
                                f,
                                (BVH2DNodeTraverse::Leaf(o),),
                                Option::Some(p.0),
                            )
                    },
                    Option::None => true,
                },
                (forall|v: BVH2DNodeTraverse<'a, Object>, ret: Option<u64>|
                    #[trigger] call_ensures(f, (v,), ret) ==> ret is None) ==> best is None,
            decreases budget,
        {
            budget = budget - 1;
            let top = match stack.pop() {
                Some(t) => t,
                None => { return None; },
            };
            let leaf = self.rects.is_leaf(top);
            if leaf && top - l_minus >= n {
                // a padding leaf: no object stands behind it
            } else {
                let node = self.get_node(top);
                match f(node) {
                    None => {},
                    Some(dist) => {
                        if leaf {
                            let better = match best {
                                None => true,
                                Some(p) => dist < p.0,
                            };
                            if better {
                                best = Some((dist, top));
                            }
                        } else {
                            stack.push(2 * top + 1);
                            stack.push(2 * top + 2);
                        }
                    },
                }
            }
        }
        match best {
            None => None,
            Some(p) => {
                let entry = self.indices[p.1 - l_minus];
                Some(&self.objects[entry.1 as usize])
            },
        }
    }

    /// Searches the whole tree for the best-scoring leaf under `f`,
    /// starting from the root. See `traverse_inner` for the discipline
    /// `f` must follow.
    pub fn traverse<'a, F: Fn(BVH2DNodeTraverse<'a, Object>) -> Option<u64>>(
        &'a self,
        f: F,
    ) -> (r: Option<&'a Object>)
        requires
            self.wf(),
            forall|v: BVH2DNodeTraverse<'a, Object>| #[trigger] call_requires(f, (v,)),
        ensures
            match r {
                Option::Some(o) => {
                    &&& exists|j: int|
                        0 <= j < self.spec_n() && *o == self.objects@[self.indices@[j].1 as int]
                    &&& exists|s: u64|
                        call_ensures(f, (BVH2DNodeTraverse::Leaf(o),), Option::Some(s))
                },
                Option::None => true,
            },
            (forall|v: BVH2DNodeTraverse<'a, Object>, ret: Option<u64>|
                #[trigger] call_ensures(f, (v,), ret) ==> ret is None) ==> r is None,
    {
        self.traverse_inner(0, f)
    }

    /// The root rectangle of a built index is the union of every object's
    /// individual bounding rectangle, order-independently: the union is
    /// characterized without reference to any order, and whenever some
    /// object has extent it equals the left fold of the rectangle union
    /// over the objects.
    pub proof fn lemma_root_is_union(&self)
        requires
            self.wf(),
        ensures
            is_union_of(self.rects@[0], bboxes(self.objects@)),
            !all_dimensionless(bboxes(self.objects@)) ==> self.rects@[0] == scene_of(
                bboxes(self.objects@),
            ),
            all_dimensionless(bboxes(self.objects@)) ==> self.rects@[
                0
            ].spec_dimensionless(),
    {
        let n = self.spec_n() as int;
        let l = self.spec_l() as int;
        let bb = bboxes(self.objects@);
        let h = self.rects@;
        self.rects.lemma_shape();
        let d = self.rects.spec_depth();
        lemma_heap_union(h, d, 0);
        assert(lg(1nat) == 0);
        assert(subtree_first(d, 0) == l - 1 && subtree_width(d, 0) == l) by {
            assert((0 + 1) * pow2((d - 0) as nat) == pow2(d)) by (nonlinear_arith);
        }
        let leafseq = h.subrange(l - 1, 2 * l - 1);
        assert(is_union_of(h[0], leafseq));
        assert(forall|t: int| 0 <= t < l ==> leafseq[t] == h[l - 1 + t]);
        assert forall|t: int| 0 <= t < n implies #[trigger] leafseq[t] == bb[self.indices@[t].1 as int] by {
            assert(leafseq[t] == h[l - 1 + t]);
        }
        assert forall|t: int| n <= t < leafseq.len() implies (#[trigger] leafseq[t]).spec_dimensionless() by {
            assert(leafseq[t] == h[l - 1 + t]);
        }
        lemma_union_transfer(h[0], leafseq, bb, self.indices@);
        if !all_dimensionless(bb) {
            lemma_scene_is_union(bb);
            lemma_union_unique(h[0], scene_of(bb), bb);
        }
    }

    /// The bounds of the whole scene: the root slot's rectangle, which is
    /// the union of every object's bounding rectangle.
    pub fn root_bounds(&self) -> (r: Rect2D)
        requires
            self.wf(),
        ensures
            r == self.rects@[0],
            is_union_of(r, bboxes(self.objects@)),
            !all_dimensionless(bboxes(self.objects@)) ==> r == scene_of(bboxes(self.objects@)),
    {
        proof {
            self.rects.lemma_shape();
            self.lemma_root_is_union();
        }
        *self.rects.get(0)
    }

    /// Round trip of the leaf index table: every object index appears in
    /// it exactly once, so each object stands behind exactly one leaf.
    pub proof fn lemma_table_exactly_once(&self, j: int)
        requires
            self.wf(),
            0 <= j < self.spec_n(),
        ensures
            exists|t: int| 0 <= t < self.spec_n() && (#[trigger] self.indices@[t]).1 == j,
            forall|t1: int, t2: int|
                0 <= t1 < t2 < self.spec_n() ==> (#[trigger] self.indices@[t1]).1 != (
                #[trigger] self.indices@[t2]).1,
    {
        let n = self.spec_n() as int;
        lemma_table_onto(self.indices@, n, j);
        assert(ident_seq(n).no_duplicates()) by {
            assert forall|i1: int, i2: int|
                0 <= i1 < ident_seq(n).len() && 0 <= i2 < ident_seq(n).len() && i1 != i2
                implies ident_seq(n)[i1] != ident_seq(n)[i2] by {
                assert(ident_seq(n)[i1] == i1 as u32 && ident_seq(n)[i2] == i2 as u32);
            }
        }
        ident_seq(n).lemma_multiset_has_no_duplicates();
        assert forall|t1: int, t2: int| 0 <= t1 < t2 < n implies (#[trigger] self.indices@[t1]).1
            != (#[trigger] self.indices@[t2]).1 by {
            let s = seconds(self.indices@);
            if self.indices@[t1].1 == self.indices@[t2].1 {
                assert(s[t1] == self.indices@[t1].1 && s[t2] == self.indices@[t2].1);
                lemma_dup_count(s, t1, t2);
                assert(ident_seq(n).to_multiset().count(s[t1]) >= 2);
                assert(ident_seq(n).to_multiset().contains(s[t1]));
                assert(false);
            }
        }
    }

    /// The first `n` leaf slots hold exactly the objects' bounding
    /// rectangles, as a multiset: leaf placement permutes them, and two
    /// builds over permuted inputs carry the same leaf rectangles.
    pub proof fn lemma_leaf_multiset(&self)
        requires
            self.wf(),
        ensures
            self.rects@.subrange(
                self.spec_l() - 1,
                self.spec_l() - 1 + self.spec_n(),
            ).to_multiset() == bboxes(self.objects@).to_multiset(),
    {
        let n = self.spec_n() as int;
        let l = self.spec_l() as int;
        let bb = bboxes(self.objects@);
        let leafsub = self.rects@.subrange(l - 1, l - 1 + n);
        let g = |u: u32| bb[u as int];
        assert(leafsub =~= seconds(self.indices@).map_values(g)) by {
            assert forall|t: int| 0 <= t < n implies leafsub[t] == seconds(
                self.indices@,
            ).map_values(g)[t] by {
                assert(seconds(self.indices@)[t] == self.indices@[t].1);
                assert(leafsub[t] == self.rects@[l - 1 + t]);
            }
        }
        assert(bb =~= ident_seq(n).map_values(g)) by {
            assert forall|j: int| 0 <= j < n implies bb[j] == ident_seq(n).map_values(g)[j] by {
                assert(ident_seq(n)[j] == j as u32);
            }
        }
        lemma_map_values_multiset(seconds(self.indices@), ident_seq(n), g);
    }

    /// The number of objects indexed.
    pub fn leaf_count(&self) -> (r: usize)
        requires
            self.wf(),
        ensures
            r == self.spec_n(),
    {
        self.objects.len()
    }

    /// The depth of the rectangle heap: the tree built over `n` objects
    /// has `2 * next_pow2(n) - 1` slots and depth `log2(next_pow2(n))`.
    pub fn depth(&self) -> (r: u32)
        requires
            self.wf(),
        ensures
            r == self.rects.spec_depth(),
            pow2(r as nat) == next_pow2(self.spec_n()),
            self.rects@.len() == 2 * next_pow2(self.spec_n()) - 1,
    {
        self.rects.depth()
    }
}

/// What sorting preserves of the freshly keyed table: every entry still
/// carries the key of its own object, the object indices are exactly
/// `0 .. n` once each, and the order is strictly ascending.
proof fn lemma_pairs_after_sort(
    before: Seq<(MortonU32, u32)>,
    after: Seq<(MortonU32, u32)>,
    n: int,
    bb: Seq<Rect2D>,
    scene: Rect2D,
)
    requires
        before.len() == n,
        after.len() == n,
        0 <= n <= u32::MAX,
        forall|k: int|
            0 <= k < n ==> (#[trigger] before[k]).0.0 == spec_key(bb[k], scene) && before[k].1
                == k,
        after.to_multiset() == before.to_multiset(),
        forall|a: int, b: int| 0 <= a < b < n ==> pair_le(after[a], after[b]),
    ensures
        forall|j: int| 0 <= j < n ==> (#[trigger] after[j]).1 < n,
        forall|j: int|
            0 <= j < n ==> (#[trigger] after[j]).0.0 == spec_key(bb[after[j].1 as int], scene),
        seconds(after).to_multiset() == ident_seq(n).to_multiset(),
        forall|j1: int, j2: int| 0 <= j1 < j2 < n ==> pair_lt(after[j1], after[j2]),
{
    broadcast use vstd::seq_lib::group_to_multiset_ensures;

    // Every entry of the sorted table is an entry of the keyed table.
    assert forall|j: int| 0 <= j < n implies (#[trigger] after[j]).1 < n && after[j].0.0
        == spec_key(bb[after[j].1 as int], scene) by {
        assert(after.contains(after[j]));
        assert(before.to_multiset().contains(after[j]));
        let k = choose|k: int| 0 <= k < before.len() && before[k] == after[j];
        assert(before[k].1 == k);
    }

    // The multiset of object indices is untouched by sorting.
    lemma_seconds_multiset(after, before);
    assert(seconds(before) =~= ident_seq(n));

    // Distinct object indices make the sorted order strict.
    assert(ident_seq(n).no_duplicates()) by {
        assert forall|i1: int, i2: int|
            0 <= i1 < ident_seq(n).len() && 0 <= i2 < ident_seq(n).len() && i1 != i2
            implies ident_seq(n)[i1] != ident_seq(n)[i2] by {
            assert(ident_seq(n)[i1] == i1 as u32 && ident_seq(n)[i2] == i2 as u32);
        }
    }
    ident_seq(n).lemma_multiset_has_no_duplicates();
    assert forall|j1: int, j2: int| 0 <= j1 < j2 < n implies pair_lt(after[j1], after[j2]) by {
        assert(pair_le(after[j1], after[j2]));
        if after[j1] == after[j2] {
            let s = seconds(after);
            assert(s[j1] == after[j1].1 && s[j2] == after[j2].1);
            lemma_dup_count(s, j1, j2);
            assert(s.to_multiset() == ident_seq(n).to_multiset());
            assert(ident_seq(n).to_multiset().count(s[j1]) >= 2);
            assert(ident_seq(n).to_multiset().contains(s[j1]));
            assert(false);
        }
    }
}

/// The union of the unions of two sequences is the union of their
/// concatenation.
proof fn lemma_fit_union(a: Rect2D, b: Rect2D, s1: Seq<Rect2D>, s2: Seq<Rect2D>)
    requires
        a.spec_bounded(),
        b.spec_bounded(),
        is_union_of(a, s1),
        is_union_of(b, s2),
    ensures
        is_union_of(Rect2D::spec_fit(a, b), s1 + s2),
{
    let r = Rect2D::spec_fit(a, b);
    let s = s1 + s2;
    assert(forall|j: int| 0 <= j < s1.len() ==> s[j] == s1[j]);
    assert(forall|j: int| s1.len() <= j < s.len() ==> s[j] == s2[j - s1.len()]);
    crate::rect2d::lemma_fit_encloses(a, b);
    if a.spec_dimensionless() && b.spec_dimensionless() {
        assert(all_dimensionless(s1) && all_dimensionless(s2)) by {
            if !all_dimensionless(s1) {
                assert(!a.spec_dimensionless());
            }
            if !all_dimensionless(s2) {
                assert(!b.spec_dimensionless());
            }
        }
        assert(all_dimensionless(s));
    } else {
        assert(!r.spec_dimensionless());
        assert(!all_dimensionless(s)) by {
            if !a.spec_dimensionless() {
                let j = choose|j: int|
                    0 <= j < s1.len() && !(#[trigger] s1[j]).spec_dimensionless() && s1[j].pos.x
                        == a.pos.x;
                assert(!s[j].spec_dimensionless());
            } else {
                let j = choose|j: int|
                    0 <= j < s2.len() && !(#[trigger] s2[j]).spec_dimensionless() && s2[j].pos.x
                        == b.pos.x;
                assert(!s[s1.len() + j].spec_dimensionless());
            }
        }
        // the union encloses everything either part encloses
        assert forall|j: int|
            0 <= j < s.len() && !(#[trigger] s[j]).spec_dimensionless() implies r.spec_encloses(
            s[j],
        ) by {
            if j < s1.len() {
                assert(!all_dimensionless(s1)) by {
                    assert(!s1[j].spec_dimensionless());
                }
                assert(a.spec_encloses(s1[j]));
                assert(r.spec_encloses(a));
            } else {
                assert(!all_dimensionless(s2)) by {
                    assert(!s2[j - s1.len()].spec_dimensionless());
                }
                assert(b.spec_encloses(s2[j - s1.len()]));
                assert(r.spec_encloses(b));
            }
        }
        // each bound of the union is a bound of one side, attained there
        assert(attained(r, s)) by {
            if a.spec_dimensionless() {
                assert(r == b);
                lemma_attained_shift(b, s1, s2);
            } else if b.spec_dimensionless() {
                assert(r == a);
                assert(attained(a, s1));
                lemma_attained_left(a, s1, s2);
            } else {
                assert(attained(a, s1));
                assert(attained(b, s2));
                if a.pos.x <= b.pos.x {
                    let j = choose|j: int|
                        0 <= j < s1.len() && !(#[trigger] s1[j]).spec_dimensionless()
                            && s1[j].pos.x == a.pos.x;
                    assert(!s[j].spec_dimensionless() && s[j].pos.x == r.pos.x);
                } else {
                    let j = choose|j: int|
                        0 <= j < s2.len() && !(#[trigger] s2[j]).spec_dimensionless()
                            && s2[j].pos.x == b.pos.x;
                    assert(!s[s1.len() + j].spec_dimensionless() && s[s1.len() + j].pos.x
                        == r.pos.x);
                }
                if a.pos.y <= b.pos.y {
                    let j = choose|j: int|
                        0 <= j < s1.len() && !(#[trigger] s1[j]).spec_dimensionless()
                            && s1[j].pos.y == a.pos.y;
                    assert(!s[j].spec_dimensionless() && s[j].pos.y == r.pos.y);
                } else {
                    let j = choose|j: int|
                        0 <= j < s2.len() && !(#[trigger] s2[j]).spec_dimensionless()
                            && s2[j].pos.y == b.pos.y;
                    assert(!s[s1.len() + j].spec_dimensionless() && s[s1.len() + j].pos.y
                        == r.pos.y);
                }
                if a.spec_max_x() >= b.spec_max_x() {
                    let j = choose|j: int|
                        0 <= j < s1.len() && !(#[trigger] s1[j]).spec_dimensionless()
                            && s1[j].spec_max_x() == a.spec_max_x();
                    assert(!s[j].spec_dimensionless() && s[j].spec_max_x() == r.spec_max_x());
                } else {
                    let j = choose|j: int|
                        0 <= j < s2.len() && !(#[trigger] s2[j]).spec_dimensionless()
                            && s2[j].spec_max_x() == b.spec_max_x();
                    assert(!s[s1.len() + j].spec_dimensionless() && s[s1.len() + j].spec_max_x()
                        == r.spec_max_x());
                }
                if a.spec_max_y() >= b.spec_max_y() {
                    let j = choose|j: int|
                        0 <= j < s1.len() && !(#[trigger] s1[j]).spec_dimensionless()
                            && s1[j].spec_max_y() == a.spec_max_y();
                    assert(!s[j].spec_dimensionless() && s[j].spec_max_y() == r.spec_max_y());
                } else {
                    let j = choose|j: int|
                        0 <= j < s2.len() && !(#[trigger] s2[j]).spec_dimensionless()
                            && s2[j].spec_max_y() == b.spec_max_y();
                    assert(!s[s1.len() + j].spec_dimensionless() && s[s1.len() + j].spec_max_y()
                        == r.spec_max_y());
                }
            }
        }
    }
}

/// What is attained in the left part of a concatenation is attained in
/// the whole.
proof fn lemma_attained_left(r: Rect2D, s1: Seq<Rect2D>, s2: Seq<Rect2D>)
    requires
        attained(r, s1),
    ensures
        attained(r, s1 + s2),
{
    let s = s1 + s2;
    assert(forall|j: int| 0 <= j < s1.len() ==> s[j] == s1[j]);
}

/// What is attained in the right part of a concatenation is attained in
/// the whole.
proof fn lemma_attained_shift(r: Rect2D, s1: Seq<Rect2D>, s2: Seq<Rect2D>)
    requires
        attained(r, s2),
    ensures
        attained(r, s1 + s2),
{
    let s = s1 + s2;
    assert(forall|j: int| 0 <= j < s2.len() ==> s[s1.len() + j] == s2[j]);
    let jx = choose|j: int|
        0 <= j < s2.len() && !(#[trigger] s2[j]).spec_dimensionless() && s2[j].pos.x == r.pos.x;
    assert(!s[s1.len() + jx].spec_dimensionless() && s[s1.len() + jx].pos.x == r.pos.x);
    let jy = choose|j: int|
        0 <= j < s2.len() && !(#[trigger] s2[j]).spec_dimensionless() && s2[j].pos.y == r.pos.y;
    assert(!s[s1.len() + jy].spec_dimensionless() && s[s1.len() + jy].pos.y == r.pos.y);
    let jmx = choose|j: int|
        0 <= j < s2.len() && !(#[trigger] s2[j]).spec_dimensionless() && s2[j].spec_max_x()
            == r.spec_max_x();
    assert(!s[s1.len() + jmx].spec_dimensionless() && s[s1.len() + jmx].spec_max_x()
        == r.spec_max_x());
    let jmy = choose|j: int|
        0 <= j < s2.len() && !(#[trigger] s2[j]).spec_dimensionless() && s2[j].spec_max_y()
            == r.spec_max_y();
    assert(!s[s1.len() + jmy].spec_dimensionless() && s[s1.len() + jmy].spec_max_y()
        == r.spec_max_y());
}

/// The first leaf slot of the subtree rooted at slot `i` in a tree of
/// depth `d`.
pub open spec fn subtree_first(d: nat, i: int) -> int {
    (i + 1) * pow2((d - lg((i + 1) as nat)) as nat) - 1
}

/// The number of leaves under slot `i` in a tree of depth `d`.
pub open spec fn subtree_width(d: nat, i: int) -> int {
    pow2((d - lg((i + 1) as nat)) as nat) as int
}

/// In a heap whose every internal slot is the union of its two children,
/// each slot is the union of the leaves of its subtree.
proof fn lemma_heap_union(h: Seq<Rect2D>, d: nat, i: int)
    requires
        h.len() == pow2(d + 1) - 1,
        forall|k: int|
            0 <= k < pow2(d) - 1 ==> #[trigger] h[k] == Rect2D::spec_fit(
                h[2 * k + 1],
                h[2 * k + 2],
            ),
        forall|k: int| 0 <= k < h.len() ==> (#[trigger] h[k]).spec_bounded(),
        0 <= i < h.len(),
    ensures
        lg((i + 1) as nat) <= d,
        is_union_of(h[i], h.subrange(subtree_first(d, i), subtree_first(d, i) + subtree_width(d, i))),
    decreases d - lg((i + 1) as nat),
{
    let k = lg((i + 1) as nat);
    crate::heap::lemma_lg_bounds((i + 1) as nat);
    assert(k <= d) by {
        if k > d {
            lemma_pow2_strictly_increases(d + 1, k);
            assert(pow2(k) <= i + 1);
        }
    }
    let f = subtree_first(d, i);
    let w = subtree_width(d, i);
    if k == d {
        // a leaf: its subtree is itself
        assert(pow2(0) == 1) by {
            vstd::arithmetic::power2::lemma2_to64();
        }
        assert((d - k) as nat == 0);
        assert(w == pow2((d - k) as nat));
        assert(w == 1);
        assert(f == (i + 1) * pow2((d - k) as nat) - 1);
        assert((i + 1) * 1 == i + 1) by (nonlinear_arith);
        assert(f == i && w == 1);
        let s = h.subrange(f, f + w);
        assert(s[0] == h[i]);
        assert(is_union_of(h[i], s)) by {
            if !h[i].spec_dimensionless() {
                assert(!all_dimensionless(s)) by {
                    assert(!s[0].spec_dimensionless());
                }
            }
        }
    } else {
        // an internal slot: recurse into both children
        assert(i + 1 < pow2(k + 1));
        assert(pow2(k + 1) <= pow2(d)) by {
            if k + 1 < d {
                lemma_pow2_strictly_increases(k + 1, d);
            }
        }
        assert(i < pow2(d) - 1);
        let c1 = 2 * i + 1;
        let c2 = 2 * i + 2;
        assert(c2 < h.len()) by {
            lemma_pow2_unfold(d + 1);
        }
        assert(lg((c1 + 1) as nat) == k + 1) by {
            assert((2 * (i + 1)) / 2 == i + 1);
        }
        assert(lg((c2 + 1) as nat) == k + 1) by {
            assert((2 * (i + 1) + 1) / 2 == i + 1);
        }
        lemma_heap_union(h, d, c1);
        lemma_heap_union(h, d, c2);
        let half = pow2((d - k - 1) as nat) as int;
        assert(pow2((d - k) as nat) == 2 * half) by {
            lemma_pow2_unfold((d - k) as nat);
        }
        assert(subtree_first(d, c1) == f && subtree_width(d, c1) == half) by {
            assert((2 * i + 2) * half == (i + 1) * (2 * half)) by (nonlinear_arith);
        }
        assert(subtree_first(d, c2) == f + half && subtree_width(d, c2) == half) by {
            assert(subtree_first(d, c2) == (2 * i + 3) * half - 1);
            assert(f == (i + 1) * (2 * half) - 1);
            assert((2 * i + 3) * half == (i + 1) * (2 * half) + half) by (nonlinear_arith);
        }
        let s1 = h.subrange(f, f + half);
        let s2 = h.subrange(f + half, f + 2 * half);
        // the subtree ranges stay inside the slot sequence
        assert(0 <= f && f + 2 * half <= h.len()) by {
            assert(pow2(k) <= i + 1 && i + 2 <= pow2(k + 1));
            lemma_pow2_unfold(k + 1);
            lemma_pow2_unfold(d + 1);
            vstd::arithmetic::power2::lemma_pow2_adds(k, (d - k) as nat);
            vstd::arithmetic::power2::lemma_pow2_adds(k + 1, (d - k - 1) as nat);
            assert(pow2(k) * (2 * half) <= (i + 1) * (2 * half) && (i + 2) * (2 * half) <= (2
                * pow2(k)) * (2 * half)) by (nonlinear_arith)
                requires
                    half >= 0,
                    pow2(k) <= i + 1,
                    i + 2 <= pow2(k + 1),
                    pow2(k + 1) == 2 * pow2(k),
            ;
            assert(pow2(k) * (2 * half) == pow2(d)) by {
                lemma_pow2_unfold((d - k) as nat);
            }
            assert((2 * pow2(k)) * (2 * half) == 2 * pow2(d)) by (nonlinear_arith)
                requires
                    pow2(k) * (2 * half) == pow2(d),
            ;
            assert(f == (i + 1) * (2 * half) - 1);
            assert((i + 2) * (2 * half) == (i + 1) * (2 * half) + 2 * half) by (nonlinear_arith);
        }
        assert(h[i] == Rect2D::spec_fit(h[c1], h[c2]));
        lemma_fit_union(h[c1], h[c2], s1, s2);
        assert(h.subrange(f, f + w) =~= s1 + s2);
    }
}

/// The left fold of the rectangle union is the union of the sequence.
pub proof fn lemma_scene_is_union(rs: Seq<Rect2D>)
    requires
        forall|j: int| 0 <= j < rs.len() ==> (#[trigger] rs[j]).spec_bounded(),
    ensures
        is_union_of(scene_of(rs), rs),
        scene_of(rs).spec_bounded(),
    decreases rs.len(),
{
    if rs.len() == 0 {
    } else {
        let s1 = rs.drop_last();
        let b = rs.last();
        lemma_scene_is_union(s1);
        let a = scene_of(s1);
        // the last element is the union of the singleton holding it
        assert(is_union_of(b, seq![b])) by {
            if !b.spec_dimensionless() {
                assert(!all_dimensionless(seq![b])) by {
                    assert(seq![b][0] == b);
                }
                assert(seq![b][0] == b);
            }
        }
        crate::rect2d::lemma_fit_encloses(a, b);
        lemma_fit_union(a, b, s1, seq![b]);
        assert(s1 + seq![b] =~= rs);
    }
}

/// Two rectangles that are each the union of the same non-degenerate
/// sequence are equal: the union is unique.
pub proof fn lemma_union_unique(x: Rect2D, y: Rect2D, rs: Seq<Rect2D>)
    requires
        !all_dimensionless(rs),
        is_union_of(x, rs),
        is_union_of(y, rs),
    ensures
        x == y,
{
    assert(x.pos.x == y.pos.x) by {
        let jx = choose|j: int|
            0 <= j < rs.len() && !(#[trigger] rs[j]).spec_dimensionless() && rs[j].pos.x
                == x.pos.x;
        let jy = choose|j: int|
            0 <= j < rs.len() && !(#[trigger] rs[j]).spec_dimensionless() && rs[j].pos.x
                == y.pos.x;
        assert(y.pos.x <= rs[jx].pos.x && x.pos.x <= rs[jy].pos.x);
    }
    assert(x.pos.y == y.pos.y) by {
        let jx = choose|j: int|
            0 <= j < rs.len() && !(#[trigger] rs[j]).spec_dimensionless() && rs[j].pos.y
                == x.pos.y;
        let jy = choose|j: int|
            0 <= j < rs.len() && !(#[trigger] rs[j]).spec_dimensionless() && rs[j].pos.y
                == y.pos.y;
        assert(y.pos.y <= rs[jx].pos.y && x.pos.y <= rs[jy].pos.y);
    }
    assert(x.spec_max_x() == y.spec_max_x()) by {
        let jx = choose|j: int|
            0 <= j < rs.len() && !(#[trigger] rs[j]).spec_dimensionless() && rs[j].spec_max_x()
                == x.spec_max_x();
        let jy = choose|j: int|
            0 <= j < rs.len() && !(#[trigger] rs[j]).spec_dimensionless() && rs[j].spec_max_x()
                == y.spec_max_x();
        assert(rs[jx].spec_max_x() <= y.spec_max_x() && rs[jy].spec_max_x() <= x.spec_max_x());
    }
    assert(x.spec_max_y() == y.spec_max_y()) by {
        let jx = choose|j: int|
            0 <= j < rs.len() && !(#[trigger] rs[j]).spec_dimensionless() && rs[j].spec_max_y()
                == x.spec_max_y();
        let jy = choose|j: int|
            0 <= j < rs.len() && !(#[trigger] rs[j]).spec_dimensionless() && rs[j].spec_max_y()
                == y.spec_max_y();
        assert(rs[jx].spec_max_y() <= y.spec_max_y() && rs[jy].spec_max_y() <= x.spec_max_y());
    }
    assert(x.dimensions.x == y.dimensions.x && x.dimensions.y == y.dimensions.y);
    assert(x.pos == y.pos && x.dimensions == y.dimensions);
}

/// Being a union is a property of the multiset of rectangles alone, not
/// of their order.
proof fn lemma_union_multiset(x: Rect2D, rs1: Seq<Rect2D>, rs2: Seq<Rect2D>)
    requires
        rs1.to_multiset() == rs2.to_multiset(),
        is_union_of(x, rs2),
    ensures
        is_union_of(x, rs1),
{
    broadcast use vstd::seq_lib::group_to_multiset_ensures;

    if all_dimensionless(rs2) {
        assert forall|j: int| 0 <= j < rs1.len() implies (#[trigger] rs1[j]).spec_dimensionless() by {
            assert(rs1.contains(rs1[j]));
            assert(rs2.to_multiset().contains(rs1[j]));
            assert(rs2.contains(rs1[j]));
        }
    } else {
        assert(!all_dimensionless(rs1)) by {
            let k = choose|k: int| 0 <= k < rs2.len() && !(#[trigger] rs2[k]).spec_dimensionless();
            assert(rs2.contains(rs2[k]));
            assert(rs1.to_multiset().contains(rs2[k]));
            assert(rs1.contains(rs2[k]));
        }
        assert forall|j: int|
            0 <= j < rs1.len() && !(#[trigger] rs1[j]).spec_dimensionless() implies x.spec_encloses(
            rs1[j],
        ) by {
            assert(rs1.contains(rs1[j]));
            assert(rs2.to_multiset().contains(rs1[j]));
            assert(rs2.contains(rs1[j]));
        }
        assert(attained(x, rs1)) by {
            let jx = choose|j: int|
                0 <= j < rs2.len() && !(#[trigger] rs2[j]).spec_dimensionless() && rs2[j].pos.x
                    == x.pos.x;
            assert(rs2.contains(rs2[jx]));
            assert(rs1.to_multiset().contains(rs2[jx]));
            assert(rs1.contains(rs2[jx]));
            let jy = choose|j: int|
                0 <= j < rs2.len() && !(#[trigger] rs2[j]).spec_dimensionless() && rs2[j].pos.y
                    == x.pos.y;
            assert(rs2.contains(rs2[jy]));
            assert(rs1.to_multiset().contains(rs2[jy]));
            assert(rs1.contains(rs2[jy]));
            let jmx = choose|j: int|
                0 <= j < rs2.len() && !(#[trigger] rs2[j]).spec_dimensionless()
                    && rs2[j].spec_max_x() == x.spec_max_x();
            assert(rs2.contains(rs2[jmx]));
            assert(rs1.to_multiset().contains(rs2[jmx]));
            assert(rs1.contains(rs2[jmx]));
            let jmy = choose|j: int|
                0 <= j < rs2.len() && !(#[trigger] rs2[j]).spec_dimensionless()
                    && rs2[j].spec_max_y() == x.spec_max_y();
            assert(rs2.contains(rs2[jmy]));
            assert(rs1.to_multiset().contains(rs2[jmy]));
            assert(rs1.contains(rs2[jmy]));
        }
    }
}

/// Rebuilding from any permutation of a rectangle sequence in which some
/// rectangle has extent yields the same scene bounds: the fold is
/// order-independent.
pub proof fn lemma_scene_permutation(rs1: Seq<Rect2D>, rs2: Seq<Rect2D>)
    requires
        rs1.to_multiset() == rs2.to_multiset(),
        forall|j: int| 0 <= j < rs1.len() ==> (#[trigger] rs1[j]).spec_bounded(),
        !all_dimensionless(rs1),
    ensures
        scene_of(rs1) == scene_of(rs2),
{
    broadcast use vstd::seq_lib::group_to_multiset_ensures;

    assert forall|j: int| 0 <= j < rs2.len() implies (#[trigger] rs2[j]).spec_bounded() by {
        assert(rs2.contains(rs2[j]));
        assert(rs1.to_multiset().contains(rs2[j]));
        assert(rs1.contains(rs2[j]));
    }
    lemma_scene_is_union(rs1);
    lemma_scene_is_union(rs2);
    lemma_union_multiset(scene_of(rs2), rs1, rs2);
    lemma_union_unique(scene_of(rs1), scene_of(rs2), rs1);
}

/// Mapping two sequences with equal multisets through one function keeps
/// the multisets equal.
proof fn lemma_map_values_multiset<A, B>(s: Seq<A>, t: Seq<A>, f: spec_fn(A) -> B)
    requires
        s.to_multiset() == t.to_multiset(),
    ensures
        s.map_values(f).to_multiset() == t.map_values(f).to_multiset(),
    decreases s.len(),
{
    broadcast use vstd::seq_lib::group_to_multiset_ensures;

    if s.len() == 0 {
        if t.len() != 0 {
            assert(t.to_multiset().contains(t[0]));
        }
        assert(s.map_values(f) =~= Seq::<B>::empty());
        assert(t.map_values(f) =~= Seq::<B>::empty());
    } else {
        let x = s.last();
        assert(s.contains(x));
        assert(t.to_multiset().contains(x));
        let k = choose|k: int| 0 <= k < t.len() && t[k] == x;
        let s1 = s.drop_last();
        let t1 = t.remove(k);
        assert(s.to_multiset() == s1.to_multiset().insert(x)) by {
            assert(s1.push(x) =~= s);
        }
        assert(t1.to_multiset() == t.to_multiset().remove(x));
        assert(s1.to_multiset() =~= t1.to_multiset());
        lemma_map_values_multiset(s1, t1, f);
        assert(s.map_values(f).to_multiset() == s1.map_values(f).to_multiset().insert(f(x))) by {
            assert(s1.map_values(f).push(f(x)) =~= s.map_values(f));
        }
        assert(t1.map_values(f) =~= t.map_values(f).remove(k));
        assert(t.map_values(f).to_multiset().remove(f(x)) == t1.map_values(f).to_multiset()) by {
            assert(t.map_values(f)[k] == f(x));
        }
        assert(t.map_values(f).to_multiset().contains(f(x))) by {
            assert(t.map_values(f)[k] == f(x));
        }
        assert(s.map_values(f).to_multiset() =~= t.map_values(f).to_multiset());
    }
}

/// A union over the leaf level is a union over the objects' rectangles:
/// the leaves are the rectangles rearranged by the table, plus
/// dimensionless padding, and neither rearranging nor padding changes
/// what the union is.
proof fn lemma_union_transfer(
    root: Rect2D,
    leafseq: Seq<Rect2D>,
    bb: Seq<Rect2D>,
    table: Seq<(MortonU32, u32)>,
)
    requires
        bb.len() <= leafseq.len(),
        table.len() == bb.len(),
        bb.len() <= u32::MAX,
        forall|t: int| 0 <= t < table.len() ==> (#[trigger] table[t]).1 < bb.len(),
        seconds(table).to_multiset() == ident_seq(bb.len() as int).to_multiset(),
        forall|t: int| 0 <= t < table.len() ==> #[trigger] leafseq[t] == bb[table[t].1 as int],
        forall|t: int|
            bb.len() <= t < leafseq.len() ==> (#[trigger] leafseq[t]).spec_dimensionless(),
        is_union_of(root, leafseq),
    ensures
        is_union_of(root, bb),
        all_dimensionless(leafseq) <==> all_dimensionless(bb),
{
    let n = bb.len() as int;
    if all_dimensionless(leafseq) {
        assert forall|j: int| 0 <= j < n implies (#[trigger] bb[j]).spec_dimensionless() by {
            lemma_table_onto(table, n, j);
            let t = choose|t: int| 0 <= t < n && (#[trigger] table[t]).1 == j;
            assert(leafseq[t].spec_dimensionless());
        }
    } else {
        assert(!all_dimensionless(bb)) by {
            let t0 = choose|t: int|
                0 <= t < leafseq.len() && !(#[trigger] leafseq[t]).spec_dimensionless();
            assert(t0 < n);
            assert(!bb[table[t0].1 as int].spec_dimensionless());
        }
        assert forall|j: int|
            0 <= j < n && !(#[trigger] bb[j]).spec_dimensionless() implies root.spec_encloses(
            bb[j],
        ) by {
            lemma_table_onto(table, n, j);
            let t = choose|t: int| 0 <= t < n && (#[trigger] table[t]).1 == j;
            assert(leafseq[t] == bb[j]);
        }
        assert(attained(root, bb)) by {
            let tx = choose|t: int|
                0 <= t < leafseq.len() && !(#[trigger] leafseq[t]).spec_dimensionless()
                    && leafseq[t].pos.x == root.pos.x;
            assert(tx < n);
            assert(bb[table[tx].1 as int] == leafseq[tx]);
            let ty = choose|t: int|
                0 <= t < leafseq.len() && !(#[trigger] leafseq[t]).spec_dimensionless()
                    && leafseq[t].pos.y == root.pos.y;
            assert(ty < n);
            assert(bb[table[ty].1 as int] == leafseq[ty]);
            let tmx = choose|t: int|
                0 <= t < leafseq.len() && !(#[trigger] leafseq[t]).spec_dimensionless()
                    && leafseq[t].spec_max_x() == root.spec_max_x();
            assert(tmx < n);
            assert(bb[table[tmx].1 as int] == leafseq[tmx]);
            let tmy = choose|t: int|
                0 <= t < leafseq.len() && !(#[trigger] leafseq[t]).spec_dimensionless()
                    && leafseq[t].spec_max_y() == root.spec_max_y();
            assert(tmy < n);
            assert(bb[table[tmy].1 as int] == leafseq[tmy]);
        }
    }
}

/// Every object index below `n` appears somewhere in the table.
proof fn lemma_table_onto(s: Seq<(MortonU32, u32)>, n: int, j: int)
    requires
        s.len() == n,
        0 <= j < n <= u32::MAX,
        seconds(s).to_multiset() == ident_seq(n).to_multiset(),
    ensures
        exists|t: int| 0 <= t < n && (#[trigger] s[t]).1 == j,
{
    broadcast use vstd::seq_lib::group_to_multiset_ensures;

    assert(ident_seq(n)[j] == j as u32);
    assert(ident_seq(n).contains(j as u32));
    assert(seconds(s).to_multiset().contains(j as u32));
    assert(seconds(s).contains(j as u32));
    let t = choose|t: int| 0 <= t < seconds(s).len() && seconds(s)[t] == j as u32;
    assert(s[t].1 == j as u32);
}

/// A sequence with one value in two places counts it at least twice.
proof fn lemma_dup_count<A>(s: Seq<A>, i: int, j: int)
    requires
        0 <= i < j < s.len(),
        s[i] == s[j],
    ensures
        s.to_multiset().count(s[i]) >= 2,
{
    broadcast use vstd::seq_lib::group_to_multiset_ensures;

    let s1 = s.remove(i);
    assert(s1.to_multiset() == s.to_multiset().remove(s[i]));
    assert(s1[j - 1] == s[j]);
    assert(s1.contains(s[j]));
    assert(s1.to_multiset().count(s[i]) >= 1);
}

/// Two pair sequences with equal multisets have object-index sequences
/// with equal multisets.
proof fn lemma_seconds_multiset(s: Seq<(MortonU32, u32)>, t: Seq<(MortonU32, u32)>)
    requires
        s.to_multiset() == t.to_multiset(),
    ensures
        seconds(s).to_multiset() == seconds(t).to_multiset(),
    decreases s.len(),
{
    broadcast use vstd::seq_lib::group_to_multiset_ensures;

    if s.len() == 0 {
        if t.len() != 0 {
            assert(t.to_multiset().contains(t[0]));
        }
        assert(seconds(s) =~= Seq::<u32>::empty());
        assert(seconds(t) =~= Seq::<u32>::empty());
    } else {
        let x = s.last();
        assert(s.contains(x));
        assert(t.to_multiset().contains(x));
        let k = choose|k: int| 0 <= k < t.len() && t[k] == x;
        let s1 = s.drop_last();
        let t1 = t.remove(k);
        assert(s.to_multiset() == s1.to_multiset().insert(x)) by {
            assert(s1.push(x) =~= s);
        }
        assert(t1.to_multiset() == t.to_multiset().remove(x));
        assert(s1.to_multiset() =~= t1.to_multiset());
        lemma_seconds_multiset(s1, t1);
        assert(seconds(s).to_multiset() == seconds(s1).to_multiset().insert(x.1)) by {
            assert(seconds(s1).push(x.1) =~= seconds(s));
        }
        assert(seconds(t1) =~= seconds(t).remove(k));
        assert(seconds(t).to_multiset().remove(x.1) == seconds(t1).to_multiset()) by {
            assert(seconds(t)[k] == x.1);
        }
        assert(seconds(t).to_multiset().contains(x.1)) by {
            assert(seconds(t)[k] == x.1);
        }
        assert(seconds(s).to_multiset() =~= seconds(t).to_multiset());
    }
}

} // verus!

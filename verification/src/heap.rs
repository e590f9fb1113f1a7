//! An implicit binary tree ("the heap"): a complete binary tree stored in a
//! flat vector without pointers, addressed by arithmetic on slot indices.
//!
//! A well-formed tree of depth `d` owns exactly `2^(d+1) - 1` slots. Slot 0
//! is the root, slot `i`'s children sit at `2i + 1` and `2i + 2`, its parent
//! at `(i - 1) / 2`, and the slots of the deepest level, the leaves, are
//! exactly those in `[L - 1, 2L - 2]` where `L = 2^d` is the leaf count.

use vstd::prelude::*;
use vstd::arithmetic::power2::{pow2, lemma_pow2_unfold, lemma_pow2_pos, lemma_pow2_strictly_increases};

verus! {

/// Floor of the base-two logarithm: the largest `e` with `pow2(e) <= n`
/// (and 0 when `n` is 0).
pub open spec fn lg(n: nat) -> nat
    decreases n,
{
    if n <= 1 {
        0
    } else {
        1 + lg(n / 2)
    }
}

/// The exponent of the smallest power of two that is at least `n`.
pub open spec fn lg_ceil(n: nat) -> nat
    decreases n,
{
    if n <= 1 {
        0
    } else {
        1 + lg_ceil(((n + 1) / 2) as nat)
    }
}

/// The smallest power of two that is at least `n`, and at least 1.
pub open spec fn next_pow2(n: nat) -> nat {
    pow2(lg_ceil(n))
}

/// `lg` answers `e` exactly on `[pow2(e), pow2(e + 1))`.
pub proof fn lemma_lg_char(n: nat, e: nat)
    requires
        pow2(e) <= n < pow2(e + 1),
    ensures
        lg(n) == e,
    decreases e,
{
    lemma_pow2_unfold(e + 1);
    if e == 0 {
        assert(pow2(0) == 1) by {
            vstd::arithmetic::power2::lemma2_to64();
        }
    } else {
        lemma_pow2_unfold(e);
        lemma_pow2_pos(e);
        lemma_lg_char(n / 2, (e - 1) as nat);
    }
}

/// `next_pow2(n)` is at least `n`.
pub proof fn lemma_next_pow2_ge(n: nat)
    ensures
        next_pow2(n) >= n,
        next_pow2(n) >= 1,
    decreases n,
{
    if n <= 1 {
        vstd::arithmetic::power2::lemma2_to64();
    } else {
        let m = ((n + 1) / 2) as nat;
        lemma_next_pow2_ge(m);
        lemma_pow2_unfold(lg_ceil(n));
    }
}

/// No power of two below `next_pow2(n)` reaches `n`: minimality.
pub proof fn lemma_next_pow2_min(n: nat, e: nat)
    requires
        pow2(e) >= n,
    ensures
        pow2(e) >= next_pow2(n),
    decreases n,
{
    if n <= 1 {
        vstd::arithmetic::power2::lemma2_to64();
        lemma_pow2_pos(e);
    } else {
        let m = ((n + 1) / 2) as nat;
        if e == 0 {
            vstd::arithmetic::power2::lemma2_to64();
        } else {
            assert(pow2(e) == 2 * pow2((e - 1) as nat)) by {
                lemma_pow2_unfold(e);
            }
            assert(pow2((e - 1) as nat) >= m) by {
                lemma_pow2_pos((e - 1) as nat);
            }
            lemma_next_pow2_min(m, (e - 1) as nat);
            lemma_pow2_unfold(lg_ceil(n));
        }
    }
}

/// A power of two that reaches `n` while its half does not is `next_pow2(n)`.
pub proof fn lemma_next_pow2_exact(n: nat, e: nat)
    requires
        pow2(e) >= n,
        e == 0 ==> n <= 1,
        e >= 1 ==> pow2((e - 1) as nat) < n,
    ensures
        next_pow2(n) == pow2(e),
        lg_ceil(n) == e,
{
    lemma_next_pow2_ge(n);
    lemma_next_pow2_min(n, e);
    if e == 0 {
        vstd::arithmetic::power2::lemma2_to64();
        assert(next_pow2(n) <= 1);
        lemma_pow2_pos(lg_ceil(n));
    } else {
        // next_pow2(n) is pow2(lg_ceil(n)), lies in (pow2(e - 1), pow2(e)].
        let c = lg_ceil(n);
        assert(pow2(c) > pow2((e - 1) as nat));
        if c <= e - 1 {
            if c < e - 1 {
                lemma_pow2_strictly_increases(c, (e - 1) as nat);
            }
            assert(false);
        }
        if c > e {
            lemma_pow2_strictly_increases(e, c);
            assert(false);
        }
    }
}

/// The largest leaf capacity this machine can address, chosen so that
/// `2 * next_pow2(capacity) - 1` still fits in a `usize`.
pub open spec fn max_capacity() -> nat {
    (usize::MAX / 4) as nat
}

/// Computes `next_pow2` of a count.
pub fn to_power_of_two(number: usize) -> (r: usize)
    requires
        number <= max_capacity(),
    ensures
        r == next_pow2(number as nat),
{
    let mut p: usize = 1;
    let ghost mut e: nat = 0;
    proof {
        vstd::arithmetic::power2::lemma2_to64();
    }
    while p < number
        invariant
            p == pow2(e),
            1 <= p,
            e >= 1 ==> pow2((e - 1) as nat) < number,
            number <= max_capacity(),
        decreases 2 * number - p,
    {
        proof {
            lemma_pow2_unfold(e + 1);
        }
        p = p * 2;
        proof {
            e = e + 1;
        }
    }
    proof {
        lemma_next_pow2_exact(number as nat, e);
    }
    p
}

/// `pow2` grows at least linearly.
pub proof fn lemma_pow2_ge_linear(e: nat)
    ensures
        pow2(e) >= e + 1,
    decreases e,
{
    if e == 0 {
        vstd::arithmetic::power2::lemma2_to64();
    } else {
        lemma_pow2_ge_linear((e - 1) as nat);
        lemma_pow2_unfold(e);
    }
}

/// Comparing powers of two compares their exponents.
pub proof fn lemma_pow2_le_bound(e1: nat, e2: nat)
    requires
        pow2(e1) <= pow2(e2),
    ensures
        e1 <= e2,
{
    if e1 > e2 {
        lemma_pow2_strictly_increases(e2, e1);
    }
}

/// For n at least 1, `lg(n)` brackets n between two adjacent powers of two.
pub proof fn lemma_lg_bounds(n: nat)
    requires
        n >= 1,
    ensures
        pow2(lg(n)) <= n < pow2(lg(n) + 1),
    decreases n,
{
    if n == 1 {
        vstd::arithmetic::power2::lemma2_to64();
    } else {
        lemma_lg_bounds(n / 2);
        lemma_pow2_unfold(lg(n));
        lemma_pow2_unfold(lg(n) + 1);
    }
}

/// `next_pow2(n)` never exceeds `2n - 1`.
pub proof fn lemma_next_pow2_ub(n: nat)
    requires
        n >= 1,
    ensures
        next_pow2(n) <= 2 * n - 1,
    decreases n,
{
    if n == 1 {
        vstd::arithmetic::power2::lemma2_to64();
    } else {
        let m = ((n + 1) / 2) as nat;
        lemma_next_pow2_ub(m);
        lemma_pow2_unfold(lg_ceil(n));
        if m >= 2 {
            // next_pow2(m) is even, so it is at most 2m - 2
            lemma_pow2_unfold(lg_ceil(m));
        }
    }
}

/// Floor of the base-two logarithm of a positive number, computed by
/// repeated halving.
pub fn ilog2(n: usize) -> (e: u32)
    requires
        n >= 1,
    ensures
        e == lg(n as nat),
        pow2(e as nat) <= n < pow2((e + 1) as nat),
{
    let mut m = n;
    let mut e: u32 = 0;
    proof {
        vstd::arithmetic::power2::lemma2_to64();
    }
    while m >= 2
        invariant
            m >= 1,
            pow2(e as nat) * m <= n,
            n < pow2(e as nat) * (m + 1),
            e <= 63,
        decreases m,
    {
        proof {
            lemma_pow2_unfold((e + 1) as nat);
            lemma_pow2_pos(e as nat);
            let p = pow2(e as nat);
            let p2 = pow2((e + 1) as nat);
            assert(p2 * (m / 2) <= n && n < p2 * ((m / 2) + 1) && p2 <= n) by (nonlinear_arith)
                requires
                    p2 == 2 * p,
                    p * m <= n,
                    n < p * (m + 1),
                    p >= 1,
                    m >= 2,
            ;
            assert(usize::MAX <= u64::MAX);
            vstd::arithmetic::power2::lemma2_to64();
            lemma_pow2_le_bound((e + 1) as nat, 64);
        }
        m = m / 2;
        e = e + 1;
    }
    proof {
        lemma_pow2_unfold((e + 1) as nat);
        assert(pow2(e as nat) * 1 == pow2(e as nat) && pow2(e as nat) * 2 == 2 * pow2(e as nat));
        lemma_lg_char(n as nat, e as nat);
    }
    e
}

/// Computes `pow2(e)` when it fits the word size.
pub fn pow2_exec(e: u32) -> (r: usize)
    requires
        pow2(e as nat) <= usize::MAX,
    ensures
        r == pow2(e as nat),
{
    let mut p: usize = 1;
    let mut i: u32 = 0;
    proof {
        vstd::arithmetic::power2::lemma2_to64();
    }
    while i < e
        invariant
            i <= e,
            p == pow2(i as nat),
            pow2(e as nat) <= usize::MAX,
        decreases e - i,
    {
        proof {
            lemma_pow2_unfold((i + 1) as nat);
            if i + 1 < e {
                lemma_pow2_strictly_increases((i + 1) as nat, e as nat);
            }
        }
        p = p * 2;
        i = i + 1;
    }
    p
}

/// The number of slots of a well-formed implicit tree: one less than a
/// power of two, and at least 1 (a tree has at least its root).
pub open spec fn is_tree_len(n: nat) -> bool {
    n >= 1 && n + 1 == pow2(lg(n + 1))
}

/// A complete binary tree stored without pointers in a flat vector,
/// addressed by the classic 0-indexed heap formulas. The container owns
/// merged summary values only; it knows nothing of object identity.
pub struct RawHeap<T> {
    heap: Vec<T>,
}

impl<T> View for RawHeap<T> {
    type V = Seq<T>;

    closed spec fn view(&self) -> Seq<T> {
        self.heap@
    }
}

impl<T> RawHeap<T> {
    /// The slot sequence is a full complete binary tree: `2^(d+1) - 1`
    /// slots for depth `d`.
    pub open spec fn wf(&self) -> bool {
        is_tree_len(self@.len())
    }

    /// The depth of the deepest level; 0 for a lone root slot.
    pub open spec fn spec_depth(&self) -> nat {
        (lg(self@.len() + 1) - 1) as nat
    }

    /// The number of slots on the deepest level.
    pub open spec fn spec_leaf_count(&self) -> nat {
        pow2(self.spec_depth())
    }

    /// Slot count and leaf count of a well-formed tree line up.
    pub proof fn lemma_shape(&self)
        requires
            self.wf(),
        ensures
            self@.len() + 1 == pow2(self.spec_depth() + 1),
            self@.len() == 2 * self.spec_leaf_count() - 1,
            self.spec_leaf_count() >= 1,
    {
        lemma_pow2_unfold(self.spec_depth() + 1);
        lemma_pow2_pos(self.spec_depth());
    }

    /// The number of slots in the tree.
    pub fn len(&self) -> (n: usize)
        ensures
            n == self@.len(),
    {
        self.heap.len()
    }

    /// Reads the value in a slot.
    pub fn get(&self, index: usize) -> (v: &T)
        requires
            index < self@.len(),
        ensures
            *v == self@[index as int],
    {
        &self.heap[index]
    }

    /// Wraps an existing slot vector; the length must already be that of a
    /// full tree.
    pub fn from_vec(heap: Vec<T>) -> (r: Self)
        requires
            is_tree_len(heap@.len()),
        ensures
            r@ == heap@,
            r.wf(),
    {
        Self { heap }
    }

    /// Returns the depth of the tree: `log2(len + 1) - 1`.
    pub fn depth(&self) -> (d: u32)
        requires
            self.wf(),
        ensures
            d == self.spec_depth(),
    {
        let ghost gd = self.spec_depth();
        let mut slots = self.heap.len();
        proof {
            self.lemma_shape();
            assert(usize::MAX <= u64::MAX);
            vstd::arithmetic::power2::lemma2_to64();
            lemma_pow2_le_bound(gd + 1, 64);
        }
        let mut d: u32 = 0;
        let ghost mut k: nat = gd + 1;
        while slots > 1
            invariant
                k >= 1,
                slots + 1 == pow2(k),
                d + k == gd + 1,
                d <= gd <= 63,
            decreases slots,
        {
            proof {
                lemma_pow2_unfold(k);
                if k == 1 {
                    vstd::arithmetic::power2::lemma2_to64();
                    assert(false);
                }
                lemma_pow2_pos((k - 1) as nat);
            }
            slots = (slots - 1) / 2;
            d = d + 1;
            proof {
                k = (k - 1) as nat;
            }
        }
        proof {
            vstd::arithmetic::power2::lemma2_to64();
            lemma_pow2_le_bound(k, 1);
        }
        d
    }

    /// A slot is a leaf exactly when its own depth, `log2(index + 1)`,
    /// equals the tree depth: the slots `[L - 1, 2L - 2]` for leaf count L.
    pub fn is_leaf(&self, index: usize) -> (r: bool)
        requires
            self.wf(),
            index < self@.len(),
        ensures
            r <==> self.spec_leaf_count() - 1 <= index,
            r <==> (self.spec_leaf_count() - 1 <= index <= 2 * self.spec_leaf_count() - 2),
    {
        let total = self.len();
        let d = self.depth();
        let e = ilog2(index + 1);
        proof {
            self.lemma_shape();
            let gd = self.spec_depth();
            lemma_lg_bounds((index + 1) as nat);
            if self.spec_leaf_count() - 1 <= index {
                lemma_lg_char((index + 1) as nat, gd);
            } else {
                if e == gd {
                    assert(pow2(gd) <= index + 1);
                    assert(false);
                }
            }
        }
        e == d
    }

    /// The contiguous slots of one depth level: `[2^d - 1, 2^(d+1) - 2]`,
    /// or nothing when the tree is too shallow.
    pub fn get_depth_slice(&self, depth: u32) -> (r: Option<&[T]>)
        requires
            self.wf(),
        ensures
            match r {
                Some(s) => depth <= self.spec_depth() && s@ == self@.subrange(
                    pow2(depth as nat) - 1,
                    2 * pow2(depth as nat) - 1,
                ),
                None => depth > self.spec_depth(),
            },
    {
        let total = self.len();
        let d = self.depth();
        if depth > d {
            return None;
        }
        proof {
            self.lemma_shape();
            if (depth as nat) < self.spec_depth() {
                lemma_pow2_strictly_increases(depth as nat, self.spec_depth());
            }
            lemma_pow2_pos(depth as nat);
        }
        let base = pow2_exec(depth);
        Some(vstd::slice::slice_subrange(self.heap.as_slice(), base - 1, base - 1 + base))
    }

    /// Returns the slot of the left child of `index`.
    pub fn left_child(index: usize) -> (r: usize)
        requires
            2 * index + 2 <= usize::MAX,
        ensures
            r == 2 * index + 1,
    {
        2 * index + 1
    }

    /// Returns the slot of the right child of `index`.
    pub fn right_child(index: usize) -> (r: usize)
        requires
            2 * index + 2 <= usize::MAX,
        ensures
            r == 2 * index + 2,
    {
        2 * index + 2
    }

    /// Returns the slot of the parent of `index`; the root has no parent.
    pub fn parent(index: usize) -> (r: usize)
        requires
            index >= 1,
        ensures
            r == (index - 1) / 2,
    {
        (index - 1) / 2
    }
}

impl<T: Copy> RawHeap<T> {
    /// Allocates a tree able to hold `capacity` leaves: `2L - 1` slots for
    /// `L = next_pow2(capacity)`, every slot set to `fill`.
    pub fn new(capacity: usize, fill: T) -> (r: Self)
        requires
            capacity <= max_capacity(),
        ensures
            r.wf(),
            r.spec_leaf_count() == next_pow2(capacity as nat),
            r@.len() == 2 * next_pow2(capacity as nat) - 1,
            forall|i: int| 0 <= i < r@.len() ==> r@[i] == fill,
    {
        let l = to_power_of_two(capacity);
        proof {
            if capacity >= 1 {
                lemma_next_pow2_ub(capacity as nat);
            } else {
                lemma_next_pow2_ge(capacity as nat);
                vstd::arithmetic::power2::lemma2_to64();
            }
            lemma_next_pow2_ge(capacity as nat);
        }
        let total = 2 * l - 1;
        let heap = filled_vec(total, fill);
        let r = Self { heap };
        proof {
            r.lemma_wf_from_leaf_count(next_pow2(capacity as nat));
        }
        r
    }

    /// Builds a tree whose deepest level holds the given values, padded
    /// to a power of two with `fill`; every shallower slot holds `fill`
    /// until something is computed into it.
    pub fn from_iter(values: Vec<T>, fill: T) -> (r: Self)
        requires
            values@.len() <= max_capacity(),
        ensures
            r.wf(),
            r.spec_leaf_count() == next_pow2(values@.len() as nat),
            r@.len() == 2 * r.spec_leaf_count() - 1,
            forall|j: int|
                r.spec_leaf_count() - 1 <= j < r.spec_leaf_count() - 1 + values@.len()
                    ==> #[trigger] r@[j] == values@[j - (r.spec_leaf_count() - 1)],
            forall|j: int|
                0 <= j < r.spec_leaf_count() - 1 || r.spec_leaf_count() - 1 + values@.len() <= j
                    < r@.len() ==> #[trigger] r@[j] == fill,
    {
        let n = values.len();
        let l = to_power_of_two(n);
        proof {
            if n >= 1 {
                lemma_next_pow2_ub(n as nat);
            } else {
                vstd::arithmetic::power2::lemma2_to64();
            }
            lemma_next_pow2_ge(n as nat);
        }
        let total = 2 * l - 1;
        let mut heap = filled_vec(total, fill);
        let mut j: usize = 0;
        while j < n
            invariant
                n == values@.len(),
                n <= l,
                heap@.len() == total,
                total == 2 * l - 1,
                j <= n,
                forall|k: int|
                    l - 1 <= k < l - 1 + j ==> #[trigger] heap@[k] == values@[k - (l - 1)],
                forall|k: int| 0 <= k < l - 1 ==> #[trigger] heap@[k] == fill,
                forall|k: int| l - 1 + j <= k < 2 * l - 1 ==> #[trigger] heap@[k] == fill,
            decreases n - j,
        {
            heap[l - 1 + j] = values[j];
            j = j + 1;
        }
        let r = Self { heap };
        proof {
            assert(l == pow2(lg_ceil(n as nat)));
            r.lemma_wf_from_leaf_count(l as nat);
        }
        r
    }

    /// Proves well-formedness of a tree whose slot count is `2L - 1` for a
    /// power of two `L`, and names its depth and leaf count.
    proof fn lemma_wf_from_leaf_count(&self, l: nat)
        requires
            exists|e: nat| l == pow2(e),
            self@.len() == 2 * l - 1,
        ensures
            self.wf(),
            self.spec_leaf_count() == l,
    {
        let e = choose|e: nat| l == pow2(e);
        lemma_pow2_pos(e);
        lemma_pow2_unfold(e + 1);
        lemma_pow2_unfold(e + 2);
        lemma_pow2_pos(e + 1);
        assert(self@.len() + 1 == pow2(e + 1));
        lemma_lg_char((self@.len() + 1) as nat, e + 1);
    }
}

impl<T: Copy> RawHeap<T> {
    /// Builds a tree whose deepest level holds `base` (padded to a power of
    /// two with `fill`) and whose every internal slot combines its two
    /// children through `f`, from the deepest level up to the root.
    ///
    /// `f` is associative in intent only; nothing is enforced. What is
    /// promised is the layout: leaves first, then each parent a combination
    /// of its own two children.
    ///
    /// `inv` is a ghost invariant on the values flowing through the tree:
    /// it must hold of every given leaf and of the padding, be preserved by
    /// `f`, and suffice for `f`'s precondition; every slot of the result
    /// then satisfies it.
    pub fn bottom_up<F: Fn(T, T) -> T>(
        base: Vec<T>,
        fill: T,
        f: F,
        Ghost(inv): Ghost<spec_fn(T) -> bool>,
    ) -> (r: Self)
        requires
            base@.len() <= max_capacity(),
            inv(fill),
            forall|j: int| 0 <= j < base@.len() ==> inv(#[trigger] base@[j]),
            forall|a: T, b: T| inv(a) && inv(b) ==> #[trigger] call_requires(f, (a, b)),
            forall|a: T, b: T, o: T|
                inv(a) && inv(b) && #[trigger] call_ensures(f, (a, b), o) ==> inv(o),
        ensures
            r.wf(),
            r.spec_leaf_count() == next_pow2(base@.len() as nat),
            r@.len() == 2 * r.spec_leaf_count() - 1,
            forall|j: int|
                r.spec_leaf_count() - 1 <= j < r.spec_leaf_count() - 1 + base@.len()
                    ==> #[trigger] r@[j] == base@[j - (r.spec_leaf_count() - 1)],
            forall|j: int|
                r.spec_leaf_count() - 1 + base@.len() <= j < r@.len() ==> #[trigger] r@[j]
                    == fill,
            forall|i: int|
                0 <= i < r.spec_leaf_count() - 1 ==> call_ensures(
                    f,
                    (r@[2 * i + 1], r@[2 * i + 2]),
                    #[trigger] r@[i],
                ),
            forall|i: int| 0 <= i < r@.len() ==> inv(#[trigger] r@[i]),
    {
        let n = base.len();
        let l = to_power_of_two(n);
        proof {
            if n >= 1 {
                lemma_next_pow2_ub(n as nat);
            } else {
                vstd::arithmetic::power2::lemma2_to64();
            }
            lemma_next_pow2_ge(n as nat);
        }
        let total = 2 * l - 1;
        let mut heap = filled_vec(total, fill);

        // Copy the leaves into the deepest level.
        let mut j: usize = 0;
        while j < n
            invariant
                n == base@.len(),
                n <= l,
                heap@.len() == total,
                total == 2 * l - 1,
                j <= n,
                forall|k: int|
                    l - 1 <= k < l - 1 + j ==> #[trigger] heap@[k] == base@[k - (l - 1)],
                forall|k: int| 0 <= k < l - 1 ==> #[trigger] heap@[k] == fill,
                forall|k: int| l - 1 + j <= k < 2 * l - 1 ==> #[trigger] heap@[k] == fill,
            decreases n - j,
        {
            heap[l - 1 + j] = base[j];
            j = j + 1;
        }

        // Combine pairwise, from the last internal slot up to the root.
        proof {
            assert(l == pow2(lg_ceil(n as nat)));
        }
        let mut i: usize = l - 1;
        while i > 0
            invariant
                heap@.len() == total,
                total == 2 * l - 1,
                l >= 1,
                n <= l,
                n == base@.len(),
                i <= l - 1,
                inv(fill),
                forall|j: int| 0 <= j < n ==> inv(#[trigger] base@[j]),
                forall|a: T, b: T| inv(a) && inv(b) ==> #[trigger] call_requires(f, (a, b)),
                forall|a: T, b: T, o: T|
                    inv(a) && inv(b) && #[trigger] call_ensures(f, (a, b), o) ==> inv(o),
                forall|k: int|
                    l - 1 <= k < l - 1 + n ==> #[trigger] heap@[k] == base@[k - (l - 1)],
                forall|k: int| l - 1 + n <= k < total ==> #[trigger] heap@[k] == fill,
                forall|k: int| i <= k < total ==> inv(#[trigger] heap@[k]),
                forall|k: int|
                    i <= k < l - 1 ==> call_ensures(
                        f,
                        (heap@[2 * k + 1], heap@[2 * k + 2]),
                        #[trigger] heap@[k],
                    ),
            decreases i,
        {
            i = i - 1;
            let a = heap[2 * i + 1];
            let b = heap[2 * i + 2];
            heap[i] = f(a, b);
        }

        let r = Self { heap };
        proof {
            r.lemma_wf_from_leaf_count(l as nat);
        }
        r
    }
}

/// A vector of `n` copies of `fill`.
fn filled_vec<T: Copy>(n: usize, fill: T) -> (r: Vec<T>)
    ensures
        r@.len() == n,
        forall|i: int| 0 <= i < n ==> r@[i] == fill,
{
    let mut v: Vec<T> = Vec::new();
    while v.len() < n
        invariant
            v@.len() <= n,
            forall|i: int| 0 <= i < v@.len() ==> v@[i] == fill,
        decreases n - v@.len(),
    {
        v.push(fill);
    }
    v
}

} // verus!

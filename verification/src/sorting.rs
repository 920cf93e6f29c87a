//! Insertion sort driven one comparison at a time: `Collections.sort` asks
//! the interpreter to run `compareTo`/`compare`, so the sort is a machine
//! that names the next pair to compare and is fed the answer.

use vstd::prelude::*;
use crate::model::Reference;

verus! {

broadcast use vstd::seq_lib::group_seq_properties;

/// The abstract state of the sort: the values, the element being inserted
/// (`i`) and its current position (`j`).
pub struct SortView {
    pub values: Seq<Reference>,
    pub i: nat,
    pub j: nat,
}

/// The state before any comparison.
pub open spec fn sort_start(values: Seq<Reference>) -> SortView {
    SortView { values, i: 1, j: 1 }
}

/// Every element has been inserted.
pub open spec fn sort_done(s: SortView) -> bool {
    s.i >= s.values.len()
}

/// A reachable state: finished, or inserting element `i` at position `j >= 1`.
pub open spec fn sort_wf(s: SortView) -> bool {
    1 <= s.i && (s.i < s.values.len() ==> 1 <= s.j <= s.i)
}

/// The pair the next comparison is about: `(values[j-1], values[j])`.
pub open spec fn sort_pair(s: SortView) -> (Reference, Reference) {
    (s.values[s.j - 1], s.values[s.j as int])
}

/// Exchanges two positions.
pub open spec fn swap(v: Seq<Reference>, a: int, b: int) -> Seq<Reference> {
    v.update(a, v[b]).update(b, v[a])
}

/// The state after the comparison of `sort_pair(s)` answered `c`: a
/// positive answer swaps the pair and moves left, anything else (or reaching
/// the front) moves on to the next element.
pub open spec fn sort_feed(s: SortView, c: i32) -> SortView {
    if c > 0 {
        let v = swap(s.values, s.j - 1, s.j as int);
        if s.j == 1 {
            SortView { values: v, i: s.i + 1, j: s.i + 1 }
        } else {
            SortView { values: v, i: s.i, j: (s.j - 1) as nat }
        }
    } else {
        SortView { values: s.values, i: s.i + 1, j: s.i + 1 }
    }
}

/// An insertion sort waiting for comparison results.
pub struct InsertionSort {
    pub values: Vec<Reference>,
    pub i: usize,
    pub j: usize,
}

impl View for InsertionSort {
    type V = SortView;

    open spec fn view(&self) -> SortView {
        SortView { values: self.values@, i: self.i as nat, j: self.j as nat }
    }
}

impl InsertionSort {
    /// A sort of the given values.
    pub fn new(values: Vec<Reference>) -> (s: InsertionSort)
        ensures
            s@ == sort_start(values@),
    {
        InsertionSort { values, i: 1, j: 1 }
    }

    /// The next pair to compare, or `None` when the values are in order.
    pub fn pending(&self) -> (res: Option<(Reference, Reference)>)
        requires
            sort_wf(self@),
        ensures
            match res {
                None => sort_done(self@),
                Some(p) => !sort_done(self@) && p == sort_pair(self@),
            },
    {
        if self.i >= self.values.len() {
            None
        } else {
            Some((self.values[self.j - 1], self.values[self.j]))
        }
    }

    /// Takes the answer `c` of the pending comparison.
    pub fn feed(&mut self, c: i32)
        requires
            sort_wf(old(self)@),
            !sort_done(old(self)@),
        ensures
            final(self)@ == sort_feed(old(self)@, c),
            sort_wf(final(self)@),
            final(self)@.values.to_multiset() == old(self)@.values.to_multiset(),
            final(self)@.values.len() == old(self)@.values.len(),
            final(self)@.i > old(self)@.i || (final(self)@.i == old(self)@.i && final(self)@.j
                < old(self)@.j),
    {
        let ghost s0 = self@;
        let len = self.values.len();
        assert(self.i < len);
        let j = self.j;
        if c > 0 {
            let a = self.values[j - 1];
            let b = self.values[j];
            self.values.set(j - 1, b);
            self.values.set(j, a);
            if j == 1 {
                self.i = self.i + 1;
                self.j = self.i;
            } else {
                self.j = j - 1;
            }
            proof {
                lemma_swap_multiset(s0.values, j - 1, j as int);
            }
        } else {
            self.i = self.i + 1;
            self.j = self.i;
        }
    }
}

/// Exchanging two positions keeps the multiset of elements.
pub proof fn lemma_swap_multiset(v: Seq<Reference>, a: int, b: int)
    requires
        0 <= a < v.len(),
        0 <= b < v.len(),
    ensures
        swap(v, a, b).to_multiset() == v.to_multiset(),
        swap(v, a, b).len() == v.len(),
{
    broadcast use vstd::multiset::group_multiset_axioms;

    let v1 = v.update(a, v[b]);
    vstd::seq_lib::to_multiset_update(v, a, v[b]);
    vstd::seq_lib::to_multiset_update(v1, b, v[a]);
    assert(v1[b] == if a == b { v[b] } else { v[b] });
    vstd::seq_lib::to_multiset_contains(v, v[b]);
    assert(v.to_multiset().insert(v[b]).remove(v[a]).insert(v[a]).remove(v[b]) =~= v.to_multiset());
}

/// A comparator that behaves like Java's contract: answers for swapped
/// arguments have opposite signs, and "not greater" is transitive.
pub open spec fn consistent(order: spec_fn(Reference, Reference) -> i32) -> bool {
    &&& forall|a: Reference, b: Reference| #[trigger] order(a, b) > 0 ==> order(b, a) <= 0
    &&& forall|a: Reference, b: Reference, c: Reference|
        #[trigger] order(a, b) <= 0 && #[trigger] order(b, c) <= 0 ==> order(a, c) <= 0
}

/// The positions `lo..hi` are in order by the comparator.
pub open spec fn sorted_range(v: Seq<Reference>, lo: int, hi: int, order: spec_fn(Reference, Reference) -> i32) -> bool {
    forall|x: int, y: int| lo <= x < y < hi ==> #[trigger] order(v[x], v[y]) <= 0 && v[y] == v[y]
}

/// Every element is in order.
pub open spec fn sorted_by(v: Seq<Reference>, order: spec_fn(Reference, Reference) -> i32) -> bool {
    sorted_range(v, 0, v.len() as int, order)
}

/// What holds while element `i` is moved left: the front `0..j` is in
/// order, the run `j..=i` is in order starting with the moving element, and
/// every element of the front precedes every element after `j`.
pub open spec fn sort_inv(s: SortView, order: spec_fn(Reference, Reference) -> i32) -> bool {
    &&& sort_wf(s)
    &&& if sort_done(s) {
        sorted_by(s.values, order)
    } else {
        &&& sorted_range(s.values, 0, s.j as int, order)
        &&& sorted_range(s.values, s.j as int, s.i + 1int, order)
        &&& forall|x: int, y: int|
            0 <= x < s.j && s.j < y <= s.i ==> #[trigger] order(s.values[x], s.values[y]) <= 0 && s.values[y] == s.values[y]
    }
}

/// The invariant holds before the first comparison.
pub proof fn lemma_sort_start(values: Seq<Reference>, order: spec_fn(Reference, Reference) -> i32)
    ensures
        sort_inv(sort_start(values), order),
{
}

/// Each answer from a consistent comparator keeps the invariant.
pub proof fn lemma_sort_feed(s: SortView, order: spec_fn(Reference, Reference) -> i32)
    requires
        consistent(order),
        sort_inv(s, order),
        !sort_done(s),
    ensures
        sort_inv(sort_feed(s, order(sort_pair(s).0, sort_pair(s).1)), order),
{
    let v = s.values;
    let i = s.i as int;
    let j = s.j as int;
    let c = order(v[j - 1], v[j]);
    let n = sort_feed(s, c);
    if c > 0 {
        let w = n.values;
        assert(order(v[j], v[j - 1]) <= 0);
        assert forall|x: int, y: int| j - 1 <= x < y < i + 1 implies #[trigger] order(w[x], w[y]) <= 0 by {
            if x == j - 1 && y == j {
            } else if x == j - 1 {
                assert(order(v[j], v[y]) <= 0);
            } else if x == j {
                assert(order(v[j - 1], v[y]) <= 0);
            } else {
                assert(order(v[x], v[y]) <= 0);
            }
        }
        assert forall|x: int, y: int| 0 <= x < y < j - 1 implies #[trigger] order(w[x], w[y]) <= 0 by {
            assert(order(v[x], v[y]) <= 0);
        }
        assert forall|x: int, y: int|
            0 <= x < j - 1 && j - 1 < y <= i implies #[trigger] order(w[x], w[y]) <= 0 by {
            if y == j {
                assert(order(v[x], v[j - 1]) <= 0);
            } else {
                assert(order(v[x], v[y]) <= 0);
            }
        }
        if j == 1 {
            assert forall|x: int, y: int| 0 <= x < y < i + 1 implies #[trigger] order(w[x], w[y]) <= 0 by {
                assert(j - 1 <= x);
            }
        }
    } else {
        assert forall|x: int, y: int| 0 <= x < y < i + 1 implies #[trigger] order(v[x], v[y]) <= 0 by {
            if y < j {
            } else if x >= j {
            } else if y == j {
                if x < j - 1 {
                    assert(order(v[x], v[j - 1]) <= 0);
                }
            } else {
            }
        }
    }
}

/// When every element has been inserted, the values are in order.
pub proof fn lemma_sort_done(s: SortView, order: spec_fn(Reference, Reference) -> i32)
    requires
        sort_inv(s, order),
        sort_done(s),
    ensures
        sorted_by(s.values, order),
{
}

} // verus!

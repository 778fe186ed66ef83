//! A set of byte offsets kept as maximal, sorted, pairwise-disjoint half-open intervals.
use vstd::prelude::*;

verus! {

/// The offsets of the half-open interval `[start, end)`.
pub open spec fn range_set(start: int, end: int) -> Set<int> {
    Set::new(|x: int| start <= x < end)
}

/// The offsets covered by a sequence of intervals.
pub open spec fn points_of(s: Seq<(usize, usize)>) -> Set<int> {
    Set::new(|x: int| exists|i: int| 0 <= i < s.len() && #[trigger] s[i].0 <= x < s[i].1)
}

/// Every interval is non-empty, and each one ends strictly before the next one starts,
/// so no two stored intervals touch or overlap.
pub open spec fn canonical(s: Seq<(usize, usize)>) -> bool {
    &&& forall|i: int| 0 <= i < s.len() ==> #[trigger] s[i].0 < s[i].1
    &&& forall|i: int, j: int| 0 <= i < j < s.len() ==> #[trigger] s[i].1 < #[trigger] s[j].0
}

/// The set of covered offsets of a [`MultiRange`].
pub struct MultiRange {
    pairs: Vec<(usize, usize)>,
}

impl View for MultiRange {
    type V = Set<int>;

    closed spec fn view(&self) -> Set<int> {
        points_of(self.pairs@)
    }
}

/// A value that can be tested for coverage: a single offset, or a range of offsets.
pub trait Coverable: Sized {
    /// Whether the value lies within the covered offsets `points`.
    spec fn covered_in(&self, points: Set<int>) -> bool;

    fn is_covered(self, ranges: &MultiRange) -> (r: bool)
        requires
            ranges.wf(),
        ensures
            r == self.covered_in(ranges@),
    ;
}

impl Coverable for usize {
    open spec fn covered_in(&self, points: Set<int>) -> bool {
        points.contains(*self as int)
    }

    fn is_covered(self, ranges: &MultiRange) -> (r: bool) {
        ranges.covering_interval(self).is_some()
    }
}

impl Coverable for std::ops::Range<usize> {
    /// An empty range is covered; a non-empty one is covered when all its offsets are, which,
    /// as the stored intervals never touch, is when it lies within one stored interval.
    open spec fn covered_in(&self, points: Set<int>) -> bool {
        range_set(self.start as int, self.end as int).subset_of(points)
    }

    fn is_covered(self, ranges: &MultiRange) -> (r: bool) {
        if self.start >= self.end {
            assert(range_set(self.start as int, self.end as int) =~= Set::empty());
            return true;
        }
        match ranges.covering_interval(self.start) {
            None => {
                assert(range_set(self.start as int, self.end as int).contains(self.start as int));
                false
            },
            Some(k) => {
                let e = ranges.pairs[k].1;
                if self.end <= e {
                    assert forall|x: int|
                        range_set(self.start as int, self.end as int).contains(x) implies ranges@.contains(
                        x,
                    ) by {
                        assert(ranges.pairs@[k as int].0 <= x < ranges.pairs@[k as int].1);
                    }
                    true
                } else {
                    // The offset `e` is in the range, and no stored interval holds it.
                    assert(range_set(self.start as int, self.end as int).contains(e as int));
                    assert(!ranges@.contains(e as int)) by {
                        if ranges@.contains(e as int) {
                            let m = choose|m: int|
                                0 <= m < ranges.pairs@.len() && #[trigger] ranges.pairs@[m].0 <= e
                                    < ranges.pairs@[m].1;
                            if m < k {
                                assert(ranges.pairs@[m].1 < ranges.pairs@[k as int].0);
                            } else if m > k {
                                assert(ranges.pairs@[k as int].1 < ranges.pairs@[m].0);
                            }
                        }
                    }
                    false
                }
            },
        }
    }
}

impl MultiRange {
    /// The stored intervals are canonical.
    pub closed spec fn wf(&self) -> bool {
        canonical(self.pairs@)
    }

    /// The stored intervals, in increasing order.
    pub closed spec fn spec_pairs(&self) -> Seq<(usize, usize)> {
        self.pairs@
    }

    /// An empty set.
    pub fn new() -> (r: MultiRange)
        ensures
            r.wf(),
            r@ == Set::<int>::empty(),
    {
        let r = MultiRange { pairs: Vec::new() };
        assert(r@ =~= Set::<int>::empty());
        r
    }

    /// Whether `value` (an offset or a range of offsets) is covered.
    pub fn covered<U: Coverable>(&self, value: U) -> (r: bool)
        requires
            self.wf(),
        ensures
            r == value.covered_in(self@),
    {
        U::is_covered(value, self)
    }

    /// The stored intervals, in increasing order.
    pub fn pairs(&self) -> (r: Vec<(usize, usize)>)
        ensures
            r@ == self.spec_pairs(),
            self.wf() ==> canonical(r@) && points_of(r@) == self@,
    {
        let mut out: Vec<(usize, usize)> = Vec::new();
        let mut i: usize = 0;
        while i < self.pairs.len()
            invariant
                i <= self.pairs@.len(),
                out@ == self.pairs@.subrange(0, i as int),
            decreases self.pairs@.len() - i,
        {
            out.push(self.pairs[i]);
            i = i + 1;
        }
        assert(self.pairs@.subrange(0, i as int) == self.pairs@);
        out
    }

    /// The index of the first stored interval that ends at or after `x`, found by binary
    /// search; the number of intervals if none does.
    fn first_end_at_least(&self, x: usize) -> (r: usize)
        requires
            self.wf(),
        ensures
            r <= self.pairs@.len(),
            forall|k: int| 0 <= k < r ==> #[trigger] self.pairs@[k].1 < x,
            r < self.pairs@.len() ==> self.pairs@[r as int].1 >= x,
    {
        let mut lo: usize = 0;
        let mut hi: usize = self.pairs.len();
        while lo < hi
            invariant
                self.wf(),
                lo <= hi <= self.pairs@.len(),
                forall|k: int| 0 <= k < lo ==> #[trigger] self.pairs@[k].1 < x,
                forall|k: int| hi <= k < self.pairs@.len() ==> #[trigger] self.pairs@[k].1 >= x,
            decreases hi - lo,
        {
            let mid = lo + (hi - lo) / 2;
            if self.pairs[mid].1 < x {
                assert forall|k: int| 0 <= k <= mid implies #[trigger] self.pairs@[k].1 < x by {
                    if k < mid {
                        assert(self.pairs@[k].1 < self.pairs@[mid as int].0);
                        assert(self.pairs@[mid as int].0 < self.pairs@[mid as int].1);
                    }
                }
                lo = mid + 1;
            } else {
                assert forall|k: int| mid <= k < self.pairs@.len() implies #[trigger] self.pairs@[k].1
                    >= x by {
                    if k > mid {
                        assert(self.pairs@[mid as int].1 < self.pairs@[k].0);
                        assert(self.pairs@[k].0 < self.pairs@[k].1);
                    }
                }
                hi = mid;
            }
        }
        lo
    }

    /// The index of the first stored interval from `from` on that starts after `x`, found by
    /// binary search; the number of intervals if none does.
    fn first_start_after(&self, x: usize, from: usize) -> (r: usize)
        requires
            self.wf(),
            from <= self.pairs@.len(),
        ensures
            from <= r <= self.pairs@.len(),
            forall|k: int| from <= k < r ==> #[trigger] self.pairs@[k].0 <= x,
            r < self.pairs@.len() ==> self.pairs@[r as int].0 > x,
    {
        let mut lo: usize = from;
        let mut hi: usize = self.pairs.len();
        while lo < hi
            invariant
                self.wf(),
                from <= lo <= hi <= self.pairs@.len(),
                forall|k: int| from <= k < lo ==> #[trigger] self.pairs@[k].0 <= x,
                forall|k: int| hi <= k < self.pairs@.len() ==> #[trigger] self.pairs@[k].0 > x,
            decreases hi - lo,
        {
            let mid = lo + (hi - lo) / 2;
            if self.pairs[mid].0 <= x {
                assert forall|k: int| from <= k <= mid implies #[trigger] self.pairs@[k].0 <= x by {
                    if k < mid {
                        assert(self.pairs@[k].0 < self.pairs@[k].1);
                        assert(self.pairs@[k].1 < self.pairs@[mid as int].0);
                    }
                }
                lo = mid + 1;
            } else {
                assert forall|k: int| mid <= k < self.pairs@.len() implies #[trigger] self.pairs@[k].0
                    > x by {
                    if k > mid {
                        assert(self.pairs@[mid as int].0 < self.pairs@[mid as int].1);
                        assert(self.pairs@[mid as int].1 < self.pairs@[k].0);
                    }
                }
                hi = mid;
            }
        }
        lo
    }

    /// The index of the stored interval that holds `value`, if any, found by binary search.
    fn covering_interval(&self, value: usize) -> (r: Option<usize>)
        requires
            self.wf(),
        ensures
            r.is_none() <==> !self@.contains(value as int),
            r matches Some(k) ==> k < self.pairs@.len() && self.pairs@[k as int].0 <= value
                < self.pairs@[k as int].1,
    {
        let k = self.first_end_at_least(value);
        if k < self.pairs.len() && self.pairs[k].0 <= value && value < self.pairs[k].1 {
            Some(k)
        } else {
            assert(!self@.contains(value as int)) by {
                if self@.contains(value as int) {
                    let m = choose|m: int|
                        0 <= m < self.pairs@.len() && #[trigger] self.pairs@[m].0 <= value
                            < self.pairs@[m].1;
                    if m > k {
                        assert(self.pairs@[k as int].1 < self.pairs@[m].0);
                        assert(self.pairs@[k as int].0 < self.pairs@[k as int].1);
                    }
                }
            }
            None
        }
    }

    /// Adds the offsets of `range`, merging every stored interval that it touches or
    /// overlaps into one. An empty range changes nothing.
    pub fn insert(&mut self, range: std::ops::Range<usize>)
        requires
            old(self).wf(),
        ensures
            final(self).wf(),
            final(self)@ == old(self)@.union(range_set(range.start as int, range.end as int)),
    {
        let start = range.start;
        let end = range.end;
        if start >= end {
            assert(range_set(start as int, end as int) =~= Set::empty());
            assert(self@.union(range_set(start as int, end as int)) =~= self@);
            return;
        }
        let ghost a = self.pairs@;
        let n = self.pairs.len();
        // The intervals before `i` end strictly before `start`; those from `i` to `j` touch or
        // overlap `range`; those from `j` on start after it.
        let i = self.first_end_at_least(start);
        let j = self.first_start_after(end, i);
        let (ns, ne) = if i < j {
            let s = if self.pairs[i].0 < start {
                self.pairs[i].0
            } else {
                start
            };
            let e = if self.pairs[j - 1].1 > end {
                self.pairs[j - 1].1
            } else {
                end
            };
            (s, e)
        } else {
            (start, end)
        };
        let mut out: Vec<(usize, usize)> = Vec::new();
        let mut k: usize = 0;
        while k < i
            invariant
                n == a.len(),
                self.pairs@ == a,
                k <= i <= n,
                out@ == a.subrange(0, k as int),
            decreases i - k,
        {
            out.push(self.pairs[k]);
            k = k + 1;
        }
        out.push((ns, ne));
        let mut k: usize = j;
        while k < n
            invariant
                n == a.len(),
                self.pairs@ == a,
                i <= j <= k <= n,
                out@ == a.subrange(0, i as int).push((ns, ne)) + a.subrange(j as int, k as int),
            decreases n - k,
        {
            out.push(self.pairs[k]);
            assert(a.subrange(j as int, k + 1) == a.subrange(j as int, k as int).push(a[k as int]));
            k = k + 1;
        }
        let ghost r = out@;
        assert(a.subrange(j as int, n as int) == a.subrange(j as int, k as int));
        proof {
            lemma_merge(a, start as int, end as int, i as int, j as int, ns, ne, r);
        }
        self.pairs = out;
    }

    /// Adds the `len` offsets that begin at `start`.
    pub fn extend(&mut self, start: usize, len: usize)
        requires
            old(self).wf(),
            start + len <= usize::MAX,
        ensures
            final(self).wf(),
            final(self)@ == old(self)@.union(range_set(start as int, start + len)),
    {
        self.insert(start..start + len)
    }
}

/// The intervals before `i` end before `start`, those from `j` on start after `end`, and those
/// between `i` and `j` touch `[start, end)`. Replacing the latter by their hull with the range
/// keeps the sequence canonical and covers exactly the union.
proof fn lemma_merge(
    a: Seq<(usize, usize)>,
    start: int,
    end: int,
    i: int,
    j: int,
    ns: usize,
    ne: usize,
    r: Seq<(usize, usize)>,
)
    requires
        canonical(a),
        start < end,
        0 <= i <= j <= a.len(),
        forall|k: int| 0 <= k < i ==> #[trigger] a[k].1 < start,
        i < a.len() ==> a[i].1 >= start,
        forall|k: int| i <= k < j ==> #[trigger] a[k].0 <= end,
        j < a.len() ==> a[j].0 > end,
        i < j ==> ns == if a[i].0 < start { a[i].0 as int } else { start },
        i < j ==> ne == if a[j - 1].1 > end { a[j - 1].1 as int } else { end },
        i == j ==> ns == start && ne == end,
        r == a.subrange(0, i).push((ns, ne)) + a.subrange(j, a.len() as int),
    ensures
        canonical(r),
        points_of(r) == points_of(a).union(range_set(start, end)),
{
    assert(r.len() == a.len() - (j - i) + 1);
    assert forall|k: int| 0 <= k < r.len() implies #[trigger] r[k].0 < r[k].1 by {
        if k < i {
            assert(r[k] == a[k]);
        } else if k == i {
        } else {
            assert(r[k] == a[k - i - 1 + j]);
        }
    }
    assert forall|p: int, q: int| 0 <= p < q < r.len() implies #[trigger] r[p].1 < #[trigger] r[q].0 by {
        if q < i {
            assert(r[p] == a[p] && r[q] == a[q]);
        } else if q == i {
            assert(r[p] == a[p]);
            if i < j {
                assert(a[p].1 < a[i].0);
            }
        } else if p > i {
            assert(r[p] == a[p - i - 1 + j] && r[q] == a[q - i - 1 + j]);
        } else if p == i {
            assert(r[q] == a[q - i - 1 + j]);
            if i < j {
                assert(a[j - 1].1 < a[q - i - 1 + j].0);
            }
        } else {
            assert(r[p] == a[p] && r[q] == a[q - i - 1 + j]);
            assert(a[j].0 > end);
            if j < q - i - 1 + j {
                assert(a[j].0 < a[q - i - 1 + j].0) by {
                    assert(a[j].0 < a[j].1);
                }
            }
        }
    }
    assert forall|x: int| #[trigger]
        points_of(r).contains(x) implies points_of(a).union(range_set(start, end)).contains(x) by {
        let k = choose|k: int| 0 <= k < r.len() && #[trigger] r[k].0 <= x < r[k].1;
        if k < i {
            assert(r[k] == a[k]);
        } else if k > i {
            assert(r[k] == a[k - i - 1 + j]);
        } else if !(start <= x < end) {
            // `x` lies in the hull but outside the range: it lies in an absorbed interval.
            if x < start {
                assert(a[i].0 <= x < a[i].1);
            } else {
                assert(a[j - 1].0 <= x < a[j - 1].1);
            }
        }
    }
    assert forall|x: int| #[trigger]
        points_of(a).union(range_set(start, end)).contains(x) implies points_of(r).contains(x) by {
        if start <= x < end {
            assert(r[i].0 <= x < r[i].1);
        } else {
            let k = choose|k: int| 0 <= k < a.len() && #[trigger] a[k].0 <= x < a[k].1;
            if k < i {
                assert(r[k] == a[k]);
                assert(r[k].0 <= x < r[k].1);
            } else if k >= j {
                assert(r[k - j + i + 1] == a[k]);
                assert(r[k - j + i + 1].0 <= x < r[k - j + i + 1].1);
            } else {
                if i < k {
                    assert(a[i].0 < a[k].0);
                }
                if k < j - 1 {
                    assert(a[k].1 < a[j - 1].0);
                }
                assert(r[i].0 <= x < r[i].1);
            }
        }
    }
    assert(points_of(r) =~= points_of(a).union(range_set(start, end)));
}

/// Without its first interval, a canonical sequence stays canonical and covers the same
/// offsets less those of that interval.
proof fn lemma_points_tail(a: Seq<(usize, usize)>)
    requires
        canonical(a),
        a.len() > 0,
    ensures
        canonical(a.subrange(1, a.len() as int)),
        points_of(a.subrange(1, a.len() as int)) == points_of(a).difference(
            range_set(a[0].0 as int, a[0].1 as int),
        ),
{
    let t = a.subrange(1, a.len() as int);
    assert forall|i: int| 0 <= i < t.len() implies #[trigger] t[i].0 < t[i].1 by {
        assert(t[i] == a[i + 1]);
    }
    assert forall|i: int, j: int| 0 <= i < j < t.len() implies #[trigger] t[i].1 < #[trigger] t[j].0 by {
        assert(t[i] == a[i + 1] && t[j] == a[j + 1]);
    }
    assert forall|x: int| #[trigger] points_of(t).contains(x) implies points_of(a).difference(
        range_set(a[0].0 as int, a[0].1 as int),
    ).contains(x) by {
        let k = choose|k: int| 0 <= k < t.len() && #[trigger] t[k].0 <= x < t[k].1;
        assert(t[k] == a[k + 1]);
        assert(a[k + 1].0 <= x < a[k + 1].1);
        assert(a[0].1 < a[k + 1].0);
    }
    assert forall|x: int| #[trigger] points_of(a).difference(
        range_set(a[0].0 as int, a[0].1 as int),
    ).contains(x) implies points_of(t).contains(x) by {
        let k = choose|k: int| 0 <= k < a.len() && #[trigger] a[k].0 <= x < a[k].1;
        assert(k != 0);
        assert(t[k - 1] == a[k]);
        assert(t[k - 1].0 <= x < t[k - 1].1);
    }
    assert(points_of(t) =~= points_of(a).difference(range_set(a[0].0 as int, a[0].1 as int)));
}

/// Two canonical sequences of intervals that cover the same offsets are equal: the stored
/// intervals of a coverage set are determined by the union of what was inserted, whatever the
/// order, grouping or repetition of the insertions.
pub proof fn lemma_canonical_unique(a: Seq<(usize, usize)>, b: Seq<(usize, usize)>)
    requires
        canonical(a),
        canonical(b),
        points_of(a) == points_of(b),
    ensures
        a == b,
    decreases a.len(),
{
    if a.len() == 0 {
        if b.len() > 0 {
            assert(points_of(b).contains(b[0].0 as int));
        }
        assert(a =~= b);
    } else {
        assert(points_of(a).contains(a[0].0 as int));
        if b.len() == 0 {
            assert(false);
        }
        assert(points_of(b).contains(b[0].0 as int));
        let ka = choose|k: int| 0 <= k < a.len() && #[trigger] a[k].0 <= b[0].0 < a[k].1;
        let kb = choose|k: int| 0 <= k < b.len() && #[trigger] b[k].0 <= a[0].0 < b[k].1;
        if ka > 0 {
            assert(a[0].1 < a[ka].0);
        }
        if kb > 0 {
            assert(b[0].1 < b[kb].0);
        }
        assert(a[0].0 == b[0].0);
        if a[0].1 < b[0].1 {
            assert(points_of(b).contains(a[0].1 as int));
            let k = choose|k: int| 0 <= k < a.len() && #[trigger] a[k].0 <= a[0].1 < a[k].1;
            if k > 0 {
                assert(a[0].1 < a[k].0);
            }
            assert(false);
        }
        if b[0].1 < a[0].1 {
            assert(points_of(a).contains(b[0].1 as int));
            let k = choose|k: int| 0 <= k < b.len() && #[trigger] b[k].0 <= b[0].1 < b[k].1;
            if k > 0 {
                assert(b[0].1 < b[k].0);
            }
            assert(false);
        }
        assert(a[0] == b[0]);
        lemma_points_tail(a);
        lemma_points_tail(b);
        lemma_canonical_unique(a.subrange(1, a.len() as int), b.subrange(1, b.len() as int));
        assert(a =~= seq![a[0]] + a.subrange(1, a.len() as int));
        assert(b =~= seq![b[0]] + b.subrange(1, b.len() as int));
    }
}

/// The covered offsets are those of the stored intervals: an offset is covered when some stored
/// interval `(s, e)` has `s <= x < e`.
pub proof fn lemma_view_is_pairs(m: MultiRange)
    ensures
        m@ == points_of(m.spec_pairs()),
        forall|x: int| m@.contains(x) <==> exists|i: int|
            0 <= i < m.spec_pairs().len() && #[trigger] m.spec_pairs()[i].0 <= x < m.spec_pairs()[i].1,
{
    assert forall|x: int| m@.contains(x) <==> exists|i: int|
        0 <= i < m.spec_pairs().len() && #[trigger] m.spec_pairs()[i].0 <= x < m.spec_pairs()[i].1 by {
        assert(m@ == points_of(m.spec_pairs()));
    }
}

/// Two coverage sets that cover the same offsets store the same intervals.
pub proof fn lemma_same_cover_same_pairs(m1: MultiRange, m2: MultiRange)
    requires
        m1.wf(),
        m2.wf(),
        m1@ == m2@,
    ensures
        m1.spec_pairs() == m2.spec_pairs(),
{
    lemma_canonical_unique(m1.pairs@, m2.pairs@);
}

/// Inserting ranges is associative, commutative and idempotent on what is covered: after any
/// sequence of insertions the covered offsets are the union of the inserted ranges.
pub proof fn lemma_insert_union_laws(s: Set<int>, a: (int, int), b: (int, int))
    ensures
        s.union(range_set(a.0, a.1)).union(range_set(b.0, b.1)) == s.union(
            range_set(b.0, b.1),
        ).union(range_set(a.0, a.1)),
        s.union(range_set(a.0, a.1)).union(range_set(a.0, a.1)) == s.union(range_set(a.0, a.1)),
        s.union(range_set(a.0, a.1)).union(range_set(b.0, b.1)) == s.union(
            range_set(a.0, a.1).union(range_set(b.0, b.1)),
        ),
{
    assert(s.union(range_set(a.0, a.1)).union(range_set(b.0, b.1)) =~= s.union(
        range_set(b.0, b.1),
    ).union(range_set(a.0, a.1)));
    assert(s.union(range_set(a.0, a.1)).union(range_set(a.0, a.1)) =~= s.union(
        range_set(a.0, a.1),
    ));
    assert(s.union(range_set(a.0, a.1)).union(range_set(b.0, b.1)) =~= s.union(
        range_set(a.0, a.1).union(range_set(b.0, b.1)),
    ));
}

} // verus!

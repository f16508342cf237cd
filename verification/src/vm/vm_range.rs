//! Half-open address ranges.
use vstd::prelude::*;

verus! {

/// The addresses `[start, end)`.
#[derive(Clone, Copy, Debug, PartialEq, Eq, Structural)]
pub struct VMRange {
    start: usize,
    end: usize,
}

/// `pieces` is `outer` with the addresses of `hole` taken away, cut into its
/// maximal runs of consecutive addresses, in ascending order.
pub open spec fn is_difference(pieces: Seq<VMRange>, outer: VMRange, hole: VMRange) -> bool {
    &&& forall|i: int| 0 <= i < pieces.len() ==> pieces[i].start() < #[trigger] pieces[i].end()
    &&& forall|i: int, j: int|
        0 <= i < j < pieces.len() ==> #[trigger] pieces[i].end() < #[trigger] pieces[j].start()
    &&& forall|a: int| #[trigger] covers(pieces, a) <==> (outer.contains(a) && !hole.contains(a))
}

/// Some range of `pieces` holds address `a`.
pub open spec fn covers(pieces: Seq<VMRange>, a: int) -> bool {
    exists|i: int| 0 <= i < pieces.len() && #[trigger] pieces[i].contains(a)
}


/// Two ranges with the same bounds are the same range.
proof fn lemma_range_ext(a: VMRange, b: VMRange)
    requires
        a.start() == b.start(),
        a.end() == b.end(),
    ensures
        a == b,
{
}

/// The address just past a piece of a difference, and the one just before
/// it, are outside the difference.
proof fn lemma_piece_bounds(p: Seq<VMRange>, outer: VMRange, hole: VMRange, i: int)
    requires
        is_difference(p, outer, hole),
        0 <= i < p.len(),
    ensures
        !(outer.contains(p[i].end() as int) && !hole.contains(p[i].end() as int)),
        !(outer.contains(p[i].start() - 1) && !hole.contains(p[i].start() - 1)),
{
    let e = p[i].end() as int;
    if outer.contains(e) && !hole.contains(e) {
        assert(covers(p, e));
        let j = choose|j: int| 0 <= j < p.len() && #[trigger] p[j].contains(e);
        if j < i {
            assert(p[j].end() < p[i].start());
        } else if i < j {
            assert(p[i].end() < p[j].start());
        }
    }
    let b = p[i].start() - 1;
    if outer.contains(b) && !hole.contains(b) {
        assert(covers(p, b));
        let j = choose|j: int| 0 <= j < p.len() && #[trigger] p[j].contains(b);
        if j < i {
            assert(p[j].end() < p[i].start());
        } else if i < j {
            assert(p[i].end() < p[j].start());
        }
    }
}

/// Each piece of one difference is a piece of any other difference of the
/// same two ranges.
proof fn lemma_piece_shared(p: Seq<VMRange>, q: Seq<VMRange>, outer: VMRange, hole: VMRange, i: int) -> (j: int)
    requires
        is_difference(p, outer, hole),
        is_difference(q, outer, hole),
        0 <= i < p.len(),
    ensures
        0 <= j < q.len(),
        q[j] == p[i],
{
    let s = p[i].start() as int;
    assert(p[i].contains(s));
    assert(covers(p, s));
    assert(covers(q, s));
    let j = choose|j: int| 0 <= j < q.len() && #[trigger] q[j].contains(s);
    lemma_piece_bounds(p, outer, hole, i);
    lemma_piece_bounds(q, outer, hole, j);
    if q[j].start() < s {
        assert(q[j].contains(s - 1));
        assert(covers(q, s - 1));
    }
    let e = p[i].end() as int;
    let f = q[j].end() as int;
    if f > e {
        assert(q[j].contains(e));
        assert(covers(q, e));
    } else if f < e {
        assert(p[i].contains(f));
        assert(covers(p, f));
    }
    lemma_range_ext(q[j], p[i]);
    j
}

/// Two differences of the same ranges agree on their first `k + 1` pieces.
proof fn lemma_difference_prefix(p: Seq<VMRange>, q: Seq<VMRange>, outer: VMRange, hole: VMRange, k: int)
    requires
        is_difference(p, outer, hole),
        is_difference(q, outer, hole),
        0 <= k < p.len(),
        k < q.len(),
    ensures
        forall|i: int| 0 <= i <= k ==> p[i] == q[i],
    decreases k,
{
    if k > 0 {
        lemma_difference_prefix(p, q, outer, hole, k - 1);
    }
    let j = lemma_piece_shared(p, q, outer, hole, k);
    if j < k {
        assert(p[j] == q[j]);
        assert(p[j].end() < p[k].start());
    } else if j > k {
        let i = lemma_piece_shared(q, p, outer, hole, k);
        if i < k {
            assert(p[i] == q[i]);
            assert(q[i].end() < q[k].start());
        } else if i > k {
            assert(p[k].end() < p[i].start());
            assert(q[k].end() < q[j].start());
        }
    }
}

/// A difference is unique: the contract of `VMRange::subtract` leaves no
/// choice of result.
pub proof fn lemma_difference_unique(p: Seq<VMRange>, q: Seq<VMRange>, outer: VMRange, hole: VMRange)
    requires
        is_difference(p, outer, hole),
        is_difference(q, outer, hole),
    ensures
        p == q,
{
    if p.len() > q.len() {
        let m = q.len() as int;
        if m > 0 {
            lemma_difference_prefix(p, q, outer, hole, m - 1);
        }
        if m == 0 {
            let s = p[0].start() as int;
            assert(p[0].contains(s));
            assert(covers(p, s));
            assert(covers(q, s));
        }
        let j = lemma_piece_shared(p, q, outer, hole, m);
        assert(p[j] == q[j]);
        assert(p[j].end() < p[m].start());
    } else if q.len() > p.len() {
        let m = p.len() as int;
        if m > 0 {
            lemma_difference_prefix(q, p, outer, hole, m - 1);
        }
        if m == 0 {
            let s = q[0].start() as int;
            assert(q[0].contains(s));
            assert(covers(q, s));
            assert(covers(p, s));
        }
        let j = lemma_piece_shared(q, p, outer, hole, m);
        assert(q[j] == p[j]);
        assert(q[j].end() < q[m].start());
    } else if p.len() > 0 {
        lemma_difference_prefix(p, q, outer, hole, p.len() - 1);
    }
    assert(p =~= q);
}

impl VMRange {
    #[verifier::type_invariant]
    closed spec fn ordered(&self) -> bool {
        self.start <= self.end
    }

    pub closed spec fn spec_start(&self) -> usize {
        self.start
    }

    pub closed spec fn spec_end(&self) -> usize {
        self.end
    }

    /// Whether address `a` lies in the range.
    pub open spec fn contains(&self, a: int) -> bool {
        self.start() <= a < self.end()
    }

    /// The range `[start, end)`.
    pub fn new(start: usize, end: usize) -> (r: VMRange)
        requires
            start <= end,
        ensures
            r.start() == start,
            r.end() == end,
    {
        VMRange { start, end }
    }

    /// The first address of the range.
    #[verifier::when_used_as_spec(spec_start)]
    pub fn start(&self) -> (r: usize)
        ensures
            r == self.start(),
            r <= self.end(),
    {
        proof {
            use_type_invariant(self);
        }
        self.start
    }

    /// The address just past the range.
    #[verifier::when_used_as_spec(spec_end)]
    pub fn end(&self) -> (r: usize)
        ensures
            r == self.end(),
            self.start() <= r,
    {
        proof {
            use_type_invariant(self);
        }
        self.end
    }

    /// The number of addresses in the range.
    pub fn size(&self) -> (r: usize)
        ensures
            r == self.end() - self.start(),
    {
        proof {
            use_type_invariant(self);
        }
        self.end - self.start
    }

    /// The parts of this range that lie outside `other`: none, one or two
    /// ranges, in ascending order, none of them empty.
    pub fn subtract(&self, other: &VMRange) -> (r: Vec<VMRange>)
        ensures
            is_difference(r@, *self, *other),
            r.len() <= 2,
    {
        proof {
            use_type_invariant(self);
            use_type_invariant(other);
        }
        let mut pieces: Vec<VMRange> = Vec::new();
        if self.start == self.end {
            return pieces;
        }
        if other.start == other.end || other.end <= self.start || self.end <= other.start {
            pieces.push(*self);
            assert forall|a: int| #[trigger] covers(pieces@, a) <==> (self.contains(a) && !other.contains(a)) by {
                if self.contains(a) {
                    assert(pieces@[0].contains(a));
                }
            }
            return pieces;
        }
        if self.start < other.start {
            pieces.push(VMRange { start: self.start, end: other.start });
        }
        if other.end < self.end {
            pieces.push(VMRange { start: other.end, end: self.end });
        }
        assert forall|a: int| #[trigger] covers(pieces@, a) <==> (self.contains(a) && !other.contains(a)) by {
            if self.contains(a) && !other.contains(a) {
                if a < other.start {
                    assert(pieces@[0].contains(a));
                } else {
                    assert(pieces@[pieces@.len() - 1].contains(a));
                }
            }
        }
        pieces
    }
}

impl Default for VMRange {
    /// The empty range at address zero.
    fn default() -> (r: VMRange)
        ensures
            r.start() == 0,
            r.end() == 0,
    {
        VMRange { start: 0, end: 0 }
    }
}

} // verus!

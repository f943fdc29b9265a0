//! The line store: an append-only, arrival-ordered collection of ingested
//! text lines, read back through a bounded most-recent-first snapshot.

use vstd::prelude::*;

verus! {

/// Append-only store of ingested lines, oldest first. Lines are never
/// removed or mutated once stored; the store grows for the life of the
/// process (full scroll-back is retained by design).
pub struct LineStore {
    pub lines: Vec<Vec<char>>,
}

impl View for LineStore {
    type V = Seq<Seq<char>>;

    open spec fn view(&self) -> Seq<Seq<char>> {
        self.lines.deep_view()
    }
}

/// The last `min(k, |s|)` elements of `s`, newest first.
pub open spec fn spec_snapshot_recent(s: Seq<Seq<char>>, k: int) -> Seq<Seq<char>> {
    Seq::new(vstd::math::min(k, s.len() as int) as nat, |i: int| s[s.len() - 1 - i])
}

/// Copy a line character by character.
pub(crate) fn copy_line(line: &Vec<char>) -> (r: Vec<char>)
    ensures
        r@ == line@,
{
    let mut r: Vec<char> = Vec::new();
    let mut i: usize = 0;
    while i < line.len()
        invariant
            i <= line.len(),
            r@ == line@.take(i as int),
        decreases line.len() - i,
    {
        r.push(line[i]);
        i = i + 1;
    }
    assert(r@ =~= line@);
    r
}

/// Copy the characters of `line` from position `from` (inclusive) to `to`
/// (exclusive).
pub(crate) fn copy_range(line: &Vec<char>, from: usize, to: usize) -> (r: Vec<char>)
    requires
        from <= to <= line@.len(),
    ensures
        r@ == line@.subrange(from as int, to as int),
{
    let mut r: Vec<char> = Vec::new();
    let mut i: usize = from;
    while i < to
        invariant
            from <= i <= to <= line@.len(),
            r@ == line@.subrange(from as int, i as int),
        decreases to - i,
    {
        r.push(line[i]);
        assert(r@ =~= line@.subrange(from as int, i + 1));
        i = i + 1;
    }
    r
}

impl LineStore {
    /// An empty store.
    pub fn new() -> (s: LineStore)
        ensures
            s@ == Seq::<Seq<char>>::empty(),
    {
        let s = LineStore { lines: Vec::new() };
        assert(s@ =~~= Seq::<Seq<char>>::empty());
        s
    }

    /// Append one line at the end; arrival order is preserved and no
    /// stored line changes.
    pub fn append(&mut self, line: Vec<char>)
        ensures
            final(self)@ == old(self)@.push(line@),
    {
        self.lines.push(line);
        assert(final(self)@ =~~= old(self)@.push(line@));
    }

    /// Up to `k` of the most recent lines, newest first. The result is a
    /// function of the store contents and `k` alone.
    pub fn snapshot_recent(&self, k: usize) -> (r: Vec<Vec<char>>)
        ensures
            r.deep_view() == spec_snapshot_recent(self@, k as int),
    {
        let n = self.lines.len();
        let count = if k < n {
            k
        } else {
            n
        };
        let mut r: Vec<Vec<char>> = Vec::new();
        let mut i: usize = 0;
        while i < count
            invariant
                i <= count,
                n == self.lines@.len(),
                count <= n,
                count == vstd::math::min(k as int, self.lines@.len() as int),
                r@.len() == i as int,
                forall|j: int| 0 <= j < i ==> r@[j]@ == self.lines@[n - 1 - j]@,
            decreases count - i,
        {
            let line = copy_line(&self.lines[n - 1 - i]);
            r.push(line);
            i = i + 1;
        }
        proof {
            assert forall|j: int|
                0 <= j < count implies r.deep_view()[j] == spec_snapshot_recent(
                self@,
                k as int,
            )[j] by {
                assert(r.deep_view()[j] =~= r@[j]@);
                assert(self@[n - 1 - j] =~= self.lines@[n - 1 - j]@);
            }
            assert(r.deep_view() =~= spec_snapshot_recent(self@, k as int));
        }
        r
    }
}

/// Snapshots are idempotent: two snapshots of the same store contents with
/// the same bound are the same sequence of lines.
pub proof fn lemma_snapshot_recent_idempotent(
    s: Seq<Seq<char>>,
    k: int,
    r1: Seq<Seq<char>>,
    r2: Seq<Seq<char>>,
)
    requires
        r1 == spec_snapshot_recent(s, k),
        r2 == spec_snapshot_recent(s, k),
    ensures
        r1 == r2,
{
}

/// A snapshot returns exactly the last `min(k, n)` stored lines in
/// newest-first order: element `i` of the snapshot is stored line
/// `n - 1 - i`.
pub proof fn lemma_snapshot_recent_newest_first(s: Seq<Seq<char>>, k: int)
    requires
        k >= 0,
    ensures
        spec_snapshot_recent(s, k).len() == vstd::math::min(k, s.len() as int),
        forall|i: int|
            0 <= i < spec_snapshot_recent(s, k).len() ==> spec_snapshot_recent(s, k)[i] == s[s.len()
                - 1 - i],
{
}

} // verus!

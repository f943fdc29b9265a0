//! The pattern builder and matcher. The live query is matched as a literal
//! contiguous substring, case-sensitive: every character of the query is
//! data, never a metacharacter. The pattern is rebuilt from the query on
//! every change, and a match exposes the first occurrence on a line as the
//! three spans {prefix, match, suffix}.

use vstd::prelude::*;

verus! {

/// `q` occurs in `line` starting at position `i`.
pub open spec fn is_match_at(line: Seq<char>, q: Seq<char>, i: int) -> bool {
    &&& 0 <= i
    &&& i + q.len() <= line.len()
    &&& line.subrange(i, i + q.len() as int) == q
}

/// `line` contains `q` as a literal contiguous substring.
pub open spec fn has_match(line: Seq<char>, q: Seq<char>) -> bool {
    exists|i: int| is_match_at(line, q, i)
}

/// `i` is the first occurrence of `q` in `line`.
pub open spec fn is_first_match(line: Seq<char>, q: Seq<char>, i: int) -> bool {
    &&& is_match_at(line, q, i)
    &&& forall|j: int| 0 <= j < i ==> !is_match_at(line, q, j)
}

/// A match pattern derived from the live query. Rebuilt whole on every
/// query change; holds the query characters as literal data.
pub struct Pattern {
    pub chars: Vec<char>,
}

impl Pattern {
    /// Build the pattern for a query. The pattern is exactly the query
    /// text, kept literally.
    pub fn build(query: &Vec<char>) -> (p: Pattern)
        ensures
            p.chars@ == query@,
    {
        let mut chars: Vec<char> = Vec::new();
        let mut i: usize = 0;
        while i < query.len()
            invariant
                i <= query.len(),
                chars@ == query@.take(i as int),
            decreases query.len() - i,
        {
            chars.push(query[i]);
            i = i + 1;
        }
        assert(chars@ =~= query@);
        Pattern { chars }
    }

    /// Whether `q` occurs in `line` starting exactly at `i`.
    fn match_at(&self, line: &Vec<char>, i: usize) -> (r: bool)
        requires
            i + self.chars@.len() <= line@.len(),
        ensures
            r == is_match_at(line@, self.chars@, i as int),
    {
        let q = &self.chars;
        let n = line.len();
        let mut j: usize = 0;
        while j < q.len()
            invariant
                j <= q@.len(),
                n == line@.len(),
                i + q@.len() <= n,
                q@ == self.chars@,
                forall|t: int| 0 <= t < j ==> line@[i + t] == q@[t],
            decreases q@.len() - j,
        {
            if line[i + j] != q[j] {
                proof {
                    assert(line@.subrange(i as int, i + q@.len() as int)[j as int] != q@[j as int]);
                }
                return false;
            }
            j = j + 1;
        }
        proof {
            assert(line@.subrange(i as int, i + q@.len() as int) =~= q@);
        }
        true
    }

    /// Find the first occurrence of the query in `line`: `Some(i)` exactly
    /// when the line contains the query as a literal substring, with `i`
    /// its earliest starting position. The empty query matches every line
    /// at position 0.
    pub fn first_match(&self, line: &Vec<char>) -> (r: Option<usize>)
        ensures
            match r {
                Some(i) => is_first_match(line@, self.chars@, i as int),
                None => !has_match(line@, self.chars@),
            },
            r is Some <==> has_match(line@, self.chars@),
    {
        let q_len = self.chars.len();
        if q_len > line.len() {
            proof {
                assert forall|i: int| !is_match_at(line@, self.chars@, i) by {}
            }
            return None;
        }
        let last = line.len() - q_len;
        let mut i: usize = 0;
        while i <= last
            invariant
                q_len == self.chars@.len(),
                q_len <= line@.len(),
                last == line@.len() - q_len,
                i <= last + 1,
                forall|j: int| 0 <= j < i ==> !is_match_at(line@, self.chars@, j),
            decreases last - i + 1,
        {
            if self.match_at(line, i) {
                return Some(i);
            }
            if i == last {
                proof {
                    lemma_no_match_up_to(line@, self.chars@, i + 1);
                }
                return None;
            }
            i = i + 1;
        }
        proof {
            lemma_no_match_up_to(line@, self.chars@, i as int);
        }
        None
    }
}

/// If no position up to and including the last feasible one starts a
/// match, the line has no match at all.
proof fn lemma_no_match_up_to(line: Seq<char>, q: Seq<char>, bound: int)
    requires
        q.len() <= line.len(),
        bound > line.len() - q.len(),
        forall|j: int| 0 <= j < bound ==> !is_match_at(line, q, j),
    ensures
        !has_match(line, q),
{
    assert forall|j: int| !is_match_at(line, q, j) by {
        if 0 <= j && j + q.len() <= line.len() {
            assert(j < bound);
        }
    }
}

/// The empty query matches every line, with a zero-length match span at
/// position 0.
pub proof fn lemma_empty_query_matches(line: Seq<char>, q: Seq<char>)
    requires
        q.len() == 0,
    ensures
        is_first_match(line, q, 0),
        has_match(line, q),
{
    assert(line.subrange(0, 0) =~= q);
    assert(is_match_at(line, q, 0));
}

/// A line has at most one first match: its position is determined by the
/// line and the query.
pub proof fn lemma_first_match_unique(line: Seq<char>, q: Seq<char>, i1: int, i2: int)
    requires
        is_first_match(line, q, i1),
        is_first_match(line, q, i2),
    ensures
        i1 == i2,
{
    if i1 < i2 {
        assert(!is_match_at(line, q, i1));
    }
    if i2 < i1 {
        assert(!is_match_at(line, q, i2));
    }
}

/// Matching is exactly literal containment: a first match at `i` means the
/// line splits into a prefix of length `i`, the query itself, and the
/// remainder — no character of the query is interpreted.
pub proof fn lemma_match_is_literal_substring(line: Seq<char>, q: Seq<char>, i: int)
    requires
        is_first_match(line, q, i),
    ensures
        line =~= line.subrange(0, i) + q + line.subrange(i + q.len() as int, line.len() as int),
{
    assert(line.subrange(i, i + q.len() as int) == q);
}

} // verus!

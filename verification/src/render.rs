//! The viewport renderer: computes, for one redraw, the full frame — the
//! most recent lines placed newest-at-bottom over the content rows, each
//! with at most its first match split out for highlighting, and a footer
//! line composed of the query, padding, and the right-aligned mode label.

use crate::lines;
use crate::lines::LineStore;
use crate::pattern;
use crate::pattern::Pattern;
use crate::state::Mode;
use vstd::prelude::*;

verus! {

/// The label shown for a mode in the footer.
pub open spec fn mode_label(m: Mode) -> Seq<char> {
    match m {
        Mode::Normal => seq!['N', 'o', 'r', 'm', 'a', 'l'],
        Mode::Search => seq!['S', 'e', 'a', 'r', 'c', 'h'],
    }
}

/// `n` spaces (none if `n` is negative).
pub open spec fn spec_spaces(n: int) -> Seq<char> {
    Seq::new(vstd::math::max(n, 0) as nat, |i: int| ' ')
}

/// The footer line: query text left-aligned, mode label right-aligned,
/// space-padded to exactly `width` columns. When query and label together
/// already reach `width`, the padding clamps to zero instead of
/// underflowing.
pub open spec fn spec_footer(q: Seq<char>, m: Mode, width: int) -> Seq<char> {
    q + spec_spaces(width - q.len() - mode_label(m).len()) + mode_label(m)
}

/// The label characters for a mode.
pub fn mode_label_chars(m: Mode) -> (r: Vec<char>)
    ensures
        r@ == mode_label(m),
{
    let mut r: Vec<char> = Vec::new();
    match m {
        Mode::Normal => {
            r.push('N');
            r.push('o');
            r.push('r');
            r.push('m');
            r.push('a');
            r.push('l');
        },
        Mode::Search => {
            r.push('S');
            r.push('e');
            r.push('a');
            r.push('r');
            r.push('c');
            r.push('h');
        },
    }
    assert(r@ =~= mode_label(m));
    r
}

/// Compose the footer for a query and mode at a terminal width.
pub fn compose_footer(query: &Vec<char>, mode: Mode, width: usize) -> (r: Vec<char>)
    ensures
        r@ == spec_footer(query@, mode, width as int),
{
    let label = mode_label_chars(mode);
    let mut r = lines::copy_line(query);
    let pad: usize = if width >= query.len() && width - query.len() >= label.len() {
        width - query.len() - label.len()
    } else {
        0
    };
    let mut i: usize = 0;
    while i < pad
        invariant
            i <= pad,
            r@ == query@ + spec_spaces(pad as int).take(i as int),
        decreases pad - i,
    {
        r.push(' ');
        assert(r@ =~= query@ + spec_spaces(pad as int).take(i + 1));
        i = i + 1;
    }
    assert(r@ =~= query@ + spec_spaces(pad as int));
    let mut j: usize = 0;
    while j < label.len()
        invariant
            j <= label@.len(),
            label@ == mode_label(mode),
            r@ == query@ + spec_spaces(pad as int) + label@.take(j as int),
        decreases label@.len() - j,
    {
        r.push(label[j]);
        assert(r@ =~= query@ + spec_spaces(pad as int) + label@.take(j + 1));
        j = j + 1;
    }
    assert(r@ =~= query@ + spec_spaces(pad as int) + label@);
    proof {
        assert(spec_spaces(pad as int) =~= spec_spaces(
            width - query@.len() - mode_label(mode).len(),
        ));
    }
    r
}

/// Whenever query and mode label together fit in the width, the composed
/// footer is exactly `width` columns wide (the padding never underflows).
pub proof fn lemma_footer_exact_width(q: Seq<char>, m: Mode, width: int)
    requires
        q.len() + mode_label(m).len() <= width,
    ensures
        spec_footer(q, m, width).len() == width,
{
}

/// One rendered content row: a line split around its highlighted first
/// match. An unmatched line sits whole in `prefix` with nothing
/// highlighted.
pub struct Row {
    /// 1-based terminal row this line is placed on.
    pub term_row: usize,
    pub prefix: Vec<char>,
    pub hit: Vec<char>,
    pub suffix: Vec<char>,
    pub highlighted: bool,
}

/// One complete redraw: the content rows (index 0 is the newest line, at
/// the bottom content row) and the footer.
pub struct Frame {
    pub rows: Vec<Row>,
    pub footer: Vec<char>,
}

/// How one rendered row must relate to the stored line it shows: placed at
/// terminal row `height - 1 - i`, split at the first match of `q` when one
/// exists, shown whole and unstyled otherwise.
pub open spec fn row_ok(row: Row, line: Seq<char>, q: Seq<char>, height: int, i: int) -> bool {
    &&& row.term_row == height - 1 - i
    &&& row.prefix@ + row.hit@ + row.suffix@ == line
    &&& row.highlighted == pattern::has_match(line, q)
    &&& (row.highlighted ==> pattern::is_first_match(line, q, row.prefix@.len() as int)
        && row.hit@ == q)
    &&& (!row.highlighted ==> row.prefix@ == line && row.hit@.len() == 0 && row.suffix@.len() == 0)
}

/// How a whole frame must relate to the store, query and mode it was
/// rendered from: one row per visible line — the last `height - 1` stored
/// lines, newest first — and the footer composed at `width`.
pub open spec fn frame_ok(
    f: Frame,
    stored: Seq<Seq<char>>,
    q: Seq<char>,
    m: Mode,
    width: int,
    height: int,
) -> bool {
    &&& f.rows@.len() == vstd::math::min(height - 1, stored.len() as int)
    &&& (forall|i: int|
        0 <= i < f.rows@.len() ==> row_ok(
            #[trigger] f.rows@[i],
            lines::spec_snapshot_recent(stored, height - 1)[i],
            q,
            height,
            i,
        ))
    &&& f.footer@ == spec_footer(q, m, width)
}

/// Two rows agree in everything a frame writer reads of them.
pub open spec fn rows_agree(r1: Row, r2: Row) -> bool {
    &&& r1.term_row == r2.term_row
    &&& r1.highlighted == r2.highlighted
    &&& r1.prefix@ == r2.prefix@
    &&& r1.hit@ == r2.hit@
    &&& r1.suffix@ == r2.suffix@
}

/// `row_ok` pins a row completely: two rows showing the same line under
/// the same query at the same place agree in every part.
proof fn lemma_row_determined(r1: Row, r2: Row, line: Seq<char>, q: Seq<char>, height: int, i: int)
    requires
        row_ok(r1, line, q, height, i),
        row_ok(r2, line, q, height, i),
    ensures
        rows_agree(r1, r2),
{
    if r1.highlighted {
        pattern::lemma_first_match_unique(
            line,
            q,
            r1.prefix@.len() as int,
            r2.prefix@.len() as int,
        );
        assert(r1.prefix@ =~= r2.prefix@) by {
            assert forall|j: int| 0 <= j < r1.prefix@.len() implies r1.prefix@[j] == r2.prefix@[j] by {
                assert((r1.prefix@ + r1.hit@ + r1.suffix@)[j] == r1.prefix@[j]);
                assert((r2.prefix@ + r2.hit@ + r2.suffix@)[j] == r2.prefix@[j]);
            }
        }
        assert(r1.suffix@ =~= r2.suffix@) by {
            let base = r1.prefix@.len() + r1.hit@.len();
            assert(r1.suffix@.len() == line.len() - base);
            assert(r2.suffix@.len() == line.len() - base);
            assert forall|j: int| 0 <= j < r1.suffix@.len() implies r1.suffix@[j] == r2.suffix@[j] by {
                assert((r1.prefix@ + r1.hit@ + r1.suffix@)[base + j] == r1.suffix@[j]);
                assert((r2.prefix@ + r2.hit@ + r2.suffix@)[base + j] == r2.suffix@[j]);
            }
        }
    } else {
        assert(r1.hit@ =~= r2.hit@);
        assert(r1.suffix@ =~= r2.suffix@);
    }
}

/// Redrawing is deterministic: with no intervening append and no key
/// processed, two frames computed from the same store, query, mode and
/// terminal size agree row for row and in the footer — a later redraw of
/// an unchanged state rewrites exactly the same screen.
pub proof fn lemma_render_deterministic(
    f1: Frame,
    f2: Frame,
    stored: Seq<Seq<char>>,
    q: Seq<char>,
    m: Mode,
    width: int,
    height: int,
)
    requires
        height >= 1,
        frame_ok(f1, stored, q, m, width, height),
        frame_ok(f2, stored, q, m, width, height),
    ensures
        f1.rows@.len() == f2.rows@.len(),
        forall|i: int| 0 <= i < f1.rows@.len() ==> rows_agree(#[trigger] f1.rows@[i], f2.rows@[i]),
        f1.footer@ == f2.footer@,
{
    assert forall|i: int| 0 <= i < f1.rows@.len() implies rows_agree(
        #[trigger] f1.rows@[i],
        f2.rows@[i],
    ) by {
        lemma_row_determined(
            f1.rows@[i],
            f2.rows@[i],
            lines::spec_snapshot_recent(stored, height - 1)[i],
            q,
            height,
            i,
        );
    }
}

/// Render one frame: take up to `height - 1` most recent lines (the last
/// terminal row is reserved for the footer), place them newest-at-bottom,
/// split each at its first match of the pattern, and compose the footer.
pub fn render(store: &LineStore, pat: &Pattern, mode: Mode, width: usize, height: usize) -> (f:
    Frame)
    requires
        height >= 1,
    ensures
        frame_ok(f, store@, pat.chars@, mode, width as int, height as int),
{
    let visible = height - 1;
    let window = store.snapshot_recent(visible);
    proof {
        assert(window.deep_view().len() == window@.len());
        assert(window@.len() <= visible as int);
    }
    let mut rows: Vec<Row> = Vec::new();
    let mut i: usize = 0;
    while i < window.len()
        invariant
            i <= window@.len(),
            window.deep_view() == lines::spec_snapshot_recent(store@, visible as int),
            window@.len() <= visible < height,
            rows@.len() == i as int,
            forall|j: int|
                0 <= j < i ==> row_ok(
                    #[trigger] rows@[j],
                    window.deep_view()[j],
                    pat.chars@,
                    height as int,
                    j,
                ),
        decreases window@.len() - i,
    {
        let line = &window[i];
        let term_row = height - 1 - i;
        let row = match pat.first_match(line) {
            Some(m) => {
                let q_len = pat.chars.len();
                let n = line.len();
                let prefix = lines::copy_range(line, 0, m);
                let hit = lines::copy_range(line, m, m + q_len);
                let suffix = lines::copy_range(line, m + q_len, n);
                proof {
                    assert(prefix@ + hit@ + suffix@ =~= line@);
                }
                Row { term_row, prefix, hit, suffix, highlighted: true }
            },
            None => {
                let prefix = lines::copy_line(line);
                Row { term_row, prefix, hit: Vec::new(), suffix: Vec::new(), highlighted: false }
            },
        };
        proof {
            assert(window.deep_view()[i as int] =~= line@);
        }
        rows.push(row);
        i = i + 1;
    }
    let footer = compose_footer(&pat.chars, mode, width);
    proof {
        assert(lines::spec_snapshot_recent(store@, visible as int).len() == vstd::math::min(
            height - 1,
            store@.len() as int,
        ));
    }
    Frame { rows, footer }
}

/// The live-search scenario, proved of every conforming frame: with
/// stored lines "alpha", "beta", "gamma" and query "be" in Search mode,
/// any frame with at least three content rows shows all three lines —
/// "beta" split into an empty prefix, the highlighted span "be" and the
/// suffix "ta"; "alpha" and "gamma" whole and unhighlighted, but still
/// shown: the query highlights, it does not hide.
pub proof fn lemma_highlight_scenario(f: Frame, width: int, height: int)
    requires
        height >= 4,
        frame_ok(
            f,
            seq![
                seq!['a', 'l', 'p', 'h', 'a'],
                seq!['b', 'e', 't', 'a'],
                seq!['g', 'a', 'm', 'm', 'a'],
            ],
            seq!['b', 'e'],
            Mode::Search,
            width,
            height,
        ),
    ensures
        f.rows@.len() == 3,
        !f.rows@[0].highlighted,
        f.rows@[0].prefix@ == seq!['g', 'a', 'm', 'm', 'a'],
        f.rows@[1].highlighted,
        f.rows@[1].prefix@ == Seq::<char>::empty(),
        f.rows@[1].hit@ == seq!['b', 'e'],
        f.rows@[1].suffix@ == seq!['t', 'a'],
        !f.rows@[2].highlighted,
        f.rows@[2].prefix@ == seq!['a', 'l', 'p', 'h', 'a'],
{
    let alpha = seq!['a', 'l', 'p', 'h', 'a'];
    let beta = seq!['b', 'e', 't', 'a'];
    let gamma = seq!['g', 'a', 'm', 'm', 'a'];
    let q = seq!['b', 'e'];
    let stored = seq![alpha, beta, gamma];
    let snap = lines::spec_snapshot_recent(stored, height - 1);
    assert(snap.len() == 3);
    assert(snap[0] == gamma);
    assert(snap[1] == beta);
    assert(snap[2] == alpha);

    // Neither "gamma" nor "alpha" holds a 'b', so neither contains the
    // query.
    assert(q[0] == 'b');
    assert(gamma[0] == 'g' && gamma[1] == 'a' && gamma[2] == 'm' && gamma[3] == 'm');
    assert forall|i: int| !pattern::is_match_at(gamma, q, i) by {
        if 0 <= i && i + 2 <= 5 {
            assert(gamma.subrange(i, i + 2)[0] == gamma[i]);
            assert(gamma[i] != 'b');
        }
    }
    assert(alpha[0] == 'a' && alpha[1] == 'l' && alpha[2] == 'p' && alpha[3] == 'h');
    assert forall|i: int| !pattern::is_match_at(alpha, q, i) by {
        if 0 <= i && i + 2 <= 5 {
            assert(alpha.subrange(i, i + 2)[0] == alpha[i]);
            assert(alpha[i] != 'b');
        }
    }
    assert(!f.rows@[0].highlighted);
    assert(f.rows@[0].prefix@ == gamma);
    assert(!f.rows@[2].highlighted);
    assert(f.rows@[2].prefix@ == alpha);

    // "beta" contains the query, first at position 0.
    assert(beta.subrange(0, 2) =~= q);
    assert(pattern::is_match_at(beta, q, 0));
    assert(pattern::is_first_match(beta, q, 0));
    let r1 = f.rows@[1];
    assert(r1.highlighted);
    pattern::lemma_first_match_unique(beta, q, r1.prefix@.len() as int, 0);
    assert(r1.prefix@ =~= Seq::<char>::empty());
    assert(r1.suffix@ =~= seq!['t', 'a']) by {
        assert(r1.suffix@.len() == 2);
        assert((r1.prefix@ + r1.hit@ + r1.suffix@)[2] == r1.suffix@[0]);
        assert((r1.prefix@ + r1.hit@ + r1.suffix@)[3] == r1.suffix@[1]);
        assert(beta[2] == 't' && beta[3] == 'a');
    }
}

} // verus!

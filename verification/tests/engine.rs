use tailview::app::App;
use tailview::lines::LineStore;
use tailview::pattern::Pattern;
use tailview::state::{Key, Mode, State};

fn chars(s: &str) -> Vec<char> {
    s.chars().collect()
}

fn text(v: &[char]) -> String {
    v.iter().collect()
}

fn row_text(row: &tailview::render::Row) -> String {
    let mut s = text(&row.prefix);
    s.push_str(&text(&row.hit));
    s.push_str(&text(&row.suffix));
    s
}

#[test]
fn slash_enters_search_mode() {
    let mut s = State::new();
    assert_eq!(s.mode, Mode::Normal);
    assert_eq!(s.query, Vec::<char>::new());
    s.process_key(Key::Char('/'));
    assert_eq!(s.mode, Mode::Search);
    assert_eq!(s.query, Vec::<char>::new());
}

#[test]
fn printable_chars_extend_query_in_search() {
    let mut s = State::new();
    s.process_key(Key::Char('/'));
    s.process_key(Key::Char('b'));
    s.process_key(Key::Char('e'));
    assert_eq!(s.mode, Mode::Search);
    assert_eq!(s.query, chars("be"));
}

#[test]
fn printable_chars_ignored_in_normal_mode() {
    let mut s = State::new();
    s.process_key(Key::Char('x'));
    assert_eq!(s.mode, Mode::Normal);
    assert_eq!(s.query, Vec::<char>::new());
}

#[test]
fn newline_is_a_no_op_in_search() {
    let mut s = State::new();
    s.process_key(Key::Char('/'));
    s.process_key(Key::Char('b'));
    s.process_key(Key::Char('\n'));
    assert_eq!(s.mode, Mode::Search);
    assert_eq!(s.query, chars("b"));
}

#[test]
fn backspace_pops_and_does_not_underflow() {
    let mut s = State::new();
    s.process_key(Key::Char('/'));
    s.process_key(Key::Char('b'));
    s.process_key(Key::Char('e'));
    s.process_key(Key::Backspace);
    assert_eq!(s.query, chars("b"));
    s.process_key(Key::Backspace);
    assert_eq!(s.query, Vec::<char>::new());
    s.process_key(Key::Backspace);
    assert_eq!(s.mode, Mode::Search);
    assert_eq!(s.query, Vec::<char>::new());
}

#[test]
fn escape_leaves_search_and_clears_query() {
    let mut s = State::new();
    s.process_key(Key::Char('/'));
    s.process_key(Key::Char('b'));
    s.process_key(Key::Char('e'));
    s.process_key(Key::Esc);
    assert_eq!(s.mode, Mode::Normal);
    assert_eq!(s.query, Vec::<char>::new());
}

#[test]
fn unspecified_keys_leave_state_unchanged() {
    let mut s = State::new();
    s.process_key(Key::Backspace);
    s.process_key(Key::Esc);
    s.process_key(Key::Other);
    s.process_key(Key::Ctrl('c'));
    assert_eq!(s.mode, Mode::Normal);
    assert_eq!(s.query, Vec::<char>::new());
    s.process_key(Key::Char('/'));
    s.process_key(Key::Char('q'));
    s.process_key(Key::Other);
    s.process_key(Key::Ctrl('c'));
    s.process_key(Key::Char('/'));
    assert_eq!(s.mode, Mode::Search);
    assert_eq!(s.query, chars("q/"));
}

#[test]
fn interrupt_key_stops_the_key_pump_in_any_state() {
    let mut app = App::new();
    assert!(app.on_key(Key::Ctrl('c')));
    assert!(!app.on_key(Key::Char('/')));
    assert!(!app.on_key(Key::Char('b')));
    assert!(app.on_key(Key::Ctrl('c')));
    assert_eq!(app.state.mode, Mode::Search);
    assert_eq!(app.state.query, chars("b"));
    assert!(!app.on_key(Key::Esc));
    assert!(app.on_key(Key::Ctrl('c')));
    assert!(!app.on_key(Key::Ctrl('d')));
}

#[test]
fn snapshot_returns_last_k_newest_first() {
    let mut store = LineStore::new();
    for s in ["one", "two", "three", "four"] {
        store.append(chars(s));
    }
    let snap = store.snapshot_recent(2);
    assert_eq!(snap, vec![chars("four"), chars("three")]);
    let all = store.snapshot_recent(4);
    assert_eq!(all, vec![chars("four"), chars("three"), chars("two"), chars("one")]);
    let over = store.snapshot_recent(10);
    assert_eq!(over, vec![chars("four"), chars("three"), chars("two"), chars("one")]);
    let none = store.snapshot_recent(0);
    assert_eq!(none, Vec::<Vec<char>>::new());
}

#[test]
fn snapshot_is_idempotent_without_intervening_append() {
    let mut store = LineStore::new();
    store.append(chars("alpha"));
    store.append(chars("beta"));
    let a = store.snapshot_recent(5);
    let b = store.snapshot_recent(5);
    assert_eq!(a, b);
    store.append(chars("gamma"));
    let c = store.snapshot_recent(5);
    assert_eq!(c[0], chars("gamma"));
}

#[test]
fn snapshot_of_empty_store_is_empty() {
    let store = LineStore::new();
    assert_eq!(store.snapshot_recent(3), Vec::<Vec<char>>::new());
}

#[test]
fn pattern_matches_literal_substring() {
    let p = Pattern::build(&chars("be"));
    assert_eq!(p.first_match(&chars("beta")), Some(0));
    assert_eq!(p.first_match(&chars("a better bet")), Some(2));
    assert_eq!(p.first_match(&chars("alpha")), None);
    assert_eq!(p.first_match(&chars("b e")), None);
    assert_eq!(p.first_match(&chars("")), None);
}

#[test]
fn pattern_metacharacters_are_literal_data() {
    let p = Pattern::build(&chars(".*"));
    assert_eq!(p.first_match(&chars("anything")), None);
    assert_eq!(p.first_match(&chars("a.*b")), Some(1));
    let q = Pattern::build(&chars("(x)"));
    assert_eq!(q.first_match(&chars("xxx")), None);
    assert_eq!(q.first_match(&chars("f(x) = y")), Some(1));
    let dot = Pattern::build(&chars("."));
    assert_eq!(dot.first_match(&chars("abc")), None);
    assert_eq!(dot.first_match(&chars("a.c")), Some(1));
}

#[test]
fn empty_query_matches_every_line_at_zero() {
    let p = Pattern::build(&chars(""));
    assert_eq!(p.first_match(&chars("alpha")), Some(0));
    assert_eq!(p.first_match(&chars("")), Some(0));
}

#[test]
fn first_match_picks_earliest_occurrence() {
    let p = Pattern::build(&chars("ab"));
    assert_eq!(p.first_match(&chars("xababab")), Some(1));
}

#[test]
fn footer_is_exactly_terminal_width() {
    let app = App::new();
    let f = app.footer(20);
    assert_eq!(f.len(), 20);
    assert_eq!(text(&f), format!("{}Normal", " ".repeat(14)));
}

#[test]
fn footer_shows_query_left_and_mode_right() {
    let mut app = App::new();
    app.on_key(Key::Char('/'));
    app.on_key(Key::Char('b'));
    app.on_key(Key::Char('e'));
    let f = app.footer(16);
    assert_eq!(f.len(), 16);
    assert_eq!(text(&f), format!("be{}Search", " ".repeat(8)));
}

#[test]
fn footer_clamps_padding_instead_of_underflowing() {
    let mut app = App::new();
    app.on_key(Key::Char('/'));
    for c in "longquery".chars() {
        app.on_key(Key::Char(c));
    }
    let f = app.footer(4);
    assert_eq!(text(&f), "longquerySearch");
    let g = app.footer(15);
    assert_eq!(text(&g), "longquerySearch");
    assert_eq!(g.len(), 15);
}

#[test]
fn frame_places_three_lines_newest_at_bottom() {
    let mut app = App::new();
    app.on_line(chars("alpha"));
    app.on_line(chars("beta"));
    app.on_line(chars("gamma"));
    let frame = app.render_frame(40, 4);
    assert_eq!(frame.rows.len(), 3);
    assert_eq!(frame.rows[0].term_row, 3);
    assert_eq!(row_text(&frame.rows[0]), "gamma");
    assert_eq!(frame.rows[1].term_row, 2);
    assert_eq!(row_text(&frame.rows[1]), "beta");
    assert_eq!(frame.rows[2].term_row, 1);
    assert_eq!(row_text(&frame.rows[2]), "alpha");
    assert_eq!(frame.footer.len(), 40);
}

#[test]
fn frame_shows_only_the_most_recent_window() {
    let mut app = App::new();
    for s in ["one", "two", "three", "four", "five"] {
        app.on_line(chars(s));
    }
    let frame = app.render_frame(40, 3);
    assert_eq!(frame.rows.len(), 2);
    assert_eq!(row_text(&frame.rows[0]), "five");
    assert_eq!(frame.rows[0].term_row, 2);
    assert_eq!(row_text(&frame.rows[1]), "four");
    assert_eq!(frame.rows[1].term_row, 1);
}

#[test]
fn frame_highlights_first_match_spans() {
    let mut app = App::new();
    app.on_line(chars("alpha"));
    app.on_line(chars("beta"));
    app.on_line(chars("gamma"));
    app.on_key(Key::Char('/'));
    app.on_key(Key::Char('b'));
    app.on_key(Key::Char('e'));
    let frame = app.render_frame(30, 4);
    assert_eq!(frame.rows.len(), 3);

    let gamma = &frame.rows[0];
    assert!(!gamma.highlighted);
    assert_eq!(text(&gamma.prefix), "gamma");
    assert!(gamma.hit.is_empty() && gamma.suffix.is_empty());

    let beta = &frame.rows[1];
    assert!(beta.highlighted);
    assert_eq!(text(&beta.prefix), "");
    assert_eq!(text(&beta.hit), "be");
    assert_eq!(text(&beta.suffix), "ta");

    let alpha = &frame.rows[2];
    assert!(!alpha.highlighted);
    assert_eq!(text(&alpha.prefix), "alpha");

    assert_eq!(text(&frame.footer), format!("be{}Search", " ".repeat(22)));
}

#[test]
fn empty_query_frame_highlights_zero_width_span_at_zero() {
    let mut app = App::new();
    app.on_line(chars("alpha"));
    let frame = app.render_frame(20, 2);
    assert_eq!(frame.rows.len(), 1);
    let row = &frame.rows[0];
    assert!(row.highlighted);
    assert_eq!(text(&row.prefix), "");
    assert_eq!(text(&row.hit), "");
    assert_eq!(text(&row.suffix), "alpha");
}

#[test]
fn one_row_terminal_leaves_no_content_rows() {
    let mut app = App::new();
    app.on_line(chars("alpha"));
    let frame = app.render_frame(12, 1);
    assert!(frame.rows.is_empty());
    assert_eq!(frame.footer.len(), 12);
}

#[test]
fn zero_width_footer_still_composes_without_underflow() {
    let app = App::new();
    let f = app.footer(0);
    assert_eq!(text(&f), "Normal");
}

#[test]
fn on_line_leaves_interaction_state_alone() {
    let mut app = App::new();
    app.on_key(Key::Char('/'));
    app.on_key(Key::Char('q'));
    app.on_line(chars("line"));
    assert_eq!(app.state.mode, Mode::Search);
    assert_eq!(app.state.query, chars("q"));
    assert_eq!(app.raw_buffer.lines, vec![chars("line")]);
}

use moterm::search::SearchState;
use moterm::terminal::Terminal;

fn type_query(s: &mut SearchState, q: &str) {
    for ch in q.chars() {
        s.push_char(ch);
    }
}

#[test]
fn search_finds_three_occurrences_and_cycles() {
    let mut t = Terminal::new(20, 3);
    t.place_str("err here");
    t.move_cursor(1, 0);
    t.place_str("clean line");
    t.move_cursor(2, 0);
    t.place_str("err and err");
    let mut s = SearchState::new();
    type_query(&mut s, "err");
    s.search(&t);
    assert_eq!(s.matches.len(), 3);
    assert_eq!((s.matches[0].global_row, s.matches[0].col_start, s.matches[0].col_end), (0, 0, 3));
    assert_eq!((s.matches[1].global_row, s.matches[1].col_start), (2, 0));
    assert_eq!((s.matches[2].global_row, s.matches[2].col_start), (2, 8));
    assert_eq!(s.current, 0);
    s.next_match();
    assert_eq!(s.current, 1);
    s.next_match();
    assert_eq!(s.current, 2);
    s.next_match();
    assert_eq!(s.current, 0);
    s.prev_match();
    assert_eq!(s.current, 2);
    s.prev_match();
    assert_eq!(s.current, 1);
}

#[test]
fn search_covers_scrollback_rows() {
    let mut t = Terminal::new(20, 1);
    t.place_str("needle one");
    t.line_feed();
    t.carriage_return();
    t.place_str("needle two");
    assert_eq!(t.scrollback.len(), 1);
    let mut s = SearchState::new();
    type_query(&mut s, "needle");
    s.search(&t);
    assert_eq!(s.matches.len(), 2);
    assert_eq!(s.matches[0].global_row, 0);
    assert_eq!(s.matches[1].global_row, 1);
}

#[test]
fn search_is_case_insensitive() {
    let mut t = Terminal::new(20, 1);
    t.place_str("WaRnInG");
    let mut s = SearchState::new();
    type_query(&mut s, "warning");
    s.search(&t);
    assert_eq!(s.matches.len(), 1);
    let mut s2 = SearchState::new();
    type_query(&mut s2, "WARNING");
    s2.search(&t);
    assert_eq!(s2.matches.len(), 1);
}

#[test]
fn search_finds_overlapping_starts() {
    let mut t = Terminal::new(10, 1);
    t.place_str("aaaa");
    let mut s = SearchState::new();
    type_query(&mut s, "aa");
    s.search(&t);
    assert_eq!(s.matches.len(), 3);
    assert_eq!(s.matches[0].col_start, 0);
    assert_eq!(s.matches[1].col_start, 1);
    assert_eq!(s.matches[2].col_start, 2);
}

#[test]
fn search_never_matches_wide_placeholder() {
    let mut t = Terminal::new(10, 1);
    t.place_str("a你 b");
    // Cells: a(0) 你(1) placeholder(2) space(3) b(4) blanks(5..10).
    let mut s = SearchState::new();
    type_query(&mut s, "你");
    s.search(&t);
    assert_eq!(s.matches.len(), 1);
    assert_eq!(s.matches[0].col_start, 1);
    // The placeholder cell shows a space but must never match one.
    let mut s2 = SearchState::new();
    type_query(&mut s2, " ");
    s2.search(&t);
    assert_eq!(s2.matches.len(), 6);
    assert!(s2.matches.iter().all(|m| m.col_start != 2));
}

#[test]
fn empty_query_clears_matches() {
    let mut t = Terminal::new(10, 1);
    t.place_str("abc");
    let mut s = SearchState::new();
    type_query(&mut s, "b");
    s.search(&t);
    assert_eq!(s.matches.len(), 1);
    s.pop_char();
    s.search(&t);
    assert_eq!(s.matches.len(), 0);
}

#[test]
fn current_clamps_when_matches_shrink() {
    let mut t = Terminal::new(8, 1);
    t.place_str("ab ab ab");
    let mut s = SearchState::new();
    type_query(&mut s, "ab");
    s.search(&t);
    assert_eq!(s.matches.len(), 3);
    s.next_match();
    s.next_match();
    assert_eq!(s.current, 2);
    s.push_char(' ');
    s.search(&t);
    assert_eq!(s.matches.len(), 2);
    assert_eq!(s.current, 1);
}

#[test]
fn toggle_and_close_reset_state() {
    let mut s = SearchState::new();
    assert!(!s.active);
    s.toggle();
    assert!(s.active);
    s.push_char('x');
    s.toggle();
    assert!(!s.active);
    assert!(s.query.is_empty());
    s.toggle();
    s.push_char('y');
    s.close();
    assert!(!s.active);
    assert!(s.query.is_empty());
    assert_eq!(s.current, 0);
}

#[test]
fn highlight_queries() {
    let mut t = Terminal::new(10, 1);
    t.place_str("xy xy");
    let mut s = SearchState::new();
    type_query(&mut s, "xy");
    s.search(&t);
    assert!(s.is_highlighted(0, 0));
    assert!(s.is_highlighted(0, 1));
    assert!(!s.is_highlighted(0, 2));
    assert!(s.is_highlighted(0, 3));
    assert!(s.is_current_highlight(0, 0));
    assert!(!s.is_current_highlight(0, 3));
    s.next_match();
    assert!(s.is_current_highlight(0, 3));
    let m = s.current_match().unwrap();
    assert_eq!((m.global_row, m.col_start, m.col_end), (0, 3, 5));
}

#[test]
fn no_matches_keeps_current_at_zero() {
    let mut t = Terminal::new(10, 1);
    t.place_str("abc");
    let mut s = SearchState::new();
    type_query(&mut s, "zz");
    s.search(&t);
    assert_eq!(s.matches.len(), 0);
    assert_eq!(s.current, 0);
    s.next_match();
    s.prev_match();
    assert_eq!(s.current, 0);
    assert!(s.current_match().is_none());
}

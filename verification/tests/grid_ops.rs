use moterm::color::ColorSpec;
use moterm::terminal::Pos;
use moterm::terminal::Terminal;

fn row_text(t: &Terminal, screen_row: usize) -> String {
    t.screen[screen_row].cells.iter().map(|c| c.ch).collect::<String>().trim_end().to_string()
}

#[test]
fn new_terminal_is_blank() {
    let t = Terminal::new(80, 24);
    assert_eq!(t.cols(), 80);
    assert_eq!(t.rows(), 24);
    assert_eq!(t.screen.len(), 24);
    for r in 0..24 {
        assert_eq!(t.screen[r].cells.len(), 80);
        for c in 0..80 {
            assert_eq!(t.screen[r].cells[c].ch, ' ');
            assert!(!t.screen[r].cells[c].wide_cont);
        }
    }
    assert_eq!(t.scrollback.len(), 0);
    assert_eq!((t.cursor_row, t.cursor_col), (0, 0));
}

#[test]
fn zero_size_is_raised_to_one() {
    let t = Terminal::new(0, 0);
    assert_eq!(t.cols(), 1);
    assert_eq!(t.rows(), 1);
}

#[test]
fn put_char_places_and_advances() {
    let mut t = Terminal::new(80, 24);
    t.put_char('A');
    assert_eq!(t.screen[0].cells[0].ch, 'A');
    assert_eq!(t.cursor_col, 1);
    assert_eq!(t.cursor_row, 0);
}

#[test]
fn put_char_ignores_nul_and_del() {
    let mut t = Terminal::new(80, 24);
    t.put_char('\0');
    t.put_char('\u{7f}');
    assert_eq!(t.cursor_col, 0);
    assert_eq!(t.screen[0].cells[0].ch, ' ');
}

#[test]
fn put_char_pending_wrap_at_last_column() {
    let mut t = Terminal::new(80, 24);
    for _ in 0..80 {
        t.put_char('x');
    }
    // The cursor sits in the pending-wrap state, not yet on the next row.
    assert_eq!(t.cursor_col, 80);
    assert_eq!(t.cursor_row, 0);
    t.put_char('y');
    assert_eq!(t.cursor_row, 1);
    assert_eq!(t.cursor_col, 1);
    assert_eq!(t.screen[1].cells[0].ch, 'y');
}

#[test]
fn wide_char_writes_continuation_cell() {
    let mut t = Terminal::new(80, 24);
    t.put_char('你');
    assert_eq!(t.screen[0].cells[0].ch, '你');
    assert!(!t.screen[0].cells[0].wide_cont);
    assert_eq!(t.screen[0].cells[1].ch, ' ');
    assert!(t.screen[0].cells[1].wide_cont);
    assert_eq!(t.cursor_col, 2);
}

#[test]
fn wide_char_at_last_column_wraps_whole() {
    let mut t = Terminal::new(80, 24);
    for _ in 0..79 {
        t.put_char('x');
    }
    assert_eq!(t.cursor_col, 79);
    t.put_char('你');
    // No split: the glyph moved whole to the next row, the last column
    // of the first row stays blank.
    assert_eq!(t.screen[0].cells[78].ch, 'x');
    assert_eq!(t.screen[0].cells[79].ch, ' ');
    assert_eq!(t.screen[1].cells[0].ch, '你');
    assert!(t.screen[1].cells[1].wide_cont);
    assert_eq!(t.cursor_row, 1);
    assert_eq!(t.cursor_col, 2);
}

#[test]
fn control_motions() {
    let mut t = Terminal::new(80, 24);
    t.place_str("abcd");
    t.carriage_return();
    assert_eq!(t.cursor_col, 0);
    t.tab();
    assert_eq!(t.cursor_col, 8);
    t.tab();
    assert_eq!(t.cursor_col, 16);
    t.backspace();
    assert_eq!(t.cursor_col, 15);
    t.home_cursor();
    assert_eq!((t.cursor_row, t.cursor_col), (0, 0));
    t.backspace();
    assert_eq!(t.cursor_col, 0);
}

#[test]
fn line_feed_scrolls_at_bottom() {
    let mut t = Terminal::new(10, 2);
    t.place_str("one");
    t.line_feed();
    t.carriage_return();
    t.place_str("two");
    assert_eq!(t.scrollback.len(), 0);
    t.line_feed();
    assert_eq!(t.scrollback.len(), 1);
    let first: String = t.scrollback[0].cells.iter().map(|c| c.ch).collect();
    assert_eq!(first.trim_end(), "one");
    assert_eq!(row_text(&t, 0), "two");
}

#[test]
fn scrollback_caps_at_limit_and_evicts_oldest() {
    let mut t = Terminal::new(20, 1);
    for i in 1..=2001u32 {
        t.place_str(&format!("l{}", i));
        t.line_feed();
        t.carriage_return();
    }
    assert_eq!(t.scrollback.len(), 2000);
    let oldest: String = t.scrollback[0].cells.iter().map(|c| c.ch).collect();
    assert_eq!(oldest.trim_end(), "l2");
    let newest: String = t.scrollback[1999].cells.iter().map(|c| c.ch).collect();
    assert_eq!(newest.trim_end(), "l2001");
}

#[test]
fn view_scroll_clamps_to_history() {
    let mut t = Terminal::new(10, 2);
    for _ in 0..5 {
        t.line_feed();
        t.line_feed();
    }
    let hist = t.scrollback.len();
    assert!(hist > 0);
    t.set_view_scroll(1000);
    assert_eq!(t.view_scroll, hist);
    t.set_view_scroll(-1);
    assert_eq!(t.view_scroll, hist - 1);
    t.set_view_scroll(-1000);
    assert_eq!(t.view_scroll, 0);
    assert_eq!(t.max_view_scroll(), hist);
}

#[test]
fn view_scroll_follows_content_when_scrolled_back() {
    let mut t = Terminal::new(10, 1);
    t.line_feed();
    t.line_feed();
    t.set_view_scroll(2);
    assert_eq!(t.view_scroll, 2);
    t.line_feed();
    assert_eq!(t.view_scroll, 3);
    t.reset_view_scroll();
    assert_eq!(t.view_scroll, 0);
}

#[test]
fn erase_in_display_modes_leave_scrollback() {
    let mut t = Terminal::new(10, 2);
    t.place_str("ab");
    t.line_feed();
    t.line_feed();
    assert_eq!(t.scrollback.len(), 1);
    t.place_str("cd");
    t.erase_in_display(2);
    assert_eq!(t.scrollback.len(), 1);
    assert_eq!(row_text(&t, 0), "");
    assert_eq!(row_text(&t, 1), "");
}

#[test]
fn erase_in_display_mode_three_clears_history() {
    let mut t = Terminal::new(10, 2);
    t.place_str("ab");
    t.line_feed();
    t.line_feed();
    assert_eq!(t.scrollback.len(), 1);
    t.erase_in_display(3);
    assert_eq!(t.scrollback.len(), 0);
    assert_eq!(t.view_scroll, 0);
    assert_eq!(row_text(&t, 0), "");
}

#[test]
fn erase_in_display_mode_zero_erases_from_cursor() {
    let mut t = Terminal::new(6, 2);
    t.place_str("abcdef");
    t.next_line();
    t.place_str("ghijkl");
    t.move_cursor(0, 3);
    t.erase_in_display(0);
    assert_eq!(row_text(&t, 0), "abc");
    assert_eq!(row_text(&t, 1), "");
}

#[test]
fn erase_in_display_mode_one_erases_through_cursor() {
    let mut t = Terminal::new(6, 2);
    t.place_str("abcdef");
    t.next_line();
    t.place_str("ghijkl");
    t.move_cursor(1, 2);
    t.erase_in_display(1);
    assert_eq!(row_text(&t, 0), "");
    assert_eq!(row_text(&t, 1), "   jkl");
}

#[test]
fn erase_in_line_modes() {
    let mut t = Terminal::new(6, 1);
    t.place_str("abcdef");
    t.move_cursor(0, 2);
    t.erase_in_line(0);
    assert_eq!(row_text(&t, 0), "ab");
    let mut t = Terminal::new(6, 1);
    t.place_str("abcdef");
    t.move_cursor(0, 2);
    t.erase_in_line(1);
    assert_eq!(row_text(&t, 0), "   def");
    let mut t = Terminal::new(6, 1);
    t.place_str("abcdef");
    t.erase_in_line(2);
    assert_eq!(row_text(&t, 0), "");
}

#[test]
fn erased_cells_carry_pending_style() {
    let mut t = Terminal::new(4, 1);
    t.place_str("abcd");
    t.sgr(&[48, 2, 9, 8, 7]);
    t.move_cursor(0, 0);
    t.erase_in_line(0);
    assert_eq!(t.screen[0].cells[0].ch, ' ');
    assert_eq!(t.screen[0].cells[0].style.bg, ColorSpec::Rgb(9, 8, 7));
}

#[test]
fn resize_preserves_overlap_and_clamps_cursor() {
    let mut t = Terminal::new(80, 24);
    for r in 0..24 {
        t.move_cursor(r, 0);
        t.place_str(&format!("r{}", r));
    }
    t.move_cursor(23, 70);
    t.resize(40, 10);
    assert_eq!(t.cols(), 40);
    assert_eq!(t.rows(), 10);
    for r in 0..10 {
        assert_eq!(row_text(&t, r), format!("r{}", r));
    }
    assert_eq!(t.cursor_row, 9);
    assert_eq!(t.cursor_col, 39);
    assert_eq!((t.scroll_top, t.scroll_bottom), (0, 10));
}

#[test]
fn resize_growing_blanks_new_cells() {
    let mut t = Terminal::new(4, 2);
    t.place_str("abcd");
    t.resize(8, 3);
    assert_eq!(row_text(&t, 0), "abcd");
    assert_eq!(t.screen[0].cells[7].ch, ' ');
    assert_eq!(row_text(&t, 2), "");
}

#[test]
fn insert_and_delete_chars() {
    let mut t = Terminal::new(6, 1);
    t.place_str("abcdef");
    t.move_cursor(0, 2);
    t.insert_blank_chars(2);
    let text: String = t.screen[0].cells.iter().map(|c| c.ch).collect();
    assert_eq!(text, "ab  cd");
    t.delete_chars(2);
    let text: String = t.screen[0].cells.iter().map(|c| c.ch).collect();
    assert_eq!(text, "abcd  ");
}

#[test]
fn erase_chars_blanks_without_shifting() {
    let mut t = Terminal::new(6, 1);
    t.place_str("abcdef");
    t.move_cursor(0, 1);
    t.erase_chars(3);
    let text: String = t.screen[0].cells.iter().map(|c| c.ch).collect();
    assert_eq!(text, "a   ef");
}

#[test]
fn scroll_down_inserts_blank_rows_on_top() {
    let mut t = Terminal::new(5, 3);
    t.place_str("one");
    t.move_cursor(1, 0);
    t.place_str("two");
    t.scroll_down_lines(1);
    assert_eq!(row_text(&t, 0), "");
    assert_eq!(row_text(&t, 1), "one");
    assert_eq!(row_text(&t, 2), "two");
    assert_eq!(t.scrollback.len(), 0);
}

#[test]
fn reverse_index_scrolls_region_at_top() {
    let mut t = Terminal::new(5, 4);
    for r in 0..4 {
        t.move_cursor(r, 0);
        t.place_str(&format!("r{}", r));
    }
    t.set_scroll_region(1, 3);
    t.move_cursor(1, 0);
    t.reverse_index();
    assert_eq!(row_text(&t, 0), "r0");
    assert_eq!(row_text(&t, 1), "");
    assert_eq!(row_text(&t, 2), "r1");
    assert_eq!(row_text(&t, 3), "r3");
}

#[test]
fn reverse_index_moves_up_elsewhere() {
    let mut t = Terminal::new(5, 4);
    t.set_scroll_region(0, 4);
    t.move_cursor(2, 1);
    t.reverse_index();
    assert_eq!(t.cursor_row, 1);
}

#[test]
fn save_and_restore_cursor() {
    let mut t = Terminal::new(20, 10);
    t.move_cursor(5, 7);
    t.save_cursor();
    t.move_cursor(0, 0);
    t.restore_cursor();
    assert_eq!((t.cursor_row, t.cursor_col), (5, 7));
}

#[test]
fn selection_membership_and_bounds() {
    let mut t = Terminal::new(10, 4);
    t.start_selection(Pos { row: 1, col: 2 });
    t.update_selection(Pos { row: 2, col: 5 });
    assert!(!t.is_selected(0, 5));
    assert!(t.is_selected(1, 2));
    assert!(t.is_selected(1, 9));
    assert!(!t.is_selected(1, 1));
    assert!(t.is_selected(2, 0));
    assert!(t.is_selected(2, 5));
    assert!(!t.is_selected(2, 6));
    assert!(t.selection_non_empty());
    assert!(t.selection_contains_row(2));
    assert!(!t.selection_contains_row(3));
    let (a, b) = t.selection_bounds().unwrap();
    assert_eq!((a.row, a.col, b.row, b.col), (1, 2, 2, 5));
    t.clear_selection();
    assert!(!t.is_selected(1, 2));
}

#[test]
fn selection_normalizes_reversed_endpoints() {
    let mut t = Terminal::new(10, 4);
    t.start_selection(Pos { row: 3, col: 4 });
    t.update_selection(Pos { row: 1, col: 6 });
    let (a, b) = t.normalized_selection().unwrap();
    assert_eq!((a.row, a.col), (1, 6));
    assert_eq!((b.row, b.col), (3, 4));
}

#[test]
fn selection_text_trims_and_joins() {
    let mut t = Terminal::new(10, 3);
    t.place_str("hello");
    t.move_cursor(1, 0);
    t.place_str("world");
    t.start_selection(Pos { row: 0, col: 0 });
    t.update_selection(Pos { row: 1, col: 9 });
    assert_eq!(t.selection_text_or_empty(), "hello\nworld");
}

#[test]
fn selection_text_skips_wide_continuation() {
    let mut t = Terminal::new(10, 1);
    t.place_str("a你b");
    t.select_line_at_view(0);
    assert_eq!(t.selection_text_or_empty(), "a你b");
}

#[test]
fn selection_text_empty_without_selection() {
    let t = Terminal::new(10, 2);
    assert_eq!(t.selection_text_or_empty(), "");
    assert!(t.selection_text().is_none());
}

#[test]
fn word_selection_expands_runs() {
    let mut t = Terminal::new(20, 1);
    t.place_str("cd my-dir.txt !");
    t.select_word_at_view(0, 5);
    assert_eq!(t.selection_text_or_empty(), "my-dir.txt");
    t.select_word_at_view(0, 14);
    assert_eq!(t.selection_text_or_empty(), "!");
}

#[test]
fn select_all_spans_everything() {
    let mut t = Terminal::new(10, 2);
    t.place_str("top");
    t.line_feed();
    t.line_feed();
    t.carriage_return();
    t.place_str("bot");
    t.select_all();
    let text = t.selection_text_or_empty();
    assert!(text.starts_with("top\n"));
    assert!(text.ends_with("bot"));
}

#[test]
fn viewport_lookups() {
    let mut t = Terminal::new(10, 2);
    t.place_str("aa");
    t.line_feed();
    t.line_feed();
    t.carriage_return();
    t.place_str("bb");
    assert_eq!(t.total_lines(), 3);
    assert_eq!(t.visible_start_global_row(), 1);
    assert_eq!(t.visible_range(), (1, 2));
    assert_eq!(t.last_visible_global_row(), 2);
    let row = t.visible_line(1).unwrap();
    let text: String = row.cells.iter().map(|c| c.ch).collect();
    assert_eq!(text.trim_end(), "bb");
    assert!(t.line_at_global(3).is_none());
    let p = t.pos_for_view(1, 50);
    assert_eq!((p.row, p.col), (2, 9));
    assert_eq!(t.clamp_global_row(99), 2);
    assert_eq!(t.clamp_col(99), 9);
    assert_eq!(t.clamp_view_row(99), 1);
    t.set_view_scroll(1);
    assert_eq!(t.visible_start_global_row(), 0);
    assert!(!t.viewport_contains_cursor());
    assert_eq!(t.cursor_visible_view_row(), None);
    t.scroll_view_to_bottom();
    assert_eq!(t.cursor_visible_view_row(), Some(t.cursor_row));
}

#[test]
fn cursor_positions_clamp_pending_wrap() {
    let mut t = Terminal::new(4, 2);
    t.place_str("abcd");
    assert_eq!(t.cursor_col, 4);
    assert_eq!(t.cursor_screen_pos(), (0, 3));
    let p = t.cursor_global_pos();
    assert_eq!((p.row, p.col), (0, 3));
}

#[test]
fn scroll_view_page_moves_by_screenfuls() {
    let mut t = Terminal::new(10, 2);
    for _ in 0..6 {
        t.line_feed();
        t.line_feed();
    }
    let hist = t.scrollback.len();
    t.scroll_view_page(1);
    assert_eq!(t.view_scroll, 2.min(hist));
    t.scroll_view_page(-1);
    assert_eq!(t.view_scroll, 0);
}

#[test]
fn sgr_sets_and_resets_colors() {
    let mut t = Terminal::new(4, 1);
    t.sgr(&[31]);
    assert_eq!(t.style.fg, ColorSpec::Indexed(1));
    t.sgr(&[44]);
    assert_eq!(t.style.bg, ColorSpec::Indexed(4));
    t.sgr(&[95]);
    assert_eq!(t.style.fg, ColorSpec::Indexed(13));
    t.sgr(&[104]);
    assert_eq!(t.style.bg, ColorSpec::Indexed(12));
    t.sgr(&[38, 5, 200]);
    assert_eq!(t.style.fg, ColorSpec::Indexed(200));
    t.sgr(&[38, 2, 1, 2, 3]);
    assert_eq!(t.style.fg, ColorSpec::Rgb(1, 2, 3));
    t.sgr(&[39]);
    assert_eq!(t.style.fg, ColorSpec::DefaultFg);
    t.sgr(&[49]);
    assert_eq!(t.style.bg, ColorSpec::DefaultBg);
    t.sgr(&[31, 44]);
    t.sgr(&[]);
    assert_eq!(t.style.fg, ColorSpec::DefaultFg);
    assert_eq!(t.style.bg, ColorSpec::DefaultBg);
    t.sgr(&[38, 5]);
    assert_eq!(t.style.fg, ColorSpec::DefaultFg);
    t.sgr(&[38, 2, 300, -5, 7]);
    assert_eq!(t.style.fg, ColorSpec::Rgb(255, 0, 7));
}

#[test]
fn clear_all_homes_cursor() {
    let mut t = Terminal::new(6, 2);
    t.place_str("abc");
    t.clear_all();
    assert_eq!(row_text(&t, 0), "");
    assert_eq!((t.cursor_row, t.cursor_col), (0, 0));
}

#[test]
fn clear_scrollback_resets_view() {
    let mut t = Terminal::new(6, 1);
    t.line_feed();
    t.line_feed();
    t.set_view_scroll(2);
    t.clear_scrollback();
    assert_eq!(t.scrollback.len(), 0);
    assert_eq!(t.view_scroll, 0);
}

#[test]
fn title_updates_raise_flag() {
    let mut t = Terminal::new(6, 1);
    assert!(!t.title_changed);
    t.append_osc_title("shell");
    assert!(t.title_changed);
    assert_eq!(t.title, "shell");
}

#[test]
fn move_rel_clamps_at_edges() {
    let mut t = Terminal::new(10, 5);
    t.move_rel(-3, -3);
    assert_eq!((t.cursor_row, t.cursor_col), (0, 0));
    t.move_rel(100, 100);
    assert_eq!((t.cursor_row, t.cursor_col), (4, 9));
    t.move_rel(-1, -2);
    assert_eq!((t.cursor_row, t.cursor_col), (3, 7));
}

#[test]
fn ensure_nonzero_size_repairs_dimensions() {
    let mut t = Terminal::new(3, 2);
    t.ensure_nonzero_size();
    assert_eq!((t.cols(), t.rows()), (3, 2));
}

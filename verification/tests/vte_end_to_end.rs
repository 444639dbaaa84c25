use moterm::color::ColorSpec;
use moterm::terminal::CursorStyle;
use moterm::terminal::Terminal;
use moterm::vte_handler::VteHandler;

struct Driver {
    handler: VteHandler,
}

impl vte::Perform for Driver {
    fn print(&mut self, c: char) {
        self.handler.print(c);
    }

    fn execute(&mut self, byte: u8) {
        self.handler.execute(byte);
    }

    fn osc_dispatch(&mut self, params: &[&[u8]], _bell_terminated: bool) {
        let owned: Vec<Vec<u8>> = params.iter().map(|p| p.to_vec()).collect();
        self.handler.osc_dispatch(&owned);
    }

    fn csi_dispatch(&mut self, params: &vte::Params, intermediates: &[u8], _ignore: bool, action: char) {
        let mut flat: Vec<i64> = Vec::new();
        for p in params.iter() {
            if p.is_empty() {
                flat.push(0);
            } else {
                flat.push(p[0] as i64);
            }
        }
        self.handler.csi_dispatch(&flat, intermediates, action);
    }

    fn esc_dispatch(&mut self, _intermediates: &[u8], _ignore: bool, byte: u8) {
        self.handler.esc_dispatch(byte);
    }
}

fn fresh(cols: usize, rows: usize) -> (Driver, vte::Parser) {
    (Driver { handler: VteHandler::new(Terminal::new(cols, rows)) }, vte::Parser::new())
}

fn feed(driver: &mut Driver, parser: &mut vte::Parser, bytes: &[u8]) {
    parser.advance(driver, bytes);
}

fn screen_text(t: &Terminal, row: usize) -> String {
    t.screen[row].cells.iter().map(|c| c.ch).collect::<String>().trim_end().to_string()
}

#[test]
fn hello_crlf_lands_on_row_zero() {
    let (mut d, mut p) = fresh(80, 24);
    feed(&mut d, &mut p, b"Hello\r\n");
    let t = &d.handler.term;
    assert_eq!((t.cursor_row, t.cursor_col), (1, 0));
    let expected = ['H', 'e', 'l', 'l', 'o'];
    for (col, ch) in expected.iter().enumerate() {
        assert_eq!(t.screen[0].cells[col].ch, *ch);
    }
    assert_eq!(t.screen[0].cells[5].ch, ' ');
}

#[test]
fn clear_home_and_print() {
    let (mut d, mut p) = fresh(80, 24);
    feed(&mut d, &mut p, b"junk everywhere\r\nmore junk");
    feed(&mut d, &mut p, b"\x1b[2J\x1b[HX");
    let t = &d.handler.term;
    assert_eq!(t.screen[0].cells[0].ch, 'X');
    for r in 0..24 {
        for c in 0..80 {
            if (r, c) != (0, 0) {
                assert_eq!(t.screen[r].cells[c].ch, ' ', "cell {},{}", r, c);
            }
        }
    }
}

#[test]
fn two_thousand_one_lines_fill_scrollback() {
    let (mut d, mut p) = fresh(20, 1);
    for i in 1..=2001u32 {
        feed(&mut d, &mut p, format!("l{}\n", i).as_bytes());
        feed(&mut d, &mut p, b"\r");
    }
    let t = &d.handler.term;
    assert_eq!(t.scrollback.len(), 2000);
    let oldest: String = t.scrollback[0].cells.iter().map(|c| c.ch).collect();
    assert_eq!(oldest.trim_end(), "l2");
}

#[test]
fn truecolor_sgr_reaches_the_cell() {
    let (mut d, mut p) = fresh(80, 24);
    feed(&mut d, &mut p, b"\x1b[0m\x1b[38;2;10;20;30mZ");
    let t = &d.handler.term;
    let cell = t.screen[0].cells[0];
    assert_eq!(cell.ch, 'Z');
    assert_eq!(cell.style.fg, ColorSpec::Rgb(10, 20, 30));
    assert_eq!(cell.style.bg, ColorSpec::DefaultBg);
}

#[test]
fn osc_sets_window_title() {
    let (mut d, mut p) = fresh(20, 2);
    feed(&mut d, &mut p, b"\x1b]0;my shell\x07");
    assert_eq!(d.handler.term.title, "my shell");
    assert!(d.handler.term.title_changed);
    feed(&mut d, &mut p, b"\x1b]2;other\x1b\\");
    assert_eq!(d.handler.term.title, "other");
}

#[test]
fn private_modes_set_and_reset() {
    let (mut d, mut p) = fresh(20, 2);
    feed(&mut d, &mut p, b"\x1b[?1000h");
    assert_eq!(d.handler.term.mouse_mode, 1000);
    // Resetting a different tracking mode leaves the active one alone.
    feed(&mut d, &mut p, b"\x1b[?1002l");
    assert_eq!(d.handler.term.mouse_mode, 1000);
    feed(&mut d, &mut p, b"\x1b[?1000l");
    assert_eq!(d.handler.term.mouse_mode, 0);
    feed(&mut d, &mut p, b"\x1b[?1003h\x1b[?1006h\x1b[?2004h\x1b[?1049h");
    let t = &d.handler.term;
    assert_eq!(t.mouse_mode, 1003);
    assert!(t.mouse_sgr);
    assert!(t.bracketed_paste);
    assert!(t.alt_screen);
    feed(&mut d, &mut p, b"\x1b[?1006l\x1b[?2004l\x1b[?1049l");
    let t = &d.handler.term;
    assert!(!t.mouse_sgr);
    assert!(!t.bracketed_paste);
    assert!(!t.alt_screen);
}

#[test]
fn cursor_style_selection() {
    let (mut d, mut p) = fresh(20, 2);
    feed(&mut d, &mut p, b"\x1b[4 q");
    assert_eq!(d.handler.term.cursor_style, CursorStyle::Underline);
    feed(&mut d, &mut p, b"\x1b[6 q");
    assert_eq!(d.handler.term.cursor_style, CursorStyle::Beam);
    feed(&mut d, &mut p, b"\x1b[0 q");
    assert_eq!(d.handler.term.cursor_style, CursorStyle::Block);
    feed(&mut d, &mut p, b"\x1b[9 q");
    assert_eq!(d.handler.term.cursor_style, CursorStyle::Block);
}

#[test]
fn cursor_motion_sequences() {
    let (mut d, mut p) = fresh(20, 10);
    feed(&mut d, &mut p, b"\x1b[5;7H");
    let t = &d.handler.term;
    assert_eq!((t.cursor_row, t.cursor_col), (4, 6));
    feed(&mut d, &mut p, b"\x1b[2A\x1b[3C");
    let t = &d.handler.term;
    assert_eq!((t.cursor_row, t.cursor_col), (2, 9));
    feed(&mut d, &mut p, b"\x1b[B\x1b[4D");
    let t = &d.handler.term;
    assert_eq!((t.cursor_row, t.cursor_col), (3, 5));
    feed(&mut d, &mut p, b"\x1b[E");
    let t = &d.handler.term;
    assert_eq!((t.cursor_row, t.cursor_col), (4, 0));
    feed(&mut d, &mut p, b"\x1b[10G\x1b[2d");
    let t = &d.handler.term;
    assert_eq!((t.cursor_row, t.cursor_col), (1, 9));
    // Motion clamps at the edges and never scrolls.
    feed(&mut d, &mut p, b"\x1b[99A\x1b[99D");
    let t = &d.handler.term;
    assert_eq!((t.cursor_row, t.cursor_col), (0, 0));
    assert_eq!(t.scrollback.len(), 0);
}

#[test]
fn erase_line_and_display_sequences() {
    let (mut d, mut p) = fresh(10, 3);
    feed(&mut d, &mut p, b"abcdefghij\r\nsecond");
    feed(&mut d, &mut p, b"\x1b[1;4H\x1b[K");
    let t = &d.handler.term;
    assert_eq!(screen_text(t, 0), "abc");
    assert_eq!(screen_text(t, 1), "second");
    feed(&mut d, &mut p, b"\x1b[2J");
    let t = &d.handler.term;
    assert_eq!(screen_text(t, 0), "");
    assert_eq!(screen_text(t, 1), "");
}

#[test]
fn insert_delete_and_scroll_sequences() {
    let (mut d, mut p) = fresh(6, 2);
    feed(&mut d, &mut p, b"abcdef\x1b[1;3H\x1b[2@");
    let t = &d.handler.term;
    let text: String = t.screen[0].cells.iter().map(|c| c.ch).collect();
    assert_eq!(text, "ab  cd");
    feed(&mut d, &mut p, b"\x1b[2P");
    let t = &d.handler.term;
    let text: String = t.screen[0].cells.iter().map(|c| c.ch).collect();
    assert_eq!(text, "abcd  ");
    feed(&mut d, &mut p, b"\x1b[L");
    let t = &d.handler.term;
    assert_eq!(screen_text(t, 0), "");
    assert_eq!(screen_text(t, 1), "abcd");
    feed(&mut d, &mut p, b"\x1b[M");
    let t = &d.handler.term;
    assert_eq!(screen_text(t, 0), "abcd");
    assert_eq!(t.scrollback.len(), 1);
}

#[test]
fn esc_reset_clears_everything() {
    let (mut d, mut p) = fresh(10, 2);
    feed(&mut d, &mut p, b"one\r\ntwo\r\nthree");
    assert!(d.handler.term.scrollback.len() > 0);
    feed(&mut d, &mut p, b"\x1bc");
    let t = &d.handler.term;
    assert_eq!(t.scrollback.len(), 0);
    assert_eq!((t.cursor_row, t.cursor_col), (0, 0));
    assert_eq!(screen_text(t, 0), "");
    assert_eq!(screen_text(t, 1), "");
}

#[test]
fn reverse_index_at_top_scrolls_region_down() {
    let (mut d, mut p) = fresh(5, 3);
    feed(&mut d, &mut p, b"aa\r\nbb\r\ncc");
    feed(&mut d, &mut p, b"\x1b[1;1H\x1bM");
    let t = &d.handler.term;
    assert_eq!(screen_text(t, 0), "");
    assert_eq!(screen_text(t, 1), "aa");
    assert_eq!(screen_text(t, 2), "bb");
}

#[test]
fn bell_and_formfeed_controls() {
    let (mut d, mut p) = fresh(10, 2);
    feed(&mut d, &mut p, b"hi\x07");
    assert!(d.handler.term.bell);
    d.handler.term.bell = false;
    feed(&mut d, &mut p, b"\x0c");
    let t = &d.handler.term;
    assert_eq!(screen_text(t, 0), "");
    assert_eq!((t.cursor_row, t.cursor_col), (0, 0));
}

#[test]
fn tab_and_backspace_controls() {
    let (mut d, mut p) = fresh(20, 2);
    feed(&mut d, &mut p, b"a\tb\x08");
    let t = &d.handler.term;
    assert_eq!(t.screen[0].cells[8].ch, 'b');
    assert_eq!(t.cursor_col, 8);
}

#[test]
fn malformed_sequences_are_ignored() {
    let (mut d, mut p) = fresh(10, 2);
    feed(&mut d, &mut p, b"ok\x1b[999Z\x1b[;;;m\x1b]7;whatever\x07!");
    let t = &d.handler.term;
    assert_eq!(screen_text(t, 0), "ok!");
}

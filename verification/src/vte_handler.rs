use vstd::prelude::*;

use crate::terminal::CursorStyle;
use crate::terminal::GridState;
use crate::terminal::Terminal;
use crate::terminal::clear_all_rel;
use crate::terminal::default_style;
use crate::terminal::delete_chars_rel;
use crate::terminal::erase_in_display_rel;
use crate::terminal::erase_in_line_rel;
use crate::terminal::insert_blank_chars_rel;
use crate::terminal::reverse_index_rel;
use crate::terminal::row_filled_range;
use crate::terminal::scroll_down_rel;
use crate::terminal::blank_cell_with;
use crate::terminal::spec_clamp_int;
use crate::terminal::spec_line_feed;
use crate::terminal::spec_min;
use crate::terminal::spec_put_char;
use crate::terminal::spec_scroll_up;
use crate::terminal::spec_sgr;
use crate::text::utf8_decode;

verus! {

/// Consumes decoded escape-sequence events and applies exactly one
/// transition per event to the terminal it owns.
pub struct VteHandler {
    pub term: Terminal,
}

/// The first parameter as a count: missing or non-positive values fall
/// back to the default.
pub open spec fn spec_first_or(params: Seq<i64>, default: usize) -> usize {
    if params.len() == 0 {
        default
    } else if params[0] <= 0 {
        default
    } else {
        params[0] as usize
    }
}

/// A cursor-move count: the first parameter, capped so the move still
/// saturates at the grid edge.
pub open spec fn spec_move_count(params: Seq<i64>, default: usize) -> int {
    spec_min(spec_first_or(params, default) as int, 0x10000)
}

/// A 1-based position parameter at index `idx`, missing values and
/// values below 1 treated as 1, converted to 0-based and capped.
pub open spec fn spec_pos_param(params: Seq<i64>, idx: int) -> int {
    let p = if 0 <= idx < params.len() { params[idx] } else { 1 };
    let p1: i64 = if p < 1 { 1i64 } else { p };
    spec_min(p1 as int, 0x10000) - 1
}

/// An erase mode: the first parameter, defaulting to 0.
pub open spec fn spec_mode_param(params: Seq<i64>) -> usize {
    if params.len() == 0 { 0usize } else { params[0] as usize }
}

/// The terminal after setting the private modes named in `params` from
/// index `i` on: mouse tracking (1000/1002/1003), SGR mouse encoding
/// (1006), bracketed paste (2004), and the alternate-screen flag
/// (47/1047/1049).
pub open spec fn modes_set(t: Terminal, params: Seq<i64>, i: int) -> Terminal
    decreases params.len() - i,
{
    if i < 0 || i >= params.len() {
        t
    } else {
        let p = params[i];
        let t2 = if p == 1000 || p == 1002 || p == 1003 {
            Terminal { mouse_mode: p as u16, ..t }
        } else if p == 1006 {
            Terminal { mouse_sgr: true, ..t }
        } else if p == 2004 {
            Terminal { bracketed_paste: true, ..t }
        } else if p == 1049 || p == 47 || p == 1047 {
            Terminal { alt_screen: true, ..t }
        } else {
            t
        };
        modes_set(t2, params, i + 1)
    }
}

/// The terminal after resetting the private modes named in `params`; a
/// mouse-tracking mode is cleared only when it is the one active.
pub open spec fn modes_reset(t: Terminal, params: Seq<i64>, i: int) -> Terminal
    decreases params.len() - i,
{
    if i < 0 || i >= params.len() {
        t
    } else {
        let p = params[i];
        let t2 = if p == 1000 || p == 1002 || p == 1003 {
            if t.mouse_mode == p as u16 { Terminal { mouse_mode: 0u16, ..t } } else { t }
        } else if p == 1006 {
            Terminal { mouse_sgr: false, ..t }
        } else if p == 2004 {
            Terminal { bracketed_paste: false, ..t }
        } else if p == 1049 || p == 47 || p == 1047 {
            Terminal { alt_screen: false, ..t }
        } else {
            t
        };
        modes_reset(t2, params, i + 1)
    }
}

/// The cursor shape a `CSI Ps SP q` parameter selects: 0-2 block, 3-4
/// underline, 5-6 beam, anything else block.
pub open spec fn cursor_style_for(p: i64) -> CursorStyle {
    if 0 <= p <= 2 {
        CursorStyle::Block
    } else if 3 <= p <= 4 {
        CursorStyle::Underline
    } else if 5 <= p <= 6 {
        CursorStyle::Beam
    } else {
        CursorStyle::Block
    }
}

impl VteHandler {
    /// Wraps a terminal for a decode pass.
    pub fn new(term: Terminal) -> (h: VteHandler)
        ensures
            h.term == term,
    {
        VteHandler { term }
    }

    /// The first parameter as a count with a default.
    pub fn first_or(params: &[i64], default: usize) -> (r: usize)
        ensures
            r == spec_first_or(params@, default),
    {
        if params.len() == 0 {
            default
        } else {
            let v = params[0];
            if v <= 0 {
                default
            } else {
                #[verifier::truncate] (v as usize)
            }
        }
    }

    /// A cursor-move count, capped above every grid dimension.
    fn move_count(params: &[i64], default: usize) -> (r: usize)
        ensures
            r == spec_move_count(params@, default),
    {
        let v = Self::first_or(params, default);
        if v <= 0x10000 { v } else { 0x10000 }
    }

    /// A 1-based position parameter, converted to 0-based.
    fn pos_param(params: &[i64], idx: usize) -> (r: usize)
        ensures
            r == spec_pos_param(params@, idx as int),
    {
        let p: i64 = if idx < params.len() { params[idx] } else { 1 };
        let p1: i64 = if p < 1 { 1 } else { p };
        let pc: i64 = if p1 > 0x10000 { 0x10000 } else { p1 };
        (pc - 1) as usize
    }

    /// A printable character: placed at the cursor as `spec_put_char`
    /// lays down.
    pub fn print(&mut self, c: char)
        requires
            old(self).term.wf(),
        ensures
            final(self).term.wf(),
            final(self).term.grid_state() == spec_put_char(old(self).term.grid_state(), c),
            Terminal::same_outside_grid(old(self).term, final(self).term),
    {
        self.term.put_char(c);
    }

    /// A C0 control byte: line feed, carriage return, backspace, tab,
    /// bell, or form feed; anything else is ignored.
    pub fn execute(&mut self, byte: u8)
        requires
            old(self).term.wf(),
        ensures
            final(self).term.wf(),
            byte == 10 ==> {
                &&& final(self).term.grid_state() == spec_line_feed(old(self).term.grid_state())
                &&& Terminal::same_outside_grid(old(self).term, final(self).term)
            },
            byte == 13 ==> final(self).term == (Terminal { cursor_col: 0usize, ..old(self).term }),
            byte == 8 ==> final(self).term == (Terminal {
                cursor_col: if old(self).term.cursor_col > 0 {
                    (old(self).term.cursor_col - 1) as usize
                } else {
                    0usize
                },
                ..old(self).term
            }),
            byte == 9 ==> {
                &&& final(self).term == (Terminal { cursor_col: final(self).term.cursor_col, ..old(self).term })
                &&& final(self).term.cursor_col == spec_min(
                    ((old(self).term.cursor_col / 8 + 1) * 8) as int,
                    (old(self).term.cols - 1) as int)
            },
            byte == 7 ==> final(self).term == (Terminal { bell: true, ..old(self).term }),
            byte == 12 ==> clear_all_rel(old(self).term, final(self).term),
            !(byte == 10 || byte == 13 || byte == 8 || byte == 9 || byte == 7 || byte == 12) ==>
                final(self).term == old(self).term,
    {
        if byte == 10 {
            self.term.line_feed();
        } else if byte == 13 {
            self.term.carriage_return();
        } else if byte == 8 {
            self.term.backspace();
        } else if byte == 9 {
            self.term.tab();
        } else if byte == 7 {
            self.term.bell = true;
        } else if byte == 12 {
            self.term.clear_all();
        }
    }

    /// An OSC sequence: commands 0 and 2 set the window title from the
    /// second parameter when it is valid UTF-8; everything else is
    /// ignored.
    pub fn osc_dispatch(&mut self, params: &Vec<Vec<u8>>)
        requires
            old(self).term.wf(),
        ensures
            final(self).term.wf(),
            ({
                let wants = params@.len() >= 2
                    && (params@[0]@ == seq![48u8] || params@[0]@ == seq![50u8])
                    && utf8_decode(params@[1]@) is Some;
                if wants {
                    &&& final(self).term == (Terminal {
                        title: final(self).term.title,
                        title_changed: true,
                        ..old(self).term
                    })
                    &&& Some(final(self).term.title@) == utf8_decode(params@[1]@)
                } else {
                    final(self).term == old(self).term
                }
            }),
    {
        if params.len() >= 2 {
            let cmd = &params[0];
            let is_title_cmd = cmd.len() == 1 && (cmd[0] == 48 || cmd[0] == 50);
            proof {
                assert(seq![48u8].len() == 1 && seq![48u8][0] == 48u8);
                assert(seq![50u8].len() == 1 && seq![50u8][0] == 50u8);
                if is_title_cmd {
                    if cmd@[0] == 48 {
                        assert(cmd@ =~= seq![48u8]);
                    } else {
                        assert(cmd@ =~= seq![50u8]);
                    }
                }
            }
            if is_title_cmd {
                match crate::text::decode_utf8(&params[1]) {
                    Some(title) => {
                        self.term.append_osc_title(title.as_str());
                    }
                    None => {}
                }
            }
        }
    }

    /// An ESC sequence: index, next line, reverse index, or full reset;
    /// anything else is ignored.
    pub fn esc_dispatch(&mut self, byte: u8)
        requires
            old(self).term.wf(),
        ensures
            final(self).term.wf(),
            byte == 68 ==> {
                &&& final(self).term.grid_state() == spec_line_feed(old(self).term.grid_state())
                &&& Terminal::same_outside_grid(old(self).term, final(self).term)
            },
            byte == 69 ==> {
                &&& final(self).term.grid_state()
                    == (GridState { cursor_col: 0nat, ..spec_line_feed(old(self).term.grid_state()) })
                &&& Terminal::same_outside_grid(old(self).term, final(self).term)
            },
            byte == 77 ==> reverse_index_rel(old(self).term, final(self).term),
            byte == 99 ==> {
                &&& final(self).term.screen@.len() == old(self).term.screen@.len()
                &&& forall|i: int| 0 <= i < old(self).term.screen@.len() ==>
                    row_filled_range(
                        old(self).term.screen@[i].cells@,
                        (#[trigger] final(self).term.screen@[i]).cells@,
                        0, old(self).term.cols as int,
                        blank_cell_with(old(self).term.style))
                &&& final(self).term.scrollback@.len() == 0
                &&& final(self).term.view_scroll == 0
                &&& final(self).term.cursor_row == 0
                &&& final(self).term.cursor_col == 0
                &&& final(self).term.selection
                    == final(self).term.spec_clamped_selection(old(self).term.selection)
                &&& final(self).term == (Terminal {
                    screen: final(self).term.screen,
                    scrollback: final(self).term.scrollback,
                    view_scroll: 0usize,
                    cursor_row: 0usize,
                    cursor_col: 0usize,
                    selection: final(self).term.selection,
                    ..old(self).term
                })
            },
            !(byte == 68 || byte == 69 || byte == 77 || byte == 99) ==>
                final(self).term == old(self).term,
    {
        if byte == 68 {
            self.term.line_feed();
        } else if byte == 69 {
            self.term.next_line();
        } else if byte == 77 {
            self.term.reverse_index();
        } else if byte == 99 {
            self.term.clear_all();
            self.term.clear_scrollback();
            self.term.home_cursor();
        }
    }

    /// A CSI sequence, dispatched on the final byte and intermediates:
    /// private mode set/reset, cursor-style selection, cursor motion,
    /// erases, line and cell edits, scrolling, and graphic rendition;
    /// anything else is ignored.
    #[verifier::rlimit(60)]
    pub fn csi_dispatch(&mut self, params: &[i64], intermediates: &[u8], action: char)
        requires
            old(self).term.wf(),
        ensures
            final(self).term.wf(),
            action == 'h' && intermediates@ == seq![63u8] ==>
                final(self).term == modes_set(old(self).term, params@, 0),
            action == 'l' && intermediates@ == seq![63u8] ==>
                final(self).term == modes_reset(old(self).term, params@, 0),
            action == 'q' && intermediates@ == seq![32u8] ==>
                final(self).term == (Terminal {
                    cursor_style: cursor_style_for(if params@.len() == 0 { 0 } else { params@[0] }),
                    ..old(self).term
                }),
            ((action == 'h' || action == 'l') && intermediates@ != seq![63u8]) ==>
                final(self).term == old(self).term,
            (action == 'q' && intermediates@ != seq![32u8]) ==>
                final(self).term == old(self).term,
            action == 'A' || action == 'B' ==> {
                let n = spec_move_count(params@, 1);
                let d = if action == 'A' { -n } else { n };
                final(self).term == (Terminal {
                    cursor_row: spec_clamp_int(old(self).term.cursor_row + d, 0,
                        (old(self).term.rows - 1) as int) as usize,
                    cursor_col: spec_clamp_int(old(self).term.cursor_col as int, 0,
                        (old(self).term.cols - 1) as int) as usize,
                    ..old(self).term
                })
            },
            action == 'C' || action == 'D' ==> {
                let n = spec_move_count(params@, 1);
                let d = if action == 'D' { -n } else { n };
                final(self).term == (Terminal {
                    cursor_row: old(self).term.cursor_row,
                    cursor_col: spec_clamp_int(old(self).term.cursor_col + d, 0,
                        (old(self).term.cols - 1) as int) as usize,
                    ..old(self).term
                })
            },
            action == 'E' || action == 'F' ==> {
                let n = spec_move_count(params@, 1);
                let d = if action == 'F' { -n } else { n };
                final(self).term == (Terminal {
                    cursor_row: spec_clamp_int(old(self).term.cursor_row + d, 0,
                        (old(self).term.rows - 1) as int) as usize,
                    cursor_col: 0usize,
                    ..old(self).term
                })
            },
            action == 'G' ==> final(self).term == (Terminal {
                cursor_col: spec_min(
                    if spec_first_or(params@, 1) >= 1 { spec_first_or(params@, 1) - 1 as int } else { 0 },
                    (old(self).term.cols - 1) as int) as usize,
                ..old(self).term
            }),
            action == 'H' || action == 'f' ==> final(self).term == (Terminal {
                cursor_row: spec_min(spec_pos_param(params@, 0),
                    (old(self).term.rows - 1) as int) as usize,
                cursor_col: spec_min(spec_pos_param(params@, 1),
                    (old(self).term.cols - 1) as int) as usize,
                ..old(self).term
            }),
            action == 'J' ==> erase_in_display_rel(old(self).term, final(self).term,
                spec_mode_param(params@) as int),
            action == 'K' ==> erase_in_line_rel(old(self).term, final(self).term,
                spec_mode_param(params@) as int),
            action == 'L' || action == 'T' ==> scroll_down_rel(old(self).term, final(self).term,
                spec_first_or(params@, 1) as int),
            action == 'M' || action == 'S' ==> {
                &&& final(self).term.grid_state()
                    == spec_scroll_up(old(self).term.grid_state(), spec_first_or(params@, 1) as nat)
                &&& Terminal::same_outside_grid(old(self).term, final(self).term)
            },
            action == '@' ==> insert_blank_chars_rel(old(self).term, final(self).term,
                spec_first_or(params@, 1) as int),
            action == 'P' ==> delete_chars_rel(old(self).term, final(self).term,
                spec_first_or(params@, 1) as int),
            action == 'd' ==> final(self).term == (Terminal {
                cursor_row: spec_min(
                    if spec_first_or(params@, 1) >= 1 { spec_first_or(params@, 1) - 1 as int } else { 0 },
                    (old(self).term.rows - 1) as int) as usize,
                ..old(self).term
            }),
            action == 'm' ==> final(self).term == (Terminal {
                style: if params@.len() == 0 { default_style() }
                    else { spec_sgr(old(self).term.style, params@, 0) },
                ..old(self).term
            }),
            !(action == 'h' || action == 'l' || action == 'q' || action == 'A' || action == 'B'
                || action == 'C' || action == 'D' || action == 'E' || action == 'F'
                || action == 'G' || action == 'H' || action == 'f' || action == 'J'
                || action == 'K' || action == 'L' || action == 'M' || action == 'S'
                || action == 'T' || action == '@' || action == 'P' || action == 'd'
                || action == 'm') ==> final(self).term == old(self).term,
    {
        let is_private = intermediates.len() == 1 && intermediates[0] == 63;
        let is_space = intermediates.len() == 1 && intermediates[0] == 32;
        proof {
            assert(is_private <==> intermediates@ =~= seq![63u8]);
            assert(is_space <==> intermediates@ =~= seq![32u8]);
        }
        if action == 'h' && is_private {
            let mut i: usize = 0;
            while i < params.len()
                invariant
                    i <= params@.len(),
                    self.term.wf(),
                    modes_set(old(self).term, params@, 0) == modes_set(self.term, params@, i as int),
                decreases params@.len() - i,
            {
                let p = params[i];
                if p == 1000 || p == 1002 || p == 1003 {
                    self.term.mouse_mode = p as u16;
                } else if p == 1006 {
                    self.term.mouse_sgr = true;
                } else if p == 2004 {
                    self.term.bracketed_paste = true;
                } else if p == 1049 || p == 47 || p == 1047 {
                    self.term.alt_screen = true;
                }
                i = i + 1;
            }
            return;
        }
        if action == 'l' && is_private {
            let mut i: usize = 0;
            while i < params.len()
                invariant
                    i <= params@.len(),
                    self.term.wf(),
                    modes_reset(old(self).term, params@, 0) == modes_reset(self.term, params@, i as int),
                decreases params@.len() - i,
            {
                let p = params[i];
                if p == 1000 || p == 1002 || p == 1003 {
                    if self.term.mouse_mode == p as u16 {
                        self.term.mouse_mode = 0;
                    }
                } else if p == 1006 {
                    self.term.mouse_sgr = false;
                } else if p == 2004 {
                    self.term.bracketed_paste = false;
                } else if p == 1049 || p == 47 || p == 1047 {
                    self.term.alt_screen = false;
                }
                i = i + 1;
            }
            return;
        }
        if action == 'q' && is_space {
            let p: i64 = if params.len() == 0 { 0 } else { params[0] };
            self.term.cursor_style = if 0 <= p && p <= 2 {
                CursorStyle::Block
            } else if 3 <= p && p <= 4 {
                CursorStyle::Underline
            } else if 5 <= p && p <= 6 {
                CursorStyle::Beam
            } else {
                CursorStyle::Block
            };
            return;
        }
        if action == 'h' || action == 'l' || action == 'q' {
            return;
        }
        if action == 'A' {
            let n = Self::move_count(params, 1);
            self.term.move_rel(-(n as isize), 0);
        } else if action == 'B' {
            let n = Self::move_count(params, 1);
            self.term.move_rel(n as isize, 0);
        } else if action == 'C' {
            let n = Self::move_count(params, 1);
            self.term.move_rel(0, n as isize);
        } else if action == 'D' {
            let n = Self::move_count(params, 1);
            self.term.move_rel(0, -(n as isize));
        } else if action == 'E' {
            let n = Self::move_count(params, 1);
            self.term.move_rel(n as isize, 0);
            self.term.carriage_return();
        } else if action == 'F' {
            let n = Self::move_count(params, 1);
            self.term.move_rel(-(n as isize), 0);
            self.term.carriage_return();
        } else if action == 'G' {
            let n = Self::first_or(params, 1);
            self.term.set_cursor_col(if n >= 1 { n - 1 } else { 0 });
        } else if action == 'H' || action == 'f' {
            let row = Self::pos_param(params, 0);
            let col = Self::pos_param(params, 1);
            self.term.move_cursor(row, col);
        } else if action == 'J' {
            let mode = if params.len() == 0 { 0 } else {
                let p = params[0];
                #[verifier::truncate] (p as usize)
            };
            self.term.erase_in_display(mode);
        } else if action == 'K' {
            let mode = if params.len() == 0 { 0 } else {
                let p = params[0];
                #[verifier::truncate] (p as usize)
            };
            self.term.erase_in_line(mode);
        } else if action == 'L' {
            let n = Self::first_or(params, 1);
            self.term.scroll_down_lines(n);
        } else if action == 'M' {
            let n = Self::first_or(params, 1);
            self.term.scroll_up_lines(n);
        } else if action == 'S' {
            let n = Self::first_or(params, 1);
            self.term.scroll_up_lines(n);
        } else if action == 'T' {
            let n = Self::first_or(params, 1);
            self.term.scroll_down_lines(n);
        } else if action == '@' {
            let n = Self::first_or(params, 1);
            self.term.insert_blank_chars(n);
        } else if action == 'P' {
            let n = Self::first_or(params, 1);
            self.term.delete_chars(n);
        } else if action == 'd' {
            let n = Self::first_or(params, 1);
            self.term.set_cursor_row(if n >= 1 { n - 1 } else { 0 });
        } else if action == 'm' {
            self.term.sgr(params);
        }
    }
}

} // verus!

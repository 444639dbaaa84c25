use vstd::prelude::*;
use std::collections::VecDeque;

use crate::color::ColorSpec;
use crate::text::char_width;
use crate::text::char_width_exec;

verus! {

/// Upper bound on the number of rows kept in scrollback history.
pub const SCROLLBACK_LIMIT: usize = 2000;

/// Upper bound on either grid dimension; the pseudo-terminal window-size
/// control carries each dimension as a 16-bit value.
pub const MAX_DIM: usize = 0xffff;

/// The pending style applied to newly written or erased cells.
#[derive(Clone, Copy, Debug, PartialEq, Eq, Structural)]
pub struct Style {
    pub fg: ColorSpec,
    pub bg: ColorSpec,
}

/// The style of a fresh terminal: default foreground over default background.
pub open spec fn default_style() -> Style {
    Style { fg: ColorSpec::DefaultFg, bg: ColorSpec::DefaultBg }
}

impl Default for Style {
    fn default() -> (s: Style)
        ensures
            s == default_style(),
    {
        Style { fg: ColorSpec::DefaultFg, bg: ColorSpec::DefaultBg }
    }
}

/// One grid position: the character shown there, its style, and whether
/// the cell is the non-rendered continuation of a double-width character.
#[derive(Clone, Copy, Debug, PartialEq, Eq, Structural)]
pub struct Cell {
    pub ch: char,
    pub style: Style,
    pub wide_cont: bool,
}

/// A blank cell carrying the given style.
pub open spec fn blank_cell_with(style: Style) -> Cell {
    Cell { ch: ' ', style, wide_cont: false }
}

/// The cell a fresh row is filled with: a blank in the default style.
pub open spec fn default_cell() -> Cell {
    blank_cell_with(default_style())
}

impl Default for Cell {
    fn default() -> (c: Cell)
        ensures
            c == default_cell(),
    {
        Cell { ch: ' ', style: Style { fg: ColorSpec::DefaultFg, bg: ColorSpec::DefaultBg }, wide_cont: false }
    }
}

/// A row of cells; rows are the unit stored in the screen and scrollback.
#[derive(Debug)]
pub struct Row {
    pub cells: Vec<Cell>,
}

/// A row of `cols` blank cells in the default style.
pub open spec fn blank_row(cols: nat) -> Seq<Cell> {
    Seq::new(cols, |i: int| default_cell())
}

impl Row {
    /// A fresh blank row of the given width.
    pub fn new(cols: usize) -> (r: Row)
        ensures
            r.cells@ == blank_row(cols as nat),
    {
        let mut cells: Vec<Cell> = Vec::new();
        let mut i: usize = 0;
        while i < cols
            invariant
                i <= cols,
                cells@.len() == i,
                forall|k: int| 0 <= k < i ==> cells@[k] == default_cell(),
            decreases cols - i,
        {
            cells.push(Cell::default());
            i = i + 1;
        }
        proof {
            assert(cells@ =~= blank_row(cols as nat));
        }
        Row { cells }
    }

    /// Overwrites the cells in `[start, end)`, both ends clamped to the
    /// row's length, with the given fill cell.
    pub fn clear_range(&mut self, start: usize, end: usize, fill: Cell)
        ensures
            final(self).cells@.len() == old(self).cells@.len(),
            forall|k: int| 0 <= k < old(self).cells@.len() ==>
                final(self).cells@[k] == (if start <= k < end { fill } else { old(self).cells@[k] }),
    {
        let len = self.cells.len();
        let s = if start < len { start } else { len };
        let e0 = if end < len { end } else { len };
        let e = if e0 < s { s } else { e0 };
        let mut i = s;
        while i < e
            invariant
                s <= i <= e <= self.cells@.len(),
                self.cells@.len() == old(self).cells@.len(),
                forall|k: int| 0 <= k < self.cells@.len() ==>
                    self.cells@[k] == (if s <= k < i { fill } else { old(self).cells@[k] }),
            decreases e - i,
        {
            self.cells.set(i, fill);
            i = i + 1;
        }
    }
}

/// A position in the uniform scrollback-then-screen row space.
#[derive(Clone, Copy, Debug, PartialEq, Eq, Structural)]
pub struct Pos {
    pub row: usize,
    pub col: usize,
}

/// Lexicographic order on positions: by row, then by column.
pub open spec fn pos_le(a: Pos, b: Pos) -> bool {
    a.row < b.row || (a.row == b.row && a.col <= b.col)
}

/// A selection: the anchor where it started and the focus where it ends,
/// in either order.
#[derive(Clone, Copy, Debug, PartialEq, Eq, Structural)]
pub struct Selection {
    pub anchor: Pos,
    pub focus: Pos,
}

/// The selection's endpoints in lexicographic order.
pub open spec fn sel_normalized(s: Selection) -> (Pos, Pos) {
    if pos_le(s.anchor, s.focus) { (s.anchor, s.focus) } else { (s.focus, s.anchor) }
}

impl Selection {
    /// Returns the endpoints ordered `(start, end)` lexicographically.
    pub fn normalized(&self) -> (r: (Pos, Pos))
        ensures
            r == sel_normalized(*self),
    {
        if self.anchor.row < self.focus.row
            || (self.anchor.row == self.focus.row && self.anchor.col <= self.focus.col) {
            (self.anchor, self.focus)
        } else {
            (self.focus, self.anchor)
        }
    }
}

/// The shape drawn for the cursor.
#[derive(Clone, Copy, Debug, PartialEq, Eq, Structural)]
pub enum CursorStyle {
    Block,
    Beam,
    Underline,
}

/// The terminal's screen model: the active grid, bounded scrollback,
/// cursor, pending style, selection, view scrolling, and the per-session
/// protocol flags.
pub struct Terminal {
    pub cols: usize,
    pub rows: usize,
    pub screen: Vec<Row>,
    pub scrollback: VecDeque<Row>,
    pub cursor_row: usize,
    pub cursor_col: usize,
    pub style: Style,
    pub selection: Option<Selection>,
    pub view_scroll: usize,
    pub title: String,
    pub title_changed: bool,
    pub cursor_style: CursorStyle,
    pub bell: bool,
    /// Mouse tracking mode: 0 = off, 1000 = normal, 1002 = button, 1003 = any.
    pub mouse_mode: u16,
    /// Mouse encoding: false = normal/X10, true = SGR (mode 1006).
    pub mouse_sgr: bool,
    /// Bracketed paste mode (2004).
    pub bracketed_paste: bool,
    /// Alternate-screen flag (47/1047/1049); tracked, no second buffer.
    pub alt_screen: bool,
    /// Scroll region top, 0-indexed, inclusive.
    pub scroll_top: usize,
    /// Scroll region bottom, 0-indexed, exclusive.
    pub scroll_bottom: usize,
    pub saved_cursor_row: usize,
    pub saved_cursor_col: usize,
    /// Reply bytes owed to the child, for status-report queries.
    pub reply_buf: Vec<u8>,
}

/// The grid-related part of the terminal state, as mathematical values;
/// the printing and scrolling transitions are defined over it.
#[verifier::ext_equal]
pub ghost struct GridState {
    pub cols: nat,
    pub rows: nat,
    pub screen: Seq<Seq<Cell>>,
    pub scrollback: Seq<Seq<Cell>>,
    pub cursor_row: nat,
    pub cursor_col: nat,
    pub style: Style,
    pub view_scroll: nat,
}

/// Appends an evicted screen row to scrollback; at the capacity limit the
/// oldest row leaves first, so the history is a FIFO of at most
/// `SCROLLBACK_LIMIT` rows.
pub open spec fn spec_push_scrollback(sb: Seq<Seq<Cell>>, row: Seq<Cell>) -> Seq<Seq<Cell>> {
    if sb.len() >= SCROLLBACK_LIMIT {
        sb.subrange(sb.len() - (SCROLLBACK_LIMIT - 1), sb.len() as int).push(row)
    } else {
        sb.push(row)
    }
}

/// One scroll step: the top screen row moves into scrollback, the rest
/// shift up, and a blank row enters at the bottom. A viewport scrolled
/// into history keeps its place by following the content, clamped to the
/// new history length.
pub open spec fn spec_scroll_up1(s: GridState) -> GridState {
    let sb = spec_push_scrollback(s.scrollback, s.screen[0]);
    let screen = s.screen.subrange(1, s.screen.len() as int).push(blank_row(s.cols));
    let vs = if s.view_scroll > 0 {
        if s.view_scroll + 1 <= sb.len() { s.view_scroll + 1 } else { sb.len() }
    } else {
        0nat
    };
    GridState { screen, scrollback: sb, view_scroll: vs as nat, ..s }
}

/// `n` scroll steps in order.
pub open spec fn spec_scroll_up(s: GridState, n: nat) -> GridState
    decreases n,
{
    if n == 0 { s } else { spec_scroll_up1(spec_scroll_up(s, (n - 1) as nat)) }
}

/// A line feed: the cursor moves down one row, scrolling when it already
/// stands on the last row.
pub open spec fn spec_line_feed(s: GridState) -> GridState {
    if s.cursor_row + 1 >= s.rows {
        spec_scroll_up1(s)
    } else {
        GridState { cursor_row: s.cursor_row + 1, ..s }
    }
}

/// Writes one cell at `(r, c)` of the screen.
pub open spec fn spec_set_cell(screen: Seq<Seq<Cell>>, r: int, c: int, cell: Cell) -> Seq<Seq<Cell>> {
    screen.update(r, screen[r].update(c, cell))
}

/// Printing one character: control bytes NUL and DEL are ignored; a
/// character whose width does not fit on the rest of the row triggers a
/// carriage return plus line feed first; the glyph then lands at the
/// cursor with the pending style, a double-width glyph writes its
/// continuation cell beside it, and the cursor advances by the width,
/// capped at `cols` to mark the pending-wrap state.
pub open spec fn spec_put_char(s: GridState, ch: char) -> GridState {
    if ch == '\0' || ch == '\u{7f}' {
        s
    } else {
        let w = char_width(ch);
        let t = if s.cursor_col + w > s.cols { spec_line_feed(GridState { cursor_col: 0nat, ..s }) } else { s };
        let glyph = Cell { ch, style: s.style, wide_cont: false };
        let placed = spec_set_cell(t.screen, t.cursor_row as int, t.cursor_col as int, glyph);
        let placed2 = if w == 2 && t.cursor_col + 1 < t.cols {
            spec_set_cell(placed, t.cursor_row as int, t.cursor_col + 1 as int,
                Cell { ch: ' ', style: s.style, wide_cont: true })
        } else {
            placed
        };
        let nc = if t.cursor_col + w <= t.cols { t.cursor_col + w } else { t.cols };
        GridState { screen: placed2, cursor_col: nc as nat, ..t }
    }
}

/// Printing a sequence of characters, one at a time.
pub open spec fn spec_put_seq(s: GridState, cs: Seq<char>) -> GridState
    decreases cs.len(),
{
    if cs.len() == 0 { s } else { spec_put_seq(spec_put_char(s, cs[0]), cs.drop_first()) }
}

impl Terminal {
    /// The grid part of the state as mathematical values.
    pub open spec fn grid_state(self) -> GridState {
        GridState {
            cols: self.cols as nat,
            rows: self.rows as nat,
            screen: self.screen@.map_values(|r: Row| r.cells@),
            scrollback: self.scrollback@.map_values(|r: Row| r.cells@),
            cursor_row: self.cursor_row as nat,
            cursor_col: self.cursor_col as nat,
            style: self.style,
            view_scroll: self.view_scroll as nat,
        }
    }

    /// Number of rows in scrollback plus the active screen.
    pub open spec fn spec_total_lines(self) -> int {
        self.scrollback@.len() + self.screen@.len() as int
    }

    /// The cells of the row with the given global index: scrollback rows
    /// first, then the screen.
    pub open spec fn spec_row_at(self, g: int) -> Seq<Cell> {
        if g < self.scrollback@.len() {
            self.scrollback@[g].cells@
        } else {
            self.screen@[g - self.scrollback@.len()].cells@
        }
    }

    /// The global index of the first row the viewport shows.
    pub open spec fn spec_visible_start(self) -> int {
        let t = self.spec_total_lines();
        if t >= self.rows + self.view_scroll { t - self.rows - self.view_scroll } else { 0 }
    }

    /// Whether a position lies in the uniform row space and column range.
    pub open spec fn pos_in_bounds(self, p: Pos) -> bool {
        p.row < self.spec_total_lines() && p.col < self.cols
    }

    /// The selection, if any, has both endpoints in bounds.
    pub open spec fn sel_wf(self) -> bool {
        match self.selection {
            Some(s) => self.pos_in_bounds(s.anchor) && self.pos_in_bounds(s.focus),
            None => true,
        }
    }

    /// Well-formedness: positive bounded dimensions, a screen of exactly
    /// `rows` rows of exactly `cols` cells, non-empty bounded scrollback
    /// rows, history and view-scroll within their limits, the cursor in
    /// range (the column may equal `cols`: the pending-wrap state), a
    /// valid scroll region, and a clamped selection.
    pub open spec fn wf(self) -> bool {
        &&& 1 <= self.cols <= MAX_DIM
        &&& 1 <= self.rows <= MAX_DIM
        &&& self.screen@.len() == self.rows
        &&& forall|i: int| 0 <= i < self.screen@.len() ==> (#[trigger] self.screen@[i]).cells@.len() == self.cols
        &&& self.scrollback@.len() <= SCROLLBACK_LIMIT
        &&& forall|i: int| 0 <= i < self.scrollback@.len() ==> 1 <= (#[trigger] self.scrollback@[i]).cells@.len() <= MAX_DIM
        &&& self.cursor_row < self.rows
        &&& self.cursor_col <= self.cols
        &&& self.view_scroll <= self.scrollback@.len()
        &&& self.scroll_top < self.scroll_bottom <= self.rows
        &&& self.sel_wf()
    }

    /// Everything outside the grid state is unchanged between two values.
    pub open spec fn same_outside_grid(a: Terminal, b: Terminal) -> bool {
        &&& a.selection == b.selection
        &&& a.title@ == b.title@
        &&& a.title_changed == b.title_changed
        &&& a.cursor_style == b.cursor_style
        &&& a.bell == b.bell
        &&& a.mouse_mode == b.mouse_mode
        &&& a.mouse_sgr == b.mouse_sgr
        &&& a.bracketed_paste == b.bracketed_paste
        &&& a.alt_screen == b.alt_screen
        &&& a.scroll_top == b.scroll_top
        &&& a.scroll_bottom == b.scroll_bottom
        &&& a.saved_cursor_row == b.saved_cursor_row
        &&& a.saved_cursor_col == b.saved_cursor_col
        &&& a.reply_buf@ == b.reply_buf@
    }

    /// A fresh terminal: a blank grid of the requested size (each
    /// dimension raised to at least 1), empty history, the cursor at the
    /// origin, the default style, and every mode off.
    pub fn new(cols: usize, rows: usize) -> (t: Terminal)
        requires
            cols <= MAX_DIM,
            rows <= MAX_DIM,
        ensures
            t.wf(),
            t.cols == if cols >= 1 { cols } else { 1 },
            t.rows == if rows >= 1 { rows } else { 1 },
            t.grid_state().screen == Seq::new(t.rows as nat, |i: int| blank_row(t.cols as nat)),
            t.scrollback@.len() == 0,
            t.cursor_row == 0 && t.cursor_col == 0,
            t.style == default_style(),
            t.selection is None,
            t.view_scroll == 0,
            t.title@ == Seq::<char>::empty(),
            !t.title_changed,
            t.cursor_style == CursorStyle::Block,
            !t.bell,
            t.mouse_mode == 0,
            !t.mouse_sgr,
            !t.bracketed_paste,
            !t.alt_screen,
            t.scroll_top == 0 && t.scroll_bottom == t.rows,
            t.saved_cursor_row == 0 && t.saved_cursor_col == 0,
            t.reply_buf@.len() == 0,
    {
        let cols = if cols >= 1 { cols } else { 1 };
        let rows = if rows >= 1 { rows } else { 1 };
        let mut screen: Vec<Row> = Vec::new();
        let mut i: usize = 0;
        while i < rows
            invariant
                i <= rows,
                screen@.len() == i,
                forall|k: int| 0 <= k < i ==> (#[trigger] screen@[k]).cells@ == blank_row(cols as nat),
            decreases rows - i,
        {
            screen.push(Row::new(cols));
            i = i + 1;
        }
        let t = Terminal {
            cols,
            rows,
            screen,
            scrollback: VecDeque::new(),
            cursor_row: 0,
            cursor_col: 0,
            style: Style::default(),
            selection: None,
            view_scroll: 0,
            title: String::new(),
            title_changed: false,
            cursor_style: CursorStyle::Block,
            bell: false,
            mouse_mode: 0,
            mouse_sgr: false,
            bracketed_paste: false,
            alt_screen: false,
            scroll_top: 0,
            scroll_bottom: rows,
            saved_cursor_row: 0,
            saved_cursor_col: 0,
            reply_buf: Vec::new(),
        };
        proof {
            assert(t.grid_state().screen =~= Seq::new(t.rows as nat, |i: int| blank_row(t.cols as nat)));
        }
        t
    }

    /// The current column count.
    pub fn cols(&self) -> (c: usize)
        ensures
            c == self.cols,
    {
        self.cols
    }

    /// The current row count.
    pub fn rows(&self) -> (r: usize)
        ensures
            r == self.rows,
    {
        self.rows
    }

    /// A blank cell carrying the pending style.
    fn blank_cell(&self) -> (c: Cell)
        ensures
            c == blank_cell_with(self.style),
    {
        Cell { ch: ' ', style: self.style, wide_cont: false }
    }

    /// Drops the selection.
    pub fn clear_selection(&mut self)
        ensures
            *final(self) == (Terminal { selection: None, ..*old(self) }),
    {
        self.selection = None;
    }

    /// The given position clamped into the uniform row space and the
    /// column range.
    pub open spec fn spec_clamp_pos(self, p: Pos) -> Pos {
        let t = self.spec_total_lines();
        let max_row = if t >= 1 { t - 1 } else { 0 };
        let max_col = if self.cols >= 1 { self.cols - 1 } else { 0 };
        Pos {
            row: if p.row <= max_row { p.row } else { max_row as usize },
            col: if p.col <= max_col { p.col } else { max_col as usize },
        }
    }

    /// Starts a selection: both endpoints at the given position, clamped
    /// into bounds.
    pub fn start_selection(&mut self, pos: Pos)
        requires
            old(self).wf(),
        ensures
            final(self).wf(),
            *final(self) == (Terminal {
                selection: Some(Selection {
                    anchor: old(self).spec_clamp_pos(pos),
                    focus: old(self).spec_clamp_pos(pos),
                }),
                ..*old(self)
            }),
    {
        let p = self.clamp_position(pos);
        self.selection = Some(Selection { anchor: p, focus: p });
    }

    /// Moves the selection focus to the given position, clamped into
    /// bounds; without an active selection this changes nothing.
    pub fn update_selection(&mut self, pos: Pos)
        requires
            old(self).wf(),
        ensures
            final(self).wf(),
            old(self).selection matches Some(s) ==> *final(self) == (Terminal {
                selection: Some(Selection { anchor: s.anchor, focus: old(self).spec_clamp_pos(pos) }),
                ..*old(self)
            }),
            old(self).selection is None ==> *final(self) == *old(self),
    {
        let p = self.clamp_position(pos);
        match &self.selection {
            Some(sel) => {
                self.selection = Some(Selection { anchor: sel.anchor, focus: p });
            }
            None => {}
        }
    }

    /// Moves the view offset by `delta`, clamped into
    /// `[0, scrollback.len()]`.
    pub fn set_view_scroll(&mut self, delta: isize)
        requires
            old(self).wf(),
        ensures
            final(self).wf(),
            final(self).view_scroll ==
                spec_clamp_int(old(self).view_scroll + delta, 0, old(self).scrollback@.len() as int),
            *final(self) == (Terminal { view_scroll: final(self).view_scroll, ..*old(self) }),
    {
        let len = self.scrollback.len();
        if delta >= 0 {
            let inc = delta as usize;
            let next = if inc <= len - self.view_scroll { self.view_scroll + inc } else { len };
            self.view_scroll = next;
        } else {
            let dec: usize = if delta == isize::MIN { usize::MAX } else { (-delta) as usize };
            let next = if self.view_scroll >= dec { self.view_scroll - dec } else { 0 };
            self.view_scroll = next;
        }
    }

    /// Returns the viewport to the live screen.
    pub fn reset_view_scroll(&mut self)
        ensures
            *final(self) == (Terminal { view_scroll: 0usize, ..*old(self) }),
    {
        self.view_scroll = 0;
    }

    /// Column returns to 0.
    pub fn carriage_return(&mut self)
        ensures
            *final(self) == (Terminal { cursor_col: 0usize, ..*old(self) }),
    {
        self.cursor_col = 0;
    }

    /// Column moves left one, stopping at 0.
    pub fn backspace(&mut self)
        ensures
            *final(self) == (Terminal {
                cursor_col: if old(self).cursor_col > 0 { (old(self).cursor_col - 1) as usize } else { 0usize },
                ..*old(self)
            }),
    {
        if self.cursor_col > 0 {
            self.cursor_col = self.cursor_col - 1;
        }
    }

    /// Column advances to the next multiple of 8, clamped to the last
    /// column.
    pub fn tab(&mut self)
        requires
            old(self).wf(),
        ensures
            final(self).wf(),
            *final(self) == (Terminal { cursor_col: final(self).cursor_col, ..*old(self) }),
            final(self).cursor_col == spec_min(
                ((old(self).cursor_col / 8 + 1) * 8) as int,
                (old(self).cols - 1) as int,
            ),
    {
        let next = (self.cursor_col / 8 + 1) * 8;
        let limit = self.cols - 1;
        self.cursor_col = if next <= limit { next } else { limit };
    }

    /// Moves the cursor to the given screen position, clamped into the
    /// grid.
    pub fn move_cursor(&mut self, row: usize, col: usize)
        requires
            old(self).wf(),
        ensures
            final(self).wf(),
            final(self).cursor_row == spec_min(row as int, (old(self).rows - 1) as int),
            final(self).cursor_col == spec_min(col as int, (old(self).cols - 1) as int),
            *final(self) == (Terminal {
                cursor_row: final(self).cursor_row,
                cursor_col: final(self).cursor_col,
                ..*old(self)
            }),
    {
        let mr = self.rows - 1;
        let mc = self.cols - 1;
        self.cursor_row = if row <= mr { row } else { mr };
        self.cursor_col = if col <= mc { col } else { mc };
    }

    /// Moves the cursor by a row and column delta, clamped into the grid;
    /// relative motion never scrolls.
    pub fn move_rel(&mut self, dr: isize, dc: isize)
        requires
            old(self).wf(),
        ensures
            final(self).wf(),
            final(self).cursor_row ==
                spec_clamp_int(old(self).cursor_row + dr, 0, (old(self).rows - 1) as int),
            final(self).cursor_col ==
                spec_clamp_int(old(self).cursor_col + dc, 0, (old(self).cols - 1) as int),
            *final(self) == (Terminal {
                cursor_row: final(self).cursor_row,
                cursor_col: final(self).cursor_col,
                ..*old(self)
            }),
    {
        self.cursor_row = add_clamped(self.cursor_row, dr, self.rows - 1);
        self.cursor_col = add_clamped(self.cursor_col, dc, self.cols - 1);
    }

    /// Sets the cursor column, clamped to the last column.
    pub fn set_cursor_col(&mut self, col: usize)
        requires
            old(self).wf(),
        ensures
            final(self).wf(),
            final(self).cursor_col == spec_min(col as int, (old(self).cols - 1) as int),
            *final(self) == (Terminal { cursor_col: final(self).cursor_col, ..*old(self) }),
    {
        let mc = self.cols - 1;
        self.cursor_col = if col <= mc { col } else { mc };
    }

    /// Sets the cursor row, clamped to the last row.
    pub fn set_cursor_row(&mut self, row: usize)
        requires
            old(self).wf(),
        ensures
            final(self).wf(),
            final(self).cursor_row == spec_min(row as int, (old(self).rows - 1) as int),
            *final(self) == (Terminal { cursor_row: final(self).cursor_row, ..*old(self) }),
    {
        let mr = self.rows - 1;
        self.cursor_row = if row <= mr { row } else { mr };
    }

    /// The cursor returns to the origin.
    pub fn home_cursor(&mut self)
        ensures
            *final(self) == (Terminal { cursor_row: 0usize, cursor_col: 0usize, ..*old(self) }),
    {
        self.cursor_row = 0;
        self.cursor_col = 0;
    }

    /// Remembers the cursor position for a later restore.
    pub fn save_cursor(&mut self)
        ensures
            *final(self) == (Terminal {
                saved_cursor_row: old(self).cursor_row,
                saved_cursor_col: old(self).cursor_col,
                ..*old(self)
            }),
    {
        self.saved_cursor_row = self.cursor_row;
        self.saved_cursor_col = self.cursor_col;
    }

    /// Returns the cursor to the saved position, clamped into the current
    /// grid.
    pub fn restore_cursor(&mut self)
        requires
            old(self).wf(),
        ensures
            final(self).wf(),
            final(self).cursor_row == spec_min(old(self).saved_cursor_row as int, (old(self).rows - 1) as int),
            final(self).cursor_col == spec_min(old(self).saved_cursor_col as int, (old(self).cols - 1) as int),
            *final(self) == (Terminal {
                cursor_row: final(self).cursor_row,
                cursor_col: final(self).cursor_col,
                ..*old(self)
            }),
    {
        let mr = self.rows - 1;
        let mc = self.cols - 1;
        self.cursor_row = if self.saved_cursor_row <= mr { self.saved_cursor_row } else { mr };
        self.cursor_col = if self.saved_cursor_col <= mc { self.saved_cursor_col } else { mc };
    }

    /// Whether the viewport shows the live screen, where the cursor is.
    pub fn viewport_contains_cursor(&self) -> (r: bool)
        ensures
            r == (self.view_scroll == 0),
    {
        self.view_scroll == 0
    }

    /// Returns the viewport to the live screen so the cursor is visible.
    pub fn ensure_cursor_visible(&mut self)
        ensures
            *final(self) == (Terminal { view_scroll: 0usize, ..*old(self) }),
    {
        self.view_scroll = 0;
    }

    /// Returns the viewport to the live screen.
    pub fn scroll_view_to_bottom(&mut self)
        ensures
            *final(self) == (Terminal { view_scroll: 0usize, ..*old(self) }),
    {
        self.view_scroll = 0;
    }

    /// The deepest the view can scroll into history.
    pub fn max_view_scroll(&self) -> (r: usize)
        ensures
            r == self.scrollback@.len(),
    {
        self.scrollback.len()
    }

    /// Rows in scrollback plus the screen.
    pub fn total_lines(&self) -> (r: usize)
        requires
            self.wf(),
        ensures
            r == self.spec_total_lines(),
    {
        self.scrollback.len() + self.screen.len()
    }

    /// The global index of the first row the viewport shows.
    pub fn visible_start_global_row(&self) -> (r: usize)
        requires
            self.wf(),
        ensures
            r == self.spec_visible_start(),
    {
        let total = self.scrollback.len() + self.screen.len();
        let off = self.rows + self.view_scroll;
        if total >= off { total - off } else { 0 }
    }

    /// The cursor in global coordinates, its column clamped to the grid.
    pub fn cursor_global_pos(&self) -> (p: Pos)
        requires
            self.wf(),
        ensures
            p.row == self.scrollback@.len() + self.cursor_row,
            p.col == spec_min(self.cursor_col as int, (self.cols - 1) as int),
    {
        let mc = self.cols - 1;
        Pos {
            row: self.scrollback.len() + self.cursor_row,
            col: if self.cursor_col <= mc { self.cursor_col } else { mc },
        }
    }

    /// The cursor's screen position, the column clamped to the grid.
    pub fn cursor_screen_pos(&self) -> (p: (usize, usize))
        requires
            self.wf(),
        ensures
            p.0 == self.cursor_row,
            p.1 == spec_min(self.cursor_col as int, (self.cols - 1) as int),
    {
        let mc = self.cols - 1;
        (self.cursor_row, if self.cursor_col <= mc { self.cursor_col } else { mc })
    }

    /// The view row the cursor stands on, when the live screen is shown.
    pub fn cursor_visible_view_row(&self) -> (r: Option<usize>)
        ensures
            r == (if self.view_scroll == 0 { Some(self.cursor_row) } else { Option::<usize>::None }),
    {
        if self.view_scroll != 0 {
            None
        } else {
            Some(self.cursor_row)
        }
    }

    /// A column clamped to the last grid column.
    pub fn clamp_col(&self, col: usize) -> (r: usize)
        requires
            self.cols >= 1,
        ensures
            r == spec_min(col as int, (self.cols - 1) as int),
    {
        let mc = self.cols - 1;
        if col <= mc { col } else { mc }
    }

    /// A view row clamped to the last screen row.
    pub fn clamp_view_row(&self, row: usize) -> (r: usize)
        requires
            self.rows >= 1,
        ensures
            r == spec_min(row as int, (self.rows - 1) as int),
    {
        let mr = self.rows - 1;
        if row <= mr { row } else { mr }
    }

    /// A global row clamped to the last existing row.
    pub fn clamp_global_row(&self, row: usize) -> (r: usize)
        requires
            1 <= self.spec_total_lines() <= usize::MAX,
        ensures
            r == spec_min(row as int, self.spec_total_lines() - 1),
    {
        let m = self.scrollback.len() + self.screen.len() - 1;
        if row <= m { row } else { m }
    }

    /// A position clamped into the uniform row space and column range.
    pub fn clamp_position(&self, pos: Pos) -> (r: Pos)
        requires
            self.cols >= 1,
            1 <= self.spec_total_lines() <= usize::MAX,
        ensures
            r == self.spec_clamp_pos(pos),
            self.pos_in_bounds(r),
    {
        let max_row = self.scrollback.len() + self.screen.len() - 1;
        let max_col = self.cols - 1;
        Pos {
            row: if pos.row <= max_row { pos.row } else { max_row },
            col: if pos.col <= max_col { pos.col } else { max_col },
        }
    }

    /// The global index of the last row the viewport shows.
    pub fn last_visible_global_row(&self) -> (r: usize)
        requires
            self.wf(),
        ensures
            r == self.spec_visible_start() + self.rows - 1,
    {
        self.visible_start_global_row() + (self.rows - 1)
    }

    /// The first and last global rows the viewport shows.
    pub fn visible_range(&self) -> (r: (usize, usize))
        requires
            self.wf(),
        ensures
            r.0 == self.spec_visible_start(),
            r.1 == self.spec_visible_start() + self.rows - 1,
    {
        let start = self.visible_start_global_row();
        (start, start + (self.rows - 1))
    }

    /// The global row shown at a view row, the view row clamped to the
    /// screen.
    pub fn visible_global_row_for_view(&self, view_row: usize) -> (r: usize)
        requires
            self.wf(),
        ensures
            r == self.spec_visible_start() + spec_min(view_row as int, (self.rows - 1) as int),
    {
        self.visible_start_global_row() + self.clamp_view_row(view_row)
    }

    /// Sets the window title and raises the title-changed flag.
    pub fn append_osc_title(&mut self, title: &str)
        ensures
            *final(self) == (Terminal {
                title: final(self).title,
                title_changed: true,
                ..*old(self)
            }),
            final(self).title@ == title@,
    {
        self.title = title.to_owned();
        self.title_changed = true;
    }
}

/// The cells of `post` equal those of `pre`, with `[s, e)` replaced by
/// `fill`.
pub open spec fn row_filled_range(pre: Seq<Cell>, post: Seq<Cell>, s: int, e: int, fill: Cell) -> bool {
    &&& post.len() == pre.len()
    &&& forall|k: int| 0 <= k < pre.len() ==>
        post[k] == (if s <= k < e { fill } else { pre[k] })
}

/// The screens of two terminals agree on every row but `r`.
pub open spec fn screen_eq_except_row(pre: Terminal, post: Terminal, r: int) -> bool {
    &&& post.screen@.len() == pre.screen@.len()
    &&& forall|i: int| 0 <= i < pre.screen@.len() && i != r ==>
        (#[trigger] post.screen@[i]).cells@ == pre.screen@[i].cells@
}

impl Terminal {
    /// Whether `(g, c)` lies inside the selection: strictly between the
    /// normalized endpoint rows, or on a boundary row within the right
    /// column range.
    pub open spec fn spec_is_selected(self, g: int, c: int) -> bool {
        match self.selection {
            None => false,
            Some(s) => {
                let ab = sel_normalized(s);
                let a = ab.0;
                let b = ab.1;
                if g < a.row || g > b.row {
                    false
                } else if a.row == b.row {
                    c >= a.col && c <= b.col && g == a.row
                } else if g == a.row {
                    c >= a.col
                } else if g == b.row {
                    c <= b.col
                } else {
                    true
                }
            }
        }
    }

    /// Selection membership test for one cell, by global row and column.
    pub fn is_selected(&self, global_row: usize, col: usize) -> (r: bool)
        ensures
            r == self.spec_is_selected(global_row as int, col as int),
    {
        let sel = match self.selection {
            Some(s) => s,
            None => { return false; }
        };
        let (a, b) = sel.normalized();
        if global_row < a.row || global_row > b.row {
            return false;
        }
        if a.row == b.row {
            return col >= a.col && col <= b.col && global_row == a.row;
        }
        if global_row == a.row {
            return col >= a.col;
        }
        if global_row == b.row {
            return col <= b.col;
        }
        true
    }

    /// The normalized selection endpoints, if a selection exists.
    pub fn selection_bounds(&self) -> (r: Option<(Pos, Pos)>)
        ensures
            r == match self.selection {
                Some(s) => Some(sel_normalized(s)),
                None => Option::<(Pos, Pos)>::None,
            },
    {
        match self.selection {
            Some(s) => Some(s.normalized()),
            None => None,
        }
    }

    /// The normalized selection endpoints, if a selection exists.
    pub fn normalized_selection(&self) -> (r: Option<(Pos, Pos)>)
        ensures
            r == match self.selection {
                Some(s) => Some(sel_normalized(s)),
                None => Option::<(Pos, Pos)>::None,
            },
    {
        self.selection_bounds()
    }

    /// Whether a selection exists and spans more than a single position.
    pub fn selection_non_empty(&self) -> (r: bool)
        ensures
            r == match self.selection {
                Some(s) => sel_normalized(s).0 != sel_normalized(s).1,
                None => false,
            },
    {
        match self.selection_bounds() {
            Some((a, b)) => a.row != b.row || a.col != b.col,
            None => false,
        }
    }

    /// Whether the selection touches the given global row.
    pub fn selection_contains_row(&self, row: usize) -> (r: bool)
        ensures
            r == match self.selection {
                Some(s) => sel_normalized(s).0.row <= row <= sel_normalized(s).1.row,
                None => false,
            },
    {
        match self.selection_bounds() {
            Some((a, b)) => row >= a.row && row <= b.row,
            None => false,
        }
    }

    /// The row with the given global index: scrollback first, then the
    /// screen; `None` past the end.
    pub fn line_at_global(&self, row: usize) -> (r: Option<&Row>)
        requires
            self.wf(),
        ensures
            r is Some <==> row < self.spec_total_lines(),
            r matches Some(x) ==> x.cells@ == self.spec_row_at(row as int),
    {
        if row < self.scrollback.len() {
            Some(&self.scrollback[row])
        } else if row - self.scrollback.len() < self.screen.len() {
            Some(&self.screen[row - self.scrollback.len()])
        } else {
            None
        }
    }

    /// The row shown at a viewport-relative index.
    pub fn visible_line(&self, view_row: usize) -> (r: Option<&Row>)
        requires
            self.wf(),
        ensures
            r is Some <==> self.spec_visible_start() + view_row < self.spec_total_lines(),
            r matches Some(x) ==> x.cells@ == self.spec_row_at(self.spec_visible_start() + view_row),
    {
        let total = self.total_lines();
        if view_row >= total {
            None
        } else {
            self.line_at_global(self.visible_start_global_row() + view_row)
        }
    }

    /// The global position a viewport click lands on, clamped into
    /// bounds.
    pub fn pos_for_view(&self, view_row: usize, col: usize) -> (p: Pos)
        requires
            self.wf(),
        ensures
            p.row == spec_min(self.spec_visible_start() + view_row, self.spec_total_lines() - 1),
            p.col == spec_min(col as int, (self.cols - 1) as int),
            self.pos_in_bounds(p),
    {
        let total = self.total_lines();
        let max_row = total - 1;
        let start = self.visible_start_global_row();
        let row = if view_row >= total { max_row } else {
            let g = start + view_row;
            if g <= max_row { g } else { max_row }
        };
        let max_col = self.cols - 1;
        Pos { row, col: if col <= max_col { col } else { max_col } }
    }

    /// Erase in line: fills part of the cursor's row with blanks carrying
    /// the pending style. Mode 0 erases from the cursor to the end of the
    /// line, 1 from the start through the cursor, 2 the whole line; other
    /// modes change nothing.
    pub fn erase_in_line(&mut self, mode: usize)
        requires
            old(self).wf(),
        ensures
            final(self).wf(),
            *final(self) == (Terminal { screen: final(self).screen, ..*old(self) }),
            screen_eq_except_row(*old(self), *final(self), old(self).cursor_row as int),
            mode == 0 ==> row_filled_range(
                old(self).screen@[old(self).cursor_row as int].cells@,
                final(self).screen@[old(self).cursor_row as int].cells@,
                old(self).cursor_col as int, old(self).cols as int,
                blank_cell_with(old(self).style)),
            mode == 1 ==> row_filled_range(
                old(self).screen@[old(self).cursor_row as int].cells@,
                final(self).screen@[old(self).cursor_row as int].cells@,
                0, old(self).cursor_col + 1 as int,
                blank_cell_with(old(self).style)),
            mode == 2 ==> row_filled_range(
                old(self).screen@[old(self).cursor_row as int].cells@,
                final(self).screen@[old(self).cursor_row as int].cells@,
                0, old(self).cols as int,
                blank_cell_with(old(self).style)),
            mode >= 3 ==> *final(self) == *old(self),
    {
        let fill = self.blank_cell();
        let r = self.cursor_row;
        let cols = self.cols;
        let ccol = self.cursor_col;
        if mode == 0 {
            self.screen[r].clear_range(ccol, cols, fill);
        } else if mode == 1 {
            self.screen[r].clear_range(0, ccol + 1, fill);
        } else if mode == 2 {
            self.screen[r].clear_range(0, cols, fill);
        }
    }

    /// Erase characters: fills `count` cells from the cursor, clamped to
    /// the end of the row, with blanks carrying the pending style.
    pub fn erase_chars(&mut self, count: usize)
        requires
            old(self).wf(),
        ensures
            final(self).wf(),
            *final(self) == (Terminal { screen: final(self).screen, ..*old(self) }),
            screen_eq_except_row(*old(self), *final(self), old(self).cursor_row as int),
            row_filled_range(
                old(self).screen@[old(self).cursor_row as int].cells@,
                final(self).screen@[old(self).cursor_row as int].cells@,
                old(self).cursor_col as int,
                spec_min(old(self).cursor_col + count, old(self).cols as int),
                blank_cell_with(old(self).style)),
    {
        let fill = self.blank_cell();
        let r = self.cursor_row;
        let end = if count >= self.cols - self.cursor_col { self.cols } else { self.cursor_col + count };
        let ccol = self.cursor_col;
        self.screen[r].clear_range(ccol, end, fill);
    }
}

impl Terminal {
    /// One row scrolls out of the top of the screen into scrollback, `lines`
    /// times over; the history keeps at most `SCROLLBACK_LIMIT` rows,
    /// evicting the oldest first, and a view scrolled into history follows
    /// the content.
    fn scroll_up(&mut self, lines: usize)
        requires
            old(self).wf(),
        ensures
            final(self).wf(),
            final(self).grid_state() == spec_scroll_up(old(self).grid_state(), lines as nat),
            Terminal::same_outside_grid(*old(self), *final(self)),
    {
        let mut k: usize = 0;
        while k < lines
            invariant
                self.wf(),
                k <= lines,
                self.grid_state() == spec_scroll_up(old(self).grid_state(), k as nat),
                Terminal::same_outside_grid(*old(self), *self),
            decreases lines - k,
        {
            let ghost pre = self.grid_state();
            let first = self.screen.remove(0);
            if self.scrollback.len() >= SCROLLBACK_LIMIT {
                let _ = self.scrollback.pop_front();
            }
            self.scrollback.push_back(first);
            let cols = self.cols;
            self.screen.push(Row::new(cols));
            if self.view_scroll > 0 {
                let len = self.scrollback.len();
                let next = self.view_scroll + 1;
                self.view_scroll = if next <= len { next } else { len };
            }
            proof {
                let post = spec_scroll_up1(pre);
                assert(self.grid_state().screen =~~= post.screen);
                assert(self.grid_state().scrollback =~~= post.scrollback);
                assert(self.grid_state() =~~= post);
                assert(spec_scroll_up(old(self).grid_state(), (k + 1) as nat)
                    == spec_scroll_up1(spec_scroll_up(old(self).grid_state(), k as nat)));
            }
            k = k + 1;
        }
    }

    /// A line feed: the cursor moves down one row, or the screen scrolls
    /// when the cursor already stands on the last row.
    pub fn line_feed(&mut self)
        requires
            old(self).wf(),
        ensures
            final(self).wf(),
            final(self).grid_state() == spec_line_feed(old(self).grid_state()),
            Terminal::same_outside_grid(*old(self), *final(self)),
    {
        if self.cursor_row + 1 >= self.rows {
            self.scroll_up(1);
            proof {
                assert(spec_scroll_up(old(self).grid_state(), 1nat)
                    == spec_scroll_up1(spec_scroll_up(old(self).grid_state(), 0nat)));
            }
        } else {
            self.cursor_row = self.cursor_row + 1;
            proof {
                assert(self.grid_state() =~~= spec_line_feed(old(self).grid_state()));
            }
        }
    }

    /// A next-line control: a line feed followed by a carriage return.
    pub fn next_line(&mut self)
        requires
            old(self).wf(),
        ensures
            final(self).wf(),
            final(self).grid_state() == (GridState { cursor_col: 0nat, ..spec_line_feed(old(self).grid_state()) }),
            Terminal::same_outside_grid(*old(self), *final(self)),
    {
        self.line_feed();
        self.carriage_return();
        proof {
            assert(self.grid_state() =~~= (GridState { cursor_col: 0nat, ..spec_line_feed(old(self).grid_state()) }));
        }
    }

    /// Scrolls the screen up `lines` rows, feeding scrollback.
    pub fn scroll_up_lines(&mut self, lines: usize)
        requires
            old(self).wf(),
        ensures
            final(self).wf(),
            final(self).grid_state() == spec_scroll_up(old(self).grid_state(), lines as nat),
            Terminal::same_outside_grid(*old(self), *final(self)),
    {
        self.scroll_up(lines);
    }

    /// Scrolls the screen down: `lines` rows (clamped to the screen
    /// height) leave at the bottom and blank rows enter at the top;
    /// scrollback is not involved.
    pub fn scroll_down_lines(&mut self, lines: usize)
        requires
            old(self).wf(),
        ensures
            final(self).wf(),
            *final(self) == (Terminal { screen: final(self).screen, ..*old(self) }),
            final(self).screen@.len() == old(self).screen@.len(),
            forall|i: int| 0 <= i < old(self).screen@.len() ==>
                (#[trigger] final(self).screen@[i]).cells@ == (
                    if i < spec_min(lines as int, old(self).rows as int) {
                        blank_row(old(self).cols as nat)
                    } else {
                        old(self).screen@[i - spec_min(lines as int, old(self).rows as int)].cells@
                    }),
    {
        let n = if lines <= self.rows { lines } else { self.rows };
        let mut k: usize = 0;
        while k < n
            invariant
                k <= n,
                n <= self.rows,
                self.wf(),
                *self == (Terminal { screen: self.screen, ..*old(self) }),
                self.screen@.len() == old(self).screen@.len(),
                self.cols == old(self).cols,
                self.rows == old(self).rows,
                forall|i: int| 0 <= i < self.screen@.len() ==>
                    (#[trigger] self.screen@[i]).cells@ == (
                        if i < k { blank_row(old(self).cols as nat) }
                        else { old(self).screen@[i - k].cells@ }),
            decreases n - k,
        {
            let _ = self.screen.pop();
            let cols = self.cols;
            self.screen.insert(0, Row::new(cols));
            k = k + 1;
        }
    }
}

/// Well-formedness of a grid state on its own: positive dimensions, a
/// screen of `rows` rows of `cols` cells, and the cursor in range with
/// the pending-wrap column allowed.
pub open spec fn gs_wf(s: GridState) -> bool {
    &&& 1 <= s.cols
    &&& 1 <= s.rows
    &&& s.screen.len() == s.rows
    &&& forall|i: int| 0 <= i < s.screen.len() ==> (#[trigger] s.screen[i]).len() == s.cols
    &&& s.cursor_row < s.rows
    &&& s.cursor_col <= s.cols
}

impl Terminal {
    /// Prints one character at the cursor, with autowrap, double-width
    /// handling, and the pending style, as `spec_put_char` lays down.
    pub fn put_char(&mut self, ch: char)
        requires
            old(self).wf(),
        ensures
            final(self).wf(),
            final(self).grid_state() == spec_put_char(old(self).grid_state(), ch),
            Terminal::same_outside_grid(*old(self), *final(self)),
    {
        if ch == '\0' || ch == '\u{7f}' {
            return;
        }
        let w = char_width_exec(ch);
        let ghost s0 = old(self).grid_state();
        if self.cursor_col + w > self.cols {
            self.cursor_col = 0;
            proof {
                assert(self.grid_state() =~~= (GridState { cursor_col: 0nat, ..s0 }));
            }
            self.line_feed();
        }
        let ghost t = self.grid_state();
        let r = self.cursor_row;
        let c = self.cursor_col;
        let glyph = Cell { ch, style: self.style, wide_cont: false };
        self.screen[r].cells.set(c, glyph);
        if w == 2 && c + 1 < self.cols {
            let cont = Cell { ch: ' ', style: self.style, wide_cont: true };
            self.screen[r].cells.set(c + 1, cont);
        }
        let nc = if c + w <= self.cols { c + w } else { self.cols };
        self.cursor_col = nc;
        proof {
            let post = spec_put_char(s0, ch);
            assert(self.grid_state().screen =~~= post.screen);
            assert(self.grid_state() =~~= post);
        }
    }

    /// Prints every character of the string in order.
    pub fn place_str(&mut self, s: &str)
        requires
            old(self).wf(),
        ensures
            final(self).wf(),
            final(self).grid_state() == spec_put_seq(old(self).grid_state(), s@),
            Terminal::same_outside_grid(*old(self), *final(self)),
    {
        let cs = crate::text::str_chars(s);
        let mut i: usize = 0;
        while i < cs.len()
            invariant
                self.wf(),
                i <= cs@.len(),
                cs@ == s@,
                self.grid_state() == spec_put_seq(old(self).grid_state(), s@.subrange(0, i as int)),
                Terminal::same_outside_grid(*old(self), *self),
            decreases cs@.len() - i,
        {
            let ch = cs[i];
            self.put_char(ch);
            proof {
                lemma_put_seq_snoc(old(self).grid_state(), s@.subrange(0, i as int), s@[i as int]);
                assert(s@.subrange(0, i as int).push(s@[i as int]) =~= s@.subrange(0, (i + 1) as int));
            }
            i = i + 1;
        }
        proof {
            assert(s@.subrange(0, s@.len() as int) =~= s@);
        }
    }
}

/// Printing a sequence one character at a time equals printing its prefix
/// and then its last character.
pub proof fn lemma_put_seq_snoc(s: GridState, cs: Seq<char>, c: char)
    ensures
        spec_put_seq(s, cs.push(c)) == spec_put_char(spec_put_seq(s, cs), c),
    decreases cs.len(),
{
    if cs.len() == 0 {
        assert(cs.push(c)[0] == c);
        assert(cs.push(c).drop_first() =~= Seq::<char>::empty());
        assert(spec_put_seq(spec_put_char(s, c), Seq::<char>::empty()) == spec_put_char(s, c));
        assert(spec_put_seq(s, cs) == s);
    } else {
        assert(cs.push(c)[0] == cs[0]);
        assert(cs.push(c).drop_first() =~= cs.drop_first().push(c));
        lemma_put_seq_snoc(spec_put_char(s, cs[0]), cs.drop_first(), c);
        assert(spec_put_seq(s, cs.push(c))
            == spec_put_seq(spec_put_char(s, cs[0]), cs.drop_first().push(c)));
        assert(spec_put_seq(s, cs) == spec_put_seq(spec_put_char(s, cs[0]), cs.drop_first()));
    }
}

/// Law: a printable character is placed at the cursor position before any
/// cursor advance exactly when its width still fits the row
/// (`cursor_col + width <= cols`); otherwise a carriage return and line
/// feed happen first and it is placed at the start of the resulting line.
pub proof fn lemma_put_char_placement(s: GridState, ch: char)
    requires
        gs_wf(s),
        ch != '\0',
        ch != '\u{7f}',
    ensures
        s.cursor_col + char_width(ch) <= s.cols ==> {
            let t = spec_put_char(s, ch);
            &&& t.cursor_row == s.cursor_row
            &&& t.scrollback == s.scrollback
            &&& t.screen[s.cursor_row as int][s.cursor_col as int]
                == (Cell { ch, style: s.style, wide_cont: false })
            &&& t.cursor_col == s.cursor_col + char_width(ch)
        },
        s.cursor_col + char_width(ch) > s.cols ==> {
            let lf = spec_line_feed(GridState { cursor_col: 0nat, ..s });
            let t = spec_put_char(s, ch);
            &&& t.cursor_row == lf.cursor_row
            &&& t.scrollback == lf.scrollback
            &&& t.screen[lf.cursor_row as int][0]
                == (Cell { ch, style: s.style, wide_cont: false })
        },
{
}

/// Law: a double-width character that no longer fits at the end of a row
/// wraps whole to the next line — it is never split across rows — and its
/// continuation cell sits directly to the right of the glyph, marked as a
/// non-rendered placeholder.
pub proof fn lemma_wide_char_no_split(s: GridState, ch: char)
    requires
        gs_wf(s),
        ch != '\0',
        ch != '\u{7f}',
        char_width(ch) == 2,
        s.cols >= 2,
    ensures
        ({
            let fits = s.cursor_col + 2 <= s.cols;
            let t = spec_put_char(s, ch);
            let r = if fits { s.cursor_row as int } else { spec_line_feed(GridState { cursor_col: 0nat, ..s }).cursor_row as int };
            let c = if fits { s.cursor_col as int } else { 0 };
            &&& c + 2 <= s.cols
            &&& t.screen[r][c] == (Cell { ch, style: s.style, wide_cont: false })
            &&& t.screen[r][c + 1] == (Cell { ch: ' ', style: s.style, wide_cont: true })
        }),
{
}

/// Law: every well-formed terminal keeps its history within the
/// scrollback limit and its view offset within the history.
pub proof fn lemma_history_bounds(t: Terminal)
    requires
        t.wf(),
    ensures
        t.scrollback@.len() <= SCROLLBACK_LIMIT,
        t.view_scroll <= t.scrollback@.len(),
{
}

/// Law: feeding a row into scrollback keeps the history within its limit;
/// below the limit the row is appended, and at the limit exactly the
/// oldest row is evicted while the rest keep their order.
pub proof fn lemma_scrollback_fifo(sb: Seq<Seq<Cell>>, row: Seq<Cell>)
    requires
        sb.len() <= SCROLLBACK_LIMIT,
    ensures
        spec_push_scrollback(sb, row).len() <= SCROLLBACK_LIMIT,
        sb.len() < SCROLLBACK_LIMIT ==> spec_push_scrollback(sb, row) == sb.push(row),
        sb.len() == SCROLLBACK_LIMIT ==> spec_push_scrollback(sb, row)
            == sb.subrange(1, sb.len() as int).push(row),
{
}

impl Terminal {
    /// The selection with both endpoints clamped into the bounds of
    /// `self`, when one exists.
    pub open spec fn spec_clamped_selection(self, sel: Option<Selection>) -> Option<Selection> {
        match sel {
            None => None,
            Some(s) => Some(Selection {
                anchor: self.spec_clamp_pos(s.anchor),
                focus: self.spec_clamp_pos(s.focus),
            }),
        }
    }

    /// Re-clamps the selection into the current bounds.
    fn reclamp_selection(&mut self)
        requires
            old(self).cols >= 1,
            1 <= old(self).spec_total_lines() <= usize::MAX,
        ensures
            *final(self) == (Terminal {
                selection: old(self).spec_clamped_selection(old(self).selection),
                ..*old(self)
            }),
            final(self).sel_wf(),
    {
        let sel = self.selection;
        match sel {
            Some(s) => {
                let a = self.clamp_position(s.anchor);
                let f = self.clamp_position(s.focus);
                self.selection = Some(Selection { anchor: a, focus: f });
            }
            None => {}
        }
    }

    /// Erase in display: fills part of the screen with blanks carrying
    /// the pending style. Mode 0 erases from the cursor to the end of the
    /// screen, 1 from the start through the cursor, 2 the whole screen,
    /// and 3 the whole screen plus all of scrollback; other modes change
    /// nothing. Modes 0, 1 and 2 never touch scrollback.
    pub fn erase_in_display(&mut self, mode: usize)
        requires
            old(self).wf(),
        ensures
            final(self).wf(),
            mode < 3 ==> *final(self) == (Terminal { screen: final(self).screen, ..*old(self) }),
            mode < 4 ==> final(self).screen@.len() == old(self).screen@.len(),
            mode == 0 ==> forall|i: int| 0 <= i < old(self).screen@.len() ==>
                row_filled_range(
                    old(self).screen@[i].cells@,
                    (#[trigger] final(self).screen@[i]).cells@,
                    if i < old(self).cursor_row { old(self).cols as int }
                        else if i == old(self).cursor_row { old(self).cursor_col as int }
                        else { 0 },
                    if i < old(self).cursor_row { 0 } else { old(self).cols as int },
                    blank_cell_with(old(self).style)),
            mode == 1 ==> forall|i: int| 0 <= i < old(self).screen@.len() ==>
                row_filled_range(
                    old(self).screen@[i].cells@,
                    (#[trigger] final(self).screen@[i]).cells@,
                    0,
                    if i < old(self).cursor_row { old(self).cols as int }
                        else if i == old(self).cursor_row { old(self).cursor_col + 1 as int }
                        else { 0 },
                    blank_cell_with(old(self).style)),
            mode == 2 || mode == 3 ==> forall|i: int| 0 <= i < old(self).screen@.len() ==>
                row_filled_range(
                    old(self).screen@[i].cells@,
                    (#[trigger] final(self).screen@[i]).cells@,
                    0, old(self).cols as int,
                    blank_cell_with(old(self).style)),
            mode == 3 ==> {
                &&& final(self).scrollback@.len() == 0
                &&& final(self).view_scroll == 0
                &&& *final(self) == (Terminal {
                    screen: final(self).screen,
                    scrollback: final(self).scrollback,
                    view_scroll: 0usize,
                    selection: final(self).selection,
                    ..*old(self)
                })
            },
            mode >= 4 ==> *final(self) == *old(self),
    {
        let fill = self.blank_cell();
        let cols = self.cols;
        if mode == 0 {
            let r0 = self.cursor_row;
            let ccol = self.cursor_col;
            self.screen[r0].clear_range(ccol, cols, fill);
            let mut r = r0 + 1;
            while r < self.rows
                invariant
                    old(self).cursor_row < r <= self.rows,
                    self.wf(),
                    cols == old(self).cols,
                    fill == blank_cell_with(old(self).style),
                    *self == (Terminal { screen: self.screen, ..*old(self) }),
                    self.screen@.len() == old(self).screen@.len(),
                    forall|i: int| 0 <= i < self.screen@.len() ==>
                        row_filled_range(
                            old(self).screen@[i].cells@,
                            (#[trigger] self.screen@[i]).cells@,
                            if i < old(self).cursor_row { old(self).cols as int }
                                else if i == old(self).cursor_row { old(self).cursor_col as int }
                                else { 0 },
                            if i < old(self).cursor_row { 0 }
                                else if i < r { old(self).cols as int }
                                else { 0 },
                            blank_cell_with(old(self).style)),
                decreases self.rows - r,
            {
                self.screen[r].clear_range(0, cols, fill);
                r = r + 1;
            }
        } else if mode == 1 {
            let r0 = self.cursor_row;
            let mut r: usize = 0;
            while r < r0
                invariant
                    r <= r0,
                    r0 == old(self).cursor_row,
                    self.wf(),
                    cols == old(self).cols,
                    fill == blank_cell_with(old(self).style),
                    *self == (Terminal { screen: self.screen, ..*old(self) }),
                    self.screen@.len() == old(self).screen@.len(),
                    forall|i: int| 0 <= i < self.screen@.len() ==>
                        row_filled_range(
                            old(self).screen@[i].cells@,
                            (#[trigger] self.screen@[i]).cells@,
                            0,
                            if i < r { old(self).cols as int } else { 0 },
                            blank_cell_with(old(self).style)),
                decreases r0 - r,
            {
                self.screen[r].clear_range(0, cols, fill);
                r = r + 1;
            }
            let ccol = self.cursor_col;
            self.screen[r0].clear_range(0, ccol + 1, fill);
        } else if mode == 2 || mode == 3 {
            let mut r: usize = 0;
            while r < self.rows
                invariant
                    r <= self.rows,
                    self.wf(),
                    cols == old(self).cols,
                    fill == blank_cell_with(old(self).style),
                    *self == (Terminal { screen: self.screen, ..*old(self) }),
                    self.screen@.len() == old(self).screen@.len(),
                    forall|i: int| 0 <= i < self.screen@.len() ==>
                        row_filled_range(
                            old(self).screen@[i].cells@,
                            (#[trigger] self.screen@[i]).cells@,
                            0,
                            if i < r { old(self).cols as int } else { 0 },
                            blank_cell_with(old(self).style)),
                decreases self.rows - r,
            {
                self.screen[r].clear_range(0, cols, fill);
                r = r + 1;
            }
            if mode == 3 {
                self.scrollback.clear();
                self.view_scroll = 0;
                self.reclamp_selection();
            }
        }
    }

    /// Clears the whole screen to blanks carrying the pending style and
    /// returns the cursor to the origin; scrollback is untouched.
    pub fn clear_all(&mut self)
        requires
            old(self).wf(),
        ensures
            final(self).wf(),
            *final(self) == (Terminal {
                screen: final(self).screen,
                cursor_row: 0usize,
                cursor_col: 0usize,
                ..*old(self)
            }),
            final(self).screen@.len() == old(self).screen@.len(),
            forall|i: int| 0 <= i < old(self).screen@.len() ==>
                row_filled_range(
                    old(self).screen@[i].cells@,
                    (#[trigger] final(self).screen@[i]).cells@,
                    0, old(self).cols as int,
                    blank_cell_with(old(self).style)),
    {
        let fill = self.blank_cell();
        let cols = self.cols;
        let mut r: usize = 0;
        while r < self.rows
            invariant
                r <= self.rows,
                self.wf(),
                cols == old(self).cols,
                fill == blank_cell_with(old(self).style),
                *self == (Terminal { screen: self.screen, ..*old(self) }),
                self.screen@.len() == old(self).screen@.len(),
                forall|i: int| 0 <= i < self.screen@.len() ==>
                    row_filled_range(
                        old(self).screen@[i].cells@,
                        (#[trigger] self.screen@[i]).cells@,
                        0,
                        if i < r { old(self).cols as int } else { 0 },
                        blank_cell_with(old(self).style)),
            decreases self.rows - r,
        {
            self.screen[r].clear_range(0, cols, fill);
            r = r + 1;
        }
        self.cursor_row = 0;
        self.cursor_col = 0;
    }

    /// Empties scrollback, returns the view to the live screen, and
    /// re-clamps the selection into what remains.
    pub fn clear_scrollback(&mut self)
        requires
            old(self).wf(),
        ensures
            final(self).wf(),
            final(self).scrollback@.len() == 0,
            *final(self) == (Terminal {
                scrollback: final(self).scrollback,
                view_scroll: 0usize,
                selection: final(self).selection,
                ..*old(self)
            }),
            final(self).selection == final(self).spec_clamped_selection(old(self).selection),
    {
        self.scrollback.clear();
        self.view_scroll = 0;
        self.reclamp_selection();
    }

    /// Sets the scroll region to `[top, bottom)`, the bottom clamped to
    /// the screen; an empty or inverted range leaves the region as it
    /// was. The cursor returns to the origin either way.
    pub fn set_scroll_region(&mut self, top: usize, bottom: usize)
        requires
            old(self).wf(),
        ensures
            final(self).wf(),
            ({
                let b = spec_min(bottom as int, old(self).rows as int);
                *final(self) == (Terminal {
                    scroll_top: if top < b { top } else { old(self).scroll_top },
                    scroll_bottom: if top < b { b as usize } else { old(self).scroll_bottom },
                    cursor_row: 0usize,
                    cursor_col: 0usize,
                    ..*old(self)
                })
            }),
    {
        let b = if bottom <= self.rows { bottom } else { self.rows };
        if top < b {
            self.scroll_top = top;
            self.scroll_bottom = b;
        }
        self.cursor_row = 0;
        self.cursor_col = 0;
    }

    /// Reverse index: the cursor moves up one row; standing on the top of
    /// the scroll region instead scrolls the region down, a blank row
    /// entering at its top and its bottom row leaving — a region-local
    /// scroll that never touches scrollback.
    pub fn reverse_index(&mut self)
        requires
            old(self).wf(),
        ensures
            final(self).wf(),
            old(self).cursor_row == old(self).scroll_top
                && old(self).scroll_bottom > old(self).scroll_top + 1 ==> {
                &&& *final(self) == (Terminal { screen: final(self).screen, ..*old(self) })
                &&& final(self).screen@.len() == old(self).screen@.len()
                &&& forall|i: int| 0 <= i < old(self).screen@.len() ==>
                    (#[trigger] final(self).screen@[i]).cells@ == (
                        if i < old(self).scroll_top || i >= old(self).scroll_bottom {
                            old(self).screen@[i].cells@
                        } else if i == old(self).scroll_top {
                            blank_row(old(self).cols as nat)
                        } else {
                            old(self).screen@[i - 1].cells@
                        })
            },
            old(self).cursor_row == old(self).scroll_top
                && old(self).scroll_bottom <= old(self).scroll_top + 1 ==>
                *final(self) == *old(self),
            old(self).cursor_row != old(self).scroll_top && old(self).cursor_row > 0 ==>
                *final(self) == (Terminal {
                    cursor_row: (old(self).cursor_row - 1) as usize,
                    ..*old(self)
                }),
            old(self).cursor_row != old(self).scroll_top && old(self).cursor_row == 0 ==>
                *final(self) == *old(self),
    {
        if self.cursor_row == self.scroll_top {
            let bottom = if self.scroll_bottom <= self.rows { self.scroll_bottom } else { self.rows };
            if bottom > self.scroll_top + 1 {
                let _ = self.screen.remove(bottom - 1);
                let st = self.scroll_top;
                let cols = self.cols;
                self.screen.insert(st, Row::new(cols));
            }
        } else if self.cursor_row > 0 {
            self.cursor_row = self.cursor_row - 1;
        }
    }

    /// Moves the view by whole pages of `rows` lines, clamped into
    /// `[0, scrollback.len()]`.
    pub fn scroll_view_page(&mut self, pages: isize)
        requires
            old(self).wf(),
        ensures
            final(self).wf(),
            final(self).view_scroll == spec_clamp_int(
                old(self).view_scroll + pages * old(self).rows,
                0,
                old(self).scrollback@.len() as int),
            *final(self) == (Terminal { view_scroll: final(self).view_scroll, ..*old(self) }),
    {
        let len = self.scrollback.len();
        proof {
            assert((pages as i128) * (self.rows as i128) <= 0x7fffffffffffffffi128 * 0x10000i128
                && (pages as i128) * (self.rows as i128) >= (-0x8000000000000000i128) * 0x10000i128)
                by (nonlinear_arith)
                requires
                    -0x8000000000000000i128 <= pages as i128 <= 0x7fffffffffffffffi128,
                    1 <= self.rows as i128 <= 0x10000i128,
            ;
        }
        let d: i128 = (pages as i128) * (self.rows as i128);
        let v: i128 = (self.view_scroll as i128) + d;
        let lenl: i128 = len as i128;
        let r: i128 = if v <= 0 { 0 } else if v >= lenl { lenl } else { v };
        self.view_scroll = r as usize;
    }

    /// Inserts `count` blank cells at the cursor; the rest of the row
    /// shifts right, cells pushed past the edge are lost.
    pub fn insert_blank_chars(&mut self, count: usize)
        requires
            old(self).wf(),
        ensures
            final(self).wf(),
            *final(self) == (Terminal { screen: final(self).screen, ..*old(self) }),
            screen_eq_except_row(*old(self), *final(self), old(self).cursor_row as int),
            ({
                let n = spec_min(count as int, old(self).cols - old(self).cursor_col);
                let pre = old(self).screen@[old(self).cursor_row as int].cells@;
                let post = final(self).screen@[old(self).cursor_row as int].cells@;
                &&& post.len() == pre.len()
                &&& forall|k: int| 0 <= k < pre.len() ==> post[k] == (
                    if k < old(self).cursor_col { pre[k] }
                    else if k < old(self).cursor_col + n { blank_cell_with(old(self).style) }
                    else { pre[k - n] })
            }),
    {
        let fill = self.blank_cell();
        let n = if count <= self.cols - self.cursor_col { count } else { self.cols - self.cursor_col };
        if n == 0 {
            return;
        }
        let r = self.cursor_row;
        let ccol = self.cursor_col;
        let mut new_cells: Vec<Cell> = Vec::new();
        let mut k: usize = 0;
        while k < self.cols
            invariant
                k <= self.cols,
                self.wf(),
                *self == *old(self),
                n == spec_min(count as int, old(self).cols - old(self).cursor_col),
                n >= 1,
                r == old(self).cursor_row,
                ccol == old(self).cursor_col,
                fill == blank_cell_with(old(self).style),
                new_cells@.len() == k,
                forall|j: int| 0 <= j < k ==> new_cells@[j] == (
                    if j < ccol { old(self).screen@[r as int].cells@[j] }
                    else if j < ccol + n { blank_cell_with(old(self).style) }
                    else { old(self).screen@[r as int].cells@[j - n] }),
            decreases self.cols - k,
        {
            let v = if k < ccol {
                self.screen[r].cells[k]
            } else if k < ccol + n {
                fill
            } else {
                self.screen[r].cells[k - n]
            };
            new_cells.push(v);
            k = k + 1;
        }
        self.screen.set(r, Row { cells: new_cells });
    }

    /// Deletes `count` cells at the cursor; the rest of the row shifts
    /// left and blank cells enter at the edge.
    pub fn delete_chars(&mut self, count: usize)
        requires
            old(self).wf(),
        ensures
            final(self).wf(),
            *final(self) == (Terminal { screen: final(self).screen, ..*old(self) }),
            screen_eq_except_row(*old(self), *final(self), old(self).cursor_row as int),
            ({
                let n = spec_min(count as int, old(self).cols - old(self).cursor_col);
                let pre = old(self).screen@[old(self).cursor_row as int].cells@;
                let post = final(self).screen@[old(self).cursor_row as int].cells@;
                &&& post.len() == pre.len()
                &&& forall|k: int| 0 <= k < pre.len() ==> post[k] == (
                    if k < old(self).cursor_col { pre[k] }
                    else if k + n < old(self).cols { pre[k + n] }
                    else { blank_cell_with(old(self).style) })
            }),
    {
        let fill = self.blank_cell();
        let n = if count <= self.cols - self.cursor_col { count } else { self.cols - self.cursor_col };
        if n == 0 {
            return;
        }
        let r = self.cursor_row;
        let ccol = self.cursor_col;
        let mut new_cells: Vec<Cell> = Vec::new();
        let mut k: usize = 0;
        while k < self.cols
            invariant
                k <= self.cols,
                self.wf(),
                *self == *old(self),
                n == spec_min(count as int, old(self).cols - old(self).cursor_col),
                n >= 1,
                r == old(self).cursor_row,
                ccol == old(self).cursor_col,
                fill == blank_cell_with(old(self).style),
                new_cells@.len() == k,
                forall|j: int| 0 <= j < k ==> new_cells@[j] == (
                    if j < ccol { old(self).screen@[r as int].cells@[j] }
                    else if j + n < old(self).cols { old(self).screen@[r as int].cells@[j + n] }
                    else { blank_cell_with(old(self).style) }),
            decreases self.cols - k,
        {
            let v = if k < ccol {
                self.screen[r].cells[k]
            } else if n < self.cols - k {
                self.screen[r].cells[k + n]
            } else {
                fill
            };
            new_cells.push(v);
            k = k + 1;
        }
        self.screen.set(r, Row { cells: new_cells });
    }
}

/// A word character for word selection: alphanumeric, or one of
/// `_ - .`.
pub open spec fn is_word_char(c: char) -> bool {
    crate::text::is_alphanumeric_of(c) || c == '_' || c == '-' || c == '.'
}

fn is_word_char_exec(c: char) -> (r: bool)
    ensures
        r == is_word_char(c),
{
    crate::text::is_alphanumeric_char(c) || c == '_' || c == '-' || c == '.'
}

/// `[s, e]` is the maximal run of word characters around column `c` in
/// the row.
pub open spec fn word_run(row: Seq<Cell>, c: int, s: int, e: int) -> bool {
    &&& 0 <= s <= c <= e < row.len()
    &&& forall|j: int| s <= j <= e ==> is_word_char((#[trigger] row[j]).ch)
    &&& (s == 0 || !is_word_char(row[s - 1].ch))
    &&& (e == row.len() - 1 || !is_word_char(row[e + 1].ch))
}

/// The characters of the cells in columns `[s, k)` of a row, skipping
/// wide-character continuation cells.
pub open spec fn extract_upto(row: Seq<Cell>, s: int, k: int) -> Seq<char>
    decreases k - s,
{
    if k <= s {
        Seq::<char>::empty()
    } else {
        extract_upto(row, s, k - 1)
            + (if row[k - 1].wide_cont { Seq::<char>::empty() } else { seq![row[k - 1].ch] })
    }
}

/// The sequence with its trailing spaces removed.
pub open spec fn rtrim_spaces(s: Seq<char>) -> Seq<char>
    decreases s.len(),
{
    if s.len() > 0 && s[s.len() - 1] == ' ' {
        rtrim_spaces(s.drop_last())
    } else {
        s
    }
}

impl Terminal {
    /// Resizes the grid: the overlapping top-left submatrix of the old
    /// screen is preserved, everything beyond it becomes blank; the
    /// cursor and selection clamp into the new bounds, the scroll region
    /// resets, and scrollback is untouched. Equal dimensions change
    /// nothing.
    pub fn resize(&mut self, cols: usize, rows: usize)
        requires
            old(self).wf(),
            cols <= MAX_DIM,
            rows <= MAX_DIM,
        ensures
            final(self).wf(),
            ({
                let nc: usize = if cols >= 1 { cols } else { 1 };
                let nr: usize = if rows >= 1 { rows } else { 1 };
                if nc == old(self).cols && nr == old(self).rows {
                    *final(self) == *old(self)
                } else {
                    &&& final(self).cols == nc
                    &&& final(self).rows == nr
                    &&& final(self).screen@.len() == nr
                    &&& forall|r: int| 0 <= r < nr ==> (#[trigger] final(self).screen@[r]).cells@.len() == nc
                    &&& forall|r: int, c: int| 0 <= r < nr && 0 <= c < nc ==>
                        (#[trigger] final(self).screen@[r].cells@[c]) == (
                            if r < old(self).rows && c < old(self).cols {
                                old(self).screen@[r].cells@[c]
                            } else {
                                default_cell()
                            })
                    &&& final(self).cursor_row == spec_min(old(self).cursor_row as int, nr - 1)
                    &&& final(self).cursor_col == spec_min(old(self).cursor_col as int, nc - 1)
                    &&& final(self).scroll_top == 0
                    &&& final(self).scroll_bottom == nr
                    &&& final(self).scrollback@ == old(self).scrollback@
                    &&& final(self).view_scroll == old(self).view_scroll
                    &&& final(self).selection == final(self).spec_clamped_selection(old(self).selection)
                    &&& *final(self) == (Terminal {
                        cols: nc,
                        rows: nr,
                        screen: final(self).screen,
                        cursor_row: final(self).cursor_row,
                        cursor_col: final(self).cursor_col,
                        scroll_top: 0usize,
                        scroll_bottom: nr,
                        selection: final(self).selection,
                        ..*old(self)
                    })
                }
            }),
    {
        let nc = if cols >= 1 { cols } else { 1 };
        let nr = if rows >= 1 { rows } else { 1 };
        if nc == self.cols && nr == self.rows {
            return;
        }
        let copy_rows = if self.rows <= nr { self.rows } else { nr };
        let copy_cols = if self.cols <= nc { self.cols } else { nc };
        let mut new_screen: Vec<Row> = Vec::new();
        let mut r: usize = 0;
        while r < nr
            invariant
                r <= nr,
                self.wf(),
                *self == *old(self),
                copy_rows == spec_min(old(self).rows as int, nr as int),
                copy_cols == spec_min(old(self).cols as int, nc as int),
                nc >= 1,
                new_screen@.len() == r,
                forall|i: int| 0 <= i < r ==> (#[trigger] new_screen@[i]).cells@.len() == nc,
                forall|i: int, c: int| 0 <= i < r && 0 <= c < nc ==>
                    (#[trigger] new_screen@[i].cells@[c]) == (
                        if i < old(self).rows && c < old(self).cols {
                            old(self).screen@[i].cells@[c]
                        } else {
                            default_cell()
                        }),
            decreases nr - r,
        {
            let mut row = Row::new(nc);
            if r < copy_rows {
                let mut c: usize = 0;
                while c < copy_cols
                    invariant
                        c <= copy_cols,
                        r < copy_rows,
                        self.wf(),
                        *self == *old(self),
                        copy_rows == spec_min(old(self).rows as int, nr as int),
                        copy_cols == spec_min(old(self).cols as int, nc as int),
                        row.cells@.len() == nc,
                        copy_cols <= nc,
                        forall|j: int| 0 <= j < c ==> (#[trigger] row.cells@[j]) == old(self).screen@[r as int].cells@[j],
                        forall|j: int| c <= j < nc ==> (#[trigger] row.cells@[j]) == default_cell(),
                    decreases copy_cols - c,
                {
                    let v = self.screen[r].cells[c];
                    row.cells.set(c, v);
                    c = c + 1;
                }
            }
            new_screen.push(row);
            r = r + 1;
        }
        self.cols = nc;
        self.rows = nr;
        self.screen = new_screen;
        let mr = nr - 1;
        let mc = nc - 1;
        if self.cursor_row > mr {
            self.cursor_row = mr;
        }
        if self.cursor_col > mc {
            self.cursor_col = mc;
        }
        self.scroll_top = 0;
        self.scroll_bottom = nr;
        let sblen = self.scrollback.len();
        if self.view_scroll > sblen {
            self.view_scroll = sblen;
        }
        self.reclamp_selection();
    }

    /// Raises zero dimensions to one; a repair for a degenerate size.
    pub fn ensure_nonzero_size(&mut self)
        ensures
            *final(self) == (Terminal {
                cols: if old(self).cols >= 1 { old(self).cols } else { 1usize },
                rows: if old(self).rows >= 1 { old(self).rows } else { 1usize },
                ..*old(self)
            }),
    {
        if self.cols == 0 || self.rows == 0 {
            if self.cols == 0 {
                self.cols = 1;
            }
            if self.rows == 0 {
                self.rows = 1;
            }
        }
    }

    /// Starts a selection at the cell a viewport click lands on.
    pub fn start_selection_from_view(&mut self, view_row: usize, col: usize)
        requires
            old(self).wf(),
        ensures
            final(self).wf(),
            ({
                let p = Pos {
                    row: spec_min(
                        old(self).spec_visible_start()
                            + spec_min(view_row as int, (old(self).rows - 1) as int),
                        old(self).spec_total_lines() - 1) as usize,
                    col: spec_min(col as int, (old(self).cols - 1) as int) as usize,
                };
                *final(self) == (Terminal {
                    selection: Some(Selection { anchor: p, focus: p }),
                    ..*old(self)
                })
            }),
    {
        let vr = self.clamp_view_row(view_row);
        let cc = self.clamp_col(col);
        let pos = self.pos_for_view(vr, cc);
        self.start_selection(pos);
    }

    /// Moves the selection focus to the cell a viewport drag reaches.
    pub fn set_selection_focus_from_view(&mut self, view_row: usize, col: usize)
        requires
            old(self).wf(),
        ensures
            final(self).wf(),
            ({
                let p = Pos {
                    row: spec_min(
                        old(self).spec_visible_start()
                            + spec_min(view_row as int, (old(self).rows - 1) as int),
                        old(self).spec_total_lines() - 1) as usize,
                    col: spec_min(col as int, (old(self).cols - 1) as int) as usize,
                };
                match old(self).selection {
                    Some(s) => *final(self) == (Terminal {
                        selection: Some(Selection { anchor: s.anchor, focus: p }),
                        ..*old(self)
                    }),
                    None => *final(self) == *old(self),
                }
            }),
    {
        let vr = self.clamp_view_row(view_row);
        let cc = self.clamp_col(col);
        let pos = self.pos_for_view(vr, cc);
        self.update_selection(pos);
    }

    /// Selects the word around the clicked cell: the maximal run of word
    /// characters, or just the cell itself on a non-word character. A
    /// click below the last row changes nothing.
    pub fn select_word_at_view(&mut self, view_row: usize, col: usize)
        requires
            old(self).wf(),
        ensures
            final(self).wf(),
            view_row >= old(self).spec_total_lines() - old(self).spec_visible_start() ==>
                *final(self) == *old(self),
            ({
                let g = old(self).spec_visible_start() + view_row;
                let row = old(self).spec_row_at(g);
                let c = spec_min(col as int, row.len() - 1);
                let mc = (old(self).cols - 1) as int;
                g < old(self).spec_total_lines() ==> {
                    if !is_word_char(row[c].ch) {
                        let p = Pos { row: g as usize, col: spec_min(c, mc) as usize };
                        *final(self) == (Terminal {
                            selection: Some(Selection { anchor: p, focus: p }),
                            ..*old(self)
                        })
                    } else {
                        exists|s: int, e: int| #[trigger] word_run(row, c, s, e)
                            && *final(self) == (Terminal {
                                selection: Some(Selection {
                                    anchor: Pos { row: g as usize, col: spec_min(s, mc) as usize },
                                    focus: Pos { row: g as usize, col: spec_min(e, mc) as usize },
                                }),
                                ..*old(self)
                            })
                    }
                }
            }),
    {
        let total = self.total_lines();
        let start = self.visible_start_global_row();
        if view_row >= total - start {
            return;
        }
        let g = start + view_row;
        let mc = self.cols - 1;
        let rlen = match self.line_at_global(g) {
            Some(row) => row.cells.len(),
            None => { return; }
        };
        let c = if col <= rlen - 1 { col } else { rlen - 1 };
        let ghost rowseq = self.spec_row_at(g as int);
        let cw = {
            let row = match self.line_at_global(g) {
                Some(row) => row,
                None => { return; }
            };
            is_word_char_exec(row.cells[c].ch)
        };
        if !cw {
            let p = Pos { row: g, col: if c <= mc { c } else { mc } };
            self.selection = Some(Selection { anchor: p, focus: p });
            return;
        }
        let mut flags: Vec<bool> = Vec::new();
        {
            let row = match self.line_at_global(g) {
                Some(row) => row,
                None => { return; }
            };
            let mut j: usize = 0;
            while j < rlen
                invariant
                    j <= rlen,
                    rlen == rowseq.len(),
                    row.cells@ == rowseq,
                    flags@.len() == j,
                    forall|k: int| 0 <= k < j ==> flags@[k] == is_word_char((#[trigger] rowseq[k]).ch),
                decreases rlen - j,
            {
                flags.push(is_word_char_exec(row.cells[j].ch));
                j = j + 1;
            }
        }
        let mut s = c;
        let mut e = c;
        while s > 0 && flags[s - 1]
            invariant
                s <= c < rlen,
                rlen == rowseq.len(),
                flags@.len() == rlen,
                forall|k: int| 0 <= k < rlen ==> flags@[k] == is_word_char((#[trigger] rowseq[k]).ch),
                forall|j: int| s <= j <= c ==> is_word_char((#[trigger] rowseq[j]).ch),
            decreases s,
        {
            s = s - 1;
        }
        while e + 1 < rlen && flags[e + 1]
            invariant
                c <= e < rlen,
                rlen == rowseq.len(),
                flags@.len() == rlen,
                forall|k: int| 0 <= k < rlen ==> flags@[k] == is_word_char((#[trigger] rowseq[k]).ch),
                forall|j: int| c <= j <= e ==> is_word_char((#[trigger] rowseq[j]).ch),
            decreases rlen - e,
        {
            e = e + 1;
        }
        proof {
            assert(word_run(rowseq, c as int, s as int, e as int));
        }
        let a = Pos { row: g, col: if s <= mc { s } else { mc } };
        let f = Pos { row: g, col: if e <= mc { e } else { mc } };
        self.selection = Some(Selection { anchor: a, focus: f });
    }

    /// Selects the whole line at a view row, clamped to the last existing
    /// row.
    pub fn select_line_at_view(&mut self, view_row: usize)
        requires
            old(self).wf(),
        ensures
            final(self).wf(),
            ({
                let g = spec_min(
                    old(self).spec_visible_start() + view_row,
                    old(self).spec_total_lines() - 1);
                *final(self) == (Terminal {
                    selection: Some(Selection {
                        anchor: Pos { row: g as usize, col: 0usize },
                        focus: Pos { row: g as usize, col: (old(self).cols - 1) as usize },
                    }),
                    ..*old(self)
                })
            }),
    {
        let total = self.total_lines();
        let start = self.visible_start_global_row();
        let g = if view_row >= total - start { total - 1 } else {
            let x = start + view_row;
            if x <= total - 1 { x } else { total - 1 }
        };
        let mc = self.cols - 1;
        self.selection = Some(Selection {
            anchor: Pos { row: g, col: 0 },
            focus: Pos { row: g, col: mc },
        });
    }

    /// Selects everything: scrollback and screen.
    pub fn select_all(&mut self)
        requires
            old(self).wf(),
        ensures
            final(self).wf(),
            *final(self) == (Terminal {
                selection: Some(Selection {
                    anchor: Pos { row: 0usize, col: 0usize },
                    focus: Pos {
                        row: (old(self).spec_total_lines() - 1) as usize,
                        col: (old(self).cols - 1) as usize,
                    },
                }),
                ..*old(self)
            }),
    {
        let last = self.total_lines() - 1;
        let mc = self.cols - 1;
        self.selection = Some(Selection {
            anchor: Pos { row: 0, col: 0 },
            focus: Pos { row: last, col: mc },
        });
    }
}

/// The style after interpreting the SGR parameter list from index `i`
/// on: 0 resets, 30-37/40-47 and 90-97/100-107 set indexed colors,
/// 39/49 restore defaults, and 38/48 with `5;n` or `2;r;g;b` select
/// extended colors; malformed or unknown parameters are ignored.
pub open spec fn spec_sgr(style: Style, params: Seq<i64>, i: int) -> Style
    decreases params.len() - i,
{
    if i < 0 || i >= params.len() {
        style
    } else {
        let p = params[i];
        if p == 0 {
            spec_sgr(default_style(), params, i + 1)
        } else if p == 39 {
            spec_sgr(Style { fg: ColorSpec::DefaultFg, ..style }, params, i + 1)
        } else if p == 49 {
            spec_sgr(Style { bg: ColorSpec::DefaultBg, ..style }, params, i + 1)
        } else if 30 <= p <= 37 {
            spec_sgr(Style { fg: ColorSpec::Indexed((p - 30) as u8), ..style }, params, i + 1)
        } else if 40 <= p <= 47 {
            spec_sgr(Style { bg: ColorSpec::Indexed((p - 40) as u8), ..style }, params, i + 1)
        } else if 90 <= p <= 97 {
            spec_sgr(Style { fg: ColorSpec::Indexed((p - 90 + 8) as u8), ..style }, params, i + 1)
        } else if 100 <= p <= 107 {
            spec_sgr(Style { bg: ColorSpec::Indexed((p - 100 + 8) as u8), ..style }, params, i + 1)
        } else if p == 38 || p == 48 {
            let is_fg = p == 38;
            if i + 2 < params.len() && params[i + 1] == 5 {
                let c = ColorSpec::Indexed(spec_clamp_int(params[i + 2] as int, 0, 255) as u8);
                let st = if is_fg { Style { fg: c, ..style } } else { Style { bg: c, ..style } };
                spec_sgr(st, params, i + 3)
            } else if i + 4 < params.len() && params[i + 1] == 2 {
                let c = ColorSpec::Rgb(
                    spec_clamp_int(params[i + 2] as int, 0, 255) as u8,
                    spec_clamp_int(params[i + 3] as int, 0, 255) as u8,
                    spec_clamp_int(params[i + 4] as int, 0, 255) as u8,
                );
                let st = if is_fg { Style { fg: c, ..style } } else { Style { bg: c, ..style } };
                spec_sgr(st, params, i + 5)
            } else {
                spec_sgr(style, params, i + 1)
            }
        } else {
            spec_sgr(style, params, i + 1)
        }
    }
}

/// Clamps an `i64` parameter into `[0, 255]` and narrows it.
fn clamp_color_component(p: i64) -> (r: u8)
    ensures
        r == spec_clamp_int(p as int, 0, 255) as u8,
{
    if p <= 0 { 0 } else if p >= 255 { 255 } else { p as u8 }
}

impl Terminal {
    /// Select graphic rendition: folds the parameter list into the
    /// pending style; an empty list resets it.
    pub fn sgr(&mut self, params: &[i64])
        ensures
            final(self).style == (
                if params@.len() == 0 { default_style() } else { spec_sgr(old(self).style, params@, 0) }),
            *final(self) == (Terminal { style: final(self).style, ..*old(self) }),
    {
        if params.len() == 0 {
            self.style = Style::default();
            return;
        }
        let ghost orig = self.style;
        let mut i: usize = 0;
        while i < params.len()
            invariant
                i <= params@.len(),
                spec_sgr(orig, params@, 0) == spec_sgr(self.style, params@, i as int),
                *self == (Terminal { style: self.style, ..*old(self) }),
                orig == old(self).style,
            decreases params@.len() - i,
        {
            let p = params[i];
            if p == 0 {
                self.style = Style::default();
                i = i + 1;
            } else if p == 39 {
                self.style = Style { fg: ColorSpec::DefaultFg, ..self.style };
                i = i + 1;
            } else if p == 49 {
                self.style = Style { bg: ColorSpec::DefaultBg, ..self.style };
                i = i + 1;
            } else if 30 <= p && p <= 37 {
                self.style = Style { fg: ColorSpec::Indexed((p - 30) as u8), ..self.style };
                i = i + 1;
            } else if 40 <= p && p <= 47 {
                self.style = Style { bg: ColorSpec::Indexed((p - 40) as u8), ..self.style };
                i = i + 1;
            } else if 90 <= p && p <= 97 {
                self.style = Style { fg: ColorSpec::Indexed((p - 90 + 8) as u8), ..self.style };
                i = i + 1;
            } else if 100 <= p && p <= 107 {
                self.style = Style { bg: ColorSpec::Indexed((p - 100 + 8) as u8), ..self.style };
                i = i + 1;
            } else if p == 38 || p == 48 {
                let is_fg = p == 38;
                if params.len() - i > 2 && params[i + 1] == 5 {
                    let c = ColorSpec::Indexed(clamp_color_component(params[i + 2]));
                    self.style = if is_fg { Style { fg: c, ..self.style } } else { Style { bg: c, ..self.style } };
                    i = i + 3;
                } else if params.len() - i > 4 && params[i + 1] == 2 {
                    let c = ColorSpec::Rgb(
                        clamp_color_component(params[i + 2]),
                        clamp_color_component(params[i + 3]),
                        clamp_color_component(params[i + 4]),
                    );
                    self.style = if is_fg { Style { fg: c, ..self.style } } else { Style { bg: c, ..self.style } };
                    i = i + 5;
                } else {
                    i = i + 1;
                }
            } else {
                i = i + 1;
            }
        }
    }

    /// The text of one selected row: the cells between the selection's
    /// column bounds on that row, continuation cells skipped, trailing
    /// spaces removed.
    pub open spec fn spec_selection_line(self, a: Pos, b: Pos, g: int) -> Seq<char> {
        let row = self.spec_row_at(g);
        let start = if g == a.row { a.col as int } else { 0 };
        let end_inc = if g == b.row { b.col as int } else { self.cols - 1 };
        let end_excl = spec_min(spec_min(end_inc + 1, self.cols as int), row.len() as int);
        rtrim_spaces(extract_upto(row, start, end_excl))
    }

    /// The selected rows' texts from row `g` through `b.row`, joined
    /// with newlines.
    pub open spec fn spec_selection_rows(self, a: Pos, b: Pos, g: int) -> Seq<char>
        decreases b.row - g,
    {
        if g < 0 || g > b.row {
            Seq::<char>::empty()
        } else if g == b.row {
            self.spec_selection_line(a, b, g)
        } else {
            self.spec_selection_line(a, b, g) + seq!['\n'] + self.spec_selection_rows(a, b, g + 1)
        }
    }

    /// The full selected text, for normalized endpoints `(a, b)`.
    pub open spec fn spec_selection_text(self, a: Pos, b: Pos) -> Seq<char> {
        self.spec_selection_rows(a, b, a.row as int)
    }

    /// The selected text: rows joined with newlines, wide-character
    /// placeholders skipped, trailing spaces removed per line; `None`
    /// without a selection.
    pub fn selection_text(&self) -> (r: Option<String>)
        requires
            self.wf(),
        ensures
            self.selection is None ==> r is None,
            self.selection matches Some(sel) ==> {
                let ab = sel_normalized(sel);
                r matches Some(t) && t@ == self.spec_selection_text(ab.0, ab.1)
            },
    {
        let sel = match self.selection {
            Some(s) => s,
            None => { return None; }
        };
        let (a, b) = sel.normalized();
        let mut out: Vec<char> = Vec::new();
        let mut g = a.row;
        while g <= b.row
            invariant
                self.wf(),
                self.selection == Some(sel),
                (a, b) == sel_normalized(sel),
                a.row <= g <= b.row + 1,
                b.row < self.spec_total_lines(),
                a.col < self.cols,
                b.col < self.cols,
                out@ + self.spec_selection_rows(a, b, g as int) == self.spec_selection_text(a, b),
            decreases b.row + 1 - g,
        {
            let start: usize = if g == a.row { a.col } else { 0 };
            let end_inc: usize = if g == b.row { b.col } else { self.cols - 1 };
            let e1 = if end_inc + 1 <= self.cols { end_inc + 1 } else { self.cols };
            let mut line: Vec<char> = Vec::new();
            let ghost rowseq = self.spec_row_at(g as int);
            let ghost end_excl = spec_min(spec_min(end_inc + 1 as int, self.cols as int), rowseq.len() as int);
            {
                let row = match self.line_at_global(g) {
                    Some(row) => row,
                    None => { return None; }
                };
                let e2 = if e1 <= row.cells.len() { e1 } else { row.cells.len() };
                assert(e2 == end_excl);
                let mut col = start;
                while col < e2
                    invariant
                        start <= col,
                        col <= e2 || col == start,
                        e2 == end_excl,
                        row.cells@ == rowseq,
                        e2 <= rowseq.len(),
                        line@ == extract_upto(rowseq, start as int, col as int),
                    decreases e2 - col,
                {
                    let cell = row.cells[col];
                    if !cell.wide_cont {
                        line.push(cell.ch);
                    }
                    col = col + 1;
                }
                proof {
                    if start >= e2 {
                        assert(line@ =~= extract_upto(rowseq, start as int, end_excl));
                    }
                }
            }
            while line.len() > 0 && line[line.len() - 1] == ' '
                invariant
                    rtrim_spaces(line@) == rtrim_spaces(extract_upto(rowseq, start as int, end_excl)),
                decreases line@.len(),
            {
                let _ = line.pop();
            }
            proof {
                assert(line@ == rtrim_spaces(line@));
                assert(line@ == self.spec_selection_line(a, b, g as int));
            }
            out.append(&mut line);
            if g < b.row {
                out.push('\n');
            }
            g = g + 1;
        }
        proof {
            assert(self.spec_selection_rows(a, b, g as int) =~= Seq::<char>::empty());
            assert(out@ =~= self.spec_selection_text(a, b));
        }
        Some(crate::text::chars_to_string(&out))
    }

    /// The selected text, or the empty string without a selection.
    pub fn selection_text_or_empty(&self) -> (r: String)
        requires
            self.wf(),
        ensures
            self.selection is None ==> r@ == Seq::<char>::empty(),
            self.selection matches Some(sel) ==> {
                let ab = sel_normalized(sel);
                r@ == self.spec_selection_text(ab.0, ab.1)
            },
    {
        match self.selection_text() {
            Some(t) => t,
            None => String::new(),
        }
    }
}

/// The erase-in-line transition, as `erase_in_line` promises it.
pub open spec fn erase_in_line_rel(pre: Terminal, post: Terminal, mode: int) -> bool {
    &&& post == (Terminal { screen: post.screen, ..pre })
    &&& screen_eq_except_row(pre, post, pre.cursor_row as int)
    &&& (mode == 0 ==> row_filled_range(
        pre.screen@[pre.cursor_row as int].cells@,
        post.screen@[pre.cursor_row as int].cells@,
        pre.cursor_col as int, pre.cols as int,
        blank_cell_with(pre.style)))
    &&& (mode == 1 ==> row_filled_range(
        pre.screen@[pre.cursor_row as int].cells@,
        post.screen@[pre.cursor_row as int].cells@,
        0, pre.cursor_col + 1 as int,
        blank_cell_with(pre.style)))
    &&& (mode == 2 ==> row_filled_range(
        pre.screen@[pre.cursor_row as int].cells@,
        post.screen@[pre.cursor_row as int].cells@,
        0, pre.cols as int,
        blank_cell_with(pre.style)))
    &&& (mode >= 3 ==> post == pre)
}

/// The erase-in-display transition, as `erase_in_display` promises it.
pub open spec fn erase_in_display_rel(pre: Terminal, post: Terminal, mode: int) -> bool {
    &&& (mode < 3 ==> post == (Terminal { screen: post.screen, ..pre }))
    &&& (mode < 4 ==> post.screen@.len() == pre.screen@.len())
    &&& (mode == 0 ==> forall|i: int| 0 <= i < pre.screen@.len() ==>
        row_filled_range(
            pre.screen@[i].cells@,
            (#[trigger] post.screen@[i]).cells@,
            if i < pre.cursor_row { pre.cols as int }
                else if i == pre.cursor_row { pre.cursor_col as int }
                else { 0 },
            if i < pre.cursor_row { 0 } else { pre.cols as int },
            blank_cell_with(pre.style)))
    &&& (mode == 1 ==> forall|i: int| 0 <= i < pre.screen@.len() ==>
        row_filled_range(
            pre.screen@[i].cells@,
            (#[trigger] post.screen@[i]).cells@,
            0,
            if i < pre.cursor_row { pre.cols as int }
                else if i == pre.cursor_row { pre.cursor_col + 1 as int }
                else { 0 },
            blank_cell_with(pre.style)))
    &&& (mode == 2 || mode == 3 ==> forall|i: int| 0 <= i < pre.screen@.len() ==>
        row_filled_range(
            pre.screen@[i].cells@,
            (#[trigger] post.screen@[i]).cells@,
            0, pre.cols as int,
            blank_cell_with(pre.style)))
    &&& (mode == 3 ==> {
        &&& post.scrollback@.len() == 0
        &&& post.view_scroll == 0
        &&& post == (Terminal {
            screen: post.screen,
            scrollback: post.scrollback,
            view_scroll: 0usize,
            selection: post.selection,
            ..pre
        })
    })
    &&& (mode >= 4 ==> post == pre)
}

/// The scroll-down transition, as `scroll_down_lines` promises it.
pub open spec fn scroll_down_rel(pre: Terminal, post: Terminal, lines: int) -> bool {
    &&& post == (Terminal { screen: post.screen, ..pre })
    &&& post.screen@.len() == pre.screen@.len()
    &&& forall|i: int| 0 <= i < pre.screen@.len() ==>
        (#[trigger] post.screen@[i]).cells@ == (
            if i < spec_min(lines, pre.rows as int) {
                blank_row(pre.cols as nat)
            } else {
                pre.screen@[i - spec_min(lines, pre.rows as int)].cells@
            })
}

/// The insert-blank-cells transition, as `insert_blank_chars` promises it.
pub open spec fn insert_blank_chars_rel(pre: Terminal, post: Terminal, count: int) -> bool {
    &&& post == (Terminal { screen: post.screen, ..pre })
    &&& screen_eq_except_row(pre, post, pre.cursor_row as int)
    &&& {
        let n = spec_min(count, pre.cols - pre.cursor_col);
        let before = pre.screen@[pre.cursor_row as int].cells@;
        let after = post.screen@[pre.cursor_row as int].cells@;
        &&& after.len() == before.len()
        &&& forall|k: int| 0 <= k < before.len() ==> after[k] == (
            if k < pre.cursor_col { before[k] }
            else if k < pre.cursor_col + n { blank_cell_with(pre.style) }
            else { before[k - n] })
    }
}

/// The delete-cells transition, as `delete_chars` promises it.
pub open spec fn delete_chars_rel(pre: Terminal, post: Terminal, count: int) -> bool {
    &&& post == (Terminal { screen: post.screen, ..pre })
    &&& screen_eq_except_row(pre, post, pre.cursor_row as int)
    &&& {
        let n = spec_min(count, pre.cols - pre.cursor_col);
        let before = pre.screen@[pre.cursor_row as int].cells@;
        let after = post.screen@[pre.cursor_row as int].cells@;
        &&& after.len() == before.len()
        &&& forall|k: int| 0 <= k < before.len() ==> after[k] == (
            if k < pre.cursor_col { before[k] }
            else if k + n < pre.cols { before[k + n] }
            else { blank_cell_with(pre.style) })
    }
}

/// The reverse-index transition, as `reverse_index` promises it.
pub open spec fn reverse_index_rel(pre: Terminal, post: Terminal) -> bool {
    &&& (pre.cursor_row == pre.scroll_top && pre.scroll_bottom > pre.scroll_top + 1 ==> {
        &&& post == (Terminal { screen: post.screen, ..pre })
        &&& post.screen@.len() == pre.screen@.len()
        &&& forall|i: int| 0 <= i < pre.screen@.len() ==>
            (#[trigger] post.screen@[i]).cells@ == (
                if i < pre.scroll_top || i >= pre.scroll_bottom {
                    pre.screen@[i].cells@
                } else if i == pre.scroll_top {
                    blank_row(pre.cols as nat)
                } else {
                    pre.screen@[i - 1].cells@
                })
    })
    &&& (pre.cursor_row == pre.scroll_top && pre.scroll_bottom <= pre.scroll_top + 1 ==> post == pre)
    &&& (pre.cursor_row != pre.scroll_top && pre.cursor_row > 0 ==>
        post == (Terminal { cursor_row: (pre.cursor_row - 1) as usize, ..pre }))
    &&& (pre.cursor_row != pre.scroll_top && pre.cursor_row == 0 ==> post == pre)
}

/// The clear-screen transition, as `clear_all` promises it.
pub open spec fn clear_all_rel(pre: Terminal, post: Terminal) -> bool {
    &&& post == (Terminal {
        screen: post.screen,
        cursor_row: 0usize,
        cursor_col: 0usize,
        ..pre
    })
    &&& post.screen@.len() == pre.screen@.len()
    &&& forall|i: int| 0 <= i < pre.screen@.len() ==>
        row_filled_range(
            pre.screen@[i].cells@,
            (#[trigger] post.screen@[i]).cells@,
            0, pre.cols as int,
            blank_cell_with(pre.style))
}

/// The smaller of two integers.
pub open spec fn spec_min(a: int, b: int) -> int {
    if a <= b { a } else { b }
}

/// `v` clamped into `[lo, hi]` (`hi` below `lo` yields `lo`).
pub open spec fn spec_clamp_int(v: int, lo: int, hi: int) -> int {
    if v <= lo { lo } else if v >= hi { hi } else { v }
}

/// Adds a signed delta to a value, clamping the sum into `[0, hi]`.
fn add_clamped(v: usize, delta: isize, hi: usize) -> (r: usize)
    requires
        v <= 0xffff,
        hi <= 0xffff,
    ensures
        r == spec_clamp_int(v + delta, 0, hi as int),
{
    if delta >= 0 {
        let inc = delta as usize;
        if v >= hi { hi } else if inc <= hi - v { v + inc } else { hi }
    } else {
        let dec: usize = if delta == isize::MIN { usize::MAX } else { (-delta) as usize };
        if v >= dec { let s = v - dec; if s >= hi { hi } else { s } } else { 0 }
    }
}

} // verus!

use vstd::prelude::*;

use crate::terminal::Cell;
use crate::terminal::Terminal;
use crate::text::lower_char;
use crate::text::lower_char_of;
use crate::text::str_chars;
use crate::text::string_pop_char;
use crate::text::string_push_char;

verus! {

/// Incremental text search over scrollback and screen: the query being
/// typed, the matches of the last scan, and the cursor into them.
pub struct SearchState {
    pub active: bool,
    pub query: String,
    pub matches: Vec<SearchMatch>,
    pub current: usize,
}

/// One match: the global row it lies on and its column range,
/// end-exclusive.
#[derive(Clone, Copy, Debug, PartialEq, Eq, Structural)]
pub struct SearchMatch {
    pub global_row: usize,
    pub col_start: usize,
    pub col_end: usize,
}

/// The sequence folded to lower case, character by character.
pub open spec fn lowered(q: Seq<char>) -> Seq<char> {
    q.map_values(|c: char| lower_char_of(c))
}

/// The query `q` occurs at column `s` of the row: each query character
/// equals the folded cell character, and no matched cell is a
/// wide-character continuation placeholder.
pub open spec fn row_match_at(row: Seq<Cell>, q: Seq<char>, s: int) -> bool {
    &&& 0 <= s
    &&& s + q.len() <= row.len()
    &&& forall|j: int| 0 <= j < q.len() ==>
        !(#[trigger] row[s + j]).wide_cont && lower_char_of(row[s + j].ch) == q[j]
}

/// Some recorded match starts at `(g, s)`.
pub open spec fn contains_match(ms: Seq<SearchMatch>, g: int, s: int) -> bool {
    exists|k: int| 0 <= k < ms.len()
        && (#[trigger] ms[k]).global_row == g && ms[k].col_start == s
}

/// Strict lexicographic order on matches, by row then start column.
pub open spec fn match_lt(a: SearchMatch, b: SearchMatch) -> bool {
    a.global_row < b.global_row || (a.global_row == b.global_row && a.col_start < b.col_start)
}

/// `ms` is exactly the match list for query `q` over the terminal: in
/// strictly increasing order, every entry a real occurrence with its end
/// column set, and every occurrence recorded.
pub open spec fn search_result_ok(ms: Seq<SearchMatch>, term: Terminal, q: Seq<char>) -> bool {
    &&& forall|k1: int, k2: int| 0 <= k1 < k2 < ms.len() ==> match_lt(#[trigger] ms[k1], #[trigger] ms[k2])
    &&& forall|k: int| 0 <= k < ms.len() ==> {
        let m = #[trigger] ms[k];
        &&& m.global_row < term.spec_total_lines()
        &&& row_match_at(term.spec_row_at(m.global_row as int), q, m.col_start as int)
        &&& m.col_end == m.col_start + q.len()
    }
    &&& forall|g: int, s: int| 0 <= g < term.spec_total_lines()
        && #[trigger] row_match_at(term.spec_row_at(g), q, s)
        ==> contains_match(ms, g, s)
}

/// Whether the query occurs at column `s` of the row.
fn match_at(row: &Vec<Cell>, q: &Vec<char>, s: usize) -> (b: bool)
    requires
        s + q@.len() <= row@.len(),
        row@.len() <= usize::MAX,
    ensures
        b == row_match_at(row@, q@, s as int),
{
    let mut j: usize = 0;
    while j < q.len()
        invariant
            j <= q@.len(),
            s + q@.len() <= row@.len(),
            row@.len() <= usize::MAX,
            forall|k: int| 0 <= k < j ==>
                !(#[trigger] row@[s + k]).wide_cont && lower_char_of(row@[s + k].ch) == q@[k],
        decreases q@.len() - j,
    {
        let cell = row[s + j];
        if cell.wide_cont {
            return false;
        }
        if lower_char(cell.ch) != q[j] {
            return false;
        }
        j = j + 1;
    }
    true
}

/// A recorded match stays recorded when another match is appended.
proof fn lemma_contains_match_push(ms: Seq<SearchMatch>, m: SearchMatch, g: int, s: int)
    requires
        contains_match(ms, g, s),
    ensures
        contains_match(ms.push(m), g, s),
{
    let k = choose|k: int| 0 <= k < ms.len()
        && (#[trigger] ms[k]).global_row == g && ms[k].col_start == s;
    assert(ms.push(m)[k] == ms[k]);
}

impl SearchState {
    /// A fresh, inactive search with an empty query.
    pub fn new() -> (s: SearchState)
        ensures
            !s.active,
            s.query@ == Seq::<char>::empty(),
            s.matches@ == Seq::<SearchMatch>::empty(),
            s.current == 0,
    {
        SearchState { active: false, query: String::new(), matches: Vec::new(), current: 0 }
    }

    /// Opens the search bar, or closes it and forgets query and matches.
    pub fn toggle(&mut self)
        ensures
            final(self).active == !old(self).active,
            old(self).active ==> {
                &&& final(self).query@ == Seq::<char>::empty()
                &&& final(self).matches@ == Seq::<SearchMatch>::empty()
                &&& final(self).current == 0
            },
            !old(self).active ==> {
                &&& final(self).query@ == old(self).query@
                &&& final(self).matches@ == old(self).matches@
                &&& final(self).current == old(self).current
            },
    {
        self.active = !self.active;
        if !self.active {
            self.query = String::new();
            self.matches = Vec::new();
            self.current = 0;
        }
    }

    /// Closes the search bar and forgets query and matches.
    pub fn close(&mut self)
        ensures
            !final(self).active,
            final(self).query@ == Seq::<char>::empty(),
            final(self).matches@ == Seq::<SearchMatch>::empty(),
            final(self).current == 0,
    {
        self.active = false;
        self.query = String::new();
        self.matches = Vec::new();
        self.current = 0;
    }

    /// Appends one character to the query.
    pub fn push_char(&mut self, ch: char)
        ensures
            final(self).query@ == old(self).query@.push(ch),
            *final(self) == (SearchState { query: final(self).query, ..*old(self) }),
    {
        string_push_char(&mut self.query, ch);
    }

    /// Removes the last query character, if any.
    pub fn pop_char(&mut self)
        ensures
            old(self).query@.len() == 0 ==> final(self).query@ == old(self).query@,
            old(self).query@.len() > 0 ==> final(self).query@ == old(self).query@.drop_last(),
            *final(self) == (SearchState { query: final(self).query, ..*old(self) }),
    {
        string_pop_char(&mut self.query);
    }

    /// Rescans scrollback then screen for every occurrence of the
    /// case-folded query, rebuilding the match list in order; an empty
    /// query clears it. The current index is clamped into the new list.
    pub fn search(&mut self, term: &Terminal)
        requires
            term.wf(),
        ensures
            final(self).active == old(self).active,
            final(self).query@ == old(self).query@,
            *final(self) == (SearchState {
                matches: final(self).matches,
                current: final(self).current,
                ..*old(self)
            }),
            old(self).query@.len() == 0 ==> {
                &&& final(self).matches@ == Seq::<SearchMatch>::empty()
                &&& final(self).current == old(self).current
            },
            old(self).query@.len() > 0 ==> {
                &&& search_result_ok(final(self).matches@, *term, lowered(old(self).query@))
                &&& final(self).current == (
                    if final(self).matches@.len() > 0 {
                        if old(self).current < final(self).matches@.len() {
                            old(self).current as int
                        } else {
                            final(self).matches@.len() - 1
                        }
                    } else {
                        0
                    })
            },
    {
        self.matches = Vec::new();
        let qv = str_chars(self.query.as_str());
        if qv.len() == 0 {
            return;
        }
        let qlen = qv.len();
        let mut ql: Vec<char> = Vec::new();
        let mut i: usize = 0;
        while i < qlen
            invariant
                i <= qlen,
                qlen == qv@.len(),
                ql@.len() == i,
                forall|j: int| 0 <= j < i ==> ql@[j] == lower_char_of(qv@[j]),
            decreases qlen - i,
        {
            ql.push(lower_char(qv[i]));
            i = i + 1;
        }
        proof {
            assert(ql@ =~= lowered(old(self).query@));
        }
        let total = term.total_lines();
        let mut g: usize = 0;
        while g < total
            invariant
                g <= total,
                term.wf(),
                total == term.spec_total_lines(),
                ql@ == lowered(old(self).query@),
                qlen == ql@.len(),
                qlen >= 1,
                *self == (SearchState { matches: self.matches, ..*old(self) }),
                forall|k1: int, k2: int| 0 <= k1 < k2 < self.matches@.len() ==>
                    match_lt(#[trigger] self.matches@[k1], #[trigger] self.matches@[k2]),
                forall|k: int| 0 <= k < self.matches@.len() ==> {
                    let m = #[trigger] self.matches@[k];
                    &&& m.global_row < g
                    &&& row_match_at(term.spec_row_at(m.global_row as int), ql@, m.col_start as int)
                    &&& m.col_end == m.col_start + qlen
                },
                forall|g2: int, s2: int| 0 <= g2 < g
                    && #[trigger] row_match_at(term.spec_row_at(g2), ql@, s2)
                    ==> contains_match(self.matches@, g2, s2),
            decreases total - g,
        {
            let row = match term.line_at_global(g) {
                Some(r) => r,
                None => { proof { assert(false); } continue; }
            };
            let rlen = row.cells.len();
            if rlen >= qlen {
                let bound = rlen - qlen + 1;
                let mut s: usize = 0;
                while s < bound
                    invariant
                        s <= bound,
                        bound == rlen - qlen + 1,
                        rlen == row.cells@.len(),
                        row.cells@ == term.spec_row_at(g as int),
                        g < total,
                        term.wf(),
                        total == term.spec_total_lines(),
                        ql@ == lowered(old(self).query@),
                        qlen == ql@.len(),
                        qlen >= 1,
                        *self == (SearchState { matches: self.matches, ..*old(self) }),
                        forall|k1: int, k2: int| 0 <= k1 < k2 < self.matches@.len() ==>
                            match_lt(#[trigger] self.matches@[k1], #[trigger] self.matches@[k2]),
                        forall|k: int| 0 <= k < self.matches@.len() ==> {
                            let m = #[trigger] self.matches@[k];
                            &&& (m.global_row < g || (m.global_row == g && m.col_start < s))
                            &&& m.global_row < total
                            &&& row_match_at(term.spec_row_at(m.global_row as int), ql@, m.col_start as int)
                            &&& m.col_end == m.col_start + qlen
                        },
                        forall|g2: int, s2: int| 0 <= g2 < g
                            && #[trigger] row_match_at(term.spec_row_at(g2), ql@, s2)
                            ==> contains_match(self.matches@, g2, s2),
                        forall|s2: int| 0 <= s2 < s
                            && #[trigger] row_match_at(term.spec_row_at(g as int), ql@, s2)
                            ==> contains_match(self.matches@, g as int, s2),
                    decreases bound - s,
                {
                    let ghost pre_ms = self.matches@;
                    if match_at(&row.cells, &ql, s) {
                        let m = SearchMatch { global_row: g, col_start: s, col_end: s + qlen };
                        self.matches.push(m);
                        proof {
                            assert(self.matches@[pre_ms.len() as int] == m);
                            assert forall|g2: int, s2: int| contains_match(pre_ms, g2, s2)
                                implies contains_match(self.matches@, g2, s2) by {
                                lemma_contains_match_push(pre_ms, m, g2, s2);
                            }
                        }
                    }
                    s = s + 1;
                }
            }
            g = g + 1;
        }
        if self.matches.len() > 0 {
            let last = self.matches.len() - 1;
            if self.current > last {
                self.current = last;
            }
        } else {
            self.current = 0;
        }
    }

    /// Steps to the next match, wrapping around; an empty list keeps the
    /// index at its value.
    pub fn next_match(&mut self)
        requires
            old(self).matches@.len() > 0 ==> old(self).current < old(self).matches@.len(),
        ensures
            *final(self) == (SearchState { current: final(self).current, ..*old(self) }),
            old(self).matches@.len() == 0 ==> final(self).current == old(self).current,
            old(self).matches@.len() > 0 ==> final(self).current == (
                if old(self).current + 1 < old(self).matches@.len() { old(self).current + 1 as int } else { 0 }),
    {
        let len = self.matches.len();
        if len > 0 {
            self.current = if self.current + 1 < len { self.current + 1 } else { 0 };
        }
    }

    /// Steps to the previous match, wrapping around from the first to
    /// the last.
    pub fn prev_match(&mut self)
        ensures
            *final(self) == (SearchState { current: final(self).current, ..*old(self) }),
            old(self).matches@.len() == 0 ==> final(self).current == old(self).current,
            old(self).matches@.len() > 0 ==> final(self).current == (
                if old(self).current == 0 { old(self).matches@.len() - 1 } else { old(self).current - 1 as int }),
    {
        let len = self.matches.len();
        if len > 0 {
            self.current = if self.current == 0 { len - 1 } else { self.current - 1 };
        }
    }

    /// The match the cursor stands on, if any.
    pub fn current_match(&self) -> (r: Option<&SearchMatch>)
        ensures
            self.current < self.matches@.len() ==> r == Some(&self.matches@[self.current as int]),
            self.current >= self.matches@.len() ==> r is None,
    {
        if self.current < self.matches.len() {
            Some(&self.matches[self.current])
        } else {
            None
        }
    }

    /// Whether any match covers the cell at `(global_row, col)`.
    pub fn is_highlighted(&self, global_row: usize, col: usize) -> (r: bool)
        ensures
            r == exists|k: int| 0 <= k < self.matches@.len()
                && (#[trigger] self.matches@[k]).global_row == global_row
                && self.matches@[k].col_start <= col < self.matches@[k].col_end,
    {
        let mut k: usize = 0;
        while k < self.matches.len()
            invariant
                k <= self.matches@.len(),
                forall|j: int| 0 <= j < k ==> !((#[trigger] self.matches@[j]).global_row == global_row
                    && self.matches@[j].col_start <= col < self.matches@[j].col_end),
            decreases self.matches@.len() - k,
        {
            let m = self.matches[k];
            if m.global_row == global_row && col >= m.col_start && col < m.col_end {
                return true;
            }
            k = k + 1;
        }
        false
    }

    /// Whether the current match covers the cell at `(global_row, col)`.
    pub fn is_current_highlight(&self, global_row: usize, col: usize) -> (r: bool)
        ensures
            r == (self.current < self.matches@.len() && {
                let m = self.matches@[self.current as int];
                m.global_row == global_row && m.col_start <= col < m.col_end
            }),
    {
        match self.current_match() {
            Some(m) => m.global_row == global_row && col >= m.col_start && col < m.col_end,
            None => false,
        }
    }
}

} // verus!

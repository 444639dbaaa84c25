use vstd::prelude::*;

use crate::text::chars_to_string;
use crate::text::is_whitespace_char;
use crate::text::is_whitespace_of;
use crate::text::str_chars;

verus! {

/// A character that ends a URL run: white space or one of `" ' < >`.
pub open spec fn is_url_stop(c: char) -> bool {
    is_whitespace_of(c) || c == '"' || c == '\'' || c == '>' || c == '<'
}

fn is_url_stop_exec(c: char) -> (r: bool)
    ensures
        r == is_url_stop(c),
{
    is_whitespace_char(c) || c == '"' || c == '\'' || c == '>' || c == '<'
}

/// Trailing punctuation that is stripped from the end of a URL.
pub open spec fn is_trim_char(c: char) -> bool {
    c == '.' || c == ',' || c == ')' || c == ']' || c == ';' || c == ':' || c == '!' || c == '?'
}

fn is_trim_char_exec(c: char) -> (r: bool)
    ensures
        r == is_trim_char(c),
{
    c == '.' || c == ',' || c == ')' || c == ']' || c == ';' || c == ':' || c == '!' || c == '?'
}

/// `http://` or `https://` starts at position `i`.
pub open spec fn has_url_prefix(cs: Seq<char>, i: int) -> bool {
    ||| (0 <= i && i + 7 <= cs.len() && cs[i] == 'h' && cs[i + 1] == 't' && cs[i + 2] == 't'
        && cs[i + 3] == 'p' && cs[i + 4] == ':' && cs[i + 5] == '/' && cs[i + 6] == '/')
    ||| (0 <= i && i + 8 <= cs.len() && cs[i] == 'h' && cs[i + 1] == 't' && cs[i + 2] == 't'
        && cs[i + 3] == 'p' && cs[i + 4] == 's' && cs[i + 5] == ':' && cs[i + 6] == '/'
        && cs[i + 7] == '/')
}

fn has_url_prefix_exec(cs: &Vec<char>, i: usize) -> (r: bool)
    requires
        i <= cs@.len(),
    ensures
        r == has_url_prefix(cs@, i as int),
{
    let n = cs.len();
    if n - i >= 7 && cs[i] == 'h' && cs[i + 1] == 't' && cs[i + 2] == 't' && cs[i + 3] == 'p' {
        if cs[i + 4] == ':' && cs[i + 5] == '/' && cs[i + 6] == '/' {
            return true;
        }
        if n - i >= 8 && cs[i + 4] == 's' && cs[i + 5] == ':' && cs[i + 6] == '/' && cs[i + 7] == '/' {
            return true;
        }
        return false;
    }
    false
}

/// The first position at or past `i` holding a stop character, or the
/// end of the sequence.
pub open spec fn run_end(cs: Seq<char>, i: int) -> int
    decreases cs.len() - i,
{
    if i >= cs.len() || is_url_stop(cs[i]) {
        i
    } else {
        run_end(cs, i + 1)
    }
}

/// The end position after stripping trailing punctuation, never below
/// `s`.
pub open spec fn trim_back(cs: Seq<char>, s: int, e: int) -> int
    decreases e - s,
{
    if e > s && is_trim_char(cs[e - 1]) {
        trim_back(cs, s, e - 1)
    } else {
        e
    }
}

/// The URL ranges a greedy left-to-right scan reports from position `i`:
/// at each scheme prefix the run extends to the next stop character,
/// trailing punctuation is stripped, ranges longer than the bare scheme
/// are reported, and scanning resumes past the range.
pub open spec fn scan_urls(cs: Seq<char>, i: int) -> Seq<(int, int)>
    decreases cs.len() - i,
{
    if i < 0 || i >= cs.len() {
        Seq::<(int, int)>::empty()
    } else if has_url_prefix(cs, i) {
        let e = trim_back(cs, i, run_end(cs, i));
        let next = if i + 1 <= e && e <= cs.len() { e } else { i + 1 };
        let rest = scan_urls(cs, next);
        if e > i + 8 {
            seq![(i, e)] + rest
        } else {
            rest
        }
    } else {
        scan_urls(cs, i + 1)
    }
}

/// The start and end columns of each reported URL.
pub open spec fn result_pairs(r: Seq<(usize, usize, String)>) -> Seq<(int, int)> {
    r.map_values(|t: (usize, usize, String)| (t.0 as int, t.1 as int))
}

/// Finds every `http://` or `https://` URL in the line: returns
/// `(start_col, end_col, url_text)` per URL, as the greedy scan
/// `scan_urls` lays down.
pub fn detect_urls(line: &str) -> (r: Vec<(usize, usize, String)>)
    ensures
        result_pairs(r@) == scan_urls(line@, 0),
        forall|k: int| 0 <= k < r@.len() ==>
            (#[trigger] r@[k]).2@ == line@.subrange(r@[k].0 as int, r@[k].1 as int),
{
    let cs = str_chars(line);
    let n = cs.len();
    let mut out: Vec<(usize, usize, String)> = Vec::new();
    let mut i: usize = 0;
    while i < n
        invariant
            cs@ == line@,
            n == cs@.len(),
            i <= n,
            result_pairs(out@) + scan_urls(cs@, i as int) == scan_urls(cs@, 0),
            forall|k: int| 0 <= k < out@.len() ==>
                (#[trigger] out@[k]).2@ == cs@.subrange(out@[k].0 as int, out@[k].1 as int),
        decreases n - i,
    {
        let ghost pre_out = out@;
        if has_url_prefix_exec(&cs, i) {
            let mut e: usize = i;
            while e < n && !is_url_stop_exec(cs[e])
                invariant
                    i <= e <= n,
                    n == cs@.len(),
                    run_end(cs@, i as int) == run_end(cs@, e as int),
                decreases n - e,
            {
                e = e + 1;
            }
            proof {
                assert(run_end(cs@, e as int) == e);
            }
            let ghost re = e as int;
            while e > i && is_trim_char_exec(cs[e - 1])
                invariant
                    i <= e <= n,
                    n == cs@.len(),
                    trim_back(cs@, i as int, re) == trim_back(cs@, i as int, e as int),
                decreases e,
            {
                e = e - 1;
            }
            proof {
                assert(trim_back(cs@, i as int, e as int) == e);
                assert(e == trim_back(cs@, i as int, run_end(cs@, i as int)));
            }
            if e - i > 8 {
                let mut sub: Vec<char> = Vec::new();
                let mut j = i;
                while j < e
                    invariant
                        i <= j <= e,
                        e <= n,
                        n == cs@.len(),
                        sub@ == cs@.subrange(i as int, j as int),
                    decreases e - j,
                {
                    sub.push(cs[j]);
                    proof {
                        assert(sub@ =~= cs@.subrange(i as int, (j + 1) as int));
                    }
                    j = j + 1;
                }
                let url = chars_to_string(&sub);
                out.push((i, e, url));
                proof {
                    assert(result_pairs(out@) =~= result_pairs(pre_out).push((i as int, e as int)));
                }
            }
            let next = if e > i { e } else { i + 1 };
            proof {
                let si = i as int;
                let spec_e = trim_back(cs@, si, run_end(cs@, si));
                let spec_next = if si + 1 <= spec_e && spec_e <= cs@.len() { spec_e } else { si + 1 };
                assert(spec_e == e as int);
                assert(spec_next == next as int);
                if e as int > si + 8 {
                    assert(scan_urls(cs@, si) =~= seq![(si, e as int)] + scan_urls(cs@, next as int));
                    assert(result_pairs(out@) + scan_urls(cs@, next as int)
                        =~= result_pairs(pre_out) + scan_urls(cs@, si));
                } else {
                    assert(scan_urls(cs@, si) == scan_urls(cs@, next as int));
                }
            }
            i = next;
        } else {
            i = i + 1;
        }
    }
    proof {
        assert(scan_urls(cs@, i as int) =~= Seq::<(int, int)>::empty());
        assert(result_pairs(out@) =~= result_pairs(out@) + scan_urls(cs@, i as int));
    }
    out
}

} // verus!

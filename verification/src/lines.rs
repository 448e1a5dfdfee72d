//! Line handling for the file tools: splitting file text into lines the way
//! Rust's `str::lines` does, the indent and blankness of a single line, and
//! the truncation applied to overlong lines before display.

use vstd::prelude::*;
use crate::chars::{indent_of, is_blank, is_ws};
use crate::chars::{is_whitespace_char, measure_indent};
use crate::strutil::{chars_string, str_chars};

verus! {

/// Longest line content displayed; anything longer is cut and marked.
pub const MAX_LINE_LENGTH: usize = 2000;

/// Index of the first newline in `s`, or `s.len()` if there is none.
pub open spec fn first_nl(s: Seq<char>) -> int
    decreases s.len(),
{
    if s.len() == 0 {
        0
    } else if s[0] == '\n' {
        0
    } else {
        1 + first_nl(s.skip(1))
    }
}

pub proof fn lemma_first_nl(s: Seq<char>)
    ensures
        0 <= first_nl(s) <= s.len(),
        first_nl(s) < s.len() ==> s[first_nl(s)] == '\n',
        forall|j: int| 0 <= j < first_nl(s) ==> s[j] != '\n',
    decreases s.len(),
{
    if s.len() > 0 && s[0] != '\n' {
        lemma_first_nl(s.skip(1));
        assert forall|j: int| 0 <= j < first_nl(s) implies s[j] != '\n' by {
            if j > 0 {
                assert(s.skip(1)[j - 1] == s[j]);
            }
        }
        if first_nl(s) < s.len() {
            assert(s.skip(1)[first_nl(s) - 1] == s[first_nl(s)]);
        }
    }
}

/// The lines of a text, as `str::lines` yields them: split at `'\n'`, one
/// `'\r'` directly before the split is dropped, and a final line ending
/// produces no extra empty line.
pub open spec fn lines_spec(s: Seq<char>) -> Seq<Seq<char>>
    decreases s.len(),
{
    if s.len() == 0 {
        Seq::empty()
    } else {
        let i = first_nl(s);
        if !(0 <= i < s.len()) {
            seq![s]
        } else {
            let line = if i > 0 && s[i - 1] == '\r' {
                s.take(i - 1)
            } else {
                s.take(i)
            };
            seq![line] + lines_spec(s.skip(i + 1))
        }
    }
}

/// Splitting a prefix that ends right after a newline accounts for exactly
/// the lines of that prefix; the rest of the text supplies the remainder.
proof fn lemma_lines_append(s: Seq<char>, k: int)
    requires
        0 <= k < s.len(),
        s[k] == '\n',
        forall|j: int| 0 <= j < k ==> s[j] != '\n',
    ensures
        lines_spec(s) == seq![
            if k > 0 && s[k - 1] == '\r' {
                s.take(k - 1)
            } else {
                s.take(k)
            },
        ] + lines_spec(s.skip(k + 1)),
{
    lemma_first_nl(s);
    assert(first_nl(s) == k) by {
        if first_nl(s) < k {
            assert(s[first_nl(s)] == '\n');
        }
        if first_nl(s) > k {
            assert(s[k] != '\n');
        }
    }
}

/// Splits file text into its lines.
pub fn split_lines(contents: &str) -> (r: Vec<String>)
    ensures
        r.deep_view() == lines_spec(contents@),
{
    let cs = str_chars(contents);
    let ghost s = contents@;
    let mut out: Vec<String> = Vec::new();
    let mut cur: Vec<char> = Vec::new();
    let mut j: usize = 0;
    let ghost mut start: int = 0;
    proof {
        assert(s.skip(0) =~= s);
        assert(out.deep_view() =~= Seq::<Seq<char>>::empty());
        assert(out.deep_view() + lines_spec(s.skip(start)) =~= lines_spec(s));
    }
    while j < cs.len()
        invariant
            cs@ == s,
            0 <= start <= j <= s.len(),
            cur@ == s.subrange(start, j as int),
            forall|t: int| start <= t < j ==> s[t] != '\n',
            out.deep_view() + lines_spec(s.skip(start)) == lines_spec(s),
        decreases s.len() - j,
    {
        let c = cs[j];
        if c == '\n' {
            proof {
                lemma_lines_append(s.skip(start), j - start);
                assert(s.skip(start).skip(j - start + 1) =~= s.skip(j + 1));
                assert(s.skip(start).take(j - start) =~= s.subrange(start, j as int));
                if j - start > 0 {
                    assert(s.skip(start).take(j - start - 1) =~= s.subrange(start, j - 1));
                    assert(s.skip(start)[j - start - 1] == s[j - 1]);
                }
            }
            if cur.len() > 0 && cur[cur.len() - 1] == '\r' {
                cur.pop();
                proof {
                    assert(cur@ =~= s.subrange(start, j - 1));
                }
            }
            let line = chars_string(&cur);
            out.push(line);
            proof {
                assert(out.deep_view() =~= out.deep_view().subrange(0, out.deep_view().len() - 1)
                    + seq![cur@]);
                start = j + 1;
            }
            cur = Vec::new();
            proof {
                assert(cur@ =~= s.subrange(start, j + 1));
            }
        } else {
            cur.push(c);
            proof {
                assert(cur@ =~= s.subrange(start, j + 1));
            }
        }
        j = j + 1;
    }
    proof {
        lemma_first_nl(s.skip(start));
    }
    if cur.len() > 0 {
        let line = chars_string(&cur);
        out.push(line);
        proof {
            assert(s.skip(start) =~= s.subrange(start, s.len() as int));
            assert(lines_spec(s.skip(start)) =~= seq![s.skip(start)]);
            assert(out.deep_view() =~= out.deep_view().subrange(0, out.deep_view().len() - 1)
                + seq![cur@]);
            assert(cur@ =~= s.skip(start));
            assert(out.deep_view() =~= lines_spec(s));
        }
    } else {
        proof {
            assert(s.skip(start) =~= Seq::<char>::empty());
            assert(out.deep_view() + lines_spec(s.skip(start)) =~= out.deep_view());
        }
    }
    proof {
        assert(out.deep_view() =~= lines_spec(s));
    }
    out
}

/// Indent of a line: leading whitespace, a tab counting four columns and any
/// other whitespace character one.
pub fn line_indent(line: &str) -> (r: usize)
    ensures
        r == indent_of(line@),
{
    let cs = str_chars(line);
    measure_indent(&cs)
}

/// Whether a line consists of whitespace only.
pub fn is_blank_line(line: &str) -> (r: bool)
    ensures
        r == is_blank(line@),
{
    let cs = str_chars(line);
    let mut i: usize = 0;
    while i < cs.len()
        invariant
            cs@ == line@,
            0 <= i <= cs@.len(),
            forall|j: int| 0 <= j < i ==> is_ws(line@[j]),
        decreases cs@.len() - i,
    {
        if !is_whitespace_char(cs[i]) {
            return false;
        }
        i = i + 1;
    }
    true
}

/// Display form of a line: kept as is up to the length cap, otherwise cut at
/// the cap with an ellipsis appended.
pub open spec fn trunc_spec(line: Seq<char>) -> Seq<char> {
    if line.len() <= MAX_LINE_LENGTH {
        line
    } else {
        line.take(MAX_LINE_LENGTH as int) + seq!['.', '.', '.']
    }
}

/// Cuts a line for display at the length cap, marking the cut.
pub fn truncate_line(line: &str) -> (r: String)
    ensures
        r@ == trunc_spec(line@),
{
    let cs = str_chars(line);
    if cs.len() <= MAX_LINE_LENGTH {
        return chars_string(&cs);
    }
    let mut cut: Vec<char> = Vec::new();
    let mut i: usize = 0;
    while i < MAX_LINE_LENGTH
        invariant
            cs@ == line@,
            MAX_LINE_LENGTH < cs@.len(),
            0 <= i <= MAX_LINE_LENGTH,
            cut@ == line@.take(i as int),
        decreases MAX_LINE_LENGTH - i,
    {
        cut.push(cs[i]);
        proof {
            assert(line@.take(i + 1) =~= line@.take(i as int).push(line@[i as int]));
        }
        i = i + 1;
    }
    cut.push('.');
    cut.push('.');
    cut.push('.');
    proof {
        assert(cut@ =~= trunc_spec(line@));
    }
    chars_string(&cut)
}

} // verus!

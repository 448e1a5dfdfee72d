//! Character-level helpers shared by the file tools: the whitespace
//! classification used for indentation, and the indent measure of a line
//! (a tab counts as four columns, any other whitespace character as one).

use vstd::prelude::*;

verus! {

/// The characters Rust's `char::is_whitespace` accepts: the Unicode
/// `White_Space` property.
pub open spec fn is_ws(c: char) -> bool {
    c == ' ' || c == '\t' || c == '\n' || c == '\r' || c == '\u{000B}' || c == '\u{000C}'
        || c == '\u{0085}' || c == '\u{00A0}' || c == '\u{1680}' || c == '\u{2000}'
        || c == '\u{2001}' || c == '\u{2002}' || c == '\u{2003}' || c == '\u{2004}'
        || c == '\u{2005}' || c == '\u{2006}' || c == '\u{2007}' || c == '\u{2008}'
        || c == '\u{2009}' || c == '\u{200A}' || c == '\u{2028}' || c == '\u{2029}'
        || c == '\u{202F}' || c == '\u{205F}' || c == '\u{3000}'
}

/// Whitespace test over the fixed `White_Space` set, written out so that the
/// executable code needs nothing beyond character comparison.
pub fn is_whitespace_char(c: char) -> (r: bool)
    ensures
        r == is_ws(c),
{
    c == ' ' || c == '\t' || c == '\n' || c == '\r' || c == '\u{000B}' || c == '\u{000C}'
        || c == '\u{0085}' || c == '\u{00A0}' || c == '\u{1680}' || c == '\u{2000}'
        || c == '\u{2001}' || c == '\u{2002}' || c == '\u{2003}' || c == '\u{2004}'
        || c == '\u{2005}' || c == '\u{2006}' || c == '\u{2007}' || c == '\u{2008}'
        || c == '\u{2009}' || c == '\u{200A}' || c == '\u{2028}' || c == '\u{2029}'
        || c == '\u{202F}' || c == '\u{205F}' || c == '\u{3000}'
}

/// The column width a whitespace character contributes to the indent of a
/// line: four for a tab, one for anything else.
pub open spec fn ws_width(c: char) -> nat {
    if c == '\t' {
        4nat
    } else {
        1nat
    }
}

/// The summed widths of a line's leading whitespace characters.
pub open spec fn raw_indent(line: Seq<char>) -> nat
    decreases line.len(),
{
    if line.len() == 0 || !is_ws(line[0]) {
        0
    } else {
        ws_width(line[0]) + raw_indent(line.skip(1))
    }
}

/// Indent of a line: the summed widths of its leading whitespace characters,
/// saturating at `usize::MAX` so that the measure always fits the machine.
pub open spec fn indent_of(line: Seq<char>) -> nat {
    if raw_indent(line) <= usize::MAX as nat {
        raw_indent(line)
    } else {
        usize::MAX as nat
    }
}

/// A line is blank when every character is whitespace; such lines separate
/// blocks without bounding them.
pub open spec fn is_blank(line: Seq<char>) -> bool {
    forall|i: int| 0 <= i < line.len() ==> is_ws(line[i])
}

/// Index of the first non-whitespace character, or `s.len()` if all
/// characters are whitespace.
pub open spec fn first_non_ws(s: Seq<char>) -> int
    decreases s.len(),
{
    if s.len() == 0 {
        0
    } else if !is_ws(s[0]) {
        0
    } else {
        1 + first_non_ws(s.skip(1))
    }
}

/// Index of the last non-whitespace character, or `-1` if there is none.
pub open spec fn last_non_ws(s: Seq<char>) -> int
    decreases s.len(),
{
    if s.len() == 0 {
        -1
    } else if !is_ws(s.last()) {
        s.len() - 1
    } else {
        last_non_ws(s.drop_last())
    }
}

/// The text with leading and trailing whitespace removed.
pub open spec fn trim_spec(s: Seq<char>) -> Seq<char> {
    let f = first_non_ws(s);
    let e = last_non_ws(s) + 1;
    if e >= f {
        s.subrange(f, e)
    } else {
        Seq::empty()
    }
}

pub proof fn lemma_first_non_ws(s: Seq<char>)
    ensures
        0 <= first_non_ws(s) <= s.len(),
        first_non_ws(s) < s.len() ==> !is_ws(s[first_non_ws(s)]),
        forall|j: int| 0 <= j < first_non_ws(s) ==> is_ws(s[j]),
    decreases s.len(),
{
    if s.len() > 0 && is_ws(s[0]) {
        lemma_first_non_ws(s.skip(1));
        assert forall|j: int| 0 <= j < first_non_ws(s) implies is_ws(s[j]) by {
            if j > 0 {
                assert(s.skip(1)[j - 1] == s[j]);
            }
        }
        if first_non_ws(s) < s.len() {
            assert(s.skip(1)[first_non_ws(s) - 1] == s[first_non_ws(s)]);
        }
    }
}

pub proof fn lemma_last_non_ws(s: Seq<char>)
    ensures
        -1 <= last_non_ws(s) < s.len(),
        last_non_ws(s) >= 0 ==> !is_ws(s[last_non_ws(s)]),
        forall|j: int| last_non_ws(s) < j < s.len() ==> is_ws(s[j]),
    decreases s.len(),
{
    if s.len() > 0 && is_ws(s.last()) {
        lemma_last_non_ws(s.drop_last());
        assert forall|j: int| last_non_ws(s) < j < s.len() implies is_ws(s[j]) by {
            if j < s.len() - 1 {
                assert(s.drop_last()[j] == s[j]);
            }
        }
        if last_non_ws(s) >= 0 {
            assert(s.drop_last()[last_non_ws(s)] == s[last_non_ws(s)]);
        }
    }
}

/// Pins the first-non-whitespace index from its defining properties.
pub proof fn lemma_first_non_ws_at(s: Seq<char>, b: int)
    requires
        0 <= b <= s.len(),
        forall|j: int| 0 <= j < b ==> is_ws(s[j]),
        b < s.len() ==> !is_ws(s[b]),
    ensures
        first_non_ws(s) == b,
{
    lemma_first_non_ws(s);
    if first_non_ws(s) < b {
        assert(is_ws(s[first_non_ws(s)]));
    }
    if first_non_ws(s) > b {
        assert(is_ws(s[b]));
    }
}

/// Pins the last-non-whitespace index from its defining properties.
pub proof fn lemma_last_non_ws_at(s: Seq<char>, e: int)
    requires
        -1 <= e < s.len(),
        forall|j: int| e < j < s.len() ==> is_ws(s[j]),
        e >= 0 ==> !is_ws(s[e]),
    ensures
        last_non_ws(s) == e,
{
    lemma_last_non_ws(s);
    if last_non_ws(s) < e {
        assert(is_ws(s[e]));
    }
    if last_non_ws(s) > e {
        assert(is_ws(s[last_non_ws(s)]));
    }
}

proof fn lemma_raw_indent_step(line: Seq<char>, i: int)
    requires
        0 <= i < line.len(),
    ensures
        is_ws(line[i]) ==> raw_indent(line.skip(i)) == ws_width(line[i]) + raw_indent(
            line.skip(i + 1),
        ),
        !is_ws(line[i]) ==> raw_indent(line.skip(i)) == 0,
{
    assert(line.skip(i)[0] == line[i]);
    if is_ws(line[i]) {
        assert(line.skip(i).skip(1) =~= line.skip(i + 1));
    }
}

/// Measures the indent of a line of characters.
pub fn measure_indent(line: &Vec<char>) -> (r: usize)
    ensures
        r == indent_of(line@),
{
    let mut i: usize = 0;
    let mut total: usize = 0;
    proof {
        assert(line@.skip(0) =~= line@);
    }
    loop
        invariant
            0 <= i <= line@.len(),
            total + raw_indent(line@.skip(i as int)) == raw_indent(line@),
        decreases line@.len() - i,
    {
        if i >= line.len() {
            proof {
                assert(line@.skip(i as int) =~= Seq::<char>::empty());
            }
            return total;
        }
        let c = line[i];
        if !is_whitespace_char(c) {
            proof {
                lemma_raw_indent_step(line@, i as int);
            }
            return total;
        }
        let w: usize = if c == '\t' {
            4
        } else {
            1
        };
        proof {
            lemma_raw_indent_step(line@, i as int);
        }
        if total > usize::MAX - w {
            // Only reachable when the true indent no longer fits in usize.
            return usize::MAX;
        }
        total = total + w;
        i = i + 1;
    }
}

} // verus!

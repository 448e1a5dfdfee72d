//! Uniform text rendering: numbered output lines, the file-output frame with
//! its empty-range marker, and the error format every tool failure uses.

use vstd::prelude::*;
use crate::lines::{trunc_spec, truncate_line};
use crate::numfmt::{append_padded_number, padded_number};
use crate::strutil::{append_str, chars_string};

verus! {

/// The uniform error text of a failed tool call.
pub open spec fn tool_error_spec(tool: Seq<char>, message: Seq<char>) -> Seq<char> {
    "ERROR ("@ + tool + "): "@ + message + "\n"@
}

/// Renders the uniform error text of a failed tool call.
pub fn format_tool_error(tool: &str, message: &str) -> (r: String)
    ensures
        r@ == tool_error_spec(tool@, message@),
{
    let mut out: Vec<char> = Vec::new();
    append_str(&mut out, "ERROR (");
    append_str(&mut out, tool);
    append_str(&mut out, "): ");
    append_str(&mut out, message);
    append_str(&mut out, "\n");
    proof {
        assert(out@ =~= tool_error_spec(tool@, message@));
    }
    chars_string(&out)
}

/// One numbered output line: the 1-based line number right-aligned in its
/// column, a separator, and the possibly truncated content.
pub open spec fn numbered_line_spec(n: nat, line: Seq<char>) -> Seq<char> {
    padded_number(n) + "| "@ + trunc_spec(line)
}

/// Renders one numbered output line.
pub fn render_numbered_line(n: usize, line: &str) -> (r: String)
    ensures
        r@ == numbered_line_spec(n as nat, line@),
{
    let mut out: Vec<char> = Vec::new();
    append_padded_number(&mut out, n);
    append_str(&mut out, "| ");
    let cut = truncate_line(line);
    append_str(&mut out, cut.as_str());
    proof {
        assert(out@ =~= numbered_line_spec(n as nat, line@));
    }
    chars_string(&out)
}

/// The given lines, each followed by a newline.
pub open spec fn joined_lines(ls: Seq<Seq<char>>) -> Seq<char>
    decreases ls.len(),
{
    if ls.len() == 0 {
        Seq::empty()
    } else {
        joined_lines(ls.drop_last()) + ls.last() + "\n"@
    }
}

/// File output: a header naming the file, then the prepared lines, or the
/// empty-range marker when there are none.
pub open spec fn file_output_spec(path: Seq<char>, ls: Seq<Seq<char>>) -> Seq<char> {
    "FILE: "@ + path + "\n"@ + if ls.len() == 0 {
        "(no lines in range)\n"@
    } else {
        joined_lines(ls)
    }
}

/// Frames prepared output lines under a header naming the file; an empty
/// line list yields the explicit empty-range marker instead of an error.
pub fn format_file_output(path: &str, lines: &Vec<String>) -> (r: String)
    ensures
        r@ == file_output_spec(path@, lines.deep_view()),
{
    let ghost v = lines.deep_view();
    let mut out: Vec<char> = Vec::new();
    append_str(&mut out, "FILE: ");
    append_str(&mut out, path);
    append_str(&mut out, "\n");
    if lines.len() == 0 {
        append_str(&mut out, "(no lines in range)\n");
        proof {
            assert(out@ =~= file_output_spec(path@, v));
        }
        return chars_string(&out);
    }
    let ghost head = out@;
    let mut i: usize = 0;
    proof {
        crate::extract::lemma_deep_view_index(lines);
        assert(joined_lines(v.take(0)) =~= Seq::<char>::empty());
        assert(out@ =~= head + joined_lines(v.take(0)));
    }
    while i < lines.len()
        invariant
            0 <= i <= lines@.len(),
            v == lines.deep_view(),
            v.len() == lines@.len(),
            forall|j: int| 0 <= j < v.len() ==> #[trigger] v[j] == lines@[j]@,
            out@ == head + joined_lines(v.take(i as int)),
        decreases lines@.len() - i,
    {
        append_str(&mut out, lines[i].as_str());
        append_str(&mut out, "\n");
        proof {
            assert(v.take(i + 1).drop_last() =~= v.take(i as int));
            assert(v.take(i + 1).last() == v[i as int]);
            assert(out@ =~= head + joined_lines(v.take(i + 1)));
        }
        i = i + 1;
    }
    proof {
        assert(v.take(v.len() as int) =~= v);
        assert(out@ =~= file_output_spec(path@, v));
    }
    chars_string(&out)
}

} // verus!

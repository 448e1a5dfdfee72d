//! The file-reading tool: slice mode returns a numbered window of lines, and
//! indentation mode returns the numbered block extracted around an anchor.

use vstd::prelude::*;
use crate::args::{
    eff_anchor_line,
    eff_limit,
    eff_offset,
    IndentationOptions,
    ReadFileArgs,
};
use crate::args::{effective_limit, effective_offset};
use crate::chars::indent_of;
use crate::extract::{
    expand_levels,
    header_end,
    resolved_anchor,
    scan_end_down,
    scan_start_up,
    LinesView,
};
use crate::chars::is_blank;
use crate::extract::{
    lemma_resolved_anchor_non_blank,
    lemma_scan_down_bounded,
    lemma_scan_end_down_props,
    lemma_scan_start_up_props,
    lemma_scan_up_bounded,
};
use crate::extract::{
    expand_start_for_levels,
    find_block_end_down,
    find_block_start_up,
    find_header_end,
    find_non_blank_line,
    find_parent_boundary_down,
    find_parent_boundary_up,
    lemma_deep_view_index,
    lemma_resolved_anchor_range,
    lemma_scan_end_down_range,
    lemma_scan_start_up_range,
};
use crate::lines::{line_indent, lines_spec, split_lines};
use crate::render::{file_output_spec, format_file_output, numbered_line_spec,
    render_numbered_line};

verus! {

/// The numbered lines a slice read shows: the window of `limit` lines
/// starting at 1-based line `offset`, clamped to the file.
pub open spec fn slice_rendered(lines: LinesView, offset: nat, limit: nat) -> Seq<Seq<char>> {
    let start = offset - 1;
    if start >= lines.len() {
        Seq::empty()
    } else {
        let count = if limit <= lines.len() - start {
            limit as int
        } else {
            lines.len() - start
        };
        Seq::new(count as nat, |k: int| numbered_line_spec((offset + k) as nat, lines[start + k]))
    }
}

/// A slice read returns exactly `min(limit, max(0, file_len - offset + 1))`
/// numbered lines.
pub proof fn lemma_slice_line_count(lines: LinesView, offset: nat, limit: nat)
    requires
        offset >= 1,
    ensures
        slice_rendered(lines, offset, limit).len() == if limit as int <= (if lines.len() - offset
            + 1 >= 0 {
            lines.len() - offset + 1
        } else {
            0
        }) {
            limit as int
        } else {
            if lines.len() - offset + 1 >= 0 {
                lines.len() - offset + 1
            } else {
                0
            }
        },
{
}

/// A slice read whose offset lies beyond the end of the file returns the
/// explicit empty-range marker under the file header, not an error.
pub proof fn lemma_slice_beyond_end(path: Seq<char>, lines: LinesView, offset: nat, limit: nat)
    requires
        offset - 1 >= lines.len(),
    ensures
        file_output_spec(path, slice_rendered(lines, offset, limit)) == "FILE: "@ + path + "\n"@
            + "(no lines in range)\n"@,
{
}

/// Reads a window of lines from the file text: 1-based `offset`, at most
/// `limit` lines, numbered output, empty-range marker past the end.
pub fn read_file_slice(path: &str, contents: &str, args: &ReadFileArgs) -> (r: String)
    ensures
        r@ == file_output_spec(
            path@,
            slice_rendered(
                lines_spec(contents@),
                eff_offset(args.offset),
                eff_limit(args.limit),
            ),
        ),
{
    let offset = effective_offset(&args.offset);
    let limit = effective_limit(&args.limit);
    let lines = split_lines(contents);
    let ghost v = lines.deep_view();
    proof {
        lemma_deep_view_index(&lines);
    }
    let n = lines.len();
    let start = offset - 1;
    if start >= n {
        let empty: Vec<String> = Vec::new();
        proof {
            assert(empty.deep_view() =~= Seq::<Seq<char>>::empty());
        }
        return format_file_output(path, &empty);
    }
    let count = if limit <= n - start {
        limit
    } else {
        n - start
    };
    let ghost rendered_spec = slice_rendered(v, offset as nat, limit as nat);
    let mut rendered: Vec<String> = Vec::new();
    let mut k: usize = 0;
    while k < count
        invariant
            0 <= k <= count,
            start + count <= n,
            offset == start + 1,
            count == rendered_spec.len(),
            n == v.len(),
            v == lines.deep_view(),
            v.len() == lines@.len(),
            forall|j: int| 0 <= j < v.len() ==> #[trigger] v[j] == lines@[j]@,
            rendered_spec == slice_rendered(v, offset as nat, limit as nat),
            rendered@.len() == k,
            forall|t: int| 0 <= t < k ==> #[trigger] rendered@[t]@ == rendered_spec[t],
            forall|t: int|
                0 <= t < rendered_spec.len() ==> rendered_spec[t] == numbered_line_spec(
                    (offset + t) as nat,
                    v[start + t],
                ),
        decreases count - k,
    {
        let line = render_numbered_line(offset + k, lines[start + k].as_str());
        rendered.push(line);
        k = k + 1;
    }
    proof {
        assert forall|t: int| 0 <= t < rendered_spec.len() implies rendered.deep_view()[t]
            == rendered_spec[t] by {
            assert(rendered.deep_view()[t] == rendered@[t]@);
        }
        assert(rendered.deep_view() =~= rendered_spec);
    }
    format_file_output(path, &rendered)
}

/// The effective anchor line of indentation options.
pub open spec fn opt_anchor(io: Option<IndentationOptions>) -> nat {
    match io {
        Some(o) => eff_anchor_line(o.anchor_line),
        None => 1,
    }
}

/// The effective sibling flag of indentation options.
pub open spec fn opt_siblings(io: Option<IndentationOptions>) -> bool {
    match io {
        Some(o) => match o.include_siblings {
            Some(b) => b,
            None => false,
        },
        None => false,
    }
}

/// The effective header flag of indentation options.
pub open spec fn opt_header(io: Option<IndentationOptions>) -> bool {
    match io {
        Some(o) => match o.include_header {
            Some(b) => b,
            None => true,
        },
        None => true,
    }
}

/// The effective level budget of indentation options.
pub open spec fn opt_levels(io: Option<IndentationOptions>) -> nat {
    match io {
        Some(o) => match o.max_levels {
            Some(m) => m as nat,
            None => 0,
        },
        None => 0,
    }
}

/// The line cap of indentation options, when one is given.
pub open spec fn opt_max_lines(io: Option<IndentationOptions>) -> Option<usize> {
    match io {
        Some(o) => o.max_lines,
        None => None,
    }
}

/// The anchor index: the effective anchor line made 0-based and clamped into
/// the file.
pub open spec fn clamped_anchor_index(lines: LinesView, io: Option<IndentationOptions>) -> int {
    if opt_anchor(io) - 1 <= lines.len() - 1 {
        opt_anchor(io) - 1
    } else {
        lines.len() - 1
    }
}

/// The block of lines indentation mode extracts, as an inclusive index range:
/// anchor resolution, the upward and downward boundary scans, level
/// re-expansion, header inclusion, degenerate-range repair, and the line cap
/// applied to the end only.
pub open spec fn block_bounds(lines: LinesView, io: Option<IndentationOptions>) -> (int, int) {
    let a = resolved_anchor(lines, clamped_anchor_index(lines, io));
    let base = indent_of(lines[a]);
    let sib = opt_siblings(io);
    let s0 = scan_start_up(lines, a, base, sib);
    let e0 = scan_end_down(lines, a + 1, base, sib);
    let s1 = if opt_levels(io) > 0 {
        expand_levels(lines, s0, s0, base, 0, opt_levels(io))
    } else {
        s0
    };
    let s2 = if opt_header(io) && header_end(lines) < s1 {
        header_end(lines)
    } else {
        s1
    };
    let e1 = if e0 < s2 {
        s2
    } else {
        e0
    };
    let e2 = match opt_max_lines(io) {
        Some(m) => {
            let m1: int = if m >= 1 {
                m as int
            } else {
                1
            };
            if e1 - s2 + 1 > m1 {
                s2 + m1 - 1
            } else {
                e1
            }
        },
        None => e1,
    };
    (s2, e2)
}

/// The block bounds always name a non-empty range of lines of the file.
pub proof fn lemma_block_bounds_range(lines: LinesView, io: Option<IndentationOptions>)
    requires
        lines.len() > 0,
    ensures
        0 <= block_bounds(lines, io).0 <= block_bounds(lines, io).1 < lines.len(),
{
    lemma_resolved_anchor_range(lines, clamped_anchor_index(lines, io));
    let a = resolved_anchor(lines, clamped_anchor_index(lines, io));
    let base = indent_of(lines[a]);
    let sib = opt_siblings(io);
    lemma_scan_start_up_range(lines, a, base, sib);
    lemma_scan_end_down_range(lines, a + 1, base, sib);
    let s0 = scan_start_up(lines, a, base, sib);
    if opt_levels(io) > 0 {
        crate::extract::lemma_expand_levels_range(lines, s0, s0, base, 0, opt_levels(io));
    }
    crate::extract::lemma_header_end_range(lines, 0, false);
}

/// Anchoring on any line that resolves to the same non-blank line as the
/// original anchor returns the identical block, whatever the other options.
pub proof fn lemma_reanchor_same_resolution(
    lines: LinesView,
    a: Option<IndentationOptions>,
    b: Option<IndentationOptions>,
)
    requires
        lines.len() > 0,
        opt_siblings(a) == opt_siblings(b),
        opt_header(a) == opt_header(b),
        opt_levels(a) == opt_levels(b),
        opt_max_lines(a) == opt_max_lines(b),
        resolved_anchor(lines, clamped_anchor_index(lines, a)) == resolved_anchor(
            lines,
            clamped_anchor_index(lines, b),
        ),
    ensures
        block_bounds(lines, a) == block_bounds(lines, b),
{
}

/// Including the file header never raises the start of the block: with equal
/// options otherwise, the start under `include_header` is at most the start
/// without it.
pub proof fn lemma_header_start_le(
    lines: LinesView,
    a: Option<IndentationOptions>,
    b: Option<IndentationOptions>,
)
    requires
        lines.len() > 0,
        opt_anchor(a) == opt_anchor(b),
        opt_siblings(a) == opt_siblings(b),
        opt_levels(a) == opt_levels(b),
        opt_header(a),
        !opt_header(b),
    ensures
        block_bounds(lines, a).0 <= block_bounds(lines, b).0,
{
}

/// A line cap of `m` cuts the block to exactly `max(m, 1)` lines whenever the
/// uncapped block is at least that long, and leaves it unchanged otherwise.
pub proof fn lemma_max_lines_count(
    lines: LinesView,
    a: Option<IndentationOptions>,
    b: Option<IndentationOptions>,
    m: usize,
)
    requires
        lines.len() > 0,
        opt_anchor(a) == opt_anchor(b),
        opt_siblings(a) == opt_siblings(b),
        opt_levels(a) == opt_levels(b),
        opt_header(a) == opt_header(b),
        opt_max_lines(a) == Some(m),
        opt_max_lines(b) == None::<usize>,
    ensures
        ({
            let m1: int = if m >= 1 {
                m as int
            } else {
                1
            };
            let capped = block_bounds(lines, a).1 - block_bounds(lines, a).0 + 1;
            let natural = block_bounds(lines, b).1 - block_bounds(lines, b).0 + 1;
            capped == if natural > m1 {
                m1
            } else {
                natural
            }
        }),
{
}

/// Without a line cap the block always contains the resolved anchor line,
/// whatever the other options; degenerate inputs still return at least that
/// line.
pub proof fn lemma_block_contains_anchor(lines: LinesView, io: Option<IndentationOptions>)
    requires
        lines.len() > 0,
        opt_max_lines(io) is None,
    ensures
        block_bounds(lines, io).0 <= resolved_anchor(lines, clamped_anchor_index(lines, io))
            <= block_bounds(lines, io).1,
{
    let a = resolved_anchor(lines, clamped_anchor_index(lines, io));
    lemma_resolved_anchor_range(lines, clamped_anchor_index(lines, io));
    let base = indent_of(lines[a]);
    let sib = opt_siblings(io);
    lemma_scan_start_up_range(lines, a, base, sib);
    lemma_scan_end_down_range(lines, a + 1, base, sib);
    let s0 = scan_start_up(lines, a, base, sib);
    if opt_levels(io) > 0 {
        crate::extract::lemma_expand_levels_range(lines, s0, s0, base, 0, opt_levels(io));
    }
}

/// Re-anchoring inside a block never escapes it: with siblings off, no
/// level expansion, no header widening and no line cap, the block computed
/// around any anchor that resolves to a line of the first block lies within
/// that block. (Re-anchoring on a strictly deeper line can return a smaller
/// block, so the two are not identical in general.)
pub proof fn lemma_reanchor_contained(
    lines: LinesView,
    io_a: Option<IndentationOptions>,
    io_b: Option<IndentationOptions>,
)
    requires
        lines.len() > 0,
        exists|k: int| 0 <= k < lines.len() && !is_blank(#[trigger] lines[k]),
        !opt_siblings(io_a),
        !opt_siblings(io_b),
        !opt_header(io_a),
        !opt_header(io_b),
        opt_levels(io_a) == 0,
        opt_levels(io_b) == 0,
        opt_max_lines(io_a) is None,
        opt_max_lines(io_b) is None,
        block_bounds(lines, io_a).0 <= resolved_anchor(lines, clamped_anchor_index(lines, io_b))
            <= block_bounds(lines, io_a).1,
    ensures
        block_bounds(lines, io_a).0 <= block_bounds(lines, io_b).0,
        block_bounds(lines, io_b).1 <= block_bounds(lines, io_a).1,
{
    let ia = clamped_anchor_index(lines, io_a);
    lemma_resolved_anchor_range(lines, ia);
    lemma_resolved_anchor_non_blank(lines, ia);
    let a = resolved_anchor(lines, ia);
    let base = indent_of(lines[a]);
    lemma_scan_start_up_range(lines, a, base, false);
    lemma_scan_end_down_range(lines, a + 1, base, false);
    lemma_scan_start_up_props(lines, a, base, false);
    lemma_scan_end_down_props(lines, a + 1, base, false);
    let s = scan_start_up(lines, a, base, false);
    let e = scan_end_down(lines, a + 1, base, false);
    assert(block_bounds(lines, io_a) == (s, e));
    let ib = clamped_anchor_index(lines, io_b);
    lemma_resolved_anchor_range(lines, ib);
    lemma_resolved_anchor_non_blank(lines, ib);
    let j = resolved_anchor(lines, ib);
    let wide = indent_of(lines[j]);
    assert(base <= wide) by {
        if j < a {
            assert(!is_blank(lines[j]) && s <= j < a);
        } else if j > a {
            assert(!is_blank(lines[j]) && a + 1 <= j <= e);
        }
    }
    lemma_scan_up_bounded(lines, j, wide, s, base);
    lemma_scan_down_bounded(lines, j + 1, wide, e, base);
    lemma_scan_start_up_range(lines, j, wide, false);
    lemma_scan_end_down_range(lines, j + 1, wide, false);
    assert(block_bounds(lines, io_b) == (
        scan_start_up(lines, j, wide, false),
        scan_end_down(lines, j + 1, wide, false),
    ));
}

/// The numbered lines of the extracted block.
pub open spec fn block_rendered(lines: LinesView, io: Option<IndentationOptions>) -> Seq<
    Seq<char>,
> {
    let (s, e) = block_bounds(lines, io);
    Seq::new((e - s + 1) as nat, |k: int| numbered_line_spec((s + 1 + k) as nat, lines[s + k]))
}

/// Extracts and renders the indentation block around the anchor line; an
/// empty file yields the empty-range marker.
pub fn read_file_indentation(path: &str, contents: &str, args: &ReadFileArgs) -> (r: String)
    ensures
        lines_spec(contents@).len() == 0 ==> r@ == file_output_spec(path@, Seq::empty()),
        lines_spec(contents@).len() > 0 ==> r@ == file_output_spec(
            path@,
            block_rendered(lines_spec(contents@), args.indentation),
        ),
{
    let lines = split_lines(contents);
    let ghost v = lines.deep_view();
    proof {
        lemma_deep_view_index(&lines);
    }
    let n = lines.len();
    if n == 0 {
        let empty: Vec<String> = Vec::new();
        proof {
            assert(empty.deep_view() =~= Seq::<Seq<char>>::empty());
        }
        return format_file_output(path, &empty);
    }
    let ghost io = args.indentation;
    let (anchor_line, include_siblings, include_header, max_levels, max_lines): (
        usize,
        bool,
        bool,
        usize,
        Option<usize>,
    ) = match &args.indentation {
        Some(o) => {
            let a = match o.anchor_line {
                Some(al) => if al >= 1 {
                    al
                } else {
                    1
                },
                None => 1,
            };
            let sib = match o.include_siblings {
                Some(b) => b,
                None => false,
            };
            let hdr = match o.include_header {
                Some(b) => b,
                None => true,
            };
            let lv = match o.max_levels {
                Some(m) => m,
                None => 0,
            };
            (a, sib, hdr, lv, o.max_lines)
        },
        None => (1, false, true, 0, None),
    };
    proof {
        assert(anchor_line == opt_anchor(io));
        assert(include_siblings == opt_siblings(io));
        assert(include_header == opt_header(io));
        assert(max_levels == opt_levels(io));
        assert(max_lines == opt_max_lines(io));
    }
    let anchor_index = if anchor_line - 1 <= n - 1 {
        anchor_line - 1
    } else {
        n - 1
    };
    let anchor = find_non_blank_line(&lines, anchor_index);
    let base_indent = line_indent(lines[anchor].as_str());
    let mut start_index = if include_siblings {
        find_parent_boundary_up(&lines, anchor, base_indent)
    } else {
        find_block_start_up(&lines, anchor, base_indent)
    };
    let mut end_index = if include_siblings {
        find_parent_boundary_down(&lines, anchor, base_indent)
    } else {
        find_block_end_down(&lines, anchor, base_indent)
    };
    if max_levels > 0 {
        start_index = expand_start_for_levels(&lines, start_index, base_indent, max_levels);
    }
    if include_header {
        let he = find_header_end(&lines);
        if he < start_index {
            start_index = he;
        }
    }
    if end_index < start_index {
        end_index = start_index;
    }
    if let Some(ml) = max_lines {
        let ml1: usize = if ml >= 1 {
            ml
        } else {
            1
        };
        if end_index - start_index >= ml1 {
            end_index = start_index + (ml1 - 1);
        }
    }
    proof {
        assert((start_index as int, end_index as int) == block_bounds(v, io));
        lemma_block_bounds_range(v, io);
    }
    let ghost rendered_spec = block_rendered(v, io);
    let mut rendered: Vec<String> = Vec::new();
    let mut i: usize = start_index;
    while i <= end_index
        invariant
            start_index <= i <= end_index + 1,
            end_index < n,
            n == v.len(),
            v == lines.deep_view(),
            v.len() == lines@.len(),
            forall|j: int| 0 <= j < v.len() ==> #[trigger] v[j] == lines@[j]@,
            rendered_spec == block_rendered(v, io),
            rendered_spec.len() == end_index - start_index + 1,
            forall|t: int|
                0 <= t < rendered_spec.len() ==> rendered_spec[t] == numbered_line_spec(
                    (start_index + 1 + t) as nat,
                    v[start_index + t],
                ),
            rendered@.len() == i - start_index,
            forall|t: int|
                0 <= t < rendered@.len() ==> #[trigger] rendered@[t]@ == rendered_spec[t],
        decreases end_index + 1 - i,
    {
        let line = render_numbered_line(i + 1, lines[i].as_str());
        rendered.push(line);
        i = i + 1;
    }
    proof {
        assert forall|t: int| 0 <= t < rendered_spec.len() implies rendered.deep_view()[t]
            == rendered_spec[t] by {
            assert(rendered.deep_view()[t] == rendered@[t]@);
        }
        assert(rendered.deep_view() =~= rendered_spec);
    }
    format_file_output(path, &rendered)
}


/// Output of the file-reading tool on the given file text: indentation mode
/// when the arguments ask for it, the numbered slice window otherwise.
pub fn read_file_output(path: &str, contents: &str, args: &ReadFileArgs) -> (r: String)
    ensures
        crate::dispatch::is_indentation_mode(args.mode) && lines_spec(contents@).len() > 0 ==> r@
            == file_output_spec(path@, block_rendered(lines_spec(contents@), args.indentation)),
        crate::dispatch::is_indentation_mode(args.mode) && lines_spec(contents@).len() == 0 ==> r@
            == file_output_spec(path@, Seq::empty()),
        !crate::dispatch::is_indentation_mode(args.mode) ==> r@ == file_output_spec(
            path@,
            slice_rendered(lines_spec(contents@), eff_offset(args.offset), eff_limit(args.limit)),
        ),
{
    let indent_mode = match &args.mode {
        Some(m) => crate::strutil::str_eq(m.as_str(), "indentation"),
        None => false,
    };
    if indent_mode {
        read_file_indentation(path, contents, args)
    } else {
        read_file_slice(path, contents, args)
    }
}

/// The error text of a file that could not be read, wrapping the reader's
/// own diagnostic.
pub fn read_failure_error(path: &str, err: &str) -> (r: String)
    ensures
        r@ == crate::render::tool_error_spec(
            "read_file"@,
            "Failed to read "@ + path@ + ": "@ + err@,
        ),
{
    let mut msg: Vec<char> = Vec::new();
    crate::strutil::append_str(&mut msg, "Failed to read ");
    crate::strutil::append_str(&mut msg, path);
    crate::strutil::append_str(&mut msg, ": ");
    crate::strutil::append_str(&mut msg, err);
    proof {
        assert(msg@ =~= "Failed to read "@ + path@ + ": "@ + err@);
    }
    let text = crate::strutil::chars_string(&msg);
    crate::render::format_tool_error("read_file", text.as_str())
}

} // verus!

//! Indentation-based block extraction: given the lines of a file and an
//! anchor line, compute the contiguous range of lines that forms the
//! whitespace-plausible block around the anchor.
//!
//! The boundary rules are deliberate behavior, not an approximation of real
//! parsing: a scan stops at the nearest line whose indent is less than or
//! equal to the anchor's (strictly less in sibling mode), blank lines are
//! skipped rather than treated as boundaries, and a tab counts four columns.

use vstd::prelude::*;
use crate::chars::{indent_of, is_blank};
use crate::lines::{is_blank_line, line_indent};

verus! {

/// The lines of a file, each line a sequence of characters.
pub type LinesView = Seq<Seq<char>>;

/// Largest index `j <= i` with a non-blank line, or `-1` if there is none.
pub open spec fn nonblank_at_or_before(lines: LinesView, i: int) -> int
    decreases i + 1,
{
    if i < 0 {
        -1
    } else if !is_blank(lines[i]) {
        i
    } else {
        nonblank_at_or_before(lines, i - 1)
    }
}

/// Smallest index `j >= i` with a non-blank line, or `lines.len()`.
pub open spec fn nonblank_at_or_after(lines: LinesView, i: int) -> int
    decreases lines.len() - i,
{
    if !(0 <= i < lines.len()) {
        lines.len() as int
    } else if !is_blank(lines[i]) {
        i
    } else {
        nonblank_at_or_after(lines, i + 1)
    }
}

/// Anchor resolution: the anchor itself when non-blank, otherwise the nearest
/// non-blank line backward, otherwise forward, otherwise the anchor.
pub open spec fn resolved_anchor(lines: LinesView, index: int) -> int {
    if !is_blank(lines[index]) {
        index
    } else if nonblank_at_or_before(lines, index - 1) >= 0 {
        nonblank_at_or_before(lines, index - 1)
    } else if nonblank_at_or_after(lines, index + 1) < lines.len() {
        nonblank_at_or_after(lines, index + 1)
    } else {
        index
    }
}

/// Upward scan for the start of a block: walking up from `idx`, skip blank
/// lines and lines indented deeper than the boundary; stop just below the
/// first line at or under the boundary (strictly under it in sibling mode).
pub open spec fn scan_start_up(lines: LinesView, idx: int, base: nat, strict: bool) -> int
    decreases idx,
{
    if idx <= 0 {
        0
    } else if is_blank(lines[idx - 1]) {
        scan_start_up(lines, idx - 1, base, strict)
    } else if (strict && indent_of(lines[idx - 1]) < base) || (!strict && indent_of(
        lines[idx - 1],
    ) <= base) {
        idx
    } else {
        scan_start_up(lines, idx - 1, base, strict)
    }
}

/// Downward scan for the end of a block, symmetric to `scan_start_up`: the
/// end is the line before the first non-blank line at or under the boundary.
pub open spec fn scan_end_down(lines: LinesView, idx: int, base: nat, strict: bool) -> int
    decreases lines.len() - idx,
{
    if idx >= lines.len() {
        lines.len() - 1
    } else if is_blank(lines[idx]) {
        scan_end_down(lines, idx + 1, base, strict)
    } else if (strict && indent_of(lines[idx]) < base) || (!strict && indent_of(lines[idx])
        <= base) {
        idx - 1
    } else {
        scan_end_down(lines, idx + 1, base, strict)
    }
}

/// Continued upward scan once the block start is known: each further strict
/// decrease in indent opens one more level; the start is re-expanded once per
/// level until the level budget would be exceeded.
pub open spec fn expand_levels(
    lines: LinesView,
    idx: int,
    start: int,
    current: nat,
    levels: nat,
    max_levels: nat,
) -> int
    decreases idx,
{
    if idx <= 0 {
        start
    } else if is_blank(lines[idx - 1]) {
        expand_levels(lines, idx - 1, start, current, levels, max_levels)
    } else if indent_of(lines[idx - 1]) < current {
        if levels + 1 > max_levels {
            idx
        } else {
            expand_levels(lines, idx - 1, idx - 1, indent_of(lines[idx - 1]), levels + 1,
                max_levels)
        }
    } else {
        expand_levels(lines, idx - 1, start, current, levels, max_levels)
    }
}

/// Where the file's leading header ends: one past the first blank line that
/// follows at least one non-blank line, or the end of the file.
pub open spec fn header_end_from(lines: LinesView, i: int, seen: bool) -> int
    decreases lines.len() - i,
{
    if !(0 <= i < lines.len()) {
        lines.len() as int
    } else if is_blank(lines[i]) && seen {
        i + 1
    } else {
        header_end_from(lines, i + 1, seen || !is_blank(lines[i]))
    }
}

pub open spec fn header_end(lines: LinesView) -> int {
    header_end_from(lines, 0, false)
}

/// Every index of the deep view of a line vector is the view of that line.
pub proof fn lemma_deep_view_index(lines: &Vec<String>)
    ensures
        lines.deep_view().len() == lines@.len(),
        forall|j: int|
            0 <= j < lines@.len() ==> #[trigger] lines.deep_view()[j] == lines@[j]@,
{
}

pub proof fn lemma_nonblank_at_or_before_range(lines: LinesView, i: int)
    requires
        i >= -1,
    ensures
        -1 <= nonblank_at_or_before(lines, i) <= i,
        nonblank_at_or_before(lines, i) >= 0 ==> !is_blank(
            lines[nonblank_at_or_before(lines, i)],
        ),
    decreases i + 1,
{
    if i >= 0 && is_blank(lines[i]) {
        lemma_nonblank_at_or_before_range(lines, i - 1);
    }
}

pub proof fn lemma_nonblank_at_or_after_range(lines: LinesView, i: int)
    requires
        0 <= i <= lines.len(),
    ensures
        nonblank_at_or_after(lines, i) >= i,
        nonblank_at_or_after(lines, i) <= lines.len(),
        nonblank_at_or_after(lines, i) < lines.len() ==> !is_blank(
            lines[nonblank_at_or_after(lines, i)],
        ),
    decreases lines.len() - i,
{
    if 0 <= i < lines.len() && is_blank(lines[i]) {
        lemma_nonblank_at_or_after_range(lines, i + 1);
    }
}

pub proof fn lemma_resolved_anchor_range(lines: LinesView, index: int)
    requires
        0 <= index < lines.len(),
    ensures
        0 <= resolved_anchor(lines, index) < lines.len(),
{
    lemma_nonblank_at_or_before_range(lines, index - 1);
    lemma_nonblank_at_or_after_range(lines, index + 1);
}

pub proof fn lemma_scan_start_up_range(lines: LinesView, idx: int, base: nat, strict: bool)
    requires
        idx >= 0,
    ensures
        0 <= scan_start_up(lines, idx, base, strict) <= idx,
    decreases idx,
{
    if idx > 0 {
        lemma_scan_start_up_range(lines, idx - 1, base, strict);
    }
}

pub proof fn lemma_scan_end_down_range(lines: LinesView, idx: int, base: nat, strict: bool)
    requires
        1 <= idx <= lines.len(),
    ensures
        idx - 1 <= scan_end_down(lines, idx, base, strict) < lines.len(),
    decreases lines.len() - idx,
{
    if idx < lines.len() && (is_blank(lines[idx]) || ((strict && indent_of(lines[idx]) >= base)
        || (!strict && indent_of(lines[idx]) > base))) {
        lemma_scan_end_down_range(lines, idx + 1, base, strict);
    }
}

pub proof fn lemma_expand_levels_range(
    lines: LinesView,
    idx: int,
    start: int,
    current: nat,
    levels: nat,
    max_levels: nat,
)
    requires
        0 <= idx,
        idx <= start,
    ensures
        0 <= expand_levels(lines, idx, start, current, levels, max_levels) <= start,
    decreases idx,
{
    if idx > 0 {
        if !is_blank(lines[idx - 1]) && indent_of(lines[idx - 1]) < current {
            if levels + 1 > max_levels {
            } else {
                lemma_expand_levels_range(lines, idx - 1, idx - 1, indent_of(lines[idx - 1]),
                    levels + 1, max_levels);
            }
        } else {
            lemma_expand_levels_range(lines, idx - 1, start, current, levels, max_levels);
        }
    }
}

pub proof fn lemma_header_end_range(lines: LinesView, i: int, seen: bool)
    requires
        0 <= i,
    ensures
        i <= header_end_from(lines, i, seen) || header_end_from(lines, i, seen)
            == lines.len(),
        0 <= header_end_from(lines, i, seen) <= lines.len(),
    decreases lines.len() - i,
{
    if 0 <= i < lines.len() && !(is_blank(lines[i]) && seen) {
        lemma_header_end_range(lines, i + 1, seen || !is_blank(lines[i]));
    }
}

/// If the backward scan found nothing, every line at or before `i` is blank.
pub proof fn lemma_nonblank_at_or_before_complete(lines: LinesView, i: int)
    ensures
        nonblank_at_or_before(lines, i) == -1 ==> forall|k: int|
            0 <= k <= i ==> is_blank(#[trigger] lines[k]),
    decreases i + 1,
{
    if i >= 0 && is_blank(lines[i]) {
        lemma_nonblank_at_or_before_complete(lines, i - 1);
    }
}

/// If the forward scan found nothing, every line at or after `i` is blank.
pub proof fn lemma_nonblank_at_or_after_complete(lines: LinesView, i: int)
    requires
        i >= 0,
    ensures
        nonblank_at_or_after(lines, i) == lines.len() ==> forall|k: int|
            i <= k < lines.len() ==> is_blank(#[trigger] lines[k]),
    decreases lines.len() - i,
{
    if 0 <= i < lines.len() && is_blank(lines[i]) {
        lemma_nonblank_at_or_after_complete(lines, i + 1);
    }
}

/// As long as the file has any non-blank line, anchors resolve to one.
pub proof fn lemma_resolved_anchor_non_blank(lines: LinesView, index: int)
    requires
        0 <= index < lines.len(),
        exists|k: int| 0 <= k < lines.len() && !is_blank(#[trigger] lines[k]),
    ensures
        !is_blank(lines[resolved_anchor(lines, index)]),
{
    lemma_nonblank_at_or_before_range(lines, index - 1);
    lemma_nonblank_at_or_after_range(lines, index + 1);
    if is_blank(lines[index]) && nonblank_at_or_before(lines, index - 1) == -1
        && nonblank_at_or_after(lines, index + 1) == lines.len() {
        lemma_nonblank_at_or_before_complete(lines, index - 1);
        lemma_nonblank_at_or_after_complete(lines, index + 1);
        let k = choose|k: int| 0 <= k < lines.len() && !is_blank(#[trigger] lines[k]);
        assert(false);
    }
}

/// What an upward scan passed over: every non-blank line between the found
/// start and the anchor lies deeper than the boundary, and the line just
/// above the start, when there is one, is the non-blank boundary line.
pub proof fn lemma_scan_start_up_props(lines: LinesView, idx: int, base: nat, strict: bool)
    requires
        idx >= 0,
    ensures
        forall|k: int|
            scan_start_up(lines, idx, base, strict) <= k < idx ==> (is_blank(#[trigger] lines[k])
                || (if strict {
                indent_of(lines[k]) >= base
            } else {
                indent_of(lines[k]) > base
            })),
        scan_start_up(lines, idx, base, strict) > 0 ==> !is_blank(
            lines[scan_start_up(lines, idx, base, strict) - 1],
        ) && (if strict {
            indent_of(lines[scan_start_up(lines, idx, base, strict) - 1]) < base
        } else {
            indent_of(lines[scan_start_up(lines, idx, base, strict) - 1]) <= base
        }),
    decreases idx,
{
    if idx > 0 {
        if is_blank(lines[idx - 1]) {
            lemma_scan_start_up_props(lines, idx - 1, base, strict);
        } else if (strict && indent_of(lines[idx - 1]) < base) || (!strict && indent_of(
            lines[idx - 1],
        ) <= base) {
        } else {
            lemma_scan_start_up_props(lines, idx - 1, base, strict);
        }
    }
}

/// What a downward scan passed over: every non-blank line between the scan's
/// start and the found end lies deeper than the boundary, and the line just
/// after the end, when the end is not the last line, is the non-blank
/// boundary line.
pub proof fn lemma_scan_end_down_props(lines: LinesView, idx: int, base: nat, strict: bool)
    requires
        1 <= idx <= lines.len(),
    ensures
        forall|k: int|
            idx <= k <= scan_end_down(lines, idx, base, strict) ==> (is_blank(
                #[trigger] lines[k],
            ) || (if strict {
                indent_of(lines[k]) >= base
            } else {
                indent_of(lines[k]) > base
            })),
        scan_end_down(lines, idx, base, strict) < lines.len() - 1 ==> !is_blank(
            lines[scan_end_down(lines, idx, base, strict) + 1],
        ) && (if strict {
            indent_of(lines[scan_end_down(lines, idx, base, strict) + 1]) < base
        } else {
            indent_of(lines[scan_end_down(lines, idx, base, strict) + 1]) <= base
        }),
    decreases lines.len() - idx,
{
    if idx < lines.len() {
        if is_blank(lines[idx]) {
            lemma_scan_end_down_props(lines, idx + 1, base, strict);
        } else if (strict && indent_of(lines[idx]) < base) || (!strict && indent_of(lines[idx])
            <= base) {
        } else {
            lemma_scan_end_down_props(lines, idx + 1, base, strict);
        }
    }
}

/// A no-siblings upward scan with a deeper boundary never climbs past a
/// start whose upper boundary line is at most `base`.
pub proof fn lemma_scan_up_bounded(lines: LinesView, idx: int, wide: nat, s: int, base: nat)
    requires
        0 <= s <= idx,
        base <= wide,
        s > 0 ==> !is_blank(lines[s - 1]) && indent_of(lines[s - 1]) <= base,
    ensures
        scan_start_up(lines, idx, wide, false) >= s,
    decreases idx,
{
    if idx > 0 && idx > s {
        if is_blank(lines[idx - 1]) {
            lemma_scan_up_bounded(lines, idx - 1, wide, s, base);
        } else if indent_of(lines[idx - 1]) <= wide {
        } else {
            lemma_scan_up_bounded(lines, idx - 1, wide, s, base);
        }
    }
}

/// A no-siblings downward scan with a deeper boundary never runs past an end
/// whose lower boundary line is at most `base`.
pub proof fn lemma_scan_down_bounded(lines: LinesView, idx: int, wide: nat, e: int, base: nat)
    requires
        1 <= idx <= e + 1,
        e < lines.len(),
        base <= wide,
        e < lines.len() - 1 ==> !is_blank(lines[e + 1]) && indent_of(lines[e + 1]) <= base,
    ensures
        scan_end_down(lines, idx, wide, false) <= e,
    decreases lines.len() - idx,
{
    if idx < lines.len() && idx <= e {
        if is_blank(lines[idx]) {
            lemma_scan_down_bounded(lines, idx + 1, wide, e, base);
        } else if indent_of(lines[idx]) <= wide {
        } else {
            lemma_scan_down_bounded(lines, idx + 1, wide, e, base);
        }
    }
}

/// Resolves the anchor index to a non-blank line: the line itself if it is
/// non-blank, else the nearest non-blank line above, else below, else the
/// index unchanged.
pub fn find_non_blank_line(lines: &Vec<String>, index: usize) -> (r: usize)
    requires
        index < lines@.len(),
    ensures
        r == resolved_anchor(lines.deep_view(), index as int),
        r < lines@.len(),
{
    let ghost v = lines.deep_view();
    let n = lines.len();
    proof {
        lemma_deep_view_index(lines);
    }
    if !is_blank_line(lines[index].as_str()) {
        return index;
    }
    let mut up = index;
    while up > 0
        invariant
            up <= index < v.len(),
            v == lines.deep_view(),
            v.len() == lines@.len(),
            forall|j: int| 0 <= j < v.len() ==> #[trigger] v[j] == lines@[j]@,
            is_blank(v[index as int]),
            nonblank_at_or_before(v, index - 1) == nonblank_at_or_before(v, up - 1),
        decreases up,
    {
        up = up - 1;
        if !is_blank_line(lines[up].as_str()) {
            return up;
        }
    }
    assert(nonblank_at_or_before(v, index - 1) == -1);
    let mut down = index + 1;
    while down < n
        invariant
            index + 1 <= down <= n,
            n == v.len(),
            v == lines.deep_view(),
            v.len() == lines@.len(),
            forall|j: int| 0 <= j < v.len() ==> #[trigger] v[j] == lines@[j]@,
            is_blank(v[index as int]),
            nonblank_at_or_before(v, index - 1) == -1,
            nonblank_at_or_after(v, index + 1) == nonblank_at_or_after(v, down as int),
        decreases v.len() - down,
    {
        if !is_blank_line(lines[down].as_str()) {
            return down;
        }
        down = down + 1;
    }
    index
}

/// Start of the block around `anchor` in no-siblings mode: the scan stops
/// just below the first line above whose indent is at most `base_indent`.
pub fn find_block_start_up(lines: &Vec<String>, anchor: usize, base_indent: usize) -> (r: usize)
    requires
        anchor < lines@.len(),
    ensures
        r == scan_start_up(lines.deep_view(), anchor as int, base_indent as nat, false),
        r <= anchor,
{
    scan_up_exec(lines, anchor, base_indent, false)
}

/// Start of the block around `anchor` in sibling mode: lines at the anchor's
/// own indent are kept; the scan stops only under a strictly shallower line.
pub fn find_parent_boundary_up(lines: &Vec<String>, anchor: usize, base_indent: usize) -> (r:
    usize)
    requires
        anchor < lines@.len(),
    ensures
        r == scan_start_up(lines.deep_view(), anchor as int, base_indent as nat, true),
        r <= anchor,
{
    scan_up_exec(lines, anchor, base_indent, true)
}

fn scan_up_exec(lines: &Vec<String>, anchor: usize, base_indent: usize, strict: bool) -> (r:
    usize)
    requires
        anchor < lines@.len(),
    ensures
        r == scan_start_up(lines.deep_view(), anchor as int, base_indent as nat, strict),
        r <= anchor,
{
    let ghost v = lines.deep_view();
    proof {
        lemma_deep_view_index(lines);
    }
    let mut idx = anchor;
    while idx > 0
        invariant
            idx <= anchor < v.len(),
            v == lines.deep_view(),
            v.len() == lines@.len(),
            forall|j: int| 0 <= j < v.len() ==> #[trigger] v[j] == lines@[j]@,
            scan_start_up(v, anchor as int, base_indent as nat, strict) == scan_start_up(
                v,
                idx as int,
                base_indent as nat,
                strict,
            ),
        decreases idx,
    {
        let prev = idx - 1;
        if is_blank_line(lines[prev].as_str()) {
            idx = prev;
            continue ;
        }
        let ind = line_indent(lines[prev].as_str());
        let stop = if strict {
            ind < base_indent
        } else {
            ind <= base_indent
        };
        if stop {
            return idx;
        }
        idx = prev;
    }
    0
}

/// End of the block around `anchor` in no-siblings mode: the line before the
/// first non-blank line below whose indent is at most `base_indent`.
pub fn find_block_end_down(lines: &Vec<String>, anchor: usize, base_indent: usize) -> (r: usize)
    requires
        anchor < lines@.len(),
    ensures
        r == scan_end_down(lines.deep_view(), anchor + 1, base_indent as nat, false),
        anchor <= r < lines@.len(),
{
    scan_down_exec(lines, anchor, base_indent, false)
}

/// End of the block around `anchor` in sibling mode: expansion stops only at
/// a strictly shallower line below.
pub fn find_parent_boundary_down(lines: &Vec<String>, anchor: usize, base_indent: usize) -> (r:
    usize)
    requires
        anchor < lines@.len(),
    ensures
        r == scan_end_down(lines.deep_view(), anchor + 1, base_indent as nat, true),
        anchor <= r < lines@.len(),
{
    scan_down_exec(lines, anchor, base_indent, true)
}

fn scan_down_exec(lines: &Vec<String>, anchor: usize, base_indent: usize, strict: bool) -> (r:
    usize)
    requires
        anchor < lines@.len(),
    ensures
        r == scan_end_down(lines.deep_view(), anchor + 1, base_indent as nat, strict),
        anchor <= r < lines@.len(),
{
    let ghost v = lines.deep_view();
    let n = lines.len();
    proof {
        lemma_deep_view_index(lines);
        lemma_scan_end_down_range(v, anchor + 1, base_indent as nat, strict);
    }
    let mut idx = anchor + 1;
    while idx < n
        invariant
            anchor + 1 <= idx <= n,
            n == v.len(),
            v == lines.deep_view(),
            v.len() == lines@.len(),
            forall|j: int| 0 <= j < v.len() ==> #[trigger] v[j] == lines@[j]@,
            scan_end_down(v, anchor + 1, base_indent as nat, strict) == scan_end_down(
                v,
                idx as int,
                base_indent as nat,
                strict,
            ),
        decreases v.len() - idx,
    {
        if is_blank_line(lines[idx].as_str()) {
            idx = idx + 1;
            continue ;
        }
        let ind = line_indent(lines[idx].as_str());
        let stop = if strict {
            ind < base_indent
        } else {
            ind <= base_indent
        };
        if stop {
            return idx - 1;
        }
        idx = idx + 1;
    }
    n - 1
}

/// Re-expands the start of a block upward by indentation levels: each further
/// strict decrease in indent is one level, and the start moves up once per
/// level until `max_levels` would be exceeded.
pub fn expand_start_for_levels(
    lines: &Vec<String>,
    start: usize,
    base_indent: usize,
    max_levels: usize,
) -> (r: usize)
    requires
        start < lines@.len(),
    ensures
        r == expand_levels(
            lines.deep_view(),
            start as int,
            start as int,
            base_indent as nat,
            0,
            max_levels as nat,
        ),
        r <= start,
{
    let ghost v = lines.deep_view();
    let n = lines.len();
    let mut current_indent = base_indent;
    let mut levels: usize = 0;
    let mut idx = start;
    let mut out = start;
    proof {
        lemma_deep_view_index(lines);
    }
    while idx > 0
        invariant
            idx <= start < n,
            n == v.len(),
            out <= start,
            idx <= out,
            levels <= start - idx,
            v == lines.deep_view(),
            v.len() == lines@.len(),
            forall|j: int| 0 <= j < v.len() ==> #[trigger] v[j] == lines@[j]@,
            expand_levels(v, start as int, start as int, base_indent as nat, 0, max_levels as nat)
                == expand_levels(
                v,
                idx as int,
                out as int,
                current_indent as nat,
                levels as nat,
                max_levels as nat,
            ),
        decreases idx,
    {
        let prev = idx - 1;
        if is_blank_line(lines[prev].as_str()) {
            idx = prev;
            continue ;
        }
        let ind = line_indent(lines[prev].as_str());
        if ind < current_indent {
            if levels >= max_levels {
                return idx;
            }
            levels = levels + 1;
            current_indent = ind;
            out = prev;
        }
        idx = prev;
    }
    out
}

/// Finds where the file's leading header ends: all lines from the top up
/// through the first blank line that follows at least one non-blank line.
pub fn find_header_end(lines: &Vec<String>) -> (r: usize)
    ensures
        r == header_end(lines.deep_view()),
        r <= lines@.len(),
{
    let ghost v = lines.deep_view();
    let n = lines.len();
    let mut seen_non_blank = false;
    let mut i: usize = 0;
    proof {
        lemma_deep_view_index(lines);
    }
    while i < n
        invariant
            0 <= i <= n,
            n == v.len(),
            v == lines.deep_view(),
            v.len() == lines@.len(),
            forall|j: int| 0 <= j < v.len() ==> #[trigger] v[j] == lines@[j]@,
            header_end(v) == header_end_from(v, i as int, seen_non_blank),
        decreases v.len() - i,
    {
        if is_blank_line(lines[i].as_str()) {
            if seen_non_blank {
                return i + 1;
            }
        } else {
            seen_non_blank = true;
        }
        i = i + 1;
    }
    lines.len()
}

} // verus!

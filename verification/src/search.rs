//! The search tool: regex matching over the lines of a set of files, with
//! pruning of version-control and build-output directories, an optional glob
//! file filter, a global cap on reported matches, and one context line on
//! each side of a match.

use vstd::prelude::*;
use crate::args::SearchFilesArgs;
use crate::lines::{lines_spec, split_lines};
use crate::numfmt::{append_number, append_padded_number, dec_rep, padded_number};
use crate::patterns::{glob_match_paths, glob_matches, glob_ok, regex_match_lines, regex_matches,
    regex_ok};
use crate::lines::trunc_spec;
use crate::lines::{is_blank_line, truncate_line};
use crate::chars::is_blank;
use crate::extract::LinesView;
use crate::render::{joined_lines, tool_error_spec};
use crate::render::format_tool_error;
use crate::strutil::{append_str, chars_string, str_chars, str_eq};

verus! {

/// Most matches a single search reports.
pub const MAX_SEARCH_MATCHES: usize = 50;

/// A file handed to the search: its path as the walk produced it, and its
/// text contents.
pub struct SearchFile {
    pub path: String,
    pub contents: String,
}

/// One reported match: the file, the 1-based matched line number, and the
/// rendered context lines.
pub struct SearchMatch {
    pub path: String,
    pub line_number: usize,
    pub context: Vec<String>,
}

/// Directory or file names whose contents a search never visits:
/// version-control metadata and build output.
pub open spec fn is_ignored_name(name: Seq<char>) -> bool {
    name == ".git"@ || name == "target"@
}

/// Whether a path component is one of the pruned names.
pub fn is_ignored_dir(name: &str) -> (r: bool)
    ensures
        r == is_ignored_name(name@),
{
    str_eq(name, ".git") || str_eq(name, "target")
}

/// Index of the first path separator in `s`, or `s.len()` if there is none.
pub open spec fn first_sep(s: Seq<char>) -> int
    decreases s.len(),
{
    if s.len() == 0 {
        0
    } else if s[0] == '/' {
        0
    } else {
        1 + first_sep(s.skip(1))
    }
}

pub proof fn lemma_first_sep(s: Seq<char>)
    ensures
        0 <= first_sep(s) <= s.len(),
        first_sep(s) < s.len() ==> s[first_sep(s)] == '/',
        forall|j: int| 0 <= j < first_sep(s) ==> s[j] != '/',
    decreases s.len(),
{
    if s.len() > 0 && s[0] != '/' {
        lemma_first_sep(s.skip(1));
        assert forall|j: int| 0 <= j < first_sep(s) implies s[j] != '/' by {
            if j > 0 {
                assert(s.skip(1)[j - 1] == s[j]);
            }
        }
        if first_sep(s) < s.len() {
            assert(s.skip(1)[first_sep(s) - 1] == s[first_sep(s)]);
        }
    }
}

/// The components of a path, split at separators; a trailing separator adds
/// no empty component.
pub open spec fn path_segments(s: Seq<char>) -> Seq<Seq<char>>
    decreases s.len(),
{
    if s.len() == 0 {
        Seq::empty()
    } else {
        let i = first_sep(s);
        if !(0 <= i < s.len()) {
            seq![s]
        } else {
            seq![s.take(i)] + path_segments(s.skip(i + 1))
        }
    }
}

/// A path is pruned when any of its components is an ignored name.
pub open spec fn path_pruned(s: Seq<char>) -> bool {
    exists|k: int| 0 <= k < path_segments(s).len() && is_ignored_name(path_segments(s)[k])
}

proof fn lemma_segments_append(s: Seq<char>, k: int)
    requires
        0 <= k < s.len(),
        s[k] == '/',
        forall|j: int| 0 <= j < k ==> s[j] != '/',
    ensures
        path_segments(s) == seq![s.take(k)] + path_segments(s.skip(k + 1)),
{
    lemma_first_sep(s);
    assert(first_sep(s) == k) by {
        if first_sep(s) < k {
            assert(s[first_sep(s)] == '/');
        }
        if first_sep(s) > k {
            assert(s[k] != '/');
        }
    }
}

/// Splits a path into its components.
pub fn split_path(path: &str) -> (r: Vec<String>)
    ensures
        r.deep_view() == path_segments(path@),
{
    let cs = str_chars(path);
    let ghost s = path@;
    let mut out: Vec<String> = Vec::new();
    let mut cur: Vec<char> = Vec::new();
    let mut j: usize = 0;
    let ghost mut start: int = 0;
    proof {
        assert(s.skip(0) =~= s);
        assert(out.deep_view() =~= Seq::<Seq<char>>::empty());
        assert(out.deep_view() + path_segments(s.skip(start)) =~= path_segments(s));
    }
    while j < cs.len()
        invariant
            cs@ == s,
            0 <= start <= j <= s.len(),
            cur@ == s.subrange(start, j as int),
            forall|t: int| start <= t < j ==> s[t] != '/',
            out.deep_view() + path_segments(s.skip(start)) == path_segments(s),
        decreases s.len() - j,
    {
        let c = cs[j];
        if c == '/' {
            proof {
                lemma_segments_append(s.skip(start), j - start);
                assert(s.skip(start).skip(j - start + 1) =~= s.skip(j + 1));
                assert(s.skip(start).take(j - start) =~= s.subrange(start, j as int));
            }
            let piece = chars_string(&cur);
            out.push(piece);
            proof {
                assert(out.deep_view() =~= out.deep_view().subrange(0, out.deep_view().len() - 1)
                    + seq![cur@]);
                start = j + 1;
            }
            cur = Vec::new();
            proof {
                assert(cur@ =~= s.subrange(start, j + 1));
            }
        } else {
            cur.push(c);
            proof {
                assert(cur@ =~= s.subrange(start, j + 1));
            }
        }
        j = j + 1;
    }
    proof {
        lemma_first_sep(s.skip(start));
    }
    if cur.len() > 0 {
        let piece = chars_string(&cur);
        out.push(piece);
        proof {
            assert(s.skip(start) =~= s.subrange(start, s.len() as int));
            assert(path_segments(s.skip(start)) =~= seq![s.skip(start)]);
            assert(out.deep_view() =~= out.deep_view().subrange(0, out.deep_view().len() - 1)
                + seq![cur@]);
            assert(cur@ =~= s.skip(start));
            assert(out.deep_view() =~= path_segments(s));
        }
    } else {
        proof {
            assert(s.skip(start) =~= Seq::<char>::empty());
            assert(out.deep_view() + path_segments(s.skip(start)) =~= out.deep_view());
        }
    }
    proof {
        assert(out.deep_view() =~= path_segments(s));
    }
    out
}

/// Whether any component of the path is a pruned name; files under such a
/// component are never searched.
pub fn path_is_pruned(path: &str) -> (r: bool)
    ensures
        r == path_pruned(path@),
{
    let segs = split_path(path);
    let ghost sv = path_segments(path@);
    let mut k: usize = 0;
    proof {
        crate::extract::lemma_deep_view_index(&segs);
    }
    while k < segs.len()
        invariant
            0 <= k <= segs@.len(),
            sv == path_segments(path@),
            segs.deep_view() == sv,
            segs@.len() == sv.len(),
            forall|j: int| 0 <= j < segs@.len() ==> #[trigger] segs@[j]@ == sv[j],
            forall|j: int| 0 <= j < k ==> !is_ignored_name(sv[j]),
        decreases segs@.len() - k,
    {
        if is_ignored_dir(segs[k].as_str()) {
            proof {
                assert(is_ignored_name(path_segments(path@)[k as int]));
                assert(path_pruned(path@));
            }
            return true;
        }
        k = k + 1;
    }
    false
}

/// Spec-level form of one match: path, 1-based line number, rendered context.
pub type MatchView = (Seq<char>, int, Seq<Seq<char>>);

/// One rendered context line: the match marker or a space, a space, the
/// right-aligned line number, the separator, and the truncated content.
pub open spec fn ctx_line_spec(matched: bool, n: nat, line: Seq<char>) -> Seq<char> {
    seq![
        if matched {
            '>'
        } else {
            ' '
        },
        ' ',
    ] + padded_number(n) + "| "@ + trunc_spec(line)
}

/// Renders one context line of a match.
pub fn render_ctx_line(matched: bool, n: usize, line: &str) -> (r: String)
    ensures
        r@ == ctx_line_spec(matched, n as nat, line@),
{
    let mut out: Vec<char> = Vec::new();
    if matched {
        out.push('>');
    } else {
        out.push(' ');
    }
    out.push(' ');
    append_padded_number(&mut out, n);
    append_str(&mut out, "| ");
    let cut = truncate_line(line);
    append_str(&mut out, cut.as_str());
    proof {
        assert(out@ =~= ctx_line_spec(matched, n as nat, line@));
    }
    chars_string(&out)
}

/// The context window of a match on line `i`: one line on each side, clamped
/// to the file, the matched line marked.
pub open spec fn context_block(lines: LinesView, i: int) -> Seq<Seq<char>> {
    let before = if i >= 1 {
        i - 1
    } else {
        0
    };
    let after = if i + 2 <= lines.len() {
        i + 2
    } else {
        lines.len() as int
    };
    Seq::new(
        (after - before) as nat,
        |k: int| ctx_line_spec(before + k == i, (before + k + 1) as nat, lines[before + k]),
    )
}

/// Builds the rendered context window of a match.
pub fn build_context(lines: &Vec<String>, i: usize) -> (c: Vec<String>)
    requires
        i < lines@.len(),
    ensures
        c.deep_view() == context_block(lines.deep_view(), i as int),
{
    let ghost v = lines.deep_view();
    proof {
        crate::extract::lemma_deep_view_index(lines);
    }
    let n = lines.len();
    let before = if i >= 1 {
        i - 1
    } else {
        0
    };
    let after = if n - i > 2 {
        i + 2
    } else {
        n
    };
    let ghost cb = context_block(v, i as int);
    let mut out: Vec<String> = Vec::new();
    let mut k = before;
    while k < after
        invariant
            before <= k <= after,
            after <= n,
            n == v.len(),
            v == lines.deep_view(),
            v.len() == lines@.len(),
            forall|j: int| 0 <= j < v.len() ==> #[trigger] v[j] == lines@[j]@,
            cb == context_block(v, i as int),
            cb.len() == after - before,
            forall|t: int|
                0 <= t < cb.len() ==> cb[t] == ctx_line_spec(
                    before + t == i,
                    (before + t + 1) as nat,
                    v[before + t],
                ),
            out@.len() == k - before,
            forall|t: int| 0 <= t < out@.len() ==> #[trigger] out@[t]@ == cb[t],
        decreases after - k,
    {
        let marked = k == i;
        let line = render_ctx_line(marked, k + 1, lines[k].as_str());
        out.push(line);
        k = k + 1;
    }
    proof {
        assert forall|t: int| 0 <= t < cb.len() implies out.deep_view()[t] == cb[t] by {
            assert(out.deep_view()[t] == out@[t]@);
        }
        assert(out.deep_view() =~= cb);
    }
    out
}

/// View of one reported match.
pub open spec fn match_view(m: SearchMatch) -> MatchView {
    (m.path@, m.line_number as int, m.context.deep_view())
}

/// View of a sequence of reported matches.
pub open spec fn matches_view(ms: Seq<SearchMatch>) -> Seq<MatchView> {
    ms.map_values(|m: SearchMatch| match_view(m))
}

/// View of one searched file: its path and its contents.
pub open spec fn file_view(f: SearchFile) -> (Seq<char>, Seq<char>) {
    (f.path@, f.contents@)
}

/// View of the searched files.
pub open spec fn files_view(fs: Seq<SearchFile>) -> Seq<(Seq<char>, Seq<char>)> {
    fs.map_values(|f: SearchFile| file_view(f))
}

/// View of the optional glob filter.
pub open spec fn filter_view(fp: Option<String>) -> Option<Seq<char>> {
    match fp {
        Some(p) => Some(p@),
        None => None,
    }
}

/// Whether a file takes part in the search: its path is not pruned and the
/// filter, when there is one, accepts it.
pub open spec fn file_selected(filter: Option<Seq<char>>, path: Seq<char>) -> bool {
    !path_pruned(path) && match filter {
        Some(f) => glob_matches(f, path),
        None => true,
    }
}

/// The matches of one file from line `i` on, with the running counter
/// `total`: a matching line raises the counter, and is recorded only while
/// the counter stays within the cap; the first match past the cap stops the
/// scan of the file.
pub open spec fn scan_lines(
    pattern: Seq<char>,
    path: Seq<char>,
    lines: LinesView,
    i: int,
    total: int,
) -> (Seq<MatchView>, int)
    decreases lines.len() - i,
{
    if !(0 <= i < lines.len()) {
        (Seq::empty(), total)
    } else if !regex_matches(pattern, lines[i]) {
        scan_lines(pattern, path, lines, i + 1, total)
    } else if total + 1 > MAX_SEARCH_MATCHES {
        (Seq::empty(), total + 1)
    } else {
        let rest = scan_lines(pattern, path, lines, i + 1, total + 1);
        (seq![(path, i + 1, context_block(lines, i))] + rest.0, rest.1)
    }
}

/// The matches over the files from index `j` on, in visitation order: files
/// that are pruned or filtered out contribute nothing, and once the counter
/// reaches the cap no further file is scanned.
pub open spec fn scan_files(
    pattern: Seq<char>,
    filter: Option<Seq<char>>,
    files: Seq<(Seq<char>, Seq<char>)>,
    j: int,
    total: int,
) -> (Seq<MatchView>, int)
    decreases files.len() - j,
{
    if !(0 <= j < files.len()) {
        (Seq::empty(), total)
    } else if !file_selected(filter, files[j].0) {
        scan_files(pattern, filter, files, j + 1, total)
    } else {
        let r = scan_lines(pattern, files[j].0, lines_spec(files[j].1), 0, total);
        if r.1 >= MAX_SEARCH_MATCHES {
            r
        } else {
            let rest = scan_files(pattern, filter, files, j + 1, r.1);
            (r.0 + rest.0, rest.1)
        }
    }
}

/// The whole search: all files, counter starting at zero.
pub open spec fn search_scan(
    pattern: Seq<char>,
    filter: Option<Seq<char>>,
    files: Seq<(Seq<char>, Seq<char>)>,
) -> (Seq<MatchView>, int) {
    scan_files(pattern, filter, files, 0, 0)
}

/// What the search yields from line `i` of the selected file at index `j`
/// onward: the rest of that file's scan, then the remaining files unless the
/// counter has reached the cap.
pub open spec fn file_then_rest(
    pattern: Seq<char>,
    filter: Option<Seq<char>>,
    files: Seq<(Seq<char>, Seq<char>)>,
    j: int,
    lv: LinesView,
    i: int,
    total: int,
) -> (Seq<MatchView>, int) {
    let r = scan_lines(pattern, files[j].0, lv, i, total);
    if r.1 >= MAX_SEARCH_MATCHES {
        r
    } else {
        let rest = scan_files(pattern, filter, files, j + 1, r.1);
        (r.0 + rest.0, rest.1)
    }
}

/// Entering a selected file: the whole remaining search is that file's scan
/// followed by the remaining files.
proof fn lemma_enter_file(
    pattern: Seq<char>,
    filter: Option<Seq<char>>,
    files: Seq<(Seq<char>, Seq<char>)>,
    j: int,
    total: int,
)
    requires
        0 <= j < files.len(),
        file_selected(filter, files[j].0),
    ensures
        scan_files(pattern, filter, files, j, total) == file_then_rest(
            pattern,
            filter,
            files,
            j,
            lines_spec(files[j].1),
            0,
            total,
        ),
{
}

/// A line that does not match leaves the remaining search unchanged.
proof fn lemma_ftr_skip(
    pattern: Seq<char>,
    filter: Option<Seq<char>>,
    files: Seq<(Seq<char>, Seq<char>)>,
    j: int,
    lv: LinesView,
    i: int,
    total: int,
)
    requires
        0 <= i < lv.len(),
        !regex_matches(pattern, lv[i]),
    ensures
        file_then_rest(pattern, filter, files, j, lv, i, total) == file_then_rest(
            pattern,
            filter,
            files,
            j,
            lv,
            i + 1,
            total,
        ),
{
}

/// A matching line within the cap contributes one match at the front of the
/// remaining search.
proof fn lemma_ftr_match(
    pattern: Seq<char>,
    filter: Option<Seq<char>>,
    files: Seq<(Seq<char>, Seq<char>)>,
    j: int,
    lv: LinesView,
    i: int,
    total: int,
)
    requires
        0 <= i < lv.len(),
        regex_matches(pattern, lv[i]),
        total + 1 <= MAX_SEARCH_MATCHES,
    ensures
        file_then_rest(pattern, filter, files, j, lv, i, total).0 == seq![
            (files[j].0, i + 1, context_block(lv, i)),
        ] + file_then_rest(pattern, filter, files, j, lv, i + 1, total + 1).0,
        file_then_rest(pattern, filter, files, j, lv, i, total).1 == file_then_rest(
            pattern,
            filter,
            files,
            j,
            lv,
            i + 1,
            total + 1,
        ).1,
{
    let m = seq![(files[j].0, i + 1, context_block(lv, i))];
    let r1 = scan_lines(pattern, files[j].0, lv, i + 1, total + 1);
    assert(scan_lines(pattern, files[j].0, lv, i, total).0 == m + r1.0);
    if r1.1 < MAX_SEARCH_MATCHES {
        let rest = scan_files(pattern, filter, files, j + 1, r1.1);
        assert((m + r1.0) + rest.0 =~= m + (r1.0 + rest.0));
    }
}

/// A matching line past the cap ends the search with one more counted,
/// unreported match.
proof fn lemma_ftr_cap(
    pattern: Seq<char>,
    filter: Option<Seq<char>>,
    files: Seq<(Seq<char>, Seq<char>)>,
    j: int,
    lv: LinesView,
    i: int,
    total: int,
)
    requires
        0 <= i < lv.len(),
        regex_matches(pattern, lv[i]),
        total + 1 > MAX_SEARCH_MATCHES,
    ensures
        file_then_rest(pattern, filter, files, j, lv, i, total).0 == Seq::<MatchView>::empty(),
        file_then_rest(pattern, filter, files, j, lv, i, total).1 == total + 1,
{
}

/// Reaching the end of a file: the remaining search is the remaining files,
/// or nothing once the counter has reached the cap.
proof fn lemma_ftr_end(
    pattern: Seq<char>,
    filter: Option<Seq<char>>,
    files: Seq<(Seq<char>, Seq<char>)>,
    j: int,
    lv: LinesView,
    i: int,
    total: int,
)
    requires
        i >= lv.len(),
    ensures
        total < MAX_SEARCH_MATCHES ==> file_then_rest(pattern, filter, files, j, lv, i, total)
            == scan_files(pattern, filter, files, j + 1, total),
        total >= MAX_SEARCH_MATCHES ==> file_then_rest(pattern, filter, files, j, lv, i, total)
            == (Seq::<MatchView>::empty(), total),
{
    if total < MAX_SEARCH_MATCHES {
        let rest = scan_files(pattern, filter, files, j + 1, total);
        assert(Seq::<MatchView>::empty() + rest.0 =~= rest.0);
    }
}

/// Runs the search over the given files, in their order: prunes ignored
/// paths, applies the glob filter, matches each line of each remaining file,
/// and stops at the match cap.
pub fn collect_matches(pattern: &str, filter: &Option<String>, files: &Vec<SearchFile>) -> (r: (
    Vec<SearchMatch>,
    usize,
))
    requires
        regex_ok(pattern@),
        match *filter {
            Some(f) => glob_ok(f@),
            None => true,
        },
    ensures
        matches_view(r.0@) == search_scan(pattern@, filter_view(*filter), files_view(files@)).0,
        r.1 == search_scan(pattern@, filter_view(*filter), files_view(files@)).1,
{
    let ghost fv = files_view(files@);
    let ghost filt = filter_view(*filter);
    let ghost full = scan_files(pattern@, filt, fv, 0, 0);
    let n = files.len();
    proof {
        assert forall|q: int| 0 <= q < files@.len() implies #[trigger] fv[q] == (
            files@[q].path@,
            files@[q].contents@,
        ) by {}
    }
    let mut paths: Vec<String> = Vec::new();
    let mut t: usize = 0;
    while t < n
        invariant
            0 <= t <= n,
            n == files@.len(),
            paths@.len() == t,
            forall|q: int| 0 <= q < t ==> #[trigger] paths@[q]@ == files@[q].path@,
        decreases n - t,
    {
        paths.push(files[t].path.clone());
        t = t + 1;
    }
    let use_filter = filter.is_some();
    let mask: Vec<bool> = match filter {
        Some(f) => match glob_match_paths(f.as_str(), &paths) {
            Ok(v) => v,
            Err(_) => {
                proof {
                    assert(false);
                }
                Vec::new()
            },
        },
        None => Vec::new(),
    };
    let mut results: Vec<SearchMatch> = Vec::new();
    let mut total: usize = 0;
    let mut j: usize = 0;
    proof {
        assert(matches_view(results@) =~= Seq::<MatchView>::empty());
        assert(matches_view(results@) + scan_files(pattern@, filt, fv, 0, 0).0 =~= full.0);
    }
    while j < n && total < MAX_SEARCH_MATCHES
        invariant
            0 <= j <= n,
            n == files@.len(),
            fv == files_view(files@),
            filt == filter_view(*filter),
            full == scan_files(pattern@, filt, fv, 0, 0),
            regex_ok(pattern@),
            use_filter == (filter is Some),
            use_filter ==> match *filter {
                Some(f) => filt == Some(f@) && mask@.len() == files@.len() && forall|q: int|
                    0 <= q < files@.len() ==> #[trigger] mask@[q] == glob_matches(
                        f@,
                        files@[q].path@,
                    ),
                None => false,
            },
            !use_filter ==> filt is None,
            forall|q: int|
                0 <= q < files@.len() ==> #[trigger] fv[q] == (
                    files@[q].path@,
                    files@[q].contents@,
                ),
            total <= MAX_SEARCH_MATCHES + 1,
            total < MAX_SEARCH_MATCHES ==> {
                let tail = scan_files(pattern@, filt, fv, j as int, total as int);
                full.0 == matches_view(results@) + tail.0 && full.1 == tail.1
            },
            total >= MAX_SEARCH_MATCHES ==> matches_view(results@) == full.0 && total == full.1,
        decreases n - j,
    {
        let pruned = path_is_pruned(files[j].path.as_str());
        let selected = if pruned {
            false
        } else if use_filter {
            mask[j]
        } else {
            true
        };
        proof {
            assert(selected == file_selected(filt, fv[j as int].0));
        }
        if selected {
            let flines = split_lines(files[j].contents.as_str());
            let ghost lv = lines_spec(files@[j as int].contents@);
            let rm: Vec<bool> = match regex_match_lines(pattern, &flines) {
                Ok(v) => v,
                Err(_) => {
                    proof {
                        assert(false);
                    }
                    Vec::new()
                },
            };
            let m = flines.len();
            let mut i: usize = 0;
            let mut capped = false;
            proof {
                lemma_enter_file(pattern@, filt, fv, j as int, total as int);
                crate::extract::lemma_deep_view_index(&flines);
            }
            while i < m && !capped
                invariant
                    0 <= i <= m,
                    m == lv.len(),
                    lv == flines.deep_view(),
                    flines@.len() == m,
                    forall|q: int| 0 <= q < m ==> #[trigger] flines@[q]@ == lv[q],
                    rm@.len() == m,
                    forall|q: int|
                        0 <= q < m ==> #[trigger] rm@[q] == regex_matches(pattern@, lv[q]),
                    0 <= j < n,
                    n == files@.len(),
                    fv == files_view(files@),
                    filt == filter_view(*filter),
                    full == scan_files(pattern@, filt, fv, 0, 0),
                    fv[j as int].0 == files@[j as int].path@,
                    total <= MAX_SEARCH_MATCHES + 1,
                    !capped ==> total <= MAX_SEARCH_MATCHES,
                    !capped ==> {
                        let tail = file_then_rest(pattern@, filt, fv, j as int, lv, i as int,
                            total as int);
                        full.0 == matches_view(results@) + tail.0 && full.1 == tail.1
                    },
                    capped ==> total == MAX_SEARCH_MATCHES + 1 && matches_view(results@) == full.0
                        && total == full.1,
                decreases m - i, (if capped { 0int } else { 1int }),
            {
                if rm[i] {
                    if total >= MAX_SEARCH_MATCHES {
                        proof {
                            lemma_ftr_cap(pattern@, filt, fv, j as int, lv, i as int, total as int);
                            assert(matches_view(results@) + Seq::<MatchView>::empty()
                                =~= matches_view(results@));
                        }
                        total = total + 1;
                        capped = true;
                    } else {
                        proof {
                            lemma_ftr_match(pattern@, filt, fv, j as int, lv, i as int,
                                total as int);
                        }
                        let ghost old_results = results@;
                        let ghost old_total = total as int;
                        let ctx = build_context(&flines, i);
                        let mtch = SearchMatch {
                            path: files[j].path.clone(),
                            line_number: i + 1,
                            context: ctx,
                        };
                        results.push(mtch);
                        total = total + 1;
                        proof {
                            let mv = (fv[j as int].0, i + 1, context_block(lv, i as int));
                            assert(matches_view(results@) =~= matches_view(old_results).push(mv));
                            assert(matches_view(old_results) + (seq![mv] + file_then_rest(
                                pattern@,
                                filt,
                                fv,
                                j as int,
                                lv,
                                i + 1,
                                old_total + 1,
                            ).0) =~= matches_view(results@) + file_then_rest(
                                pattern@,
                                filt,
                                fv,
                                j as int,
                                lv,
                                i + 1,
                                old_total + 1,
                            ).0);
                        }
                        i = i + 1;
                    }
                } else {
                    proof {
                        lemma_ftr_skip(pattern@, filt, fv, j as int, lv, i as int, total as int);
                    }
                    i = i + 1;
                }
            }
            proof {
                if !capped {
                    lemma_ftr_end(pattern@, filt, fv, j as int, lv, i as int, total as int);
                    if total >= MAX_SEARCH_MATCHES {
                        assert(matches_view(results@) + Seq::<MatchView>::empty()
                            =~= matches_view(results@));
                    }
                }
            }
        }
        j = j + 1;
    }
    proof {
        if total < MAX_SEARCH_MATCHES {
            assert(j == n);
            assert(scan_files(pattern@, filt, fv, j as int, total as int).0 =~= Seq::<
                MatchView,
            >::empty());
            assert(matches_view(results@) + Seq::<MatchView>::empty() =~= matches_view(results@));
        }
    }
    (results, total)
}


/// Every match of one file's scan carries that file's path.
proof fn lemma_scan_lines_paths(
    pattern: Seq<char>,
    path: Seq<char>,
    lines: LinesView,
    i: int,
    total: int,
)
    ensures
        forall|k: int|
            0 <= k < scan_lines(pattern, path, lines, i, total).0.len()
                ==> #[trigger] scan_lines(pattern, path, lines, i, total).0[k].0 == path,
    decreases lines.len() - i,
{
    let r = scan_lines(pattern, path, lines, i, total);
    if 0 <= i < lines.len() {
        if !regex_matches(pattern, lines[i]) {
            lemma_scan_lines_paths(pattern, path, lines, i + 1, total);
            let rec = scan_lines(pattern, path, lines, i + 1, total);
            assert forall|k: int| 0 <= k < r.0.len() implies #[trigger] r.0[k].0 == path by {
                assert(r.0[k] == rec.0[k]);
            }
        } else if total + 1 <= MAX_SEARCH_MATCHES {
            lemma_scan_lines_paths(pattern, path, lines, i + 1, total + 1);
            let rec = scan_lines(pattern, path, lines, i + 1, total + 1);
            assert forall|k: int| 0 <= k < r.0.len() implies #[trigger] r.0[k].0 == path by {
                if k >= 1 {
                    assert(r.0[k] == rec.0[k - 1]);
                }
            }
        }
    }
}

/// No reported match comes from a pruned path: a file placed inside a pruned
/// directory is never returned, whatever its contents.
pub proof fn lemma_scan_files_not_pruned(
    pattern: Seq<char>,
    filter: Option<Seq<char>>,
    files: Seq<(Seq<char>, Seq<char>)>,
    j: int,
    total: int,
)
    ensures
        forall|k: int|
            0 <= k < scan_files(pattern, filter, files, j, total).0.len()
                ==> !path_pruned(#[trigger] scan_files(pattern, filter, files, j, total).0[k].0),
    decreases files.len() - j,
{
    let w = scan_files(pattern, filter, files, j, total);
    if 0 <= j < files.len() {
        if !file_selected(filter, files[j].0) {
            lemma_scan_files_not_pruned(pattern, filter, files, j + 1, total);
            let rec = scan_files(pattern, filter, files, j + 1, total);
            assert forall|k: int| 0 <= k < w.0.len() implies !path_pruned(
                #[trigger] w.0[k].0,
            ) by {
                assert(w.0[k] == rec.0[k]);
            }
        } else {
            let lv = lines_spec(files[j].1);
            let r = scan_lines(pattern, files[j].0, lv, 0, total);
            lemma_scan_lines_paths(pattern, files[j].0, lv, 0, total);
            if r.1 >= MAX_SEARCH_MATCHES {
                assert forall|k: int| 0 <= k < w.0.len() implies !path_pruned(
                    #[trigger] w.0[k].0,
                ) by {
                    assert(w.0[k] == r.0[k]);
                    assert(r.0[k].0 == files[j].0);
                }
            } else {
                lemma_scan_files_not_pruned(pattern, filter, files, j + 1, r.1);
                let rest = scan_files(pattern, filter, files, j + 1, r.1);
                assert forall|k: int| 0 <= k < w.0.len() implies !path_pruned(
                    #[trigger] w.0[k].0,
                ) by {
                    if k < r.0.len() {
                        assert(w.0[k] == r.0[k]);
                        assert(r.0[k].0 == files[j].0);
                    } else {
                        assert(w.0[k] == rest.0[k - r.0.len()]);
                    }
                }
            }
        }
    }
}

/// One file's scan: the counter never shrinks, overshoots the cap by at most
/// one, and the number of recorded matches is the counter's growth capped.
proof fn lemma_scan_lines_count(
    pattern: Seq<char>,
    path: Seq<char>,
    lines: LinesView,
    i: int,
    total: int,
)
    requires
        0 <= total <= MAX_SEARCH_MATCHES,
    ensures
        ({
            let r = scan_lines(pattern, path, lines, i, total);
            let reach = if r.1 <= MAX_SEARCH_MATCHES {
                r.1
            } else {
                MAX_SEARCH_MATCHES as int
            };
            total <= r.1 <= MAX_SEARCH_MATCHES + 1 && r.0.len() == reach - total
        }),
    decreases lines.len() - i,
{
    if 0 <= i < lines.len() {
        if !regex_matches(pattern, lines[i]) {
            lemma_scan_lines_count(pattern, path, lines, i + 1, total);
        } else if total + 1 <= MAX_SEARCH_MATCHES {
            lemma_scan_lines_count(pattern, path, lines, i + 1, total + 1);
        }
    }
}

/// The whole scan: the number of recorded matches is the counter's growth
/// capped at the match ceiling.
pub proof fn lemma_scan_files_count(
    pattern: Seq<char>,
    filter: Option<Seq<char>>,
    files: Seq<(Seq<char>, Seq<char>)>,
    j: int,
    total: int,
)
    requires
        0 <= total <= MAX_SEARCH_MATCHES,
    ensures
        ({
            let r = scan_files(pattern, filter, files, j, total);
            let reach = if r.1 <= MAX_SEARCH_MATCHES {
                r.1
            } else {
                MAX_SEARCH_MATCHES as int
            };
            total <= r.1 <= MAX_SEARCH_MATCHES + 1 && r.0.len() == reach - total
        }),
    decreases files.len() - j,
{
    if 0 <= j < files.len() {
        if !file_selected(filter, files[j].0) {
            lemma_scan_files_count(pattern, filter, files, j + 1, total);
        } else {
            let lv = lines_spec(files[j].1);
            let r = scan_lines(pattern, files[j].0, lv, 0, total);
            lemma_scan_lines_count(pattern, files[j].0, lv, 0, total);
            if r.1 < MAX_SEARCH_MATCHES {
                lemma_scan_files_count(pattern, filter, files, j + 1, r.1);
            }
        }
    }
}

/// A search never reports more than the match ceiling, however many lines
/// actually match.
pub proof fn lemma_search_match_cap(
    pattern: Seq<char>,
    filter: Option<Seq<char>>,
    files: Seq<(Seq<char>, Seq<char>)>,
)
    ensures
        search_scan(pattern, filter, files).0.len() <= MAX_SEARCH_MATCHES,
{
    lemma_scan_files_count(pattern, filter, files, 0, 0);
}

/// The block printed for one match: a blank line, the file and line locator,
/// and the context lines.
pub open spec fn match_block_spec(m: MatchView) -> Seq<char> {
    "\n"@ + m.0 + ":"@ + dec_rep(m.1 as nat) + "\n"@ + joined_lines(m.2)
}

/// The blocks of all matches, in order.
pub open spec fn blocks_spec(ms: Seq<MatchView>) -> Seq<char>
    decreases ms.len(),
{
    if ms.len() == 0 {
        Seq::empty()
    } else {
        blocks_spec(ms.drop_last()) + match_block_spec(ms.last())
    }
}

/// The header of every search output: root, pattern, and the file filter
/// when one was given.
pub open spec fn search_header_spec(
    root: Seq<char>,
    regex: Seq<char>,
    fp: Option<Seq<char>>,
) -> Seq<char> {
    "SEARCH ROOT: "@ + root + "\n"@ + "REGEX: "@ + regex + "\n"@ + match fp {
        Some(p) => "FILE_PATTERN: "@ + p + "\n"@,
        None => Seq::empty(),
    }
}

/// The whole search output: the header, then either the no-match notice or
/// the match blocks with a truncation notice once the cap was reached.
pub open spec fn search_results_spec(
    root: Seq<char>,
    regex: Seq<char>,
    fp: Option<Seq<char>>,
    ms: Seq<MatchView>,
    total: int,
) -> Seq<char> {
    search_header_spec(root, regex, fp) + if ms.len() == 0 {
        "No matches found.\n"@
    } else {
        blocks_spec(ms) + if total >= MAX_SEARCH_MATCHES {
            "\nMatches truncated at limit.\n"@
        } else {
            Seq::empty()
        }
    }
}

/// Renders the search output: header, match blocks with context in
/// visitation order, and the notices.
pub fn format_search_results(
    root: &str,
    regex: &str,
    file_pattern: &Option<String>,
    results: &Vec<SearchMatch>,
    total_matches: usize,
) -> (r: String)
    ensures
        r@ == search_results_spec(
            root@,
            regex@,
            filter_view(*file_pattern),
            matches_view(results@),
            total_matches as int,
        ),
{
    let ghost mv = matches_view(results@);
    let mut out: Vec<char> = Vec::new();
    append_str(&mut out, "SEARCH ROOT: ");
    append_str(&mut out, root);
    append_str(&mut out, "\n");
    append_str(&mut out, "REGEX: ");
    append_str(&mut out, regex);
    append_str(&mut out, "\n");
    if let Some(p) = file_pattern {
        append_str(&mut out, "FILE_PATTERN: ");
        append_str(&mut out, p.as_str());
        append_str(&mut out, "\n");
    }
    proof {
        assert(out@ =~= search_header_spec(root@, regex@, filter_view(*file_pattern)));
    }
    let ghost header = out@;
    if results.len() == 0 {
        append_str(&mut out, "No matches found.\n");
        proof {
            assert(out@ =~= search_results_spec(root@, regex@, filter_view(*file_pattern), mv,
                total_matches as int));
        }
        return chars_string(&out);
    }
    let n = results.len();
    let mut q: usize = 0;
    proof {
        assert(blocks_spec(mv.take(0)) =~= Seq::<char>::empty());
        assert(out@ =~= header + blocks_spec(mv.take(0)));
    }
    while q < n
        invariant
            0 <= q <= n,
            n == results@.len(),
            mv == matches_view(results@),
            mv.len() == n,
            forall|k: int| 0 <= k < n ==> #[trigger] mv[k] == match_view(results@[k]),
            out@ == header + blocks_spec(mv.take(q as int)),
        decreases n - q,
    {
        let m = &results[q];
        append_str(&mut out, "\n");
        append_str(&mut out, m.path.as_str());
        append_str(&mut out, ":");
        append_number(&mut out, m.line_number);
        append_str(&mut out, "\n");
        let ghost blk_head = out@;
        let ghost cv = m.context.deep_view();
        let cn = m.context.len();
        let mut c: usize = 0;
        proof {
            crate::extract::lemma_deep_view_index(&m.context);
            assert(joined_lines(cv.take(0)) =~= Seq::<char>::empty());
            assert(out@ =~= blk_head + joined_lines(cv.take(0)));
        }
        while c < cn
            invariant
                0 <= c <= cn,
                cn == m.context@.len(),
                cv == m.context.deep_view(),
                cv.len() == cn,
                forall|k: int| 0 <= k < cn ==> #[trigger] cv[k] == m.context@[k]@,
                out@ == blk_head + joined_lines(cv.take(c as int)),
            decreases cn - c,
        {
            append_str(&mut out, m.context[c].as_str());
            append_str(&mut out, "\n");
            proof {
                assert(cv.take(c + 1).drop_last() =~= cv.take(c as int));
                assert(cv.take(c + 1).last() == cv[c as int]);
                assert(out@ =~= blk_head + joined_lines(cv.take(c + 1)));
            }
            c = c + 1;
        }
        proof {
            assert(cv.take(cv.len() as int) =~= cv);
            assert(mv.take(q + 1).drop_last() =~= mv.take(q as int));
            assert(mv.take(q + 1).last() == mv[q as int]);
            assert(match_block_spec(mv[q as int]) == "\n"@ + results@[q as int].path@ + ":"@
                + dec_rep(results@[q as int].line_number as nat) + "\n"@ + joined_lines(cv));
            assert(out@ =~= header + blocks_spec(mv.take(q + 1)));
        }
        q = q + 1;
    }
    proof {
        assert(mv.take(mv.len() as int) =~= mv);
    }
    if total_matches >= MAX_SEARCH_MATCHES {
        append_str(&mut out, "\nMatches truncated at limit.\n");
        proof {
            assert(out@ =~= search_results_spec(root@, regex@, filter_view(*file_pattern), mv,
                total_matches as int));
        }
    } else {
        proof {
            assert(out@ + Seq::<char>::empty() =~= out@);
            assert(out@ =~= search_results_spec(root@, regex@, filter_view(*file_pattern), mv,
                total_matches as int));
        }
    }
    chars_string(&out)
}

/// The error text when the search root is missing or is not a directory.
pub fn search_root_error(root: &str, exists: bool) -> (r: String)
    ensures
        !exists ==> r@ == tool_error_spec(
            "search_files"@,
            "Search path does not exist: "@ + root@,
        ),
        exists ==> r@ == tool_error_spec(
            "search_files"@,
            "Search path is not a directory: "@ + root@,
        ),
{
    let mut msg: Vec<char> = Vec::new();
    if exists {
        append_str(&mut msg, "Search path is not a directory: ");
    } else {
        append_str(&mut msg, "Search path does not exist: ");
    }
    append_str(&mut msg, root);
    let text = chars_string(&msg);
    format_tool_error("search_files", text.as_str())
}

/// The filter the search applies: the given pattern, unless it is absent or
/// all whitespace.
pub open spec fn eff_filter_view(fp: Option<String>) -> Option<Seq<char>> {
    match fp {
        Some(p) => if is_blank(p@) {
            None
        } else {
            Some(p@)
        },
        None => None,
    }
}

/// Whether the filter, after the blank rule, builds a matcher.
pub open spec fn eff_filter_ok(fp: Option<String>) -> bool {
    match eff_filter_view(fp) {
        Some(f) => glob_ok(f),
        None => true,
    }
}

/// Checks the pattern and the filter ahead of any file work: yields the same
/// error text `search_files` would return, or nothing when a search may
/// proceed. A caller that walks a tree to collect the files can ask first
/// and skip the walk on a pattern that would only be rejected.
pub fn search_problem(args: &SearchFilesArgs) -> (r: Option<String>)
    ensures
        !regex_ok(args.regex@) ==> (r matches Some(t) && exists|e: Seq<char>|
            t@ == tool_error_spec("search_files"@, "Invalid regex: "@ + e)),
        regex_ok(args.regex@) && !eff_filter_ok(args.file_pattern) ==> (r matches Some(t)
            && exists|e: Seq<char>|
            t@ == tool_error_spec("search_files"@, "Invalid glob pattern: "@ + e)),
        regex_ok(args.regex@) && eff_filter_ok(args.file_pattern) ==> r is None,
{
    let probe: Vec<String> = Vec::new();
    match regex_match_lines(args.regex.as_str(), &probe) {
        Err(e) => {
            let mut msg: Vec<char> = Vec::new();
            append_str(&mut msg, "Invalid regex: ");
            append_str(&mut msg, e.as_str());
            let text = chars_string(&msg);
            return Some(format_tool_error("search_files", text.as_str()));
        },
        Ok(_) => {},
    }
    if let Some(p) = &args.file_pattern {
        if !is_blank_line(p.as_str()) {
            match glob_match_paths(p.as_str(), &probe) {
                Err(e) => {
                    let mut msg: Vec<char> = Vec::new();
                    append_str(&mut msg, "Invalid glob pattern: ");
                    append_str(&mut msg, e.as_str());
                    let text = chars_string(&msg);
                    return Some(format_tool_error("search_files", text.as_str()));
                },
                Ok(_) => {},
            }
        }
    }
    None
}

/// Runs the search tool over the given files: validates the pattern and the
/// filter, then reports the capped matches with context under the header.
pub fn search_files(args: &SearchFilesArgs, files: &Vec<SearchFile>) -> (r: String)
    ensures
        !regex_ok(args.regex@) ==> exists|e: Seq<char>|
            r@ == tool_error_spec("search_files"@, "Invalid regex: "@ + e),
        regex_ok(args.regex@) && !eff_filter_ok(args.file_pattern) ==> exists|e: Seq<char>|
            r@ == tool_error_spec("search_files"@, "Invalid glob pattern: "@ + e),
        regex_ok(args.regex@) && eff_filter_ok(args.file_pattern) ==> r@ == search_results_spec(
            args.path@,
            args.regex@,
            filter_view(args.file_pattern),
            search_scan(args.regex@, eff_filter_view(args.file_pattern), files_view(files@)).0,
            search_scan(args.regex@, eff_filter_view(args.file_pattern), files_view(files@)).1,
        ),
{
    match search_problem(args) {
        Some(err) => {
            return err;
        },
        None => {},
    }
    let eff_filter: Option<String> = match &args.file_pattern {
        Some(p) => if is_blank_line(p.as_str()) {
            None
        } else {
            Some(p.clone())
        },
        None => None,
    };
    proof {
        assert(filter_view(eff_filter) == eff_filter_view(args.file_pattern));
    }
    let (results, total) = collect_matches(args.regex.as_str(), &eff_filter, files);
    format_search_results(
        args.path.as_str(),
        args.regex.as_str(),
        &args.file_pattern,
        &results,
        total,
    )
}

} // verus!

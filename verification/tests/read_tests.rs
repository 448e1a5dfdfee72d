use blart::args::{IndentationOptions, ReadFileArgs};
use blart::lines::{line_indent, split_lines, truncate_line};
use blart::read::{read_file_indentation, read_file_slice};

fn slice_args(offset: Option<usize>, limit: Option<usize>) -> ReadFileArgs {
    ReadFileArgs { path: "f".to_string(), mode: None, offset, limit, indentation: None }
}

fn indent_args(io: IndentationOptions) -> ReadFileArgs {
    ReadFileArgs {
        path: "f".to_string(),
        mode: Some("indentation".to_string()),
        offset: None,
        limit: None,
        indentation: Some(io),
    }
}

fn io(
    anchor_line: Option<usize>,
    max_levels: Option<usize>,
    include_siblings: Option<bool>,
    include_header: Option<bool>,
    max_lines: Option<usize>,
) -> IndentationOptions {
    IndentationOptions { anchor_line, max_levels, include_siblings, include_header, max_lines }
}

#[test]
fn read_file_respects_offset_and_limit() {
    let contents = "first\nsecond\nthird\n";
    let output = read_file_slice("sample.txt", contents, &slice_args(Some(2), Some(1)));
    assert!(output.contains("2| second"));
    assert!(!output.contains("1| first"));
}

#[test]
fn slice_returns_exact_window_count() {
    // min(limit, max(0, file_len - offset + 1)) numbered lines, exactly.
    let contents = "a\nb\nc\nd\ne\n";
    for (offset, limit, expect) in
        [(1usize, 2usize, 2usize), (4, 10, 2), (5, 1, 1), (1, 5, 5), (3, 3, 3)]
    {
        let out = read_file_slice("f", contents, &slice_args(Some(offset), Some(limit)));
        let numbered = out.lines().filter(|l| l.contains("| ")).count();
        assert_eq!(numbered, expect, "offset={} limit={}", offset, limit);
    }
}

#[test]
fn slice_exact_output_text() {
    let out = read_file_slice("f", "a\nb\n", &slice_args(None, None));
    assert_eq!(out, "FILE: f\n     1| a\n     2| b\n");
}

#[test]
fn slice_beyond_end_returns_marker_not_error() {
    let out = read_file_slice("f", "a\nb\n", &slice_args(Some(3), Some(1)));
    assert_eq!(out, "FILE: f\n(no lines in range)\n");
}

#[test]
fn slice_of_empty_file_returns_marker() {
    let out = read_file_slice("f", "", &slice_args(None, None));
    assert_eq!(out, "FILE: f\n(no lines in range)\n");
}

#[test]
fn slice_zero_offset_clamps_to_one() {
    let out = read_file_slice("f", "a\nb\n", &slice_args(Some(0), Some(1)));
    assert_eq!(out, "FILE: f\n     1| a\n");
}

#[test]
fn long_lines_are_truncated_with_ellipsis() {
    let long = "x".repeat(2100);
    let cut = truncate_line(&long);
    assert_eq!(cut.chars().count(), 2003);
    assert!(cut.ends_with("..."));
    let kept = truncate_line("short");
    assert_eq!(kept, "short");
}

#[test]
fn line_indent_counts_tabs_as_four() {
    assert_eq!(line_indent("\t\tx"), 8);
    assert_eq!(line_indent("    x"), 4);
    assert_eq!(line_indent(" \t x"), 6);
    assert_eq!(line_indent("x"), 0);
}

#[test]
fn split_lines_matches_line_endings() {
    assert_eq!(split_lines("a\nb"), vec!["a", "b"]);
    assert_eq!(split_lines("a\r\nb\n"), vec!["a", "b"]);
    assert_eq!(split_lines(""), Vec::<String>::new());
    assert_eq!(split_lines("a\n\nb"), vec!["a", "", "b"]);
}

#[test]
fn indentation_block_stops_at_boundary_lines() {
    // The block around the anchored body line is bounded above by the
    // shallower header line and below by the line at the anchor's indent.
    let contents = "fn outer() {\n    let x = 1;\n    println!();\n}\n";
    let out = read_file_indentation(
        "f",
        contents,
        &indent_args(io(Some(2), None, None, Some(false), None)),
    );
    assert_eq!(out, "FILE: f\n     2|     let x = 1;\n");
}

#[test]
fn indentation_block_extends_over_deeper_lines() {
    let contents = "a\n  b\n    c\n    d\n  e\n";
    let out = read_file_indentation(
        "f",
        contents,
        &indent_args(io(Some(2), None, None, Some(false), None)),
    );
    assert_eq!(out, "FILE: f\n     2|   b\n     3|     c\n     4|     d\n");
}

#[test]
fn sibling_mode_keeps_lines_at_anchor_indent() {
    let contents = "a\n  b\n    c\n    d\n  e\n";
    let out = read_file_indentation(
        "f",
        contents,
        &indent_args(io(Some(2), None, Some(true), Some(false), None)),
    );
    assert_eq!(
        out,
        "FILE: f\n     2|   b\n     3|     c\n     4|     d\n     5|   e\n"
    );
}

#[test]
fn max_levels_expands_start_upward() {
    let contents = "a\n  b\n    c\n";
    let out = read_file_indentation(
        "f",
        contents,
        &indent_args(io(Some(3), Some(1), None, Some(false), None)),
    );
    assert_eq!(out, "FILE: f\n     2|   b\n     3|     c\n");
}

#[test]
fn include_header_never_raises_the_start() {
    let contents = "use std;\n\nfn f() {\n    body();\n}\n";
    let with_header = read_file_indentation(
        "f",
        contents,
        &indent_args(io(Some(4), None, None, Some(true), None)),
    );
    let without_header = read_file_indentation(
        "f",
        contents,
        &indent_args(io(Some(4), None, None, Some(false), None)),
    );
    // The header of this file ends after its first blank line, so the start
    // is lowered to line 3; without the header the block is line 4 alone.
    assert_eq!(with_header, "FILE: f\n     3| fn f() {\n     4|     body();\n");
    assert_eq!(without_header, "FILE: f\n     4|     body();\n");
}

#[test]
fn max_lines_caps_a_larger_block_exactly() {
    let contents = "a\n  b\n    c\n    d\n    e\n  f\n";
    let capped = read_file_indentation(
        "f",
        contents,
        &indent_args(io(Some(2), None, None, Some(false), Some(2))),
    );
    assert_eq!(capped, "FILE: f\n     2|   b\n     3|     c\n");
    // A cap wider than the block leaves it unchanged.
    let wide = read_file_indentation(
        "f",
        contents,
        &indent_args(io(Some(2), None, None, Some(false), Some(50))),
    );
    assert_eq!(wide, "FILE: f\n     2|   b\n     3|     c\n     4|     d\n     5|     e\n");
}

#[test]
fn blank_anchor_resolves_to_nearest_non_blank() {
    let contents = "a\n  b\n\n  c\n";
    // Anchoring on the blank line resolves backward to line 2, so the block
    // is identical to anchoring on line 2 itself.
    let on_blank = read_file_indentation(
        "f",
        contents,
        &indent_args(io(Some(3), None, None, Some(false), None)),
    );
    let on_line = read_file_indentation(
        "f",
        contents,
        &indent_args(io(Some(2), None, None, Some(false), None)),
    );
    assert_eq!(on_blank, on_line);
}

#[test]
fn anchor_is_clamped_into_the_file() {
    let contents = "a\n  b\n";
    // Anchor 0 clamps to line 1, an anchor past the end to the last line.
    let low = read_file_indentation(
        "f",
        contents,
        &indent_args(io(Some(0), None, None, Some(false), None)),
    );
    assert_eq!(low, "FILE: f\n     1| a\n     2|   b\n");
    let high = read_file_indentation(
        "f",
        contents,
        &indent_args(io(Some(99), None, None, Some(false), None)),
    );
    assert_eq!(high, "FILE: f\n     2|   b\n");
}

#[test]
fn empty_file_yields_marker_in_indentation_mode() {
    let out = read_file_indentation("f", "", &indent_args(io(None, None, None, None, None)));
    assert_eq!(out, "FILE: f\n(no lines in range)\n");
}

use blart::args::SearchFilesArgs;
use blart::search::{
    collect_matches, is_ignored_dir, path_is_pruned, search_files, search_root_error, SearchFile,
};

fn file(path: &str, contents: &str) -> SearchFile {
    SearchFile { path: path.to_string(), contents: contents.to_string() }
}

fn args(path: &str, regex: &str, file_pattern: Option<&str>) -> SearchFilesArgs {
    SearchFilesArgs {
        path: path.to_string(),
        regex: regex.to_string(),
        file_pattern: file_pattern.map(|p| p.to_string()),
    }
}

#[test]
fn search_files_finds_matches() {
    let files = vec![file("lib.rs", "fn target() {}\n")];
    let output = search_files(&args(".", "target", Some("*.rs")), &files);
    assert!(output.contains("lib.rs"));
    assert!(output.contains("target"));
}

#[test]
fn search_reports_locator_and_marked_context() {
    let files = vec![file("src/a.txt", "one\ntwo\nthree\n")];
    let output = search_files(&args("src", "two", None), &files);
    assert!(output.starts_with("SEARCH ROOT: src\nREGEX: two\n"));
    assert!(output.contains("\nsrc/a.txt:2\n"));
    assert!(output.contains("       1| one\n"));
    assert!(output.contains(">      2| two\n"));
    assert!(output.contains("       3| three\n"));
    assert!(!output.contains("Matches truncated"));
}

#[test]
fn search_without_matches_says_so() {
    let files = vec![file("a.txt", "nothing here\n")];
    let output = search_files(&args(".", "absent_word", None), &files);
    assert_eq!(output, "SEARCH ROOT: .\nREGEX: absent_word\nNo matches found.\n");
}

#[test]
fn pruned_directories_never_yield_matches() {
    // A file placed inside a pruned directory name is never returned,
    // regardless of matching content.
    let files = vec![
        file(".git/config", "needle\n"),
        file("target/debug/out.txt", "needle\n"),
        file("src/keep.txt", "needle\n"),
        file("src/target/nested.txt", "needle\n"),
    ];
    let output = search_files(&args(".", "needle", None), &files);
    assert!(output.contains("src/keep.txt"));
    assert!(!output.contains(".git/config"));
    assert!(!output.contains("target/debug/out.txt"));
    assert!(!output.contains("src/target/nested.txt"));
}

#[test]
fn path_pruning_checks_every_component() {
    assert!(path_is_pruned(".git/config"));
    assert!(path_is_pruned("a/target/b"));
    assert!(path_is_pruned("target"));
    assert!(!path_is_pruned("a/targets/b"));
    assert!(!path_is_pruned("retarget/x"));
    assert!(is_ignored_dir(".git"));
    assert!(is_ignored_dir("target"));
    assert!(!is_ignored_dir("src"));
}

#[test]
fn search_never_reports_more_than_fifty_matches() {
    let many = "needle\n".repeat(120);
    let files = vec![file("big.txt", &many), file("later.txt", "needle\n")];
    let (matches, total) = collect_matches("needle", &None, &files);
    assert_eq!(matches.len(), 50);
    assert_eq!(total, 51);
    let output = search_files(&args(".", "needle", None), &files);
    assert_eq!(output.matches("\nbig.txt:").count(), 50);
    assert!(!output.contains("later.txt"));
    assert!(output.ends_with("\nMatches truncated at limit.\n"));
}

#[test]
fn exactly_fifty_matches_still_notes_truncation() {
    let fifty = "needle\n".repeat(50);
    let files = vec![file("big.txt", &fifty)];
    let (matches, total) = collect_matches("needle", &None, &files);
    assert_eq!(matches.len(), 50);
    assert_eq!(total, 50);
    let output = search_files(&args(".", "needle", None), &files);
    assert!(output.contains("Matches truncated at limit."));
}

#[test]
fn glob_filter_restricts_scanned_files() {
    let files = vec![file("a.rs", "needle\n"), file("a.txt", "needle\n")];
    let output = search_files(&args(".", "needle", Some("*.rs")), &files);
    assert!(output.contains("a.rs"));
    assert!(!output.contains("a.txt"));
}

#[test]
fn blank_glob_filter_scans_everything() {
    let files = vec![file("a.rs", "needle\n"), file("a.txt", "needle\n")];
    let output = search_files(&args(".", "needle", Some("   ")), &files);
    assert!(output.contains("a.rs"));
    assert!(output.contains("a.txt"));
}

#[test]
fn invalid_regex_yields_tool_error() {
    let files = vec![file("a.txt", "x\n")];
    let output = search_files(&args(".", "(unclosed", None), &files);
    assert!(output.starts_with("ERROR (search_files): Invalid regex: "));
}

#[test]
fn invalid_glob_yields_tool_error() {
    let files = vec![file("a.txt", "x\n")];
    let output = search_files(&args(".", "x", Some("a{")), &files);
    assert!(output.starts_with("ERROR (search_files): Invalid glob pattern: "));
}

#[test]
fn root_errors_use_the_uniform_format() {
    assert_eq!(
        search_root_error("missing", false),
        "ERROR (search_files): Search path does not exist: missing\n"
    );
    assert_eq!(
        search_root_error("a_file", true),
        "ERROR (search_files): Search path is not a directory: a_file\n"
    );
}

#[test]
fn context_window_clamps_at_file_bounds() {
    let files = vec![file("a.txt", "only\n")];
    let output = search_files(&args(".", "only", None), &files);
    assert!(output.contains("\na.txt:1\n>      1| only\n"));
}

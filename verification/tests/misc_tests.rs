use blart::gitdata::GitData;
use blart::search::{search_files, SearchFile};
use blart::args::SearchFilesArgs;

#[test]
fn git_data_keeps_its_fields() {
    let g = GitData::new(
        "diff text".to_string(),
        vec!["a.rs".to_string()],
        "headhash".to_string(),
        "basehash".to_string(),
        Some("feature".to_string()),
        "repo".to_string(),
        None,
    );
    assert_eq!(g.diff, "diff text");
    assert_eq!(g.files_changed, vec!["a.rs".to_string()]);
    assert_eq!(g.head_hash, "headhash");
    assert_eq!(g.merge_base_hash, "basehash");
    assert_eq!(g.branch_name.as_deref(), Some("feature"));
    assert_eq!(g.repo_name, "repo");
    assert_eq!(g.remote_url, None);
}

#[test]
fn regex_matching_is_not_literal_text_search() {
    // A pattern with metacharacters matches per regex semantics, so a search
    // that merely echoed the pattern or compared raw text would fail here.
    let files = vec![SearchFile {
        path: "a.txt".to_string(),
        contents: "two\nt.o\nten\n".to_string(),
    }];
    let output = search_files(
        &SearchFilesArgs {
            path: ".".to_string(),
            regex: "^t.o$".to_string(),
            file_pattern: None,
        },
        &files,
    );
    assert!(output.contains("\na.txt:1\n"));
    assert!(output.contains("\na.txt:2\n"));
    assert!(!output.contains("\na.txt:3\n"));
}

#[test]
fn glob_matching_uses_glob_semantics() {
    let files = vec![
        SearchFile { path: "deep/dir/a.rs".to_string(), contents: "needle\n".to_string() },
        SearchFile { path: "deep/dir/a.rson".to_string(), contents: "needle\n".to_string() },
    ];
    let output = search_files(
        &SearchFilesArgs {
            path: ".".to_string(),
            regex: "needle".to_string(),
            file_pattern: Some("*.rs".to_string()),
        },
        &files,
    );
    assert!(output.contains("a.rs:1"));
    assert!(!output.contains("a.rson"));
}

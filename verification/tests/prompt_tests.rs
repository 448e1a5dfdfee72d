use blart::prompt::{create_user_prompt, get_system_prompt, TOOL_GUIDE, TOOL_POLICY};

#[test]
fn create_user_prompt_includes_diff_and_files() {
    let diff = "diff --git a/a b/a\n+hi\n";
    let files = vec!["src/main.rs".to_string()];
    let prompt = create_user_prompt(diff, &files, Some("Extra context"));

    assert!(prompt.contains("DIFF BEGINS"));
    assert!(prompt.contains(diff));
    assert!(prompt.contains("TOUCHED FILES"));
    assert!(prompt.contains("src/main.rs"));
    assert!(prompt.contains("Extra context"));
}

#[test]
fn create_user_prompt_without_files_lists_none() {
    let prompt = create_user_prompt("d\n", &Vec::new(), None);
    assert!(prompt.contains("TOUCHED FILES:\n(none)\n"));
}

#[test]
fn create_user_prompt_skips_blank_additional_context() {
    let with_blank = create_user_prompt("d\n", &Vec::new(), Some("   "));
    let without = create_user_prompt("d\n", &Vec::new(), None);
    assert_eq!(with_blank, without);
}

#[test]
fn create_user_prompt_exact_text() {
    let prompt = create_user_prompt("DIFFTEXT\n", &vec!["a.rs".to_string()], None);
    let expected = "Below is a git diff and the list of touched files. Use search_files and read_file if you need more context.\n\nDIFF BEGINS:\nDIFFTEXT\n\nDIFF ENDS\n\nTOUCHED FILES:\na.rs\n";
    assert_eq!(prompt, expected);
}

#[test]
fn system_prompt_wraps_base_instructions() {
    let sp = get_system_prompt("BASE INSTRUCTIONS");
    assert_eq!(sp, format!("{}\n\n{}\n\nBASE INSTRUCTIONS", TOOL_POLICY, TOOL_GUIDE));
}

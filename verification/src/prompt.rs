//! Prompt assembly: the fixed tool-usage guidance prepended to the system
//! prompt, and the user prompt built around the diff and the touched files.

use vstd::prelude::*;
use crate::chars::is_blank;
use crate::lines::is_blank_line;
use crate::render::joined_lines;
use crate::strutil::{append_str, chars_string};

verus! {

/// Guidance on when to reach for the tools at all.
pub const TOOL_POLICY: &'static str = "You may use the tools search_files and read_file to inspect the repository. Be judicious: start from the diff and touched file list, then request only the minimum additional context needed. Do not read the entire codebase just because more context is available.";

/// Reference text for the two tools, sent as part of the system prompt.
pub const TOOL_GUIDE: &'static str = "Tool reference (use only when needed):\n\nsearch_files\n- Purpose: Regex search across files in a directory with context lines. Use this to locate definitions, usages, TODOs, or confirm patterns.\n- Parameters:\n  - path (required): Directory to search recursively, relative to the workspace.\n  - regex (required): Rust-compatible regex pattern to match.\n  - file_pattern (optional): Glob to filter files (e.g., '*.rs').\n- Notes: Prefer narrow regexes and file patterns to avoid large outputs.\n- Example:\n  { \"path\": \"src\", \"regex\": \"fn\\s+create_user_prompt\", \"file_pattern\": \"*.rs\" }\n\nread_file\n- Purpose: Read a file and return line-numbered contents. Use this to inspect specific files or ranges once you know what you need.\n- Parameters:\n  - path (required): Path to file, relative to the workspace.\n  - offset (optional): 1-based line offset to start reading (default 1).\n  - limit (optional): Maximum number of lines to return (default 2000).\n- Notes: Use offset/limit to read only the section you need; avoid full-file reads unless the file is small.\n- Example:\n  { \"path\": \"src/main.rs\", \"offset\": 1, \"limit\": 200 }";

/// Opening line of every user prompt.
pub const USER_PROMPT_INTRO: &'static str = "Below is a git diff and the list of touched files. Use search_files and read_file if you need more context.\n";

/// The system prompt: tool policy, tool guide, then the review instructions.
pub open spec fn system_prompt_spec(base: Seq<char>) -> Seq<char> {
    TOOL_POLICY@ + "\n\n"@ + TOOL_GUIDE@ + "\n\n"@ + base
}

/// Builds the system prompt around the given review instructions.
pub fn get_system_prompt(base: &str) -> (r: String)
    ensures
        r@ == system_prompt_spec(base@),
{
    let mut out: Vec<char> = Vec::new();
    append_str(&mut out, TOOL_POLICY);
    append_str(&mut out, "\n\n");
    append_str(&mut out, TOOL_GUIDE);
    append_str(&mut out, "\n\n");
    append_str(&mut out, base);
    proof {
        assert(out@ =~= system_prompt_spec(base@));
    }
    chars_string(&out)
}

/// The user prompt: the intro, any extra context that is not all whitespace,
/// the diff between its markers, and the touched files one per line.
pub open spec fn user_prompt_spec(
    diff: Seq<char>,
    files: Seq<Seq<char>>,
    additional: Option<Seq<char>>,
) -> Seq<char> {
    USER_PROMPT_INTRO@ + (match additional {
        Some(a) => if is_blank(a) {
            Seq::empty()
        } else {
            a + "\n"@
        },
        None => Seq::empty(),
    }) + "\nDIFF BEGINS:\n"@ + diff + "\nDIFF ENDS\n\nTOUCHED FILES:\n"@ + (if files.len() == 0 {
        "(none)\n"@
    } else {
        joined_lines(files)
    })
}

/// Builds the user prompt for one review.
pub fn create_user_prompt(
    diff: &str,
    files_changed: &Vec<String>,
    additional_prompt: Option<&str>,
) -> (r: String)
    ensures
        r@ == user_prompt_spec(
            diff@,
            files_changed.deep_view(),
            match additional_prompt {
                Some(a) => Some(a@),
                None => None,
            },
        ),
{
    let ghost v = files_changed.deep_view();
    proof {
        crate::extract::lemma_deep_view_index(files_changed);
    }
    let mut out: Vec<char> = Vec::new();
    append_str(&mut out, USER_PROMPT_INTRO);
    if let Some(additional) = additional_prompt {
        if !is_blank_line(additional) {
            append_str(&mut out, additional);
            append_str(&mut out, "\n");
        }
    }
    append_str(&mut out, "\nDIFF BEGINS:\n");
    append_str(&mut out, diff);
    append_str(&mut out, "\nDIFF ENDS\n\nTOUCHED FILES:\n");
    if files_changed.len() == 0 {
        append_str(&mut out, "(none)\n");
    } else {
        let ghost head = out@;
        let n = files_changed.len();
        let mut i: usize = 0;
        proof {
            assert(joined_lines(v.take(0)) =~= Seq::<char>::empty());
            assert(out@ =~= head + joined_lines(v.take(0)));
        }
        while i < n
            invariant
                0 <= i <= n,
                n == files_changed@.len(),
                v == files_changed.deep_view(),
                v.len() == n,
                forall|j: int| 0 <= j < v.len() ==> #[trigger] v[j] == files_changed@[j]@,
                out@ == head + joined_lines(v.take(i as int)),
            decreases n - i,
        {
            append_str(&mut out, files_changed[i].as_str());
            append_str(&mut out, "\n");
            proof {
                assert(v.take(i + 1).drop_last() =~= v.take(i as int));
                assert(v.take(i + 1).last() == v[i as int]);
                assert(out@ =~= head + joined_lines(v.take(i + 1)));
            }
            i = i + 1;
        }
        proof {
            assert(v.take(v.len() as int) =~= v);
        }
    }
    proof {
        assert(out@ =~= user_prompt_spec(
            diff@,
            v,
            match additional_prompt {
                Some(a) => Some(a@),
                None => None,
            },
        ));
    }
    chars_string(&out)
}

} // verus!

//! The tool dispatcher: maps a tool name and its encoded argument blob to a
//! typed plan, and produces the one-line console summary of a call. Failures
//! never abort a run: an unknown name or undecodable arguments become the
//! uniform error text, returned as ordinary tool output.

use vstd::prelude::*;
use crate::args::{
    decode_read_args,
    decode_search_args,
    eff_limit,
    eff_offset,
    IndentationOptions,
    ReadFileArgs,
    SearchFilesArgs,
};
use crate::args::{
    opt_string_view,
    read_args_decode,
    read_args_match,
    search_args_decode,
    search_args_match,
};
use crate::jsonio::{json_parses, json_value_of};
use crate::args::{effective_limit, effective_offset};
use crate::chars::is_blank;
use crate::lines::is_blank_line;
use crate::numfmt::{append_number, dec_rep};
use crate::render::{format_tool_error, tool_error_spec};
use crate::strutil::{append_str, chars_string, str_eq};

verus! {

/// What a tool call asks for: one of the two file tools with decoded
/// arguments, or text to hand straight back (the uniform error for an
/// unknown name or undecodable arguments).
pub enum ToolAction {
    ReadFile(ReadFileArgs),
    SearchFiles(SearchFilesArgs),
    Reply(String),
}

/// Decides a tool call: decodes the arguments of a known tool, and turns
/// every failure into reply text rather than an abort. A known tool's
/// arguments decode to exactly the plan `read_args_decode` /
/// `search_args_decode` give, or fail to exactly that diagnostic wrapped in
/// the uniform error; only the diagnostic of text that is not JSON at all is
/// the engine's own.
pub fn plan_tool_call(name: &str, arguments: &str) -> (r: ToolAction)
    ensures
        name@ != "read_file"@ && name@ != "search_files"@ ==> (r matches ToolAction::Reply(t)
            && t@ == tool_error_spec(name@, "Unknown tool name"@)),
        name@ == "read_file"@ && !json_parses(arguments@) ==> (r matches ToolAction::Reply(t)
            && exists|e: Seq<char>|
            t@ == tool_error_spec("read_file"@, "Invalid arguments: "@ + e)),
        name@ == "read_file"@ && json_parses(arguments@) ==> match read_args_decode(
            json_value_of(arguments@),
        ) {
            Ok(d) => r matches ToolAction::ReadFile(a) && read_args_match(a, d),
            Err(m) => r matches ToolAction::Reply(t) && t@ == tool_error_spec(
                "read_file"@,
                "Invalid arguments: "@ + m,
            ),
        },
        name@ == "search_files"@ && !json_parses(arguments@) ==> (r matches ToolAction::Reply(t)
            && exists|e: Seq<char>|
            t@ == tool_error_spec("search_files"@, "Invalid arguments: "@ + e)),
        name@ == "search_files"@ && json_parses(arguments@) ==> match search_args_decode(
            json_value_of(arguments@),
        ) {
            Ok(d) => r matches ToolAction::SearchFiles(a) && search_args_match(a, d),
            Err(m) => r matches ToolAction::Reply(t) && t@ == tool_error_spec(
                "search_files"@,
                "Invalid arguments: "@ + m,
            ),
        },
{
    proof {
        reveal_strlit("read_file");
        reveal_strlit("search_files");
        assert("read_file"@.len() == 9 && "search_files"@.len() == 12);
        assert("read_file"@ != "search_files"@);
    }
    if str_eq(name, "read_file") {
        match decode_read_args(arguments) {
            Ok(a) => ToolAction::ReadFile(a),
            Err(e) => {
                let mut msg: Vec<char> = Vec::new();
                append_str(&mut msg, "Invalid arguments: ");
                append_str(&mut msg, e.as_str());
                proof {
                    assert(msg@ =~= "Invalid arguments: "@ + e@);
                }
                let text = chars_string(&msg);
                ToolAction::Reply(format_tool_error("read_file", text.as_str()))
            },
        }
    } else if str_eq(name, "search_files") {
        match decode_search_args(arguments) {
            Ok(a) => ToolAction::SearchFiles(a),
            Err(e) => {
                let mut msg: Vec<char> = Vec::new();
                append_str(&mut msg, "Invalid arguments: ");
                append_str(&mut msg, e.as_str());
                proof {
                    assert(msg@ =~= "Invalid arguments: "@ + e@);
                }
                let text = chars_string(&msg);
                ToolAction::Reply(format_tool_error("search_files", text.as_str()))
            },
        }
    } else {
        ToolAction::Reply(format_tool_error(name, "Unknown tool name"))
    }
}

/// Whether the arguments ask for indentation mode.
pub open spec fn is_indentation_mode(mode: Option<String>) -> bool {
    match mode {
        Some(m) => m@ == "indentation"@,
        None => false,
    }
}

/// The anchor line a summary shows: the given one, defaulting to one.
pub open spec fn summary_anchor(io: Option<IndentationOptions>) -> nat {
    match io {
        Some(o) => match o.anchor_line {
            Some(a) => a as nat,
            None => 1,
        },
        None => 1,
    }
}

/// The console summary of a decoded read call: path and anchor in
/// indentation mode, path and effective line range in slice mode.
pub open spec fn read_summary_spec(args: ReadFileArgs) -> Seq<char> {
    if is_indentation_mode(args.mode) {
        "read_file "@ + args.path@ + " (indentation anchor_line="@ + dec_rep(
            summary_anchor(args.indentation),
        ) + ")"@
    } else {
        let offset = eff_offset(args.offset);
        let limit = eff_limit(args.limit);
        let wide = offset + (if limit >= 1 {
            (limit - 1) as nat
        } else {
            0
        });
        let end: nat = if wide > usize::MAX as nat {
            usize::MAX as nat
        } else {
            wide
        };
        "read_file "@ + args.path@ + ":"@ + dec_rep(offset) + "-"@ + dec_rep(end)
    }
}

/// Renders the console summary of a decoded read call.
pub fn summarize_read_args(args: &ReadFileArgs) -> (r: String)
    ensures
        r@ == read_summary_spec(*args),
{
    let indent_mode = match &args.mode {
        Some(m) => str_eq(m.as_str(), "indentation"),
        None => false,
    };
    let mut out: Vec<char> = Vec::new();
    append_str(&mut out, "read_file ");
    append_str(&mut out, args.path.as_str());
    if indent_mode {
        let anchor: usize = match &args.indentation {
            Some(o) => match o.anchor_line {
                Some(a) => a,
                None => 1,
            },
            None => 1,
        };
        append_str(&mut out, " (indentation anchor_line=");
        append_number(&mut out, anchor);
        append_str(&mut out, ")");
    } else {
        let offset = effective_offset(&args.offset);
        let limit = effective_limit(&args.limit);
        let end: usize = if limit >= 1 {
            if offset > usize::MAX - (limit - 1) {
                usize::MAX
            } else {
                offset + (limit - 1)
            }
        } else {
            offset
        };
        append_str(&mut out, ":");
        append_number(&mut out, offset);
        append_str(&mut out, "-");
        append_number(&mut out, end);
    }
    proof {
        assert(out@ =~= read_summary_spec(*args));
    }
    chars_string(&out)
}

/// The console summary of a decoded search call: path and pattern, plus the
/// file filter when one that is not all whitespace was given.
pub open spec fn search_summary_spec(args: SearchFilesArgs) -> Seq<char> {
    let base = "search_files "@ + args.path@ + " regex="@ + args.regex@;
    match args.file_pattern {
        Some(p) => if is_blank(p@) {
            base
        } else {
            base + " files="@ + p@
        },
        None => base,
    }
}

/// Renders the console summary of a decoded search call.
pub fn summarize_search_args(args: &SearchFilesArgs) -> (r: String)
    ensures
        r@ == search_summary_spec(*args),
{
    let mut out: Vec<char> = Vec::new();
    append_str(&mut out, "search_files ");
    append_str(&mut out, args.path.as_str());
    append_str(&mut out, " regex=");
    append_str(&mut out, args.regex.as_str());
    if let Some(p) = &args.file_pattern {
        if !is_blank_line(p.as_str()) {
            append_str(&mut out, " files=");
            append_str(&mut out, p.as_str());
        }
    }
    proof {
        assert(out@ =~= search_summary_spec(*args));
    }
    chars_string(&out)
}

/// The read summary depends only on the decoded fields: any two argument
/// values carrying the same fields summarize alike.
proof fn lemma_read_summary_by_view(a: ReadFileArgs, b: ReadFileArgs)
    requires
        a.path@ == b.path@,
        opt_string_view(a.mode) == opt_string_view(b.mode),
        a.offset == b.offset,
        a.limit == b.limit,
        a.indentation == b.indentation,
    ensures
        read_summary_spec(a) == read_summary_spec(b),
{
    match (a.mode, b.mode) {
        (Some(m1), Some(m2)) => {
            assert(m1@ == m2@);
        },
        (None, None) => {},
        _ => {
            assert(false);
        },
    }
}

/// The search summary depends only on the decoded fields.
proof fn lemma_search_summary_by_view(a: SearchFilesArgs, b: SearchFilesArgs)
    requires
        a.path@ == b.path@,
        a.regex@ == b.regex@,
        opt_string_view(a.file_pattern) == opt_string_view(b.file_pattern),
    ensures
        search_summary_spec(a) == search_summary_spec(b),
{
    match (a.file_pattern, b.file_pattern) {
        (Some(p1), Some(p2)) => {
            assert(p1@ == p2@);
        },
        (None, None) => {},
        _ => {
            assert(false);
        },
    }
}

/// One line describing any tool call for the console, independent of the
/// call's actual output: for a known tool whose arguments decode, the summary
/// of exactly the decoded arguments; otherwise the fixed fallback line.
pub fn summarize_tool_call(name: &str, arguments: &str) -> (r: String)
    ensures
        name@ == "read_file"@ && !json_parses(arguments@) ==> r@
            == "read_file (invalid args)"@,
        name@ == "read_file"@ && json_parses(arguments@) ==> match read_args_decode(
            json_value_of(arguments@),
        ) {
            Ok(d) => forall|a: ReadFileArgs|
                read_args_match(a, d) ==> r@ == #[trigger] read_summary_spec(a),
            Err(m) => r@ == "read_file (invalid args)"@,
        },
        name@ == "search_files"@ && !json_parses(arguments@) ==> r@
            == "search_files (invalid args)"@,
        name@ == "search_files"@ && json_parses(arguments@) ==> match search_args_decode(
            json_value_of(arguments@),
        ) {
            Ok(d) => forall|a: SearchFilesArgs|
                search_args_match(a, d) ==> r@ == #[trigger] search_summary_spec(a),
            Err(m) => r@ == "search_files (invalid args)"@,
        },
        name@ != "read_file"@ && name@ != "search_files"@ ==> r@ == name@ + " (unknown tool)"@,
{
    proof {
        reveal_strlit("read_file");
        reveal_strlit("search_files");
        assert("read_file"@.len() == 9 && "search_files"@.len() == 12);
        assert("read_file"@ != "search_files"@);
    }
    if str_eq(name, "read_file") {
        match decode_read_args(arguments) {
            Ok(a) => {
                let s = summarize_read_args(&a);
                proof {
                    if json_parses(arguments@) {
                        match read_args_decode(json_value_of(arguments@)) {
                            Ok(d) => {
                                assert forall|a2: ReadFileArgs| read_args_match(a2, d) implies s@
                                    == #[trigger] read_summary_spec(a2) by {
                                    lemma_read_summary_by_view(a2, a);
                                }
                            },
                            Err(_) => {},
                        }
                    }
                }
                s
            },
            Err(_) => {
                let mut out: Vec<char> = Vec::new();
                append_str(&mut out, "read_file (invalid args)");
                proof {
                    assert(out@ =~= "read_file (invalid args)"@);
                }
                chars_string(&out)
            },
        }
    } else if str_eq(name, "search_files") {
        match decode_search_args(arguments) {
            Ok(a) => {
                let s = summarize_search_args(&a);
                proof {
                    if json_parses(arguments@) {
                        match search_args_decode(json_value_of(arguments@)) {
                            Ok(d) => {
                                assert forall|a2: SearchFilesArgs| search_args_match(a2, d)
                                    implies s@ == #[trigger] search_summary_spec(a2) by {
                                    lemma_search_summary_by_view(a2, a);
                                }
                            },
                            Err(_) => {},
                        }
                    }
                }
                s
            },
            Err(_) => {
                let mut out: Vec<char> = Vec::new();
                append_str(&mut out, "search_files (invalid args)");
                proof {
                    assert(out@ =~= "search_files (invalid args)"@);
                }
                chars_string(&out)
            },
        }
    } else {
        let mut out: Vec<char> = Vec::new();
        append_str(&mut out, name);
        append_str(&mut out, " (unknown tool)");
        proof {
            assert(out@ =~= name@ + " (unknown tool)"@);
        }
        chars_string(&out)
    }
}

} // verus!

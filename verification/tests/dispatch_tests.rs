use blart::args::{decode_read_args, decode_search_args};
use blart::dispatch::{plan_tool_call, summarize_tool_call, ToolAction};
use blart::render::format_tool_error;
use blart::tooldefs::tool_definitions;

#[test]
fn unknown_tool_name_yields_uniform_error() {
    match plan_tool_call("launch_missiles", "{}") {
        ToolAction::Reply(t) => {
            assert_eq!(t, "ERROR (launch_missiles): Unknown tool name\n");
        },
        _ => panic!("expected a reply"),
    }
}

#[test]
fn read_file_arguments_decode_with_defaults() {
    match plan_tool_call("read_file", "{\"path\":\"src/a.rs\"}") {
        ToolAction::ReadFile(a) => {
            assert_eq!(a.path, "src/a.rs");
            assert!(a.mode.is_none());
            assert!(a.offset.is_none());
            assert!(a.limit.is_none());
            assert!(a.indentation.is_none());
        },
        _ => panic!("expected a read plan"),
    }
}

#[test]
fn read_file_indentation_options_decode() {
    let raw = "{\"path\":\"x\",\"mode\":\"indentation\",\"indentation\":{\"anchor_line\":42,\"include_siblings\":true}}";
    match plan_tool_call("read_file", raw) {
        ToolAction::ReadFile(a) => {
            assert_eq!(a.mode.as_deref(), Some("indentation"));
            let io = a.indentation.expect("indentation options");
            assert_eq!(io.anchor_line, Some(42));
            assert_eq!(io.include_siblings, Some(true));
            assert_eq!(io.include_header, None);
            assert_eq!(io.max_levels, None);
            assert_eq!(io.max_lines, None);
        },
        _ => panic!("expected a read plan"),
    }
}

#[test]
fn undecodable_arguments_yield_recoverable_error() {
    match plan_tool_call("read_file", "not json at all") {
        ToolAction::Reply(t) => {
            assert!(t.starts_with("ERROR (read_file): Invalid arguments: "));
        },
        _ => panic!("expected a reply"),
    }
    match plan_tool_call("search_files", "{\"path\":\".\"}") {
        ToolAction::Reply(t) => {
            assert!(t.starts_with("ERROR (search_files): Invalid arguments: "));
            assert!(t.contains("regex"));
        },
        _ => panic!("expected a reply"),
    }
}

#[test]
fn wrongly_typed_fields_are_decode_errors() {
    assert!(decode_read_args("{\"path\":5}").is_err());
    assert!(decode_read_args("{\"path\":\"x\",\"offset\":-1}").is_err());
    assert!(decode_read_args("{\"path\":\"x\",\"offset\":1.5}").is_err());
    assert!(decode_read_args("{\"path\":\"x\",\"indentation\":3}").is_err());
    assert!(decode_read_args("[1,2]").is_err());
    assert!(decode_search_args("{\"path\":\".\",\"regex\":7}").is_err());
}

#[test]
fn null_optional_fields_decode_as_unset() {
    let a = decode_read_args("{\"path\":\"x\",\"offset\":null,\"mode\":null}").unwrap();
    assert_eq!(a.offset, None);
    assert_eq!(a.mode, None);
    let s = decode_search_args("{\"path\":\".\",\"regex\":\"r\",\"file_pattern\":null}").unwrap();
    assert_eq!(s.file_pattern, None);
}

#[test]
fn summary_of_slice_read_shows_effective_range() {
    let s = summarize_tool_call("read_file", "{\"path\":\"src/a.rs\",\"offset\":2,\"limit\":3}");
    assert_eq!(s, "read_file src/a.rs:2-4");
    let d = summarize_tool_call("read_file", "{\"path\":\"src/a.rs\"}");
    assert_eq!(d, "read_file src/a.rs:1-2000");
}

#[test]
fn summary_of_indentation_read_shows_anchor() {
    let s = summarize_tool_call(
        "read_file",
        "{\"path\":\"x\",\"mode\":\"indentation\",\"indentation\":{\"anchor_line\":42}}",
    );
    assert_eq!(s, "read_file x (indentation anchor_line=42)");
}

#[test]
fn summary_of_search_shows_pattern_when_given() {
    let with = summarize_tool_call(
        "search_files",
        "{\"path\":\"src\",\"regex\":\"fn\",\"file_pattern\":\"*.rs\"}",
    );
    assert_eq!(with, "search_files src regex=fn files=*.rs");
    let without = summarize_tool_call("search_files", "{\"path\":\"src\",\"regex\":\"fn\"}");
    assert_eq!(without, "search_files src regex=fn");
}

#[test]
fn summary_degrades_on_bad_input() {
    assert_eq!(summarize_tool_call("read_file", "{"), "read_file (invalid args)");
    assert_eq!(summarize_tool_call("search_files", "{"), "search_files (invalid args)");
    assert_eq!(summarize_tool_call("frobnicate", "{}"), "frobnicate (unknown tool)");
}

#[test]
fn declared_tools_match_dispatched_names() {
    let defs = tool_definitions();
    assert_eq!(defs.len(), 2);
    assert_eq!(defs[0].name, "read_file");
    assert_eq!(defs[1].name, "search_files");
    assert!(defs[0].description.contains("line numbers"));
    assert!(defs[1].description.contains("regex search"));
    // Each declared name dispatches to a real tool, not the unknown-name error.
    for d in &defs {
        match plan_tool_call(&d.name, "{}") {
            ToolAction::Reply(t) => assert!(!t.contains("Unknown tool name")),
            _ => {},
        }
    }
}

#[test]
fn tool_error_format_is_uniform() {
    assert_eq!(format_tool_error("toolname", "went wrong"), "ERROR (toolname): went wrong\n");
}

#[test]
fn decode_diagnostics_are_exact() {
    assert_eq!(
        decode_read_args("{}").unwrap_err(),
        "missing required field `path`"
    );
    assert_eq!(
        decode_read_args("{\"path\":5}").unwrap_err(),
        "expected a string field `path`"
    );
    assert_eq!(
        decode_read_args("{\"path\":\"x\",\"offset\":-1}").unwrap_err(),
        "expected an unsigned integer field `offset`"
    );
    assert_eq!(
        decode_read_args("{\"path\":\"x\",\"indentation\":3}").unwrap_err(),
        "expected an object field `indentation`"
    );
    assert_eq!(decode_read_args("[1,2]").unwrap_err(), "expected a JSON object");
    assert_eq!(
        decode_search_args("{\"path\":\".\"}").unwrap_err(),
        "missing required field `regex`"
    );
    assert_eq!(
        decode_search_args("{\"path\":\".\",\"regex\":\"r\",\"file_pattern\":true}").unwrap_err(),
        "expected a string field `file_pattern`"
    );
}

#[test]
fn undecodable_known_tool_replies_with_exact_error() {
    match plan_tool_call("read_file", "{\"path\":\"x\",\"limit\":false}") {
        ToolAction::Reply(t) => {
            assert_eq!(
                t,
                "ERROR (read_file): Invalid arguments: expected an unsigned integer field `limit`\n"
            );
        },
        _ => panic!("expected a reply"),
    }
    match plan_tool_call("search_files", "{\"regex\":\"r\"}") {
        ToolAction::Reply(t) => {
            assert_eq!(
                t,
                "ERROR (search_files): Invalid arguments: missing required field `path`\n"
            );
        },
        _ => panic!("expected a reply"),
    }
}

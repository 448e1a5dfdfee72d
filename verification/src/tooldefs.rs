//! The declarations of the two tools, as sent to the chat API with every
//! request: name, free-text description, and the JSON schema of the accepted
//! arguments as schema text. The caller maps them onto its wire format.

use vstd::prelude::*;
use crate::strutil::str_string;

verus! {

/// One declared tool: its wire name, its description, and the JSON schema of
/// its arguments, as JSON text.
pub struct ToolDecl {
    pub name: String,
    pub description: String,
    pub parameters_schema: String,
}

/// Description of the file-reading tool.
pub const READ_FILE_DESCRIPTION: &'static str = "Read a file and return its contents with line numbers for diffing or discussion. IMPORTANT: This tool reads exactly one file per call. If you need multiple files, issue multiple parallel read_file calls. Supports two modes: 'slice' (default) reads lines sequentially with offset/limit; 'indentation' extracts complete semantic code blocks around an anchor line based on indentation hierarchy. Slice mode is ideal for initial file exploration, understanding overall structure, reading configuration/data files, or when you need a specific line range. Use it when you don't have a target line number. PREFER indentation mode when you have a specific line number from search results, error messages, or definition lookups - it guarantees complete, syntactically valid code blocks without mid-function truncation. IMPORTANT: Indentation mode requires anchor_line to be useful. Without it, only header content (imports) is returned. By default, returns up to 2000 lines per file. Lines longer than 2000 characters are truncated. Supports text extraction from PDF and DOCX files, but may not handle other binary files properly. Example: { path: 'src/app.ts' } Example (indentation mode): { path: 'src/app.ts', mode: 'indentation', indentation: { anchor_line: 42 } }";

/// Argument schema of the file-reading tool.
pub const READ_FILE_SCHEMA: &'static str = "{\"type\":\"object\",\"properties\":{\"path\":{\"type\":\"string\",\"description\":\"Path to the file to read, relative to the workspace\"},\"mode\":{\"type\":\"string\",\"enum\":[\"slice\",\"indentation\"],\"description\":\"Reading mode. 'slice' (default): read lines sequentially with offset/limit. 'indentation': extract a semantic code block around anchor_line.\"},\"offset\":{\"type\":\"integer\",\"description\":\"1-based line offset to start reading from (default 1)\"},\"limit\":{\"type\":\"integer\",\"description\":\"Maximum number of lines to return (default 2000)\"},\"indentation\":{\"type\":\"object\",\"description\":\"Indentation mode options. Only used when mode='indentation'.\",\"properties\":{\"anchor_line\":{\"type\":\"integer\",\"description\":\"1-based line number to anchor the extraction.\"},\"max_levels\":{\"type\":\"integer\",\"description\":\"Maximum indentation levels to include above the anchor (0 = unlimited).\"},\"include_siblings\":{\"type\":\"boolean\",\"description\":\"Include sibling blocks at the same indentation level as the anchor block.\"},\"include_header\":{\"type\":\"boolean\",\"description\":\"Include file header content (imports/module-level comments) at top of output.\"},\"max_lines\":{\"type\":\"integer\",\"description\":\"Hard cap on lines returned for indentation mode.\"}},\"required\":[],\"additionalProperties\":false}},\"required\":[\"path\"],\"additionalProperties\":false}";

/// Description of the search tool.
pub const SEARCH_FILES_DESCRIPTION: &'static str = "Request to perform a regex search across files in a specified directory, providing context-rich results. This tool searches for patterns or specific content across multiple files, displaying each match with encapsulating context.\n\nCraft your regex patterns carefully to balance specificity and flexibility. Use this tool to find code patterns, TODO comments, function definitions, or any text-based information across the project. The results include surrounding context, so analyze the surrounding code to better understand the matches. Leverage this tool in combination with other tools for more comprehensive analysis.\n\nParameters:\n- path: (required) The path of the directory to search in (relative to the current workspace directory). This directory will be recursively searched.\n- regex: (required) The regular expression pattern to search for. Uses Rust regex syntax.\n- file_pattern: (optional) Glob pattern to filter files (e.g., '*.ts' for TypeScript files). If not provided, it will search all files (*).\n\nExample: Searching for all .ts files in the current directory\n{ \"path\": \".\", \"regex\": \".*\", \"file_pattern\": \"*.ts\" }\n\nExample: Searching for function definitions in JavaScript files\n{ \"path\": \"src\", \"regex\": \"function\\s+\\w+\", \"file_pattern\": \"*.js\" }";

/// Argument schema of the search tool.
pub const SEARCH_FILES_SCHEMA: &'static str = "{\"type\":\"object\",\"properties\":{\"path\":{\"type\":\"string\",\"description\":\"Directory to search recursively, relative to the workspace\"},\"regex\":{\"type\":\"string\",\"description\":\"Rust-compatible regex pattern to match\"},\"file_pattern\":{\"type\":[\"string\",\"null\"],\"description\":\"Optional glob to limit which files are searched (e.g., *.rs)\"}},\"required\":[\"path\",\"regex\"],\"additionalProperties\":false}";

/// The two declared tools, in the order they are advertised. Their names are
/// exactly the ones the dispatcher recognizes.
pub fn tool_definitions() -> (r: Vec<ToolDecl>)
    ensures
        r@.len() == 2,
        r@[0].name@ == "read_file"@,
        r@[0].description@ == READ_FILE_DESCRIPTION@,
        r@[0].parameters_schema@ == READ_FILE_SCHEMA@,
        r@[1].name@ == "search_files"@,
        r@[1].description@ == SEARCH_FILES_DESCRIPTION@,
        r@[1].parameters_schema@ == SEARCH_FILES_SCHEMA@,
{
    let mut out: Vec<ToolDecl> = Vec::new();
    out.push(
        ToolDecl {
            name: str_string("read_file"),
            description: str_string(READ_FILE_DESCRIPTION),
            parameters_schema: str_string(READ_FILE_SCHEMA),
        },
    );
    out.push(
        ToolDecl {
            name: str_string("search_files"),
            description: str_string(SEARCH_FILES_DESCRIPTION),
            parameters_schema: str_string(SEARCH_FILES_SCHEMA),
        },
    );
    out
}

} // verus!

//! Typed argument structures for the two tools, together with the default
//! and clamping rules that turn the optional fields into effective values.

use vstd::prelude::*;
use crate::jsonio::{json_as_bool, json_as_str, json_as_u64, json_get, json_is_null,
    json_is_object, parse_json};
use crate::jsonio::{json_bool_of, json_field_of, json_null_of, json_object_of, json_parses,
    json_str_of, json_u64_of, json_value_of};
use crate::strutil::{append_str, chars_string, str_string};

verus! {

/// Number of lines a slice read returns when no limit is given.
pub const DEFAULT_READ_LIMIT: usize = 2000;

/// Largest number of lines a single slice read may return.
pub const MAX_READ_LIMIT: usize = 2000;

/// Arguments of the file-reading tool.
#[derive(Debug)]
pub struct ReadFileArgs {
    pub path: String,
    pub mode: Option<String>,
    pub offset: Option<usize>,
    pub limit: Option<usize>,
    pub indentation: Option<IndentationOptions>,
}

/// Options of the indentation reading mode.
#[derive(Debug)]
pub struct IndentationOptions {
    pub anchor_line: Option<usize>,
    pub max_levels: Option<usize>,
    pub include_siblings: Option<bool>,
    pub include_header: Option<bool>,
    pub max_lines: Option<usize>,
}

/// Arguments of the search tool.
#[derive(Debug)]
pub struct SearchFilesArgs {
    pub path: String,
    pub regex: String,
    pub file_pattern: Option<String>,
}

/// Effective slice offset: the given one, defaulting to one and at least one.
pub open spec fn eff_offset(offset: Option<usize>) -> nat {
    match offset {
        Some(o) => if o >= 1 {
            o as nat
        } else {
            1
        },
        None => 1,
    }
}

/// Effective slice limit: the given one, defaulting to and capped at the
/// maximum read limit.
pub open spec fn eff_limit(limit: Option<usize>) -> nat {
    match limit {
        Some(l) => if l <= MAX_READ_LIMIT {
            l as nat
        } else {
            MAX_READ_LIMIT as nat
        },
        None => DEFAULT_READ_LIMIT as nat,
    }
}

/// Effective anchor line: the given one, defaulting to one and at least one.
pub open spec fn eff_anchor_line(anchor_line: Option<usize>) -> nat {
    match anchor_line {
        Some(a) => if a >= 1 {
            a as nat
        } else {
            1
        },
        None => 1,
    }
}

/// Computes the effective slice offset.
pub fn effective_offset(offset: &Option<usize>) -> (r: usize)
    ensures
        r == eff_offset(*offset),
{
    match offset {
        Some(o) => if *o >= 1 {
            *o
        } else {
            1
        },
        None => 1,
    }
}

/// Computes the effective slice limit.
pub fn effective_limit(limit: &Option<usize>) -> (r: usize)
    ensures
        r == eff_limit(*limit),
{
    match limit {
        Some(l) => if *l <= MAX_READ_LIMIT {
            *l
        } else {
            MAX_READ_LIMIT
        },
        None => DEFAULT_READ_LIMIT,
    }
}

/// A decode diagnostic naming a field.
pub open spec fn field_error_text(kind: Seq<char>, key: Seq<char>) -> Seq<char> {
    kind + " field `"@ + key + "`"@
}

fn field_error(kind: &str, key: &str) -> (r: String)
    ensures
        r@ == field_error_text(kind@, key@),
{
    let mut out: Vec<char> = Vec::new();
    append_str(&mut out, kind);
    append_str(&mut out, " field `");
    append_str(&mut out, key);
    append_str(&mut out, "`");
    proof {
        assert(out@ =~= field_error_text(kind@, key@));
    }
    chars_string(&out)
}

/// What reading an optional non-negative integer field yields: absent or
/// null is unset; otherwise the value must be an unsigned number that fits
/// the machine, and anything else is the named decode error.
pub open spec fn opt_usize_field(v: serde_json::Value, key: Seq<char>) -> Result<
    Option<usize>,
    Seq<char>,
> {
    match json_field_of(v, key) {
        None => Ok(None),
        Some(x) => if json_null_of(x) {
            Ok(None)
        } else {
            match json_u64_of(x) {
                Some(u) => if u <= usize::MAX as u64 {
                    Ok(Some(u as usize))
                } else {
                    Err(field_error_text("integer out of range in"@, key))
                },
                None => Err(field_error_text("expected an unsigned integer"@, key)),
            }
        },
    }
}

/// What reading an optional string field yields.
pub open spec fn opt_string_field(v: serde_json::Value, key: Seq<char>) -> Result<
    Option<Seq<char>>,
    Seq<char>,
> {
    match json_field_of(v, key) {
        None => Ok(None),
        Some(x) => if json_null_of(x) {
            Ok(None)
        } else {
            match json_str_of(x) {
                Some(t) => Ok(Some(t)),
                None => Err(field_error_text("expected a string"@, key)),
            }
        },
    }
}

/// What reading an optional boolean field yields.
pub open spec fn opt_bool_field(v: serde_json::Value, key: Seq<char>) -> Result<
    Option<bool>,
    Seq<char>,
> {
    match json_field_of(v, key) {
        None => Ok(None),
        Some(x) => if json_null_of(x) {
            Ok(None)
        } else {
            match json_bool_of(x) {
                Some(b) => Ok(Some(b)),
                None => Err(field_error_text("expected a boolean"@, key)),
            }
        },
    }
}

/// What reading a required string field yields.
pub open spec fn req_string_field(v: serde_json::Value, key: Seq<char>) -> Result<
    Seq<char>,
    Seq<char>,
> {
    match json_field_of(v, key) {
        None => Err(field_error_text("missing required"@, key)),
        Some(x) => match json_str_of(x) {
            Some(t) => Ok(t),
            None => Err(field_error_text("expected a string"@, key)),
        },
    }
}

/// Reads an optional non-negative integer field.
fn get_opt_usize(v: &serde_json::Value, key: &str) -> (r: Result<Option<usize>, String>)
    ensures
        match (r, opt_usize_field(*v, key@)) {
            (Ok(a), Ok(b)) => a == b,
            (Err(e), Err(m)) => e@ == m,
            _ => false,
        },
{
    match json_get(v, key) {
        None => Ok(None),
        Some(x) => {
            if json_is_null(x) {
                return Ok(None);
            }
            match json_as_u64(x) {
                Some(u) => {
                    if u <= usize::MAX as u64 {
                        Ok(Some(u as usize))
                    } else {
                        Err(field_error("integer out of range in", key))
                    }
                },
                None => Err(field_error("expected an unsigned integer", key)),
            }
        },
    }
}

/// Reads an optional string field.
fn get_opt_string(v: &serde_json::Value, key: &str) -> (r: Result<Option<String>, String>)
    ensures
        match (r, opt_string_field(*v, key@)) {
            (Ok(a), Ok(b)) => opt_string_view(a) == b,
            (Err(e), Err(m)) => e@ == m,
            _ => false,
        },
{
    match json_get(v, key) {
        None => Ok(None),
        Some(x) => {
            if json_is_null(x) {
                return Ok(None);
            }
            match json_as_str(x) {
                Some(t) => Ok(Some(str_string(t))),
                None => Err(field_error("expected a string", key)),
            }
        },
    }
}

/// Reads an optional boolean field.
fn get_opt_bool(v: &serde_json::Value, key: &str) -> (r: Result<Option<bool>, String>)
    ensures
        match (r, opt_bool_field(*v, key@)) {
            (Ok(a), Ok(b)) => a == b,
            (Err(e), Err(m)) => e@ == m,
            _ => false,
        },
{
    match json_get(v, key) {
        None => Ok(None),
        Some(x) => {
            if json_is_null(x) {
                return Ok(None);
            }
            match json_as_bool(x) {
                Some(b) => Ok(Some(b)),
                None => Err(field_error("expected a boolean", key)),
            }
        },
    }
}

/// Reads a required string field.
fn get_req_string(v: &serde_json::Value, key: &str) -> (r: Result<String, String>)
    ensures
        match (r, req_string_field(*v, key@)) {
            (Ok(a), Ok(b)) => a@ == b,
            (Err(e), Err(m)) => e@ == m,
            _ => false,
        },
{
    match json_get(v, key) {
        None => Err(field_error("missing required", key)),
        Some(x) => match json_as_str(x) {
            Some(t) => Ok(str_string(t)),
            None => Err(field_error("expected a string", key)),
        },
    }
}

/// The view of an optional owned string.
pub open spec fn opt_string_view(o: Option<String>) -> Option<Seq<char>> {
    match o {
        Some(t) => Some(t@),
        None => None,
    }
}

/// What decoding the nested indentation options yields: absent or null is
/// none; anything but an object is an error; an object is read field by
/// field, in declaration order.
pub open spec fn indentation_field(v: serde_json::Value) -> Result<
    Option<IndentationOptions>,
    Seq<char>,
> {
    match json_field_of(v, "indentation"@) {
        None => Ok(None),
        Some(x) => if json_null_of(x) {
            Ok(None)
        } else if !json_object_of(x) {
            Err(field_error_text("expected an object"@, "indentation"@))
        } else {
            match opt_usize_field(x, "anchor_line"@) {
                Err(m) => Err(m),
                Ok(anchor_line) => match opt_usize_field(x, "max_levels"@) {
                    Err(m) => Err(m),
                    Ok(max_levels) => match opt_bool_field(x, "include_siblings"@) {
                        Err(m) => Err(m),
                        Ok(include_siblings) => match opt_bool_field(x, "include_header"@) {
                            Err(m) => Err(m),
                            Ok(include_header) => match opt_usize_field(x, "max_lines"@) {
                                Err(m) => Err(m),
                                Ok(max_lines) => Ok(
                                    Some(
                                        IndentationOptions {
                                            anchor_line,
                                            max_levels,
                                            include_siblings,
                                            include_header,
                                            max_lines,
                                        },
                                    ),
                                ),
                            },
                        },
                    },
                },
            }
        },
    }
}

/// The decoded fields of a read call: path, mode, offset, limit,
/// indentation options.
pub type ReadArgsView = (Seq<char>, Option<Seq<char>>, Option<usize>, Option<usize>, Option<
    IndentationOptions,
>);

/// What decoding a parsed read-call argument tree yields: the value must be
/// an object; its fields are read in order, the first failure deciding the
/// diagnostic.
pub open spec fn read_args_decode(v: serde_json::Value) -> Result<ReadArgsView, Seq<char>> {
    if !json_object_of(v) {
        Err("expected a JSON object"@)
    } else {
        match req_string_field(v, "path"@) {
            Err(m) => Err(m),
            Ok(path) => match opt_string_field(v, "mode"@) {
                Err(m) => Err(m),
                Ok(mode) => match opt_usize_field(v, "offset"@) {
                    Err(m) => Err(m),
                    Ok(offset) => match opt_usize_field(v, "limit"@) {
                        Err(m) => Err(m),
                        Ok(limit) => match indentation_field(v) {
                            Err(m) => Err(m),
                            Ok(indentation) => Ok((path, mode, offset, limit, indentation)),
                        },
                    },
                },
            },
        }
    }
}

/// Whether decoded read arguments carry exactly the given fields.
pub open spec fn read_args_match(a: ReadFileArgs, d: ReadArgsView) -> bool {
    &&& a.path@ == d.0
    &&& opt_string_view(a.mode) == d.1
    &&& a.offset == d.2
    &&& a.limit == d.3
    &&& a.indentation == d.4
}

/// The decoded fields of a search call: path, pattern, file filter.
pub type SearchArgsView = (Seq<char>, Seq<char>, Option<Seq<char>>);

/// What decoding a parsed search-call argument tree yields.
pub open spec fn search_args_decode(v: serde_json::Value) -> Result<SearchArgsView, Seq<char>> {
    if !json_object_of(v) {
        Err("expected a JSON object"@)
    } else {
        match req_string_field(v, "path"@) {
            Err(m) => Err(m),
            Ok(path) => match req_string_field(v, "regex"@) {
                Err(m) => Err(m),
                Ok(regex) => match opt_string_field(v, "file_pattern"@) {
                    Err(m) => Err(m),
                    Ok(file_pattern) => Ok((path, regex, file_pattern)),
                },
            },
        }
    }
}

/// Whether decoded search arguments carry exactly the given fields.
pub open spec fn search_args_match(a: SearchFilesArgs, d: SearchArgsView) -> bool {
    &&& a.path@ == d.0
    &&& a.regex@ == d.1
    &&& opt_string_view(a.file_pattern) == d.2
}

/// Decodes the file-reading tool's argument blob. The JSON engine parses the
/// text; the field mapping and checks are `read_args_decode`, so text that
/// parses decodes to exactly those fields, or to exactly that diagnostic.
/// Only the diagnostic of text that does not parse is the engine's own.
pub fn decode_read_args(raw: &str) -> (r: Result<ReadFileArgs, String>)
    ensures
        !json_parses(raw@) ==> r is Err,
        json_parses(raw@) ==> match read_args_decode(json_value_of(raw@)) {
            Ok(d) => r matches Ok(a) && read_args_match(a, d),
            Err(m) => r matches Err(e) && e@ == m,
        },
{
    let v = match parse_json(raw) {
        Ok(v) => v,
        Err(e) => {
            return Err(e);
        },
    };
    if !json_is_object(&v) {
        return Err(str_string("expected a JSON object"));
    }
    let path = match get_req_string(&v, "path") {
        Ok(p) => p,
        Err(e) => {
            return Err(e);
        },
    };
    let mode = match get_opt_string(&v, "mode") {
        Ok(m) => m,
        Err(e) => {
            return Err(e);
        },
    };
    let offset = match get_opt_usize(&v, "offset") {
        Ok(o) => o,
        Err(e) => {
            return Err(e);
        },
    };
    let limit = match get_opt_usize(&v, "limit") {
        Ok(l) => l,
        Err(e) => {
            return Err(e);
        },
    };
    let indentation = match json_get(&v, "indentation") {
        None => None,
        Some(x) => {
            if json_is_null(x) {
                None
            } else if !json_is_object(x) {
                return Err(field_error("expected an object", "indentation"));
            } else {
                let anchor_line = match get_opt_usize(x, "anchor_line") {
                    Ok(a) => a,
                    Err(e) => {
                        return Err(e);
                    },
                };
                let max_levels = match get_opt_usize(x, "max_levels") {
                    Ok(a) => a,
                    Err(e) => {
                        return Err(e);
                    },
                };
                let include_siblings = match get_opt_bool(x, "include_siblings") {
                    Ok(a) => a,
                    Err(e) => {
                        return Err(e);
                    },
                };
                let include_header = match get_opt_bool(x, "include_header") {
                    Ok(a) => a,
                    Err(e) => {
                        return Err(e);
                    },
                };
                let max_lines = match get_opt_usize(x, "max_lines") {
                    Ok(a) => a,
                    Err(e) => {
                        return Err(e);
                    },
                };
                Some(
                    IndentationOptions {
                        anchor_line,
                        max_levels,
                        include_siblings,
                        include_header,
                        max_lines,
                    },
                )
            }
        },
    };
    Ok(ReadFileArgs { path, mode, offset, limit, indentation })
}

/// Decodes the search tool's argument blob, as `decode_read_args` does.
pub fn decode_search_args(raw: &str) -> (r: Result<SearchFilesArgs, String>)
    ensures
        !json_parses(raw@) ==> r is Err,
        json_parses(raw@) ==> match search_args_decode(json_value_of(raw@)) {
            Ok(d) => r matches Ok(a) && search_args_match(a, d),
            Err(m) => r matches Err(e) && e@ == m,
        },
{
    let v = match parse_json(raw) {
        Ok(v) => v,
        Err(e) => {
            return Err(e);
        },
    };
    if !json_is_object(&v) {
        return Err(str_string("expected a JSON object"));
    }
    let path = match get_req_string(&v, "path") {
        Ok(p) => p,
        Err(e) => {
            return Err(e);
        },
    };
    let regex = match get_req_string(&v, "regex") {
        Ok(p) => p,
        Err(e) => {
            return Err(e);
        },
    };
    let file_pattern = match get_opt_string(&v, "file_pattern") {
        Ok(p) => p,
        Err(e) => {
            return Err(e);
        },
    };
    Ok(SearchFilesArgs { path, regex, file_pattern })
}

} // verus!

//! Trusted bridge to the regex and glob engines. Whether a pattern compiles,
//! and whether it matches a given line or path, are functions of the pattern
//! and the text alone; the names below stand for those results, and the
//! wrappers promise nothing else about them.

use vstd::prelude::*;

verus! {

/// Whether `regex::Regex::new` accepts the pattern.
pub uninterp spec fn regex_ok(pattern: Seq<char>) -> bool;

/// Whether the compiled pattern matches somewhere in the line.
pub uninterp spec fn regex_matches(pattern: Seq<char>, line: Seq<char>) -> bool;

/// Whether a single-glob matcher can be built from the pattern.
pub uninterp spec fn glob_ok(pattern: Seq<char>) -> bool;

/// Whether the glob accepts the path.
pub uninterp spec fn glob_matches(pattern: Seq<char>, path: Seq<char>) -> bool;

/// Relies on regex::Regex::new and regex::Regex::is_match: compiling a
/// pattern and testing it against a line are deterministic in the pattern
/// and the line; the error text on a pattern that does not compile is the
/// engine's own and is not pinned here.
#[verifier::external_body]
pub fn regex_match_lines(pattern: &str, lines: &Vec<String>) -> (r: Result<Vec<bool>, String>)
    ensures
        r is Ok <==> regex_ok(pattern@),
        r matches Ok(v) ==> v@.len() == lines@.len() && forall|i: int|
            0 <= i < v@.len() ==> #[trigger] v@[i] == regex_matches(pattern@, lines@[i]@),
{
    match regex::Regex::new(pattern) {
        Ok(re) => Ok(lines.iter().map(|l| re.is_match(l)).collect()),
        Err(e) => Err(e.to_string()),
    }
}

/// Relies on globset's Glob, GlobSetBuilder and GlobSet::is_match: building a
/// one-glob matcher and testing paths against it are deterministic in the
/// pattern and the path on the compiled target (globset conditions its path
/// handling on the platform's separators, so the names above stand for the
/// result on this target, not across operating systems). A failure of either
/// build step is returned alike, so the search reports both under its single
/// invalid-pattern text; the error text is the engine's own and is not
/// pinned here.
#[verifier::external_body]
pub fn glob_match_paths(pattern: &str, paths: &Vec<String>) -> (r: Result<Vec<bool>, String>)
    ensures
        r is Ok <==> glob_ok(pattern@),
        r matches Ok(v) ==> v@.len() == paths@.len() && forall|i: int|
            0 <= i < v@.len() ==> #[trigger] v@[i] == glob_matches(pattern@, paths@[i]@),
{
    let glob = match globset::Glob::new(pattern) {
        Ok(g) => g,
        Err(e) => return Err(e.to_string()),
    };
    let mut builder = globset::GlobSetBuilder::new();
    builder.add(glob);
    match builder.build() {
        Ok(set) => Ok(paths.iter().map(|p| set.is_match(p)).collect()),
        Err(e) => Err(e.to_string()),
    }
}

} // verus!

//! The repository facts a review runs on. Extracting them is the caller's
//! job; the library only carries them.

use vstd::prelude::*;

verus! {

/// What git reports about the change under review.
#[derive(Debug, Clone)]
pub struct GitData {
    pub diff: String,
    pub files_changed: Vec<String>,
    pub head_hash: String,
    pub merge_base_hash: String,
    pub branch_name: Option<String>,
    pub repo_name: String,
    pub remote_url: Option<String>,
}

impl GitData {
    /// Bundles the extracted repository facts.
    pub fn new(
        diff: String,
        files_changed: Vec<String>,
        head_hash: String,
        merge_base_hash: String,
        branch_name: Option<String>,
        repo_name: String,
        remote_url: Option<String>,
    ) -> (r: Self)
        ensures
            r.diff == diff,
            r.files_changed == files_changed,
            r.head_hash == head_hash,
            r.merge_base_hash == merge_base_hash,
            r.branch_name == branch_name,
            r.repo_name == repo_name,
            r.remote_url == remote_url,
    {
        Self { diff, files_changed, head_hash, merge_base_hash, branch_name, repo_name, remote_url }
    }
}

} // verus!

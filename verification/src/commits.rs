//! The commit description attached to builds.
use vstd::prelude::*;

verus! {

/// One commit, as the API reports it.
#[derive(Debug, Clone)]
pub struct Commit {
    pub id: usize,
    pub sha: String,
    pub git_ref: String,
    pub message: String,
    pub compare_url: String,
    pub committed_at: String,
}

} // verus!

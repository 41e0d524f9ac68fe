//! Records returned by the XetHub service for repository listings and
//! repository information.

use vstd::prelude::*;

verus! {

/// One entry of a directory listing.
#[derive(Debug)]
pub struct DirEntry {
    pub name: String,
    pub size: u64,
    pub object_type: String,
    pub git_hash: String,
    pub last_modified: String,
}

/// The part of a repository's information that concerns its web page.
#[derive(Debug)]
pub struct AuxRepoInfo {
    pub html_url: String,
}

/// The part of a repository's information that concerns its Xet storage.
#[derive(Debug)]
pub struct XetRepoInfo {
    pub mdb_version: String,
    pub repo_salt: Option<String>,
}

/// A repository's information.
#[derive(Debug)]
pub struct RepoInfo {
    pub repo: AuxRepoInfo,
    pub xet: XetRepoInfo,
}

} // verus!

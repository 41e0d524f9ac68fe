//! Error types of the library and their views.

use vstd::prelude::*;

verus! {

/// Errors of remote-URL handling and of repository operations.
#[derive(Debug)]
pub enum GitXetRepoError {
    /// A remote URL that cannot be used, with the reason.
    InvalidRemote(String),
    /// Any other failure, with its message.
    Other(String),
}

/// The view of a [`GitXetRepoError`]: the variant and the text it carries.
pub enum RepoErrorView {
    InvalidRemote(Seq<char>),
    Other(Seq<char>),
}

impl View for GitXetRepoError {
    type V = RepoErrorView;

    open spec fn view(&self) -> RepoErrorView {
        match self {
            GitXetRepoError::InvalidRemote(s) => RepoErrorView::InvalidRemote(s@),
            GitXetRepoError::Other(s) => RepoErrorView::Other(s@),
        }
    }
}

/// Errors of configuration resolution.
#[derive(Debug)]
pub enum ConfigError {
    /// A profile was requested by name and the configuration has none of that name.
    ProfileNotFound(String),
    /// The configuration cannot be used as it stands, with the reason.
    UnsupportedConfiguration(String),
    /// The MerkleDB file's directory cannot be found or created.
    InvalidMerkleDBParent(String),
    /// The MerkleDB path exists and is not a file.
    MerkleDBNotFile(String),
    /// The MerkleDB shard directory path exists and is not a directory.
    MerkleDBNotDir(String),
    /// The MerkleDB path cannot be written.
    MerkleDBReadOnly(String),
    /// The summary database file's directory cannot be found or created.
    InvalidSummaryDBParent(String),
    /// The summary database path exists and is not a file.
    SummaryDBNotFile(String),
    /// The summary database path cannot be written.
    SummaryDBReadOnly(String),
    /// The staging directory could not be created: the path and the I/O error.
    StagingDirNotCreated(String, String),
    /// The staging path exists and is not a directory.
    StagingPathNotDir(String),
    /// An I/O error, with its text.
    Io(String),
}

/// The view of a [`ConfigError`]: the variant and the text it carries.
pub enum ConfigErrorView {
    ProfileNotFound(Seq<char>),
    UnsupportedConfiguration(Seq<char>),
    InvalidMerkleDBParent(Seq<char>),
    MerkleDBNotFile(Seq<char>),
    MerkleDBNotDir(Seq<char>),
    MerkleDBReadOnly(Seq<char>),
    InvalidSummaryDBParent(Seq<char>),
    SummaryDBNotFile(Seq<char>),
    SummaryDBReadOnly(Seq<char>),
    StagingDirNotCreated(Seq<char>, Seq<char>),
    StagingPathNotDir(Seq<char>),
    Io(Seq<char>),
}

impl View for ConfigError {
    type V = ConfigErrorView;

    open spec fn view(&self) -> ConfigErrorView {
        match self {
            ConfigError::ProfileNotFound(s) => ConfigErrorView::ProfileNotFound(s@),
            ConfigError::UnsupportedConfiguration(s) => ConfigErrorView::UnsupportedConfiguration(
                s@,
            ),
            ConfigError::InvalidMerkleDBParent(s) => ConfigErrorView::InvalidMerkleDBParent(s@),
            ConfigError::MerkleDBNotFile(s) => ConfigErrorView::MerkleDBNotFile(s@),
            ConfigError::MerkleDBNotDir(s) => ConfigErrorView::MerkleDBNotDir(s@),
            ConfigError::MerkleDBReadOnly(s) => ConfigErrorView::MerkleDBReadOnly(s@),
            ConfigError::InvalidSummaryDBParent(s) => ConfigErrorView::InvalidSummaryDBParent(s@),
            ConfigError::SummaryDBNotFile(s) => ConfigErrorView::SummaryDBNotFile(s@),
            ConfigError::SummaryDBReadOnly(s) => ConfigErrorView::SummaryDBReadOnly(s@),
            ConfigError::StagingDirNotCreated(s, e) => ConfigErrorView::StagingDirNotCreated(
                s@,
                e@,
            ),
            ConfigError::StagingPathNotDir(s) => ConfigErrorView::StagingPathNotDir(s@),
            ConfigError::Io(s) => ConfigErrorView::Io(s@),
        }
    }
}

} // verus!

//! The local stores of a repository (MerkleDB files and shard directories, the
//! summary database, the staging directory, the lazy-checkout configuration):
//! where each lies, and what must hold of an existing path before it is used.

use vstd::prelude::*;
use vstd::string::*;

use crate::config::CliOverrides;
use crate::errors::{ConfigError, ConfigErrorView};
use crate::text::{has_prefix, has_suffix};

verus! {

// ---------------------------------------------------------------------------
// Paths
// ---------------------------------------------------------------------------

/// The text of `std::path::Path::new(base).join(sub)`.
pub uninterp spec fn path_join_text(base: Seq<char>, sub: Seq<char>) -> Seq<char>;

/// The text of `std::path::Path::new(path).parent()`, `None` when there is none.
pub uninterp spec fn path_parent_text(path: Seq<char>) -> Option<Seq<char>>;

/// `r` is `base` joined with `sub`: the named result, which is `sub` itself
/// when `sub` is absolute (starts with `/`), and `base/sub` when `sub` is
/// relative and `base` is not empty and does not end with `/`.
pub open spec fn is_join_of(r: Seq<char>, base: Seq<char>, sub: Seq<char>) -> bool {
    &&& r == path_join_text(base, sub)
    &&& has_prefix(sub, "/"@) ==> r == sub
    &&& !has_prefix(sub, "/"@) && base.len() > 0 && !has_suffix(base, "/"@) ==> r == base + "/"@
        + sub
}

/// Calls `std::path::Path::join`. The contract claims the named result and,
/// as the documentation of `Path::join` and `PathBuf::push` states for Unix
/// paths, that an absolute `sub` replaces `base`, and that a relative `sub` is
/// added after `base` with one `/` between when `base` does not end in one.
#[verifier::external_body]
pub fn join_path(base: &str, sub: &str) -> (r: String)
    ensures
        r@ == path_join_text(base@, sub@),
        is_join_of(r@, base@, sub@),
{
    std::path::Path::new(base).join(sub).to_string_lossy().into_owned()
}

/// Calls `std::path::Path::parent`. The contract claims the named result and,
/// as the documentation states, that the empty path has no parent.
#[verifier::external_body]
pub fn path_parent(path: &str) -> (r: Option<String>)
    ensures
        match r {
            Some(p) => path_parent_text(path@) == Some(p@),
            None => path_parent_text(path@) is None,
        },
        path@.len() == 0 ==> r is None,
{
    std::path::Path::new(path).parent().map(|p| p.to_string_lossy().into_owned())
}

// ---------------------------------------------------------------------------
// Where the stores lie
// ---------------------------------------------------------------------------

/// The subdirectories, under a repository's path, of each of its stores.
#[derive(Debug)]
pub struct RepoSubdirs {
    pub merkledb: String,
    pub merkledb_v2_cache: String,
    pub merkledb_v2_session: String,
    pub summaries: String,
    pub staging: String,
    pub lazy_config: String,
}

/// The paths of the stores of a repository.
#[derive(Debug)]
pub struct RepoPaths {
    pub merkledb: String,
    pub merkledb_v2_cache: String,
    pub merkledb_v2_session: String,
    pub summarydb: String,
    pub staging_path: String,
    pub lazy_config: String,
}

/// The paths of the stores used by xetblob, which has no git repository.
#[derive(Debug)]
pub struct XetblobPaths {
    pub merkledb_v2_cache: String,
    pub merkledb_v2_session: String,
    pub summarydb: String,
}

/// The view of an optional string.
pub open spec fn opt_text(o: Option<String>) -> Option<Seq<char>> {
    match o {
        Some(s) => Some(s@),
        None => None,
    }
}

/// `r` is the override when there is one, else `base` joined with `sub`.
pub open spec fn override_or_join(
    r: Seq<char>,
    given: Option<Seq<char>>,
    base: Seq<char>,
    sub: Seq<char>,
) -> bool {
    match given {
        Some(g) => r == g,
        None => is_join_of(r, base, sub),
    }
}

/// The command-line override of the MerkleDB file, if any.
pub open spec fn given_merkledb(o: Option<CliOverrides>) -> Option<Seq<char>> {
    match o {
        Some(c) => opt_text(c.merkledb),
        None => None,
    }
}

/// The command-line override of the MerkleDB shard cache, if any.
pub open spec fn given_v2_cache(o: Option<CliOverrides>) -> Option<Seq<char>> {
    match o {
        Some(c) => opt_text(c.merkledb_v2_cache),
        None => None,
    }
}

/// The command-line override of the MerkleDB session shards, if any.
pub open spec fn given_v2_session(o: Option<CliOverrides>) -> Option<Seq<char>> {
    match o {
        Some(c) => opt_text(c.merkledb_v2_session),
        None => None,
    }
}

/// The command-line override when there is one, else `base` joined with `sub`.
fn override_or(given: &Option<String>, base: &str, sub: &String) -> (r: String)
    ensures
        override_or_join(r@, opt_text(*given), base@, sub@),
{
    match given {
        Some(g) => g.clone(),
        None => join_path(base, sub.as_str()),
    }
}

/// Where the stores of the repository at `git_path` lie: each MerkleDB path is
/// the command-line override when one is given, else `git_path` joined with
/// its subdirectory; the summary database, staging directory and lazy-checkout
/// configuration are always `git_path` joined with theirs.
pub fn plan_repo_paths(
    git_path: &str,
    overrides: &Option<CliOverrides>,
    subdirs: &RepoSubdirs,
) -> (p: RepoPaths)
    ensures
        override_or_join(p.merkledb@, given_merkledb(*overrides), git_path@, subdirs.merkledb@),
        override_or_join(
            p.merkledb_v2_cache@,
            given_v2_cache(*overrides),
            git_path@,
            subdirs.merkledb_v2_cache@,
        ),
        override_or_join(
            p.merkledb_v2_session@,
            given_v2_session(*overrides),
            git_path@,
            subdirs.merkledb_v2_session@,
        ),
        is_join_of(p.summarydb@, git_path@, subdirs.summaries@),
        is_join_of(p.staging_path@, git_path@, subdirs.staging@),
        is_join_of(p.lazy_config@, git_path@, subdirs.lazy_config@),
{
    let merkledb = match overrides {
        Some(o) => override_or(&o.merkledb, git_path, &subdirs.merkledb),
        None => join_path(git_path, subdirs.merkledb.as_str()),
    };
    let merkledb_v2_cache = match overrides {
        Some(o) => override_or(&o.merkledb_v2_cache, git_path, &subdirs.merkledb_v2_cache),
        None => join_path(git_path, subdirs.merkledb_v2_cache.as_str()),
    };
    let merkledb_v2_session = match overrides {
        Some(o) => override_or(&o.merkledb_v2_session, git_path, &subdirs.merkledb_v2_session),
        None => join_path(git_path, subdirs.merkledb_v2_session.as_str()),
    };
    let summarydb = join_path(git_path, subdirs.summaries.as_str());
    let staging_path = join_path(git_path, subdirs.staging.as_str());
    let lazy_config = join_path(git_path, subdirs.lazy_config.as_str());
    RepoPaths {
        merkledb,
        merkledb_v2_cache,
        merkledb_v2_session,
        summarydb,
        staging_path,
        lazy_config,
    }
}

/// Where the stores used by xetblob lie, under the directory `xetblob`: each
/// MerkleDB shard directory is the command-line override when one is given,
/// else `xetblob` joined with its subdirectory; the summary database is always
/// `xetblob` joined with its subdirectory.
pub fn plan_xetblob_paths(
    xetblob: &str,
    overrides: &Option<CliOverrides>,
    subdirs: &RepoSubdirs,
) -> (p: XetblobPaths)
    ensures
        override_or_join(
            p.merkledb_v2_cache@,
            given_v2_cache(*overrides),
            xetblob@,
            subdirs.merkledb_v2_cache@,
        ),
        override_or_join(
            p.merkledb_v2_session@,
            given_v2_session(*overrides),
            xetblob@,
            subdirs.merkledb_v2_session@,
        ),
        is_join_of(p.summarydb@, xetblob@, subdirs.summaries@),
{
    let merkledb_v2_cache = match overrides {
        Some(o) => override_or(&o.merkledb_v2_cache, xetblob, &subdirs.merkledb_v2_cache),
        None => join_path(xetblob, subdirs.merkledb_v2_cache.as_str()),
    };
    let merkledb_v2_session = match overrides {
        Some(o) => override_or(&o.merkledb_v2_session, xetblob, &subdirs.merkledb_v2_session),
        None => join_path(xetblob, subdirs.merkledb_v2_session.as_str()),
    };
    let summarydb = join_path(xetblob, subdirs.summaries.as_str());
    XetblobPaths { merkledb_v2_cache, merkledb_v2_session, summarydb }
}

// ---------------------------------------------------------------------------
// Checking a store path
// ---------------------------------------------------------------------------

/// The stores, each checked in its own way.
#[derive(Debug, Clone, Copy, PartialEq, Eq)]
pub enum StoreKind {
    /// The MerkleDB file.
    MerkleDb,
    /// The directory of MerkleDB shards pulled from CAS.
    MerkleDbV2Cache,
    /// The directory of MerkleDB shards made in a session.
    MerkleDbV2Session,
    /// The summary database file.
    SummaryDb,
    /// The staging directory.
    Staging,
}

/// What the file system says of a path.
#[derive(Debug, Clone, Copy)]
pub struct PathState {
    pub exists: bool,
    pub is_file: bool,
    pub is_dir: bool,
    pub writable: bool,
}

/// What to do with a store path that passed its check.
#[derive(Debug)]
pub enum StoreAction {
    /// Create this directory and those above it, then use the path.
    CreateDirAll(String),
    /// Use the path as it is.
    Use,
}

/// The view of a [`StoreAction`].
pub enum StoreActionView {
    CreateDirAll(Seq<char>),
    Use,
}

impl View for StoreAction {
    type V = StoreActionView;

    open spec fn view(&self) -> StoreActionView {
        match self {
            StoreAction::CreateDirAll(d) => StoreActionView::CreateDirAll(d@),
            StoreAction::Use => StoreActionView::Use,
        }
    }
}

/// The check of a store path: a file store that does not exist has its
/// directory created (an error when the path has no parent), and one that exists
/// must be a writable file; a MerkleDB shard directory that does not exist is
/// created, and one that exists must be a writable directory; the staging
/// directory is created when it does not exist, and must be a directory when it
/// does.
pub open spec fn spec_check_store_path(
    path: Seq<char>,
    kind: StoreKind,
    state: PathState,
) -> Result<StoreActionView, ConfigErrorView> {
    match kind {
        StoreKind::MerkleDb => if !state.exists {
            match path_parent_text(path) {
                Some(p) => Ok(StoreActionView::CreateDirAll(p)),
                None => Err(ConfigErrorView::InvalidMerkleDBParent(path)),
            }
        } else if !state.is_file {
            Err(ConfigErrorView::MerkleDBNotFile(path))
        } else if !state.writable {
            Err(ConfigErrorView::MerkleDBReadOnly(path))
        } else {
            Ok(StoreActionView::Use)
        },
        StoreKind::SummaryDb => if !state.exists {
            match path_parent_text(path) {
                Some(p) => Ok(StoreActionView::CreateDirAll(p)),
                None => Err(ConfigErrorView::InvalidSummaryDBParent(path)),
            }
        } else if !state.is_file {
            Err(ConfigErrorView::SummaryDBNotFile(path))
        } else if !state.writable {
            Err(ConfigErrorView::SummaryDBReadOnly(path))
        } else {
            Ok(StoreActionView::Use)
        },
        StoreKind::MerkleDbV2Cache | StoreKind::MerkleDbV2Session => if !state.exists {
            Ok(StoreActionView::CreateDirAll(path))
        } else if !state.is_dir {
            Err(ConfigErrorView::MerkleDBNotDir(path))
        } else if !state.writable {
            Err(ConfigErrorView::MerkleDBReadOnly(path))
        } else {
            Ok(StoreActionView::Use)
        },
        StoreKind::Staging => if !state.exists {
            Ok(StoreActionView::CreateDirAll(path))
        } else if !state.is_dir {
            Err(ConfigErrorView::StagingPathNotDir(path))
        } else {
            Ok(StoreActionView::Use)
        },
    }
}

/// The view of a check's result.
pub open spec fn check_result_view(r: Result<StoreAction, ConfigError>) -> Result<
    StoreActionView,
    ConfigErrorView,
> {
    match r {
        Ok(a) => Ok(a@),
        Err(e) => Err(e@),
    }
}

/// Checks the store path `path` of kind `kind` in the file-system state
/// `state`, as [`spec_check_store_path`] says: the action to take, or the error.
pub fn check_store_path(path: &str, kind: StoreKind, state: PathState) -> (r: Result<
    StoreAction,
    ConfigError,
>)
    ensures
        check_result_view(r) == spec_check_store_path(path@, kind, state),
{
    let p = String::from_str(path);
    match kind {
        StoreKind::MerkleDb => if !state.exists {
            match path_parent(path) {
                Some(d) => Ok(StoreAction::CreateDirAll(d)),
                None => Err(ConfigError::InvalidMerkleDBParent(p)),
            }
        } else if !state.is_file {
            Err(ConfigError::MerkleDBNotFile(p))
        } else if !state.writable {
            Err(ConfigError::MerkleDBReadOnly(p))
        } else {
            Ok(StoreAction::Use)
        },
        StoreKind::SummaryDb => if !state.exists {
            match path_parent(path) {
                Some(d) => Ok(StoreAction::CreateDirAll(d)),
                None => Err(ConfigError::InvalidSummaryDBParent(p)),
            }
        } else if !state.is_file {
            Err(ConfigError::SummaryDBNotFile(p))
        } else if !state.writable {
            Err(ConfigError::SummaryDBReadOnly(p))
        } else {
            Ok(StoreAction::Use)
        },
        StoreKind::MerkleDbV2Cache | StoreKind::MerkleDbV2Session => if !state.exists {
            Ok(StoreAction::CreateDirAll(p))
        } else if !state.is_dir {
            Err(ConfigError::MerkleDBNotDir(p))
        } else if !state.writable {
            Err(ConfigError::MerkleDBReadOnly(p))
        } else {
            Ok(StoreAction::Use)
        },
        StoreKind::Staging => if !state.exists {
            Ok(StoreAction::CreateDirAll(p))
        } else if !state.is_dir {
            Err(ConfigError::StagingPathNotDir(p))
        } else {
            Ok(StoreAction::Use)
        },
    }
}

/// The error when creating the directory of the store at `path` failed with
/// the I/O error whose text is `io_error`.
pub open spec fn spec_creation_error(path: Seq<char>, kind: StoreKind, io_error: Seq<char>) -> ConfigErrorView {
    match kind {
        StoreKind::MerkleDb => ConfigErrorView::InvalidMerkleDBParent(path),
        StoreKind::SummaryDb => ConfigErrorView::InvalidSummaryDBParent(path),
        StoreKind::MerkleDbV2Cache | StoreKind::MerkleDbV2Session => ConfigErrorView::Io(io_error),
        StoreKind::Staging => ConfigErrorView::StagingDirNotCreated(path, io_error),
    }
}

/// The error when creating the directory of the store at `path` failed with
/// the I/O error whose text is `io_error`: for a file store, its parent is
/// invalid; for a MerkleDB shard directory, the I/O error itself; for the
/// staging directory, that it was not created.
pub fn creation_error(path: &str, kind: StoreKind, io_error: &str) -> (e: ConfigError)
    ensures
        e@ == spec_creation_error(path@, kind, io_error@),
{
    match kind {
        StoreKind::MerkleDb => ConfigError::InvalidMerkleDBParent(String::from_str(path)),
        StoreKind::SummaryDb => ConfigError::InvalidSummaryDBParent(String::from_str(path)),
        StoreKind::MerkleDbV2Cache | StoreKind::MerkleDbV2Session => ConfigError::Io(
            String::from_str(io_error),
        ),
        StoreKind::Staging => ConfigError::StagingDirNotCreated(
            String::from_str(path),
            String::from_str(io_error),
        ),
    }
}


/// A store that does not exist gets a directory created: for a file store (the
/// MerkleDB file or the summary database) the directory that is the path's
/// parent, and an error naming the path when it has none; for a directory store
/// (the MerkleDB shard directories, the staging directory) the path itself.
pub proof fn law_missing_store_creates(path: Seq<char>, kind: StoreKind, state: PathState)
    requires
        !state.exists,
    ensures
        (kind == StoreKind::MerkleDb || kind == StoreKind::SummaryDb) ==> match path_parent_text(
            path,
        ) {
            Some(parent) => spec_check_store_path(path, kind, state) == Ok::<
                StoreActionView,
                ConfigErrorView,
            >(StoreActionView::CreateDirAll(parent)),
            None => spec_check_store_path(path, kind, state) == Err::<
                StoreActionView,
                ConfigErrorView,
            >(
                if kind == StoreKind::MerkleDb {
                    ConfigErrorView::InvalidMerkleDBParent(path)
                } else {
                    ConfigErrorView::InvalidSummaryDBParent(path)
                },
            ),
        },
        (kind == StoreKind::MerkleDbV2Cache || kind == StoreKind::MerkleDbV2Session || kind
            == StoreKind::Staging) ==> spec_check_store_path(path, kind, state) == Ok::<
            StoreActionView,
            ConfigErrorView,
        >(StoreActionView::CreateDirAll(path)),
{
}

/// A store that exists is used exactly when it is of its kind (a file for a
/// file store, a directory otherwise) and, except for the staging directory,
/// writable; nothing is created for it.
pub proof fn law_existing_store_used(path: Seq<char>, kind: StoreKind, state: PathState)
    requires
        state.exists,
    ensures
        !(spec_check_store_path(path, kind, state) matches Ok(StoreActionView::CreateDirAll(_))),
        (spec_check_store_path(path, kind, state) matches Ok(StoreActionView::Use)) <==> (if kind
            == StoreKind::MerkleDb || kind == StoreKind::SummaryDb {
            state.is_file && state.writable
        } else if kind == StoreKind::Staging {
            state.is_dir
        } else {
            state.is_dir && state.writable
        }),
{
}

} // verus!

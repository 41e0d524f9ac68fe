//! The resolved client configuration: credentials, repository association,
//! the version-check policy, credential injection into remote URLs and the
//! choice of a configuration profile.

use vstd::prelude::*;
use vstd::string::*;

use crate::errors::{ConfigError, GitXetRepoError, RepoErrorView};
use crate::store::{RepoPaths, XetblobPaths};
use crate::text::{contains_exec, contains_text, views};
use crate::urls::{
    setter_fits, url_parse_outcome, url_password_of, url_scheme_of, url_set_password_outcome,
    url_set_username_outcome, url_username_of, ParsedUrl,
};

verus! {

// ---------------------------------------------------------------------------
// Settings
// ---------------------------------------------------------------------------

/// The user credentials of a configuration.
#[derive(Debug)]
pub struct UserSettings {
    pub name: Option<String>,
    pub token: Option<String>,
}

/// Settings given on the command line that take precedence over the
/// configuration files (paths as strings).
#[derive(Debug)]
pub struct CliOverrides {
    pub merkledb: Option<String>,
    pub merkledb_v2_cache: Option<String>,
    pub merkledb_v2_session: Option<String>,
    pub profile: Option<String>,
    pub user_name: Option<String>,
    pub user_token: Option<String>,
    pub user_email: Option<String>,
    pub user_login_id: Option<String>,
    pub disable_version_check: bool,
}

/// The resolved configuration of the client: the repository it is associated
/// with (if any), the user's credentials, the paths of the local stores, and
/// the smudge and version-check flags.
#[derive(Debug)]
pub struct XetConfig {
    pub repo_path_if_present: Option<String>,
    pub merkledb: String,
    /// The directory to cache MDB shards pulled from CAS.
    pub merkledb_v2_cache: String,
    /// The directory to hold MDB shards created in a session (between pushes).
    pub merkledb_v2_session: String,
    pub summarydb: String,
    pub staging_path: Option<String>,
    pub user: UserSettings,
    pub force_no_smudge: bool,
    pub disable_version_check: bool,
    pub lazy_config: Option<String>,
}

/// `a` and `b` agree on every field but the store paths.
pub open spec fn same_but_paths(a: XetConfig, b: XetConfig) -> bool {
    &&& a.repo_path_if_present == b.repo_path_if_present
    &&& a.user == b.user
    &&& a.force_no_smudge == b.force_no_smudge
    &&& a.disable_version_check == b.disable_version_check
}

/// The store paths of `a` and `b` are the same.
pub open spec fn same_paths(a: XetConfig, b: XetConfig) -> bool {
    &&& a.merkledb == b.merkledb
    &&& a.merkledb_v2_cache == b.merkledb_v2_cache
    &&& a.merkledb_v2_session == b.merkledb_v2_session
    &&& a.summarydb == b.summarydb
    &&& a.staging_path == b.staging_path
    &&& a.lazy_config == b.lazy_config
}

/// The view of an optional string.
pub open spec fn opt_view(o: Option<String>) -> Option<Seq<char>> {
    match o {
        Some(s) => Some(s@),
        None => None,
    }
}

/// Whether an environment flag with value `value` (absent: `None`) is set: it
/// is present and not `0`.
pub open spec fn spec_flag_from_env_value(value: Option<Seq<char>>) -> bool {
    match value {
        Some(v) => v != "0"@,
        None => false,
    }
}

/// Whether an environment flag with value `value` (absent: `None`) is set: it
/// is set when present with any value but `0`.
pub fn flag_from_env_value(value: Option<&str>) -> (b: bool)
    ensures
        b == spec_flag_from_env_value(
            match value {
                Some(v) => Some(v@),
                None => None,
            },
        ),
{
    match value {
        Some(v) => !(String::from_str(v) == String::from_str("0")),
        None => false,
    }
}

// ---------------------------------------------------------------------------
// Credential injection
// ---------------------------------------------------------------------------

/// The serialization after setting the password `t` on the URL `ser`, where a
/// refused setting leaves the URL as it was; `None` where the setter would
/// exceed the `url` crate's length limit.
pub open spec fn with_password(ser: Seq<char>, t: Seq<char>) -> Option<Seq<char>> {
    if !setter_fits(ser, t) {
        None
    } else {
        match url_set_password_outcome(ser, t) {
            Some(s) => Some(s),
            None => Some(ser),
        }
    }
}

/// The text that [`XetConfig::build_authenticated_remote_url`] gives for `url`
/// with the configured user `name` and `token`; `None` where a setter would
/// exceed the `url` crate's length limit.
///
/// The URL is returned as given when it does not parse, is not `http` or
/// `https`, or no name and token are both configured, or it carries a password
/// already, or it carries a user name other than the configured one. With the
/// configured user name and no password, the token is filled in as password;
/// with no user name, the configured name and token are filled in. In those
/// two cases the result is the serialization of the updated URL.
pub open spec fn spec_authenticated_url(
    url: Seq<char>,
    name: Option<Seq<char>>,
    token: Option<Seq<char>>,
) -> Option<Seq<char>> {
    match url_parse_outcome(url) {
        Err(_) => Some(url),
        Ok(ser) => if url_scheme_of(ser) != "http"@ && url_scheme_of(ser) != "https"@ {
            Some(url)
        } else {
            match (name, token) {
                (Some(n), Some(t)) => if url_username_of(ser).len() != 0 {
                    if url_password_of(ser) is Some {
                        Some(url)
                    } else if n == url_username_of(ser) {
                        with_password(ser, t)
                    } else {
                        Some(url)
                    }
                } else if !setter_fits(ser, n) {
                    None
                } else {
                    let s1 = match url_set_username_outcome(ser, n) {
                        Some(s) => s,
                        None => ser,
                    };
                    with_password(s1, t)
                },
                _ => Some(url),
            }
        },
    }
}

/// Sets the password `token` on `u`, ignoring a refusal; `None` where the
/// setter would exceed the `url` crate's length limit.
fn fill_password(u: &mut ParsedUrl, token: &str) -> (r: Option<String>)
    ensures
        match r {
            Some(s) => with_password(old(u)@, token@) == Some(s@),
            None => with_password(old(u)@, token@) is None,
        },
{
    if !u.fits_setter(token) {
        return None;
    }
    let _ = u.set_password(token);
    Some(u.as_string())
}

/// Computes [`spec_authenticated_url`].
fn authenticated_url(url: &str, user: &UserSettings) -> (r: Option<String>)
    ensures
        match r {
            Some(s) => spec_authenticated_url(url@, opt_view(user.name), opt_view(user.token))
                == Some(s@),
            None => spec_authenticated_url(url@, opt_view(user.name), opt_view(user.token)) is None,
        },
{
    let mut remote_url = match ParsedUrl::parse(url) {
        Ok(u) => u,
        Err(_) => {
            return Some(String::from_str(url));
        },
    };
    let scheme = remote_url.scheme();
    if !(scheme == String::from_str("http")) && !(scheme == String::from_str("https")) {
        return Some(String::from_str(url));
    }
    match (&user.name, &user.token) {
        (Some(name), Some(token)) => {
            let username = remote_url.username();
            if username.as_str().unicode_len() != 0 {
                if remote_url.password().is_some() {
                    return Some(String::from_str(url));
                }
                if *name == username {
                    return fill_password(&mut remote_url, token.as_str());
                }
                return Some(String::from_str(url));
            }
            if !remote_url.fits_setter(name.as_str()) {
                return None;
            }
            let _ = remote_url.set_username(name.as_str());
            fill_password(&mut remote_url, token.as_str())
        },
        _ => Some(String::from_str(url)),
    }
}

// ---------------------------------------------------------------------------
// XetConfig
// ---------------------------------------------------------------------------

impl XetConfig {
    /// A configuration with no repository, no credentials, empty store paths,
    /// no staging directory or lazy-checkout configuration, smudging on and the
    /// version check off.
    pub fn empty() -> (c: Self)
        ensures
            c.repo_path_if_present is None,
            c.user.name is None,
            c.user.token is None,
            c.merkledb@ == Seq::<char>::empty(),
            c.merkledb_v2_cache@ == Seq::<char>::empty(),
            c.merkledb_v2_session@ == Seq::<char>::empty(),
            c.summarydb@ == Seq::<char>::empty(),
            c.staging_path is None,
            c.lazy_config is None,
            !c.force_no_smudge,
            c.disable_version_check,
    {
        XetConfig {
            repo_path_if_present: None,
            merkledb: String::new(),
            merkledb_v2_cache: String::new(),
            merkledb_v2_session: String::new(),
            summarydb: String::new(),
            staging_path: None,
            user: UserSettings { name: None, token: None },
            force_no_smudge: false,
            disable_version_check: true,
            lazy_config: None,
        }
    }

    /// Sets the paths of a repository's stores: the MerkleDB file and shard
    /// directories, the summary database and the staging directory. Nothing else
    /// changes.
    pub fn with_repo_paths(self, p: RepoPaths) -> (c: Self)
        ensures
            c.merkledb == p.merkledb,
            c.merkledb_v2_cache == p.merkledb_v2_cache,
            c.merkledb_v2_session == p.merkledb_v2_session,
            c.summarydb == p.summarydb,
            c.staging_path == Some(p.staging_path),
            c.lazy_config == self.lazy_config,
            same_but_paths(c, self),
    {
        let mut c = self;
        c.merkledb = p.merkledb;
        c.merkledb_v2_cache = p.merkledb_v2_cache;
        c.merkledb_v2_session = p.merkledb_v2_session;
        c.summarydb = p.summarydb;
        c.staging_path = Some(p.staging_path);
        c
    }

    /// Sets the paths of the stores used by xetblob: the MerkleDB shard
    /// directories and the summary database. Nothing else changes.
    pub fn with_xetblob_paths(self, p: XetblobPaths) -> (c: Self)
        ensures
            c.merkledb == self.merkledb,
            c.merkledb_v2_cache == p.merkledb_v2_cache,
            c.merkledb_v2_session == p.merkledb_v2_session,
            c.summarydb == p.summarydb,
            c.staging_path == self.staging_path,
            c.lazy_config == self.lazy_config,
            same_but_paths(c, self),
    {
        let mut c = self;
        c.merkledb_v2_cache = p.merkledb_v2_cache;
        c.merkledb_v2_session = p.merkledb_v2_session;
        c.summarydb = p.summarydb;
        c
    }

    /// Records the lazy-checkout configuration at `lazy_config` when it exists
    /// (`exists`), none otherwise. Nothing else changes, and this never fails.
    pub fn try_with_lazy_config(self, lazy_config: String, exists: bool) -> (r: Result<
        Self,
        ConfigError,
    >)
        ensures
            r matches Ok(c) && c.lazy_config == (if exists {
                Some(lazy_config)
            } else {
                None
            }) && same_but_paths(c, self) && c.merkledb == self.merkledb && c.merkledb_v2_cache
                == self.merkledb_v2_cache && c.merkledb_v2_session == self.merkledb_v2_session
                && c.summarydb == self.summarydb && c.staging_path == self.staging_path,
    {
        let mut c = self;
        c.lazy_config = if exists {
            Some(lazy_config)
        } else {
            None
        };
        Ok(c)
    }

    /// The path of the associated repository; an error when there is none.
    pub fn repo_path(&self) -> (r: Result<&String, GitXetRepoError>)
        ensures
            match self.repo_path_if_present {
                Some(p) => r matches Ok(q) && *q == p,
                None => r matches Err(e) && e@ == RepoErrorView::Other(
                    "Associated repository required for this operation."@,
                ),
            },
    {
        match &self.repo_path_if_present {
            Some(p) => Ok(p),
            None => Err(
                GitXetRepoError::Other(
                    String::from_str("Associated repository required for this operation."),
                ),
            ),
        }
    }

    /// Whether the configuration is associated with a repository.
    pub fn associated_with_repo(&self) -> (b: bool)
        ensures
            b == self.repo_path_if_present is Some,
    {
        self.repo_path_if_present.is_some()
    }

    /// Turns the version check off when the overrides ask for it or when the
    /// `XET_DISABLE_VERSION_CHECK` setting, whose value is `version_check_env`
    /// (absent: `None`), is set; a configuration with the check off keeps it off.
    /// Nothing else changes, and this never fails.
    pub fn try_with_version_check_policy(
        self,
        overrides: &Option<CliOverrides>,
        version_check_env: Option<&str>,
    ) -> (r: Result<Self, ConfigError>)
        ensures
            r matches Ok(c) && c.disable_version_check == (self.disable_version_check || (
            overrides matches Some(o) && o.disable_version_check) || spec_flag_from_env_value(
                match version_check_env {
                    Some(v) => Some(v@),
                    None => None,
                },
            )) && c.repo_path_if_present == self.repo_path_if_present && c.user == self.user
                && c.force_no_smudge == self.force_no_smudge && same_paths(c, self),
    {
        let mut c = self;
        if let Some(ovr) = overrides {
            if ovr.disable_version_check {
                c.disable_version_check = true;
            }
        }
        if c.disable_version_check || flag_from_env_value(version_check_env) {
            c.disable_version_check = true;
        }
        Ok(c)
    }

    /// Whether [`XetConfig::build_authenticated_remote_url`] completes on `url`.
    pub open spec fn authentication_completes(&self, url: Seq<char>) -> bool {
        spec_authenticated_url(url, opt_view(self.user.name), opt_view(self.user.token)) is Some
    }

    /// Injects the configured credentials into an `http` or `https` remote URL,
    /// as [`spec_authenticated_url`] says: the token is filled in as password
    /// when the URL names the configured user without a password, name and
    /// token are filled in when it names no user; otherwise (no parse, another
    /// scheme, no credentials configured, a password present, another user) the
    /// URL comes back as given.
    pub fn build_authenticated_remote_url(&self, url: &str) -> (s: String)
        requires
            self.authentication_completes(url@),
        ensures
            spec_authenticated_url(url@, opt_view(self.user.name), opt_view(self.user.token))
                == Some(s@),
    {
        match authenticated_url(url, &self.user) {
            Some(s) => s,
            None => {
                assert(false);
                String::new()
            },
        }
    }

    /// [`XetConfig::build_authenticated_remote_url`] where it completes, `None`
    /// where it does not.
    pub fn try_build_authenticated_remote_url(&self, url: &str) -> (r: Option<String>)
        ensures
            match r {
                Some(s) => spec_authenticated_url(
                    url@,
                    opt_view(self.user.name),
                    opt_view(self.user.token),
                ) == Some(s@),
                None => !self.authentication_completes(url@),
            },
    {
        match authenticated_url(url, &self.user) {
            Some(_) => Some(self.build_authenticated_remote_url(url)),
            None => None,
        }
    }
}

/// Without both a user name and a token configured, every URL comes back as given.
pub proof fn lemma_no_credentials_passthrough(
    url: Seq<char>,
    name: Option<Seq<char>>,
    token: Option<Seq<char>>,
)
    requires
        name is None || token is None,
    ensures
        spec_authenticated_url(url, name, token) == Some(url),
{
}

/// A URL whose scheme is neither `http` nor `https`, or that does not parse,
/// comes back as given.
pub proof fn lemma_non_http_passthrough(
    url: Seq<char>,
    name: Option<Seq<char>>,
    token: Option<Seq<char>>,
)
    requires
        url_parse_outcome(url) matches Ok(ser) ==> (url_scheme_of(ser) != "http"@
            && url_scheme_of(ser) != "https"@),
    ensures
        spec_authenticated_url(url, name, token) == Some(url),
{
}


/// For an `http` or `https` URL (alike) that names the configured user and has
/// no password, the result is the URL with the configured token set as its
/// password (left as parsed if the `url` crate refuses the password).
pub proof fn law_token_filled_for_named_user(
    url: Seq<char>,
    ser: Seq<char>,
    n: Seq<char>,
    t: Seq<char>,
)
    requires
        url_parse_outcome(url) == Ok::<Seq<char>, Seq<char>>(ser),
        url_scheme_of(ser) == "http"@ || url_scheme_of(ser) == "https"@,
        url_username_of(ser) == n,
        n.len() > 0,
        url_password_of(ser) is None,
        setter_fits(ser, t),
    ensures
        spec_authenticated_url(url, Some(n), Some(t)) == Some(
            match url_set_password_outcome(ser, t) {
                Some(s) => s,
                None => ser,
            },
        ),
{
    reveal_strlit("http");
    reveal_strlit("https");
}

/// For an `http` or `https` URL (alike) that names no user, the result is the
/// URL with the configured name set as user and then the configured token as
/// password (each left as it was where the `url` crate refuses it).
pub proof fn law_name_and_token_filled(url: Seq<char>, ser: Seq<char>, n: Seq<char>, t: Seq<char>)
    requires
        url_parse_outcome(url) == Ok::<Seq<char>, Seq<char>>(ser),
        url_scheme_of(ser) == "http"@ || url_scheme_of(ser) == "https"@,
        url_username_of(ser).len() == 0,
        setter_fits(ser, n),
        setter_fits(
            match url_set_username_outcome(ser, n) {
                Some(s) => s,
                None => ser,
            },
            t,
        ),
    ensures
        ({
            let s1 = match url_set_username_outcome(ser, n) {
                Some(s) => s,
                None => ser,
            };
            spec_authenticated_url(url, Some(n), Some(t)) == Some(
                match url_set_password_outcome(s1, t) {
                    Some(s) => s,
                    None => s1,
                },
            )
        }),
{
}

} // verus!

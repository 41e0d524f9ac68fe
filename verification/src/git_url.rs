//! Remote URLs of git-xet repositories: recognising them, naming the repository
//! they point to, and taking `xet://` URLs apart into remote, repository,
//! branch and path.

pub mod test_routines;

use vstd::prelude::*;
use vstd::string::*;

use crate::errors::{GitXetRepoError, RepoErrorView};
use crate::text::{
    free_of, has_prefix, has_suffix, join_exec, join_with, lemma_join_append, lemma_join_split,
    lemma_split_last_piece, lemma_split_pieces_free, split_exec, split_on, starts_with,
    strip_suffix, strip_suffix_exec, substring, views,
};
use crate::urls::{
    setter_fits, url_host_of, url_parse_outcome, url_path_of, url_scheme_of, url_set_host_outcome,
    url_set_path_outcome, ParsedUrl,
};

verus! {

/// The XetHub endpoint used when no other domain is given.
pub const PROD_XETEA_DOMAIN: &'static str = "xethub.com";

// ---------------------------------------------------------------------------
// Recognising remote URLs
// ---------------------------------------------------------------------------

/// The repository name of a remote: its last `/`-separated piece, without a
/// trailing `.git`.
pub open spec fn spec_repo_name(remote: Seq<char>) -> Seq<char> {
    strip_suffix(split_on(remote, "/"@).last(), ".git"@)
}

/// The name of the repository that a remote URL points to: the text after the
/// last `/` (all of it when there is none), with one trailing `.git` removed.
/// There always is such a piece, so the result is always `Some`.
pub fn repo_name_from_remote(remote: &str) -> (r: Option<String>)
    ensures
        r matches Some(name) && name@ == spec_repo_name(remote@),
{
    proof {
        reveal_strlit("/");
    }
    let parts = split_exec(remote, "/");
    let last = &parts[parts.len() - 1];
    let name = strip_suffix_exec(last.as_str(), ".git");
    assert(views(parts@).last() == last@);
    Some(name)
}

/// `ent` starts with `https://`, `http://` or `xet://`.
pub open spec fn spec_is_unauthenticated_remote(ent: Seq<char>) -> bool {
    has_prefix(ent, "https://"@) || has_prefix(ent, "http://"@) || has_prefix(ent, "xet://"@)
}

/// `ent` starts with `https://`, `http://`, `xet://` or `ssh://`.
pub open spec fn spec_is_remote_url(ent: Seq<char>) -> bool {
    spec_is_unauthenticated_remote(ent) || has_prefix(ent, "ssh://"@)
}

/// Whether `ent` is a remote URL that may carry credentials to be filled in:
/// one that starts with `https://`, `http://` or `xet://`.
pub fn is_unauthenticated_repo_remote_url(ent: &str) -> (b: bool)
    ensures
        b == spec_is_unauthenticated_remote(ent@),
{
    starts_with(ent, "https://") || starts_with(ent, "http://") || starts_with(ent, "xet://")
}

/// Whether `ent` is a remote URL: one that starts with `https://`, `http://`,
/// `xet://` or `ssh://`.
pub fn is_remote_url(ent: &str) -> (b: bool)
    ensures
        b == spec_is_remote_url(ent@),
{
    starts_with(ent, "https://") || starts_with(ent, "http://") || starts_with(ent, "xet://")
        || starts_with(ent, "ssh://")
}

/// Every remote URL that may carry credentials is a remote URL.
pub proof fn lemma_unauthenticated_remote_is_remote(ent: Seq<char>)
    requires
        spec_is_unauthenticated_remote(ent),
    ensures
        spec_is_remote_url(ent),
{
}

// ---------------------------------------------------------------------------
// Taking xet:// URLs apart
// ---------------------------------------------------------------------------

/// The parts of a `xet://` URL: the remote to clone, the repository name, the
/// branch (empty when absent) and the path within the branch (empty when absent).
#[derive(Debug)]
pub struct XetPathInfo {
    pub remote: String,
    pub repo: String,
    pub branch: String,
    pub path: String,
}

/// The view of a [`XetPathInfo`].
pub struct XetPathView {
    pub remote: Seq<char>,
    pub repo: Seq<char>,
    pub branch: Seq<char>,
    pub path: Seq<char>,
}

impl View for XetPathInfo {
    type V = XetPathView;

    open spec fn view(&self) -> XetPathView {
        XetPathView {
            remote: self.remote@,
            repo: self.repo@,
            branch: self.branch@,
            path: self.path@,
        }
    }
}

impl PartialEq for XetPathInfo {
    fn eq(&self, other: &Self) -> (r: bool) {
        self.remote == other.remote && self.repo == other.repo && self.branch == other.branch
            && self.path == other.path
    }
}

impl vstd::std_specs::cmp::PartialEqSpecImpl for XetPathInfo {
    open spec fn obeys_eq_spec() -> bool {
        true
    }

    open spec fn eq_spec(&self, other: &Self) -> bool {
        self@ == other@
    }
}

/// How the host of a parsed `xet://` URL is brought to the endpoint domain.
pub enum HostRewrite {
    /// The host already is the domain (or there is no host): nothing changes.
    Keep,
    /// The host is the default endpoint: it is replaced by the domain.
    Replace,
    /// The host is the user of a shortened `xet://user/repo` URL: the host is
    /// replaced by the domain and the URL's path becomes the given one (the old
    /// host followed by the old path).
    ReplaceAndSetPath(String),
}

/// The view of a [`HostRewrite`].
pub enum HostRewriteView {
    Keep,
    Replace,
    ReplaceAndSetPath(Seq<char>),
}

impl View for HostRewrite {
    type V = HostRewriteView;

    open spec fn view(&self) -> HostRewriteView {
        match self {
            HostRewrite::Keep => HostRewriteView::Keep,
            HostRewrite::Replace => HostRewriteView::Replace,
            HostRewrite::ReplaceAndSetPath(p) => HostRewriteView::ReplaceAndSetPath(p@),
        }
    }
}

/// `url` without one leading `/`.
pub open spec fn without_leading_slash(url: Seq<char>) -> Seq<char> {
    if has_prefix(url, "/"@) {
        url.subrange(1, url.len() as int)
    } else {
        url
    }
}

/// The scheme and domain that a domain override stands for: an override of the
/// form `scheme://domain` (exactly one `://`) gives both; any other gives
/// `https` and the override itself.
pub open spec fn spec_domain_override(force_domain: Seq<char>) -> (Seq<char>, Seq<char>) {
    let parts = split_on(force_domain, "://"@);
    if parts.len() == 2 {
        (parts[0], parts[1])
    } else {
        ("https"@, force_domain)
    }
}

/// The host rewrite for a URL with the given host and path, and the domain.
pub open spec fn spec_plan_host_rewrite(
    host: Option<Seq<char>>,
    path: Seq<char>,
    domain: Seq<char>,
) -> HostRewriteView {
    match host {
        None => HostRewriteView::Keep,
        Some(h) => if h == domain {
            HostRewriteView::Keep
        } else if h == "xethub.com"@ {
            HostRewriteView::Replace
        } else {
            HostRewriteView::ReplaceAndSetPath(h + path)
        },
    }
}

/// The message of a failed host replacement.
pub open spec fn invalid_domain_message(domain: Seq<char>) -> Seq<char> {
    "Invalid domain "@ + domain
}

/// The serialization of the URL `ser` once its host is brought to `domain`:
/// `Some(Ok(..))`, `Some(Err(message))` when the `url` crate refuses the host,
/// or `None` when a setter of the `url` crate would panic on the lengths.
pub open spec fn spec_rewrite_host(ser: Seq<char>, domain: Seq<char>) -> Option<
    Result<Seq<char>, Seq<char>>,
> {
    match spec_plan_host_rewrite(url_host_of(ser), url_path_of(ser), domain) {
        HostRewriteView::Keep => Some(Ok(ser)),
        HostRewriteView::Replace => if !setter_fits(ser, domain) {
            None
        } else {
            match url_set_host_outcome(ser, domain) {
                None => Some(Err(invalid_domain_message(domain))),
                Some(s) => Some(Ok(s)),
            }
        },
        HostRewriteView::ReplaceAndSetPath(p) => if !setter_fits(ser, domain) {
            None
        } else {
            match url_set_host_outcome(ser, domain) {
                None => Some(Err(invalid_domain_message(domain))),
                Some(s) => if !setter_fits(s, p) {
                    None
                } else {
                    Some(Ok(url_set_path_outcome(s, p)))
                },
            }
        },
    }
}

/// The message for a URL path with fewer than two pieces after the host.
pub open spec fn short_path_message() -> Seq<char> {
    "Invalid Xet URL format: Expecting xet://user/repo/[branch]/[path]"@
}

/// The parts of a `xet://` URL with the given scheme for the remote, host and
/// path: the path `/user/repo/branch/p/a/t/h` splits on `/` into
/// `["", user, repo, branch, p, a, t, h]`; the remote is `scheme://host/user/repo`.
/// `None` when the path has enough pieces but there is no host.
pub open spec fn spec_path_info_from_parts(
    scheme: Seq<char>,
    host: Option<Seq<char>>,
    path: Seq<char>,
) -> Option<Result<XetPathView, RepoErrorView>> {
    let comps = split_on(path, "/"@);
    if comps.len() < 3 {
        Some(Err(RepoErrorView::InvalidRemote(short_path_message())))
    } else {
        match host {
            None => None,
            Some(h) => Some(
                Ok(
                    XetPathView {
                        remote: scheme + "://"@ + h + join_with(comps.take(3), "/"@),
                        repo: comps[2],
                        branch: if comps.len() >= 4 {
                            comps[3]
                        } else {
                            Seq::empty()
                        },
                        path: if comps.len() >= 5 {
                            join_with(comps.skip(4), "/"@)
                        } else {
                            Seq::empty()
                        },
                    },
                ),
            ),
        }
    }
}

/// What [`XetPathInfo::parse`] gives for `url` and `force_domain`: `Some` of its
/// result, or `None` on the inputs on which it cannot complete (the URL keeps
/// enough path pieces but has no host, or a URL setter would exceed the `url`
/// crate's length limit).
pub open spec fn spec_parse_xet_url(url: Seq<char>, force_domain: Seq<char>) -> Option<
    Result<XetPathView, RepoErrorView>,
> {
    match url_parse_outcome(without_leading_slash(url)) {
        Err(e) => Some(Err(RepoErrorView::InvalidRemote(e))),
        Ok(ser) => {
            let (scheme, domain) = spec_domain_override(force_domain);
            if url_scheme_of(ser) != "xet"@ {
                Some(Err(RepoErrorView::InvalidRemote("Invalid protocol"@)))
            } else {
                match spec_rewrite_host(ser, domain) {
                    None => None,
                    Some(Err(m)) => Some(Err(RepoErrorView::InvalidRemote(m))),
                    Some(Ok(ser2)) => spec_path_info_from_parts(
                        scheme,
                        url_host_of(ser2),
                        url_path_of(ser2),
                    ),
                }
            }
        },
    }
}

/// The view of a parse result.
pub open spec fn parse_result_view(r: Result<XetPathInfo, GitXetRepoError>) -> Result<
    XetPathView,
    RepoErrorView,
> {
    match r {
        Ok(p) => Ok(p@),
        Err(e) => Err(e@),
    }
}

/// The view of an optional parse result.
pub open spec fn parse_outcome_view(r: Option<Result<XetPathInfo, GitXetRepoError>>) -> Option<
    Result<XetPathView, RepoErrorView>,
> {
    match r {
        Some(x) => Some(parse_result_view(x)),
        None => None,
    }
}

/// The scheme and domain that a domain override stands for: `scheme://domain`
/// (with exactly one `://`) gives both, anything else gives `https` and the
/// override itself.
pub fn split_domain_override(force_domain: &str) -> (r: (String, String))
    ensures
        (r.0@, r.1@) == spec_domain_override(force_domain@),
{
    proof {
        reveal_strlit("://");
    }
    let parts = split_exec(force_domain, "://");
    if parts.len() == 2 {
        (parts[0].clone(), parts[1].clone())
    } else {
        (String::from_str("https"), String::from_str(force_domain))
    }
}

/// How to bring a URL with host `host` and path `path` to the endpoint `domain`:
/// keep it when there is no host or the host is the domain; replace the host
/// when it is the default endpoint `xethub.com`; otherwise the URL is the
/// shortened `xet://user/repo/..`, and the host becomes the domain while the old
/// host moves to the front of the path.
pub fn plan_host_rewrite(host: Option<&str>, path: &str, domain: &str) -> (r: HostRewrite)
    ensures
        r@ == spec_plan_host_rewrite(
            match host {
                Some(h) => Some(h@),
                None => None,
            },
            path@,
            domain@,
        ),
{
    match host {
        None => HostRewrite::Keep,
        Some(h) => {
            let hs = String::from_str(h);
            if hs == String::from_str(domain) {
                HostRewrite::Keep
            } else if hs == String::from_str("xethub.com") {
                HostRewrite::Replace
            } else {
                let mut newpath = hs;
                newpath.append(path);
                HostRewrite::ReplaceAndSetPath(newpath)
            }
        },
    }
}

/// The parts of a `xet://` URL whose (rewritten) host and path are given, with
/// `scheme` for the remote. The path splits on `/` into
/// `["", user, repo, branch, p, a, t, h]`: fewer than three pieces is an error;
/// the repository is the third piece, the branch the fourth (empty if absent),
/// the path the fifth and later ones joined with `/` (empty if absent), and the
/// remote `scheme://host` followed by the first three pieces joined with `/`.
/// `None` when there are three pieces or more but no host.
pub fn path_info_from_parts(scheme: &str, host: Option<&str>, path: &str) -> (r: Option<
    Result<XetPathInfo, GitXetRepoError>,
>)
    ensures
        parse_outcome_view(r) == spec_path_info_from_parts(
            scheme@,
            match host {
                Some(h) => Some(h@),
                None => None,
            },
            path@,
        ),
{
    proof {
        reveal_strlit("/");
    }
    let comps = split_exec(path, "/");
    let n = comps.len();
    if n < 3 {
        return Some(
            Err(
                GitXetRepoError::InvalidRemote(
                    String::from_str(
                        "Invalid Xet URL format: Expecting xet://user/repo/[branch]/[path]",
                    ),
                ),
            ),
        );
    }
    let h = match host {
        None => {
            return None;
        },
        Some(h) => h,
    };
    let repo = comps[2].clone();
    let branch = if n >= 4 {
        comps[3].clone()
    } else {
        String::new()
    };
    let rest = if n >= 5 {
        join_exec(&comps, 4, n, "/")
    } else {
        String::new()
    };
    let replacement = join_exec(&comps, 0, 3, "/");
    let mut remote = String::from_str(scheme);
    remote.append("://");
    remote.append(h);
    remote.append(replacement.as_str());
    proof {
        let cv = views(comps@);
        assert(cv.subrange(0, 3) =~= cv.take(3));
        assert(cv.subrange(4, n as int) =~= cv.skip(4));
    }
    Some(Ok(XetPathInfo { remote, repo, branch, path: rest }))
}

/// Brings the host of `parsed` to `domain` as [`plan_host_rewrite`] says.
/// `None` when a setter of the `url` crate would exceed its length limit.
fn rewrite_host(parsed: &mut ParsedUrl, domain: &str) -> (r: Option<Result<(), GitXetRepoError>>)
    ensures
        match spec_rewrite_host(old(parsed)@, domain@) {
            None => r is None,
            Some(Ok(s)) => r == Some(Ok::<(), GitXetRepoError>(())) && final(parsed)@ == s,
            Some(Err(m)) => r matches Some(Err(e)) && e@ == RepoErrorView::InvalidRemote(m),
        },
{
    let host = parsed.host();
    let path = parsed.path();
    let plan = match &host {
        Some(h) => plan_host_rewrite(Some(h.as_str()), path.as_str(), domain),
        None => plan_host_rewrite(None, path.as_str(), domain),
    };
    match plan {
        HostRewrite::Keep => Some(Ok(())),
        HostRewrite::Replace => {
            if !parsed.fits_setter(domain) {
                return None;
            }
            match parsed.set_host(domain) {
                Ok(()) => Some(Ok(())),
                Err(()) => Some(Err(invalid_domain(domain))),
            }
        },
        HostRewrite::ReplaceAndSetPath(newpath) => {
            if !parsed.fits_setter(domain) {
                return None;
            }
            match parsed.set_host(domain) {
                Ok(()) => {
                    if !parsed.fits_setter(newpath.as_str()) {
                        return None;
                    }
                    parsed.set_path(newpath.as_str());
                    Some(Ok(()))
                },
                Err(()) => Some(Err(invalid_domain(domain))),
            }
        },
    }
}

/// The error for a domain that the `url` crate refuses as a host.
fn invalid_domain(domain: &str) -> (e: GitXetRepoError)
    ensures
        e@ == RepoErrorView::InvalidRemote(invalid_domain_message(domain@)),
{
    let mut msg = String::from_str("Invalid domain ");
    msg.append(domain);
    GitXetRepoError::InvalidRemote(msg)
}

/// Computes the outcome of parsing, with `None` where parsing cannot complete.
fn parse_outcome(url: &str, force_domain: &str) -> (r: Option<
    Result<XetPathInfo, GitXetRepoError>,
>)
    ensures
        parse_outcome_view(r) == spec_parse_xet_url(url@, force_domain@),
{
    proof {
        reveal_strlit("/");
    }
    let input = if starts_with(url, "/") {
        let n = url.unicode_len();
        substring(url, 1, n)
    } else {
        String::from_str(url)
    };
    let mut parsed = match ParsedUrl::parse(input.as_str()) {
        Ok(u) => u,
        Err(e) => {
            return Some(Err(GitXetRepoError::InvalidRemote(e)));
        },
    };
    let (scheme, domain) = split_domain_override(force_domain);
    if !(parsed.scheme() == String::from_str("xet")) {
        return Some(Err(GitXetRepoError::InvalidRemote(String::from_str("Invalid protocol"))));
    }
    match rewrite_host(&mut parsed, domain.as_str()) {
        None => {
            return None;
        },
        Some(Err(e)) => {
            return Some(Err(e));
        },
        Some(Ok(())) => {},
    }
    let host = parsed.host();
    let path = parsed.path();
    match &host {
        Some(h) => path_info_from_parts(scheme.as_str(), Some(h.as_str()), path.as_str()),
        None => path_info_from_parts(scheme.as_str(), None, path.as_str()),
    }
}

impl XetPathInfo {
    /// Whether [`XetPathInfo::parse`] completes on `url` and `force_domain`.
    pub open spec fn parse_completes(url: Seq<char>, force_domain: Seq<char>) -> bool {
        spec_parse_xet_url(url, force_domain) is Some
    }

    /// Parses a xet URL of the form `xet://[domain/]user/repo[/branch[/path]]`
    /// (a leading `/` before `xet://` is ignored). The domain is `xethub.com` by
    /// default; `force_domain`, optionally with a scheme (`http://host`), gives
    /// the endpoint that the remote points to. Errors: the URL does not parse,
    /// its scheme is not `xet`, the domain cannot be set as host, or the URL
    /// has no `user/repo`.
    pub fn parse(url: &str, force_domain: &str) -> (r: Result<Self, GitXetRepoError>)
        requires
            Self::parse_completes(url@, force_domain@),
        ensures
            Some(parse_result_view(r)) == spec_parse_xet_url(url@, force_domain@),
    {
        match parse_outcome(url, force_domain) {
            Some(r) => r,
            None => {
                assert(false);
                Err(GitXetRepoError::Other(String::new()))
            },
        }
    }

    /// [`XetPathInfo::parse`] where it completes, `None` where it does not.
    pub fn try_parse(url: &str, force_domain: &str) -> (r: Option<Result<Self, GitXetRepoError>>)
        ensures
            parse_outcome_view(r) == spec_parse_xet_url(url@, force_domain@),
    {
        match parse_outcome(url, force_domain) {
            None => None,
            Some(_) => Some(Self::parse(url, force_domain)),
        }
    }
}

/// Parses a xet URL against the endpoint domain `domain_override` (the value of
/// the `XET_ENDPOINT` setting, or [`PROD_XETEA_DOMAIN`] when it is unset).
pub fn parse_xet_url(url: &str, domain_override: &str) -> (r: Result<XetPathInfo, GitXetRepoError>)
    requires
        XetPathInfo::parse_completes(url@, domain_override@),
    ensures
        Some(parse_result_view(r)) == spec_parse_xet_url(url@, domain_override@),
{
    XetPathInfo::parse(url, domain_override)
}

/// A remote, its repository name and its branch, if any.
pub type RemoteParts = (String, String, Option<String>);

/// The view of [`RemoteParts`].
pub open spec fn remote_parts_view(p: RemoteParts) -> (Seq<char>, Seq<char>, Option<Seq<char>>) {
    (
        p.0@,
        p.1@,
        match p.2 {
            Some(b) => Some(b@),
            None => None,
        },
    )
}

/// The view of a [`parse_remote_url`] result.
pub open spec fn remote_result_view(r: Result<RemoteParts, GitXetRepoError>) -> Result<
    (Seq<char>, Seq<char>, Option<Seq<char>>),
    RepoErrorView,
> {
    match r {
        Ok(p) => Ok(remote_parts_view(p)),
        Err(e) => Err(e@),
    }
}

/// What [`parse_remote_url`] gives: `None` where it cannot complete.
pub open spec fn spec_parse_remote_url(url: Seq<char>, domain_override: Seq<char>) -> Option<
    Result<(Seq<char>, Seq<char>, Option<Seq<char>>), RepoErrorView>,
> {
    if has_prefix(url, "xet://"@) {
        match spec_parse_xet_url(url, domain_override) {
            None => None,
            Some(Err(e)) => Some(Err(e)),
            Some(Ok(p)) => Some(
                Ok(
                    (
                        p.remote,
                        p.repo,
                        if p.branch.len() == 0 {
                            None
                        } else {
                            Some(p.branch)
                        },
                    ),
                ),
            ),
        }
    } else {
        Some(Ok((url, spec_repo_name(url), None)))
    }
}

/// The remote, repository name and branch (if any) of a remote URL. A `xet://`
/// URL is parsed against `domain_override` (see [`parse_xet_url`]) and its
/// branch is absent when empty; any other URL is its own remote, named as
/// [`repo_name_from_remote`] says, without a branch.
pub fn parse_remote_url(url: &str, domain_override: &str) -> (r: Result<
    RemoteParts,
    GitXetRepoError,
>)
    requires
        has_prefix(url@, "xet://"@) ==> XetPathInfo::parse_completes(url@, domain_override@),
    ensures
        Some(remote_result_view(r)) == spec_parse_remote_url(url@, domain_override@),
{
    if starts_with(url, "xet://") {
        let parsed = match parse_xet_url(url, domain_override) {
            Ok(p) => p,
            Err(e) => {
                return Err(e);
            },
        };
        let branch = if parsed.branch.as_str().unicode_len() == 0 {
            None
        } else {
            Some(parsed.branch)
        };
        Ok((parsed.remote, parsed.repo, branch))
    } else {
        let name = match repo_name_from_remote(url) {
            Some(n) => n,
            None => {
                return Err(GitXetRepoError::InvalidRemote(String::from_str(url)));
            },
        };
        Ok((String::from_str(url), name, None))
    }
}

/// [`parse_remote_url`] where it completes, `None` where it does not.
pub fn try_parse_remote_url(url: &str, domain_override: &str) -> (r: Option<
    Result<RemoteParts, GitXetRepoError>,
>)
    ensures
        match r {
            Some(x) => spec_parse_remote_url(url@, domain_override@) == Some(remote_result_view(x)),
            None => spec_parse_remote_url(url@, domain_override@) is None,
        },
{
    if starts_with(url, "xet://") && XetPathInfo::try_parse(url, domain_override).is_none() {
        None
    } else {
        Some(parse_remote_url(url, domain_override))
    }
}

/// A URL that is not a `xet://` URL is always accepted: it is its own remote,
/// without a branch.
pub proof fn lemma_plain_remote_accepted(url: Seq<char>, domain_override: Seq<char>)
    requires
        !has_prefix(url, "xet://"@),
    ensures
        spec_parse_remote_url(url, domain_override) matches Some(Ok((remote, _, branch))) && remote
            == url && branch is None,
{
}

/// The repository name of a remote never contains `/`.
pub proof fn law_repo_name_has_no_slash(remote: Seq<char>)
    ensures
        free_of(spec_repo_name(remote), '/'),
{
    reveal_strlit("/");
    let pieces = split_on(remote, "/"@);
    assert("/"@ =~= seq!['/']);
    lemma_split_pieces_free(remote, '/');
    crate::text::lemma_split_from_nonempty(remote, "/"@, 0, 0);
    let last = pieces.last();
    assert(free_of(pieces[pieces.len() - 1], '/'));
    let name = spec_repo_name(remote);
    assert forall|k: int| 0 <= k < name.len() implies name[k] != '/' by {
        assert(name[k] == last[k]);
    }
}

/// Removing the suffix `.git` from `x + ".git"` gives `x`.
proof fn lemma_strip_git(x: Seq<char>)
    ensures
        strip_suffix(x + ".git"@, ".git"@) == x,
{
    reveal_strlit(".git");
    let s = x + ".git"@;
    assert(s.subrange(s.len() - 4, s.len() as int) =~= ".git"@);
    assert(s.subrange(0, s.len() - 4) =~= x);
}

/// `x + ".git"` has no `/` when `x` has none.
proof fn lemma_git_suffix_free(x: Seq<char>)
    requires
        free_of(x, '/'),
    ensures
        free_of(x + ".git"@, '/'),
{
    reveal_strlit(".git");
    assert forall|k: int| 0 <= k < (x + ".git"@).len() implies (x + ".git"@)[k] != '/' by {
        if k >= x.len() {
            assert((x + ".git"@)[k] == ".git"@[k - x.len()]);
        }
    }
}

/// The repository name of a remote whose text ends in `/x.git` (any text
/// before the `/`, with or without a scheme) is `x`, and that of a remote ending
/// in `/x` where `x` does not end in `.git` is `x`, whenever `x` has no `/`.
pub proof fn law_repo_name_after_last_slash(prefix: Seq<char>, x: Seq<char>)
    requires
        free_of(x, '/'),
    ensures
        spec_repo_name(prefix + "/"@ + x + ".git"@) == x,
        !has_suffix(x, ".git"@) ==> spec_repo_name(prefix + "/"@ + x) == x,
{
    reveal_strlit("/");
    assert("/"@ =~= seq!['/']);
    lemma_git_suffix_free(x);
    assert(prefix + "/"@ + x + ".git"@ =~= prefix + seq!['/'] + (x + ".git"@));
    lemma_split_last_piece(prefix, '/', x + ".git"@);
    lemma_strip_git(x);
    lemma_split_last_piece(prefix, '/', x);
}

/// The repository name of a remote without any `/` (a bare name or file) is the
/// remote without one trailing `.git`.
pub proof fn law_repo_name_without_slash(x: Seq<char>)
    requires
        free_of(x, '/'),
    ensures
        spec_repo_name(x + ".git"@) == x,
        !has_suffix(x, ".git"@) ==> spec_repo_name(x) == x,
{
    reveal_strlit("/");
    assert("/"@ =~= seq!['/']);
    lemma_git_suffix_free(x);
    crate::text::lemma_split_from_free(x + ".git"@, '/', 0, 0);
    assert((x + ".git"@).subrange(0, (x + ".git"@).len() as int) =~= x + ".git"@);
    lemma_strip_git(x);
    crate::text::lemma_split_from_free(x, '/', 0, 0);
    assert(x.subrange(0, x.len() as int) =~= x);
}

/// A remote that is not a `xet://` URL, in any form (URL, scp-style
/// `user@host:path`, local path), is accepted as its own remote without a
/// branch, named by the piece after its last `/` without a trailing `.git`:
/// the same name as [`repo_name_from_remote`] gives.
pub proof fn law_plain_remote_named(prefix: Seq<char>, x: Seq<char>, d: Seq<char>)
    requires
        free_of(x, '/'),
        !has_prefix(prefix + "/"@ + x + ".git"@, "xet://"@),
    ensures
        spec_parse_remote_url(prefix + "/"@ + x + ".git"@, d) == Some(
            Ok::<(Seq<char>, Seq<char>, Option<Seq<char>>), RepoErrorView>(
                (prefix + "/"@ + x + ".git"@, x, None),
            ),
        ),
{
    law_repo_name_after_last_slash(prefix, x);
}

/// The leading part of a URL path that the remote keeps: its first three
/// `/`-separated pieces (`/user/repo`), joined with `/`.
pub open spec fn spec_remote_path(path: Seq<char>) -> Seq<char> {
    join_with(split_on(path, "/"@).take(3), "/"@)
}

/// Taking a URL path apart loses nothing: the remote is `scheme://host`
/// followed by the leading part of the path, and the path is that leading part
/// followed by `/branch` (when the path has a fourth piece) and `/path` (when
/// it has a fifth).
pub proof fn law_path_info_reassembles(scheme: Seq<char>, h: Seq<char>, path: Seq<char>)
    requires
        spec_path_info_from_parts(scheme, Some(h), path) matches Some(Ok(_)),
    ensures
        spec_path_info_from_parts(scheme, Some(h), path) matches Some(Ok(p)) && p.remote == scheme
            + "://"@ + h + spec_remote_path(path) && path == spec_remote_path(path) + (if split_on(
            path,
            "/"@,
        ).len() >= 4 {
            "/"@ + p.branch
        } else {
            Seq::empty()
        }) + (if split_on(path, "/"@).len() >= 5 {
            "/"@ + p.path
        } else {
            Seq::empty()
        }),
{
    reveal_strlit("/");
    let sep = "/"@;
    let comps = split_on(path, sep);
    lemma_join_split(path, sep);
    let r = spec_remote_path(path);
    if comps.len() == 3 {
        assert(comps.take(3) =~= comps);
        assert(r + Seq::<char>::empty() + Seq::<char>::empty() =~= r);
    } else {
        assert(comps =~= comps.take(3) + comps.skip(3));
        lemma_join_append(comps.take(3), comps.skip(3), sep);
        if comps.len() == 4 {
            assert(comps.skip(3) =~= seq![comps[3]]);
            assert(r + (sep + comps[3]) + Seq::<char>::empty() =~= r + sep + comps[3]);
        } else {
            assert(comps.skip(3) =~= seq![comps[3]] + comps.skip(4));
            lemma_join_append(seq![comps[3]], comps.skip(4), sep);
            assert(r + (sep + comps[3]) + (sep + join_with(comps.skip(4), sep)) =~= r + sep + (
            comps[3] + sep + join_with(comps.skip(4), sep)));
        }
    }
}

/// The repository name of the remote that a xet URL parses to is the parsed
/// repository, without a trailing `.git`.
pub proof fn law_remote_names_repo(url: Seq<char>, force_domain: Seq<char>)
    requires
        spec_parse_xet_url(url, force_domain) matches Some(Ok(_)),
    ensures
        spec_parse_xet_url(url, force_domain) matches Some(Ok(p)) && spec_repo_name(p.remote)
            == strip_suffix(p.repo, ".git"@),
{
    reveal_strlit("/");
    let sep = "/"@;
    let ser = url_parse_outcome(without_leading_slash(url))->Ok_0;
    let (scheme, domain) = spec_domain_override(force_domain);
    let ser2 = spec_rewrite_host(ser, domain)->Some_0->Ok_0;
    let path = url_path_of(ser2);
    let h = url_host_of(ser2)->Some_0;
    let comps = split_on(path, sep);
    lemma_split_pieces_free(path, '/');
    assert(sep =~= seq!['/']);
    assert(free_of(comps[2], '/'));
    assert(comps.len() >= 3);
    let t3 = comps.take(3);
    assert(t3.drop_first().drop_first() =~= seq![comps[2]]);
    assert(join_with(t3.drop_first().drop_first(), sep) == comps[2]);
    assert(t3.drop_first().len() == 2 && t3.drop_first()[0] == comps[1]);
    assert(join_with(t3.drop_first(), sep) == comps[1] + sep + comps[2]);
    assert(join_with(t3, sep) == comps[0] + sep + (comps[1] + sep + comps[2]));
    let x = scheme + "://"@ + h + comps[0] + sep + comps[1];
    assert(scheme + "://"@ + h + join_with(t3, sep) =~= x + seq!['/'] + comps[2]);
    lemma_split_last_piece(x, '/', comps[2]);
}

} // verus!

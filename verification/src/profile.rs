//! Named configuration profiles and the choice of the profile that applies to
//! a repository.

use vstd::prelude::*;
use vstd::string::*;

use crate::errors::{ConfigError, ConfigErrorView};
use crate::text::{contains_exec, contains_text, views};

verus! {

/// A configuration profile, as far as profile selection reads it: the XetHub
/// endpoint it is meant for, if any.
#[derive(Debug)]
pub struct Profile {
    pub endpoint: Option<String>,
}

impl View for Profile {
    type V = Option<Seq<char>>;

    open spec fn view(&self) -> Option<Seq<char>> {
        match self.endpoint {
            Some(e) => Some(e@),
            None => None,
        }
    }
}

/// The named profiles of a configuration: each name occurs once.
pub struct Profiles {
    entries: Vec<(String, Profile)>,
}

/// The view of a profile table: the names with the endpoints, in table order.
pub type ProfilesView = Seq<(Seq<char>, Option<Seq<char>>)>;

/// No name occurs twice.
pub open spec fn names_distinct(s: ProfilesView) -> bool {
    forall|i: int, j: int| 0 <= i < s.len() && 0 <= j < s.len() && i != j ==> s[i].0 != s[j].0
}

/// Some entry has the name `n`.
pub open spec fn has_name(s: ProfilesView, n: Seq<char>) -> bool {
    exists|i: int| 0 <= i < s.len() && s[i].0 == n
}

/// The table after setting the profile of `n` to endpoint `e`: the entry of
/// that name is replaced in place, or a new entry goes at the end.
pub open spec fn spec_insert(s: ProfilesView, n: Seq<char>, e: Option<Seq<char>>) -> ProfilesView {
    if has_name(s, n) {
        let i = choose|i: int| 0 <= i < s.len() && s[i].0 == n;
        s.update(i, (n, e))
    } else {
        s.push((n, e))
    }
}

impl View for Profiles {
    type V = ProfilesView;

    closed spec fn view(&self) -> ProfilesView {
        self.entries@.map_values(|x: (String, Profile)| (x.0@, x.1@))
    }
}

impl Profiles {
    #[verifier::type_invariant]
    spec fn inv(self) -> bool {
        names_distinct(self@)
    }

    /// A table with no profiles.
    pub fn new() -> (p: Self)
        ensures
            p@ == Seq::<(Seq<char>, Option<Seq<char>>)>::empty(),
    {
        let p = Profiles { entries: Vec::new() };
        assert(p@ =~= Seq::<(Seq<char>, Option<Seq<char>>)>::empty());
        p
    }

    /// The number of profiles.
    pub fn len(&self) -> (n: usize)
        ensures
            n == self@.len(),
    {
        self.entries.len()
    }

    /// The index of the profile named `name`, if there is one.
    pub fn position(&self, name: &str) -> (r: Option<usize>)
        ensures
            match r {
                Some(i) => i < self@.len() && self@[i as int].0 == name@,
                None => !has_name(self@, name@),
            },
    {
        let n = self.entries.len();
        let target = String::from_str(name);
        let mut i: usize = 0;
        while i < n
            invariant
                n == self.entries@.len(),
                target@ == name@,
                i <= n,
                forall|k: int| 0 <= k < i ==> self@[k].0 != name@,
            decreases n - i,
        {
            if self.entries[i].0 == target {
                return Some(i);
            }
            i = i + 1;
        }
        None
    }

    /// The profile at index `i`.
    pub fn profile_at(&self, i: usize) -> (p: &Profile)
        requires
            i < self@.len(),
        ensures
            p@ == self@[i as int].1,
    {
        &self.entries[i].1
    }

    /// The name at index `i`.
    pub fn name_at(&self, i: usize) -> (s: &String)
        requires
            i < self@.len(),
        ensures
            s@ == self@[i as int].0,
    {
        &self.entries[i].0
    }

    /// The profile named `name`, if there is one.
    pub fn get(&self, name: &str) -> (r: Option<&Profile>)
        ensures
            match r {
                Some(p) => exists|i: int|
                    0 <= i < self@.len() && self@[i].0 == name@ && self@[i].1 == p@,
                None => !has_name(self@, name@),
            },
    {
        match self.position(name) {
            Some(i) => Some(&self.entries[i].1),
            None => None,
        }
    }

    /// Sets the profile of `name`: replaces the profile of that name in place,
    /// or adds it at the end.
    pub fn insert(&mut self, name: String, profile: Profile)
        ensures
            final(self)@ == spec_insert(old(self)@, name@, profile@),
    {
        proof {
            use_type_invariant(&*self);
        }
        let ghost old_view = self@;
        match self.position(name.as_str()) {
            Some(i) => {
                let ghost e = profile@;
                let ghost nm = name@;
                let mut entries: Vec<(String, Profile)> = Vec::new();
                std::mem::swap(&mut entries, &mut self.entries);
                entries.set(i, (name, profile));
                proof {
                    let j = choose|j: int| 0 <= j < old_view.len() && old_view[j].0 == nm;
                    assert(old_view[i as int].0 == nm);
                    assert(j == i);
                    assert(entries@.map_values(|x: (String, Profile)| (x.0@, x.1@)) =~= old_view.update(
                        i as int,
                        (nm, e),
                    ));
                }
                self.entries = entries;
            },
            None => {
                let mut entries: Vec<(String, Profile)> = Vec::new();
                std::mem::swap(&mut entries, &mut self.entries);
                let ghost e = profile@;
                let ghost nm = name@;
                entries.push((name, profile));
                proof {
                    assert(entries@.map_values(|x: (String, Profile)| (x.0@, x.1@)) =~= old_view.push(
                        (nm, e),
                    ));
                }
                self.entries = entries;
            },
        }
    }
}

// ---------------------------------------------------------------------------
// Profile selection
// ---------------------------------------------------------------------------

/// What profile selection reads of a repository: whether its XetHub
/// environment is a custom one, its remote URLs, and its path if any.
#[derive(Debug)]
pub struct RepoInfo {
    pub custom_env: bool,
    pub remote_urls: Vec<String>,
    pub maybe_git_path: Option<String>,
}

/// The `Debug` text of a list of strings.
pub uninterp spec fn debug_list_text(items: Seq<Seq<char>>) -> Seq<char>;

/// Formats `items` with `Debug` (`format!("{:?}", items)`); the contract claims
/// the named result.
#[verifier::external_body]
fn debug_list(items: &Vec<String>) -> (s: String)
    ensures
        s@ == debug_list_text(views(items@)),
{
    format!("{:?}", items)
}

/// Whether a profile with the given endpoint applies to a repository: it needs
/// an endpoint; in a custom environment, some remote URL of the repository
/// contains the endpoint; otherwise the endpoint's environment is the
/// repository's (`env_matches`).
pub open spec fn profile_applies(
    endpoint: Option<Seq<char>>,
    custom_env: bool,
    urls: Seq<Seq<char>>,
    env_matches: bool,
) -> bool {
    match endpoint {
        None => false,
        Some(ep) => if custom_env {
            exists|j: int| 0 <= j < urls.len() && contains_text(urls[j], ep)
        } else {
            env_matches
        },
    }
}

/// The indices below `k` of the profiles that apply, in increasing order.
pub open spec fn applying_below(
    s: ProfilesView,
    custom_env: bool,
    urls: Seq<Seq<char>>,
    env: Seq<bool>,
    k: int,
) -> Seq<int>
    decreases k,
{
    if k <= 0 {
        Seq::empty()
    } else {
        let r = applying_below(s, custom_env, urls, env, k - 1);
        if profile_applies(s[k - 1].1, custom_env, urls, env[k - 1]) {
            r.push(k - 1)
        } else {
            r
        }
    }
}

/// The indices below `k` that apply are exactly those in
/// [`applying_below`], in strictly increasing order.
pub proof fn lemma_applying_below(
    s: ProfilesView,
    custom_env: bool,
    urls: Seq<Seq<char>>,
    env: Seq<bool>,
    k: int,
)
    requires
        0 <= k <= s.len(),
        env.len() == s.len(),
    ensures
        ({
            let m = applying_below(s, custom_env, urls, env, k);
            &&& forall|a: int| 0 <= a < m.len() ==> 0 <= #[trigger] m[a] < k
            &&& forall|a: int, b: int| 0 <= a < b < m.len() ==> m[a] < m[b]
            &&& forall|a: int|
                0 <= a < m.len() ==> profile_applies(s[#[trigger] m[a]].1, custom_env, urls, env[m[a]])
            &&& forall|x: int|
                0 <= x < k && profile_applies(s[x].1, custom_env, urls, env[x]) ==> #[trigger] m.contains(x)
        }),
    decreases k,
{
    if k > 0 {
        lemma_applying_below(s, custom_env, urls, env, k - 1);
        let r = applying_below(s, custom_env, urls, env, k - 1);
        let m = applying_below(s, custom_env, urls, env, k);
        assert forall|x: int|
            0 <= x < k && profile_applies(s[x].1, custom_env, urls, env[x]) implies #[trigger] m.contains(x) by {
            if x < k - 1 {
                assert(r.contains(x));
                let a = choose|a: int| 0 <= a < r.len() && r[a] == x;
                assert(m[a] == x);
            } else {
                assert(m[m.len() - 1] == x);
            }
        }
    }
}

/// The message for more than one applying profile.
pub open spec fn multiple_profiles_message(urls: Seq<Seq<char>>) -> Seq<char> {
    "Multiple profiles match the requested endpoint "@ + debug_list_text(urls)
}

/// The choice of profile, as an index into the table: a requested name must be
/// in the table (else `ProfileNotFound`); without one, the profile that applies
/// to the repository, none when none does, and `UnsupportedConfiguration` when
/// more than one does.
pub open spec fn spec_select_profile(
    s: ProfilesView,
    name: Option<Seq<char>>,
    custom_env: bool,
    urls: Seq<Seq<char>>,
    env: Seq<bool>,
) -> Result<Option<int>, ConfigErrorView> {
    match name {
        Some(n) => if has_name(s, n) {
            Ok(Some(choose|i: int| 0 <= i < s.len() && s[i].0 == n))
        } else {
            Err(ConfigErrorView::ProfileNotFound(n))
        },
        None => {
            let m = applying_below(s, custom_env, urls, env, s.len() as int);
            if m.len() > 1 {
                Err(ConfigErrorView::UnsupportedConfiguration(multiple_profiles_message(urls)))
            } else if m.len() == 0 {
                Ok(None)
            } else {
                Ok(Some(m[0]))
            }
        },
    }
}

/// Whether some remote URL contains `endpoint`.
fn some_url_contains(urls: &Vec<String>, endpoint: &String) -> (b: bool)
    ensures
        b == exists|j: int| 0 <= j < urls@.len() && contains_text(urls@[j]@, endpoint@),
{
    let n = urls.len();
    let mut j: usize = 0;
    while j < n
        invariant
            n == urls@.len(),
            j <= n,
            forall|k: int| 0 <= k < j ==> !contains_text(urls@[k]@, endpoint@),
        decreases n - j,
    {
        if contains_exec(urls[j].as_str(), endpoint.as_str()) {
            return true;
        }
        j = j + 1;
    }
    false
}

/// Loads the profile that applies: the one named `maybe_profile_name` when a
/// name is given (an error when there is none of that name); otherwise the
/// profile whose endpoint fits the repository (see [`profile_applies`]), none
/// when no profile fits, and an error when more than one does.
/// `endpoint_env_matches[i]` says whether the environment of the endpoint of
/// profile `i` is the repository's environment.
pub fn load_profile<'a>(
    profiles: &'a Profiles,
    maybe_profile_name: Option<&String>,
    repo_info: &RepoInfo,
    endpoint_env_matches: &Vec<bool>,
) -> (r: Result<Option<&'a Profile>, ConfigError>)
    requires
        endpoint_env_matches@.len() == profiles@.len(),
    ensures
        match spec_select_profile(
            profiles@,
            match maybe_profile_name {
                Some(n) => Some(n@),
                None => None,
            },
            repo_info.custom_env,
            views(repo_info.remote_urls@),
            endpoint_env_matches@,
        ) {
            Ok(Some(i)) => r matches Ok(Some(p)) && p@ == profiles@[i].1,
            Ok(None) => r matches Ok(None),
            Err(e) => r matches Err(x) && x@ == e,
        },
{
    proof {
        use_type_invariant(profiles);
    }
    if let Some(profile_name) = maybe_profile_name {
        return match profiles.position(profile_name.as_str()) {
            Some(i) => Ok(Some(profiles.profile_at(i))),
            None => Err(ConfigError::ProfileNotFound(profile_name.clone())),
        };
    }
    let n = profiles.len();
    let ghost s = profiles@;
    let ghost urls = views(repo_info.remote_urls@);
    let mut candidates: Vec<usize> = Vec::new();
    let mut i: usize = 0;
    while i < n
        invariant
            n == s.len(),
            s == profiles@,
            urls == views(repo_info.remote_urls@),
            endpoint_env_matches@.len() == n,
            i <= n,
            candidates@.map_values(|x: usize| x as int) == applying_below(
                s,
                repo_info.custom_env,
                urls,
                endpoint_env_matches@,
                i as int,
            ),
        decreases n - i,
    {
        let profile = profiles.profile_at(i);
        let applies = match &profile.endpoint {
            None => false,
            Some(endpoint) => {
                if repo_info.custom_env {
                    let found = some_url_contains(&repo_info.remote_urls, endpoint);
                    proof {
                        assert(urls.len() == repo_info.remote_urls@.len());
                        if found {
                            let j = choose|j: int|
                                0 <= j < repo_info.remote_urls@.len() && contains_text(
                                    repo_info.remote_urls@[j]@,
                                    endpoint@,
                                );
                            assert(urls[j] == repo_info.remote_urls@[j]@);
                        } else {
                            assert forall|j: int|
                                0 <= j < urls.len() implies !contains_text(urls[j], endpoint@) by {
                                assert(urls[j] == repo_info.remote_urls@[j]@);
                            }
                        }
                    }
                    found
                } else {
                    endpoint_env_matches[i]
                }
            },
        };
        proof {
            assert forall|j: int|
                0 <= j < repo_info.remote_urls@.len() implies urls[j] == repo_info.remote_urls@[j]@ by {}
            assert(urls.len() == repo_info.remote_urls@.len());
            assert(applies == profile_applies(s[i as int].1, repo_info.custom_env, urls, endpoint_env_matches@[i as int]));
        }
        if applies {
            candidates.push(i);
            assert(candidates@.map_values(|x: usize| x as int) =~= applying_below(
                s,
                repo_info.custom_env,
                urls,
                endpoint_env_matches@,
                i as int,
            ).push(i as int));
        } else {
            assert(candidates@.map_values(|x: usize| x as int) =~= applying_below(
                s,
                repo_info.custom_env,
                urls,
                endpoint_env_matches@,
                (i + 1) as int,
            ));
        }
        i = i + 1;
    }
    proof {
        lemma_applying_below(s, repo_info.custom_env, urls, endpoint_env_matches@, n as int);
    }
    let m = candidates.len();
    if m > 1 {
        let mut msg = String::from_str("Multiple profiles match the requested endpoint ");
        let listed = debug_list(&repo_info.remote_urls);
        msg.append(listed.as_str());
        return Err(ConfigError::UnsupportedConfiguration(msg));
    }
    if m == 0 {
        Ok(None)
    } else {
        Ok(Some(profiles.profile_at(candidates[0])))
    }
}

/// Setting a profile keeps the names distinct; afterwards the name has the new
/// profile, and every other name keeps its presence and its profile.
pub proof fn law_insert_then_lookup(s: ProfilesView, n: Seq<char>, e: Option<Seq<char>>, m: Seq<char>)
    requires
        names_distinct(s),
    ensures
        names_distinct(spec_insert(s, n, e)),
        has_name(spec_insert(s, n, e), n),
        forall|i: int|
            0 <= i < spec_insert(s, n, e).len() && spec_insert(s, n, e)[i].0 == n ==> spec_insert(
                s,
                n,
                e,
            )[i].1 == e,
        m != n ==> has_name(spec_insert(s, n, e), m) == has_name(s, m),
        m != n ==> forall|i: int|
            0 <= i < spec_insert(s, n, e).len() && spec_insert(s, n, e)[i].0 == m ==> exists|k: int|
                0 <= k < s.len() && s[k] == spec_insert(s, n, e)[i],
{
    let t = spec_insert(s, n, e);
    if has_name(s, n) {
        let i = choose|i: int| 0 <= i < s.len() && s[i].0 == n;
        assert(t[i].0 == n);
        assert forall|a: int| 0 <= a < t.len() && t[a].0 == m && m != n implies exists|k: int|
            0 <= k < s.len() && s[k] == t[a] by {
            assert(s[a] == t[a]);
        }
        if m != n && has_name(s, m) {
            let k = choose|k: int| 0 <= k < s.len() && s[k].0 == m;
            assert(t[k].0 == m);
        }
    } else {
        assert(t[s.len() as int].0 == n);
        assert forall|a: int| 0 <= a < t.len() && t[a].0 == m && m != n implies exists|k: int|
            0 <= k < s.len() && s[k] == t[a] by {
            assert(s[a] == t[a]);
        }
        if m != n && has_name(s, m) {
            let k = choose|k: int| 0 <= k < s.len() && s[k].0 == m;
            assert(t[k].0 == m);
        }
    }
}

/// Without a requested name, the choice does not depend on the order of the
/// table: the chosen profile is the only one that applies; no profile is chosen
/// exactly when none applies; the error comes exactly when two different
/// profiles apply.
pub proof fn law_select_profile_by_endpoint(
    s: ProfilesView,
    custom_env: bool,
    urls: Seq<Seq<char>>,
    env: Seq<bool>,
)
    requires
        env.len() == s.len(),
    ensures
        ({
            let r = spec_select_profile(s, None, custom_env, urls, env);
            &&& r matches Ok(Some(i)) ==> 0 <= i < s.len() && profile_applies(
                s[i].1,
                custom_env,
                urls,
                env[i],
            ) && forall|j: int|
                0 <= j < s.len() && j != i ==> !profile_applies(s[j].1, custom_env, urls, env[j])
            &&& r is Ok && r->Ok_0 is None <==> forall|j: int|
                0 <= j < s.len() ==> !profile_applies(s[j].1, custom_env, urls, env[j])
            &&& r is Err <==> exists|a: int, b: int|
                0 <= a < b < s.len() && profile_applies(s[a].1, custom_env, urls, env[a])
                    && profile_applies(s[b].1, custom_env, urls, env[b])
        }),
{
    lemma_applying_below(s, custom_env, urls, env, s.len() as int);
    let m = applying_below(s, custom_env, urls, env, s.len() as int);
    if m.len() == 1 {
        assert forall|j: int|
            0 <= j < s.len() && j != m[0] implies !profile_applies(s[j].1, custom_env, urls, env[j]) by {
            if profile_applies(s[j].1, custom_env, urls, env[j]) {
                assert(m.contains(j));
            }
        }
        assert(!(forall|j: int|
            0 <= j < s.len() ==> !profile_applies(s[j].1, custom_env, urls, env[j])) ) by {
            assert(profile_applies(s[m[0]].1, custom_env, urls, env[m[0]]));
        }
    } else if m.len() == 0 {
        assert forall|j: int|
            0 <= j < s.len() implies !profile_applies(s[j].1, custom_env, urls, env[j]) by {
            if profile_applies(s[j].1, custom_env, urls, env[j]) {
                assert(m.contains(j));
            }
        }
    } else {
        assert(profile_applies(s[m[0]].1, custom_env, urls, env[m[0]]));
        assert(profile_applies(s[m[1]].1, custom_env, urls, env[m[1]]));
        assert(m[0] < m[1]);
    }
    if m.len() <= 1 {
        assert forall|a: int, b: int|
            0 <= a < b < s.len() && profile_applies(s[a].1, custom_env, urls, env[a])
                implies !profile_applies(s[b].1, custom_env, urls, env[b]) by {
            if profile_applies(s[b].1, custom_env, urls, env[b]) {
                assert(m.contains(a));
                assert(m.contains(b));
                let ia = choose|ia: int| 0 <= ia < m.len() && m[ia] == a;
                let ib = choose|ib: int| 0 <= ib < m.len() && m[ib] == b;
            }
        }
    }
}

/// With a requested name, the profile of that name is chosen, and the error
/// comes exactly when the table has no such name.
pub proof fn law_select_profile_by_name(
    s: ProfilesView,
    n: Seq<char>,
    custom_env: bool,
    urls: Seq<Seq<char>>,
    env: Seq<bool>,
)
    ensures
        spec_select_profile(s, Some(n), custom_env, urls, env) matches Ok(Some(i)) ==> 0 <= i
            < s.len() && s[i].0 == n,
        spec_select_profile(s, Some(n), custom_env, urls, env) is Err <==> !has_name(s, n),
        !(spec_select_profile(s, Some(n), custom_env, urls, env) matches Ok(None)),
{
}


/// In a custom environment, a profile whose endpoint some remote URL of the
/// repository contains (whichever URL it is) is chosen when no other profile
/// has an endpoint; and whenever some profile's endpoint is contained in some
/// remote URL, a profile is chosen or the choice is ambiguous, never none.
pub proof fn law_custom_env_any_remote(
    s: ProfilesView,
    urls: Seq<Seq<char>>,
    env: Seq<bool>,
    i: int,
    j: int,
    e: Seq<char>,
)
    requires
        env.len() == s.len(),
        0 <= i < s.len(),
        s[i].1 == Some(e),
        0 <= j < urls.len(),
        contains_text(urls[j], e),
    ensures
        !(spec_select_profile(s, None, true, urls, env) matches Ok(None)),
        (forall|k: int| 0 <= k < s.len() && k != i ==> s[k].1 is None) ==> spec_select_profile(
            s,
            None,
            true,
            urls,
            env,
        ) == Ok::<Option<int>, ConfigErrorView>(Some(i)),
{
    law_select_profile_by_endpoint(s, true, urls, env);
    assert(profile_applies(s[i].1, true, urls, env[i]));
    if forall|k: int| 0 <= k < s.len() && k != i ==> s[k].1 is None {
        let r = spec_select_profile(s, None, true, urls, env);
        assert forall|a: int, b: int|
            0 <= a < b < s.len() && profile_applies(s[a].1, true, urls, env[a]) implies !profile_applies(
            s[b].1,
            true,
            urls,
            env[b],
        ) by {
            if a != i {
                assert(s[a].1 is None);
            } else {
                assert(s[b].1 is None);
            }
        }
        assert(r matches Ok(Some(_)));
        let k = r->Ok_0->Some_0;
        if k != i {
            assert(s[k].1 is None);
        }
    }
}

} // verus!

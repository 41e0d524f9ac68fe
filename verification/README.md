# gitxet

Verified core of the git-xet client, written in Verus.

- `src/text.rs`: character-level prefix, suffix, split and join helpers with
  their specifications and lemmas.
- `src/urls.rs`: `ParsedUrl`, a URL parsed by the `url` crate together with its
  serialization, and the trusted contracts of the `url` calls.
- `src/git_url.rs`: recognising remote URLs, repository names, and taking
  `xet://` URLs apart (`XetPathInfo::parse`), with `test_routines`.
- `src/config.rs`: the resolved configuration, the version-check policy and
  credential injection into remote URLs.
- `src/store.rs`: where a repository's local stores lie (command-line override
  or repository path joined with a subdirectory) and the check of each store
  path against the file-system state.
- `src/profile.rs`: named profiles and the choice of the profile that applies.
- `src/xetblob.rs`: the records returned by the XetHub service.
- `app/lib.rs`: environment reading, the file-system side of the store checks,
  and the serde/tabled forms of the records.

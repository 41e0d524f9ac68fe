use gitxet::errors::GitXetRepoError;
use gitxet::git_url::test_routines::{
    assert_xet_url_parse_err, assert_xet_url_parse_result,
    assert_xet_url_with_domain_override_parse_result, check_xet_url_parse_err,
    check_xet_url_parse_result, check_xet_url_with_domain_override_parse_result,
};
use gitxet::git_url::{
    is_remote_url, is_unauthenticated_repo_remote_url, parse_remote_url, parse_xet_url,
    path_info_from_parts, plan_host_rewrite, repo_name_from_remote, split_domain_override,
    try_parse_remote_url, HostRewrite, XetPathInfo, PROD_XETEA_DOMAIN,
};

type Result<T> = std::result::Result<T, GitXetRepoError>;

fn info(remote: &str, repo: &str, branch: &str, path: &str) -> XetPathInfo {
    XetPathInfo {
        remote: remote.to_owned(),
        repo: repo.to_owned(),
        branch: branch.to_owned(),
        path: path.to_owned(),
    }
}

/// Runs the assertion routine, and checks the same claim directly.
fn expect_parse(xeturl: &str, expected: &XetPathInfo) -> Result<()> {
    assert_eq!(&XetPathInfo::parse(xeturl, PROD_XETEA_DOMAIN)?, expected);
    assert_eq!(check_xet_url_parse_result(xeturl, expected).map(|r| r.is_ok()), Some(true));
    assert_xet_url_parse_result(xeturl, expected)
}

fn expect_parse_with(xeturl: &str, domain: &str, expected: &XetPathInfo) -> Result<()> {
    assert_eq!(&XetPathInfo::parse(xeturl, domain)?, expected);
    assert_eq!(
        check_xet_url_with_domain_override_parse_result(xeturl, domain, expected)
            .map(|r| r.is_ok()),
        Some(true)
    );
    assert_xet_url_with_domain_override_parse_result(xeturl, domain, expected)
}

fn expect_parse_err(xeturl: &str) {
    assert!(XetPathInfo::parse(xeturl, PROD_XETEA_DOMAIN).is_err());
    assert!(check_xet_url_parse_err(xeturl));
    assert_xet_url_parse_err(xeturl);
}

#[test]
fn test_parse_xet_url() -> Result<()> {
    expect_parse(
        "xet://xethub.com/user/repo/branch/hello/world",
        &XetPathInfo {
            remote: "https://xethub.com/user/repo".to_owned(),
            repo: "repo".to_owned(),
            branch: "branch".to_owned(),
            path: "hello/world".to_owned(),
        },
    )?;

    expect_parse(
        "xet://xethub.com/user/repo/branch/hello/world/",
        &XetPathInfo {
            remote: "https://xethub.com/user/repo".to_owned(),
            repo: "repo".to_owned(),
            branch: "branch".to_owned(),
            path: "hello/world/".to_owned(),
        },
    )?;

    expect_parse(
        "xet://xethub.com/user/repo/branch/",
        &XetPathInfo {
            remote: "https://xethub.com/user/repo".to_owned(),
            repo: "repo".to_owned(),
            branch: "branch".to_owned(),
            path: "".to_owned(),
        },
    )?;

    expect_parse(
        "xet://xethub.com/user/repo/branch",
        &XetPathInfo {
            remote: "https://xethub.com/user/repo".to_owned(),
            repo: "repo".to_owned(),
            branch: "branch".to_owned(),
            path: "".to_owned(),
        },
    )?;

    expect_parse(
        "xet://xethub.com/user/repo",
        &XetPathInfo {
            remote: "https://xethub.com/user/repo".to_owned(),
            repo: "repo".to_owned(),
            branch: "".to_owned(),
            path: "".to_owned(),
        },
    )?;

    expect_parse_with(
        "xet://xethub.com/user/repo/branch",
        "xetbeta.com",
        &XetPathInfo {
            remote: "https://xetbeta.com/user/repo".to_owned(),
            repo: "repo".to_owned(),
            branch: "branch".to_owned(),
            path: "".to_owned(),
        },
    )?;

    expect_parse_err("xet://xethub.com/user");

    Ok(())
}

#[test]
fn test_parse_xet_url_truncated() -> Result<()> {
    expect_parse(
        "xet://user/repo/branch/hello/world",
        &XetPathInfo {
            remote: "https://xethub.com/user/repo".to_owned(),
            repo: "repo".to_owned(),
            branch: "branch".to_owned(),
            path: "hello/world".to_owned(),
        },
    )?;

    expect_parse(
        "xet://user/repo/branch/hello/world/",
        &XetPathInfo {
            remote: "https://xethub.com/user/repo".to_owned(),
            repo: "repo".to_owned(),
            branch: "branch".to_owned(),
            path: "hello/world/".to_owned(),
        },
    )?;

    expect_parse(
        "xet://user/repo/branch/",
        &XetPathInfo {
            remote: "https://xethub.com/user/repo".to_owned(),
            repo: "repo".to_owned(),
            branch: "branch".to_owned(),
            path: "".to_owned(),
        },
    )?;

    expect_parse(
        "xet://user/repo/branch",
        &XetPathInfo {
            remote: "https://xethub.com/user/repo".to_owned(),
            repo: "repo".to_owned(),
            branch: "branch".to_owned(),
            path: "".to_owned(),
        },
    )?;

    expect_parse(
        "xet://user/repo",
        &XetPathInfo {
            remote: "https://xethub.com/user/repo".to_owned(),
            repo: "repo".to_owned(),
            branch: "".to_owned(),
            path: "".to_owned(),
        },
    )?;

    expect_parse_with(
        "xet://user/repo/branch",
        "xetbeta.com",
        &XetPathInfo {
            remote: "https://xetbeta.com/user/repo".to_owned(),
            repo: "repo".to_owned(),
            branch: "branch".to_owned(),
            path: "".to_owned(),
        },
    )?;

    expect_parse_err("xet://user");

    Ok(())
}

#[test]
fn test_repo_name_from_remote() {
    assert_eq!(
        repo_name_from_remote("https://xethub.com/user/blah.git")
            .unwrap()
            .as_str(),
        "blah"
    );
    assert_eq!(
        repo_name_from_remote("xet@xethub.com:user/bloof.git")
            .unwrap()
            .as_str(),
        "bloof"
    );
}

#[test]
fn repo_name_edge_cases() {
    assert_eq!(repo_name_from_remote("repo.git").unwrap(), "repo");
    assert_eq!(repo_name_from_remote("plain").unwrap(), "plain");
    assert_eq!(repo_name_from_remote("a/b/").unwrap(), "");
    assert_eq!(repo_name_from_remote("").unwrap(), "");
    assert_eq!(repo_name_from_remote("x/y.git.git").unwrap(), "y.git");
    assert_eq!(repo_name_from_remote("x/.git").unwrap(), "");
}

#[test]
fn remote_url_prefixes() {
    for s in ["https://a", "http://a", "xet://a"] {
        assert!(is_unauthenticated_repo_remote_url(s));
        assert!(is_remote_url(s));
    }
    assert!(!is_unauthenticated_repo_remote_url("ssh://a"));
    assert!(is_remote_url("ssh://a"));
    for s in ["git@host:a/b", "", "HTTPS://a", "http:/a", "file:///a"] {
        assert!(!is_unauthenticated_repo_remote_url(s));
        assert!(!is_remote_url(s));
    }
}

#[test]
fn parse_with_leading_slash_and_errors() {
    assert_eq!(
        XetPathInfo::parse("/xet://xethub.com/user/repo", PROD_XETEA_DOMAIN).unwrap(),
        info("https://xethub.com/user/repo", "repo", "", "")
    );
    match XetPathInfo::parse("https://xethub.com/user/repo", PROD_XETEA_DOMAIN) {
        Err(GitXetRepoError::InvalidRemote(m)) => assert_eq!(m, "Invalid protocol"),
        other => panic!("unexpected {other:?}"),
    }
    match XetPathInfo::parse("not a url", PROD_XETEA_DOMAIN) {
        Err(GitXetRepoError::InvalidRemote(m)) => assert_eq!(m, "relative URL without a base"),
        other => panic!("unexpected {other:?}"),
    }
    match XetPathInfo::parse("xet://xethub.com/user", PROD_XETEA_DOMAIN) {
        Err(GitXetRepoError::InvalidRemote(m)) => assert_eq!(
            m,
            "Invalid Xet URL format: Expecting xet://user/repo/[branch]/[path]"
        ),
        other => panic!("unexpected {other:?}"),
    }
}

#[test]
fn parse_with_scheme_in_domain_override() {
    assert_eq!(
        XetPathInfo::parse("xet://user/repo/main/a", "http://localhost").unwrap(),
        info("http://localhost/user/repo", "repo", "main", "a")
    );
    assert_eq!(
        XetPathInfo::parse("xet://xethub.com/user/repo", "http://hub.example").unwrap(),
        info("http://hub.example/user/repo", "repo", "", "")
    );
    assert_eq!(
        XetPathInfo::parse("xet://hub.example/user/repo", "hub.example").unwrap(),
        info("https://hub.example/user/repo", "repo", "", "")
    );
}

#[test]
fn parse_without_host_does_not_complete() {
    assert!(XetPathInfo::try_parse("xet:/user/repo", PROD_XETEA_DOMAIN).is_none());
    assert!(XetPathInfo::try_parse("xet:user/repo/x", PROD_XETEA_DOMAIN).is_none());
    assert!(matches!(
        XetPathInfo::try_parse("xet:/user", PROD_XETEA_DOMAIN),
        Some(Err(_))
    ));
    assert!(matches!(
        XetPathInfo::try_parse("xet://user/repo", PROD_XETEA_DOMAIN),
        Some(Ok(_))
    ));
    assert!(check_xet_url_parse_result("xet:/user/repo", &info("", "", "", "")).is_none());
    assert!(check_xet_url_parse_result(
        "xet://user/repo",
        &info("https://xethub.com/user/other", "repo", "", "")
    )
    .is_none());
    assert!(!check_xet_url_parse_err("xet://user/repo"));
}

#[test]
fn parse_xet_url_with_override() {
    assert_eq!(
        parse_xet_url("xet://user/repo/b", "xetbeta.com").unwrap(),
        info("https://xetbeta.com/user/repo", "repo", "b", "")
    );
}

#[test]
fn remote_url_parts() {
    let (remote, repo, branch) =
        parse_remote_url("https://xethub.com/user/blah.git", PROD_XETEA_DOMAIN).unwrap();
    assert_eq!(remote, "https://xethub.com/user/blah.git");
    assert_eq!(repo, "blah");
    assert_eq!(branch, None);

    let (remote, repo, branch) =
        parse_remote_url("xet://xethub.com/user/repo/branch/x", PROD_XETEA_DOMAIN).unwrap();
    assert_eq!(remote, "https://xethub.com/user/repo");
    assert_eq!(repo, "repo");
    assert_eq!(branch, Some("branch".to_owned()));

    let (_, _, branch) =
        parse_remote_url("xet://xethub.com/user/repo", PROD_XETEA_DOMAIN).unwrap();
    assert_eq!(branch, None);

    assert!(parse_remote_url("xet://xethub.com/user", PROD_XETEA_DOMAIN).is_err());
    assert!(try_parse_remote_url("xet:///user/repo", PROD_XETEA_DOMAIN).is_none());
    assert!(matches!(try_parse_remote_url("xet:/user/repo", PROD_XETEA_DOMAIN), Some(Ok(_))));
    assert!(matches!(
        try_parse_remote_url("git@host:x/y.git", PROD_XETEA_DOMAIN),
        Some(Ok(_))
    ));
}

#[test]
fn domain_override_split() {
    assert_eq!(
        split_domain_override("http://localhost:8080"),
        ("http".to_owned(), "localhost:8080".to_owned())
    );
    assert_eq!(
        split_domain_override("xethub.com"),
        ("https".to_owned(), "xethub.com".to_owned())
    );
    assert_eq!(
        split_domain_override("a://b://c"),
        ("https".to_owned(), "a://b://c".to_owned())
    );
    assert_eq!(split_domain_override("://"), ("".to_owned(), "".to_owned()));
}

#[test]
fn host_rewrite_plans() {
    assert!(matches!(plan_host_rewrite(None, "/a/b", "d.com"), HostRewrite::Keep));
    assert!(matches!(plan_host_rewrite(Some("d.com"), "/a", "d.com"), HostRewrite::Keep));
    assert!(matches!(
        plan_host_rewrite(Some("xethub.com"), "/a", "d.com"),
        HostRewrite::Replace
    ));
    match plan_host_rewrite(Some("user"), "/repo/b", "d.com") {
        HostRewrite::ReplaceAndSetPath(p) => assert_eq!(p, "user/repo/b"),
        _ => panic!("expected a path rewrite"),
    }
}

#[test]
fn path_info_from_url_parts() {
    assert_eq!(
        path_info_from_parts("https", Some("h.com"), "/u/r/b/p/q")
            .unwrap()
            .unwrap(),
        info("https://h.com/u/r", "r", "b", "p/q")
    );
    assert_eq!(
        path_info_from_parts("http", Some("h"), "/u/r").unwrap().unwrap(),
        info("http://h/u/r", "r", "", "")
    );
    assert_eq!(
        path_info_from_parts("https", Some("h"), "/u/r/b//x").unwrap().unwrap(),
        info("https://h/u/r", "r", "b", "/x")
    );
    assert!(matches!(
        path_info_from_parts("https", Some("h"), "/u"),
        Some(Err(GitXetRepoError::InvalidRemote(_)))
    ));
    assert!(path_info_from_parts("https", None, "/u/r").is_none());
    assert!(matches!(path_info_from_parts("https", None, "u"), Some(Err(_))));
}

#[test]
fn parsed_remote_names_its_repo() {
    for (url, domain) in [
        ("xet://xethub.com/user/repo/branch/a/b", PROD_XETEA_DOMAIN),
        ("xet://user/data.git/main", PROD_XETEA_DOMAIN),
        ("xet://user/repo", "http://localhost"),
    ] {
        let p = XetPathInfo::parse(url, domain).unwrap();
        let name = repo_name_from_remote(&p.remote).unwrap();
        assert_eq!(name, p.repo.strip_suffix(".git").unwrap_or(&p.repo));
        assert!(!name.contains('/'));
    }
}

#[test]
fn path_info_reassembles_path() {
    let path = "/user/repo/branch/a/b/";
    let p = path_info_from_parts("https", Some("h"), path).unwrap().unwrap();
    let lead = p.remote.strip_prefix("https://h").unwrap();
    assert_eq!(format!("{}/{}/{}", lead, p.branch, p.path), path);
    let path = "/user/repo/";
    let p = path_info_from_parts("https", Some("h"), path).unwrap().unwrap();
    let lead = p.remote.strip_prefix("https://h").unwrap();
    assert_eq!(format!("{}/{}", lead, p.branch), path);
}

use gitxet::errors::ConfigError;
use gitxet::profile::{load_profile, Profile, Profiles, RepoInfo};

fn dev_profile() -> Profile {
    Profile { endpoint: Some("xethubdev.com".to_string()) }
}

fn prod_profile() -> Profile {
    Profile { endpoint: Some("xethub.com".to_string()) }
}

fn custom_profile() -> Profile {
    Profile { endpoint: Some("gitlab.com".to_string()) }
}

fn default_repo_info() -> RepoInfo {
    RepoInfo { custom_env: false, remote_urls: vec![], maybe_git_path: None }
}

fn custom_repo_info(urls: &[&str]) -> RepoInfo {
    RepoInfo {
        custom_env: true,
        remote_urls: urls.iter().map(|s| s.to_string()).collect(),
        maybe_git_path: None,
    }
}

fn no_env_matches(p: &Profiles) -> Vec<bool> {
    vec![false; p.len()]
}

fn endpoint_of(p: &Profile) -> Option<String> {
    p.endpoint.clone()
}

#[test]
fn test_load_requested_profile() {
    let mut cfg = Profiles::new();
    let expected_profile = dev_profile();
    let key = "dev".to_string();
    cfg.insert(key.clone(), dev_profile());
    let repo_info = default_repo_info();
    let profile_cfg = load_profile(&cfg, Some(&key), &repo_info, &no_env_matches(&cfg))
        .unwrap()
        .unwrap();
    assert_eq!(endpoint_of(&expected_profile), endpoint_of(profile_cfg));
}

#[test]
fn test_load_requested_profile_multiple() {
    let mut cfg = Profiles::new();
    let dev_key = "dev".to_string();
    let prod_key = "prod".to_string();
    cfg.insert(dev_key, dev_profile());
    cfg.insert(prod_key.clone(), prod_profile());
    let repo_info = default_repo_info();
    let profile_cfg = load_profile(&cfg, Some(&prod_key), &repo_info, &no_env_matches(&cfg))
        .unwrap()
        .unwrap();
    assert_eq!(endpoint_of(&prod_profile()), endpoint_of(profile_cfg));
}

#[test]
fn test_load_requested_profile_missing() {
    let cfg = Profiles::new();
    let key = "dev".to_string();
    let repo_info = default_repo_info();
    match load_profile(&cfg, Some(&key), &repo_info, &no_env_matches(&cfg)) {
        Err(ConfigError::ProfileNotFound(name)) => assert_eq!(name, "dev"),
        other => panic!("unexpected {other:?}"),
    }
}

#[test]
fn test_load_profile_endpoint() {
    let mut cfg = Profiles::new();
    cfg.insert("dev".to_string(), dev_profile());
    let repo_info = custom_repo_info(&["https://xethubdev.com/org/repo"]);
    let profile_cfg = load_profile(&cfg, None, &repo_info, &no_env_matches(&cfg))
        .unwrap()
        .unwrap();
    assert_eq!(endpoint_of(&dev_profile()), endpoint_of(profile_cfg));
}

#[test]
fn test_load_profile_endpoint_custom_key() {
    let mut cfg = Profiles::new();
    cfg.insert("something_else".to_string(), dev_profile());
    let repo_info = custom_repo_info(&["https://xethubdev.com/org/repo"]);
    let profile_cfg = load_profile(&cfg, None, &repo_info, &no_env_matches(&cfg))
        .unwrap()
        .unwrap();
    assert_eq!(endpoint_of(&dev_profile()), endpoint_of(profile_cfg));
}

#[test]
fn test_load_profile_endpoint_custom_env() {
    let mut cfg = Profiles::new();
    cfg.insert("custom".to_string(), custom_profile());
    cfg.insert("dev".to_string(), dev_profile());
    let repo_info = custom_repo_info(&["https://gitlab.com/org/repo"]);
    let profile_cfg = load_profile(&cfg, None, &repo_info, &no_env_matches(&cfg))
        .unwrap()
        .unwrap();
    assert_eq!(endpoint_of(&custom_profile()), endpoint_of(profile_cfg));
}

#[test]
fn test_load_profile_endpoint_not_found() {
    let mut cfg = Profiles::new();
    cfg.insert("my_prod".to_string(), prod_profile());
    let repo_info = custom_repo_info(&["https://xethub1.com/org/repo"]);
    let profile_cfg = load_profile(&cfg, None, &repo_info, &no_env_matches(&cfg)).unwrap();
    assert!(profile_cfg.is_none());
}

#[test]
fn test_load_profile_fail_multiple_valid_profiles() {
    let mut cfg = Profiles::new();
    cfg.insert("prod".to_string(), dev_profile());
    cfg.insert("prod1".to_string(), dev_profile());
    let repo_info = custom_repo_info(&["https://xethubdev.com/org/repo"]);
    match load_profile(&cfg, None, &repo_info, &no_env_matches(&cfg)) {
        Err(ConfigError::UnsupportedConfiguration(m)) => assert_eq!(
            m,
            "Multiple profiles match the requested endpoint [\"https://xethubdev.com/org/repo\"]"
        ),
        other => panic!("unexpected {other:?}"),
    }
}

#[test]
fn test_load_profile_succeed_multiple_identical_profiles() {
    let mut cfg = Profiles::new();
    cfg.insert("prod".to_string(), dev_profile());
    {
        let repo_info = custom_repo_info(&[
            "https://xethubdev.com/org/repo",
            "https://xethubdev.com/org/repo",
        ]);
        let profile_cfg = load_profile(&cfg, None, &repo_info, &no_env_matches(&cfg)).unwrap();
        assert!(profile_cfg.is_some());
    }
    {
        let repo_info = custom_repo_info(&[
            "https://xethubdev.com/org/repo",
            "https://xethubdev.com/user/repo",
        ]);
        let profile_cfg = load_profile(&cfg, None, &repo_info, &no_env_matches(&cfg)).unwrap();
        assert!(profile_cfg.is_some());
    }
}

#[test]
fn profile_by_environment() {
    let mut cfg = Profiles::new();
    cfg.insert("dev".to_string(), dev_profile());
    cfg.insert("prod".to_string(), prod_profile());
    cfg.insert("none".to_string(), Profile { endpoint: None });
    let repo_info = default_repo_info();
    let chosen = load_profile(&cfg, None, &repo_info, &vec![false, true, true])
        .unwrap()
        .unwrap();
    assert_eq!(endpoint_of(chosen), Some("xethub.com".to_string()));
    assert!(load_profile(&cfg, None, &repo_info, &vec![false, false, true])
        .unwrap()
        .is_none());
    assert!(load_profile(&cfg, None, &repo_info, &vec![true, true, false]).is_err());
}

#[test]
fn profile_table_insert_and_get() {
    let mut cfg = Profiles::new();
    assert_eq!(cfg.len(), 0);
    assert!(cfg.get("dev").is_none());
    cfg.insert("dev".to_string(), dev_profile());
    cfg.insert("prod".to_string(), prod_profile());
    assert_eq!(cfg.len(), 2);
    assert_eq!(endpoint_of(cfg.get("dev").unwrap()), Some("xethubdev.com".to_string()));
    cfg.insert("dev".to_string(), custom_profile());
    assert_eq!(cfg.len(), 2);
    assert_eq!(endpoint_of(cfg.get("dev").unwrap()), Some("gitlab.com".to_string()));
    assert_eq!(endpoint_of(cfg.get("prod").unwrap()), Some("xethub.com".to_string()));
    assert_eq!(cfg.position("prod"), Some(1));
    assert_eq!(cfg.name_at(0), "dev");
    assert_eq!(endpoint_of(cfg.profile_at(1)), Some("xethub.com".to_string()));
}

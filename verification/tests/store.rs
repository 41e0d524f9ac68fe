use gitxet::config::{CliOverrides, XetConfig};
use gitxet::errors::ConfigError;
use gitxet::store::{
    check_store_path, creation_error, join_path, path_parent, plan_repo_paths,
    plan_xetblob_paths, PathState, RepoSubdirs, StoreAction, StoreKind,
};

fn subdirs() -> RepoSubdirs {
    RepoSubdirs {
        merkledb: "xet/merkledb.db".to_string(),
        merkledb_v2_cache: "xet/merkledbv2-cache".to_string(),
        merkledb_v2_session: "xet/merkledbv2-session".to_string(),
        summaries: "xet/summaries.db".to_string(),
        staging: "xet/staging".to_string(),
        lazy_config: "xet/lazyconfig".to_string(),
    }
}

fn overrides(m: Option<&str>, c: Option<&str>, s: Option<&str>) -> CliOverrides {
    CliOverrides {
        merkledb: m.map(|x| x.to_string()),
        merkledb_v2_cache: c.map(|x| x.to_string()),
        merkledb_v2_session: s.map(|x| x.to_string()),
        profile: None,
        user_name: None,
        user_token: None,
        user_email: None,
        user_login_id: None,
        disable_version_check: false,
    }
}

fn state(exists: bool, is_file: bool, is_dir: bool, writable: bool) -> PathState {
    PathState { exists, is_file, is_dir, writable }
}

#[test]
fn path_join_and_parent() {
    assert_eq!(join_path("/repo", "xet/a"), "/repo/xet/a");
    assert_eq!(join_path("/repo/", "xet/a"), "/repo/xet/a");
    assert_eq!(join_path("/repo", "/abs"), "/abs");
    assert_eq!(join_path("", "rel"), "rel");
    assert_eq!(path_parent("/repo/xet/merkledb.db"), Some("/repo/xet".to_string()));
    assert_eq!(path_parent("file"), Some("".to_string()));
    assert_eq!(path_parent("/"), None);
    assert_eq!(path_parent(""), None);
}

#[test]
fn repo_paths_default_under_repo() {
    let p = plan_repo_paths("/work/repo", &None, &subdirs());
    assert_eq!(p.merkledb, "/work/repo/xet/merkledb.db");
    assert_eq!(p.merkledb_v2_cache, "/work/repo/xet/merkledbv2-cache");
    assert_eq!(p.merkledb_v2_session, "/work/repo/xet/merkledbv2-session");
    assert_eq!(p.summarydb, "/work/repo/xet/summaries.db");
    assert_eq!(p.staging_path, "/work/repo/xet/staging");
    assert_eq!(p.lazy_config, "/work/repo/xet/lazyconfig");
}

#[test]
fn repo_paths_take_overrides() {
    let o = Some(overrides(Some("merkledb.other"), Some("shard-cache"), Some("shard-session")));
    let p = plan_repo_paths("/work/repo", &o, &subdirs());
    assert_eq!(p.merkledb, "merkledb.other");
    assert_eq!(p.merkledb_v2_cache, "shard-cache");
    assert_eq!(p.merkledb_v2_session, "shard-session");
    assert_eq!(p.summarydb, "/work/repo/xet/summaries.db");
    assert_eq!(p.staging_path, "/work/repo/xet/staging");
    let o = Some(overrides(None, Some("c"), None));
    let p = plan_repo_paths("/r", &o, &subdirs());
    assert_eq!(p.merkledb, "/r/xet/merkledb.db");
    assert_eq!(p.merkledb_v2_cache, "c");
    assert_eq!(p.merkledb_v2_session, "/r/xet/merkledbv2-session");
}

#[test]
fn xetblob_paths() {
    let p = plan_xetblob_paths("/blob", &None, &subdirs());
    assert_eq!(p.merkledb_v2_cache, "/blob/xet/merkledbv2-cache");
    assert_eq!(p.merkledb_v2_session, "/blob/xet/merkledbv2-session");
    assert_eq!(p.summarydb, "/blob/xet/summaries.db");
    let o = Some(overrides(Some("ignored"), None, Some("sess")));
    let p = plan_xetblob_paths("/blob", &o, &subdirs());
    assert_eq!(p.merkledb_v2_cache, "/blob/xet/merkledbv2-cache");
    assert_eq!(p.merkledb_v2_session, "sess");
}

#[test]
fn file_store_checks() {
    match check_store_path("/r/xet/m.db", StoreKind::MerkleDb, state(false, false, false, false)) {
        Ok(StoreAction::CreateDirAll(d)) => assert_eq!(d, "/r/xet"),
        other => panic!("unexpected {other:?}"),
    }
    assert!(matches!(
        check_store_path("", StoreKind::MerkleDb, state(false, false, false, false)),
        Err(ConfigError::InvalidMerkleDBParent(_))
    ));
    assert!(matches!(
        check_store_path("/r/m", StoreKind::MerkleDb, state(true, false, true, true)),
        Err(ConfigError::MerkleDBNotFile(_))
    ));
    assert!(matches!(
        check_store_path("/r/m", StoreKind::MerkleDb, state(true, true, false, false)),
        Err(ConfigError::MerkleDBReadOnly(_))
    ));
    assert!(matches!(
        check_store_path("/r/m", StoreKind::MerkleDb, state(true, true, false, true)),
        Ok(StoreAction::Use)
    ));
    assert!(matches!(
        check_store_path("/", StoreKind::SummaryDb, state(false, false, false, false)),
        Err(ConfigError::InvalidSummaryDBParent(_))
    ));
    assert!(matches!(
        check_store_path("/r/s", StoreKind::SummaryDb, state(true, false, true, true)),
        Err(ConfigError::SummaryDBNotFile(_))
    ));
    assert!(matches!(
        check_store_path("/r/s", StoreKind::SummaryDb, state(true, true, false, false)),
        Err(ConfigError::SummaryDBReadOnly(_))
    ));
}

#[test]
fn dir_store_checks() {
    for kind in [StoreKind::MerkleDbV2Cache, StoreKind::MerkleDbV2Session] {
        match check_store_path("/r/c", kind, state(false, false, false, false)) {
            Ok(StoreAction::CreateDirAll(d)) => assert_eq!(d, "/r/c"),
            other => panic!("unexpected {other:?}"),
        }
        assert!(matches!(
            check_store_path("/r/c", kind, state(true, true, false, true)),
            Err(ConfigError::MerkleDBNotDir(_))
        ));
        assert!(matches!(
            check_store_path("/r/c", kind, state(true, false, true, false)),
            Err(ConfigError::MerkleDBReadOnly(_))
        ));
        assert!(matches!(
            check_store_path("/r/c", kind, state(true, false, true, true)),
            Ok(StoreAction::Use)
        ));
    }
    assert!(matches!(
        check_store_path("/r/st", StoreKind::Staging, state(true, true, false, true)),
        Err(ConfigError::StagingPathNotDir(_))
    ));
    assert!(matches!(
        check_store_path("/r/st", StoreKind::Staging, state(true, false, true, false)),
        Ok(StoreAction::Use)
    ));
}

#[test]
fn creation_errors() {
    assert!(matches!(
        creation_error("/r/m", StoreKind::MerkleDb, "denied"),
        ConfigError::InvalidMerkleDBParent(p) if p == "/r/m"
    ));
    assert!(matches!(
        creation_error("/r/c", StoreKind::MerkleDbV2Cache, "denied"),
        ConfigError::Io(e) if e == "denied"
    ));
    assert!(matches!(
        creation_error("/r/st", StoreKind::Staging, "denied"),
        ConfigError::StagingDirNotCreated(p, e) if p == "/r/st" && e == "denied"
    ));
}

#[test]
fn config_takes_paths() {
    let p = plan_repo_paths("/r", &None, &subdirs());
    let c = XetConfig::empty().with_repo_paths(p);
    assert_eq!(c.merkledb, "/r/xet/merkledb.db");
    assert_eq!(c.staging_path.as_deref(), Some("/r/xet/staging"));
    assert!(c.lazy_config.is_none());
    let c = c.try_with_lazy_config("/r/xet/lazyconfig".to_string(), true).unwrap();
    assert_eq!(c.lazy_config.as_deref(), Some("/r/xet/lazyconfig"));
    let c = c.try_with_lazy_config("/r/xet/lazyconfig".to_string(), false).unwrap();
    assert!(c.lazy_config.is_none());
    let b = plan_xetblob_paths("/b", &None, &subdirs());
    let c = c.with_xetblob_paths(b);
    assert_eq!(c.merkledb, "/r/xet/merkledb.db");
    assert_eq!(c.summarydb, "/b/xet/summaries.db");
}

#[test]
fn empty_config_paths() {
    let c = XetConfig::empty();
    assert_eq!(c.merkledb, "");
    assert_eq!(c.merkledb_v2_cache, "");
    assert_eq!(c.merkledb_v2_session, "");
    assert_eq!(c.summarydb, "");
    assert!(c.staging_path.is_none());
    assert!(c.lazy_config.is_none());
}

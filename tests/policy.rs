use aiolibsql::config::{is_remote_path, plan_open, OpenOptions, OpenPlan};
use aiolibsql::error::DriverError;
use aiolibsql::policy::{
    determine_autocommit, is_dml_folded, resolve_autocommit, should_begin, starts_with,
    stmt_is_dml, AutocommitMode, LEGACY_TRANSACTION_CONTROL,
};

#[test]
fn autocommit_flag_round_trip() {
    assert_eq!(AutocommitMode::from_flag(LEGACY_TRANSACTION_CONTROL), AutocommitMode::Legacy);
    assert_eq!(AutocommitMode::from_flag(0), AutocommitMode::Off);
    assert_eq!(AutocommitMode::from_flag(1), AutocommitMode::On);
    assert_eq!(AutocommitMode::from_flag(7), AutocommitMode::On);
    assert_eq!(AutocommitMode::Legacy.flag(), -1);
    assert_eq!(AutocommitMode::Off.flag(), 0);
    assert_eq!(AutocommitMode::On.flag(), 1);
}

#[test]
fn legacy_mode_follows_isolation_level() {
    let deferred = Some("DEFERRED".to_string());
    assert!(!determine_autocommit(AutocommitMode::Legacy, &deferred));
    assert!(determine_autocommit(AutocommitMode::Legacy, &None));
    assert!(determine_autocommit(AutocommitMode::On, &deferred));
    assert!(!determine_autocommit(AutocommitMode::Off, &None));
    assert_eq!(resolve_autocommit(AutocommitMode::Legacy, &deferred), AutocommitMode::Off);
    assert_eq!(resolve_autocommit(AutocommitMode::Legacy, &None), AutocommitMode::On);
    assert_eq!(resolve_autocommit(AutocommitMode::Off, &None), AutocommitMode::Off);
}

#[test]
fn dml_classification_trims_and_folds_case() {
    assert!(stmt_is_dml("INSERT INTO t VALUES (1)"));
    assert!(stmt_is_dml("   insert into t values (1)"));
    assert!(stmt_is_dml("\n\tUpdate t SET v = 1"));
    assert!(stmt_is_dml("delete from t"));
    assert!(stmt_is_dml("replace into t values (1)"));
    assert!(!stmt_is_dml("SELECT * FROM t"));
    assert!(!stmt_is_dml("CREATE TABLE t(id INTEGER)"));
    assert!(!stmt_is_dml(""));
    assert!(!stmt_is_dml("   "));
    assert!(!stmt_is_dml("-- insert\nSELECT 1"));
}

#[test]
fn dml_classification_of_folded_text() {
    assert!(is_dml_folded("INSERT"));
    assert!(is_dml_folded("REPLACE INTO"));
    assert!(!is_dml_folded("insert"));
    assert!(!is_dml_folded(" INSERT"));
    assert!(!is_dml_folded("INSER"));
}

#[test]
fn prefix_test() {
    assert!(starts_with("abc", ""));
    assert!(starts_with("abc", "ab"));
    assert!(starts_with("abc", "abc"));
    assert!(!starts_with("abc", "abcd"));
    assert!(!starts_with("abc", "b"));
}

#[test]
fn begin_only_for_dml_outside_a_transaction() {
    assert!(should_begin(false, true, true));
    assert!(!should_begin(false, true, false));
    assert!(!should_begin(true, true, true));
    assert!(!should_begin(false, false, true));
}

#[test]
fn remote_locations() {
    assert!(is_remote_path("libsql://db.example.com"));
    assert!(is_remote_path("http://localhost:8080"));
    assert!(is_remote_path("https://db.example.com"));
    assert!(!is_remote_path("local.db"));
    assert!(!is_remote_path(":memory:"));
    assert!(!is_remote_path("file:libsql://x"));
}

fn options(database: &str) -> OpenOptions {
    OpenOptions {
        database: database.to_string(),
        sync_url: None,
        offline: false,
        auth_token: None,
        encryption_key: None,
    }
}

#[test]
fn open_plan_remote_ignores_sync_and_key() {
    let mut o = options("https://db.example.com");
    o.sync_url = Some("https://other".to_string());
    o.encryption_key = Some("k".to_string());
    o.auth_token = Some("SECRET-REDACTED".to_string());
    assert_eq!(
        plan_open(&o),
        Ok(OpenPlan::Remote {
            url: "https://db.example.com".to_string(),
            auth_token: "SECRET-REDACTED".to_string()
        })
    );
}

#[test]
fn open_plan_synced() {
    let mut o = options("replica.db");
    o.sync_url = Some("libsql://primary".to_string());
    o.offline = true;
    assert_eq!(
        plan_open(&o),
        Ok(OpenPlan::Synced {
            path: "replica.db".to_string(),
            sync_url: "libsql://primary".to_string(),
            auth_token: String::new(),
            remote_writes: false
        })
    );
}

#[test]
fn open_plan_synced_refuses_encryption() {
    let mut o = options("replica.db");
    o.sync_url = Some("libsql://primary".to_string());
    o.encryption_key = Some("k".to_string());
    let r = plan_open(&o);
    assert_eq!(
        r,
        Err(DriverError::Configuration(
            "encryption is not supported for synced databases".to_string()
        ))
    );
}

#[test]
fn open_plan_local() {
    let mut o = options("local.db");
    assert_eq!(
        plan_open(&o),
        Ok(OpenPlan::Local { path: "local.db".to_string(), encryption_key: None })
    );
    o.encryption_key = Some("k".to_string());
    assert_eq!(
        plan_open(&o),
        Ok(OpenPlan::Local { path: "local.db".to_string(), encryption_key: Some("k".to_string()) })
    );
}

#[test]
fn error_messages() {
    assert_eq!(DriverError::ConnectionClosed.message(), "Connection closed");
    assert_eq!(DriverError::Engine("no such table: t".to_string()).message(), "no such table: t");
    assert_eq!(DriverError::ParameterType("bad".to_string()).message(), "bad");
}

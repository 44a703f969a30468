use mtxcli::migrations::{run_migrations, MigrationApi, V0_5_0, V0_6_0};
use mtxcli::session::Mtxcli;

fn fresh(version: &'static str) -> Mtxcli {
    Mtxcli::new("io", "example", "mtxcli", version)
}

#[test]
fn absent_version_runs_both_migrations_in_order() {
    let mut m = fresh("0.6.0");
    m.restore("_filter", "stale-filter");
    run_migrations(&mut m);
    // the filter migration dropped the stored filter
    assert_eq!(m.get("_filter"), None);
    // and the stamp ends at the application's current version, regardless
    // of which migration reported a change
    assert_eq!(m.get("_version").as_deref(), Some("0.6.0"));
}

#[test]
fn up_to_date_store_is_untouched() {
    let mut m = fresh("0.6.0");
    m.restore("_version", "0.6.0");
    m.restore("_filter", "keep-me");
    run_migrations(&mut m);
    assert_eq!(m.get("_filter").as_deref(), Some("keep-me"));
    assert_eq!(m.get("_version").as_deref(), Some("0.6.0"));
}

#[test]
fn second_run_changes_nothing_more() {
    let mut m = fresh("0.6.0");
    m.restore("_filter", "old");
    run_migrations(&mut m);
    let before = {
        let mut p = m.store.pairs();
        p.sort();
        p
    };
    run_migrations(&mut m);
    let after = {
        let mut p = m.store.pairs();
        p.sort();
        p
    };
    assert_eq!(before, after);
}

#[test]
fn stamp_advances_even_when_no_migration_matches() {
    let mut m = fresh("0.8.0");
    m.restore("_version", "0.7.0");
    m.restore("_filter", "keep-me");
    run_migrations(&mut m);
    // neither migration applies above its target, but the stamp still moves
    assert_eq!(m.get("_version").as_deref(), Some("0.8.0"));
    assert_eq!(m.get("_filter").as_deref(), Some("keep-me"));
}

#[test]
fn intermediate_version_runs_only_the_later_migration() {
    let mut m = fresh("0.6.0");
    m.restore("_version", "0.5.5");
    m.restore("_filter", "old");
    run_migrations(&mut m);
    assert_eq!(m.get("_filter"), None);
    assert_eq!(m.get("_version").as_deref(), Some("0.6.0"));
}

#[test]
fn migration_versions_and_applicability() {
    let a = V0_5_0::new();
    assert_eq!(a.version(), "0.5.0");
    assert!(a.applies("0"));
    assert!(a.applies("0.4.9"));
    assert!(!a.applies("0.5.0"));
    assert!(!a.applies("0.6.0"));
    let b = V0_6_0::new();
    assert_eq!(b.version(), "0.6.0");
    assert!(b.applies("0.5.0"));
    assert!(!b.applies("0.6.0"));
}

#[test]
fn version_order_is_plain_text_not_semantic() {
    // the stamp compares as text: a two-digit component sorts before a
    // one-digit one, so "0.10.0" counts as below "0.6.0"
    let b = V0_6_0::new();
    assert!(b.applies("0.10.0"));
}

#[test]
fn migration_processes_report_as_documented() {
    let mut m = fresh("0.6.0");
    m.restore("_filter", "old");
    assert_eq!(V0_5_0::new().process(&mut m), Ok(false));
    assert_eq!(m.get("_filter").as_deref(), Some("old"));
    assert_eq!(V0_6_0::new().process(&mut m), Ok(true));
    assert_eq!(m.get("_filter"), None);
}

use mtxcli::session::Mtxcli;

fn fresh() -> Mtxcli {
    Mtxcli::new("io", "example", "mtxcli", "0.6.0")
}

#[test]
fn set_user_with_full_identity() {
    let mut m = fresh();
    m.set("user", "@alice:example.org").unwrap();
    assert_eq!(m.user, "@alice:example.org");
    assert_eq!(m.username, "alice");
    assert_eq!(m.server, "https://example.org");
    // the derived facts are persisted
    assert_eq!(m.get("username").as_deref(), Some("alice"));
    assert_eq!(m.get("server").as_deref(), Some("https://example.org"));
    // the credential is cleared, in memory and in the store
    assert_eq!(m.token, "");
    assert_eq!(m.get("_token"), None);
}

#[test]
fn set_user_clears_a_cached_token() {
    let mut m = fresh();
    m.set("_token", "stale").unwrap();
    m.token = "stale".to_string();
    m.set("user", "@alice:example.org").unwrap();
    assert_eq!(m.token, "");
    assert_eq!(m.get("_token"), None);
}

#[test]
fn set_user_with_bare_name() {
    let mut m = fresh();
    m.set("user", "bob").unwrap();
    assert_eq!(m.username, "bob");
    assert_eq!(m.server, "https://matrix.org");
    assert_eq!(m.token, "");
}

#[test]
fn set_user_with_at_but_no_colon() {
    let mut m = fresh();
    m.set("user", "@carol").unwrap();
    assert_eq!(m.username, "carol");
    assert_eq!(m.server, "https://matrix.org");
}

#[test]
fn set_user_with_colon_but_no_at() {
    let mut m = fresh();
    m.set("user", "dan:example.net").unwrap();
    assert_eq!(m.username, "dan");
    assert_eq!(m.server, "https://example.net");
}

#[test]
fn set_password_forces_relogin() {
    let mut m = fresh();
    m.set("_token", "valid").unwrap();
    m.set("password", "new-secret").unwrap();
    assert_eq!(m.get("_token"), None);
    assert_eq!(m.get("password").as_deref(), Some("new-secret"));
}

#[test]
fn set_room_clears_everything_scoped_to_the_room() {
    let mut m = fresh();
    m.set("_room_id", "!old:example.org").unwrap();
    m.set("_since", "cursor9").unwrap();
    m.set("_filter", "42").unwrap();
    m.room_id = "!old:example.org".to_string();
    m.since = "cursor9".to_string();
    m.filter = "42".to_string();
    m.set("room", "lobby").unwrap();
    assert_eq!(m.get("_room_id"), None);
    assert_eq!(m.get("_since"), None);
    assert_eq!(m.get("_filter"), None);
    assert_eq!(m.room_id, "");
    assert_eq!(m.since, "");
    assert_eq!(m.filter, "");
    assert_eq!(m.get("room").as_deref(), Some("lobby"));
}

#[test]
fn logout_clears_credential_and_flag() {
    let mut m = fresh();
    m.set("_token", "t").unwrap();
    m.token = "t".to_string();
    m.logged_in = true;
    m.logout();
    assert_eq!(m.get("_token"), None);
    assert_eq!(m.token, "");
    assert!(!m.logged_in);
}

#[test]
fn hydrate_reads_the_session_facts_back() {
    let mut m = fresh();
    m.restore("user", "@alice:example.org");
    m.restore("username", "alice");
    m.restore("server", "https://example.org");
    m.restore("_room_id", "!r:example.org");
    m.restore("_filter", "7");
    m.restore("_since", "s19");
    m.hydrate();
    assert_eq!(m.user, "@alice:example.org");
    assert_eq!(m.username, "alice");
    assert_eq!(m.server, "https://example.org");
    assert_eq!(m.room_id, "!r:example.org");
    assert_eq!(m.filter, "7");
    assert_eq!(m.since, "s19");
}

#[test]
fn hydrate_defaults_on_an_empty_store() {
    let mut m = fresh();
    m.hydrate();
    assert_eq!(m.user, "");
    assert_eq!(m.username, "username");
    assert_eq!(m.server, "https://matrix.org");
    assert_eq!(m.room_id, "");
    assert_eq!(m.filter, "");
    assert_eq!(m.since, "");
}

#[test]
fn new_session_starts_logged_out() {
    let m = fresh();
    assert!(!m.logged_in);
    assert_eq!(m.username, "user");
    assert_eq!(m.server, "https://matrix.org");
    assert_eq!(m.room_id, "");
    assert_eq!(m.filter, "");
    assert_eq!(m.since, "");
    assert_eq!(m.version, "0.6.0");
}

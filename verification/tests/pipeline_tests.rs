use mtxcli::pipeline::{Outcome, ProtocolCall, Reply, Step, SyncUpdate};
use mtxcli::session::Mtxcli;

fn fresh() -> Mtxcli {
    Mtxcli::new("io", "example", "mtxcli", "0.6.0")
}

fn configured() -> Mtxcli {
    let mut m = fresh();
    m.set("user", "@alice:example.org").unwrap();
    m.set("password", "hunter2").unwrap();
    m.set("room", "lobby").unwrap();
    m
}

fn resolved() -> Mtxcli {
    let mut m = configured();
    m.logged_in = true;
    m.token = "tok".to_string();
    m.room_id = "!lobby:example.org".to_string();
    m.filter = "7".to_string();
    m
}

fn synced(since: &str, messages: &str) -> Reply {
    Reply::Synced(Some(SyncUpdate { since: since.to_string(), messages: messages.to_string() }))
}

#[test]
fn fresh_poll_performs_exactly_the_resolution_calls() {
    let mut m = configured();
    let mut calls: Vec<&'static str> = Vec::new();
    let (flow, step) = m.user_says("");
    let step = match step {
        Step::Call(ProtocolCall::CheckLoginTypes { server }) => {
            assert_eq!(server, "https://example.org");
            calls.push("types");
            m.step(flow, Reply::Flag(true))
        },
        other => panic!("expected a login-types call, got {:?}", name_of(&other)),
    };
    let (flow, step) = step;
    let step = match step {
        Step::Call(ProtocolCall::Authenticate { server, user, password }) => {
            assert_eq!(server, "https://example.org");
            assert_eq!(user, "@alice:example.org");
            assert_eq!(password, "hunter2");
            calls.push("auth");
            m.step(flow, Reply::Token(Some("tok".to_string())))
        },
        other => panic!("expected an authenticate call, got {:?}", name_of(&other)),
    };
    let (flow, step) = step;
    let step = match step {
        Step::Call(ProtocolCall::ResolveRoom { alias, .. }) => {
            assert_eq!(alias, "#lobby:example.org");
            calls.push("resolve");
            m.step(flow, Reply::Id(Some("!lobby:example.org".to_string())))
        },
        other => panic!("expected a room-resolution call, got {:?}", name_of(&other)),
    };
    let (flow, step) = step;
    let step = match step {
        Step::Call(ProtocolCall::CreateFilter { user, room_id, .. }) => {
            assert_eq!(user, "@alice:example.org");
            assert_eq!(room_id, "!lobby:example.org");
            calls.push("filter");
            m.step(flow, Reply::Id(Some("7".to_string())))
        },
        other => panic!("expected a filter-creation call, got {:?}", name_of(&other)),
    };
    let (flow, step) = step;
    let step = match step {
        Step::Call(ProtocolCall::Sync { since, timeout, .. }) => {
            assert_eq!(since, "");
            assert_eq!(timeout, 300);
            calls.push("sync");
            m.step(flow, synced("s1", ""))
        },
        other => panic!("expected a sync call, got {:?}", name_of(&other)),
    };
    let (_, step) = step;
    assert!(matches!(step, Step::Done(Outcome::Idle)));
    assert_eq!(calls, vec!["types", "auth", "resolve", "filter", "sync"]);
    // the flow committed its facts
    assert!(m.logged_in);
    assert_eq!(m.get("_token").as_deref(), Some("tok"));
    assert_eq!(m.get("_room_id").as_deref(), Some("!lobby:example.org"));
    assert_eq!(m.get("_filter").as_deref(), Some("7"));
    assert_eq!(m.get("_since").as_deref(), Some("s1"));
}

fn name_of(s: &Step) -> &'static str {
    match s {
        Step::Call(ProtocolCall::CheckLoginTypes { .. }) => "types",
        Step::Call(ProtocolCall::Whoami { .. }) => "whoami",
        Step::Call(ProtocolCall::Authenticate { .. }) => "auth",
        Step::Call(ProtocolCall::ResolveRoom { .. }) => "resolve",
        Step::Call(ProtocolCall::CreateFilter { .. }) => "filter",
        Step::Call(ProtocolCall::Sync { .. }) => "sync",
        Step::Call(ProtocolCall::Send { .. }) => "send",
        Step::Done(_) => "done",
    }
}

#[test]
fn resolved_send_performs_sync_send_sync() {
    let mut m = resolved();
    let mut calls: Vec<&'static str> = Vec::new();
    let (mut flow, mut step) = m.user_says("hello");
    loop {
        match step {
            Step::Call(ref c) => {
                let reply = match c {
                    ProtocolCall::Sync { .. } => {
                        calls.push("sync");
                        synced("s2", "")
                    },
                    ProtocolCall::Send { text, .. } => {
                        assert_eq!(text, "hello");
                        calls.push("send");
                        Reply::Flag(true)
                    },
                    _ => panic!("unexpected call in a resolved session"),
                };
                let next = m.step(flow, reply);
                flow = next.0;
                step = next.1;
            },
            Step::Done(o) => {
                assert_eq!(o, Outcome::Sent);
                break;
            },
        }
    }
    assert_eq!(calls, vec!["sync", "send", "sync"]);
    assert_eq!(m.get("_since").as_deref(), Some("s2"));
}

#[test]
fn failed_send_surfaces_and_is_not_retried() {
    let mut m = resolved();
    let (flow, step) = m.user_says("hello");
    assert!(matches!(step, Step::Call(ProtocolCall::Sync { .. })));
    let (flow, step) = m.step(flow, synced("s5", ""));
    assert!(matches!(step, Step::Call(ProtocolCall::Send { .. })));
    let (_, step) = m.step(flow, Reply::Flag(false));
    // the engine reports the failure so the line is rendered locally
    assert!(matches!(step, Step::Done(Outcome::SendFailed)));
    // the cursor still stands where the sync left it
    assert_eq!(m.get("_since").as_deref(), Some("s5"));
    // the next line does not resend the failed text: the send carries the
    // new line only
    let (flow, step) = m.user_says("next");
    assert!(matches!(step, Step::Call(ProtocolCall::Sync { .. })));
    let (_, step) = m.step(flow, synced("s6", ""));
    match step {
        Step::Call(ProtocolCall::Send { text, .. }) => assert_eq!(text, "next"),
        _ => panic!("expected the new line to be sent"),
    }
}

#[test]
fn empty_poll_on_resolved_session_syncs_once_and_sends_nothing() {
    let mut m = resolved();
    let (flow, step) = m.user_says("");
    assert!(matches!(step, Step::Call(ProtocolCall::Sync { .. })));
    let (_, step) = m.step(flow, synced("s3", "alice> hi\n"));
    assert!(matches!(step, Step::Done(Outcome::Idle)));
    assert_eq!(m.since, "s3");
}

#[test]
fn failed_sync_does_not_advance_the_cursor() {
    let mut m = resolved();
    m.since = "s1".to_string();
    m.restore("_since", "s1");
    let (flow, step) = m.user_says("");
    assert!(matches!(step, Step::Call(ProtocolCall::Sync { .. })));
    let (_, step) = m.step(flow, Reply::Synced(None));
    assert!(matches!(step, Step::Done(Outcome::Idle)));
    assert_eq!(m.since, "s1");
    assert_eq!(m.get("_since").as_deref(), Some("s1"));
}

#[test]
fn login_command_verifies_a_cached_token() {
    let mut m = configured();
    m.set("_token", "cached").unwrap();
    let (flow, step) = m.login();
    match step {
        Step::Call(ProtocolCall::Whoami { token, .. }) => assert_eq!(token, "cached"),
        _ => panic!("expected a credential check"),
    }
    let (_, step) = m.step(flow, Reply::Flag(true));
    assert!(matches!(step, Step::Done(Outcome::LoggedIn)));
    assert!(m.logged_in);
}

#[test]
fn stale_token_falls_back_to_password_login() {
    let mut m = configured();
    m.set("_token", "stale").unwrap();
    let (flow, step) = m.login();
    assert!(matches!(step, Step::Call(ProtocolCall::Whoami { .. })));
    let (flow, step) = m.step(flow, Reply::Flag(false));
    assert!(matches!(step, Step::Call(ProtocolCall::CheckLoginTypes { .. })));
    let (flow, step) = m.step(flow, Reply::Flag(true));
    assert!(matches!(step, Step::Call(ProtocolCall::Authenticate { .. })));
    let (_, step) = m.step(flow, Reply::Token(Some("new".to_string())));
    assert!(matches!(step, Step::Done(Outcome::LoggedIn)));
    assert_eq!(m.get("_token").as_deref(), Some("new"));
}

#[test]
fn missing_password_blocks_login_without_side_effects() {
    let mut m = fresh();
    m.set("user", "@alice:example.org").unwrap();
    let (flow, step) = m.user_says("");
    assert!(matches!(step, Step::Call(ProtocolCall::CheckLoginTypes { .. })));
    let (_, step) = m.step(flow, Reply::Flag(true));
    assert!(matches!(step, Step::Done(Outcome::MissingCredentials)));
    assert!(!m.logged_in);
    assert_eq!(m.get("_token"), None);
}

#[test]
fn unsupported_login_type_fails_the_flow() {
    let mut m = configured();
    let (flow, step) = m.user_says("");
    assert!(matches!(step, Step::Call(ProtocolCall::CheckLoginTypes { .. })));
    let (_, step) = m.step(flow, Reply::Flag(false));
    assert!(matches!(step, Step::Done(Outcome::LoginUnsupported)));
    assert!(!m.logged_in);
}

#[test]
fn rejected_credentials_fail_the_flow() {
    let mut m = configured();
    let (flow, step) = m.user_says("");
    let (flow, step2) = m.step(flow, Reply::Flag(true));
    assert!(matches!(step, Step::Call(ProtocolCall::CheckLoginTypes { .. })));
    assert!(matches!(step2, Step::Call(ProtocolCall::Authenticate { .. })));
    let (_, step3) = m.step(flow, Reply::Token(None));
    assert!(matches!(step3, Step::Done(Outcome::LoginRejected)));
    assert!(!m.logged_in);
    assert_eq!(m.get("_token"), None);
}

#[test]
fn missing_room_configuration_blocks_the_room_stage() {
    let mut m = fresh();
    m.logged_in = true;
    let (_, step) = m.user_says("");
    assert!(matches!(step, Step::Done(Outcome::RoomUnset)));
}

#[test]
fn server_without_secure_scheme_is_invalid() {
    let mut m = fresh();
    m.logged_in = true;
    m.set("room", "lobby").unwrap();
    m.set("server", "example.org").unwrap();
    let (_, step) = m.user_says("");
    assert!(matches!(step, Step::Done(Outcome::ServerInvalid)));
}

#[test]
fn room_alias_keeps_an_existing_sigil() {
    let mut m = fresh();
    m.logged_in = true;
    m.set("room", "#already:ignored").unwrap();
    m.set("server", "https://example.org").unwrap();
    let (_, step) = m.user_says("");
    match step {
        Step::Call(ProtocolCall::ResolveRoom { alias, .. }) => {
            assert_eq!(alias, "#already:ignored:example.org");
        },
        _ => panic!("expected a room-resolution call"),
    }
}

#[test]
fn unresolved_room_aborts_without_state_change() {
    let mut m = fresh();
    m.logged_in = true;
    m.set("room", "lobby").unwrap();
    m.set("server", "https://example.org").unwrap();
    let (flow, step) = m.user_says("");
    assert!(matches!(step, Step::Call(ProtocolCall::ResolveRoom { .. })));
    let (_, step) = m.step(flow, Reply::Id(None));
    assert!(matches!(step, Step::Done(Outcome::RoomUnresolved)));
    assert_eq!(m.room_id, "");
    assert_eq!(m.get("_room_id"), None);
}

#[test]
fn failed_filter_creation_aborts_without_state_change() {
    let mut m = resolved();
    m.filter = String::new();
    let (flow, step) = m.user_says("");
    assert!(matches!(step, Step::Call(ProtocolCall::CreateFilter { .. })));
    let (_, step) = m.step(flow, Reply::Id(None));
    assert!(matches!(step, Step::Done(Outcome::FilterFailed)));
    assert_eq!(m.filter, "");
    assert_eq!(m.get("_filter"), None);
}

#[test]
fn cached_room_and_filter_short_circuit() {
    let mut m = resolved();
    // nothing below the sync stage is consulted: the first step is the sync
    let (_, step) = m.user_says("");
    assert!(matches!(step, Step::Call(ProtocolCall::Sync { .. })));
}

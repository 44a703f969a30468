use mtxcli::shell::{find_command, tokenize, CmdId, Get, Help, Login, Logout, Quit, SetCmd, Status, Unset};
use mtxcli::system::{config_dir, Platform, System};

#[test]
fn tokenize_splits_verb_and_rest() {
    let mut line = "set user @alice:example.org".to_string();
    let verb = tokenize(&mut line);
    assert_eq!(verb.as_deref(), Some("set"));
    assert_eq!(line, "user @alice:example.org");
}

#[test]
fn tokenize_consumes_repeated_separators() {
    let mut line = "get   key".to_string();
    let verb = tokenize(&mut line);
    assert_eq!(verb.as_deref(), Some("get"));
    assert_eq!(line, "key");
}

#[test]
fn tokenize_keeps_spaces_inside_the_rest() {
    let mut line = "say hello there  friend".to_string();
    let verb = tokenize(&mut line);
    assert_eq!(verb.as_deref(), Some("say"));
    assert_eq!(line, "hello there  friend");
}

#[test]
fn tokenize_without_space_takes_the_whole_line() {
    let mut line = "quit".to_string();
    let verb = tokenize(&mut line);
    assert_eq!(verb.as_deref(), Some("quit"));
    assert_eq!(line, "");
}

#[test]
fn tokenize_of_empty_or_leading_space_gives_no_verb() {
    let mut line = String::new();
    assert_eq!(tokenize(&mut line), None);
    assert_eq!(line, "");
    let mut line = "  hi".to_string();
    assert_eq!(tokenize(&mut line), None);
    assert_eq!(line, "hi");
}

#[test]
fn the_verb_table_knows_every_command() {
    assert_eq!(find_command("get"), Some(CmdId::Get));
    assert_eq!(find_command("help"), Some(CmdId::Help));
    assert_eq!(find_command("login"), Some(CmdId::Login));
    assert_eq!(find_command("logout"), Some(CmdId::Logout));
    assert_eq!(find_command("quit"), Some(CmdId::Quit));
    assert_eq!(find_command("set"), Some(CmdId::SetCmd));
    assert_eq!(find_command("status"), Some(CmdId::Status));
    assert_eq!(find_command("unset"), Some(CmdId::Unset));
    assert_eq!(find_command("frobnicate"), None);
    assert_eq!(find_command(""), None);
}

#[test]
fn commands_match_their_own_verb_only() {
    assert!(Get::new().matches("get"));
    assert!(!Get::new().matches("set"));
    assert!(Help::new().matches("help"));
    assert!(Login::new().matches("login"));
    assert!(Logout::new().matches("logout"));
    assert!(Quit::new().matches("quit"));
    assert!(SetCmd::new().matches("set"));
    assert!(Status::new().matches("status"));
    assert!(Unset::new().matches("unset"));
}

#[test]
fn command_help_lines() {
    assert_eq!(Get::new().help(), "/get key");
    assert_eq!(Help::new().help(), "/help [cmd]");
    assert_eq!(Login::new().help(), "/login");
    assert_eq!(Logout::new().help(), "/logout");
    assert_eq!(Quit::new().help(), "/quit");
    assert_eq!(SetCmd::new().help(), "/set key value");
    assert_eq!(Status::new().help(), "/status");
    assert_eq!(Unset::new().help(), "/unset key");
    assert_eq!(Get::new().verb(), "get");
    assert_eq!(SetCmd::new().verb(), "set");
}

#[test]
fn config_dir_per_platform() {
    assert_eq!(
        config_dir("/home/alice", "io", "example", "mtxcli", Platform::Linux),
        "/home/alice/.config/mtxcli"
    );
    assert_eq!(
        config_dir("C:\\Users\\alice", "io", "example", "mtxcli", Platform::Windows),
        "C:\\Users\\alice\\AppData\\Roaming\\example\\mtxcli"
    );
    assert_eq!(
        config_dir("/Users/alice", "io", "example", "mtxcli", Platform::Macos),
        "/Users/alice/Library/Preferences/io.example.mtxcli"
    );
    assert_eq!(config_dir("/root", "io", "example", "mtxcli", Platform::Unknown), "/root");
}

#[test]
fn system_facts_follow_the_platform() {
    let s = System::new("io", "example", "mtxcli", "/home/alice", Platform::Linux);
    assert_eq!(s.target_os, "linux");
    assert!(s.linux && !s.windows && !s.macos && !s.unknown);
    assert_eq!(s.eol, "\n");
    assert_eq!(s.config_dir, "/home/alice/.config/mtxcli");
    let w = System::new("io", "example", "mtxcli", "C:\\Users\\a", Platform::Windows);
    assert_eq!(w.eol, "\r\n");
    assert_eq!(w.target_os, "windows");
}

#[test]
fn unix2dos_rewrites_each_newline() {
    let s = System::new("io", "example", "mtxcli", "/h", Platform::Windows);
    let mut text = "one\ntwo\nthree".to_string();
    s.unix2dos(&mut text);
    assert_eq!(text, "one\r\ntwo\r\nthree");
    // a sequence already carrying a carriage return gains another one,
    // exactly as a plain textual replacement does
    let mut text = "a\r\nb".to_string();
    s.unix2dos(&mut text);
    assert_eq!(text, "a\r\r\nb");
    let mut empty = String::new();
    s.unix2dos(&mut empty);
    assert_eq!(empty, "");
}

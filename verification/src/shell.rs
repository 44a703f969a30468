//! The command line's verb table.
//!
//! A line of input either names a slash-command or is a chat line.  This
//! module owns the tokenizer that splits the leading verb from the rest of
//! the line and the table of known verbs; reading input and wording the
//! responses stays with the surrounding program.

use vstd::prelude::*;

use crate::text;
use crate::text::find_from;

verus! {

/// The leading token of a line: everything before the first space.
pub open spec fn token_of(s: Seq<char>) -> Seq<char> {
    match find_from(s, ' ', 0) {
        Some(i) => s.subrange(0, i),
        None => s,
    }
}

/// The text with any leading spaces removed.
pub open spec fn strip_leading_spaces(s: Seq<char>) -> Seq<char>
    decreases s.len(),
{
    if s.len() == 0 {
        s
    } else if s[0] == ' ' {
        strip_leading_spaces(s.drop_first())
    } else {
        s
    }
}

/// What remains of a line once the leading token and the spaces after it
/// are consumed.
pub open spec fn rest_of(s: Seq<char>) -> Seq<char> {
    match find_from(s, ' ', 0) {
        Some(i) => strip_leading_spaces(s.skip(i + 1)),
        None => Seq::empty(),
    }
}

proof fn lemma_strip_step(s: Seq<char>, k: int)
    requires
        0 <= k < s.len(),
        s[k] == ' ',
    ensures
        strip_leading_spaces(s.skip(k)) == strip_leading_spaces(s.skip(k + 1)),
{
    assert(s.skip(k).len() > 0);
    assert(s.skip(k)[0] == s[k]);
    assert(s.skip(k).drop_first() =~= s.skip(k + 1));
}

/// Splits the leading space-delimited token off the line: the token is
/// returned (or nothing when the line starts with a space or is empty) and
/// the line is left holding the remainder, leading spaces consumed.
pub fn tokenize(line: &mut String) -> (r: Option<String>)
    ensures
        r matches Some(t) ==> t@ == token_of(old(line)@) && t@.len() > 0,
        r is None ==> token_of(old(line)@).len() == 0,
        final(line)@ == rest_of(old(line)@),
{
    let src: String = line.clone();
    let n: usize = src.as_str().unicode_len();
    match text::find_char(src.as_str(), ' ') {
        Some(i) => {
            let token: String = String::from_str(src.as_str().substring_char(0, i));
            let mut k: usize = i + 1;
            while k < n && src.as_str().get_char(k) == ' '
                invariant
                    i + 1 <= k <= n,
                    n == src@.len(),
                    strip_leading_spaces(src@.skip(i + 1)) == strip_leading_spaces(
                        src@.skip(k as int),
                    ),
                decreases n - k,
            {
                proof {
                    lemma_strip_step(src@, k as int);
                }
                k = k + 1;
            }
            proof {
                if k < n {
                    assert(src@.skip(k as int)[0] == src@[k as int]);
                    assert(strip_leading_spaces(src@.skip(k as int)) == src@.skip(k as int));
                } else {
                    assert(src@.skip(k as int).len() == 0);
                }
                assert(src@.skip(k as int) =~= src@.subrange(k as int, n as int));
            }
            let rest: String = String::from_str(src.as_str().substring_char(k, n));
            *line = rest;
            if i == 0 {
                None
            } else {
                Some(token)
            }
        },
        None => {
            *line = String::new();
            if n == 0 {
                None
            } else {
                Some(src)
            }
        },
    }
}

/// The known slash-commands, in the order the shell offers them.
#[derive(Clone, Copy, Debug, PartialEq, Eq, Structural)]
pub enum CmdId {
    Get,
    Help,
    Login,
    Logout,
    Quit,
    SetCmd,
    Status,
    Unset,
}

/// Which command a verb names, if any.
pub open spec fn find_command_spec(v: Seq<char>) -> Option<CmdId> {
    if v == "get"@ {
        Some(CmdId::Get)
    } else if v == "help"@ {
        Some(CmdId::Help)
    } else if v == "login"@ {
        Some(CmdId::Login)
    } else if v == "logout"@ {
        Some(CmdId::Logout)
    } else if v == "quit"@ {
        Some(CmdId::Quit)
    } else if v == "set"@ {
        Some(CmdId::SetCmd)
    } else if v == "status"@ {
        Some(CmdId::Status)
    } else if v == "unset"@ {
        Some(CmdId::Unset)
    } else {
        None
    }
}

/// Looks a verb up in the table.
pub fn find_command(verb: &str) -> (r: Option<CmdId>)
    ensures
        r == find_command_spec(verb@),
{
    if text::str_eq(verb, "get") {
        Some(CmdId::Get)
    } else if text::str_eq(verb, "help") {
        Some(CmdId::Help)
    } else if text::str_eq(verb, "login") {
        Some(CmdId::Login)
    } else if text::str_eq(verb, "logout") {
        Some(CmdId::Logout)
    } else if text::str_eq(verb, "quit") {
        Some(CmdId::Quit)
    } else if text::str_eq(verb, "set") {
        Some(CmdId::SetCmd)
    } else if text::str_eq(verb, "status") {
        Some(CmdId::Status)
    } else if text::str_eq(verb, "unset") {
        Some(CmdId::Unset)
    } else {
        None
    }
}

/// The get command: read one key.
#[derive(Debug)]
pub struct Get {}

impl Get {
    pub fn new() -> (r: Self)
        ensures
            r == (Get {}),
    {
        Get {}
    }

    /// The verb this command answers to.
    pub fn verb(&self) -> (r: String)
        ensures
            r@ == "get"@,
    {
        String::from_str("get")
    }

    /// Whether the given verb names this command.
    pub fn matches(&self, verb: &str) -> (r: bool)
        ensures
            r == (verb@ == "get"@),
    {
        text::str_eq(verb, "get")
    }

    /// One line of usage help.
    pub fn help(&self) -> (r: String)
        ensures
            r@ == "/get key"@,
    {
        String::from_str("/get key")
    }
}

/// The help command: list the commands, or one command's usage.
#[derive(Debug)]
pub struct Help {}

impl Help {
    pub fn new() -> (r: Self)
        ensures
            r == (Help {}),
    {
        Help {}
    }

    pub fn verb(&self) -> (r: String)
        ensures
            r@ == "help"@,
    {
        String::from_str("help")
    }

    pub fn matches(&self, verb: &str) -> (r: bool)
        ensures
            r == (verb@ == "help"@),
    {
        text::str_eq(verb, "help")
    }

    pub fn help(&self) -> (r: String)
        ensures
            r@ == "/help [cmd]"@,
    {
        String::from_str("/help [cmd]")
    }
}

/// The login command: start a login flow.
#[derive(Debug)]
pub struct Login {}

impl Login {
    pub fn new() -> (r: Self)
        ensures
            r == (Login {}),
    {
        Login {}
    }

    pub fn verb(&self) -> (r: String)
        ensures
            r@ == "login"@,
    {
        String::from_str("login")
    }

    pub fn matches(&self, verb: &str) -> (r: bool)
        ensures
            r == (verb@ == "login"@),
    {
        text::str_eq(verb, "login")
    }

    pub fn help(&self) -> (r: String)
        ensures
            r@ == "/login"@,
    {
        String::from_str("/login")
    }
}

/// The logout command: end the session.
#[derive(Debug)]
pub struct Logout {}

impl Logout {
    pub fn new() -> (r: Self)
        ensures
            r == (Logout {}),
    {
        Logout {}
    }

    pub fn verb(&self) -> (r: String)
        ensures
            r@ == "logout"@,
    {
        String::from_str("logout")
    }

    pub fn matches(&self, verb: &str) -> (r: bool)
        ensures
            r == (verb@ == "logout"@),
    {
        text::str_eq(verb, "logout")
    }

    pub fn help(&self) -> (r: String)
        ensures
            r@ == "/logout"@,
    {
        String::from_str("/logout")
    }
}

/// The quit command: leave the shell.
#[derive(Debug)]
pub struct Quit {}

impl Quit {
    pub fn new() -> (r: Self)
        ensures
            r == (Quit {}),
    {
        Quit {}
    }

    pub fn verb(&self) -> (r: String)
        ensures
            r@ == "quit"@,
    {
        String::from_str("quit")
    }

    pub fn matches(&self, verb: &str) -> (r: bool)
        ensures
            r == (verb@ == "quit"@),
    {
        text::str_eq(verb, "quit")
    }

    pub fn help(&self) -> (r: String)
        ensures
            r@ == "/quit"@,
    {
        String::from_str("/quit")
    }
}

/// The set command: write one key.
#[derive(Debug)]
pub struct SetCmd {}

impl SetCmd {
    pub fn new() -> (r: Self)
        ensures
            r == (SetCmd {}),
    {
        SetCmd {}
    }

    pub fn verb(&self) -> (r: String)
        ensures
            r@ == "set"@,
    {
        String::from_str("set")
    }

    pub fn matches(&self, verb: &str) -> (r: bool)
        ensures
            r == (verb@ == "set"@),
    {
        text::str_eq(verb, "set")
    }

    pub fn help(&self) -> (r: String)
        ensures
            r@ == "/set key value"@,
    {
        String::from_str("/set key value")
    }
}

/// The status command: say whether the session is connected and as whom.
#[derive(Debug)]
pub struct Status {}

impl Status {
    pub fn new() -> (r: Self)
        ensures
            r == (Status {}),
    {
        Status {}
    }

    pub fn verb(&self) -> (r: String)
        ensures
            r@ == "status"@,
    {
        String::from_str("status")
    }

    pub fn matches(&self, verb: &str) -> (r: bool)
        ensures
            r == (verb@ == "status"@),
    {
        text::str_eq(verb, "status")
    }

    pub fn help(&self) -> (r: String)
        ensures
            r@ == "/status"@,
    {
        String::from_str("/status")
    }
}

/// The unset command: delete one key.
#[derive(Debug)]
pub struct Unset {}

impl Unset {
    pub fn new() -> (r: Self)
        ensures
            r == (Unset {}),
    {
        Unset {}
    }

    pub fn verb(&self) -> (r: String)
        ensures
            r@ == "unset"@,
    {
        String::from_str("unset")
    }

    pub fn matches(&self, verb: &str) -> (r: bool)
        ensures
            r == (verb@ == "unset"@),
    {
        text::str_eq(verb, "unset")
    }

    pub fn help(&self) -> (r: String)
        ensures
            r@ == "/unset key"@,
    {
        String::from_str("/unset key")
    }
}

} // verus!

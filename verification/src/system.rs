//! Platform facts the engine needs as plain values.
//!
//! The surrounding program supplies the home directory and the platform;
//! this module derives the per-application configuration directory, the
//! line-ending convention, and the line-ending conversion, all of it
//! checked.

use vstd::prelude::*;

verus! {

/// The platforms the configuration layout distinguishes.
#[derive(Clone, Copy, Debug, PartialEq, Eq, Structural)]
pub enum Platform {
    Linux,
    Windows,
    Macos,
    Unknown,
}

/// The per-application configuration directory for a platform, under the
/// given home directory, joined with the platform's separator.
pub open spec fn config_dir_spec(
    home: Seq<char>,
    qualifier: Seq<char>,
    organization: Seq<char>,
    app: Seq<char>,
    p: Platform,
) -> Seq<char> {
    match p {
        Platform::Linux => home + "/.config/"@ + app,
        Platform::Windows => home + "\\AppData\\Roaming\\"@ + organization + "\\"@ + app,
        Platform::Macos => home + "/Library/Preferences/"@ + qualifier + "."@ + organization
            + "."@ + app,
        Platform::Unknown => home,
    }
}

/// The line ending a platform writes.
pub open spec fn eol_spec(p: Platform) -> Seq<char> {
    match p {
        Platform::Windows => "\r\n"@,
        _ => "\n"@,
    }
}

/// The platform's name.
pub open spec fn target_os_spec(p: Platform) -> Seq<char> {
    match p {
        Platform::Linux => "linux"@,
        Platform::Windows => "windows"@,
        Platform::Macos => "macos"@,
        Platform::Unknown => "UNKNOWN"@,
    }
}

/// Derives the configuration directory.
pub fn config_dir(
    home: &str,
    qualifier: &str,
    organization: &str,
    app: &str,
    platform: Platform,
) -> (r: String)
    ensures
        r@ == config_dir_spec(home@, qualifier@, organization@, app@, platform),
{
    let mut path: String = String::from_str(home);
    match platform {
        Platform::Linux => {
            path.append("/.config/");
            path.append(app);
        },
        Platform::Windows => {
            path.append("\\AppData\\Roaming\\");
            path.append(organization);
            path.append("\\");
            path.append(app);
        },
        Platform::Macos => {
            path.append("/Library/Preferences/");
            path.append(qualifier);
            path.append(".");
            path.append(organization);
            path.append(".");
            path.append(app);
        },
        Platform::Unknown => {},
    }
    path
}

/// Platform-specific system information.
#[derive(Debug)]
pub struct System {
    pub target_os: String,
    pub config_dir: String,
    pub linux: bool,
    pub windows: bool,
    pub macos: bool,
    pub unknown: bool,
    pub eol: String,
}

impl System {
    /// Gathers the platform facts; the home directory and the platform are
    /// handed in by the surrounding program.
    pub fn new(
        qualifier: &str,
        organization: &str,
        app: &str,
        home: &str,
        platform: Platform,
    ) -> (r: Self)
        ensures
            r.target_os@ == target_os_spec(platform),
            r.config_dir@ == config_dir_spec(home@, qualifier@, organization@, app@, platform),
            r.linux == (platform == Platform::Linux),
            r.windows == (platform == Platform::Windows),
            r.macos == (platform == Platform::Macos),
            r.unknown == (platform == Platform::Unknown),
            r.eol@ == eol_spec(platform),
    {
        let target_os: String = match platform {
            Platform::Linux => String::from_str("linux"),
            Platform::Windows => String::from_str("windows"),
            Platform::Macos => String::from_str("macos"),
            Platform::Unknown => String::from_str("UNKNOWN"),
        };
        let eol: String = match platform {
            Platform::Windows => String::from_str("\r\n"),
            _ => String::from_str("\n"),
        };
        System {
            target_os,
            config_dir: config_dir(home, qualifier, organization, app, platform),
            linux: matches!(platform, Platform::Linux),
            windows: matches!(platform, Platform::Windows),
            macos: matches!(platform, Platform::Macos),
            unknown: matches!(platform, Platform::Unknown),
            eol,
        }
    }

    /// Converts line endings from the one convention to the other: each
    /// newline becomes a carriage return and a newline.
    pub fn unix2dos(&self, s: &mut String)
        ensures
            final(s)@ == dosify(old(s)@),
    {
        let src: String = s.clone();
        let n: usize = src.as_str().unicode_len();
        let mut out: String = String::new();
        let mut from: usize = 0;
        let mut i: usize = 0;
        while i < n
            invariant
                0 <= from <= i <= n,
                n == src@.len(),
                out@ == dosify(src@.take(from as int)),
                forall|j: int| from <= j < i ==> src@[j] != '\n',
            decreases n - i,
        {
            let c: char = src.as_str().get_char(i);
            if c == '\n' {
                proof {
                    lemma_dosify_concat(src@.take(i as int), seq!['\n']);
                    lemma_dosify_concat(src@.take(from as int), src@.subrange(from as int, i as int));
                    lemma_dosify_clean(src@.subrange(from as int, i as int));
                    assert(src@.take(from as int) + src@.subrange(from as int, i as int) =~= src@.take(
                        i as int,
                    ));
                    assert(src@.take(i as int) + seq!['\n'] =~= src@.take(i + 1));
                    assert(seq!['\n'].drop_first() =~= Seq::<char>::empty());
                    assert(dosify(Seq::<char>::empty()) =~= Seq::<char>::empty());
                    assert(seq!['\r', '\n'] + Seq::<char>::empty() =~= seq!['\r', '\n']);
                    assert(dosify(seq!['\n']) =~= seq!['\r', '\n']);
                }
                out.append(src.as_str().substring_char(from, i));
                out.append("\r\n");
                proof {
                    reveal_strlit("\r\n");
                    assert("\r\n"@ =~= seq!['\r', '\n']);
                    assert(out@ =~= dosify(src@.take(i + 1)));
                }
                from = i + 1;
            }
            i = i + 1;
        }
        proof {
            lemma_dosify_concat(src@.take(from as int), src@.subrange(from as int, n as int));
            lemma_dosify_clean(src@.subrange(from as int, n as int));
            assert(src@.take(from as int) + src@.subrange(from as int, n as int) =~= src@);
        }
        out.append(src.as_str().substring_char(from, n));
        proof {
            assert(out@ =~= dosify(src@));
        }
        *s = out;
    }
}

/// The text with every newline replaced by a carriage return and a
/// newline.
pub open spec fn dosify(s: Seq<char>) -> Seq<char>
    decreases s.len(),
{
    if s.len() == 0 {
        s
    } else {
        (if s[0] == '\n' {
            seq!['\r', '\n']
        } else {
            seq![s[0]]
        }) + dosify(s.drop_first())
    }
}

proof fn lemma_dosify_concat(a: Seq<char>, b: Seq<char>)
    ensures
        dosify(a + b) == dosify(a) + dosify(b),
    decreases a.len(),
{
    if a.len() == 0 {
        assert(a + b =~= b);
        assert(dosify(a) =~= Seq::<char>::empty());
        assert(dosify(a) + dosify(b) =~= dosify(b));
    } else {
        assert((a + b).len() > 0);
        assert((a + b)[0] == a[0]);
        assert((a + b).drop_first() =~= a.drop_first() + b);
        lemma_dosify_concat(a.drop_first(), b);
        assert(dosify(a + b) =~= dosify(a) + dosify(b));
    }
}

proof fn lemma_dosify_clean(s: Seq<char>)
    requires
        forall|j: int| 0 <= j < s.len() ==> s[j] != '\n',
    ensures
        dosify(s) == s,
    decreases s.len(),
{
    if s.len() > 0 {
        lemma_dosify_clean(s.drop_first());
        assert(dosify(s) =~= s);
    }
}

} // verus!

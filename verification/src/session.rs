//! Session facts and the cascading invalidation rules.
//!
//! `Mtxcli` carries the per-process session: the raw identity as typed, the
//! derived local part and origin, the credential token, the resolved room,
//! the server-side filter and the sync cursor, all mirrored in the key/value
//! store.  Changing a prerequisite fact invalidates everything derived from
//! it: a new identity clears the credential, a new credential clears the
//! token, a new room clears the resolved room, the filter and the cursor.

use vstd::prelude::*;

use crate::store::KeyStore;
use crate::text;
use crate::text::find_from;

verus! {

/// The abstract session: every field of `Mtxcli` the engine reasons about,
/// with text as `Seq<char>` and the store as a map.
pub struct SessionView {
    pub version: Seq<char>,
    pub store: Map<Seq<char>, Seq<char>>,
    pub user: Seq<char>,
    pub username: Seq<char>,
    pub server: Seq<char>,
    pub token: Seq<char>,
    pub logged_in: bool,
    pub room_id: Seq<char>,
    pub filter: Seq<char>,
    pub since: Seq<char>,
}

/// Keys with two leading underscores are the reserved namespace: public
/// mutation of such a key is denied, only the framework touches it.
pub open spec fn reserved_spec(k: Seq<char>) -> bool {
    k.len() >= 2 && k[0] == '_' && k[1] == '_'
}

/// The one reserved key that is synthesized in memory: the application's
/// own version, never stored.
pub open spec fn current_version_key() -> Seq<char> {
    "__version"@
}

/// The well-known public server used when the identity names no origin.
pub open spec fn default_server() -> Seq<char> {
    "https://matrix.org"@
}

/// What `get` returns: the synthesized current version, a stored value, or
/// nothing.
pub open spec fn get_spec(s: SessionView, k: Seq<char>) -> Option<Seq<char>> {
    if k == current_version_key() {
        Some(s.version)
    } else if s.store.contains_key(k) {
        Some(s.store[k])
    } else {
        None
    }
}

/// `get` with a fallback on absence.
pub open spec fn get_default_spec(s: SessionView, k: Seq<char>, d: Seq<char>) -> Seq<char> {
    match get_spec(s, k) {
        Some(v) => v,
        None => d,
    }
}

/// Index just past the first `@`, or the start of the text.
pub open spec fn local_start(v: Seq<char>) -> int {
    match find_from(v, '@', 0) {
        Some(i) => i + 1,
        None => 0,
    }
}

/// Index of the first `:` at or after the local part, if any.
pub open spec fn colon_pos(v: Seq<char>) -> Option<int> {
    find_from(v, ':', local_start(v))
}

/// The local part of an identity: the text after `@` up to `:`, or the
/// whole remainder when there is no `:`.
pub open spec fn username_of(v: Seq<char>) -> Seq<char> {
    match colon_pos(v) {
        Some(j) => v.subrange(local_start(v), j),
        None => v.subrange(local_start(v), v.len() as int),
    }
}

/// The origin an identity names: the text after `:` behind the secure
/// scheme, or the default public server when there is no `:`.
pub open spec fn server_of(v: Seq<char>) -> Seq<char> {
    match colon_pos(v) {
        Some(j) => "https://"@ + v.subrange(j + 1, v.len() as int),
        None => default_server(),
    }
}

/// Effect of changing the identity: parse it, persist the derived local
/// part and origin, and force a re-login by clearing the credential.
pub open spec fn user_effect(s: SessionView, v: Seq<char>) -> SessionView {
    SessionView {
        user: v,
        username: username_of(v),
        server: server_of(v),
        token: Seq::empty(),
        store: s.store.insert("username"@, username_of(v)).insert("server"@, server_of(v)).remove(
            "_token"@,
        ),
        ..s
    }
}

/// Effect of changing the password: the stored credential is cleared so the
/// next login authenticates afresh.
pub open spec fn password_effect(s: SessionView) -> SessionView {
    SessionView { store: s.store.remove("_token"@), ..s }
}

/// Effect of changing the room: the resolved room, the sync cursor and the
/// filter are all invalidated, in the store and in memory.
pub open spec fn room_effect(s: SessionView) -> SessionView {
    SessionView {
        room_id: Seq::empty(),
        since: Seq::empty(),
        filter: Seq::empty(),
        store: s.store.remove("_room_id"@).remove("_since"@).remove("_filter"@),
        ..s
    }
}

/// Effect of a public `set`: persist the pair, then run the cascade the key
/// triggers, if any.
pub open spec fn set_effect(s: SessionView, k: Seq<char>, v: Seq<char>) -> SessionView {
    let s1 = SessionView { store: s.store.insert(k, v), ..s };
    if k == "user"@ {
        user_effect(s1, v)
    } else if k == "password"@ {
        password_effect(s1)
    } else if k == "room"@ {
        room_effect(s1)
    } else {
        s1
    }
}

/// Effect of a public `unset`: the entry is deleted, nothing else moves.
pub open spec fn unset_effect(s: SessionView, k: Seq<char>) -> SessionView {
    SessionView { store: s.store.remove(k), ..s }
}

/// Effect of logging out: credential gone, in memory and in the store.
pub open spec fn logout_effect(s: SessionView) -> SessionView {
    SessionView { token: Seq::empty(), logged_in: false, store: s.store.remove("_token"@), ..s }
}

/// The session a fresh process starts from, before hydration.
pub open spec fn fresh_view(version: Seq<char>) -> SessionView {
    SessionView {
        version: version,
        store: Map::empty(),
        user: Seq::empty(),
        username: "user"@,
        server: default_server(),
        token: Seq::empty(),
        logged_in: false,
        room_id: Seq::empty(),
        filter: Seq::empty(),
        since: Seq::empty(),
    }
}

/// Hydration: the session facts re-read from the store at startup.  The
/// credential is not hydrated; login re-reads it when needed.
pub open spec fn hydrate_spec(s: SessionView) -> SessionView {
    SessionView {
        user: get_default_spec(s, "user"@, Seq::empty()),
        username: get_default_spec(s, "username"@, "username"@),
        server: get_default_spec(s, "server"@, default_server()),
        room_id: get_default_spec(s, "_room_id"@, Seq::empty()),
        filter: get_default_spec(s, "_filter"@, Seq::empty()),
        since: get_default_spec(s, "_since"@, Seq::empty()),
        ..s
    }
}

/// Why a public mutation was refused.
#[derive(Clone, Copy, Debug, PartialEq, Eq, Structural)]
pub enum StoreError {
    /// The key lies in the reserved namespace.
    PermissionDenied,
}

/// Command-line switches, parsed by the surrounding program.
#[derive(Clone, Copy, Debug, Default, PartialEq, Eq, Structural)]
pub struct Args {
    pub verbose: u8,
    pub parking: bool,
}

/// What the program was asked to do.
#[derive(Clone, Copy, Debug, PartialEq, Eq, Structural)]
pub enum Action {
    /// Interactive session.
    Default,
    /// Parking lot.
    ParkingLot,
}

/// The session engine.
pub struct Mtxcli {
    pub qualifier: String,
    pub organization: String,
    pub app: String,
    pub version: String,
    pub store: KeyStore,
    pub args: Args,
    pub action: Action,
    pub user: String,
    pub username: String,
    pub server: String,
    pub token: String,
    pub logged_in: bool,
    pub room_id: String,
    pub filter: String,
    pub since: String,
}

impl View for Mtxcli {
    type V = SessionView;

    open spec fn view(&self) -> SessionView {
        SessionView {
            version: self.version@,
            store: self.store@,
            user: self.user@,
            username: self.username@,
            server: self.server@,
            token: self.token@,
            logged_in: self.logged_in,
            room_id: self.room_id@,
            filter: self.filter@,
            since: self.since@,
        }
    }
}

/// The reserved-namespace test.
pub fn is_reserved(key: &str) -> (r: bool)
    ensures
        r == reserved_spec(key@),
{
    let n: usize = key.unicode_len();
    if n < 2 {
        false
    } else {
        key.get_char(0) == '_' && key.get_char(1) == '_'
    }
}

impl Mtxcli {
    /// The store keeps one value per key.
    pub open spec fn wf(&self) -> bool {
        self.store.wf()
    }

    /// A fresh session: nothing stored, nothing resolved, logged out.
    pub fn new(
        qualifier: &'static str,
        organization: &'static str,
        app: &'static str,
        version: &'static str,
    ) -> (r: Self)
        ensures
            r.wf(),
            r@ == fresh_view(version@),
            r.args == (Args { verbose: 0, parking: false }),
            r.action == Action::Default,
            r.qualifier@ == qualifier@,
            r.organization@ == organization@,
            r.app@ == app@,
    {
        Mtxcli {
            qualifier: String::from_str(qualifier),
            organization: String::from_str(organization),
            app: String::from_str(app),
            version: String::from_str(version),
            store: KeyStore::new(),
            args: Args { verbose: 0, parking: false },
            action: Action::Default,
            user: String::new(),
            username: String::from_str("user"),
            server: String::from_str("https://matrix.org"),
            token: String::new(),
            logged_in: false,
            room_id: String::new(),
            filter: String::new(),
            since: String::new(),
        }
    }

    /// A framework-level write: the pair enters the store as it is, with no
    /// reserved-key check and no cascade.  Hydration from durable storage
    /// goes through here.
    pub fn restore(&mut self, key: &str, value: &str)
        requires
            old(self).wf(),
        ensures
            final(self).wf(),
            final(self)@ == (SessionView { store: old(self)@.store.insert(key@, value@), ..old(self)@ }),
    {
        self.store.put(key, value);
    }

    /// The value under `key`: the synthesized current version for the one
    /// in-memory key, otherwise whatever the store holds.
    pub fn get(&self, key: &str) -> (r: Option<String>)
        requires
            self.wf(),
        ensures
            (r is Some) == (get_spec(self@, key@) is Some),
            r matches Some(v) ==> get_spec(self@, key@) == Some(v@),
    {
        if text::str_eq(key, "__version") {
            Some(self.version.clone())
        } else {
            self.store.get(key)
        }
    }

    /// `get` with a fallback on absence.
    pub fn get_default(&self, key: &str, default: &str) -> (r: String)
        requires
            self.wf(),
        ensures
            r@ == get_default_spec(self@, key@, default@),
    {
        match self.get(key) {
            Some(v) => v,
            None => String::from_str(default),
        }
    }

    /// Public mutation: refused on reserved keys, otherwise persisted, with
    /// the cascade the key triggers applied atomically.
    pub fn set(&mut self, key: &str, value: &str) -> (r: Result<(), StoreError>)
        requires
            old(self).wf(),
        ensures
            final(self).wf(),
            reserved_spec(key@) ==> r == Err::<(), StoreError>(StoreError::PermissionDenied)
                && final(self)@ == old(self)@,
            !reserved_spec(key@) ==> r == Ok::<(), StoreError>(()) && final(self)@ == set_effect(
                old(self)@,
                key@,
                value@,
            ),
    {
        if is_reserved(key) {
            return Err(StoreError::PermissionDenied);
        }
        self.store.put(key, value);
        if text::str_eq(key, "user") {
            self.set_user(value);
        } else if text::str_eq(key, "password") {
            self.set_password();
        } else if text::str_eq(key, "room") {
            self.set_room();
        }
        Ok(())
    }

    /// The identity changed: derive and persist the local part and the
    /// origin, and clear the credential so the next pipeline run logs in
    /// again.
    pub fn set_user(&mut self, value: &str)
        requires
            old(self).wf(),
        ensures
            final(self).wf(),
            final(self)@ == user_effect(old(self)@, value@),
    {
        let n: usize = value.unicode_len();
        let i: usize = match text::find_char(value, '@') {
            Some(idx) => idx + 1,
            None => 0,
        };
        let j: usize = match text::find_char_from(value, ':', i) {
            Some(idx) => idx,
            None => n,
        };
        let uname: String = String::from_str(value.substring_char(i, j));
        let srv: String = if j < n {
            let mut srv0: String = String::from_str("https://");
            srv0.append(value.substring_char(j + 1, n));
            srv0
        } else {
            String::from_str("https://matrix.org")
        };
        self.username = uname;
        self.server = srv;
        self.user = String::from_str(value);
        let uname_ref: String = self.username.clone();
        let srv_ref: String = self.server.clone();
        self.store.put("username", uname_ref.as_str());
        self.store.put("server", srv_ref.as_str());
        self.store.remove("_token");
        self.token = String::new();
    }

    /// The password changed: force a re-login with the new credential.
    pub fn set_password(&mut self)
        requires
            old(self).wf(),
        ensures
            final(self).wf(),
            final(self)@ == password_effect(old(self)@),
    {
        self.store.remove("_token");
    }

    /// The room changed: everything scoped to the old room is invalid.
    pub fn set_room(&mut self)
        requires
            old(self).wf(),
        ensures
            final(self).wf(),
            final(self)@ == room_effect(old(self)@),
    {
        self.store.remove("_room_id");
        self.store.remove("_since");
        self.store.remove("_filter");
        self.room_id = String::new();
        self.since = String::new();
        self.filter = String::new();
    }

    /// Public deletion: refused on reserved keys; deleting an absent key is
    /// a success that changes nothing.
    pub fn unset(&mut self, key: &str) -> (r: Result<(), StoreError>)
        requires
            old(self).wf(),
        ensures
            final(self).wf(),
            reserved_spec(key@) ==> r == Err::<(), StoreError>(StoreError::PermissionDenied)
                && final(self)@ == old(self)@,
            !reserved_spec(key@) ==> r == Ok::<(), StoreError>(()) && final(self)@ == unset_effect(
                old(self)@,
                key@,
            ),
    {
        if is_reserved(key) {
            return Err(StoreError::PermissionDenied);
        }
        self.store.remove(key);
        Ok(())
    }

    /// Ends the session: the credential is gone and the pipeline starts
    /// from the login stage next time.
    pub fn logout(&mut self)
        requires
            old(self).wf(),
        ensures
            final(self).wf(),
            final(self)@ == logout_effect(old(self)@),
    {
        self.store.remove("_token");
        self.token = String::new();
        self.logged_in = false;
    }

    /// Re-reads the session facts from the store, as process start does.
    pub fn hydrate(&mut self)
        requires
            old(self).wf(),
        ensures
            final(self).wf(),
            final(self)@ == hydrate_spec(old(self)@),
    {
        proof {
            reveal_strlit("");
            assert(""@ =~= Seq::<char>::empty());
        }
        self.user = self.get_default("user", "");
        self.username = self.get_default("username", "username");
        self.server = self.get_default("server", "https://matrix.org");
        self.room_id = self.get_default("_room_id", "");
        self.filter = self.get_default("_filter", "");
        self.since = self.get_default("_since", "");
    }
}

/// Setting a non-reserved key then reading it gives the value back,
/// whatever cascade the key triggered.
pub proof fn lemma_set_then_get(s: SessionView, k: Seq<char>, v: Seq<char>)
    requires
        !reserved_spec(k),
    ensures
        get_spec(set_effect(s, k, v), k) == Some(v),
{
    reveal_strlit("__version");
    reveal_strlit("user");
    reveal_strlit("username");
    reveal_strlit("server");
    reveal_strlit("password");
    reveal_strlit("room");
    reveal_strlit("_token");
    reveal_strlit("_room_id");
    reveal_strlit("_since");
    reveal_strlit("_filter");
    assert(reserved_spec(current_version_key()));
    assert(k != current_version_key());
    if k == "user"@ {
        assert(k.len() == 4);
        assert(set_effect(s, k, v).store[k] == v);
    } else if k == "password"@ {
        assert(set_effect(s, k, v).store[k] == v);
    } else if k == "room"@ {
        assert(set_effect(s, k, v).store[k] == v);
    } else {
        assert(set_effect(s, k, v).store[k] == v);
    }
}

/// Unsetting a non-reserved key leaves nothing behind to read.
pub proof fn lemma_unset_then_get(s: SessionView, k: Seq<char>)
    requires
        !reserved_spec(k),
    ensures
        get_spec(unset_effect(s, k), k) is None,
{
    reveal_strlit("__version");
    assert(reserved_spec(current_version_key()));
    assert(k != current_version_key());
}

} // verus!

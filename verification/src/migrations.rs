//! The versioned migration engine.
//!
//! The store carries a schema-version stamp under its own key.  At startup,
//! before any user interaction, every migration whose target version is
//! greater than the stored version runs, in declared order; a migration
//! that reports a change immediately advances the stamp to its target, and
//! after the whole list the stamp is unconditionally advanced to the
//! application's current version — also when a migration failed or matched
//! nothing, so a skipped migration is never retried on a later launch.
//!
//! Versions compare as plain text (see [`crate::text::lex_lt`]), not as
//! semantic versions; that is the order the stamp has always used.

use vstd::prelude::*;

use crate::session::{get_default_spec, unset_effect, Mtxcli, SessionView, StoreError};
use crate::text;
use crate::text::lex_lt;

verus! {

/// One schema migration: a target version and the change it applies.
pub trait MigrationApi: Sized {
    /// The version this migration brings the store up to.
    spec fn target_spec(&self) -> Seq<char>;

    /// The change it applies to the session.
    spec fn effect_spec(&self, s: SessionView) -> SessionView;

    /// Whether it reports having changed anything.
    spec fn changed_spec(&self) -> bool;

    /// The target version, as text.
    fn version(&self) -> (v: String)
        ensures
            v@ == self.target_spec(),
    ;

    /// The migration applies when the stored version is below its target.
    fn applies(&self, version: &str) -> (r: bool)
        ensures
            r == lex_lt(version@, self.target_spec()),
    ;

    /// Runs the migration.
    fn process(&self, mtxcli: &mut Mtxcli) -> (r: Result<bool, StoreError>)
        requires
            old(mtxcli).wf(),
        ensures
            final(mtxcli).wf(),
            final(mtxcli)@ == self.effect_spec(old(mtxcli)@),
            r == Ok::<bool, StoreError>(self.changed_spec()),
    ;
}

/// The first migration: a rehearsal that changes nothing.
#[derive(Debug)]
pub struct V0_5_0 {}

impl V0_5_0 {
    pub fn new() -> (r: Self)
        ensures
            r == (V0_5_0 {}),
    {
        V0_5_0 {}
    }
}

impl MigrationApi for V0_5_0 {
    open spec fn target_spec(&self) -> Seq<char> {
        "0.5.0"@
    }

    open spec fn effect_spec(&self, s: SessionView) -> SessionView {
        s
    }

    open spec fn changed_spec(&self) -> bool {
        false
    }

    fn version(&self) -> (v: String) {
        String::from_str("0.5.0")
    }

    fn applies(&self, version: &str) -> (r: bool) {
        text::str_lt(version, "0.5.0")
    }

    fn process(&self, mtxcli: &mut Mtxcli) -> (r: Result<bool, StoreError>) {
        Ok(false)
    }
}

/// The second migration: drops the stored filter so a fresh one is created
/// against the new schema.
#[derive(Debug)]
pub struct V0_6_0 {}

impl V0_6_0 {
    pub fn new() -> (r: Self)
        ensures
            r == (V0_6_0 {}),
    {
        V0_6_0 {}
    }
}

impl MigrationApi for V0_6_0 {
    open spec fn target_spec(&self) -> Seq<char> {
        "0.6.0"@
    }

    open spec fn effect_spec(&self, s: SessionView) -> SessionView {
        unset_effect(s, "_filter"@)
    }

    open spec fn changed_spec(&self) -> bool {
        true
    }

    fn version(&self) -> (v: String) {
        String::from_str("0.6.0")
    }

    fn applies(&self, version: &str) -> (r: bool) {
        text::str_lt(version, "0.6.0")
    }

    fn process(&self, mtxcli: &mut Mtxcli) -> (r: Result<bool, StoreError>) {
        proof {
            reveal_strlit("_filter");
        }
        match mtxcli.unset("_filter") {
            Ok(()) => Ok(true),
            Err(e) => Err(e),
        }
    }
}

/// The stamp advanced to `v`.
pub open spec fn stamp(s: SessionView, v: Seq<char>) -> SessionView {
    SessionView { store: s.store.insert("_version"@, v), ..s }
}

/// What one startup run of the migration list does: nothing when the store
/// is already at the current version, otherwise each applicable migration
/// in order — a change stamps its target at once — and finally the
/// unconditional stamp to the current version.
pub open spec fn migrations_spec(s: SessionView) -> SessionView {
    let stored = get_default_spec(s, "_version"@, "0"@);
    if stored == s.version {
        s
    } else {
        let s2 = if lex_lt(stored, "0.6.0"@) {
            stamp(unset_effect(s, "_filter"@), "0.6.0"@)
        } else {
            s
        };
        stamp(s2, s.version)
    }
}

/// Runs the migration list against the store, as process start does.
pub fn run_migrations(mtxcli: &mut Mtxcli)
    requires
        old(mtxcli).wf(),
    ensures
        final(mtxcli).wf(),
        final(mtxcli)@ == migrations_spec(old(mtxcli)@),
{
    let version: String = mtxcli.get_default("_version", "0");
    if !text::str_eq(version.as_str(), mtxcli.version.as_str()) {
        let m1 = V0_5_0::new();
        if m1.applies(version.as_str()) {
            match m1.process(mtxcli) {
                Ok(changed) => {
                    if changed {
                        let v1 = m1.version();
                        mtxcli.store.put("_version", v1.as_str());
                    }
                },
                Err(_) => {},
            }
        }
        let m2 = V0_6_0::new();
        if m2.applies(version.as_str()) {
            match m2.process(mtxcli) {
                Ok(changed) => {
                    if changed {
                        let v2 = m2.version();
                        mtxcli.store.put("_version", v2.as_str());
                    }
                },
                Err(_) => {},
            }
        }
        let current: String = mtxcli.version.clone();
        mtxcli.store.put("_version", current.as_str());
    }
}

/// Run against a store with no version stamp, the whole list applies: the
/// rehearsal changes nothing, the filter migration drops the stored filter,
/// and the stamp ends at the application's current version — whichever of
/// the two reported a change.
pub proof fn lemma_migrations_from_absent(s: SessionView)
    requires
        !s.store.contains_key("_version"@),
        s.version != "0"@,
    ensures
        !migrations_spec(s).store.contains_key("_filter"@),
        migrations_spec(s).store.contains_key("_version"@),
        migrations_spec(s).store["_version"@] == s.version,
{
    reveal_strlit("0");
    reveal_strlit("0.6.0");
    reveal_strlit("_version");
    reveal_strlit("__version");
    reveal_strlit("_filter");
    assert("_version"@.len() == 8);
    assert(crate::session::current_version_key().len() == 9);
    assert("_version"@ != crate::session::current_version_key());
    let stored = get_default_spec(s, "_version"@, "0"@);
    assert(stored == "0"@);
    assert(lex_lt("0"@, "0.6.0"@)) by {
        assert("0"@.len() == 1);
        assert("0.6.0"@.len() == 5);
        assert("0"@[0] == '0');
        assert("0.6.0"@[0] == '0');
        assert("0"@.drop_first().len() == 0);
        assert("0.6.0"@.drop_first().len() == 4);
        assert(lex_lt("0"@.drop_first(), "0.6.0"@.drop_first()));
    }
    assert("_filter"@.len() == 7);
    assert("_filter"@ != "_version"@);
}

} // verus!

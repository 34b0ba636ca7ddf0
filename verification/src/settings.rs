//! The settings cache: an in-memory mapping from keys to values that follows
//! the durable store. A value enters the cache only after the store has
//! accepted it.

use vstd::prelude::*;
use vstd::string::*;
use crate::text::{opt_view, str_eq};

verus! {

/// The key under which the capture hotkey is kept.
pub const HOTKEY_KEY: &'static str = "global_hotkey";

/// The accelerator used until another is set.
pub const DEFAULT_HOTKEY: &'static str = "CommandOrControl+Shift+S";

/// A failure of the durable store behind the cache.
#[derive(Debug, PartialEq, Eq)]
pub enum SettingsError {
    /// The store could not be read or written.
    Database(String),
    /// A value could not be encoded or decoded.
    Serialization(String),
}

/// One setting: a key and its value.
#[derive(Debug, PartialEq, Eq)]
pub struct Setting {
    pub key: String,
    pub value: String,
}

/// The keys and values of a sequence of settings.
pub open spec fn setting_views(v: Seq<Setting>) -> Seq<(Seq<char>, Seq<char>)> {
    Seq::new(v.len(), |i: int| (v[i].key@, v[i].value@))
}

/// The mapping that a sequence of pairs denotes; of two pairs with one key
/// the later one counts.
pub open spec fn pairs_map(pairs: Seq<(Seq<char>, Seq<char>)>) -> Map<Seq<char>, Seq<char>>
    decreases pairs.len(),
{
    if pairs.len() == 0 {
        Map::empty()
    } else {
        pairs_map(pairs.drop_last()).insert(pairs.last().0, pairs.last().1)
    }
}

/// No two pairs have the same key.
pub open spec fn distinct_keys(pairs: Seq<(Seq<char>, Seq<char>)>) -> bool {
    forall|i: int, j: int| 0 <= i < j < pairs.len() ==> pairs[i].0 != pairs[j].0
}

/// The value under `key`, if there is one.
pub open spec fn lookup(m: Map<Seq<char>, Seq<char>>, key: Seq<char>) -> Option<Seq<char>> {
    if m.contains_key(key) {
        Some(m[key])
    } else {
        None
    }
}

proof fn lemma_last_occurrence(pairs: Seq<(Seq<char>, Seq<char>)>, i: int)
    requires
        0 <= i < pairs.len(),
        forall|j: int| i < j < pairs.len() ==> (#[trigger] pairs[j]).0 != pairs[i].0,
    ensures
        lookup(pairs_map(pairs), pairs[i].0) == Some(pairs[i].1),
    decreases pairs.len(),
{
    if i < pairs.len() - 1 {
        let init = pairs.drop_last();
        assert forall|j: int| i < j < init.len() implies (#[trigger] init[j]).0 != init[i].0 by {
            assert(init[j] == pairs[j]);
        }
        lemma_last_occurrence(init, i);
        assert(pairs.last().0 != pairs[i].0);
    }
}

proof fn lemma_absent(pairs: Seq<(Seq<char>, Seq<char>)>, key: Seq<char>)
    requires
        forall|j: int| 0 <= j < pairs.len() ==> (#[trigger] pairs[j]).0 != key,
    ensures
        lookup(pairs_map(pairs), key) is None,
    decreases pairs.len(),
{
    if pairs.len() > 0 {
        let init = pairs.drop_last();
        assert forall|j: int| 0 <= j < init.len() implies (#[trigger] init[j]).0 != key by {
            assert(init[j] == pairs[j]);
        }
        lemma_absent(init, key);
        assert(pairs.last().0 != key);
    }
}

proof fn lemma_update_last(pairs: Seq<(Seq<char>, Seq<char>)>, i: int, value: Seq<char>)
    requires
        0 <= i < pairs.len(),
        forall|j: int| i < j < pairs.len() ==> (#[trigger] pairs[j]).0 != pairs[i].0,
    ensures
        pairs_map(pairs.update(i, (pairs[i].0, value))) == pairs_map(pairs).insert(
            pairs[i].0,
            value,
        ),
    decreases pairs.len(),
{
    let key = pairs[i].0;
    let changed = pairs.update(i, (key, value));
    let init = pairs.drop_last();
    if i == pairs.len() - 1 {
        assert(changed.drop_last() =~= init);
        assert(pairs_map(changed) =~= pairs_map(pairs).insert(key, value));
    } else {
        assert forall|j: int| i < j < init.len() implies (#[trigger] init[j]).0 != init[i].0 by {
            assert(init[j] == pairs[j]);
        }
        lemma_update_last(init, i, value);
        assert(changed.drop_last() =~= init.update(i, (key, value)));
        assert(changed.last() == pairs.last());
        assert(pairs.last().0 != key);
        assert(pairs_map(changed) =~= pairs_map(pairs).insert(key, value));
    }
}

/// A path of the file system, carried through as it was given.
#[verifier::external_type_specification]
#[verifier::external_body]
pub struct ExPathBuf(std::path::PathBuf);

/// The settings cache.
pub struct SettingsManager {
    entries: Vec<Setting>,
    db_path: std::path::PathBuf,
}

impl View for SettingsManager {
    type V = Map<Seq<char>, Seq<char>>;

    closed spec fn view(&self) -> Map<Seq<char>, Seq<char>> {
        pairs_map(setting_views(self.entries@))
    }
}

impl SettingsManager {
    /// No key is held twice.
    #[verifier::type_invariant]
    spec fn distinct(&self) -> bool {
        forall|i: int, j: int|
            0 <= i < j < self.entries@.len() ==> self.entries@[i].key@ != self.entries@[j].key@
    }

    /// The location of the durable store, as given to [`SettingsManager::new`].
    pub closed spec fn spec_db_path(&self) -> std::path::PathBuf {
        self.db_path
    }

    /// An empty cache for the store at `db_path`.
    pub fn new(db_path: std::path::PathBuf) -> (manager: SettingsManager)
        ensures
            manager@ == Map::<Seq<char>, Seq<char>>::empty(),
            manager.spec_db_path() == db_path,
    {
        let manager = SettingsManager { entries: Vec::new(), db_path };
        assert(setting_views(manager.entries@) =~= Seq::empty());
        manager
    }

    /// The location of the durable store.
    pub fn db_path(&self) -> (path: &std::path::PathBuf)
        ensures
            *path == self.spec_db_path(),
    {
        &self.db_path
    }

    fn position_of(&self, key: &str) -> (found: Option<usize>)
        ensures
            match found {
                Some(i) => i < self.entries@.len() && self.entries@[i as int].key@ == key@
                    && forall|j: int|
                    i < j < self.entries@.len() ==> (#[trigger] self.entries@[j]).key@ != key@,
                None => forall|j: int|
                    0 <= j < self.entries@.len() ==> (#[trigger] self.entries@[j]).key@ != key@,
            },
    {
        let mut i: usize = self.entries.len();
        while i > 0
            invariant
                i <= self.entries@.len(),
                forall|j: int|
                    i <= j < self.entries@.len() ==> (#[trigger] self.entries@[j]).key@ != key@,
            decreases i,
        {
            i -= 1;
            if str_eq(self.entries[i].key.as_str(), key) {
                return Some(i);
            }
        }
        None
    }

    /// Reads a value from the cache; the store is not touched.
    pub fn get_setting(&self, key: &str) -> (value: Option<String>)
        ensures
            opt_view(value) == lookup(self@, key@),
    {
        let ghost pairs = setting_views(self.entries@);
        match self.position_of(key) {
            Some(i) => {
                proof {
                    assert forall|j: int| i < j < pairs.len() implies (#[trigger] pairs[j]).0
                        != pairs[i as int].0 by {
                        assert(self.entries@[j].key@ != key@);
                    }
                    lemma_last_occurrence(pairs, i as int);
                }
                Some(self.entries[i].value.clone())
            },
            None => {
                proof {
                    assert forall|j: int| 0 <= j < pairs.len() implies (#[trigger] pairs[j]).0
                        != key@ by {
                        assert(self.entries@[j].key@ != key@);
                    }
                    lemma_absent(pairs, key@);
                }
                None
            },
        }
    }

    fn put(&mut self, key: &str, value: &str)
        ensures
            final(self)@ == old(self)@.insert(key@, value@),
            final(self).spec_db_path() == old(self).spec_db_path(),
    {
        let ghost pairs = setting_views(self.entries@);
        proof {
            use_type_invariant(&*self);
        }
        match self.position_of(key) {
            Some(i) => {
                proof {
                    assert forall|j: int| i < j < pairs.len() implies (#[trigger] pairs[j]).0
                        != pairs[i as int].0 by {
                        assert(self.entries@[j].key@ != key@);
                    }
                    lemma_update_last(pairs, i as int, value@);
                }
                let entry = Setting { key: String::from_str(key), value: String::from_str(value) };
                let mut entries: Vec<Setting> = Vec::new();
                core::mem::swap(&mut self.entries, &mut entries);
                entries.set(i, entry);
                self.entries = entries;
                assert(setting_views(self.entries@) =~= pairs.update(i as int, (key@, value@)));
            },
            None => {
                let entry = Setting { key: String::from_str(key), value: String::from_str(value) };
                let mut entries: Vec<Setting> = Vec::new();
                core::mem::swap(&mut self.entries, &mut entries);
                entries.push(entry);
                self.entries = entries;
                assert(setting_views(self.entries@).drop_last() =~= pairs);
                assert(setting_views(self.entries@) =~= pairs.push((key@, value@)));
            },
        }
    }

    /// Records the outcome of writing `key` and `value` to the store. The
    /// cache takes the value only if the write succeeded; a failed write is
    /// handed back and leaves the cache as it was.
    pub fn set_setting(&mut self, key: &str, value: &str, written: Result<(), SettingsError>) -> (done:
        Result<(), SettingsError>)
        ensures
            match written {
                Ok(_) => done is Ok,
                Err(e) => done == Err::<(), SettingsError>(e),
            },
            written is Ok ==> final(self)@ == old(self)@.insert(key@, value@),
            written is Err ==> final(self)@ == old(self)@,
            final(self).spec_db_path() == old(self).spec_db_path(),
    {
        match written {
            Ok(()) => {
                self.put(key, value);
                Ok(())
            },
            Err(e) => Err(e),
        }
    }

    /// Replaces the cache by what the store holds. `None` stands for a store
    /// that could not be read and counts as an empty one. The result lists
    /// the required defaults that are missing: each is to be written to the
    /// store and then recorded with [`SettingsManager::set_setting`].
    pub fn initialize(&mut self, loaded: Option<Vec<Setting>>) -> (missing: Vec<Setting>)
        ensures
            final(self)@ == match loaded {
                Some(rows) => pairs_map(setting_views(rows@)),
                None => Map::<Seq<char>, Seq<char>>::empty(),
            },
            final(self).spec_db_path() == old(self).spec_db_path(),
            setting_views(missing@) == if final(self)@.contains_key(HOTKEY_KEY@) {
                Seq::<(Seq<char>, Seq<char>)>::empty()
            } else {
                seq![(HOTKEY_KEY@, DEFAULT_HOTKEY@)]
            },
    {
        self.entries = Vec::new();
        assert(setting_views(self.entries@) =~= Seq::empty());
        match loaded {
            Some(rows) => {
                let mut i: usize = 0;
                assert(setting_views(rows@).take(0) =~= Seq::empty());
                while i < rows.len()
                    invariant
                        i <= rows.len(),
                        self.spec_db_path() == old(self).spec_db_path(),
                        self@ == pairs_map(setting_views(rows@).take(i as int)),
                    decreases rows.len() - i,
                {
                    assert(setting_views(rows@).take(i + 1).drop_last() =~= setting_views(
                        rows@,
                    ).take(i as int));
                    self.put(rows[i].key.as_str(), rows[i].value.as_str());
                    i += 1;
                }
                assert(setting_views(rows@).take(i as int) =~= setting_views(rows@));
            },
            None => {},
        }
        let mut missing: Vec<Setting> = Vec::new();
        match self.get_setting(HOTKEY_KEY) {
            Some(_) => {
                assert(setting_views(missing@) =~= Seq::empty());
            },
            None => {
                missing.push(
                    Setting {
                        key: String::from_str(HOTKEY_KEY),
                        value: String::from_str(DEFAULT_HOTKEY),
                    },
                );
                assert(setting_views(missing@) =~= seq![(HOTKEY_KEY@, DEFAULT_HOTKEY@)]);
            },
        }
        missing
    }

    /// A snapshot of every setting, each key once.
    pub fn get_all_settings(&self) -> (snapshot: Vec<Setting>)
        ensures
            pairs_map(setting_views(snapshot@)) == self@,
            distinct_keys(setting_views(snapshot@)),
    {
        let mut snapshot: Vec<Setting> = Vec::new();
        let mut i: usize = 0;
        proof {
            use_type_invariant(self);
        }
        while i < self.entries.len()
            invariant
                i <= self.entries@.len(),
                snapshot@.len() == i,
                forall|j: int|
                    0 <= j < i ==> (#[trigger] snapshot@[j]).key@ == self.entries@[j].key@
                        && snapshot@[j].value@ == self.entries@[j].value@,
            decreases self.entries@.len() - i,
        {
            snapshot.push(
                Setting { key: self.entries[i].key.clone(), value: self.entries[i].value.clone() },
            );
            i += 1;
        }
        assert(setting_views(snapshot@) =~= setting_views(self.entries@));
        snapshot
    }

    /// The accelerator in force: the stored one, or the default.
    pub fn get_global_hotkey(&self) -> (hotkey: String)
        ensures
            hotkey@ == match lookup(self@, HOTKEY_KEY@) {
                Some(v) => v,
                None => DEFAULT_HOTKEY@,
            },
    {
        match self.get_setting(HOTKEY_KEY) {
            Some(v) => v,
            None => String::from_str(DEFAULT_HOTKEY),
        }
    }
}

/// A value that was set is the value that is read, whatever happened in
/// between to other keys.
pub proof fn lemma_set_then_get(m: Map<Seq<char>, Seq<char>>, key: Seq<char>, value: Seq<char>)
    ensures
        lookup(m.insert(key, value), key) == Some(value),
        forall|other: Seq<char>|
            other != key ==> lookup(#[trigger] m.insert(key, value), other) == lookup(m, other),
{
}

} // verus!

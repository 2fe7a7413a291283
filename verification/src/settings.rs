//! The settings store: named singleton values, changeable at runtime,
//! persisted on behalf of other modules.
//!
//! During initialization every module registers its keys once; duplicate
//! registrations are refused. A value is kept in its raw serialized form;
//! typed access is the unverified boundary's concern.

use vstd::prelude::*;

verus! {

use vstd::pervasive::VecAdditionalExecFns;
use vstd::string::StrSliceExecFns;

/// Maximum length of a settings key.
pub const MAX_KEY_LEN: usize = 255;

/// One persisted settings row.
pub struct GalvynSettings {
    /// Opaque unique id.
    pub uuid: u128,
    /// The unique key.
    pub key: String,
    /// The raw serialized value.
    pub value: String,
}

/// One settings entry while the store is live.
pub struct SettingsEntry {
    /// The unique key.
    pub key: String,
    /// The raw serialized value.
    pub value: String,
    /// Whether this entry is new since the last flush to storage.
    pub fresh: bool,
}

/// Why registering a settings key failed.
#[derive(Debug, Clone, Copy, PartialEq, Eq, Structural)]
pub enum RegisterError {
    /// The key does not fit the storage cap.
    InvalidKey,
    /// The key was already registered by some module.
    DuplicateKey,
}

/// Why updating a settings value failed.
#[derive(Debug, Clone, Copy, PartialEq, Eq, Structural)]
pub enum SetError {
    /// No entry carries this key.
    UnknownKey,
}

/// The setup struct of the settings store module.
#[derive(Debug, Default)]
pub struct SettingsStoreSetup {}

/// The settings store's state before other modules ran. There is none.
pub struct PreInit {}

/// Stores settings on behalf of other modules.
pub struct SettingsStore {
    entries: Vec<SettingsEntry>,
    registered: Vec<String>,
}

impl SettingsStore {
    /// A store with no entry and no registered key: the state before the
    /// persisted rows are loaded.
    pub fn new() -> (store: SettingsStore)
        ensures
            store.wf(),
            store.entries_view().len() == 0,
            store.registered_view().len() == 0,
    {
        SettingsStore { entries: Vec::new(), registered: Vec::new() }
    }

    /// The live entries.
    pub closed spec fn entries_view(self) -> Seq<SettingsEntry> {
        self.entries@
    }

    /// The keys registered so far.
    pub closed spec fn registered_view(self) -> Seq<String> {
        self.registered@
    }

    /// Some entry carries this key.
    pub open spec fn has_key(self, key: Seq<char>) -> bool {
        exists|i: int| 0 <= i < self.entries_view().len() && self.entries_view()[i].key@ == key
    }

    /// The index of the entry carrying this key.
    pub open spec fn idx_of(self, key: Seq<char>) -> int {
        choose|i: int| 0 <= i < self.entries_view().len() && self.entries_view()[i].key@ == key
    }

    /// The entry carrying this key.
    pub open spec fn entry_of(self, key: Seq<char>) -> SettingsEntry {
        self.entries_view()[self.idx_of(key)]
    }

    /// Some key was registered with this name.
    pub open spec fn is_registered(self, key: Seq<char>) -> bool {
        exists|i: int|
            0 <= i < self.registered_view().len() && self.registered_view()[i]@ == key
    }

    /// Entry keys are unique, and so are registered keys.
    pub open spec fn wf(self) -> bool {
        &&& forall|i: int, j: int|
            #![trigger self.entries_view()[i], self.entries_view()[j]]
            0 <= i < j < self.entries_view().len() ==> self.entries_view()[i].key@
                != self.entries_view()[j].key@
        &&& forall|i: int, j: int|
            #![trigger self.registered_view()[i], self.registered_view()[j]]
            0 <= i < j < self.registered_view().len() ==> self.registered_view()[i]@
                != self.registered_view()[j]@
    }

    /// What registering decides: an over-long key is invalid, a key
    /// registered twice is a duplicate; otherwise the current value under
    /// the key is handed back, with the given default stored first when
    /// the key is new.
    pub open spec fn register_outcome(self, key: Seq<char>, default: Seq<char>) -> Result<
        Seq<char>,
        RegisterError,
    > {
        if key.len() > MAX_KEY_LEN {
            Err(RegisterError::InvalidKey)
        } else if self.is_registered(key) {
            Err(RegisterError::DuplicateKey)
        } else if self.has_key(key) {
            Ok(self.entry_of(key).value@)
        } else {
            Ok(default)
        }
    }

    /// Registers a new settings key storing a single raw value. Returns
    /// the current value under the key, inserting the default first when
    /// the key is new.
    pub fn register(&mut self, key: String, default: String) -> (r: Result<
        String,
        RegisterError,
    >)
        requires
            old(self).wf(),
        ensures
            final(self).wf(),
            r matches Ok(value) ==> old(self).register_outcome(key@, default@) == Ok::<
                Seq<char>,
                RegisterError,
            >(value@),
            r matches Err(e) ==> old(self).register_outcome(key@, default@) == Err::<
                Seq<char>,
                RegisterError,
            >(e) && *final(self) == *old(self),
            r is Ok ==> final(self).registered_view() == old(self).registered_view().push(key),
            r is Ok && old(self).has_key(key@) ==> final(self).entries_view() == old(
                self,
            ).entries_view(),
            r is Ok && !old(self).has_key(key@) ==> final(self).entries_view() == old(
                self,
            ).entries_view().push(SettingsEntry { key: key, value: default, fresh: true }),
    {
        if key.as_str().unicode_len() > MAX_KEY_LEN {
            return Err(RegisterError::InvalidKey);
        }
        if self.contains_registered(&key) {
            return Err(RegisterError::DuplicateKey);
        }
        let ghost regs0 = old(self).registered_view();
        self.registered.push(key.clone());
        proof {
            assert forall|p: int, q: int|
                #![trigger self.registered_view()[p], self.registered_view()[q]]
                0 <= p < q < self.registered_view().len() implies self.registered_view()[p]@
                != self.registered_view()[q]@ by {
                if q < regs0.len() {
                    assert(regs0[p]@ != regs0[q]@);
                    assert(self.registered_view()[p] == regs0[p]);
                    assert(self.registered_view()[q] == regs0[q]);
                } else {
                    assert(self.registered_view()[p] == regs0[p]);
                    assert(!old(self).is_registered(key@));
                }
            }
            assert(self.entries_view() == old(self).entries_view());
        }
        match self.find_entry(&key) {
            Some(i) => {
                proof {
                    assert(self.entries_view()[i as int] == old(self).entry_of(key@));
                }
                Ok(self.entries[i].value.clone())
            },
            None => {
                let value = default.clone();
                let ghost entries0 = old(self).entries_view();
                self.entries.push(SettingsEntry { key: key, value: default, fresh: true });
                proof {
                    assert forall|p: int, q: int|
                        #![trigger self.entries_view()[p], self.entries_view()[q]]
                        0 <= p < q < self.entries_view().len() implies self.entries_view()[p].key@
                        != self.entries_view()[q].key@ by {
                        if q < entries0.len() {
                            assert(entries0[p].key@ != entries0[q].key@);
                            assert(self.entries_view()[p] == entries0[p]);
                            assert(self.entries_view()[q] == entries0[q]);
                        } else {
                            assert(self.entries_view()[p] == entries0[p]);
                            assert(self.entries_view()[q].key@ == key@);
                            assert(!old(self).has_key(key@));
                        }
                    }
                }
                Ok(value)
            },
        }
    }

    /// What updating decides: only a key that an entry carries can be
    /// set.
    pub open spec fn set_outcome(self, key: Seq<char>) -> Result<(), SetError> {
        if self.has_key(key) {
            Ok(())
        } else {
            Err(SetError::UnknownKey)
        }
    }

    /// Updates the value under a key. The entry keeps its place and its
    /// freshness; an unknown key changes nothing.
    pub fn set(&mut self, key: &String, value: String) -> (r: Result<(), SetError>)
        requires
            old(self).wf(),
        ensures
            final(self).wf(),
            r == old(self).set_outcome(key@),
            final(self).registered_view() == old(self).registered_view(),
            r is Err ==> *final(self) == *old(self),
            r is Ok ==> final(self).entries_view() == old(self).entries_view().update(
                old(self).idx_of(key@),
                SettingsEntry {
                    key: old(self).entry_of(key@).key,
                    value: value,
                    fresh: old(self).entry_of(key@).fresh,
                },
            ),
    {
        match self.find_entry(key) {
            None => Err(SetError::UnknownKey),
            Some(i) => {
                let entry_key = self.entries[i].key.clone();
                let fresh = self.entries[i].fresh;
                self.entries.set(i, SettingsEntry { key: entry_key, value: value, fresh: fresh });
                proof {
                    let ghost oe = old(self).entries_view();
                    assert(self.registered_view() == old(self).registered_view());
                    assert forall|p: int, q: int|
                        #![trigger self.entries_view()[p], self.entries_view()[q]]
                        0 <= p < q < self.entries_view().len() implies self.entries_view()[p].key@
                        != self.entries_view()[q].key@ by {
                        assert(oe[p].key@ != oe[q].key@);
                        assert(self.entries_view()[p].key@ == oe[p].key@);
                        assert(self.entries_view()[q].key@ == oe[q].key@);
                    }
                    assert(self.entries_view() =~= oe.update(
                        old(self).idx_of(key@),
                        SettingsEntry {
                            key: old(self).entry_of(key@).key,
                            value: value,
                            fresh: old(self).entry_of(key@).fresh,
                        },
                    ));
                }
                Ok(())
            },
        }
    }

    /// Looks the entry of this key up.
    fn find_entry(&self, key: &String) -> (r: Option<usize>)
        requires
            self.wf(),
        ensures
            r is Some <==> self.has_key(key@),
            r matches Some(i) ==> 0 <= i < self.entries_view().len() && i == self.idx_of(key@)
                && self.entries_view()[i as int].key@ == key@,
    {
        let n = self.entries.len();
        let mut i: usize = 0;
        while i < n
            invariant
                self.wf(),
                n == self.entries_view().len(),
                0 <= i <= n,
                forall|j: int| 0 <= j < i ==> self.entries_view()[j].key@ != key@,
            decreases n - i,
        {
            if self.entries[i].key == *key {
                proof {
                    assert(self.entries_view()[i as int].key@ == key@);
                    let k = self.idx_of(key@);
                    assert(self.entries_view()[k].key@ == key@);
                    assert(k == i as int);
                }
                return Some(i);
            }
            i = i + 1;
        }
        None
    }

    /// Whether this key was registered already.
    fn contains_registered(&self, key: &String) -> (r: bool)
        ensures
            r == self.is_registered(key@),
    {
        let n = self.registered.len();
        let mut i: usize = 0;
        while i < n
            invariant
                n == self.registered_view().len(),
                0 <= i <= n,
                forall|j: int| 0 <= j < i ==> self.registered_view()[j]@ != key@,
            decreases n - i,
        {
            if self.registered[i] == *key {
                proof {
                    assert(self.registered_view()[i as int]@ == key@);
                }
                return true;
            }
            i = i + 1;
        }
        false
    }
}

/// A module's settings, built once by registering each of its keys.
pub trait ApplicationSettings: Sized {
    /// Initializes the settings by calling [`SettingsStore::register`]
    /// once for each key.
    fn init(store: &mut SettingsStore) -> Result<Self, RegisterError>;
}

/// Glue that lets a settings struct take part in module initialization.
pub struct Adapter<T> {
    /// The wrapped settings.
    pub settings: T,
}

/// The setup struct of a settings adapter. There is nothing to set up.
#[derive(Debug, Default)]
pub struct Setup {}

} // verus!

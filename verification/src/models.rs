//! The credential store: accounts and the credentials linked to them.
//!
//! One `Account` owns at most one `LocalAccount` (password login and
//! WebAuthn keys) and at most one `OidcAccount` (federated login). All
//! rows live in one in-memory table set whose integrity constraints are
//! stated by [`Store::wf`]; every operation is a read-check-write sequence
//! over the whole store, mirroring a transaction over the real tables.

use vstd::prelude::*;

use crate::error::AuthError;

verus! {

use vstd::pervasive::VecAdditionalExecFns;
use vstd::string::StrSliceExecFns;

/// Maximum length of an account's public identifier.
///
/// All caps in this store are measured in characters (the length of a
/// string's view), not in encoded bytes: the verified model reasons over
/// character sequences, so a non-ASCII value may occupy more storage
/// bytes than its character count.
pub const MAX_IDENT_LEN: usize = 255;

/// Maximum length of a stored password, measured in characters like
/// every cap of this store.
pub const MAX_PASSWORD_LEN: usize = 1024;

/// Maximum length of a human-chosen label.
pub const MAX_LABEL_LEN: usize = 255;

/// Length of a time-based one-time-password secret.
pub const TOTP_SECRET_LEN: usize = 32;

/// A global identity.
pub struct Account {
    /// Opaque unique id.
    pub uuid: u128,
    /// Human-facing unique identifier.
    pub id: String,
}

/// The local-credential linkage of an account.
pub struct LocalAccount {
    /// Opaque unique id.
    pub uuid: u128,
    /// The password secret; `None` means no password factor is configured.
    /// Stored and compared as plain text: a known gap of the current
    /// design, kept deliberately until a hashing scheme is specified as
    /// its own storage-format change.
    pub password: Option<String>,
    /// The owning account's uuid.
    pub account: u128,
}

/// A federated-identity linkage: (issuer, subject) identifies the account
/// at the identity provider.
pub struct OidcAccount {
    /// Opaque unique id.
    pub uuid: u128,
    /// The identity provider's issuer url.
    pub issuer: String,
    /// The subject at that issuer.
    pub subject: String,
    /// The owning account's uuid.
    pub account: u128,
}

/// A passkey that was registered without attestation: kept in storage but
/// excluded from every authentication and "has another login method"
/// computation.
pub struct PasskeyBlob {
    /// The credential as the ceremony library serialized it; opaque to the
    /// logic.
    pub encoded: String,
}

/// A passkey whose attestation chained to a configured CA list.
pub struct AttestedPasskeyBlob {
    /// The credential id, the one part of the credential the logic reads.
    pub cred_id: Vec<u8>,
    /// The credential as the ceremony library serialized it; handed back
    /// to the library when a challenge is started.
    pub encoded: String,
}

/// The trust level of a registered passkey, kept as an explicit sum type
/// and matched exhaustively at every consumption site.
pub enum MaybeAttestedPasskey {
    /// Self-attested, lower trust; dead weight for the current flows.
    NotAttested(PasskeyBlob),
    /// Verified against the attestation CA list; usable for login.
    Attested(AttestedPasskeyBlob),
}

/// One registered authenticator of a local account.
pub struct WebAuthnKey {
    /// Opaque unique id.
    pub uuid: u128,
    /// The owning local account's uuid.
    pub local_account: u128,
    /// A human-chosen name for the authenticator.
    pub label: String,
    /// The registered credential and its trust level.
    pub key: MaybeAttestedPasskey,
}

/// A time-based one-time-password key: part of the data model as a future
/// second factor, consumed by no current flow.
pub struct TotpKey {
    /// Opaque unique id.
    pub uuid: u128,
    /// The owning local account's uuid.
    pub local_account: u128,
    /// A human-chosen name for the key.
    pub label: String,
    /// The shared secret.
    pub secret: Vec<u8>,
}

/// The table set of the credential store.
pub struct Store {
    pub accounts: Vec<Account>,
    pub local_accounts: Vec<LocalAccount>,
    pub oidc_accounts: Vec<OidcAccount>,
    pub webauthn_keys: Vec<WebAuthnKey>,
    pub totp_keys: Vec<TotpKey>,
}

impl Store {
    /// An empty store.
    pub fn new() -> (store: Store)
        ensures
            store.wf(),
            store.accounts@.len() == 0,
            store.local_accounts@.len() == 0,
            store.oidc_accounts@.len() == 0,
            store.webauthn_keys@.len() == 0,
            store.totp_keys@.len() == 0,
    {
        Store {
            accounts: Vec::new(),
            local_accounts: Vec::new(),
            oidc_accounts: Vec::new(),
            webauthn_keys: Vec::new(),
            totp_keys: Vec::new(),
        }
    }

    /// Some account carries this identifier.
    pub open spec fn has_account_ident(self, ident: Seq<char>) -> bool {
        exists|i: int| 0 <= i < self.accounts@.len() && self.accounts@[i].id@ == ident
    }

    /// The row index of the account carrying this identifier.
    pub open spec fn account_idx(self, ident: Seq<char>) -> int {
        choose|i: int| 0 <= i < self.accounts@.len() && self.accounts@[i].id@ == ident
    }

    /// The uuid of the account carrying this identifier.
    pub open spec fn account_uuid(self, ident: Seq<char>) -> u128 {
        self.accounts@[self.account_idx(ident)].uuid
    }

    /// Some account carries this uuid.
    pub open spec fn has_account_uuid(self, uuid: u128) -> bool {
        exists|i: int| 0 <= i < self.accounts@.len() && self.accounts@[i].uuid == uuid
    }

    /// The account of this uuid owns a local-account row.
    pub open spec fn has_local(self, account: u128) -> bool {
        exists|i: int|
            0 <= i < self.local_accounts@.len() && self.local_accounts@[i].account == account
    }

    /// The row index of the local account owned by this account.
    pub open spec fn local_idx(self, account: u128) -> int {
        choose|i: int|
            0 <= i < self.local_accounts@.len() && self.local_accounts@[i].account == account
    }

    /// The local account owned by this account.
    pub open spec fn local_of(self, account: u128) -> LocalAccount {
        self.local_accounts@[self.local_idx(account)]
    }

    /// Some local-account row carries this uuid.
    pub open spec fn has_local_uuid(self, uuid: u128) -> bool {
        exists|i: int|
            0 <= i < self.local_accounts@.len() && self.local_accounts@[i].uuid == uuid
    }

    /// The local account of this uuid owns at least one attested key.
    pub open spec fn has_attested_key(self, local_uuid: u128) -> bool {
        exists|i: int|
            0 <= i < self.webauthn_keys@.len() && self.webauthn_keys@[i].local_account
                == local_uuid && self.webauthn_keys@[i].key is Attested
    }

    /// The local account of this uuid owns an attested key with this
    /// credential id.
    pub open spec fn has_attested_key_with_cred(self, local_uuid: u128, cred: Seq<u8>) -> bool {
        exists|i: int|
            0 <= i < self.webauthn_keys@.len() && self.webauthn_keys@[i].local_account
                == local_uuid && self.webauthn_keys@[i].key is Attested
                && self.webauthn_keys@[i].key->Attested_0.cred_id@ == cred
    }

    /// Some federated row carries this (issuer, subject) pair.
    pub open spec fn has_oidc_pair(self, issuer: Seq<char>, subject: Seq<char>) -> bool {
        exists|i: int|
            0 <= i < self.oidc_accounts@.len() && self.oidc_accounts@[i].issuer@ == issuer
                && self.oidc_accounts@[i].subject@ == subject
    }

    /// The row index of the federated row carrying this pair.
    pub open spec fn oidc_pair_idx(self, issuer: Seq<char>, subject: Seq<char>) -> int {
        choose|i: int|
            0 <= i < self.oidc_accounts@.len() && self.oidc_accounts@[i].issuer@ == issuer
                && self.oidc_accounts@[i].subject@ == subject
    }

    /// The account linked to this (issuer, subject) pair.
    pub open spec fn oidc_pair_account(self, issuer: Seq<char>, subject: Seq<char>) -> u128 {
        self.oidc_accounts@[self.oidc_pair_idx(issuer, subject)].account
    }

    /// Some federated row carries this uuid.
    pub open spec fn has_oidc_uuid(self, uuid: u128) -> bool {
        exists|i: int|
            0 <= i < self.oidc_accounts@.len() && self.oidc_accounts@[i].uuid == uuid
    }

    /// The account of this uuid owns a federated row.
    pub open spec fn has_oidc_link(self, account: u128) -> bool {
        exists|i: int|
            0 <= i < self.oidc_accounts@.len() && self.oidc_accounts@[i].account == account
    }

    /// The store's integrity constraints: uuids and identifiers are
    /// unique per table, every credential row points at an existing owner,
    /// at most one local and one federated row per account, at most one
    /// federated row per (issuer, subject) pair, and every stored string
    /// respects its cap.
    pub open spec fn wf(self) -> bool {
        &&& forall|i: int, j: int|
            #![trigger self.accounts@[i], self.accounts@[j]]
            0 <= i < j < self.accounts@.len() ==> self.accounts@[i].uuid
                != self.accounts@[j].uuid && self.accounts@[i].id@
                != self.accounts@[j].id@
        &&& forall|i: int|
            0 <= i < self.accounts@.len() ==> (#[trigger] self.accounts@[i].id@).len()
                <= MAX_IDENT_LEN
        &&& forall|i: int, j: int|
            #![trigger self.local_accounts@[i], self.local_accounts@[j]]
            0 <= i < j < self.local_accounts@.len() ==> self.local_accounts@[i].uuid
                != self.local_accounts@[j].uuid && self.local_accounts@[i].account
                != self.local_accounts@[j].account
        &&& forall|i: int|
            0 <= i < self.local_accounts@.len() ==> self.has_account_uuid(
                #[trigger] self.local_accounts@[i].account,
            )
        &&& forall|i: int|
            0 <= i < self.local_accounts@.len() ==> ((#[trigger] self.local_accounts@[i].password)
                matches Some(p) ==> p@.len() <= MAX_PASSWORD_LEN)
        &&& forall|i: int, j: int|
            #![trigger self.oidc_accounts@[i], self.oidc_accounts@[j]]
            0 <= i < j < self.oidc_accounts@.len() ==> self.oidc_accounts@[i].uuid
                != self.oidc_accounts@[j].uuid && !(self.oidc_accounts@[i].issuer@
                == self.oidc_accounts@[j].issuer@ && self.oidc_accounts@[i].subject@
                == self.oidc_accounts@[j].subject@) && self.oidc_accounts@[i].account
                != self.oidc_accounts@[j].account
        &&& forall|i: int|
            0 <= i < self.oidc_accounts@.len() ==> self.has_account_uuid(
                #[trigger] self.oidc_accounts@[i].account,
            )
        &&& forall|i: int|
            0 <= i < self.oidc_accounts@.len() ==> (#[trigger] self.oidc_accounts@[i].issuer@).len()
                <= MAX_IDENT_LEN && self.oidc_accounts@[i].subject@.len() <= MAX_IDENT_LEN
        &&& forall|i: int, j: int|
            #![trigger self.webauthn_keys@[i], self.webauthn_keys@[j]]
            0 <= i < j < self.webauthn_keys@.len() ==> self.webauthn_keys@[i].uuid
                != self.webauthn_keys@[j].uuid
        &&& forall|i: int|
            0 <= i < self.webauthn_keys@.len() ==> self.has_local_uuid(
                #[trigger] self.webauthn_keys@[i].local_account,
            )
        &&& forall|i: int|
            0 <= i < self.webauthn_keys@.len() ==> (#[trigger] self.webauthn_keys@[i].label@).len()
                <= MAX_LABEL_LEN
        &&& forall|i: int, j: int|
            #![trigger self.totp_keys@[i], self.totp_keys@[j]]
            0 <= i < j < self.totp_keys@.len() ==> self.totp_keys@[i].uuid
                != self.totp_keys@[j].uuid
        &&& forall|i: int|
            0 <= i < self.totp_keys@.len() ==> self.has_local_uuid(
                #[trigger] self.totp_keys@[i].local_account,
            )
        &&& forall|i: int|
            0 <= i < self.totp_keys@.len() ==> (#[trigger] self.totp_keys@[i].label@).len()
                <= MAX_LABEL_LEN && self.totp_keys@[i].secret@.len() == TOTP_SECRET_LEN
    }

    /// Looks the account up by its public identifier.
    pub fn find_account(&self, identifier: &String) -> (r: Option<u128>)
        requires
            self.wf(),
        ensures
            r is Some <==> self.has_account_ident(identifier@),
            r is Some ==> r->0 == self.account_uuid(identifier@),
    {
        let n = self.accounts.len();
        let mut i: usize = 0;
        while i < n
            invariant
                self.wf(),
                n == self.accounts@.len(),
                0 <= i <= n,
                forall|j: int| 0 <= j < i ==> self.accounts@[j].id@ != identifier@,
            decreases n - i,
        {
            if self.accounts[i].id == *identifier {
                proof {
                    assert(self.accounts@[i as int].id@ == identifier@);
                    let k = self.account_idx(identifier@);
                    assert(self.accounts@[k].id@ == identifier@);
                    assert(k == i as int);
                }
                return Some(self.accounts[i].uuid);
            }
            i = i + 1;
        }
        None
    }

    /// Whether some account carries this uuid.
    pub fn contains_account_uuid(&self, uuid: u128) -> (r: bool)
        ensures
            r == self.has_account_uuid(uuid),
    {
        let n = self.accounts.len();
        let mut i: usize = 0;
        while i < n
            invariant
                n == self.accounts@.len(),
                0 <= i <= n,
                forall|j: int| 0 <= j < i ==> self.accounts@[j].uuid != uuid,
            decreases n - i,
        {
            if self.accounts[i].uuid == uuid {
                return true;
            }
            i = i + 1;
        }
        false
    }

    /// Looks the local account up by its owning account.
    pub fn find_local_idx(&self, account: u128) -> (r: Option<usize>)
        requires
            self.wf(),
        ensures
            r is Some <==> self.has_local(account),
            r is Some ==> 0 <= r->0 < self.local_accounts@.len() && r->0 == self.local_idx(account)
                && self.local_accounts@[r->0 as int].account == account,
    {
        let n = self.local_accounts.len();
        let mut i: usize = 0;
        while i < n
            invariant
                self.wf(),
                n == self.local_accounts@.len(),
                0 <= i <= n,
                forall|j: int| 0 <= j < i ==> self.local_accounts@[j].account != account,
            decreases n - i,
        {
            if self.local_accounts[i].account == account {
                proof {
                    assert(self.local_accounts@[i as int].account == account);
                    let k = self.local_idx(account);
                    assert(self.local_accounts@[k].account == account);
                    assert(k == i as int);
                }
                return Some(i);
            }
            i = i + 1;
        }
        None
    }

    /// Whether the local account of this uuid owns at least one attested
    /// key. Keys without attestation never count.
    pub fn contains_attested_key(&self, local_uuid: u128) -> (r: bool)
        ensures
            r == self.has_attested_key(local_uuid),
    {
        let n = self.webauthn_keys.len();
        let mut i: usize = 0;
        while i < n
            invariant
                n == self.webauthn_keys@.len(),
                0 <= i <= n,
                forall|j: int|
                    0 <= j < i ==> !(self.webauthn_keys@[j].local_account == local_uuid
                        && self.webauthn_keys@[j].key is Attested),
            decreases n - i,
        {
            let key = &self.webauthn_keys[i];
            if key.local_account == local_uuid {
                match &key.key {
                    MaybeAttestedPasskey::Attested(_) => {
                        return true;
                    },
                    MaybeAttestedPasskey::NotAttested(_) => {},
                }
            }
            i = i + 1;
        }
        false
    }

    /// Whether the local account of this uuid owns an attested key with
    /// this credential id.
    pub fn contains_attested_cred(&self, local_uuid: u128, cred: &Vec<u8>) -> (r: bool)
        ensures
            r == self.has_attested_key_with_cred(local_uuid, cred@),
    {
        let n = self.webauthn_keys.len();
        let mut i: usize = 0;
        while i < n
            invariant
                n == self.webauthn_keys@.len(),
                0 <= i <= n,
                forall|j: int|
                    0 <= j < i ==> !(self.webauthn_keys@[j].local_account == local_uuid
                        && self.webauthn_keys@[j].key is Attested
                        && self.webauthn_keys@[j].key->Attested_0.cred_id@ == cred@),
            decreases n - i,
        {
            let key = &self.webauthn_keys[i];
            if key.local_account == local_uuid {
                match &key.key {
                    MaybeAttestedPasskey::Attested(attested) => {
                        if vec_u8_eq(&attested.cred_id, cred) {
                            return true;
                        }
                    },
                    MaybeAttestedPasskey::NotAttested(_) => {},
                }
            }
            i = i + 1;
        }
        false
    }

    /// Looks the federated row up by its (issuer, subject) pair and
    /// returns the linked account.
    pub fn find_oidc_pair(&self, issuer: &String, subject: &String) -> (r: Option<u128>)
        requires
            self.wf(),
        ensures
            r is Some <==> self.has_oidc_pair(issuer@, subject@),
            r is Some ==> r->0 == self.oidc_pair_account(issuer@, subject@),
    {
        let n = self.oidc_accounts.len();
        let mut i: usize = 0;
        while i < n
            invariant
                self.wf(),
                n == self.oidc_accounts@.len(),
                0 <= i <= n,
                forall|j: int|
                    0 <= j < i ==> !(self.oidc_accounts@[j].issuer@ == issuer@
                        && self.oidc_accounts@[j].subject@ == subject@),
            decreases n - i,
        {
            let row = &self.oidc_accounts[i];
            if row.issuer == *issuer && row.subject == *subject {
                proof {
                    let k = self.oidc_pair_idx(issuer@, subject@);
                    assert(self.oidc_accounts@[k].issuer@ == issuer@ && self.oidc_accounts@[
                        k].subject@ == subject@);
                    assert(k == i as int);
                }
                return Some(self.oidc_accounts[i].account);
            }
            i = i + 1;
        }
        None
    }

    /// Whether some federated row carries this uuid.
    pub fn contains_oidc_uuid(&self, uuid: u128) -> (r: bool)
        ensures
            r == self.has_oidc_uuid(uuid),
    {
        let n = self.oidc_accounts.len();
        let mut i: usize = 0;
        while i < n
            invariant
                n == self.oidc_accounts@.len(),
                0 <= i <= n,
                forall|j: int| 0 <= j < i ==> self.oidc_accounts@[j].uuid != uuid,
            decreases n - i,
        {
            if self.oidc_accounts[i].uuid == uuid {
                return true;
            }
            i = i + 1;
        }
        false
    }

    /// Whether the account of this uuid owns a federated row.
    pub fn contains_oidc_link(&self, account: u128) -> (r: bool)
        ensures
            r == self.has_oidc_link(account),
    {
        let n = self.oidc_accounts.len();
        let mut i: usize = 0;
        while i < n
            invariant
                n == self.oidc_accounts@.len(),
                0 <= i <= n,
                forall|j: int| 0 <= j < i ==> self.oidc_accounts@[j].account != account,
            decreases n - i,
        {
            if self.oidc_accounts[i].account == account {
                return true;
            }
            i = i + 1;
        }
        false
    }
}

impl Store {
    /// Overwrites (or clears, for `None`) the password of the local
    /// account owned by this account. Returns whether such a local account
    /// exists; without one nothing changes.
    pub fn set_password(&mut self, account: u128, password: Option<String>) -> (r: bool)
        requires
            old(self).wf(),
            password matches Some(p) ==> p@.len() <= MAX_PASSWORD_LEN,
        ensures
            r == old(self).has_local(account),
            final(self).wf(),
            final(self).accounts == old(self).accounts,
            final(self).oidc_accounts == old(self).oidc_accounts,
            final(self).webauthn_keys == old(self).webauthn_keys,
            final(self).totp_keys == old(self).totp_keys,
            !r ==> final(self).local_accounts == old(self).local_accounts,
            r ==> final(self).local_accounts@ == old(self).local_accounts@.update(
                old(self).local_idx(account),
                LocalAccount {
                    uuid: old(self).local_of(account).uuid,
                    password: password,
                    account: account,
                },
            ),
    {
        match self.find_local_idx(account) {
            None => false,
            Some(i) => {
                let uuid = self.local_accounts[i].uuid;
                self.local_accounts.set(
                    i,
                    LocalAccount { uuid: uuid, password: password, account: account },
                );
                proof {
                    let ol = old(self).local_accounts@;
                    let la = self.local_accounts@;
                    let k = i as int;
                    assert forall|p: int, q: int|
                        #![trigger la[p], la[q]]
                        0 <= p < q < la.len() implies la[p].uuid != la[q].uuid && la[p].account
                        != la[q].account by {
                        assert(ol[p].uuid != ol[q].uuid && ol[p].account != ol[q].account);
                        assert(la[p].uuid == ol[p].uuid && la[p].account == ol[p].account);
                        assert(la[q].uuid == ol[q].uuid && la[q].account == ol[q].account);
                    }
                    assert(self.accounts@ == old(self).accounts@);
                    assert forall|p: int| 0 <= p < la.len() implies self.has_account_uuid(
                        #[trigger] la[p].account,
                    ) by {
                        assert(la[p].account == ol[p].account);
                        assert(old(self).has_account_uuid(ol[p].account));
                        let w = choose|w: int|
                            0 <= w < old(self).accounts@.len() && old(self).accounts@[w].uuid
                                == ol[p].account;
                        assert(self.accounts@[w].uuid == la[p].account);
                    }
                    assert forall|p: int| 0 <= p < la.len() implies ((#[trigger] la[p].password)
                        matches Some(pw) ==> pw@.len() <= MAX_PASSWORD_LEN) by {
                        if p != k {
                            assert(la[p] == ol[p]);
                        }
                    }
                    assert forall|p: int| 0 <= p < self.oidc_accounts@.len()
                        implies self.has_account_uuid(
                        #[trigger] self.oidc_accounts@[p].account,
                    ) by {
                        assert(old(self).has_account_uuid(old(self).oidc_accounts@[p].account));
                        let w = choose|w: int|
                            0 <= w < old(self).accounts@.len() && old(self).accounts@[w].uuid
                                == old(self).oidc_accounts@[p].account;
                        assert(self.accounts@[w].uuid == self.oidc_accounts@[p].account);
                    }
                    assert forall|p: int| 0 <= p < self.webauthn_keys@.len()
                        implies self.has_local_uuid(
                        #[trigger] self.webauthn_keys@[p].local_account,
                    ) by {
                        assert(old(self).has_local_uuid(old(self).webauthn_keys@[p].local_account));
                        let w = choose|w: int|
                            0 <= w < ol.len() && ol[w].uuid == old(
                                self,
                            ).webauthn_keys@[p].local_account;
                        assert(la[w].uuid == ol[w].uuid);
                        assert(la[w].uuid == self.webauthn_keys@[p].local_account);
                    }
                    assert forall|p: int| 0 <= p < self.totp_keys@.len()
                        implies self.has_local_uuid(
                        #[trigger] self.totp_keys@[p].local_account,
                    ) by {
                        assert(old(self).has_local_uuid(old(self).totp_keys@[p].local_account));
                        let w = choose|w: int|
                            0 <= w < ol.len() && ol[w].uuid == old(
                                self,
                            ).totp_keys@[p].local_account;
                        assert(la[w].uuid == ol[w].uuid);
                        assert(la[w].uuid == self.totp_keys@[p].local_account);
                    }
                }
                true
            },
        }
    }

    /// What linking a verified federated identity decides: an existing
    /// (issuer, subject) row logs into its linked account; otherwise a new
    /// account and its federated row are inserted as one unit, unless one
    /// of the fresh ids or the fresh identifier collides with a stored
    /// row.
    pub open spec fn provision_outcome(
        self,
        issuer: Seq<char>,
        subject: Seq<char>,
        ident: Seq<char>,
        account_uuid: u128,
        oidc_uuid: u128,
    ) -> Result<u128, AuthError> {
        if self.has_oidc_pair(issuer, subject) {
            Ok(self.oidc_pair_account(issuer, subject))
        } else if self.has_account_uuid(account_uuid) || self.has_oidc_uuid(oidc_uuid)
            || self.has_account_ident(ident) {
            Err(AuthError::StoreConflict)
        } else {
            Ok(account_uuid)
        }
    }

    /// Links a verified federated identity to an account: reuses the
    /// account already linked to (issuer, subject), or creates a new
    /// account together with its federated row. The two inserts happen in
    /// one call so that no other operation ever observes one without the
    /// other.
    pub fn provision_oidc(
        &mut self,
        issuer: String,
        subject: String,
        identifier: String,
        account_uuid: u128,
        oidc_uuid: u128,
    ) -> (r: Result<u128, AuthError>)
        requires
            old(self).wf(),
            issuer@.len() <= MAX_IDENT_LEN,
            subject@.len() <= MAX_IDENT_LEN,
            identifier@.len() <= MAX_IDENT_LEN,
        ensures
            final(self).wf(),
            r == old(self).provision_outcome(
                issuer@,
                subject@,
                identifier@,
                account_uuid,
                oidc_uuid,
            ),
            r is Err || old(self).has_oidc_pair(issuer@, subject@) ==> *final(self) == *old(self),
            r is Ok && !old(self).has_oidc_pair(issuer@, subject@) ==> {
                &&& final(self).accounts@ == old(self).accounts@.push(
                    Account { uuid: account_uuid, id: identifier },
                )
                &&& final(self).oidc_accounts@ == old(self).oidc_accounts@.push(
                    OidcAccount {
                        uuid: oidc_uuid,
                        issuer: issuer,
                        subject: subject,
                        account: account_uuid,
                    },
                )
                &&& final(self).local_accounts == old(self).local_accounts
                &&& final(self).webauthn_keys == old(self).webauthn_keys
                &&& final(self).totp_keys == old(self).totp_keys
            },
    {
        if let Some(linked) = self.find_oidc_pair(&issuer, &subject) {
            return Ok(linked);
        }
        if self.contains_account_uuid(account_uuid) || self.contains_oidc_uuid(oidc_uuid) {
            return Err(AuthError::StoreConflict);
        }
        if self.find_account(&identifier).is_some() {
            return Err(AuthError::StoreConflict);
        }
        let account = Account { uuid: account_uuid, id: identifier };
        let oidc = OidcAccount {
            uuid: oidc_uuid,
            issuer: issuer,
            subject: subject,
            account: account_uuid,
        };
        self.accounts.push(account);
        self.oidc_accounts.push(oidc);
        proof {
            let oa = old(self).accounts@;
            let na = self.accounts@;
            let oo = old(self).oidc_accounts@;
            let no = self.oidc_accounts@;
            assert forall|p: int, q: int|
                #![trigger na[p], na[q]]
                0 <= p < q < na.len() implies na[p].uuid != na[q].uuid && na[p].id@ != na[q].id@ by {
                if q < oa.len() {
                    assert(oa[p].uuid != oa[q].uuid && oa[p].id@ != oa[q].id@);
                } else {
                    assert(na[q].uuid == account_uuid && na[q].id@ == identifier@);
                    assert(!old(self).has_account_uuid(account_uuid));
                    assert(!old(self).has_account_ident(identifier@));
                    assert(na[p] == oa[p]);
                }
            }
            assert forall|p: int| 0 <= p < na.len() implies (#[trigger] na[p].id@).len()
                <= MAX_IDENT_LEN by {
                if p < oa.len() {
                    assert(na[p] == oa[p]);
                }
            }
            assert forall|p: int| 0 <= p < self.local_accounts@.len() implies self.has_account_uuid(
                #[trigger] self.local_accounts@[p].account,
            ) by {
                assert(old(self).has_account_uuid(self.local_accounts@[p].account));
                let w = choose|w: int|
                    0 <= w < oa.len() && oa[w].uuid == self.local_accounts@[p].account;
                assert(na[w].uuid == self.local_accounts@[p].account);
            }
            assert forall|p: int, q: int|
                #![trigger no[p], no[q]]
                0 <= p < q < no.len() implies no[p].uuid != no[q].uuid && !(no[p].issuer@
                == no[q].issuer@ && no[p].subject@ == no[q].subject@) && no[p].account
                != no[q].account by {
                if q < oo.len() {
                    assert(oo[p].uuid != oo[q].uuid);
                } else {
                    assert(no[q].uuid == oidc_uuid);
                    assert(!old(self).has_oidc_uuid(oidc_uuid));
                    assert(!old(self).has_oidc_pair(issuer@, subject@));
                    assert(no[p] == oo[p]);
                    assert(old(self).has_account_uuid(oo[p].account));
                    assert(!old(self).has_account_uuid(account_uuid));
                }
            }
            assert forall|p: int| 0 <= p < no.len() implies self.has_account_uuid(
                #[trigger] no[p].account,
            ) by {
                if p < oo.len() {
                    assert(no[p] == oo[p]);
                    assert(old(self).has_account_uuid(oo[p].account));
                    let w = choose|w: int| 0 <= w < oa.len() && oa[w].uuid == oo[p].account;
                    assert(na[w].uuid == no[p].account);
                } else {
                    assert(na[oa.len() as int].uuid == account_uuid);
                }
            }
            assert forall|p: int| 0 <= p < no.len() implies (#[trigger] no[p].issuer@).len()
                <= MAX_IDENT_LEN && no[p].subject@.len() <= MAX_IDENT_LEN by {
                if p < oo.len() {
                    assert(no[p] == oo[p]);
                }
            }
        }
        Ok(account_uuid)
    }

    /// The serialized credentials of the attested keys owned by this local
    /// account, in storage order. Keys without attestation are filtered
    /// out.
    pub fn attested_encodings(&self, local_uuid: u128) -> (r: Vec<String>)
        ensures
            r@ == attested_materials(self.webauthn_keys@, local_uuid),
    {
        let n = self.webauthn_keys.len();
        let mut r: Vec<String> = Vec::new();
        let mut i: usize = 0;
        while i < n
            invariant
                n == self.webauthn_keys@.len(),
                0 <= i <= n,
                r@ == attested_materials(self.webauthn_keys@.subrange(0, i as int), local_uuid),
            decreases n - i,
        {
            let ghost ks = self.webauthn_keys@;
            proof {
                assert(ks.subrange(0, i + 1 as int).drop_last() =~= ks.subrange(0, i as int));
                assert(ks.subrange(0, i + 1 as int).last() == ks[i as int]);
            }
            let key = &self.webauthn_keys[i];
            if key.local_account == local_uuid {
                match &key.key {
                    MaybeAttestedPasskey::Attested(attested) => {
                        r.push(attested.encoded.clone());
                    },
                    MaybeAttestedPasskey::NotAttested(_) => {},
                }
            }
            i = i + 1;
        }
        proof {
            assert(self.webauthn_keys@.subrange(0, n as int) =~= self.webauthn_keys@);
        }
        r
    }
}

/// The serialized credentials of the attested keys of this local account,
/// read off a key table in storage order.
pub open spec fn attested_materials(keys: Seq<WebAuthnKey>, local_uuid: u128) -> Seq<String>
    decreases keys.len(),
{
    if keys.len() == 0 {
        Seq::empty()
    } else {
        let prefix = attested_materials(keys.drop_last(), local_uuid);
        let k = keys.last();
        if k.local_account == local_uuid && k.key is Attested {
            prefix.push(k.key->Attested_0.encoded)
        } else {
            prefix
        }
    }
}

/// A local account has an attested key exactly when the list of its
/// attested credentials is not empty.
pub proof fn lemma_attested_materials_len(keys: Seq<WebAuthnKey>, local_uuid: u128)
    ensures
        attested_materials(keys, local_uuid).len() > 0 <==> (exists|i: int|
            0 <= i < keys.len() && keys[i].local_account == local_uuid && keys[i].key is Attested),
    decreases keys.len(),
{
    if keys.len() == 0 {
    } else {
        let prefix = keys.drop_last();
        lemma_attested_materials_len(prefix, local_uuid);
        let last = keys.last();
        if last.local_account == local_uuid && last.key is Attested {
            assert(keys[keys.len() - 1].local_account == local_uuid && keys[keys.len()
                - 1].key is Attested);
        } else {
            if attested_materials(keys, local_uuid).len() > 0 {
                let w = choose|i: int|
                    0 <= i < prefix.len() && prefix[i].local_account == local_uuid
                        && prefix[i].key is Attested;
                assert(keys[w].local_account == local_uuid && keys[w].key is Attested);
            }
            if exists|i: int|
                0 <= i < keys.len() && keys[i].local_account == local_uuid
                    && keys[i].key is Attested {
                let w = choose|i: int|
                    0 <= i < keys.len() && keys[i].local_account == local_uuid
                        && keys[i].key is Attested;
                assert(w != keys.len() - 1);
                assert(prefix[w].local_account == local_uuid && prefix[w].key is Attested);
            }
        }
    }
}

impl Store {
    /// Checks the integrity constraints at run time, for callers that
    /// receive a store from outside and must not trust it.
    pub fn check_wf(&self) -> (r: bool)
        ensures
            r == self.wf(),
    {
        let an = self.accounts.len();
        let mut i: usize = 0;
        while i < an
            invariant
                an == self.accounts@.len(),
                0 <= i <= an,
                forall|p: int, q: int|
                    #![trigger self.accounts@[p], self.accounts@[q]]
                    0 <= p < q < an && p < i ==> self.accounts@[p].uuid != self.accounts@[q].uuid
                        && self.accounts@[p].id@ != self.accounts@[q].id@,
                forall|p: int|
                    0 <= p < i ==> (#[trigger] self.accounts@[p].id@).len() <= MAX_IDENT_LEN,
            decreases an - i,
        {
            if self.accounts[i].id.as_str().unicode_len() > MAX_IDENT_LEN {
                return false;
            }
            let mut j: usize = i + 1;
            while j < an
                invariant
                    an == self.accounts@.len(),
                    0 <= i < j <= an,
                    forall|q: int|
                        #![trigger self.accounts@[q]]
                        i < q < j ==> self.accounts@[i as int].uuid != self.accounts@[q].uuid
                            && self.accounts@[i as int].id@ != self.accounts@[q].id@,
                decreases an - j,
            {
                if self.accounts[i].uuid == self.accounts[j].uuid || self.accounts[i].id
                    == self.accounts[j].id {
                    return false;
                }
                j = j + 1;
            }
            i = i + 1;
        }
        let ln = self.local_accounts.len();
        let mut i: usize = 0;
        while i < ln
            invariant
                ln == self.local_accounts@.len(),
                0 <= i <= ln,
                forall|p: int, q: int|
                    #![trigger self.local_accounts@[p], self.local_accounts@[q]]
                    0 <= p < q < ln && p < i ==> self.local_accounts@[p].uuid
                        != self.local_accounts@[q].uuid && self.local_accounts@[p].account
                        != self.local_accounts@[q].account,
                forall|p: int|
                    0 <= p < i ==> self.has_account_uuid(
                        #[trigger] self.local_accounts@[p].account,
                    ),
                forall|p: int|
                    0 <= p < i ==> ((#[trigger] self.local_accounts@[p].password) matches Some(pw)
                        ==> pw@.len() <= MAX_PASSWORD_LEN),
            decreases ln - i,
        {
            if !self.contains_account_uuid(self.local_accounts[i].account) {
                return false;
            }
            match &self.local_accounts[i].password {
                Some(password) => {
                    if password.as_str().unicode_len() > MAX_PASSWORD_LEN {
                        return false;
                    }
                },
                None => {},
            }
            let mut j: usize = i + 1;
            while j < ln
                invariant
                    ln == self.local_accounts@.len(),
                    0 <= i < j <= ln,
                    forall|q: int|
                        #![trigger self.local_accounts@[q]]
                        i < q < j ==> self.local_accounts@[i as int].uuid
                            != self.local_accounts@[q].uuid && self.local_accounts@[i
                            as int].account != self.local_accounts@[q].account,
                decreases ln - j,
            {
                if self.local_accounts[i].uuid == self.local_accounts[j].uuid
                    || self.local_accounts[i].account == self.local_accounts[j].account {
                    return false;
                }
                j = j + 1;
            }
            i = i + 1;
        }
        let on = self.oidc_accounts.len();
        let mut i: usize = 0;
        while i < on
            invariant
                on == self.oidc_accounts@.len(),
                0 <= i <= on,
                forall|p: int, q: int|
                    #![trigger self.oidc_accounts@[p], self.oidc_accounts@[q]]
                    0 <= p < q < on && p < i ==> self.oidc_accounts@[p].uuid
                        != self.oidc_accounts@[q].uuid && !(self.oidc_accounts@[p].issuer@
                        == self.oidc_accounts@[q].issuer@ && self.oidc_accounts@[p].subject@
                        == self.oidc_accounts@[q].subject@) && self.oidc_accounts@[p].account
                        != self.oidc_accounts@[q].account,
                forall|p: int|
                    0 <= p < i ==> self.has_account_uuid(
                        #[trigger] self.oidc_accounts@[p].account,
                    ),
                forall|p: int|
                    0 <= p < i ==> (#[trigger] self.oidc_accounts@[p].issuer@).len()
                        <= MAX_IDENT_LEN && self.oidc_accounts@[p].subject@.len()
                        <= MAX_IDENT_LEN,
            decreases on - i,
        {
            if !self.contains_account_uuid(self.oidc_accounts[i].account) {
                return false;
            }
            if self.oidc_accounts[i].issuer.as_str().unicode_len() > MAX_IDENT_LEN
                || self.oidc_accounts[i].subject.as_str().unicode_len() > MAX_IDENT_LEN {
                return false;
            }
            let mut j: usize = i + 1;
            while j < on
                invariant
                    on == self.oidc_accounts@.len(),
                    0 <= i < j <= on,
                    forall|q: int|
                        #![trigger self.oidc_accounts@[q]]
                        i < q < j ==> self.oidc_accounts@[i as int].uuid
                            != self.oidc_accounts@[q].uuid && !(self.oidc_accounts@[i
                            as int].issuer@ == self.oidc_accounts@[q].issuer@
                            && self.oidc_accounts@[i as int].subject@
                            == self.oidc_accounts@[q].subject@) && self.oidc_accounts@[i
                            as int].account != self.oidc_accounts@[q].account,
                decreases on - j,
            {
                if self.oidc_accounts[i].uuid == self.oidc_accounts[j].uuid
                    || self.oidc_accounts[i].account == self.oidc_accounts[j].account {
                    return false;
                }
                if self.oidc_accounts[i].issuer == self.oidc_accounts[j].issuer
                    && self.oidc_accounts[i].subject == self.oidc_accounts[j].subject {
                    return false;
                }
                j = j + 1;
            }
            i = i + 1;
        }
        let kn = self.webauthn_keys.len();
        let mut i: usize = 0;
        while i < kn
            invariant
                kn == self.webauthn_keys@.len(),
                0 <= i <= kn,
                forall|p: int, q: int|
                    #![trigger self.webauthn_keys@[p], self.webauthn_keys@[q]]
                    0 <= p < q < kn && p < i ==> self.webauthn_keys@[p].uuid
                        != self.webauthn_keys@[q].uuid,
                forall|p: int|
                    0 <= p < i ==> self.has_local_uuid(
                        #[trigger] self.webauthn_keys@[p].local_account,
                    ),
                forall|p: int|
                    0 <= p < i ==> (#[trigger] self.webauthn_keys@[p].label@).len()
                        <= MAX_LABEL_LEN,
            decreases kn - i,
        {
            if !self.contains_local_uuid(self.webauthn_keys[i].local_account) {
                return false;
            }
            if self.webauthn_keys[i].label.as_str().unicode_len() > MAX_LABEL_LEN {
                return false;
            }
            let mut j: usize = i + 1;
            while j < kn
                invariant
                    kn == self.webauthn_keys@.len(),
                    0 <= i < j <= kn,
                    forall|q: int|
                        #![trigger self.webauthn_keys@[q]]
                        i < q < j ==> self.webauthn_keys@[i as int].uuid
                            != self.webauthn_keys@[q].uuid,
                decreases kn - j,
            {
                if self.webauthn_keys[i].uuid == self.webauthn_keys[j].uuid {
                    return false;
                }
                j = j + 1;
            }
            i = i + 1;
        }
        let tn = self.totp_keys.len();
        let mut i: usize = 0;
        while i < tn
            invariant
                tn == self.totp_keys@.len(),
                0 <= i <= tn,
                forall|p: int, q: int|
                    #![trigger self.totp_keys@[p], self.totp_keys@[q]]
                    0 <= p < q < tn && p < i ==> self.totp_keys@[p].uuid
                        != self.totp_keys@[q].uuid,
                forall|p: int|
                    0 <= p < i ==> self.has_local_uuid(#[trigger] self.totp_keys@[p].local_account),
                forall|p: int|
                    0 <= p < i ==> (#[trigger] self.totp_keys@[p].label@).len() <= MAX_LABEL_LEN
                        && self.totp_keys@[p].secret@.len() == TOTP_SECRET_LEN,
            decreases tn - i,
        {
            if !self.contains_local_uuid(self.totp_keys[i].local_account) {
                return false;
            }
            if self.totp_keys[i].label.as_str().unicode_len() > MAX_LABEL_LEN {
                return false;
            }
            if self.totp_keys[i].secret.len() != TOTP_SECRET_LEN {
                return false;
            }
            let mut j: usize = i + 1;
            while j < tn
                invariant
                    tn == self.totp_keys@.len(),
                    0 <= i < j <= tn,
                    forall|q: int|
                        #![trigger self.totp_keys@[q]]
                        i < q < j ==> self.totp_keys@[i as int].uuid != self.totp_keys@[q].uuid,
                decreases tn - j,
            {
                if self.totp_keys[i].uuid == self.totp_keys[j].uuid {
                    return false;
                }
                j = j + 1;
            }
            i = i + 1;
        }
        true
    }

    /// Whether some local-account row carries this uuid.
    pub fn contains_local_uuid(&self, uuid: u128) -> (r: bool)
        ensures
            r == self.has_local_uuid(uuid),
    {
        let n = self.local_accounts.len();
        let mut i: usize = 0;
        while i < n
            invariant
                n == self.local_accounts@.len(),
                0 <= i <= n,
                forall|j: int| 0 <= j < i ==> self.local_accounts@[j].uuid != uuid,
            decreases n - i,
        {
            if self.local_accounts[i].uuid == uuid {
                return true;
            }
            i = i + 1;
        }
        false
    }
}

/// Element-wise equality of two byte vectors.
pub fn vec_u8_eq(a: &Vec<u8>, b: &Vec<u8>) -> (r: bool)
    ensures
        r == (a@ == b@),
{
    if a.len() != b.len() {
        proof {
            assert(a@ != b@);
        }
        return false;
    }
    let n = a.len();
    let mut i: usize = 0;
    while i < n
        invariant
            n == a@.len() && n == b@.len(),
            0 <= i <= n,
            forall|j: int| 0 <= j < i ==> a@[j] == b@[j],
        decreases n - i,
    {
        if a[i] != b[i] {
            proof {
                assert(a@[i as int] != b@[i as int]);
            }
            return false;
        }
        i = i + 1;
    }
    proof {
        assert(a@ =~= b@);
    }
    true
}

} // verus!

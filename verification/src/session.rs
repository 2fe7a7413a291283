//! Per-browser session state, and the store that persists it.
//!
//! A session is a typed record: the logged-in account, if any, and one
//! slot per in-flight challenge flow. A slot is always read by removing
//! it, so a challenge can be consumed by at most one finish call.

use vstd::prelude::*;

use crate::oidc::OidcSessionState;
use crate::webauthn::WebauthnChallengeState;

verus! {

/// The typed content of one session.
pub struct SessionData {
    /// The logged-in account's uuid; `None` while not logged in.
    pub account: Option<u128>,
    /// The in-flight WebAuthn login challenge, if one was started.
    pub login_local_webauthn: Option<WebauthnChallengeState>,
    /// The in-flight federated login state, if one was started.
    pub login_oidc: Option<OidcSessionState>,
}

impl SessionData {
    /// A fresh session: not logged in, no flow in flight.
    pub fn new() -> (session: SessionData)
        ensures
            session.account is None,
            session.login_local_webauthn is None,
            session.login_oidc is None,
    {
        SessionData { account: None, login_local_webauthn: None, login_oidc: None }
    }

    /// Removes and returns the WebAuthn challenge slot. After the call the
    /// slot is empty, whatever it held: a challenge can be consumed once.
    pub fn take_webauthn_challenge(&mut self) -> (r: Option<WebauthnChallengeState>)
        ensures
            r == old(self).login_local_webauthn,
            final(self).login_local_webauthn is None,
            final(self).account == old(self).account,
            final(self).login_oidc == old(self).login_oidc,
    {
        self.login_local_webauthn.take()
    }

    /// Removes and returns the federated login slot. After the call the
    /// slot is empty, whatever it held: a challenge can be consumed once.
    pub fn take_oidc_state(&mut self) -> (r: Option<OidcSessionState>)
        ensures
            r == old(self).login_oidc,
            final(self).login_oidc is None,
            final(self).account == old(self).account,
            final(self).login_local_webauthn == old(self).login_local_webauthn,
    {
        self.login_oidc.take()
    }
}

/// One persisted session row.
pub struct SessionRecord {
    /// The opaque session id from the client's cookie.
    pub id: i128,
    /// Absolute expiry, in seconds.
    pub expires_at: i64,
    /// The session's content.
    pub data: SessionData,
}

/// The store of session rows, keyed by session id.
///
/// Rows with an expiry at or before "now" are dead: `load` never returns
/// them and `delete_expired` drops them.
pub struct RormStore {
    rows: Vec<SessionRecord>,
}

impl RormStore {
    /// Constructs a new, empty store.
    pub fn new() -> (store: RormStore)
        ensures
            store.rows_view().len() == 0,
            store.wf(),
    {
        RormStore { rows: Vec::new() }
    }

    /// The stored rows.
    pub closed spec fn rows_view(self) -> Seq<SessionRecord> {
        self.rows@
    }

    /// Some row carries this id.
    pub open spec fn has_id(self, id: i128) -> bool {
        exists|i: int| 0 <= i < self.rows_view().len() && self.rows_view()[i].id == id
    }

    /// The index of the row carrying this id.
    pub open spec fn idx_of(self, id: i128) -> int {
        choose|i: int| 0 <= i < self.rows_view().len() && self.rows_view()[i].id == id
    }

    /// The row carrying this id.
    pub open spec fn row_of(self, id: i128) -> SessionRecord {
        self.rows_view()[self.idx_of(id)]
    }

    /// Session ids are unique.
    pub open spec fn wf(self) -> bool {
        forall|i: int, j: int|
            #![trigger self.rows_view()[i], self.rows_view()[j]]
            0 <= i < j < self.rows_view().len() ==> self.rows_view()[i].id
                != self.rows_view()[j].id
    }

    /// Inserts a new row under a fresh id. Returns false, and stores
    /// nothing, when the id is taken: the caller then draws another id and
    /// tries again.
    pub fn create(&mut self, record: SessionRecord) -> (r: bool)
        requires
            old(self).wf(),
        ensures
            final(self).wf(),
            r == !old(self).has_id(record.id),
            r ==> final(self).rows_view() == old(self).rows_view().push(record),
            !r ==> *final(self) == *old(self),
    {
        if self.contains_id(record.id) {
            return false;
        }
        self.rows.push(record);
        proof {
            let nr = self.rows@;
            let or = old(self).rows@;
            assert forall|i: int, j: int|
                #![trigger nr[i], nr[j]]
                0 <= i < j < nr.len() implies nr[i].id != nr[j].id by {
                if j < or.len() {
                    assert(or[i].id != or[j].id);
                } else {
                    assert(nr[i] == or[i]);
                    assert(!old(self).has_id(nr[j].id));
                }
            }
        }
        true
    }

    /// Saves a row: overwrites the row with the same id, or appends the
    /// row if its id is new.
    pub fn save(&mut self, record: SessionRecord) -> (r: ())
        requires
            old(self).wf(),
        ensures
            final(self).wf(),
            old(self).has_id(record.id) ==> final(self).rows_view() == old(
                self,
            ).rows_view().update(old(self).idx_of(record.id), record),
            !old(self).has_id(record.id) ==> final(self).rows_view() == old(
                self,
            ).rows_view().push(record),
    {
        let n = self.rows.len();
        let mut i: usize = 0;
        while i < n
            invariant
                self.wf(),
                *self == *old(self),
                n == self.rows@.len(),
                0 <= i <= n,
                forall|j: int| 0 <= j < i ==> self.rows@[j].id != record.id,
            decreases n - i,
        {
            if self.rows[i].id == record.id {
                proof {
                    let k = old(self).idx_of(record.id);
                    assert(old(self).rows_view()[k].id == record.id);
                    assert(k == i as int);
                }
                self.rows.set(i, record);
                proof {
                    let nr = self.rows@;
                    let or = old(self).rows@;
                    assert forall|p: int, q: int|
                        #![trigger nr[p], nr[q]]
                        0 <= p < q < nr.len() implies nr[p].id != nr[q].id by {
                        assert(or[p].id != or[q].id);
                        assert(nr[p].id == or[p].id && nr[q].id == or[q].id);
                    }
                }
                return ;
            }
            i = i + 1;
        }
        self.rows.push(record);
        proof {
            let nr = self.rows@;
            let or = old(self).rows@;
            assert forall|p: int, q: int|
                #![trigger nr[p], nr[q]]
                0 <= p < q < nr.len() implies nr[p].id != nr[q].id by {
                if q < or.len() {
                    assert(or[p].id != or[q].id);
                } else {
                    assert(nr[p] == or[p]);
                }
            }
        }
    }

    /// Loads the live row of this id: `None` when no row carries the id or
    /// when the row has expired.
    pub fn load(&self, id: i128, now: i64) -> (r: Option<&SessionRecord>)
        requires
            self.wf(),
        ensures
            r is Some <==> self.has_id(id) && self.row_of(id).expires_at > now,
            r matches Some(record) ==> *record == self.row_of(id),
    {
        let n = self.rows.len();
        let mut i: usize = 0;
        while i < n
            invariant
                self.wf(),
                n == self.rows@.len(),
                0 <= i <= n,
                forall|j: int| 0 <= j < i ==> self.rows@[j].id != id,
            decreases n - i,
        {
            if self.rows[i].id == id {
                proof {
                    let k = self.idx_of(id);
                    assert(self.rows_view()[k].id == id);
                    assert(k == i as int);
                }
                if self.rows[i].expires_at > now {
                    return Some(&self.rows[i]);
                } else {
                    return None;
                }
            }
            i = i + 1;
        }
        None
    }

    /// Removes the row of this id, if any.
    pub fn delete(&mut self, id: i128)
        requires
            old(self).wf(),
        ensures
            final(self).wf(),
            !final(self).has_id(id),
            old(self).has_id(id) ==> final(self).rows_view() == old(self).rows_view().remove(
                old(self).idx_of(id),
            ),
            !old(self).has_id(id) ==> *final(self) == *old(self),
    {
        let n = self.rows.len();
        let mut i: usize = 0;
        while i < n
            invariant
                self.wf(),
                *self == *old(self),
                n == self.rows@.len(),
                0 <= i <= n,
                forall|j: int| 0 <= j < i ==> self.rows@[j].id != id,
            decreases n - i,
        {
            if self.rows[i].id == id {
                proof {
                    let k = old(self).idx_of(id);
                    assert(old(self).rows_view()[k].id == id);
                    assert(k == i as int);
                }
                self.rows.remove(i);
                proof {
                    let nr = self.rows@;
                    let or = old(self).rows@;
                    assert forall|p: int, q: int|
                        #![trigger nr[p], nr[q]]
                        0 <= p < q < nr.len() implies nr[p].id != nr[q].id by {
                        let p0: int = if p < i as int {
                            p
                        } else {
                            p + 1
                        };
                        let q0: int = if q < i as int {
                            q
                        } else {
                            q + 1
                        };
                        assert(or[p0].id != or[q0].id);
                        assert(nr[p] == or[p0] && nr[q] == or[q0]);
                    }
                    assert forall|p: int| 0 <= p < nr.len() implies nr[p].id != id by {
                        let p0: int = if p < i as int {
                            p
                        } else {
                            p + 1
                        };
                        assert(nr[p] == or[p0]);
                        if p0 != i as int {
                            assert(or[p0].id != or[i as int].id || or[i as int].id != or[p0].id);
                        }
                    }
                }
                return ;
            }
            i = i + 1;
        }
    }

    /// Whether some row carries this id.
    pub fn contains_id(&self, id: i128) -> (r: bool)
        ensures
            r == self.has_id(id),
    {
        let n = self.rows.len();
        let mut i: usize = 0;
        while i < n
            invariant
                n == self.rows@.len(),
                0 <= i <= n,
                forall|j: int| 0 <= j < i ==> self.rows@[j].id != id,
            decreases n - i,
        {
            if self.rows[i].id == id {
                return true;
            }
            i = i + 1;
        }
        false
    }

    /// Drops every row whose expiry is at or before "now". Live rows stay,
    /// in their stored order.
    pub fn delete_expired(&mut self, now: i64)
        requires
            old(self).wf(),
        ensures
            final(self).wf(),
            final(self).rows_view() == old(self).rows_view().filter(
                |row: SessionRecord| row.expires_at > now,
            ),
    {
        let ghost pred = |row: SessionRecord| row.expires_at > now;
        let ghost orig = old(self).rows@;
        let mut i: usize = 0;
        let ghost mut j: int = 0;
        while i < self.rows.len()
            invariant
                0 <= i as int <= self.rows@.len(),
                0 <= j <= orig.len(),
                orig == old(self).rows@,
                pred == (|row: SessionRecord| row.expires_at > now),
                self.rows@ == orig.subrange(0, j).filter(pred) + orig.skip(j),
                i as int == orig.subrange(0, j).filter(pred).len(),
            decreases self.rows@.len() - i,
        {
            proof {
                assert(orig.len() - j == self.rows@.len() - i);
                assert(j < orig.len());
                assert(self.rows@[i as int] == orig.skip(j)[0]);
                assert(self.rows@[i as int] == orig[j]);
                let sub1 = orig.subrange(0, j + 1);
                assert(sub1.drop_last() =~= orig.subrange(0, j));
                assert(sub1.last() == orig[j]);
                reveal_with_fuel(Seq::filter, 2);
                assert(sub1.filter(pred) == if pred(orig[j]) {
                    orig.subrange(0, j).filter(pred).push(orig[j])
                } else {
                    orig.subrange(0, j).filter(pred)
                });
            }
            if self.rows[i].expires_at <= now {
                self.rows.remove(i);
                proof {
                    assert(!pred(orig[j]));
                    assert(self.rows@ =~= orig.subrange(0, j + 1).filter(pred) + orig.skip(j + 1));
                    j = j + 1;
                }
            } else {
                proof {
                    assert(pred(orig[j]));
                    assert(self.rows@ =~= orig.subrange(0, j + 1).filter(pred) + orig.skip(j + 1));
                    j = j + 1;
                }
                i = i + 1;
            }
        }
        proof {
            assert(j == orig.len());
            assert(orig.subrange(0, orig.len() as int) =~= orig);
            assert(orig.skip(j) =~= Seq::<SessionRecord>::empty());
            assert(self.rows@ =~= orig.filter(pred));
            lemma_filter_unique_ids(orig, pred);
        }
    }
}

/// Filtering a row table whose ids are unique keeps the ids unique: the
/// rows that stay are rows of the original table.
pub proof fn lemma_filter_unique_ids(rows: Seq<SessionRecord>, pred: spec_fn(SessionRecord) -> bool)
    requires
        forall|i: int, j: int|
            #![trigger rows[i], rows[j]]
            0 <= i < j < rows.len() ==> rows[i].id != rows[j].id,
    ensures
        forall|i: int|
            0 <= i < rows.filter(pred).len() ==> exists|k: int|
                0 <= k < rows.len() && rows[k] == #[trigger] rows.filter(pred)[i],
        forall|i: int, j: int|
            #![trigger rows.filter(pred)[i], rows.filter(pred)[j]]
            0 <= i < j < rows.filter(pred).len() ==> rows.filter(pred)[i].id != rows.filter(
                pred,
            )[j].id,
    decreases rows.len(),
{
    reveal_with_fuel(Seq::filter, 2);
    if rows.len() == 0 {
    } else {
        let prefix = rows.drop_last();
        let last = rows.last();
        lemma_filter_unique_ids(prefix, pred);
        let f = rows.filter(pred);
        let fp = prefix.filter(pred);
        assert forall|i: int| 0 <= i < f.len() implies exists|k: int|
            0 <= k < rows.len() && rows[k] == #[trigger] f[i] by {
            if i < fp.len() {
                let k = choose|k: int| 0 <= k < prefix.len() && prefix[k] == fp[i];
                assert(rows[k] == f[i]);
            } else {
                assert(f[i] == last);
                assert(rows[rows.len() - 1] == f[i]);
            }
        }
        assert forall|i: int, j: int|
            #![trigger f[i], f[j]]
            0 <= i < j < f.len() implies f[i].id != f[j].id by {
            if j < fp.len() {
                assert(fp[i].id != fp[j].id);
            } else {
                assert(f[j] == last);
                let k = choose|k: int| 0 <= k < prefix.len() && prefix[k] == fp[i];
                assert(rows[k] == f[i]);
                assert(rows[k].id != rows[rows.len() - 1].id);
            }
        }
    }
}

} // verus!

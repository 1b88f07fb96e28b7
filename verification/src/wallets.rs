use vstd::prelude::*;

verus! {

use crate::errors::ExecError;
use crate::solana::{credential_ok, derive_pubkey, pubkey_of};

/// A wallet record: key custody, cached balance, and the advisory busy flag.
///
/// The signing credential is the keypair's byte encoding; it is absent for
/// watch-only wallets. The cached balance is only as fresh as the last
/// `refresh_balance` call.
pub struct Wallet {
    pub id: String,
    pub pubkey: String,
    pub credential: Option<Vec<u8>>,
    pub balance: u64,
    pub busy: bool,
}

/// The mathematical model of a wallet record.
pub ghost struct WalletView {
    pub id: Seq<char>,
    pub pubkey: Seq<char>,
    pub credential: Option<Seq<u8>>,
    pub balance: u64,
    pub busy: bool,
}

impl View for Wallet {
    type V = WalletView;

    open spec fn view(&self) -> WalletView {
        WalletView {
            id: self.id@,
            pubkey: self.pubkey@,
            credential: match self.credential {
                Some(c) => Some(c@),
                None => None,
            },
            balance: self.balance,
            busy: self.busy,
        }
    }
}

/// No two records carry the same identifier.
pub open spec fn ids_unique(s: Seq<WalletView>) -> bool {
    forall|i: int, j: int| 0 <= i < j < s.len() ==> s[i].id != s[j].id
}

/// Whether some record carries the identifier `id`.
pub open spec fn has_wallet(s: Seq<WalletView>, id: Seq<char>) -> bool {
    exists|i: int| 0 <= i < s.len() && s[i].id == id
}

/// The position of the record carrying `id`; meaningful when `has_wallet`.
pub open spec fn wallet_idx(s: Seq<WalletView>, id: Seq<char>) -> int {
    choose|i: int| 0 <= i < s.len() && s[i].id == id
}

/// The record carrying `id`; meaningful when `has_wallet`.
pub open spec fn wallet_at(s: Seq<WalletView>, id: Seq<char>) -> WalletView {
    s[wallet_idx(s, id)]
}

/// What registration does to the pool: overwrite the record with the same
/// identifier, or append a new one.
pub open spec fn spec_register(s: Seq<WalletView>, w: WalletView) -> Seq<WalletView> {
    if has_wallet(s, w.id) {
        s.update(wallet_idx(s, w.id), w)
    } else {
        s.push(w)
    }
}

/// What a balance refresh does to the pool: overwrite the cached balance of
/// the record carrying `id`, and nothing else.
pub open spec fn spec_refresh(s: Seq<WalletView>, id: Seq<char>, v: u64) -> Seq<WalletView> {
    if has_wallet(s, id) {
        s.update(wallet_idx(s, id), WalletView { balance: v, ..wallet_at(s, id) })
    } else {
        s
    }
}

/// What a busy-flag write does to the pool: overwrite the flag of the record
/// carrying `id`, and nothing else.
pub open spec fn spec_set_busy(s: Seq<WalletView>, id: Seq<char>, b: bool) -> Seq<WalletView> {
    if has_wallet(s, id) {
        s.update(wallet_idx(s, id), WalletView { busy: b, ..wallet_at(s, id) })
    } else {
        s
    }
}

/// With unique identifiers, the record at position `i` is found exactly there.
pub proof fn lemma_wallet_idx(s: Seq<WalletView>, i: int)
    requires
        ids_unique(s),
        0 <= i < s.len(),
    ensures
        has_wallet(s, s[i].id),
        wallet_idx(s, s[i].id) == i,
{
    assert(has_wallet(s, s[i].id)) by {
        assert(0 <= i < s.len() && s[i].id == s[i].id);
    }
    let j = wallet_idx(s, s[i].id);
    assert(0 <= j < s.len() && s[j].id == s[i].id);
    if j < i {
        assert(s[j].id != s[i].id);
    }
    if i < j {
        assert(s[i].id != s[j].id);
    }
}

/// Overwriting a record with one carrying the same identifier keeps the
/// identifiers unique, keeps every identifier's membership, and changes no
/// other record.
pub proof fn lemma_update_same_id(s: Seq<WalletView>, i: int, w: WalletView)
    requires
        ids_unique(s),
        0 <= i < s.len(),
        w.id == s[i].id,
    ensures
        ids_unique(s.update(i, w)),
        forall|id: Seq<char>| has_wallet(s.update(i, w), id) == has_wallet(s, id),
        wallet_at(s.update(i, w), w.id) == w,
        forall|id: Seq<char>|
            id != w.id && has_wallet(s, id) ==> wallet_at(s.update(i, w), id) == wallet_at(s, id),
{
    let t = s.update(i, w);
    assert(ids_unique(t)) by {
        assert forall|p: int, q: int| 0 <= p < q < t.len() implies t[p].id != t[q].id by {
            assert(s[p].id != s[q].id);
        }
    }
    assert forall|id: Seq<char>| has_wallet(t, id) == has_wallet(s, id) by {
        if has_wallet(s, id) {
            let j = wallet_idx(s, id);
            assert(0 <= j < s.len() && s[j].id == id);
            assert(t[j].id == id);
        }
        if has_wallet(t, id) {
            let j = choose|j: int| 0 <= j < t.len() && t[j].id == id;
            assert(s[j].id == id || s[i].id == id);
        }
    }
    lemma_wallet_idx(t, i);
    assert(wallet_at(t, w.id) == w);
    assert forall|id: Seq<char>|
        id != w.id && has_wallet(s, id) implies wallet_at(t, id) == wallet_at(s, id) by {
        let j = wallet_idx(s, id);
        assert(0 <= j < s.len() && s[j].id == id);
        assert(j != i);
        assert(t[j].id == id);
        lemma_wallet_idx(t, j);
        lemma_wallet_idx(s, j);
    }
}

/// Appending a record with a fresh identifier keeps the identifiers unique,
/// makes that identifier found, and changes no other record.
pub proof fn lemma_push_new_id(s: Seq<WalletView>, w: WalletView)
    requires
        ids_unique(s),
        !has_wallet(s, w.id),
    ensures
        ids_unique(s.push(w)),
        has_wallet(s.push(w), w.id),
        wallet_at(s.push(w), w.id) == w,
        forall|id: Seq<char>| id != w.id ==> has_wallet(s.push(w), id) == has_wallet(s, id),
        forall|id: Seq<char>|
            id != w.id && has_wallet(s, id) ==> wallet_at(s.push(w), id) == wallet_at(s, id),
{
    let t = s.push(w);
    assert(ids_unique(t)) by {
        assert forall|p: int, q: int| 0 <= p < q < t.len() implies t[p].id != t[q].id by {
            if q < s.len() {
                assert(s[p].id != s[q].id);
            } else {
                assert(t[q] == w);
                assert(s[p].id != w.id);
            }
        }
    }
    lemma_wallet_idx(t, s.len() as int);
    assert forall|id: Seq<char>| id != w.id implies has_wallet(t, id) == has_wallet(s, id) by {
        if has_wallet(s, id) {
            let j = wallet_idx(s, id);
            assert(t[j].id == id);
        }
        if has_wallet(t, id) {
            let j = choose|j: int| 0 <= j < t.len() && t[j].id == id;
            assert(j < s.len());
            assert(s[j].id == id);
        }
    }
    assert forall|id: Seq<char>|
        id != w.id && has_wallet(s, id) implies wallet_at(t, id) == wallet_at(s, id) by {
        let j = wallet_idx(s, id);
        assert(t[j].id == id);
        lemma_wallet_idx(t, j);
        lemma_wallet_idx(s, j);
    }
}

/// The pool of wallet records, keyed by their logical identifier.
///
/// The pool owns key custody: signing credentials never leave it except as
/// a borrow for the duration of a single sign operation, and snapshots
/// redact them.
pub struct WalletPool {
    wallets: Vec<Wallet>,
}

impl View for WalletPool {
    type V = Seq<WalletView>;

    closed spec fn view(&self) -> Seq<WalletView> {
        self.wallets@.map_values(|w: Wallet| w@)
    }
}

impl WalletPool {
    /// Identifiers are unique, so each identifier names one record.
    pub open spec fn wf(self) -> bool {
        ids_unique(self@)
    }

    /// An empty pool.
    pub fn new() -> (p: WalletPool)
        ensures
            p.wf(),
            p@ == Seq::<WalletView>::empty(),
    {
        let p = WalletPool { wallets: Vec::new() };
        proof {
            assert(p@ =~= Seq::<WalletView>::empty());
        }
        p
    }

    /// The position of the record carrying `id`, if any.
    fn find(&self, id: &String) -> (r: Option<usize>)
        ensures
            match r {
                Some(i) => i < self@.len() && self@[i as int].id == id@,
                None => !has_wallet(self@, id@),
            },
    {
        let n = self.wallets.len();
        let mut i: usize = 0;
        while i < n
            invariant
                i <= n,
                n == self@.len(),
                n == self.wallets@.len(),
                forall|j: int| 0 <= j < i ==> self@[j].id != id@,
            decreases n - i,
        {
            if self.wallets[i].id == *id {
                return Some(i);
            }
            i += 1;
        }
        None
    }

    /// Inserts the record, overwriting any record with the same identifier.
    fn insert(&mut self, w: Wallet)
        requires
            old(self).wf(),
        ensures
            final(self).wf(),
            final(self)@ == spec_register(old(self)@, w@),
    {
        let ghost s = self@;
        match self.find(&w.id) {
            Some(i) => {
                proof {
                    lemma_wallet_idx(s, i as int);
                    lemma_update_same_id(s, i as int, w@);
                }
                self.wallets[i] = w;
                proof {
                    assert(self@ =~= s.update(i as int, self.wallets@[i as int]@));
                }
            },
            None => {
                self.wallets.push(w);
                proof {
                    lemma_push_new_id(s, w@);
                    assert(self@ =~= s.push(w@));
                }
            },
        }
    }

    /// Registers a wallet under `id`: the record starts with balance 0 and
    /// the busy flag clear, overwriting any earlier record for `id`. When a
    /// credential is supplied, the public key it derives must match the
    /// supplied one; otherwise the pool is left unchanged and the call fails
    /// with `InvalidCredential`.
    pub fn register(&mut self, id: String, public_key: String, credential: Option<Vec<u8>>) -> (r:
        Result<(), ExecError>)
        requires
            old(self).wf(),
        ensures
            final(self).wf(),
            credential is None ==> r is Ok && final(self)@ == spec_register(
                old(self)@,
                WalletView {
                    id: id@,
                    pubkey: public_key@,
                    credential: None,
                    balance: 0,
                    busy: false,
                },
            ),
            credential matches Some(c) ==> {
                &&& (credential_ok(c@) && pubkey_of(c@) == public_key@) ==> r is Ok
                    && final(self)@ == spec_register(
                    old(self)@,
                    WalletView {
                        id: id@,
                        pubkey: public_key@,
                        credential: Some(c@),
                        balance: 0,
                        busy: false,
                    },
                )
                &&& !(credential_ok(c@) && pubkey_of(c@) == public_key@)
                    ==> r == Err::<(), ExecError>(ExecError::InvalidCredential)
                    && final(self)@ == old(self)@
            },
    {
        match credential {
            None => {
                self.insert(
                    Wallet { id, pubkey: public_key, credential: None, balance: 0, busy: false },
                );
                Ok(())
            },
            Some(c) => {
                match derive_pubkey(&c) {
                    None => Err(ExecError::InvalidCredential),
                    Some(derived) => {
                        if derived == public_key {
                            self.insert(
                                Wallet {
                                    id,
                                    pubkey: public_key,
                                    credential: Some(c),
                                    balance: 0,
                                    busy: false,
                                },
                            );
                            Ok(())
                        } else {
                            Err(ExecError::InvalidCredential)
                        }
                    },
                }
            },
        }
    }

    /// The cached balance of `id`; `NotFound` when `id` is not registered.
    /// The cache is only as fresh as the last `refresh_balance`.
    pub fn get_balance(&self, id: &String) -> (r: Result<u64, ExecError>)
        requires
            self.wf(),
        ensures
            has_wallet(self@, id@) ==> r == Ok::<u64, ExecError>(wallet_at(self@, id@).balance),
            !has_wallet(self@, id@) ==> r == Err::<u64, ExecError>(ExecError::NotFound),
    {
        match self.find(id) {
            Some(i) => {
                proof {
                    lemma_wallet_idx(self@, i as int);
                }
                Ok(self.wallets[i].balance)
            },
            None => Err(ExecError::NotFound),
        }
    }

    /// Overwrites the cached balance of `id` with a value the caller queried
    /// out of core; `NotFound`, with the pool unchanged, when `id` is not
    /// registered.
    pub fn refresh_balance(&mut self, id: &String, queried_value: u64) -> (r: Result<
        (),
        ExecError,
    >)
        requires
            old(self).wf(),
        ensures
            final(self).wf(),
            final(self)@ == spec_refresh(old(self)@, id@, queried_value),
            has_wallet(old(self)@, id@) ==> r is Ok,
            !has_wallet(old(self)@, id@) ==> r == Err::<(), ExecError>(ExecError::NotFound),
    {
        let ghost s = self@;
        match self.find(id) {
            Some(i) => {
                proof {
                    lemma_wallet_idx(s, i as int);
                    lemma_update_same_id(
                        s,
                        i as int,
                        WalletView { balance: queried_value, ..wallet_at(s, id@) },
                    );
                }
                self.wallets[i].balance = queried_value;
                proof {
                    assert(self@ =~= s.update(i as int, self.wallets@[i as int]@));
                }
                Ok(())
            },
            None => Err(ExecError::NotFound),
        }
    }

    /// Overwrites the advisory busy flag of `id`; `NotFound`, with the pool
    /// unchanged, when `id` is not registered. The flag is a visible marker
    /// for callers, not a lock: the pool never rejects work because of it.
    pub fn set_busy(&mut self, id: &String, busy: bool) -> (r: Result<(), ExecError>)
        requires
            old(self).wf(),
        ensures
            final(self).wf(),
            final(self)@ == spec_set_busy(old(self)@, id@, busy),
            has_wallet(old(self)@, id@) ==> r is Ok,
            !has_wallet(old(self)@, id@) ==> r == Err::<(), ExecError>(ExecError::NotFound),
    {
        let ghost s = self@;
        match self.find(id) {
            Some(i) => {
                proof {
                    lemma_wallet_idx(s, i as int);
                    lemma_update_same_id(
                        s,
                        i as int,
                        WalletView { busy, ..wallet_at(s, id@) },
                    );
                }
                self.wallets[i].busy = busy;
                proof {
                    assert(self@ =~= s.update(i as int, self.wallets@[i as int]@));
                }
                Ok(())
            },
            None => Err(ExecError::NotFound),
        }
    }

    /// An immutable copy of the record for status reporting, with the
    /// credential redacted; `NotFound` when `id` is not registered. The pool
    /// itself is never changed by a snapshot.
    pub fn snapshot(&self, id: &String) -> (r: Result<Wallet, ExecError>)
        requires
            self.wf(),
        ensures
            has_wallet(self@, id@) ==> (r matches Ok(w) && w@ == WalletView {
                credential: None,
                ..wallet_at(self@, id@)
            }),
            !has_wallet(self@, id@) ==> (r matches Err(e) && e == ExecError::NotFound),
    {
        match self.find(id) {
            Some(i) => {
                proof {
                    lemma_wallet_idx(self@, i as int);
                }
                let w = &self.wallets[i];
                Ok(
                    Wallet {
                        id: w.id.clone(),
                        pubkey: w.pubkey.clone(),
                        credential: None,
                        balance: w.balance,
                        busy: w.busy,
                    },
                )
            },
            None => Err(ExecError::NotFound),
        }
    }

    /// Borrows the signing credential of `id` for a single sign operation;
    /// `CredentialUnavailable` for a watch-only wallet. The busy flag is
    /// advisory and is not consulted here.
    pub fn credential_for_signing(&self, id: &String) -> (r: Result<&Vec<u8>, ExecError>)
        requires
            self.wf(),
        ensures
            !has_wallet(self@, id@) ==> (r matches Err(e) && e == ExecError::NotFound),
            has_wallet(self@, id@) ==> match wallet_at(self@, id@).credential {
                Some(cs) => r matches Ok(c) && c@ == cs,
                None => r matches Err(e) && e == ExecError::CredentialUnavailable,
            },
    {
        match self.find(id) {
            Some(i) => {
                proof {
                    lemma_wallet_idx(self@, i as int);
                }
                match self.wallets[i].credential.as_ref() {
                    Some(c) => Ok(c),
                    None => Err(ExecError::CredentialUnavailable),
                }
            },
            None => Err(ExecError::NotFound),
        }
    }
}

/// Law: after `refresh_balance(id, v)`, reading the balance of `id` gives
/// exactly `v`, and no other record changes; the value stands until the next
/// refresh, since only a refresh touches a cached balance.
pub proof fn lemma_refresh_then_get(s: Seq<WalletView>, id: Seq<char>, v: u64)
    requires
        ids_unique(s),
        has_wallet(s, id),
    ensures
        has_wallet(spec_refresh(s, id, v), id),
        wallet_at(spec_refresh(s, id, v), id).balance == v,
        wallet_at(spec_refresh(s, id, v), id) == (WalletView { balance: v, ..wallet_at(s, id) }),
        forall|o: Seq<char>|
            o != id && has_wallet(s, o) ==> wallet_at(spec_refresh(s, id, v), o) == wallet_at(s, o),
{
    let i = wallet_idx(s, id);
    assert(0 <= i < s.len() && s[i].id == id);
    lemma_update_same_id(s, i, WalletView { balance: v, ..wallet_at(s, id) });
}

/// Law: a busy-flag write never changes a cached balance, so a refreshed
/// balance survives any interleaved `set_busy` calls.
pub proof fn lemma_set_busy_preserves_balance(s: Seq<WalletView>, id: Seq<char>, b: bool)
    requires
        ids_unique(s),
    ensures
        forall|o: Seq<char>|
            has_wallet(s, o) ==> wallet_at(spec_set_busy(s, id, b), o).balance == wallet_at(
                s,
                o,
            ).balance,
{
    if has_wallet(s, id) {
        let i = wallet_idx(s, id);
        assert(0 <= i < s.len() && s[i].id == id);
        lemma_update_same_id(s, i, WalletView { busy: b, ..wallet_at(s, id) });
    }
}

/// Law: registering under one identifier never changes the record of
/// another, so a refreshed balance also survives unrelated registrations.
pub proof fn lemma_register_preserves_others(s: Seq<WalletView>, w: WalletView, o: Seq<char>)
    requires
        ids_unique(s),
        has_wallet(s, o),
        o != w.id,
    ensures
        wallet_at(spec_register(s, w), o) == wallet_at(s, o),
{
    if has_wallet(s, w.id) {
        let i = wallet_idx(s, w.id);
        assert(0 <= i < s.len() && s[i].id == w.id);
        lemma_update_same_id(s, i, w);
    } else {
        lemma_push_new_id(s, w);
    }
}

/// Law: the later busy-flag write always wins — `set_busy(id, true)` followed
/// by `set_busy(id, false)` leaves the flag false, whatever it held before
/// and whatever writes came earlier.
pub proof fn lemma_busy_acquire_release(s: Seq<WalletView>, id: Seq<char>)
    requires
        ids_unique(s),
        has_wallet(s, id),
    ensures
        forall|b: bool| wallet_at(spec_set_busy(s, id, b), id).busy == b,
        wallet_at(spec_set_busy(spec_set_busy(s, id, true), id, false), id).busy == false,
{
    let i = wallet_idx(s, id);
    assert(0 <= i < s.len() && s[i].id == id);
    assert forall|b: bool| wallet_at(spec_set_busy(s, id, b), id).busy == b by {
        lemma_update_same_id(s, i, WalletView { busy: b, ..wallet_at(s, id) });
    }
    let t = spec_set_busy(s, id, true);
    lemma_update_same_id(s, i, WalletView { busy: true, ..wallet_at(s, id) });
    assert(ids_unique(t) && has_wallet(t, id));
    let j = wallet_idx(t, id);
    assert(0 <= j < t.len() && t[j].id == id);
    lemma_update_same_id(t, j, WalletView { busy: false, ..wallet_at(t, id) });
}

} // verus!

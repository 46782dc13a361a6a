//! The dual-layer execution protocol: moving pool and wager records, and
//! wager permission records, between the primary ledger and the secondary
//! execution layer.
//!
//! Each record carries an explicit residency tag, and a transition is
//! validated against that tag before the secondary-layer collaborator is
//! invoked: a record is delegated only while resident, and committed back
//! only while delegated, so exactly one layer is authoritative at a time.
//! The collaborator's own answer is passed in as an argument, and no state
//! changes unless it accepted.

use vstd::prelude::*;

use crate::addr::{pool_location, pool_location_vec, wager_location, wager_location_vec,
    wager_signing_seeds, wager_signing_seeds_vec, bytes_eq};
use crate::errors::{CommitOutcome, DelegateOutcome, Error};
use crate::events::Notification;
use crate::ledger::{has_pool, has_wager, pool_at, pool_idx, pools_unique, pools_wf, wager_at,
    wager_idx, wagers_unique, lemma_pool_idx_is, lemma_wager_idx_is, Ledger, LedgerModel};
use crate::state::{Pool, PoolKey, Residency, Wager, WagerKey};

verus! {

/// A copy of `p` owned by the secondary layer.
pub open spec fn delegated_pool(p: Pool, validator: u64) -> Pool {
    Pool { residency: Residency::Delegated { validator }, ..p }
}

/// A copy of `p` returned to the primary layer.
pub open spec fn returned_pool(p: Pool) -> Pool {
    Pool { residency: Residency::Resident, ..p }
}

/// A copy of `w` owned by the secondary layer.
pub open spec fn delegated_wager(w: Wager, validator: u64) -> Wager {
    Wager { residency: Residency::Delegated { validator }, ..w }
}

/// A copy of `w` returned to the primary layer.
pub open spec fn returned_wager(w: Wager) -> Wager {
    Wager { residency: Residency::Resident, ..w }
}

/// A copy of `w` whose permission record is held by the secondary layer.
pub open spec fn permission_delegated_wager(w: Wager, validator: u64) -> Wager {
    Wager { permission: Residency::Delegated { validator }, ..w }
}

/// Whether a pool hand-off succeeds, and if not, why. Admin-only; the pool
/// must exist, be resident, and be accepted by the secondary layer.
pub open spec fn delegate_pool_result(
    m: LedgerModel,
    caller: u64,
    pool_id: u64,
    outcome: DelegateOutcome,
) -> Result<(), Error> {
    let k = PoolKey { creator: caller, pool_id };
    if caller != m.protocol.admin {
        Err(Error::Unauthorized)
    } else if !has_pool(m.pools, k) {
        Err(Error::UnknownRecord)
    } else if pool_at(m.pools, k).residency is Delegated {
        Err(Error::AlreadyDelegated)
    } else if outcome is AlreadyDelegated {
        Err(Error::AlreadyDelegated)
    } else {
        Ok(())
    }
}

/// The ledger after a successful pool hand-off.
pub open spec fn delegate_pool_post(
    m: LedgerModel,
    caller: u64,
    pool_id: u64,
    validator: u64,
) -> LedgerModel {
    let k = PoolKey { creator: caller, pool_id };
    LedgerModel {
        pools: m.pools.update(
            pool_idx(m.pools, k),
            delegated_pool(pool_at(m.pools, k), validator),
        ),
        ..m
    }
}

/// Whether a pool return succeeds, and if not, why. Admin-only; the pool
/// must exist, be delegated, and the secondary layer must have committed.
pub open spec fn undelegate_pool_result(
    m: LedgerModel,
    caller: u64,
    k: PoolKey,
    outcome: CommitOutcome,
) -> Result<(), Error> {
    if caller != m.protocol.admin {
        Err(Error::Unauthorized)
    } else if !has_pool(m.pools, k) {
        Err(Error::UnknownRecord)
    } else if pool_at(m.pools, k).residency is Resident {
        Err(Error::NotDelegated)
    } else if outcome is Failed {
        Err(Error::CommitFailed)
    } else {
        Ok(())
    }
}

/// The ledger after a successful pool return.
pub open spec fn undelegate_pool_post(m: LedgerModel, k: PoolKey) -> LedgerModel {
    LedgerModel {
        pools: m.pools.update(pool_idx(m.pools, k), returned_pool(pool_at(m.pools, k))),
        ..m
    }
}

/// Whether a wager hand-off succeeds, and if not, why. The record's stored
/// owner is the sole source of truth: the caller must be that owner, and the
/// pool reference presented must match the record's stored pool, both
/// validated before any ownership transfer.
pub open spec fn delegate_bet_result(
    m: LedgerModel,
    caller: u64,
    pool_ref: PoolKey,
    wk: WagerKey,
    outcome: DelegateOutcome,
) -> Result<(), Error> {
    if !has_wager(m.wagers, wk) {
        Err(Error::UnknownRecord)
    } else if wager_at(m.wagers, wk).owner != caller {
        Err(Error::Unauthorized)
    } else if wager_at(m.wagers, wk).pool != pool_ref {
        Err(Error::PoolMismatch)
    } else if wager_at(m.wagers, wk).residency is Delegated {
        Err(Error::AlreadyDelegated)
    } else if outcome is AlreadyDelegated {
        Err(Error::AlreadyDelegated)
    } else {
        Ok(())
    }
}

/// The ledger after a successful wager hand-off.
pub open spec fn delegate_bet_post(m: LedgerModel, wk: WagerKey, validator: u64) -> LedgerModel {
    LedgerModel {
        wagers: m.wagers.update(
            wager_idx(m.wagers, wk),
            delegated_wager(wager_at(m.wagers, wk), validator),
        ),
        ..m
    }
}

/// Whether a permission hand-off succeeds, and if not, why. Same owner and
/// pool validation as a wager hand-off, but against the permission tag: a
/// caller may authorize actions on a wager without moving the wager itself.
pub open spec fn delegate_bet_permission_result(
    m: LedgerModel,
    caller: u64,
    pool_ref: PoolKey,
    wk: WagerKey,
    outcome: DelegateOutcome,
) -> Result<(), Error> {
    if !has_wager(m.wagers, wk) {
        Err(Error::UnknownRecord)
    } else if wager_at(m.wagers, wk).owner != caller {
        Err(Error::Unauthorized)
    } else if wager_at(m.wagers, wk).pool != pool_ref {
        Err(Error::PoolMismatch)
    } else if wager_at(m.wagers, wk).permission is Delegated {
        Err(Error::AlreadyDelegated)
    } else if outcome is AlreadyDelegated {
        Err(Error::AlreadyDelegated)
    } else {
        Ok(())
    }
}

/// The ledger after a successful permission hand-off.
pub open spec fn delegate_bet_permission_post(
    m: LedgerModel,
    wk: WagerKey,
    validator: u64,
) -> LedgerModel {
    LedgerModel {
        wagers: m.wagers.update(
            wager_idx(m.wagers, wk),
            permission_delegated_wager(wager_at(m.wagers, wk), validator),
        ),
        ..m
    }
}

/// Whether one of the supplied raw record locations is this wager's.
pub open spec fn wager_targeted(records: Seq<Vec<u8>>, w: Wager) -> bool {
    exists|j: int| 0 <= j < records.len() && records[j]@ == wager_location(w.key())
}

/// The ledger after a successful batch return: every wager whose location
/// was supplied is back on the primary layer; every other record is
/// untouched.
pub open spec fn batch_undelegate_post(m: LedgerModel, records: Seq<Vec<u8>>) -> LedgerModel {
    LedgerModel {
        wagers: m.wagers.map(
            |i: int, w: Wager|
                if wager_targeted(records, w) {
                    returned_wager(w)
                } else {
                    w
                },
        ),
        ..m
    }
}

/// Whether a batch return succeeds, and if not, why. Payer-authenticated:
/// no authority is required, but the pool's betting window must be over,
/// even for an empty list. An empty list is a successful no-op; a nonempty
/// one is a single commit request covering the whole list, which the
/// secondary layer accepts or refuses as a whole.
pub open spec fn batch_undelegate_result(
    m: LedgerModel,
    k: PoolKey,
    now: i64,
    records: Seq<Vec<u8>>,
    outcome: CommitOutcome,
) -> Result<(), Error> {
    if !has_pool(m.pools, k) {
        Err(Error::UnknownRecord)
    } else if now < pool_at(m.pools, k).end_time {
        Err(Error::TooEarly)
    } else if records.len() == 0 {
        Ok(())
    } else if outcome is Failed {
        Err(Error::CommitFailed)
    } else {
        Ok(())
    }
}

impl Ledger {
    /// Hands a pool record off to the secondary execution layer. On success
    /// the returned bytes are the seeds from which the secondary layer
    /// re-derives the record's location without holding a private key.
    pub fn delegate_pool(&mut self, caller: u64, pool_id: u64, validator: u64, outcome:
        DelegateOutcome) -> (r: Result<(Vec<u8>, Notification), Error>)
        requires
            old(self).wf(),
        ensures
            final(self).wf(),
            (r is Ok) == (delegate_pool_result(old(self)@, caller, pool_id, outcome) is Ok),
            r is Err ==> r->Err_0 == delegate_pool_result(old(self)@, caller, pool_id, outcome)->Err_0
                && final(self)@ == old(self)@,
            r is Ok ==> final(self)@ == delegate_pool_post(old(self)@, caller, pool_id, validator)
                && r->Ok_0.0@ == pool_location(PoolKey { creator: caller, pool_id })
                && r->Ok_0.1 == (Notification::PoolDelegated {
                pool: PoolKey { creator: caller, pool_id },
            }),
    {
        let k = PoolKey { creator: caller, pool_id };
        if caller != self.protocol.admin {
            return Err(Error::Unauthorized);
        }
        let idx = match self.find_pool(k) {
            Some(i) => i,
            None => { return Err(Error::UnknownRecord) },
        };
        proof {
            lemma_pool_idx_is(self@.pools, k, idx as int);
        }
        match self.pools[idx].residency {
            Residency::Delegated { .. } => { return Err(Error::AlreadyDelegated) },
            Residency::Resident => {},
        }
        match outcome {
            DelegateOutcome::AlreadyDelegated => { return Err(Error::AlreadyDelegated) },
            DelegateOutcome::Accepted => {},
        }
        let mut p = self.pools.remove(idx);
        p.residency = Residency::Delegated { validator };
        self.pools.insert(idx, p);
        let seeds = pool_location_vec(k);
        proof {
            let m0 = old(self)@;
            let m1 = self@;
            assert(m1.pools =~= m0.pools.update(
                idx as int,
                delegated_pool(pool_at(m0.pools, k), validator),
            ));
            assert(m1 =~= delegate_pool_post(m0, caller, pool_id, validator));
            assert(pools_unique(m1.pools) && pools_wf(m1.pools)) by {
                assert forall|i: int, j: int|
                    0 <= i < j < m1.pools.len() implies (#[trigger] m1.pools[i]).key() != (
                #[trigger] m1.pools[j]).key() by {
                    assert(m1.pools[i].key() == m0.pools[i].key());
                    assert(m1.pools[j].key() == m0.pools[j].key());
                }
                assert forall|i: int| 0 <= i < m1.pools.len() implies (
                #[trigger] m1.pools[i]).wf() by {
                    assert(m0.pools[i].wf());
                }
            }
        }
        Ok((seeds, Notification::PoolDelegated { pool: k }))
    }

    /// Requests the secondary layer to commit a pool's state and returns
    /// ownership to the primary layer. Admin-only.
    pub fn undelegate_pool(&mut self, caller: u64, k: PoolKey, outcome: CommitOutcome) -> (r:
        Result<Notification, Error>)
        requires
            old(self).wf(),
        ensures
            final(self).wf(),
            (r is Ok) == (undelegate_pool_result(old(self)@, caller, k, outcome) is Ok),
            r is Err ==> r->Err_0 == undelegate_pool_result(old(self)@, caller, k, outcome)->Err_0
                && final(self)@ == old(self)@,
            r is Ok ==> final(self)@ == undelegate_pool_post(old(self)@, k) && r->Ok_0 == (
            Notification::PoolUndelegated { pool: k }),
    {
        if caller != self.protocol.admin {
            return Err(Error::Unauthorized);
        }
        let idx = match self.find_pool(k) {
            Some(i) => i,
            None => { return Err(Error::UnknownRecord) },
        };
        proof {
            lemma_pool_idx_is(self@.pools, k, idx as int);
        }
        match self.pools[idx].residency {
            Residency::Resident => { return Err(Error::NotDelegated) },
            Residency::Delegated { .. } => {},
        }
        match outcome {
            CommitOutcome::Failed => { return Err(Error::CommitFailed) },
            CommitOutcome::Committed => {},
        }
        let mut p = self.pools.remove(idx);
        p.residency = Residency::Resident;
        self.pools.insert(idx, p);
        proof {
            let m0 = old(self)@;
            let m1 = self@;
            assert(m1.pools =~= m0.pools.update(idx as int, returned_pool(pool_at(m0.pools, k))));
            assert(m1 =~= undelegate_pool_post(m0, k));
            assert(pools_unique(m1.pools) && pools_wf(m1.pools)) by {
                assert forall|i: int, j: int|
                    0 <= i < j < m1.pools.len() implies (#[trigger] m1.pools[i]).key() != (
                #[trigger] m1.pools[j]).key() by {
                    assert(m1.pools[i].key() == m0.pools[i].key());
                    assert(m1.pools[j].key() == m0.pools[j].key());
                }
                assert forall|i: int| 0 <= i < m1.pools.len() implies (
                #[trigger] m1.pools[i]).wf() by {
                    assert(m0.pools[i].wf());
                }
            }
        }
        Ok(Notification::PoolUndelegated { pool: k })
    }

    /// Hands a wager record off to the secondary execution layer. The
    /// caller must be the record's stored owner and the presented pool must
    /// be the record's stored pool; both are validated before any transfer.
    /// On success the returned bytes are the seeds the secondary layer uses
    /// to re-derive the record's location.
    pub fn delegate_bet(&mut self, caller: u64, pool_ref: PoolKey, wk: WagerKey, validator: u64,
        outcome: DelegateOutcome) -> (r: Result<(Vec<u8>, Notification), Error>)
        requires
            old(self).wf(),
        ensures
            final(self).wf(),
            (r is Ok) == (delegate_bet_result(old(self)@, caller, pool_ref, wk, outcome) is Ok),
            r is Err ==> r->Err_0 == delegate_bet_result(old(self)@, caller, pool_ref, wk, outcome)->Err_0
                && final(self)@ == old(self)@,
            r is Ok ==> final(self)@ == delegate_bet_post(old(self)@, wk, validator)
                && r->Ok_0.0@ == wager_location(wk) && r->Ok_0.1 == (Notification::BetDelegated {
                bet: wk,
                user: caller,
                request_id: wk.request_id,
            }),
    {
        let idx = match self.find_wager(wk) {
            Some(i) => i,
            None => { return Err(Error::UnknownRecord) },
        };
        proof {
            lemma_wager_idx_is(self@.wagers, wk, idx as int);
        }
        let w = self.wagers[idx];
        if w.owner != caller {
            return Err(Error::Unauthorized);
        }
        if w.pool.creator != pool_ref.creator || w.pool.pool_id != pool_ref.pool_id {
            return Err(Error::PoolMismatch);
        }
        match w.residency {
            Residency::Delegated { .. } => { return Err(Error::AlreadyDelegated) },
            Residency::Resident => {},
        }
        match outcome {
            DelegateOutcome::AlreadyDelegated => { return Err(Error::AlreadyDelegated) },
            DelegateOutcome::Accepted => {},
        }
        let mut w2 = self.wagers.remove(idx);
        w2.residency = Residency::Delegated { validator };
        self.wagers.insert(idx, w2);
        let seeds = wager_location_vec(wk);
        proof {
            let m0 = old(self)@;
            let m1 = self@;
            assert(m1.wagers =~= m0.wagers.update(
                idx as int,
                delegated_wager(wager_at(m0.wagers, wk), validator),
            ));
            assert(m1 =~= delegate_bet_post(m0, wk, validator));
            assert(wagers_unique(m1.wagers)) by {
                assert forall|i: int, j: int|
                    0 <= i < j < m1.wagers.len() implies (#[trigger] m1.wagers[i]).key() != (
                #[trigger] m1.wagers[j]).key() by {
                    assert(m1.wagers[i].key() == m0.wagers[i].key());
                    assert(m1.wagers[j].key() == m0.wagers[j].key());
                }
            }
        }
        Ok((seeds, Notification::BetDelegated { bet: wk, user: caller, request_id: wk.request_id }))
    }

    /// Establishes the permission record associated with a wager under the
    /// secondary layer, without moving the wager itself. The hand-off is
    /// signed with the wager's own location seeds extended by its stored
    /// salt: the wager record co-signs the transfer. On success the
    /// returned bytes are those signing seeds.
    pub fn delegate_bet_permission(&mut self, caller: u64, pool_ref: PoolKey, wk: WagerKey,
        validator: u64, outcome: DelegateOutcome) -> (r: Result<Vec<u8>, Error>)
        requires
            old(self).wf(),
        ensures
            final(self).wf(),
            (r is Ok) == (delegate_bet_permission_result(
                old(self)@,
                caller,
                pool_ref,
                wk,
                outcome,
            ) is Ok),
            r is Err ==> r->Err_0 == delegate_bet_permission_result(
                old(self)@,
                caller,
                pool_ref,
                wk,
                outcome,
            )->Err_0 && final(self)@ == old(self)@,
            r is Ok ==> final(self)@ == delegate_bet_permission_post(old(self)@, wk, validator)
                && r->Ok_0@ == wager_signing_seeds(wk, wager_at(old(self)@.wagers, wk).bump),
    {
        let idx = match self.find_wager(wk) {
            Some(i) => i,
            None => { return Err(Error::UnknownRecord) },
        };
        proof {
            lemma_wager_idx_is(self@.wagers, wk, idx as int);
        }
        let w = self.wagers[idx];
        if w.owner != caller {
            return Err(Error::Unauthorized);
        }
        if w.pool.creator != pool_ref.creator || w.pool.pool_id != pool_ref.pool_id {
            return Err(Error::PoolMismatch);
        }
        match w.permission {
            Residency::Delegated { .. } => { return Err(Error::AlreadyDelegated) },
            Residency::Resident => {},
        }
        match outcome {
            DelegateOutcome::AlreadyDelegated => { return Err(Error::AlreadyDelegated) },
            DelegateOutcome::Accepted => {},
        }
        let mut w2 = self.wagers.remove(idx);
        w2.permission = Residency::Delegated { validator };
        self.wagers.insert(idx, w2);
        let seeds = wager_signing_seeds_vec(wk, w.bump);
        proof {
            let m0 = old(self)@;
            let m1 = self@;
            assert(m1.wagers =~= m0.wagers.update(
                idx as int,
                permission_delegated_wager(wager_at(m0.wagers, wk), validator),
            ));
            assert(m1 =~= delegate_bet_permission_post(m0, wk, validator));
            assert(wagers_unique(m1.wagers)) by {
                assert forall|i: int, j: int|
                    0 <= i < j < m1.wagers.len() implies (#[trigger] m1.wagers[i]).key() != (
                #[trigger] m1.wagers[j]).key() by {
                    assert(m1.wagers[i].key() == m0.wagers[i].key());
                    assert(m1.wagers[j].key() == m0.wagers[j].key());
                }
            }
        }
        Ok(seeds)
    }

    /// Requests one commit-and-return covering a caller-chosen list of raw
    /// wager record locations, once the pool's betting window is over. An
    /// empty list succeeds as a no-op. On success, one notification is
    /// emitted per supplied record, marked as part of a batch; the owner is
    /// not known during a raw batch flush and is reported as absent.
    pub fn batch_undelegate_bets(&mut self, payer: u64, k: PoolKey, now: i64, records: &Vec<
        Vec<u8>,
    >, outcome: CommitOutcome) -> (r: Result<Vec<Notification>, Error>)
        requires
            old(self).wf(),
        ensures
            final(self).wf(),
            (r is Ok) == (batch_undelegate_result(old(self)@, k, now, records@, outcome) is Ok),
            r is Err ==> r->Err_0 == batch_undelegate_result(
                old(self)@,
                k,
                now,
                records@,
                outcome,
            )->Err_0 && final(self)@ == old(self)@,
            r is Ok && records@.len() == 0 ==> final(self)@ == old(self)@ && r->Ok_0@.len() == 0,
            r is Ok && records@.len() > 0 ==> final(self)@ == batch_undelegate_post(
                old(self)@,
                records@,
            ) && r->Ok_0@.len() == records@.len() && (forall|j: int|
                0 <= j < records@.len() ==> ((#[trigger] r->Ok_0@[j]) matches
                    Notification::BetUndelegated { bet_location, user, is_batch }
                    && bet_location@ == records@[j]@ && user is None && is_batch == true)),
    {
        let idx = match self.find_pool(k) {
            Some(i) => i,
            None => { return Err(Error::UnknownRecord) },
        };
        proof {
            lemma_pool_idx_is(self@.pools, k, idx as int);
        }
        if now < self.pools[idx].end_time {
            return Err(Error::TooEarly);
        }
        if records.len() == 0 {
            return Ok(Vec::new());
        }
        match outcome {
            CommitOutcome::Failed => { return Err(Error::CommitFailed) },
            CommitOutcome::Committed => {},
        }
        let ghost m0 = self@;
        let mut wi: usize = 0;
        while wi < self.wagers.len()
            invariant
                wi <= self.wagers@.len(),
                self.wagers@.len() == m0.wagers.len(),
                self.protocol == m0.protocol,
                self.pools@ == m0.pools,
                forall|t: int|
                    0 <= t < wi ==> #[trigger] self.wagers@[t] == (if wager_targeted(
                        records@,
                        m0.wagers[t],
                    ) {
                        returned_wager(m0.wagers[t])
                    } else {
                        m0.wagers[t]
                    }),
                forall|t: int| wi <= t < m0.wagers.len() ==> #[trigger] self.wagers@[t]
                    == m0.wagers[t],
            decreases self.wagers@.len() - wi,
        {
            let w = self.wagers[wi];
            let loc = wager_location_vec(
                WagerKey { pool: w.pool, owner: w.owner, request_id: w.request_id },
            );
            let mut rj: usize = 0;
            let mut found = false;
            while rj < records.len() && !found
                invariant
                    rj <= records@.len(),
                    found ==> wager_targeted(records@, w),
                    !found ==> forall|q: int| 0 <= q < rj ==> (#[trigger] records@[q])@
                        != wager_location(w.key()),
                    loc@ == wager_location(w.key()),
                decreases records@.len() - rj + (if found { 0int } else { 1int }),
            {
                if bytes_eq(&records[rj], &loc) {
                    found = true;
                } else {
                    rj = rj + 1;
                }
            }
            if found {
                let mut w2 = self.wagers.remove(wi);
                w2.residency = Residency::Resident;
                self.wagers.insert(wi, w2);
            } else {
                proof {
                    assert(!wager_targeted(records@, w));
                }
            }
            wi = wi + 1;
        }
        let mut notes: Vec<Notification> = Vec::new();
        let mut nj: usize = 0;
        while nj < records.len()
            invariant
                nj <= records@.len(),
                notes@.len() == nj,
                forall|j: int|
                    0 <= j < nj ==> ((#[trigger] notes@[j]) matches Notification::BetUndelegated {
                        bet_location,
                        user,
                        is_batch,
                    } && bet_location@ == records@[j]@ && user is None && is_batch == true),
            decreases records@.len() - nj,
        {
            let loc_copy = clone_bytes(&records[nj]);
            notes.push(
                Notification::BetUndelegated { bet_location: loc_copy, user: None, is_batch: true },
            );
            nj = nj + 1;
        }
        proof {
            let m1 = self@;
            let post = batch_undelegate_post(m0, records@);
            assert(m1.wagers =~= post.wagers);
            assert(m1 =~= post);
            assert(wagers_unique(m1.wagers)) by {
                assert forall|i: int, j: int|
                    0 <= i < j < m1.wagers.len() implies (#[trigger] m1.wagers[i]).key() != (
                #[trigger] m1.wagers[j]).key() by {
                    assert(m1.wagers[i].key() == m0.wagers[i].key());
                    assert(m1.wagers[j].key() == m0.wagers[j].key());
                }
            }
        }
        Ok(notes)
    }
}

/// Copies a byte string by value.
fn clone_bytes(a: &Vec<u8>) -> (r: Vec<u8>)
    ensures
        r@ == a@,
{
    let mut r: Vec<u8> = Vec::new();
    let mut i: usize = 0;
    while i < a.len()
        invariant
            i <= a@.len(),
            r@ == a@.subrange(0, i as int),
        decreases a@.len() - i,
    {
        let b = a[i];
        r.push(b);
        proof {
            assert(r@ =~= a@.subrange(0, i + 1 as int));
        }
        i = i + 1;
    }
    proof {
        assert(r@ =~= a@);
    }
    r
}

} // verus!

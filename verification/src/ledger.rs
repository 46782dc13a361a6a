//! The primary ledger: the configuration singleton, the pool registry and
//! the wager ledger, with the lifecycle operations over them.
//!
//! Each operation is an atomic transition: every precondition is checked
//! before any mutation, and on failure the operation returns the specific
//! error and leaves the ledger unchanged. The transition itself is stated by
//! a spec function (`..._result` for the outcome, `..._post` for the new
//! state), and each executable operation's contract says it implements that
//! transition exactly.

use vstd::prelude::*;

use crate::config::{Protocol, BPS_DENOMINATOR};
use crate::errors::{Error, TransferOutcome};
use crate::events::Notification;
use crate::state::{BetStatus, Pool, PoolKey, Residency, Wager, WagerKey};

verus! {

/// The whole primary-layer state, as one value.
pub struct Ledger {
    pub protocol: Protocol,
    pub pools: Vec<Pool>,
    pub wagers: Vec<Wager>,
}

/// The mathematical model of the ledger.
#[verifier::ext_equal]
pub struct LedgerModel {
    pub protocol: Protocol,
    pub pools: Seq<Pool>,
    pub wagers: Seq<Wager>,
}

impl View for Ledger {
    type V = LedgerModel;

    open spec fn view(&self) -> LedgerModel {
        LedgerModel { protocol: self.protocol, pools: self.pools@, wagers: self.wagers@ }
    }
}

/// No two pools share a key.
pub open spec fn pools_unique(ps: Seq<Pool>) -> bool {
    forall|i: int, j: int|
        #![trigger ps[i], ps[j]]
        0 <= i < j < ps.len() ==> ps[i].key() != ps[j].key()
}

/// Every pool has a nonempty timing window.
pub open spec fn pools_wf(ps: Seq<Pool>) -> bool {
    forall|i: int| 0 <= i < ps.len() ==> (#[trigger] ps[i]).wf()
}

/// No two wagers share a key.
pub open spec fn wagers_unique(ws: Seq<Wager>) -> bool {
    forall|i: int, j: int|
        #![trigger ws[i], ws[j]]
        0 <= i < j < ws.len() ==> ws[i].key() != ws[j].key()
}

/// The ledger's invariant: a well-formed configuration, unique pool keys,
/// well-formed pools and unique wager keys.
pub open spec fn model_wf(m: LedgerModel) -> bool {
    &&& m.protocol.wf()
    &&& pools_unique(m.pools)
    &&& pools_wf(m.pools)
    &&& wagers_unique(m.wagers)
}

pub open spec fn has_pool(ps: Seq<Pool>, k: PoolKey) -> bool {
    exists|i: int| 0 <= i < ps.len() && (#[trigger] ps[i]).key() == k
}

/// The index of the pool with key `k`; meaningful only when `has_pool`.
pub open spec fn pool_idx(ps: Seq<Pool>, k: PoolKey) -> int {
    choose|i: int| 0 <= i < ps.len() && (#[trigger] ps[i]).key() == k
}

/// The pool with key `k`; meaningful only when `has_pool`.
pub open spec fn pool_at(ps: Seq<Pool>, k: PoolKey) -> Pool {
    ps[pool_idx(ps, k)]
}

pub open spec fn has_wager(ws: Seq<Wager>, k: WagerKey) -> bool {
    exists|i: int| 0 <= i < ws.len() && (#[trigger] ws[i]).key() == k
}

/// The index of the wager with key `k`; meaningful only when `has_wager`.
pub open spec fn wager_idx(ws: Seq<Wager>, k: WagerKey) -> int {
    choose|i: int| 0 <= i < ws.len() && (#[trigger] ws[i]).key() == k
}

/// The wager with key `k`; meaningful only when `has_wager`.
pub open spec fn wager_at(ws: Seq<Wager>, k: WagerKey) -> Wager {
    ws[wager_idx(ws, k)]
}

/// In a registry with unique keys, an index holding key `k` is the index of
/// `k`.
pub proof fn lemma_pool_idx_is(ps: Seq<Pool>, k: PoolKey, i: int)
    requires
        pools_unique(ps),
        0 <= i < ps.len(),
        ps[i].key() == k,
    ensures
        has_pool(ps, k),
        pool_idx(ps, k) == i,
        pool_at(ps, k) == ps[i],
{
    assert(has_pool(ps, k));
    let j = pool_idx(ps, k);
    assert(0 <= j < ps.len() && ps[j].key() == k);
    if i < j {
        assert(ps[i].key() != ps[j].key());
    } else if j < i {
        assert(ps[j].key() != ps[i].key());
    }
}

/// In a ledger with unique keys, an index holding key `k` is the index of
/// `k`.
pub proof fn lemma_wager_idx_is(ws: Seq<Wager>, k: WagerKey, i: int)
    requires
        wagers_unique(ws),
        0 <= i < ws.len(),
        ws[i].key() == k,
    ensures
        has_wager(ws, k),
        wager_idx(ws, k) == i,
        wager_at(ws, k) == ws[i],
{
    assert(has_wager(ws, k));
    let j = wager_idx(ws, k);
    assert(0 <= j < ws.len() && ws[j].key() == k);
    if i < j {
        assert(ws[i].key() != ws[j].key());
    } else if j < i {
        assert(ws[j].key() != ws[i].key());
    }
}

/// Replacing the pool at `k` by one with the same key keeps keys unique and
/// makes the replacement the pool at `k`.
pub proof fn lemma_pool_update_preserves(ps: Seq<Pool>, k: PoolKey, p2: Pool)
    requires
        pools_unique(ps),
        has_pool(ps, k),
        p2.key() == k,
    ensures
        pools_unique(ps.update(pool_idx(ps, k), p2)),
        has_pool(ps.update(pool_idx(ps, k), p2), k),
        pool_at(ps.update(pool_idx(ps, k), p2), k) == p2,
        forall|k2: PoolKey| #[trigger] has_pool(ps.update(pool_idx(ps, k), p2), k2) == has_pool(
            ps,
            k2,
        ),
{
    let i = pool_idx(ps, k);
    assert(0 <= i < ps.len() && ps[i].key() == k);
    let ps2 = ps.update(i, p2);
    assert forall|a: int, b: int|
        0 <= a < b < ps2.len() implies (#[trigger] ps2[a]).key() != (#[trigger] ps2[b]).key() by {
        assert(ps2[a].key() == ps[a].key());
        assert(ps2[b].key() == ps[b].key());
    }
    lemma_pool_idx_is(ps2, k, i);
    assert forall|k2: PoolKey| #[trigger] has_pool(ps2, k2) == has_pool(ps, k2) by {
        if has_pool(ps2, k2) {
            let a = choose|a: int| 0 <= a < ps2.len() && (#[trigger] ps2[a]).key() == k2;
            assert(ps[a].key() == k2);
        }
        if has_pool(ps, k2) {
            let a = choose|a: int| 0 <= a < ps.len() && (#[trigger] ps[a]).key() == k2;
            assert(ps2[a].key() == k2);
        }
    }
}

/// Appending a wager with a fresh key keeps keys unique and makes it the
/// wager at its key.
pub proof fn lemma_wager_push_preserves(ws: Seq<Wager>, w: Wager)
    requires
        wagers_unique(ws),
        !has_wager(ws, w.key()),
    ensures
        wagers_unique(ws.push(w)),
        has_wager(ws.push(w), w.key()),
        wager_at(ws.push(w), w.key()) == w,
{
    let ws2 = ws.push(w);
    assert forall|a: int, b: int|
        0 <= a < b < ws2.len() implies (#[trigger] ws2[a]).key() != (#[trigger] ws2[b]).key() by {
        if b < ws2.len() - 1 {
            assert(ws2[a] == ws[a] && ws2[b] == ws[b]);
        } else {
            assert(ws2[b] == w);
            assert(ws2[a] == ws[a]);
        }
    }
    assert(ws2[ws.len() as int] == w);
    lemma_wager_idx_is(ws2, w.key(), ws.len() as int);
}

/// The pool record written at creation.
pub open spec fn new_pool(
    caller: u64,
    pool_id: u64,
    name: String,
    metadata: Option<String>,
    token_mint: u64,
    start_time: i64,
    end_time: i64,
    max_accuracy_buffer: u64,
    conviction_bonus_bps: u64,
    bump: u8,
) -> Pool {
    Pool {
        creator: caller,
        pool_id,
        name,
        metadata,
        token_mint,
        start_time,
        end_time,
        vault_balance: 0,
        total_participants: 0,
        max_accuracy_buffer,
        conviction_bonus_bps,
        is_resolved: false,
        resolution_target: 0,
        resolution_ts: 0,
        total_weight: 0,
        weight_finalized: false,
        bump,
        residency: Residency::Resident,
    }
}

/// Whether pool creation succeeds, and if not, why. The creating authority
/// must be the admin, the key must be fresh, the window nonempty, and the
/// pool counter must not overflow.
pub open spec fn create_pool_result(
    m: LedgerModel,
    caller: u64,
    pool_id: u64,
    start_time: i64,
    end_time: i64,
) -> Result<(), Error> {
    if caller != m.protocol.admin {
        Err(Error::Unauthorized)
    } else if has_pool(m.pools, PoolKey { creator: caller, pool_id }) {
        Err(Error::DuplicateRecord)
    } else if end_time <= start_time {
        Err(Error::InvalidWindow)
    } else if m.protocol.total_pools == u64::MAX {
        Err(Error::ArithmeticOverflow)
    } else {
        Ok(())
    }
}

/// The ledger after a successful pool creation: the new pool appended with a
/// zero-balance vault, and the pool counter incremented.
pub open spec fn create_pool_post(
    m: LedgerModel,
    caller: u64,
    pool_id: u64,
    name: String,
    metadata: Option<String>,
    token_mint: u64,
    start_time: i64,
    end_time: i64,
    max_accuracy_buffer: u64,
    conviction_bonus_bps: u64,
    bump: u8,
) -> LedgerModel {
    LedgerModel {
        protocol: Protocol {
            total_pools: (m.protocol.total_pools + 1) as u64,
            ..m.protocol
        },
        pools: m.pools.push(
            new_pool(
                caller,
                pool_id,
                name,
                metadata,
                token_mint,
                start_time,
                end_time,
                max_accuracy_buffer,
                conviction_bonus_bps,
                bump,
            ),
        ),
        wagers: m.wagers,
    }
}

/// A resolved copy of `p`: the outcome recorded, the resolution time fixed,
/// and the weight-finalized flag reset so a new settlement round must run.
pub open spec fn resolved_pool(p: Pool, final_outcome: u64, now: i64) -> Pool {
    Pool {
        is_resolved: true,
        resolution_target: final_outcome,
        resolution_ts: now,
        weight_finalized: false,
        ..p
    }
}

/// Whether resolution succeeds, and if not, why. Only the admin may resolve,
/// only once, and only from the pool's end time on.
pub open spec fn resolve_pool_result(
    m: LedgerModel,
    caller: u64,
    k: PoolKey,
    now: i64,
) -> Result<(), Error> {
    if caller != m.protocol.admin {
        Err(Error::Unauthorized)
    } else if !has_pool(m.pools, k) {
        Err(Error::UnknownRecord)
    } else if pool_at(m.pools, k).is_resolved {
        Err(Error::AlreadyResolved)
    } else if now < pool_at(m.pools, k).end_time {
        Err(Error::TooEarly)
    } else {
        Ok(())
    }
}

/// The ledger after a successful resolution.
pub open spec fn resolve_pool_post(
    m: LedgerModel,
    k: PoolKey,
    final_outcome: u64,
    now: i64,
) -> LedgerModel {
    LedgerModel {
        pools: m.pools.update(
            pool_idx(m.pools, k),
            resolved_pool(pool_at(m.pools, k), final_outcome, now),
        ),
        ..m
    }
}

/// The wager record written at bet placement.
pub open spec fn new_wager(
    caller: u64,
    pool_key: PoolKey,
    request_id: u64,
    amount: u64,
    pool_end_time: i64,
    now: i64,
    bump: u8,
) -> Wager {
    Wager {
        owner: caller,
        pool: pool_key,
        request_id,
        deposit: amount,
        end_timestamp: pool_end_time,
        creation_ts: now,
        update_count: 0,
        calculated_weight: 0,
        is_weight_added: false,
        status: BetStatus::Initialized,
        prediction: 0,
        bump,
        residency: Residency::Resident,
        permission: Residency::Resident,
    }
}

/// A copy of `p` credited with one accepted deposit.
pub open spec fn credited_pool(p: Pool, amount: u64) -> Pool {
    Pool {
        vault_balance: (p.vault_balance + amount) as u64,
        total_participants: (p.total_participants + 1) as u64,
        ..p
    }
}

/// Whether bet placement succeeds, and if not, why. The protocol must not be
/// paused, the pool must exist, the key must be fresh, the current time must
/// lie in `[start_time, end_time)`, the escrow must have completed, and the
/// vault and participant counters must not overflow.
pub open spec fn init_bet_result(
    m: LedgerModel,
    caller: u64,
    pool_key: PoolKey,
    request_id: u64,
    amount: u64,
    now: i64,
    escrow: TransferOutcome,
) -> Result<WagerKey, Error> {
    let k = WagerKey { pool: pool_key, owner: caller, request_id };
    if m.protocol.paused {
        Err(Error::Paused)
    } else if !has_pool(m.pools, pool_key) {
        Err(Error::UnknownRecord)
    } else if has_wager(m.wagers, k) {
        Err(Error::DuplicateRecord)
    } else if now < pool_at(m.pools, pool_key).start_time {
        Err(Error::InvalidWindow)
    } else if now >= pool_at(m.pools, pool_key).end_time {
        Err(Error::InvalidWindow)
    } else if escrow is InsufficientFunds {
        Err(Error::InsufficientFunds)
    } else if escrow is Failed {
        Err(Error::TransferFailed)
    } else if pool_at(m.pools, pool_key).vault_balance + amount > u64::MAX {
        Err(Error::ArithmeticOverflow)
    } else if pool_at(m.pools, pool_key).total_participants == u64::MAX {
        Err(Error::ArithmeticOverflow)
    } else {
        Ok(k)
    }
}

/// The ledger after a successful bet placement: the pool credited and the
/// new wager appended.
pub open spec fn init_bet_post(
    m: LedgerModel,
    caller: u64,
    pool_key: PoolKey,
    request_id: u64,
    amount: u64,
    now: i64,
    bump: u8,
) -> LedgerModel {
    LedgerModel {
        pools: m.pools.update(
            pool_idx(m.pools, pool_key),
            credited_pool(pool_at(m.pools, pool_key), amount),
        ),
        wagers: m.wagers.push(
            new_wager(
                caller,
                pool_key,
                request_id,
                amount,
                pool_at(m.pools, pool_key).end_time,
                now,
                bump,
            ),
        ),
        ..m
    }
}

/// The protocol fee taken from a vault of `vault` at a rate of `bps` basis
/// points, rounded down.
pub open spec fn fee_amount(vault: u64, bps: u64) -> int {
    (vault * bps) / (BPS_DENOMINATOR as int)
}

/// The fee never exceeds the balance it is taken from, and the wide
/// intermediate product stays far below the double-width limit.
pub proof fn lemma_fee_bounds(vault: u64, bps: u64)
    requires
        bps <= BPS_DENOMINATOR,
    ensures
        0 <= fee_amount(vault, bps) <= vault,
        vault * bps <= u64::MAX * BPS_DENOMINATOR,
{
    assert(0 <= (vault * bps) / (BPS_DENOMINATOR as int) <= vault && vault * bps <= u64::MAX * (
    BPS_DENOMINATOR as int)) by (nonlinear_arith)
        requires
            bps <= BPS_DENOMINATOR,
            vault <= u64::MAX,
            BPS_DENOMINATOR == 10000,
    ;
}

/// A settled copy of `p`: the fee deducted, the remainder fixed as the
/// distributable amount, and weight finalization marked.
pub open spec fn settled_pool(p: Pool, bps: u64) -> Pool {
    Pool {
        vault_balance: (p.vault_balance - fee_amount(p.vault_balance, bps)) as u64,
        weight_finalized: true,
        ..p
    }
}

/// Whether settlement succeeds, and if not, why. The pool must be resolved
/// and not yet finalized; when a positive fee is due, the treasury transfer
/// must have completed.
pub open spec fn finalize_result(
    m: LedgerModel,
    k: PoolKey,
    transfer: TransferOutcome,
) -> Result<(), Error> {
    if !has_pool(m.pools, k) {
        Err(Error::UnknownRecord)
    } else {
        let fee = fee_amount(pool_at(m.pools, k).vault_balance, m.protocol.protocol_fee_bps);
        if !pool_at(m.pools, k).is_resolved {
            Err(Error::TooEarly)
        } else if pool_at(m.pools, k).weight_finalized {
            Err(Error::AlreadySettled)
        } else if fee > 0 && transfer is InsufficientFunds {
            Err(Error::InsufficientFunds)
        } else if fee > 0 && transfer is Failed {
            Err(Error::TransferFailed)
        } else {
            Ok(())
        }
    }
}

/// The ledger after a successful settlement.
pub open spec fn finalize_post(m: LedgerModel, k: PoolKey) -> LedgerModel {
    LedgerModel {
        pools: m.pools.update(
            pool_idx(m.pools, k),
            settled_pool(pool_at(m.pools, k), m.protocol.protocol_fee_bps),
        ),
        ..m
    }
}

impl Ledger {
    pub open spec fn wf(&self) -> bool {
        model_wf(self@)
    }

    /// A fresh ledger around an initialized configuration singleton.
    pub fn new(protocol: Protocol) -> (r: Ledger)
        requires
            protocol.wf(),
        ensures
            r@.protocol == protocol,
            r@.pools.len() == 0,
            r@.wagers.len() == 0,
            r.wf(),
    {
        Ledger { protocol, pools: Vec::new(), wagers: Vec::new() }
    }

    /// The index of the pool with key `k`, if it exists.
    pub fn find_pool(&self, k: PoolKey) -> (r: Option<usize>)
        ensures
            match r {
                Some(i) => i < self@.pools.len() && self@.pools[i as int].key() == k,
                None => !has_pool(self@.pools, k),
            },
    {
        let mut i: usize = 0;
        while i < self.pools.len()
            invariant
                i <= self.pools@.len(),
                forall|j: int| 0 <= j < i ==> (#[trigger] self.pools@[j]).key() != k,
            decreases self.pools@.len() - i,
        {
            if self.pools[i].creator == k.creator && self.pools[i].pool_id == k.pool_id {
                return Some(i);
            }
            i = i + 1;
        }
        None
    }

    /// The index of the wager with key `k`, if it exists.
    pub fn find_wager(&self, k: WagerKey) -> (r: Option<usize>)
        ensures
            match r {
                Some(i) => i < self@.wagers.len() && self@.wagers[i as int].key() == k,
                None => !has_wager(self@.wagers, k),
            },
    {
        let mut i: usize = 0;
        while i < self.wagers.len()
            invariant
                i <= self.wagers@.len(),
                forall|j: int| 0 <= j < i ==> (#[trigger] self.wagers@[j]).key() != k,
            decreases self.wagers@.len() - i,
        {
            let w = &self.wagers[i];
            if w.pool.creator == k.pool.creator && w.pool.pool_id == k.pool.pool_id && w.owner
                == k.owner && w.request_id == k.request_id {
                return Some(i);
            }
            i = i + 1;
        }
        None
    }

    /// Creates a pool: a new market with a nonempty betting window and a
    /// vault bound one-to-one to it, starting at zero balance. Admin-only.
    pub fn create_pool(
        &mut self,
        caller: u64,
        pool_id: u64,
        name: String,
        metadata: Option<String>,
        token_mint: u64,
        start_time: i64,
        end_time: i64,
        max_accuracy_buffer: u64,
        conviction_bonus_bps: u64,
        bump: u8,
    ) -> (r: Result<Notification, Error>)
        requires
            old(self).wf(),
        ensures
            final(self).wf(),
            (r is Ok) == (create_pool_result(
                old(self)@,
                caller,
                pool_id,
                start_time,
                end_time,
            ) is Ok),
            r is Err ==> r->Err_0 == create_pool_result(
                old(self)@,
                caller,
                pool_id,
                start_time,
                end_time,
            )->Err_0 && final(self)@ == old(self)@,
            r is Ok ==> final(self)@ == create_pool_post(
                old(self)@,
                caller,
                pool_id,
                name,
                metadata,
                token_mint,
                start_time,
                end_time,
                max_accuracy_buffer,
                conviction_bonus_bps,
                bump,
            ) && r->Ok_0 == (Notification::PoolCreated { pool_name: name, start_time, end_time }),
    {
        if caller != self.protocol.admin {
            return Err(Error::Unauthorized);
        }
        if self.find_pool(PoolKey { creator: caller, pool_id }).is_some() {
            return Err(Error::DuplicateRecord);
        }
        if end_time <= start_time {
            return Err(Error::InvalidWindow);
        }
        if self.protocol.total_pools == u64::MAX {
            return Err(Error::ArithmeticOverflow);
        }
        self.protocol.total_pools = self.protocol.total_pools + 1;
        let note = Notification::PoolCreated { pool_name: name.clone(), start_time, end_time };
        let pool = Pool {
            creator: caller,
            pool_id,
            name,
            metadata,
            token_mint,
            start_time,
            end_time,
            vault_balance: 0,
            total_participants: 0,
            max_accuracy_buffer,
            conviction_bonus_bps,
            is_resolved: false,
            resolution_target: 0,
            resolution_ts: 0,
            total_weight: 0,
            weight_finalized: false,
            bump,
            residency: Residency::Resident,
        };
        self.pools.push(pool);
        proof {
            let m0 = old(self)@;
            let m1 = self@;
            assert(m1.pools =~= create_pool_post(
                m0,
                caller,
                pool_id,
                name,
                metadata,
                token_mint,
                start_time,
                end_time,
                max_accuracy_buffer,
                conviction_bonus_bps,
                bump,
            ).pools);
            assert(m1 =~= create_pool_post(
                m0,
                caller,
                pool_id,
                name,
                metadata,
                token_mint,
                start_time,
                end_time,
                max_accuracy_buffer,
                conviction_bonus_bps,
                bump,
            ));
            assert forall|i: int, j: int|
                0 <= i < j < m1.pools.len() implies (#[trigger] m1.pools[i]).key() != (
            #[trigger] m1.pools[j]).key() by {
                if j < m1.pools.len() - 1 {
                    assert(m1.pools[i] == m0.pools[i] && m1.pools[j] == m0.pools[j]);
                } else {
                    assert(m1.pools[j].key() == (PoolKey { creator: caller, pool_id }));
                    assert(m1.pools[i] == m0.pools[i]);
                }
            }
        }
        Ok(note)
    }

    /// Records a pool's final outcome. Admin-only; refused before the pool's
    /// end time and refused once an outcome is recorded. Resets weight
    /// finalization so a settlement round must run afresh.
    pub fn resolve_pool(&mut self, caller: u64, k: PoolKey, final_outcome: u64, now: i64) -> (r:
        Result<Notification, Error>)
        requires
            old(self).wf(),
        ensures
            final(self).wf(),
            (r is Ok) == (resolve_pool_result(old(self)@, caller, k, now) is Ok),
            r is Err ==> r->Err_0 == resolve_pool_result(old(self)@, caller, k, now)->Err_0 && final(self)@ == old(self)@,
            r is Ok ==> final(self)@ == resolve_pool_post(old(self)@, k, final_outcome, now)
                && r->Ok_0 == (Notification::PoolResolved {
                pool_name: pool_at(old(self)@.pools, k).name,
                final_outcome,
                resolution_ts: now,
            }),
    {
        if caller != self.protocol.admin {
            return Err(Error::Unauthorized);
        }
        let idx = match self.find_pool(k) {
            Some(i) => i,
            None => { return Err(Error::UnknownRecord) },
        };
        proof {
            lemma_pool_idx_is(self@.pools, k, idx as int);
        }
        if self.pools[idx].is_resolved {
            return Err(Error::AlreadyResolved);
        }
        if now < self.pools[idx].end_time {
            return Err(Error::TooEarly);
        }
        let mut p = self.pools.remove(idx);
        let note = Notification::PoolResolved {
            pool_name: p.name.clone(),
            final_outcome,
            resolution_ts: now,
        };
        p.resolution_target = final_outcome;
        p.is_resolved = true;
        p.resolution_ts = now;
        p.weight_finalized = false;
        self.pools.insert(idx, p);
        proof {
            let m0 = old(self)@;
            let m1 = self@;
            assert(m1.pools =~= m0.pools.update(
                idx as int,
                resolved_pool(pool_at(m0.pools, k), final_outcome, now),
            ));
            assert(m1 =~= resolve_pool_post(m0, k, final_outcome, now));
            assert(pools_unique(m1.pools)) by {
                assert forall|i: int, j: int|
                    0 <= i < j < m1.pools.len() implies (#[trigger] m1.pools[i]).key() != (
                #[trigger] m1.pools[j]).key() by {
                    assert(m1.pools[i].key() == m0.pools[i].key());
                    assert(m1.pools[j].key() == m0.pools[j].key());
                }
            }
            assert(pools_wf(m1.pools)) by {
                assert forall|i: int| 0 <= i < m1.pools.len() implies (
                #[trigger] m1.pools[i]).wf() by {
                    assert(m0.pools[i].wf());
                }
            }
        }
        Ok(note)
    }

    /// Accepts a bet: after the escrow of `amount` into the pool's vault has
    /// completed, credits the vault, counts the participant, and creates the
    /// one wager record keyed by pool, caller and request identifier.
    ///
    /// The escrow is performed by the value-transfer collaborator between
    /// the window check and the ledger mutation; its outcome is passed in as
    /// `escrow`, and no state changes unless it completed.
    pub fn init_bet(
        &mut self,
        caller: u64,
        pool_key: PoolKey,
        request_id: u64,
        amount: u64,
        now: i64,
        bump: u8,
        escrow: TransferOutcome,
    ) -> (r: Result<WagerKey, Error>)
        requires
            old(self).wf(),
        ensures
            final(self).wf(),
            r == init_bet_result(old(self)@, caller, pool_key, request_id, amount, now, escrow),
            r is Err ==> final(self)@ == old(self)@,
            r is Ok ==> final(self)@ == init_bet_post(
                old(self)@,
                caller,
                pool_key,
                request_id,
                amount,
                now,
                bump,
            ),
    {
        let k = WagerKey { pool: pool_key, owner: caller, request_id };
        if self.protocol.paused {
            return Err(Error::Paused);
        }
        let idx = match self.find_pool(pool_key) {
            Some(i) => i,
            None => { return Err(Error::UnknownRecord) },
        };
        proof {
            lemma_pool_idx_is(self@.pools, pool_key, idx as int);
        }
        if self.find_wager(k).is_some() {
            return Err(Error::DuplicateRecord);
        }
        if now < self.pools[idx].start_time {
            return Err(Error::InvalidWindow);
        }
        if now >= self.pools[idx].end_time {
            return Err(Error::InvalidWindow);
        }
        match escrow {
            TransferOutcome::Completed => {},
            TransferOutcome::InsufficientFunds => { return Err(Error::InsufficientFunds) },
            TransferOutcome::Failed => { return Err(Error::TransferFailed) },
        }
        if amount > u64::MAX - self.pools[idx].vault_balance {
            return Err(Error::ArithmeticOverflow);
        }
        if self.pools[idx].total_participants == u64::MAX {
            return Err(Error::ArithmeticOverflow);
        }
        let mut p = self.pools.remove(idx);
        let pool_end_time = p.end_time;
        p.vault_balance = p.vault_balance + amount;
        p.total_participants = p.total_participants + 1;
        self.pools.insert(idx, p);
        let wager = Wager {
            owner: caller,
            pool: pool_key,
            request_id,
            deposit: amount,
            end_timestamp: pool_end_time,
            creation_ts: now,
            update_count: 0,
            calculated_weight: 0,
            is_weight_added: false,
            status: BetStatus::Initialized,
            prediction: 0,
            bump,
            residency: Residency::Resident,
            permission: Residency::Resident,
        };
        self.wagers.push(wager);
        proof {
            let m0 = old(self)@;
            let m1 = self@;
            assert(m1.pools =~= m0.pools.update(
                idx as int,
                credited_pool(pool_at(m0.pools, pool_key), amount),
            ));
            assert(m1.wagers =~= m0.wagers.push(
                new_wager(
                    caller,
                    pool_key,
                    request_id,
                    amount,
                    pool_at(m0.pools, pool_key).end_time,
                    now,
                    bump,
                ),
            ));
            assert(m1 =~= init_bet_post(m0, caller, pool_key, request_id, amount, now, bump));
            assert(pools_unique(m1.pools) && pools_wf(m1.pools)) by {
                assert forall|i: int, j: int|
                    0 <= i < j < m1.pools.len() implies (#[trigger] m1.pools[i]).key() != (
                #[trigger] m1.pools[j]).key() by {
                    assert(m1.pools[i].key() == m0.pools[i].key());
                    assert(m1.pools[j].key() == m0.pools[j].key());
                }
                assert forall|i: int| 0 <= i < m1.pools.len() implies (
                #[trigger] m1.pools[i]).wf() by {
                    assert(m0.pools[i].wf());
                }
            }
            assert(wagers_unique(m1.wagers)) by {
                assert forall|i: int, j: int|
                    0 <= i < j < m1.wagers.len() implies (#[trigger] m1.wagers[i]).key() != (
                #[trigger] m1.wagers[j]).key() by {
                    if j < m1.wagers.len() - 1 {
                        assert(m1.wagers[i] == m0.wagers[i] && m1.wagers[j] == m0.wagers[j]);
                    } else {
                        assert(m1.wagers[j].key() == k);
                        assert(m1.wagers[i] == m0.wagers[i]);
                        assert(!has_wager(m0.wagers, k));
                    }
                }
            }
        }
        Ok(k)
    }

    /// What settlement would owe the treasury right now: the fee for the
    /// pool's current vault balance at the configured rate. The caller
    /// performs that transfer from the pool's vault to the treasury and then
    /// calls [`Self::finalize_weights`] with the outcome.
    pub fn settlement_due(&self, k: PoolKey) -> (r: Result<u64, Error>)
        requires
            self.wf(),
        ensures
            (r is Ok) == (finalize_result(self@, k, TransferOutcome::Completed) is Ok),
            r is Ok ==> has_pool(self@.pools, k) && pool_at(self@.pools, k).is_resolved && !pool_at(
                self@.pools,
                k,
            ).weight_finalized && r->Ok_0 as int == fee_amount(
                pool_at(self@.pools, k).vault_balance,
                self@.protocol.protocol_fee_bps,
            ),
            r is Err ==> finalize_result(self@, k, TransferOutcome::Completed) == Err::<(), Error>(
                r->Err_0,
            ),
    {
        let idx = match self.find_pool(k) {
            Some(i) => i,
            None => { return Err(Error::UnknownRecord) },
        };
        proof {
            lemma_pool_idx_is(self@.pools, k, idx as int);
        }
        let p = &self.pools[idx];
        if !p.is_resolved {
            return Err(Error::TooEarly);
        }
        if p.weight_finalized {
            return Err(Error::AlreadySettled);
        }
        proof {
            lemma_fee_bounds(p.vault_balance, self.protocol.protocol_fee_bps);
        }
        let wide: u128 = (p.vault_balance as u128) * (self.protocol.protocol_fee_bps as u128);
        let fee: u64 = (wide / (BPS_DENOMINATOR as u128)) as u64;
        Ok(fee)
    }

    /// Settles a resolved pool exactly once: deducts the protocol fee from
    /// the vault, fixes the remainder as the distributable amount, and marks
    /// weights finalized. When a positive fee is due, the caller must first
    /// have requested the treasury transfer; its outcome is passed in as
    /// `transfer`, and no state changes unless it completed. A repeat
    /// attempt is rejected with `AlreadySettled`, never recomputed.
    pub fn finalize_weights(&mut self, k: PoolKey, transfer: TransferOutcome) -> (r: Result<
        Notification,
        Error,
    >)
        requires
            old(self).wf(),
        ensures
            final(self).wf(),
            (r is Ok) == (finalize_result(old(self)@, k, transfer) is Ok),
            r is Err ==> r->Err_0 == finalize_result(old(self)@, k, transfer)->Err_0 && final(self)@ == old(self)@,
            r is Ok ==> final(self)@ == finalize_post(old(self)@, k) && r->Ok_0 == (
            Notification::WeightsFinalized {
                pool_name: pool_at(old(self)@.pools, k).name,
                total_weight: pool_at(old(self)@.pools, k).total_weight,
                fee_deducted: fee_amount(
                    pool_at(old(self)@.pools, k).vault_balance,
                    old(self)@.protocol.protocol_fee_bps,
                ) as u64,
            }),
    {
        let idx = match self.find_pool(k) {
            Some(i) => i,
            None => { return Err(Error::UnknownRecord) },
        };
        proof {
            lemma_pool_idx_is(self@.pools, k, idx as int);
        }
        if !self.pools[idx].is_resolved {
            return Err(Error::TooEarly);
        }
        if self.pools[idx].weight_finalized {
            return Err(Error::AlreadySettled);
        }
        proof {
            lemma_fee_bounds(self.pools[idx as int].vault_balance, self.protocol.protocol_fee_bps);
        }
        let wide: u128 = (self.pools[idx].vault_balance as u128) * (
        self.protocol.protocol_fee_bps as u128);
        let fee: u64 = (wide / (BPS_DENOMINATOR as u128)) as u64;
        if fee > 0 {
            match transfer {
                TransferOutcome::Completed => {},
                TransferOutcome::InsufficientFunds => { return Err(Error::InsufficientFunds) },
                TransferOutcome::Failed => { return Err(Error::TransferFailed) },
            }
        }
        let mut p = self.pools.remove(idx);
        let note = Notification::WeightsFinalized {
            pool_name: p.name.clone(),
            total_weight: p.total_weight,
            fee_deducted: fee,
        };
        p.vault_balance = p.vault_balance - fee;
        p.weight_finalized = true;
        self.pools.insert(idx, p);
        proof {
            let m0 = old(self)@;
            let m1 = self@;
            assert(m1.pools =~= m0.pools.update(
                idx as int,
                settled_pool(pool_at(m0.pools, k), m0.protocol.protocol_fee_bps),
            ));
            assert(m1 =~= finalize_post(m0, k));
            assert(pools_unique(m1.pools) && pools_wf(m1.pools)) by {
                assert forall|i: int, j: int|
                    0 <= i < j < m1.pools.len() implies (#[trigger] m1.pools[i]).key() != (
                #[trigger] m1.pools[j]).key() by {
                    assert(m1.pools[i].key() == m0.pools[i].key());
                    assert(m1.pools[j].key() == m0.pools[j].key());
                }
                assert forall|i: int| 0 <= i < m1.pools.len() implies (
                #[trigger] m1.pools[i]).wf() by {
                    assert(m0.pools[i].wf());
                }
            }
        }
        Ok(note)
    }
}

} // verus!

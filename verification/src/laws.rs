//! The library's laws: properties that relate several operations, stated
//! over the spec transitions the operations' contracts are written in, and
//! proved once for all inputs.

use vstd::prelude::*;

use crate::delegation::{delegate_bet_permission_result, delegate_bet_post, delegate_bet_result,
    delegate_pool_post, delegate_pool_result, delegated_wager, batch_undelegate_result};
use crate::errors::{CommitOutcome, DelegateOutcome, Error, TransferOutcome};
use crate::ledger::{create_pool_result, fee_amount, finalize_post, finalize_result,
    has_pool, has_wager, lemma_fee_bounds, lemma_pool_update_preserves,
    lemma_wager_push_preserves, model_wf, new_wager, init_bet_post, init_bet_result, pool_at,
    settled_pool, wager_at, LedgerModel};
use crate::state::{PoolKey, Residency, WagerKey};

verus! {

/// Pool creation succeeds exactly for a nonempty window: with the authority
/// present, a fresh key and room in the pool counter, `end_time >
/// start_time` succeeds and every other ordering fails with
/// `InvalidWindow`.
pub proof fn law_pool_creation_window(
    m: LedgerModel,
    caller: u64,
    pool_id: u64,
    start_time: i64,
    end_time: i64,
)
    requires
        model_wf(m),
        caller == m.protocol.admin,
        !has_pool(m.pools, PoolKey { creator: caller, pool_id }),
        m.protocol.total_pools < u64::MAX,
    ensures
        (end_time > start_time) <==> (create_pool_result(
            m,
            caller,
            pool_id,
            start_time,
            end_time,
        ) is Ok),
        end_time <= start_time ==> create_pool_result(m, caller, pool_id, start_time, end_time)
            == Err::<(), Error>(Error::InvalidWindow),
{
}

/// A bet placed while the current time lies outside `[start_time,
/// end_time)` is rejected, whatever the escrow reported; the executable
/// operation's contract adds that a rejected placement leaves the ledger —
/// the vault balance included — unchanged.
pub proof fn law_bet_window_gate(
    m: LedgerModel,
    caller: u64,
    pool_key: PoolKey,
    request_id: u64,
    amount: u64,
    now: i64,
    escrow: TransferOutcome,
)
    requires
        model_wf(m),
        has_pool(m.pools, pool_key),
        now < pool_at(m.pools, pool_key).start_time || now >= pool_at(m.pools, pool_key).end_time,
    ensures
        init_bet_result(m, caller, pool_key, request_id, amount, now, escrow) is Err,
{
}

/// Of two placements with the same (pool, owner, request identifier)
/// triple, exactly one succeeds: after the first, the second fails with
/// `DuplicateRecord` — whatever its amount, time or escrow outcome — and
/// the first wager's record stands untouched at its key.
pub proof fn law_exclusive_placement(
    m: LedgerModel,
    caller: u64,
    pool_key: PoolKey,
    request_id: u64,
    amount1: u64,
    now1: i64,
    escrow1: TransferOutcome,
    bump1: u8,
    amount2: u64,
    now2: i64,
    escrow2: TransferOutcome,
)
    requires
        model_wf(m),
        init_bet_result(m, caller, pool_key, request_id, amount1, now1, escrow1) is Ok,
    ensures
        init_bet_result(
            init_bet_post(m, caller, pool_key, request_id, amount1, now1, bump1),
            caller,
            pool_key,
            request_id,
            amount2,
            now2,
            escrow2,
        ) == Err::<WagerKey, Error>(Error::DuplicateRecord),
        wager_at(
            init_bet_post(m, caller, pool_key, request_id, amount1, now1, bump1).wagers,
            WagerKey { pool: pool_key, owner: caller, request_id },
        ) == new_wager(
            caller,
            pool_key,
            request_id,
            amount1,
            pool_at(m.pools, pool_key).end_time,
            now1,
            bump1,
        ),
{
    let k = WagerKey { pool: pool_key, owner: caller, request_id };
    let w = new_wager(
        caller,
        pool_key,
        request_id,
        amount1,
        pool_at(m.pools, pool_key).end_time,
        now1,
        bump1,
    );
    let m1 = init_bet_post(m, caller, pool_key, request_id, amount1, now1, bump1);
    lemma_pool_update_preserves(
        m.pools,
        pool_key,
        crate::ledger::credited_pool(pool_at(m.pools, pool_key), amount1),
    );
    lemma_wager_push_preserves(m.wagers, w);
    assert(has_pool(m1.pools, pool_key));
    assert(has_wager(m1.wagers, k));
    assert(!m1.protocol.paused);
}

/// Settlement is a strict non-expanding map: the fee is exactly
/// `floor(vault * feeRateBps / 10000)`, it never exceeds the vault, and the
/// distributable remainder and the fee together are exactly the vault
/// balance before settlement, for every rate within the denominator.
pub proof fn law_settlement_conservation(m: LedgerModel, k: PoolKey, transfer: TransferOutcome)
    requires
        model_wf(m),
        finalize_result(m, k, transfer) is Ok,
    ensures
        fee_amount(pool_at(m.pools, k).vault_balance, m.protocol.protocol_fee_bps) == (pool_at(
            m.pools,
            k,
        ).vault_balance * m.protocol.protocol_fee_bps) / 10000,
        0 <= fee_amount(pool_at(m.pools, k).vault_balance, m.protocol.protocol_fee_bps) <= pool_at(
            m.pools,
            k,
        ).vault_balance,
        pool_at(finalize_post(m, k).pools, k).vault_balance + fee_amount(
            pool_at(m.pools, k).vault_balance,
            m.protocol.protocol_fee_bps,
        ) == pool_at(m.pools, k).vault_balance,
        pool_at(finalize_post(m, k).pools, k).weight_finalized,
{
    lemma_fee_bounds(pool_at(m.pools, k).vault_balance, m.protocol.protocol_fee_bps);
    lemma_pool_update_preserves(
        m.pools,
        k,
        settled_pool(pool_at(m.pools, k), m.protocol.protocol_fee_bps),
    );
}

/// Settlement runs exactly once: the first call marks the pool finalized,
/// and a repeat attempt on the settled ledger fails with `AlreadySettled` —
/// whatever its transfer outcome — so no balance changes again.
pub proof fn law_settle_once(
    m: LedgerModel,
    k: PoolKey,
    transfer1: TransferOutcome,
    transfer2: TransferOutcome,
)
    requires
        model_wf(m),
        finalize_result(m, k, transfer1) is Ok,
    ensures
        pool_at(finalize_post(m, k).pools, k).weight_finalized,
        finalize_result(finalize_post(m, k), k, transfer2) == Err::<(), Error>(
            Error::AlreadySettled,
        ),
{
    lemma_pool_update_preserves(
        m.pools,
        k,
        settled_pool(pool_at(m.pools, k), m.protocol.protocol_fee_bps),
    );
}

/// Delegating a wager owned by one user while authenticated as another
/// always fails with `Unauthorized`, regardless of the pool reference
/// presented and of the secondary layer's answer; so does the permission
/// hand-off.
pub proof fn law_delegate_foreign_wager(
    m: LedgerModel,
    caller: u64,
    pool_ref: PoolKey,
    wk: WagerKey,
    outcome: DelegateOutcome,
)
    requires
        model_wf(m),
        has_wager(m.wagers, wk),
        wager_at(m.wagers, wk).owner != caller,
    ensures
        delegate_bet_result(m, caller, pool_ref, wk, outcome) == Err::<(), Error>(
            Error::Unauthorized,
        ),
        delegate_bet_permission_result(m, caller, pool_ref, wk, outcome) == Err::<(), Error>(
            Error::Unauthorized,
        ),
{
}

/// A batch return requested before the pool's end time always fails with
/// `TooEarly`, even for an empty record list, whatever the secondary layer
/// would have answered.
pub proof fn law_batch_undelegate_gate(
    m: LedgerModel,
    k: PoolKey,
    now: i64,
    records: Seq<Vec<u8>>,
    outcome: CommitOutcome,
)
    requires
        model_wf(m),
        has_pool(m.pools, k),
        now < pool_at(m.pools, k).end_time,
    ensures
        batch_undelegate_result(m, k, now, records, outcome) == Err::<(), Error>(Error::TooEarly),
{
}

/// Delegation is exclusive: a successful pool hand-off leaves the record
/// owned by the named validator, and a second hand-off of the same pool is
/// refused with `AlreadyDelegated`.
pub proof fn law_exclusive_pool_delegation(
    m: LedgerModel,
    caller: u64,
    pool_id: u64,
    validator: u64,
    outcome1: DelegateOutcome,
    outcome2: DelegateOutcome,
)
    requires
        model_wf(m),
        delegate_pool_result(m, caller, pool_id, outcome1) is Ok,
    ensures
        pool_at(
            delegate_pool_post(m, caller, pool_id, validator).pools,
            PoolKey { creator: caller, pool_id },
        ).residency == (Residency::Delegated { validator }),
        delegate_pool_result(delegate_pool_post(m, caller, pool_id, validator), caller, pool_id,
            outcome2) == Err::<(), Error>(Error::AlreadyDelegated),
{
    let k = PoolKey { creator: caller, pool_id };
    lemma_pool_update_preserves(
        m.pools,
        k,
        crate::delegation::delegated_pool(pool_at(m.pools, k), validator),
    );
}

/// The same exclusivity for a wager: a successful hand-off leaves the
/// record owned by the named validator, and a second hand-off of the same
/// wager is refused with `AlreadyDelegated`.
pub proof fn law_exclusive_bet_delegation(
    m: LedgerModel,
    caller: u64,
    pool_ref: PoolKey,
    wk: WagerKey,
    validator: u64,
    outcome1: DelegateOutcome,
    outcome2: DelegateOutcome,
)
    requires
        model_wf(m),
        delegate_bet_result(m, caller, pool_ref, wk, outcome1) is Ok,
    ensures
        wager_at(delegate_bet_post(m, wk, validator).wagers, wk).residency == (
        Residency::Delegated { validator }),
        delegate_bet_result(delegate_bet_post(m, wk, validator), caller, pool_ref, wk, outcome2)
            == Err::<(), Error>(Error::AlreadyDelegated),
{
    let m1 = delegate_bet_post(m, wk, validator);
    let i = crate::ledger::wager_idx(m.wagers, wk);
    assert(0 <= i < m.wagers.len() && m.wagers[i].key() == wk);
    let w2 = delegated_wager(wager_at(m.wagers, wk), validator);
    assert(w2.key() == wk);
    assert(m1.wagers[i].key() == wk);
    assert forall|a: int, b: int|
        0 <= a < b < m1.wagers.len() implies (#[trigger] m1.wagers[a]).key() != (
    #[trigger] m1.wagers[b]).key() by {
        assert(m1.wagers[a].key() == m.wagers[a].key());
        assert(m1.wagers[b].key() == m.wagers[b].key());
    }
    crate::ledger::lemma_wager_idx_is(m1.wagers, wk, i);
}

} // verus!

use swiv_privacy::config::Protocol;
use swiv_privacy::errors::{Error, TransferOutcome};
use swiv_privacy::events::Notification;
use swiv_privacy::ledger::Ledger;
use swiv_privacy::state::{BetStatus, PoolKey, Residency};

const ADMIN: u64 = 1;
const TREASURY: u64 = 2;
const USER: u64 = 3;
const MINT: u64 = 9;

fn fresh_ledger(fee_bps: u64) -> Ledger {
    let (protocol, note) = Protocol::initialize_protocol(ADMIN, TREASURY, fee_bps);
    assert_eq!(note, Notification::ProtocolInitialized { admin: ADMIN, fee_wallet: TREASURY });
    Ledger::new(protocol)
}

fn with_pool(fee_bps: u64) -> (Ledger, PoolKey) {
    let mut ledger = fresh_ledger(fee_bps);
    let r = ledger.create_pool(
        ADMIN,
        7,
        String::from("alpha"),
        None,
        MINT,
        100,
        200,
        10,
        250,
        1,
    );
    assert!(r.is_ok());
    (ledger, PoolKey { creator: ADMIN, pool_id: 7 })
}

#[test]
fn create_pool_records_fields() {
    let (ledger, key) = with_pool(500);
    assert_eq!(ledger.pools.len(), 1);
    let p = &ledger.pools[0];
    assert_eq!(p.creator, key.creator);
    assert_eq!(p.pool_id, key.pool_id);
    assert_eq!(p.name, "alpha");
    assert_eq!(p.start_time, 100);
    assert_eq!(p.end_time, 200);
    assert_eq!(p.vault_balance, 0);
    assert_eq!(p.total_participants, 0);
    assert!(!p.is_resolved);
    assert!(!p.weight_finalized);
    assert_eq!(p.residency, Residency::Resident);
    assert_eq!(ledger.protocol.total_pools, 1);
}

#[test]
fn create_pool_emits_notification() {
    let mut ledger = fresh_ledger(500);
    let r = ledger.create_pool(ADMIN, 7, String::from("alpha"), None, MINT, 100, 200, 10, 250, 1);
    assert_eq!(
        r.unwrap(),
        Notification::PoolCreated { pool_name: String::from("alpha"), start_time: 100, end_time: 200 }
    );
}

#[test]
fn create_pool_rejects_empty_window() {
    let mut ledger = fresh_ledger(500);
    let r = ledger.create_pool(ADMIN, 7, String::from("a"), None, MINT, 200, 200, 10, 250, 1);
    assert_eq!(r.unwrap_err(), Error::InvalidWindow);
    let r = ledger.create_pool(ADMIN, 7, String::from("a"), None, MINT, 300, 200, 10, 250, 1);
    assert_eq!(r.unwrap_err(), Error::InvalidWindow);
    assert_eq!(ledger.pools.len(), 0);
    assert_eq!(ledger.protocol.total_pools, 0);
}

#[test]
fn create_pool_rejects_non_admin() {
    let mut ledger = fresh_ledger(500);
    let r = ledger.create_pool(USER, 7, String::from("a"), None, MINT, 100, 200, 10, 250, 1);
    assert_eq!(r.unwrap_err(), Error::Unauthorized);
}

#[test]
fn create_pool_rejects_duplicate_key() {
    let (mut ledger, _key) = with_pool(500);
    let r = ledger.create_pool(ADMIN, 7, String::from("b"), None, MINT, 300, 400, 10, 250, 1);
    assert_eq!(r.unwrap_err(), Error::DuplicateRecord);
    assert_eq!(ledger.pools.len(), 1);
}

#[test]
fn init_bet_escrows_and_creates_wager() {
    let (mut ledger, key) = with_pool(500);
    let r = ledger.init_bet(USER, key, 11, 1000, 150, 4, TransferOutcome::Completed);
    let wk = r.unwrap();
    assert_eq!(wk.owner, USER);
    assert_eq!(wk.pool, key);
    assert_eq!(wk.request_id, 11);
    assert_eq!(ledger.pools[0].vault_balance, 1000);
    assert_eq!(ledger.pools[0].total_participants, 1);
    assert_eq!(ledger.wagers.len(), 1);
    let w = &ledger.wagers[0];
    assert_eq!(w.deposit, 1000);
    assert_eq!(w.end_timestamp, 200);
    assert_eq!(w.creation_ts, 150);
    assert_eq!(w.calculated_weight, 0);
    assert!(!w.is_weight_added);
    assert_eq!(w.status, BetStatus::Initialized);
    assert_eq!(w.residency, Residency::Resident);
}

#[test]
fn init_bet_rejects_before_window() {
    let (mut ledger, key) = with_pool(500);
    let r = ledger.init_bet(USER, key, 11, 1000, 99, 4, TransferOutcome::Completed);
    assert_eq!(r.unwrap_err(), Error::InvalidWindow);
    assert_eq!(ledger.pools[0].vault_balance, 0);
    assert_eq!(ledger.wagers.len(), 0);
}

#[test]
fn init_bet_rejects_from_end_time_on() {
    let (mut ledger, key) = with_pool(500);
    let r = ledger.init_bet(USER, key, 11, 1000, 200, 4, TransferOutcome::Completed);
    assert_eq!(r.unwrap_err(), Error::InvalidWindow);
    let r = ledger.init_bet(USER, key, 11, 1000, 250, 4, TransferOutcome::Completed);
    assert_eq!(r.unwrap_err(), Error::InvalidWindow);
    assert_eq!(ledger.pools[0].vault_balance, 0);
}

#[test]
fn init_bet_rejects_while_paused() {
    let (mut ledger, key) = with_pool(500);
    ledger.protocol.set_pause(ADMIN, true).unwrap();
    let r = ledger.init_bet(USER, key, 11, 1000, 150, 4, TransferOutcome::Completed);
    assert_eq!(r.unwrap_err(), Error::Paused);
}

#[test]
fn init_bet_rejects_unknown_pool() {
    let mut ledger = fresh_ledger(500);
    let key = PoolKey { creator: ADMIN, pool_id: 7 };
    let r = ledger.init_bet(USER, key, 11, 1000, 150, 4, TransferOutcome::Completed);
    assert_eq!(r.unwrap_err(), Error::UnknownRecord);
}

#[test]
fn init_bet_rejects_duplicate_triple() {
    let (mut ledger, key) = with_pool(500);
    ledger.init_bet(USER, key, 11, 1000, 150, 4, TransferOutcome::Completed).unwrap();
    let r = ledger.init_bet(USER, key, 11, 600, 160, 5, TransferOutcome::Completed);
    assert_eq!(r.unwrap_err(), Error::DuplicateRecord);
    assert_eq!(ledger.wagers.len(), 1);
    assert_eq!(ledger.wagers[0].deposit, 1000);
    assert_eq!(ledger.wagers[0].creation_ts, 150);
    assert_eq!(ledger.pools[0].vault_balance, 1000);
    assert_eq!(ledger.pools[0].total_participants, 1);
}

#[test]
fn init_bet_distinct_request_ids_coexist() {
    let (mut ledger, key) = with_pool(500);
    ledger.init_bet(USER, key, 11, 1000, 150, 4, TransferOutcome::Completed).unwrap();
    ledger.init_bet(USER, key, 12, 600, 160, 5, TransferOutcome::Completed).unwrap();
    assert_eq!(ledger.wagers.len(), 2);
    assert_eq!(ledger.pools[0].vault_balance, 1600);
    assert_eq!(ledger.pools[0].total_participants, 2);
}

#[test]
fn init_bet_propagates_escrow_failure() {
    let (mut ledger, key) = with_pool(500);
    let r = ledger.init_bet(USER, key, 11, 1000, 150, 4, TransferOutcome::InsufficientFunds);
    assert_eq!(r.unwrap_err(), Error::InsufficientFunds);
    let r = ledger.init_bet(USER, key, 11, 1000, 150, 4, TransferOutcome::Failed);
    assert_eq!(r.unwrap_err(), Error::TransferFailed);
    assert_eq!(ledger.pools[0].vault_balance, 0);
    assert_eq!(ledger.wagers.len(), 0);
}

#[test]
fn init_bet_rejects_vault_overflow() {
    let (mut ledger, key) = with_pool(500);
    ledger.init_bet(USER, key, 11, u64::MAX, 150, 4, TransferOutcome::Completed).unwrap();
    let r = ledger.init_bet(USER, key, 12, 1, 150, 4, TransferOutcome::Completed);
    assert_eq!(r.unwrap_err(), Error::ArithmeticOverflow);
    assert_eq!(ledger.pools[0].vault_balance, u64::MAX);
}

#[test]
fn resolve_pool_records_outcome() {
    let (mut ledger, key) = with_pool(500);
    let r = ledger.resolve_pool(ADMIN, key, 7, 250);
    assert_eq!(
        r.unwrap(),
        Notification::PoolResolved {
            pool_name: String::from("alpha"),
            final_outcome: 7,
            resolution_ts: 250
        }
    );
    let p = &ledger.pools[0];
    assert!(p.is_resolved);
    assert_eq!(p.resolution_target, 7);
    assert_eq!(p.resolution_ts, 250);
    assert!(!p.weight_finalized);
}

#[test]
fn resolve_pool_rejects_before_end() {
    let (mut ledger, key) = with_pool(500);
    let r = ledger.resolve_pool(ADMIN, key, 7, 199);
    assert_eq!(r.unwrap_err(), Error::TooEarly);
    assert!(!ledger.pools[0].is_resolved);
}

#[test]
fn resolve_pool_rejects_second_resolution() {
    let (mut ledger, key) = with_pool(500);
    ledger.resolve_pool(ADMIN, key, 7, 250).unwrap();
    let r = ledger.resolve_pool(ADMIN, key, 8, 260);
    assert_eq!(r.unwrap_err(), Error::AlreadyResolved);
    assert_eq!(ledger.pools[0].resolution_target, 7);
}

#[test]
fn resolve_pool_rejects_non_admin() {
    let (mut ledger, key) = with_pool(500);
    let r = ledger.resolve_pool(USER, key, 7, 250);
    assert_eq!(r.unwrap_err(), Error::Unauthorized);
}

#[test]
fn settlement_deducts_exact_fee() {
    let (mut ledger, key) = with_pool(500);
    ledger.init_bet(USER, key, 11, 1000, 150, 4, TransferOutcome::Completed).unwrap();
    ledger.resolve_pool(ADMIN, key, 7, 250).unwrap();
    let due = ledger.settlement_due(key).unwrap();
    assert_eq!(due, 50);
    let r = ledger.finalize_weights(key, TransferOutcome::Completed);
    assert_eq!(
        r.unwrap(),
        Notification::WeightsFinalized {
            pool_name: String::from("alpha"),
            total_weight: 0,
            fee_deducted: 50
        }
    );
    let p = &ledger.pools[0];
    assert_eq!(p.vault_balance, 950);
    assert!(p.weight_finalized);
}

#[test]
fn settlement_conserves_vault() {
    for (vault, bps) in [(1000u64, 500u64), (19, 1), (12345, 10000), (7, 9999), (0, 500)] {
        let (mut ledger, key) = with_pool(bps);
        if vault > 0 {
            ledger.init_bet(USER, key, 11, vault, 150, 4, TransferOutcome::Completed).unwrap();
        }
        ledger.resolve_pool(ADMIN, key, 1, 250).unwrap();
        let fee = ledger.settlement_due(key).unwrap();
        assert_eq!(fee as u128, (vault as u128) * (bps as u128) / 10000);
        ledger.finalize_weights(key, TransferOutcome::Completed).unwrap();
        assert_eq!(ledger.pools[0].vault_balance + fee, vault);
    }
}

#[test]
fn settlement_rejects_unresolved_pool() {
    let (mut ledger, key) = with_pool(500);
    assert_eq!(ledger.settlement_due(key).unwrap_err(), Error::TooEarly);
    let r = ledger.finalize_weights(key, TransferOutcome::Completed);
    assert_eq!(r.unwrap_err(), Error::TooEarly);
}

#[test]
fn settlement_runs_exactly_once() {
    let (mut ledger, key) = with_pool(500);
    ledger.init_bet(USER, key, 11, 1000, 150, 4, TransferOutcome::Completed).unwrap();
    ledger.resolve_pool(ADMIN, key, 7, 250).unwrap();
    ledger.finalize_weights(key, TransferOutcome::Completed).unwrap();
    let r = ledger.finalize_weights(key, TransferOutcome::Completed);
    assert_eq!(r.unwrap_err(), Error::AlreadySettled);
    assert_eq!(ledger.pools[0].vault_balance, 950);
    assert_eq!(ledger.settlement_due(key).unwrap_err(), Error::AlreadySettled);
}

#[test]
fn settlement_zero_rate_needs_no_transfer() {
    let (mut ledger, key) = with_pool(0);
    ledger.init_bet(USER, key, 11, 1000, 150, 4, TransferOutcome::Completed).unwrap();
    ledger.resolve_pool(ADMIN, key, 7, 250).unwrap();
    assert_eq!(ledger.settlement_due(key).unwrap(), 0);
    // A zero fee means no transfer is requested, so its outcome is never
    // consulted.
    let r = ledger.finalize_weights(key, TransferOutcome::Failed);
    assert!(r.is_ok());
    assert_eq!(ledger.pools[0].vault_balance, 1000);
    assert!(ledger.pools[0].weight_finalized);
}

#[test]
fn settlement_fee_rounding_to_zero_needs_no_transfer() {
    let (mut ledger, key) = with_pool(1);
    ledger.init_bet(USER, key, 11, 19, 150, 4, TransferOutcome::Completed).unwrap();
    ledger.resolve_pool(ADMIN, key, 7, 250).unwrap();
    assert_eq!(ledger.settlement_due(key).unwrap(), 0);
    let r = ledger.finalize_weights(key, TransferOutcome::Failed);
    assert!(r.is_ok());
    assert_eq!(ledger.pools[0].vault_balance, 19);
}

#[test]
fn settlement_propagates_transfer_failure() {
    let (mut ledger, key) = with_pool(500);
    ledger.init_bet(USER, key, 11, 1000, 150, 4, TransferOutcome::Completed).unwrap();
    ledger.resolve_pool(ADMIN, key, 7, 250).unwrap();
    let r = ledger.finalize_weights(key, TransferOutcome::Failed);
    assert_eq!(r.unwrap_err(), Error::TransferFailed);
    assert_eq!(ledger.pools[0].vault_balance, 1000);
    assert!(!ledger.pools[0].weight_finalized);
}

#[test]
fn full_market_lifecycle() {
    // A pool with window [100, 200) and a 5% fee: one deposit of 1000 at
    // t=150, resolution with outcome 7 at t=250, then settlement taking 50
    // and fixing 950 as distributable.
    let mut ledger = fresh_ledger(500);
    ledger
        .create_pool(ADMIN, 7, String::from("alpha"), None, MINT, 100, 200, 10, 250, 1)
        .unwrap();
    let key = PoolKey { creator: ADMIN, pool_id: 7 };
    ledger.init_bet(USER, key, 11, 1000, 150, 4, TransferOutcome::Completed).unwrap();
    assert_eq!(ledger.pools[0].vault_balance, 1000);
    assert_eq!(ledger.pools[0].total_participants, 1);
    ledger.resolve_pool(ADMIN, key, 7, 250).unwrap();
    assert!(ledger.pools[0].is_resolved);
    assert_eq!(ledger.pools[0].resolution_ts, 250);
    let note = ledger.finalize_weights(key, TransferOutcome::Completed).unwrap();
    assert_eq!(
        note,
        Notification::WeightsFinalized {
            pool_name: String::from("alpha"),
            total_weight: 0,
            fee_deducted: 50
        }
    );
    assert_eq!(ledger.pools[0].vault_balance, 950);
    assert!(ledger.pools[0].weight_finalized);
}

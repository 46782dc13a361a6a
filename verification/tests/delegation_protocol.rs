use swiv_privacy::addr::wager_location_vec;
use swiv_privacy::config::Protocol;
use swiv_privacy::errors::{CommitOutcome, DelegateOutcome, Error, TransferOutcome};
use swiv_privacy::events::Notification;
use swiv_privacy::ledger::Ledger;
use swiv_privacy::state::{PoolKey, Residency, WagerKey};

const ADMIN: u64 = 1;
const TREASURY: u64 = 2;
const USER_A: u64 = 3;
const USER_B: u64 = 4;
const MINT: u64 = 9;
const VALIDATOR: u64 = 77;

fn ledger_with_wager() -> (Ledger, PoolKey, WagerKey) {
    let (protocol, _) = Protocol::initialize_protocol(ADMIN, TREASURY, 500);
    let mut ledger = Ledger::new(protocol);
    ledger
        .create_pool(ADMIN, 7, String::from("alpha"), None, MINT, 100, 200, 10, 250, 1)
        .unwrap();
    let key = PoolKey { creator: ADMIN, pool_id: 7 };
    let wk = ledger.init_bet(USER_A, key, 11, 1000, 150, 4, TransferOutcome::Completed).unwrap();
    (ledger, key, wk)
}

#[test]
fn delegate_pool_moves_ownership() {
    let (mut ledger, key, _wk) = ledger_with_wager();
    let (seeds, note) = ledger
        .delegate_pool(ADMIN, 7, VALIDATOR, DelegateOutcome::Accepted)
        .unwrap();
    assert_eq!(note, Notification::PoolDelegated { pool: key });
    assert_eq!(seeds.len(), 17);
    assert_eq!(ledger.pools[0].residency, Residency::Delegated { validator: VALIDATOR });
}

#[test]
fn delegate_pool_rejects_non_admin() {
    let (mut ledger, _key, _wk) = ledger_with_wager();
    let r = ledger.delegate_pool(USER_A, 7, VALIDATOR, DelegateOutcome::Accepted);
    assert_eq!(r.unwrap_err(), Error::Unauthorized);
    assert_eq!(ledger.pools[0].residency, Residency::Resident);
}

#[test]
fn delegate_pool_rejects_second_hand_off() {
    let (mut ledger, _key, _wk) = ledger_with_wager();
    ledger.delegate_pool(ADMIN, 7, VALIDATOR, DelegateOutcome::Accepted).unwrap();
    let r = ledger.delegate_pool(ADMIN, 7, VALIDATOR, DelegateOutcome::Accepted);
    assert_eq!(r.unwrap_err(), Error::AlreadyDelegated);
}

#[test]
fn delegate_pool_respects_layer_refusal() {
    let (mut ledger, _key, _wk) = ledger_with_wager();
    let r = ledger.delegate_pool(ADMIN, 7, VALIDATOR, DelegateOutcome::AlreadyDelegated);
    assert_eq!(r.unwrap_err(), Error::AlreadyDelegated);
    assert_eq!(ledger.pools[0].residency, Residency::Resident);
}

#[test]
fn undelegate_pool_restores_ownership() {
    let (mut ledger, key, _wk) = ledger_with_wager();
    ledger.delegate_pool(ADMIN, 7, VALIDATOR, DelegateOutcome::Accepted).unwrap();
    let note = ledger.undelegate_pool(ADMIN, key, CommitOutcome::Committed).unwrap();
    assert_eq!(note, Notification::PoolUndelegated { pool: key });
    assert_eq!(ledger.pools[0].residency, Residency::Resident);
}

#[test]
fn undelegate_pool_rejects_resident_record() {
    let (mut ledger, key, _wk) = ledger_with_wager();
    let r = ledger.undelegate_pool(ADMIN, key, CommitOutcome::Committed);
    assert_eq!(r.unwrap_err(), Error::NotDelegated);
}

#[test]
fn undelegate_pool_respects_commit_failure() {
    let (mut ledger, key, _wk) = ledger_with_wager();
    ledger.delegate_pool(ADMIN, 7, VALIDATOR, DelegateOutcome::Accepted).unwrap();
    let r = ledger.undelegate_pool(ADMIN, key, CommitOutcome::Failed);
    assert_eq!(r.unwrap_err(), Error::CommitFailed);
    assert_eq!(ledger.pools[0].residency, Residency::Delegated { validator: VALIDATOR });
}

#[test]
fn delegate_bet_moves_ownership() {
    let (mut ledger, key, wk) = ledger_with_wager();
    let (seeds, note) = ledger
        .delegate_bet(USER_A, key, wk, VALIDATOR, DelegateOutcome::Accepted)
        .unwrap();
    assert_eq!(seeds, wager_location_vec(wk));
    assert_eq!(note, Notification::BetDelegated { bet: wk, user: USER_A, request_id: 11 });
    assert_eq!(ledger.wagers[0].residency, Residency::Delegated { validator: VALIDATOR });
    // Data ownership moved; the permission capability did not.
    assert_eq!(ledger.wagers[0].permission, Residency::Resident);
}

#[test]
fn delegate_bet_rejects_foreign_owner() {
    let (mut ledger, key, wk) = ledger_with_wager();
    let r = ledger.delegate_bet(USER_B, key, wk, VALIDATOR, DelegateOutcome::Accepted);
    assert_eq!(r.unwrap_err(), Error::Unauthorized);
    assert_eq!(ledger.wagers[0].residency, Residency::Resident);
}

#[test]
fn delegate_bet_rejects_foreign_owner_even_with_bad_pool() {
    // The owner check comes first: a wrong owner is Unauthorized whatever
    // pool reference is presented.
    let (mut ledger, _key, wk) = ledger_with_wager();
    let wrong_pool = PoolKey { creator: ADMIN, pool_id: 8 };
    let r = ledger.delegate_bet(USER_B, wrong_pool, wk, VALIDATOR, DelegateOutcome::Accepted);
    assert_eq!(r.unwrap_err(), Error::Unauthorized);
}

#[test]
fn delegate_bet_rejects_pool_mismatch() {
    let (mut ledger, _key, wk) = ledger_with_wager();
    let wrong_pool = PoolKey { creator: ADMIN, pool_id: 8 };
    let r = ledger.delegate_bet(USER_A, wrong_pool, wk, VALIDATOR, DelegateOutcome::Accepted);
    assert_eq!(r.unwrap_err(), Error::PoolMismatch);
}

#[test]
fn delegate_bet_rejects_second_hand_off() {
    let (mut ledger, key, wk) = ledger_with_wager();
    ledger.delegate_bet(USER_A, key, wk, VALIDATOR, DelegateOutcome::Accepted).unwrap();
    let r = ledger.delegate_bet(USER_A, key, wk, VALIDATOR, DelegateOutcome::Accepted);
    assert_eq!(r.unwrap_err(), Error::AlreadyDelegated);
}

#[test]
fn delegate_bet_permission_signs_with_stored_salt() {
    let (mut ledger, key, wk) = ledger_with_wager();
    let seeds = ledger
        .delegate_bet_permission(USER_A, key, wk, VALIDATOR, DelegateOutcome::Accepted)
        .unwrap();
    let mut expected = wager_location_vec(wk);
    expected.push(4);  // the wager's bump, recorded at placement
    assert_eq!(seeds, expected);
    assert_eq!(ledger.wagers[0].permission, Residency::Delegated { validator: VALIDATOR });
    // The wager itself stays resident: permission is a separate capability.
    assert_eq!(ledger.wagers[0].residency, Residency::Resident);
}

#[test]
fn delegate_bet_permission_rejects_foreign_owner() {
    let (mut ledger, key, wk) = ledger_with_wager();
    let r = ledger.delegate_bet_permission(USER_B, key, wk, VALIDATOR, DelegateOutcome::Accepted);
    assert_eq!(r.unwrap_err(), Error::Unauthorized);
    assert_eq!(ledger.wagers[0].permission, Residency::Resident);
}

#[test]
fn batch_undelegate_rejects_before_end_time() {
    let (mut ledger, key, _wk) = ledger_with_wager();
    let empty: Vec<Vec<u8>> = Vec::new();
    let r = ledger.batch_undelegate_bets(USER_B, key, 199, &empty, CommitOutcome::Committed);
    assert_eq!(r.unwrap_err(), Error::TooEarly);
}

#[test]
fn batch_undelegate_rejects_before_end_time_nonempty() {
    let (mut ledger, key, wk) = ledger_with_wager();
    let records = vec![wager_location_vec(wk)];
    let r = ledger.batch_undelegate_bets(USER_B, key, 150, &records, CommitOutcome::Committed);
    assert_eq!(r.unwrap_err(), Error::TooEarly);
}

#[test]
fn batch_undelegate_empty_list_is_noop() {
    let (mut ledger, key, _wk) = ledger_with_wager();
    let empty: Vec<Vec<u8>> = Vec::new();
    let notes = ledger
        .batch_undelegate_bets(USER_B, key, 200, &empty, CommitOutcome::Committed)
        .unwrap();
    assert!(notes.is_empty());
}

#[test]
fn batch_undelegate_restores_targeted_wagers() {
    let (mut ledger, key, wk) = ledger_with_wager();
    let wk2 = ledger
        .init_bet(USER_B, key, 12, 500, 160, 5, TransferOutcome::Completed)
        .unwrap();
    ledger.delegate_bet(USER_A, key, wk, VALIDATOR, DelegateOutcome::Accepted).unwrap();
    ledger.delegate_bet(USER_B, key, wk2, VALIDATOR, DelegateOutcome::Accepted).unwrap();
    // Flush only the first wager.
    let records = vec![wager_location_vec(wk)];
    let notes = ledger
        .batch_undelegate_bets(USER_B, key, 250, &records, CommitOutcome::Committed)
        .unwrap();
    assert_eq!(notes.len(), 1);
    assert_eq!(
        notes[0],
        Notification::BetUndelegated {
            bet_location: wager_location_vec(wk),
            user: None,
            is_batch: true
        }
    );
    assert_eq!(ledger.wagers[0].residency, Residency::Resident);
    assert_eq!(
        ledger.wagers[1].residency,
        Residency::Delegated { validator: VALIDATOR }
    );
}

#[test]
fn batch_undelegate_whole_batch_fails_together() {
    let (mut ledger, key, wk) = ledger_with_wager();
    ledger.delegate_bet(USER_A, key, wk, VALIDATOR, DelegateOutcome::Accepted).unwrap();
    let records = vec![wager_location_vec(wk)];
    let r = ledger.batch_undelegate_bets(USER_B, key, 250, &records, CommitOutcome::Failed);
    assert_eq!(r.unwrap_err(), Error::CommitFailed);
    // The failed batch emitted nothing and changed nothing.
    assert_eq!(
        ledger.wagers[0].residency,
        Residency::Delegated { validator: VALIDATOR }
    );
}

#[test]
fn batch_undelegate_ignores_unknown_locations() {
    let (mut ledger, key, wk) = ledger_with_wager();
    ledger.delegate_bet(USER_A, key, wk, VALIDATOR, DelegateOutcome::Accepted).unwrap();
    let stranger = WagerKey { pool: key, owner: USER_B, request_id: 99 };
    let records = vec![wager_location_vec(stranger)];
    let notes = ledger
        .batch_undelegate_bets(USER_B, key, 250, &records, CommitOutcome::Committed)
        .unwrap();
    // One notification per supplied record, but the delegated wager was not
    // among them and keeps its owner.
    assert_eq!(notes.len(), 1);
    assert_eq!(
        ledger.wagers[0].residency,
        Residency::Delegated { validator: VALIDATOR }
    );
}

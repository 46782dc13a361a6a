//! The notifications an operation emits on success. They are fire-and-forget:
//! the contracts pin down exactly which notifications a successful operation
//! produces, and that a failed operation produces none.

use vstd::prelude::*;

use crate::state::{PoolKey, WagerKey};

verus! {

/// One notification. Batch undelegation identifies records by their raw
/// location bytes and cannot attribute an owner, so `BetUndelegated` carries
/// the owner as best-effort `Option`.
#[derive(Clone, Debug, PartialEq)]
pub enum Notification {
    ProtocolInitialized { admin: u64, fee_wallet: u64 },
    PauseChanged { is_paused: bool },
    AdminTransferred { old_admin: u64, new_admin: u64 },
    ConfigUpdated { treasury: Option<u64>, protocol_fee_bps: Option<u64> },
    PoolCreated { pool_name: String, start_time: i64, end_time: i64 },
    PoolResolved { pool_name: String, final_outcome: u64, resolution_ts: i64 },
    WeightsFinalized { pool_name: String, total_weight: u64, fee_deducted: u64 },
    PoolDelegated { pool: PoolKey },
    PoolUndelegated { pool: PoolKey },
    BetDelegated { bet: WagerKey, user: u64, request_id: u64 },
    BetUndelegated { bet_location: Vec<u8>, user: Option<u64>, is_batch: bool },
}

} // verus!

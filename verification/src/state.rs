//! The records of the primary ledger: pools and wagers, their keys, and the
//! residency tag that tracks which execution layer owns a record.

use vstd::prelude::*;

verus! {

/// A pool is keyed by its creator together with a creator-scoped sequence
/// number; the pair is the pool's unique identity.
#[derive(Clone, Copy, Debug, PartialEq, Eq, Structural)]
pub struct PoolKey {
    pub creator: u64,
    pub pool_id: u64,
}

/// A wager is keyed by the pool it belongs to, its owner, and a
/// caller-supplied request identifier; one wager exists per triple.
#[derive(Clone, Copy, Debug, PartialEq, Eq, Structural)]
pub struct WagerKey {
    pub pool: PoolKey,
    pub owner: u64,
    pub request_id: u64,
}

/// The lifecycle status of a wager. This core only produces `Initialized`;
/// the later states are set by a scoring component outside it.
#[derive(Clone, Copy, Debug, PartialEq, Eq, Structural)]
pub enum BetStatus {
    Initialized,
    WeightComputed,
    Settled,
}

/// Which execution layer owns a record. Exactly one layer is authoritative
/// at a time: a record is either resident on the primary ledger or delegated
/// to a named validator of the secondary layer, never both.
#[derive(Clone, Copy, Debug, PartialEq, Eq, Structural)]
pub enum Residency {
    Resident,
    Delegated { validator: u64 },
}

/// One market: a time-bounded pool with an escrow vault, a single resolution
/// outcome, and a weight-finalization flag.
#[derive(Clone, Debug, PartialEq)]
pub struct Pool {
    /// The creating authority; half of the pool's key.
    pub creator: u64,
    /// The creator-scoped sequence number; the other half of the key.
    pub pool_id: u64,
    /// Display name, carried in notifications.
    pub name: String,
    /// Optional free-form metadata.
    pub metadata: Option<String>,
    /// The value asset this pool escrows.
    pub token_mint: u64,
    /// Betting opens at this time (inclusive).
    pub start_time: i64,
    /// Betting closes at this time (exclusive); resolution may happen from
    /// here on.
    pub end_time: i64,
    /// Sum of active deposits; after settlement, the fixed distributable
    /// remainder.
    pub vault_balance: u64,
    /// How many wagers were accepted.
    pub total_participants: u64,
    /// Tunable consumed by the out-of-scope weight computation.
    pub max_accuracy_buffer: u64,
    /// Tunable consumed by the out-of-scope weight computation, in basis
    /// points.
    pub conviction_bonus_bps: u64,
    /// Whether an outcome has been recorded.
    pub is_resolved: bool,
    /// The recorded outcome; meaningful only once resolved.
    pub resolution_target: u64,
    /// When the outcome was recorded; meaningful only once resolved.
    pub resolution_ts: i64,
    /// Total accumulated weight across wagers.
    pub total_weight: u64,
    /// Whether settlement has fixed the distributable remainder.
    pub weight_finalized: bool,
    /// The uniqueness salt recorded when the record's location was first
    /// derived.
    pub bump: u8,
    /// Which execution layer owns this record.
    pub residency: Residency,
}

impl Pool {
    pub open spec fn key(&self) -> PoolKey {
        PoolKey { creator: self.creator, pool_id: self.pool_id }
    }

    /// A pool's timing window is never empty: creation enforces it.
    pub open spec fn wf(&self) -> bool {
        self.start_time < self.end_time
    }
}

/// One user's deposit against a pool.
#[derive(Clone, Copy, Debug, PartialEq, Eq, Structural)]
pub struct Wager {
    /// The depositing user; the sole source of truth for later ownership
    /// checks.
    pub owner: u64,
    /// The pool this wager belongs to.
    pub pool: PoolKey,
    /// The caller-supplied request identifier that completes the key.
    pub request_id: u64,
    /// The escrowed amount.
    pub deposit: u64,
    /// Denormalized copy of the pool's end time.
    pub end_timestamp: i64,
    /// When the wager was accepted.
    pub creation_ts: i64,
    /// How often the record was updated by the scoring component.
    pub update_count: u64,
    /// The computed weight; zero until the scoring component runs.
    pub calculated_weight: u64,
    /// Whether the weight was already counted into the pool total.
    pub is_weight_added: bool,
    /// Lifecycle status.
    pub status: BetStatus,
    /// The user's prediction value.
    pub prediction: u64,
    /// The uniqueness salt recorded when the record's location was first
    /// derived; it co-signs permission hand-offs.
    pub bump: u8,
    /// Which execution layer owns this record.
    pub residency: Residency,
    /// Which execution layer holds the permission record associated with
    /// this wager. Permission is a capability separate from data ownership.
    pub permission: Residency,
}

impl Wager {
    pub open spec fn key(&self) -> WagerKey {
        WagerKey { pool: self.pool, owner: self.owner, request_id: self.request_id }
    }
}

} // verus!

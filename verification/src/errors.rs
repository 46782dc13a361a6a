//! The error taxonomy, and the outcome types of the external collaborators.

use vstd::prelude::*;

verus! {

/// Why an operation was refused. Every operation checks its preconditions
/// before any mutation: on failure it returns one of these and performs zero
/// side effects.
#[derive(Clone, Copy, Debug, PartialEq, Eq, Structural)]
pub enum Error {
    /// The caller is not the required authority or owner.
    Unauthorized,
    /// A wager's stored pool reference does not match the pool it was
    /// presented with.
    PoolMismatch,
    /// A temporal precondition failed: the window is empty or the current
    /// time lies outside it.
    InvalidWindow,
    /// The operation was requested before its gating time.
    TooEarly,
    /// A configured duration is shorter than the operation allows.
    DurationTooShort,
    /// The pool's outcome has already been recorded.
    AlreadyResolved,
    /// Settlement has already fixed the distributable remainder.
    AlreadySettled,
    /// A payout for this record was already taken.
    AlreadyClaimed,
    /// The global circuit breaker is on.
    Paused,
    /// A record with the same key already exists at the storage layer.
    DuplicateRecord,
    /// No record with the given key exists at the storage layer.
    UnknownRecord,
    /// The value-transfer collaborator reported an insufficient balance.
    InsufficientFunds,
    /// The value-transfer collaborator failed for another reason.
    TransferFailed,
    /// A counter or balance would overflow; the operation fails loudly
    /// rather than wrap.
    ArithmeticOverflow,
    /// The record is already owned by the secondary execution layer.
    AlreadyDelegated,
    /// The record is resident on the primary layer, so there is nothing to
    /// commit back.
    NotDelegated,
    /// The secondary execution layer refused to commit and return the
    /// records.
    CommitFailed,
}

/// What the value-transfer collaborator reported for one requested transfer.
#[derive(Clone, Copy, Debug, PartialEq, Eq, Structural)]
pub enum TransferOutcome {
    /// The full amount moved; no partial transfer exists.
    Completed,
    /// The source balance was too small; nothing moved.
    InsufficientFunds,
    /// The transfer failed for another reason; nothing moved.
    Failed,
}

/// What the secondary execution layer reported for one delegation request.
#[derive(Clone, Copy, Debug, PartialEq, Eq, Structural)]
pub enum DelegateOutcome {
    /// The layer took ownership of the record.
    Accepted,
    /// The layer already owns the record.
    AlreadyDelegated,
}

/// What the secondary execution layer reported for one commit-and-return
/// request. A batch is a single request: it commits every record or none.
#[derive(Clone, Copy, Debug, PartialEq, Eq, Structural)]
pub enum CommitOutcome {
    /// All requested records were committed and returned.
    Committed,
    /// The whole request failed; no record changed hands.
    Failed,
}

} // verus!

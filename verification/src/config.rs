//! The protocol-wide configuration singleton and its authenticated mutation
//! operations.
//!
//! One record holds the admin identity, the treasury address, the fee rate
//! and the pause flag, and every operation consults this same record:
//! authority checks and the settlement fee are deliberately sourced from one
//! place, never from two configurations that could drift apart.

use vstd::prelude::*;

use crate::errors::Error;
use crate::events::Notification;

verus! {

/// The fee rate denominator: rates are expressed in basis points.
pub const BPS_DENOMINATOR: u64 = 10000;

/// How long after a pool's end a batch hand-off must wait, by default.
pub const DEFAULT_BATCH_SETTLE_WAIT: i64 = 60;

/// The protocol-wide configuration singleton.
#[derive(Clone, Copy, Debug, PartialEq, Eq, Structural)]
pub struct Protocol {
    /// The authority for pool creation, resolution and pool delegation.
    pub admin: u64,
    /// Where settlement fees are sent.
    pub treasury_wallet: u64,
    /// The protocol fee in basis points, at most `BPS_DENOMINATOR`.
    pub protocol_fee_bps: u64,
    /// The global circuit breaker: while set, no bet is accepted.
    pub paused: bool,
    /// Aggregate user counter, maintained by components outside this core.
    pub total_users: u64,
    /// How many pools were created.
    pub total_pools: u64,
    /// Wait-duration parameter for batch hand-offs, held for components
    /// outside this core.
    pub batch_settle_wait_duration: i64,
}

impl Protocol {
    /// A fee rate above 100% is meaningless; every constructor and mutation
    /// keeps the rate within the denominator.
    pub open spec fn wf(&self) -> bool {
        self.protocol_fee_bps <= BPS_DENOMINATOR
    }

    /// Creates the singleton at system bootstrap: the caller becomes admin,
    /// counters start at zero, and the circuit breaker is off.
    pub fn initialize_protocol(admin: u64, treasury_wallet: u64, protocol_fee_bps: u64) -> (r: (
        Protocol,
        Notification,
    ))
        requires
            protocol_fee_bps <= BPS_DENOMINATOR,
        ensures
            r.0 == (Protocol {
                admin,
                treasury_wallet,
                protocol_fee_bps,
                paused: false,
                total_users: 0,
                total_pools: 0,
                batch_settle_wait_duration: DEFAULT_BATCH_SETTLE_WAIT,
            }),
            r.0.wf(),
            r.1 == (Notification::ProtocolInitialized { admin, fee_wallet: treasury_wallet }),
    {
        let protocol = Protocol {
            admin,
            treasury_wallet,
            protocol_fee_bps,
            paused: false,
            total_users: 0,
            total_pools: 0,
            batch_settle_wait_duration: DEFAULT_BATCH_SETTLE_WAIT,
        };
        let note = Notification::ProtocolInitialized { admin, fee_wallet: treasury_wallet };
        (protocol, note)
    }

    /// Flips the circuit breaker. Admin-only.
    pub fn set_pause(&mut self, caller: u64, paused: bool) -> (r: Result<Notification, Error>)
        requires
            old(self).wf(),
        ensures
            final(self).wf(),
            caller == old(self).admin ==> {
                &&& r == Ok::<Notification, Error>(Notification::PauseChanged { is_paused: paused })
                &&& *final(self) == (Protocol { paused, ..*old(self) })
            },
            caller != old(self).admin ==> {
                &&& r == Err::<Notification, Error>(Error::Unauthorized)
                &&& *final(self) == *old(self)
            },
    {
        if caller != self.admin {
            return Err(Error::Unauthorized);
        }
        self.paused = paused;
        Ok(Notification::PauseChanged { is_paused: paused })
    }

    /// Hands the admin role to another identity. Admin-only.
    pub fn transfer_admin(&mut self, caller: u64, new_admin: u64) -> (r: Result<
        Notification,
        Error,
    >)
        requires
            old(self).wf(),
        ensures
            final(self).wf(),
            caller == old(self).admin ==> {
                &&& r == Ok::<Notification, Error>(Notification::AdminTransferred {
                    old_admin: old(self).admin,
                    new_admin,
                })
                &&& *final(self) == (Protocol { admin: new_admin, ..*old(self) })
            },
            caller != old(self).admin ==> {
                &&& r == Err::<Notification, Error>(Error::Unauthorized)
                &&& *final(self) == *old(self)
            },
    {
        if caller != self.admin {
            return Err(Error::Unauthorized);
        }
        let old_admin = self.admin;
        self.admin = new_admin;
        Ok(Notification::AdminTransferred { old_admin, new_admin })
    }

    /// Updates the treasury address and the fee rate; a `None` leaves the
    /// field as it is. Admin-only.
    pub fn update_config(
        &mut self,
        caller: u64,
        new_treasury: Option<u64>,
        new_protocol_fee_bps: Option<u64>,
    ) -> (r: Result<Notification, Error>)
        requires
            old(self).wf(),
            new_protocol_fee_bps is Some ==> new_protocol_fee_bps->0 <= BPS_DENOMINATOR,
        ensures
            final(self).wf(),
            caller == old(self).admin ==> {
                &&& r == Ok::<Notification, Error>(Notification::ConfigUpdated {
                    treasury: new_treasury,
                    protocol_fee_bps: new_protocol_fee_bps,
                })
                &&& *final(self) == (Protocol {
                    treasury_wallet: if new_treasury is Some {
                        new_treasury->0
                    } else {
                        old(self).treasury_wallet
                    },
                    protocol_fee_bps: if new_protocol_fee_bps is Some {
                        new_protocol_fee_bps->0
                    } else {
                        old(self).protocol_fee_bps
                    },
                    ..*old(self)
                })
            },
            caller != old(self).admin ==> {
                &&& r == Err::<Notification, Error>(Error::Unauthorized)
                &&& *final(self) == *old(self)
            },
    {
        if caller != self.admin {
            return Err(Error::Unauthorized);
        }
        if let Some(treasury) = new_treasury {
            self.treasury_wallet = treasury;
        }
        if let Some(fee) = new_protocol_fee_bps {
            self.protocol_fee_bps = fee;
        }
        Ok(Notification::ConfigUpdated {
            treasury: new_treasury,
            protocol_fee_bps: new_protocol_fee_bps,
        })
    }
}

} // verus!

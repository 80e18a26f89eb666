//! The escrow session: what has been deposited for one lease.

use vstd::prelude::*;
use crate::identity::Identity;

verus! {

/// The record of an escrow. The deposits themselves sit at the custody address.
#[derive(Clone, Debug, PartialEq, Eq)]
pub struct EscrowSession {
    pub start_time: i64,
    pub is_active: bool,
    pub amount: u64,
    pub bump: u8,
    pub user: Identity,
    pub id: String,
}

/// What an escrow session record says.
pub struct EscrowSessionView {
    pub start_time: i64,
    pub is_active: bool,
    pub amount: u64,
    pub bump: u8,
    pub user: Seq<u8>,
    pub id: Seq<char>,
}

impl View for EscrowSession {
    type V = EscrowSessionView;

    open spec fn view(&self) -> EscrowSessionView {
        EscrowSessionView {
            start_time: self.start_time,
            is_active: self.is_active,
            amount: self.amount,
            bump: self.bump,
            user: self.user@,
            id: self.id@,
        }
    }
}

impl EscrowSessionView {
    /// An active escrow holds a deposit.
    pub open spec fn wf(self) -> bool {
        self.is_active ==> self.amount > 0
    }

    /// The record of no escrow: inactive, no amount, no user, no id, no bump,
    /// no start time.
    pub open spec fn reset() -> EscrowSessionView {
        EscrowSessionView {
            start_time: 0,
            is_active: false,
            amount: 0,
            bump: 0,
            user: Identity::zero(),
            id: Seq::<char>::empty(),
        }
    }
}

impl EscrowSession {
    /// A record that has never held an escrow.
    pub fn new() -> (r: EscrowSession)
        ensures
            r@ == EscrowSessionView::reset(),
            r@.wf(),
    {
        EscrowSession {
            start_time: 0,
            is_active: false,
            amount: 0,
            bump: 0,
            user: Identity::default(),
            id: String::new(),
        }
    }
}

} // verus!

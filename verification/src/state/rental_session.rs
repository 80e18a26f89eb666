//! The rental session: one lease and what was paid for it.

use vstd::prelude::*;
use crate::identity::Identity;

verus! {

/// The record of a lease, paid up front or backed by an escrow.
#[derive(Clone, Debug, PartialEq, Eq)]
pub struct RentalSession {
    pub user: Identity,
    pub id: String,
    pub amount_paid: u64,
    pub start_time: i64,
    pub end_time: i64,
    pub duration_seconds: i64,
    pub is_active: bool,
    pub bump: u8,
}

/// What a rental session record says.
pub struct RentalSessionView {
    pub user: Seq<u8>,
    pub id: Seq<char>,
    pub amount_paid: u64,
    pub start_time: i64,
    pub end_time: i64,
    pub duration_seconds: i64,
    pub is_active: bool,
    pub bump: u8,
}

impl View for RentalSession {
    type V = RentalSessionView;

    open spec fn view(&self) -> RentalSessionView {
        RentalSessionView {
            user: self.user@,
            id: self.id@,
            amount_paid: self.amount_paid,
            start_time: self.start_time,
            end_time: self.end_time,
            duration_seconds: self.duration_seconds,
            is_active: self.is_active,
            bump: self.bump,
        }
    }
}

impl RentalSessionView {
    /// A lease paid up front ends when its duration has run.
    pub open spec fn is_direct(self) -> bool {
        self.end_time == self.start_time + self.duration_seconds
    }

    /// A lease backed by an escrow has no end until it is settled.
    pub open spec fn is_escrow_backed(self) -> bool {
        self.end_time == 0 && self.duration_seconds == 0
    }

    /// An active session has been paid for and is of one of the two kinds.
    pub open spec fn wf(self) -> bool {
        self.is_active ==> self.amount_paid > 0 && (self.is_direct() || self.is_escrow_backed())
    }

    /// The session once it is closed without a settlement: inactive, nothing paid.
    pub open spec fn closed(self) -> RentalSessionView {
        RentalSessionView { is_active: false, amount_paid: 0, ..self }
    }

    /// The session once its escrow is settled at `now`.
    pub open spec fn settled(self, now: i64) -> RentalSessionView {
        RentalSessionView { is_active: false, amount_paid: 0, end_time: now, ..self }
    }
}

impl RentalSession {
    /// A record that has never held a lease.
    pub fn new() -> (r: RentalSession)
        ensures
            r@ == (RentalSessionView {
                user: Identity::zero(),
                id: Seq::<char>::empty(),
                amount_paid: 0,
                start_time: 0,
                end_time: 0,
                duration_seconds: 0,
                is_active: false,
                bump: 0,
            }),
            r@.wf(),
    {
        RentalSession {
            user: Identity::default(),
            id: String::new(),
            amount_paid: 0,
            start_time: 0,
            end_time: 0,
            duration_seconds: 0,
            is_active: false,
            bump: 0,
        }
    }
}

} // verus!

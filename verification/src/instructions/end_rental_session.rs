//! Ending a lease without moving any money.

use vstd::prelude::*;
use crate::errors::{failure, Errors};
use crate::identity::Identity;
use crate::state::RentalSession;

verus! {

/// What the end of a lease is handed.
#[derive(Clone, Debug)]
pub struct EndRentalSession {
    /// The identity that signed the request.
    pub payer: Identity,
    /// The lease's record.
    pub rental_session: RentalSession,
}

/// Why the end of a lease fails, if it does. The checks are made in this
/// order, and the first that fails gives the reason.
pub open spec fn end_rental_session_failure(
    ctx: EndRentalSession,
    id: Seq<char>,
    user: Seq<u8>,
) -> Option<Errors> {
    if !ctx.rental_session.is_active {
        Some(Errors::RentalExpired)
    } else if ctx.rental_session.user@ != user {
        Some(Errors::Unauthorized)
    } else if ctx.rental_session.id@ != id {
        Some(Errors::Unauthorized)
    } else {
        None
    }
}

/// Ends the running lease `id` of the renter `user_pub_key`: it becomes
/// inactive and what was paid is set to zero. No money moves: what the vault
/// holds of it stays there. A refused request leaves the record as it was.
pub fn end_rental_session(
    ctx: &mut EndRentalSession,
    id: &String,
    user_pub_key: &Identity,
) -> (r: Result<(), Errors>)
    ensures
        failure(r) == end_rental_session_failure(*old(ctx), id@, user_pub_key@),
        r is Ok ==> final(ctx).rental_session@ == old(ctx).rental_session@.closed(),
        r is Err ==> *final(ctx) == *old(ctx),
        final(ctx).payer == old(ctx).payer,
        old(ctx).rental_session@.wf() ==> final(ctx).rental_session@.wf(),
{
    if !ctx.rental_session.is_active {
        return Err(Errors::RentalExpired);
    }
    if !ctx.rental_session.user.same(user_pub_key) {
        return Err(Errors::Unauthorized);
    }
    if ctx.rental_session.id != *id {
        return Err(Errors::Unauthorized);
    }
    ctx.rental_session.is_active = false;
    ctx.rental_session.amount_paid = 0;
    Ok(())
}

} // verus!

//! Starting a lease that is backed by an escrow.

use vstd::prelude::*;
use vstd::utf8::encode_utf8;
use crate::address::{
    derived, escrow_session_address, escrow_session_seeds, escrow_vault_address, escrow_vault_seeds,
    is_derived_address, program_address, rental_session_address, rental_session_seeds, MAX_SEED_LEN,
};
use crate::errors::{failure, Errors};
use crate::funds::Wallet;
use crate::identity::{Identity, ProgramConfig};
use crate::state::{EscrowSession, EscrowSessionView, RentalSession, RentalSessionView};

verus! {

/// What the start of a lease backed by an escrow is handed.
#[derive(Clone, Debug)]
pub struct StartRentalWithEscrow {
    /// The renter, who signed the request, and its balance.
    pub payer: Wallet,
    /// The administrative authority under which the escrow is held.
    pub admin: Identity,
    /// The lease's record.
    pub rental_session: RentalSession,
    /// The escrow's record.
    pub escrow_session: EscrowSession,
    /// The custody address that is to hold the deposits, and its balance.
    pub escrow_vault: Wallet,
}

/// What the renter, the authority and the id derive: the custody address,
/// the lease's record and the escrow's record.
pub struct EscrowAddresses {
    pub custody: Option<(Identity, u8)>,
    pub rental: Option<(Identity, u8)>,
    pub escrow: Option<(Identity, u8)>,
}

/// Why the start of a lease backed by an escrow fails, if it does, where
/// `custody`, `rental` and `escrow` are what the renter, the authority and
/// the id derive. The checks are made in this order, and the first that
/// fails gives the reason.
pub open spec fn start_rental_with_escrow_failure(
    ctx: StartRentalWithEscrow,
    amount: u64,
    rent_minimum: u64,
    custody: Option<(Seq<u8>, u8)>,
    rental: Option<(Seq<u8>, u8)>,
    escrow: Option<(Seq<u8>, u8)>,
) -> Option<Errors> {
    if amount == 0 {
        Some(Errors::InvalidAmount)
    } else if ctx.rental_session.is_active {
        Some(Errors::AlreadyActive)
    } else if !is_derived_address(custody, ctx.escrow_vault.key@) {
        Some(Errors::InvalidEscrowAccount)
    } else if ctx.escrow_vault.lamports != 0 {
        Some(Errors::EscrowAlreadyExists)
    } else if rent_minimum + amount > u64::MAX {
        Some(Errors::ArithmeticOverflow)
    } else if ctx.payer.lamports < rent_minimum + amount {
        Some(Errors::InsufficientFunds)
    } else if rental is None {
        Some(Errors::Unauthorized)
    } else if escrow is None {
        Some(Errors::EscrowNotFound)
    } else {
        None
    }
}

/// The record of a lease that `user` has just backed with a deposit of
/// `amount` at `now`: it has no end yet.
pub open spec fn escrow_backed(
    user: Seq<u8>,
    id: Seq<char>,
    amount: u64,
    now: i64,
    bump: u8,
) -> RentalSessionView {
    RentalSessionView {
        user,
        id,
        amount_paid: amount,
        start_time: now,
        end_time: 0,
        duration_seconds: 0,
        is_active: true,
        bump,
    }
}

/// The record of an escrow that `user` has just opened with `amount` at `now`.
pub open spec fn escrow_opened(
    user: Seq<u8>,
    id: Seq<char>,
    amount: u64,
    now: i64,
    bump: u8,
) -> EscrowSessionView {
    EscrowSessionView { start_time: now, is_active: true, amount, bump, user, id }
}

/// Starts a lease backed by an escrow, given what the renter, the authority
/// and the id derive. The custody address, which must be the derived one and
/// hold nothing, receives `amount` and the `rent_minimum` that keeps it
/// alive, out of the renter's balance; the lease and the escrow are opened
/// at `now` with `amount`. The result is the bump under which the custody
/// address was derived. A refused request moves nothing and leaves both
/// records as they were.
pub fn start_rental_with_escrow_with(
    ctx: &mut StartRentalWithEscrow,
    amount: u64,
    id: String,
    now: i64,
    rent_minimum: u64,
    found: EscrowAddresses,
) -> (r: Result<u8, Errors>)
    ensures
        failure(r) == start_rental_with_escrow_failure(
            *old(ctx),
            amount,
            rent_minimum,
            derived(found.custody),
            derived(found.rental),
            derived(found.escrow),
        ),
        r is Ok ==> {
            &&& r.unwrap() == found.custody.unwrap().1
            &&& final(ctx).rental_session@ == escrow_backed(
                old(ctx).payer.key@,
                id@,
                amount,
                now,
                found.rental.unwrap().1,
            )
            &&& final(ctx).escrow_session@ == escrow_opened(
                old(ctx).payer.key@,
                id@,
                amount,
                now,
                found.escrow.unwrap().1,
            )
            &&& final(ctx).rental_session@.wf()
            &&& final(ctx).escrow_session@.wf()
            &&& final(ctx).payer.lamports == old(ctx).payer.lamports - (rent_minimum + amount)
            &&& final(ctx).escrow_vault.lamports == rent_minimum + amount
            &&& final(ctx).escrow_vault.lamports >= final(ctx).escrow_session@.amount
        },
        r is Err ==> *final(ctx) == *old(ctx),
        final(ctx).payer.key == old(ctx).payer.key,
        final(ctx).admin == old(ctx).admin,
        final(ctx).escrow_vault.key == old(ctx).escrow_vault.key,
        final(ctx).payer.lamports + final(ctx).escrow_vault.lamports
            == old(ctx).payer.lamports + old(ctx).escrow_vault.lamports,
{
    if amount == 0 {
        return Err(Errors::InvalidAmount);
    }
    if ctx.rental_session.is_active {
        return Err(Errors::AlreadyActive);
    }
    let custody_bump: u8 = match found.custody {
        Some((key, bump)) => {
            if !key.same(&ctx.escrow_vault.key) {
                return Err(Errors::InvalidEscrowAccount);
            }
            bump
        },
        None => {
            return Err(Errors::InvalidEscrowAccount);
        },
    };
    if ctx.escrow_vault.lamports != 0 {
        return Err(Errors::EscrowAlreadyExists);
    }
    let deposit: u64 = match rent_minimum.checked_add(amount) {
        Some(deposit) => deposit,
        None => {
            return Err(Errors::ArithmeticOverflow);
        },
    };
    if ctx.payer.lamports < deposit {
        return Err(Errors::InsufficientFunds);
    }
    let rental_bump: u8 = match found.rental {
        Some((_, bump)) => bump,
        None => {
            return Err(Errors::Unauthorized);
        },
    };
    let escrow_bump: u8 = match found.escrow {
        Some((_, bump)) => bump,
        None => {
            return Err(Errors::EscrowNotFound);
        },
    };
    ctx.payer.lamports = ctx.payer.lamports - deposit;
    ctx.escrow_vault.lamports = deposit;

    ctx.rental_session.start_time = now;
    ctx.rental_session.is_active = true;
    ctx.rental_session.amount_paid = amount;
    ctx.rental_session.user = ctx.payer.key;
    ctx.rental_session.id = id.clone();
    ctx.rental_session.duration_seconds = 0;
    ctx.rental_session.end_time = 0;
    ctx.rental_session.bump = rental_bump;

    ctx.escrow_session.amount = amount;
    ctx.escrow_session.start_time = now;
    ctx.escrow_session.is_active = true;
    ctx.escrow_session.user = ctx.payer.key;
    ctx.escrow_session.id = id;
    ctx.escrow_session.bump = escrow_bump;
    Ok(custody_bump)
}

/// Starts a lease backed by an escrow: derives the custody address and the
/// addresses of the two records, and goes on as
/// `start_rental_with_escrow_with` does.
pub fn start_rental_with_escrow(
    ctx: &mut StartRentalWithEscrow,
    amount: u64,
    id: String,
    now: i64,
    rent_minimum: u64,
    config: &ProgramConfig,
) -> (r: Result<u8, Errors>)
    ensures
        failure(r) == start_rental_with_escrow_failure(
            *old(ctx),
            amount,
            rent_minimum,
            program_address(
                escrow_vault_seeds(old(ctx).payer.key@, old(ctx).admin@, id@),
                config.program_id@,
            ),
            program_address(rental_session_seeds(old(ctx).payer.key@, id@), config.program_id@),
            program_address(escrow_session_seeds(old(ctx).payer.key@, id@), config.program_id@),
        ),
        r is Ok ==> {
            &&& r.unwrap() == program_address(
                escrow_vault_seeds(old(ctx).payer.key@, old(ctx).admin@, id@),
                config.program_id@,
            ).unwrap().1
            &&& final(ctx).rental_session@ == escrow_backed(
                old(ctx).payer.key@,
                id@,
                amount,
                now,
                program_address(
                    rental_session_seeds(old(ctx).payer.key@, id@),
                    config.program_id@,
                ).unwrap().1,
            )
            &&& final(ctx).escrow_session@ == escrow_opened(
                old(ctx).payer.key@,
                id@,
                amount,
                now,
                program_address(
                    escrow_session_seeds(old(ctx).payer.key@, id@),
                    config.program_id@,
                ).unwrap().1,
            )
            &&& final(ctx).rental_session@.wf()
            &&& final(ctx).escrow_session@.wf()
            &&& final(ctx).payer.lamports == old(ctx).payer.lamports - (rent_minimum + amount)
            &&& final(ctx).escrow_vault.lamports == rent_minimum + amount
            &&& final(ctx).escrow_vault.lamports >= final(ctx).escrow_session@.amount
        },
        encode_utf8(id@).len() > MAX_SEED_LEN ==> r is Err,
        r is Err ==> *final(ctx) == *old(ctx),
        final(ctx).payer.key == old(ctx).payer.key,
        final(ctx).admin == old(ctx).admin,
        final(ctx).escrow_vault.key == old(ctx).escrow_vault.key,
        final(ctx).payer.lamports + final(ctx).escrow_vault.lamports
            == old(ctx).payer.lamports + old(ctx).escrow_vault.lamports,
{
    let found = EscrowAddresses {
        custody: escrow_vault_address(&ctx.payer.key, &ctx.admin, &id, &config.program_id),
        rental: rental_session_address(&ctx.payer.key, &id, &config.program_id),
        escrow: escrow_session_address(&ctx.payer.key, &id, &config.program_id),
    };
    start_rental_with_escrow_with(ctx, amount, id, now, rent_minimum, found)
}

} // verus!

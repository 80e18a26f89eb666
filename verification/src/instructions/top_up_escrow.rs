//! Adding to the deposit of a running lease.

use vstd::prelude::*;
use vstd::utf8::encode_utf8;
use crate::address::{
    derived, escrow_vault_address, escrow_vault_seeds, is_derived_address, program_address,
    MAX_SEED_LEN,
};
use crate::errors::{failure, Errors};
use crate::funds::{transfer_failure, Wallet};
use crate::identity::{Identity, ProgramConfig};
use crate::state::{EscrowSession, EscrowSessionView, RentalSession, RentalSessionView};

verus! {

/// What a further deposit is handed.
#[derive(Clone, Debug)]
pub struct TopUpEscrow {
    /// The renter, who signed the request, and its balance.
    pub user: Wallet,
    /// The administrative authority under which the escrow is held.
    pub admin: Identity,
    /// The lease's record.
    pub rental_session: RentalSession,
    /// The escrow's record.
    pub escrow_session: EscrowSession,
    /// The custody address that is said to hold the deposits, and its balance.
    pub escrow_vault: Wallet,
}

/// Why a further deposit fails, if it does, where `custody` is what the
/// renter, the authority and the id derive. The checks are made in this
/// order, and the first that fails gives the reason. A sum that a record
/// cannot hold is refused, never wrapped.
pub open spec fn top_up_escrow_failure(
    ctx: TopUpEscrow,
    id: Seq<char>,
    amount: u64,
    custody: Option<(Seq<u8>, u8)>,
) -> Option<Errors> {
    if !ctx.escrow_session.is_active {
        Some(Errors::EscrowNotActive)
    } else if ctx.escrow_session.user@ != ctx.user.key@ {
        Some(Errors::Unauthorized)
    } else if ctx.escrow_session.id@ != id {
        Some(Errors::EscrowNotFound)
    } else if !ctx.rental_session.is_active {
        Some(Errors::NotActive)
    } else if amount == 0 {
        Some(Errors::InvalidAmount)
    } else if !is_derived_address(custody, ctx.escrow_vault.key@) {
        Some(Errors::InvalidEscrowAccount)
    } else if transfer_failure(ctx.user.lamports, ctx.escrow_vault.lamports, amount) is Some {
        transfer_failure(ctx.user.lamports, ctx.escrow_vault.lamports, amount)
    } else if ctx.escrow_session.amount + amount > u64::MAX {
        Some(Errors::ArithmeticOverflow)
    } else if ctx.rental_session.amount_paid + amount > u64::MAX {
        Some(Errors::ArithmeticOverflow)
    } else {
        None
    }
}

/// Adds `amount` to the deposit of a running lease, given what the renter,
/// the authority and the id derive: `amount` moves from the renter to the
/// custody address, and the escrow's amount and what the lease was paid
/// grow by it. Neither ever falls here. A refused request moves nothing
/// and leaves both records as they were.
pub fn top_up_escrow_with(
    ctx: &mut TopUpEscrow,
    id: &String,
    amount: u64,
    custody: Option<(Identity, u8)>,
) -> (r: Result<(), Errors>)
    ensures
        failure(r) == top_up_escrow_failure(*old(ctx), id@, amount, derived(custody)),
        r is Ok ==> {
            &&& final(ctx).escrow_session@ == (EscrowSessionView {
                amount: (old(ctx).escrow_session.amount + amount) as u64,
                ..old(ctx).escrow_session@
            })
            &&& final(ctx).rental_session@ == (RentalSessionView {
                amount_paid: (old(ctx).rental_session.amount_paid + amount) as u64,
                ..old(ctx).rental_session@
            })
            &&& final(ctx).escrow_session@.amount == old(ctx).escrow_session@.amount + amount
            &&& final(ctx).rental_session@.amount_paid == old(ctx).rental_session@.amount_paid
                + amount
            &&& final(ctx).user.lamports == old(ctx).user.lamports - amount
            &&& final(ctx).escrow_vault.lamports == old(ctx).escrow_vault.lamports + amount
        },
        r is Err ==> *final(ctx) == *old(ctx),
        old(ctx).escrow_session@.amount + amount > u64::MAX
            || old(ctx).rental_session@.amount_paid + amount > u64::MAX ==> r is Err,
        final(ctx).escrow_session@.amount >= old(ctx).escrow_session@.amount,
        final(ctx).rental_session@.amount_paid >= old(ctx).rental_session@.amount_paid,
        final(ctx).user.key == old(ctx).user.key,
        final(ctx).admin == old(ctx).admin,
        final(ctx).escrow_vault.key == old(ctx).escrow_vault.key,
        final(ctx).user.lamports + final(ctx).escrow_vault.lamports
            == old(ctx).user.lamports + old(ctx).escrow_vault.lamports,
        old(ctx).escrow_vault.lamports >= old(ctx).escrow_session@.amount
            ==> final(ctx).escrow_vault.lamports >= final(ctx).escrow_session@.amount,
        old(ctx).rental_session@.wf() ==> final(ctx).rental_session@.wf(),
        old(ctx).escrow_session@.wf() ==> final(ctx).escrow_session@.wf(),
{
    if !ctx.escrow_session.is_active {
        return Err(Errors::EscrowNotActive);
    }
    if !ctx.escrow_session.user.same(&ctx.user.key) {
        return Err(Errors::Unauthorized);
    }
    if ctx.escrow_session.id != *id {
        return Err(Errors::EscrowNotFound);
    }
    if !ctx.rental_session.is_active {
        return Err(Errors::NotActive);
    }
    if amount == 0 {
        return Err(Errors::InvalidAmount);
    }
    match custody {
        Some((key, _)) => {
            if !key.same(&ctx.escrow_vault.key) {
                return Err(Errors::InvalidEscrowAccount);
            }
        },
        None => {
            return Err(Errors::InvalidEscrowAccount);
        },
    }
    if ctx.user.lamports < amount {
        return Err(Errors::InsufficientFunds);
    }
    if amount > u64::MAX - ctx.escrow_vault.lamports {
        return Err(Errors::ArithmeticOverflow);
    }
    let escrowed: u64 = match ctx.escrow_session.amount.checked_add(amount) {
        Some(escrowed) => escrowed,
        None => {
            return Err(Errors::ArithmeticOverflow);
        },
    };
    let paid: u64 = match ctx.rental_session.amount_paid.checked_add(amount) {
        Some(paid) => paid,
        None => {
            return Err(Errors::ArithmeticOverflow);
        },
    };
    ctx.user.lamports = ctx.user.lamports - amount;
    ctx.escrow_vault.lamports = ctx.escrow_vault.lamports + amount;
    ctx.escrow_session.amount = escrowed;
    ctx.rental_session.amount_paid = paid;
    Ok(())
}

/// Adds `amount` to the deposit of the running lease `id`: derives the
/// custody address and goes on as `top_up_escrow_with` does.
pub fn top_up_escrow(
    ctx: &mut TopUpEscrow,
    id: &String,
    amount: u64,
    config: &ProgramConfig,
) -> (r: Result<(), Errors>)
    ensures
        failure(r) == top_up_escrow_failure(
            *old(ctx),
            id@,
            amount,
            program_address(
                escrow_vault_seeds(old(ctx).user.key@, old(ctx).admin@, id@),
                config.program_id@,
            ),
        ),
        r is Ok ==> {
            &&& final(ctx).escrow_session@ == (EscrowSessionView {
                amount: (old(ctx).escrow_session.amount + amount) as u64,
                ..old(ctx).escrow_session@
            })
            &&& final(ctx).rental_session@ == (RentalSessionView {
                amount_paid: (old(ctx).rental_session.amount_paid + amount) as u64,
                ..old(ctx).rental_session@
            })
            &&& final(ctx).escrow_session@.amount == old(ctx).escrow_session@.amount + amount
            &&& final(ctx).rental_session@.amount_paid == old(ctx).rental_session@.amount_paid
                + amount
            &&& final(ctx).user.lamports == old(ctx).user.lamports - amount
            &&& final(ctx).escrow_vault.lamports == old(ctx).escrow_vault.lamports + amount
        },
        encode_utf8(id@).len() > MAX_SEED_LEN ==> r is Err,
        r is Err ==> *final(ctx) == *old(ctx),
        old(ctx).escrow_session@.amount + amount > u64::MAX
            || old(ctx).rental_session@.amount_paid + amount > u64::MAX ==> r is Err,
        final(ctx).escrow_session@.amount >= old(ctx).escrow_session@.amount,
        final(ctx).rental_session@.amount_paid >= old(ctx).rental_session@.amount_paid,
        final(ctx).user.key == old(ctx).user.key,
        final(ctx).admin == old(ctx).admin,
        final(ctx).escrow_vault.key == old(ctx).escrow_vault.key,
        final(ctx).user.lamports + final(ctx).escrow_vault.lamports
            == old(ctx).user.lamports + old(ctx).escrow_vault.lamports,
        old(ctx).escrow_vault.lamports >= old(ctx).escrow_session@.amount
            ==> final(ctx).escrow_vault.lamports >= final(ctx).escrow_session@.amount,
        old(ctx).rental_session@.wf() ==> final(ctx).rental_session@.wf(),
        old(ctx).escrow_session@.wf() ==> final(ctx).escrow_session@.wf(),
{
    let custody = escrow_vault_address(&ctx.user.key, &ctx.admin, id, &config.program_id);
    top_up_escrow_with(ctx, id, amount, custody)
}

} // verus!

//! Settling a lease that is backed by an escrow.

use vstd::prelude::*;
use vstd::utf8::encode_utf8;
use crate::address::{
    derived, escrow_vault_address, escrow_vault_seeds, is_derived_address, program_address,
    MAX_SEED_LEN,
};
use crate::errors::{failure, Errors};
use crate::funds::{Settlement, Wallet};
use crate::identity::{Identity, ProgramConfig};
use crate::state::{EscrowSession, EscrowSessionView, RentalSession, VaultAccount};

verus! {

/// What a settlement is handed.
#[derive(Clone, Debug)]
pub struct FinalizeRentalEscrow {
    /// The renter, who signed the request, and its balance.
    pub user: Wallet,
    /// The identity that is said to own the vault.
    pub admin: Identity,
    /// The lease's record.
    pub rental_session: RentalSession,
    /// The escrow's record.
    pub escrow_session: EscrowSession,
    /// The custody address that is said to hold the deposits, and its balance.
    pub escrow_vault: Wallet,
    /// The vault's record.
    pub vault_account: VaultAccount,
    /// The vault's balance.
    pub vault_lamports: u64,
}

/// Why a settlement fails, if it does, where `custody` is what the renter,
/// the authority and the id derive. The checks are made in this order, and
/// the first that fails gives the reason.
pub open spec fn finalize_rental_escrow_failure(
    ctx: FinalizeRentalEscrow,
    id: Seq<char>,
    amount: u64,
    custody: Option<(Seq<u8>, u8)>,
) -> Option<Errors> {
    if ctx.vault_account.owner@ != ctx.admin@ {
        Some(Errors::Unauthorized)
    } else if !ctx.rental_session.is_active {
        Some(Errors::NotActive)
    } else if !ctx.escrow_session.is_active {
        Some(Errors::EscrowNotActive)
    } else if ctx.escrow_session.user@ != ctx.user.key@ {
        Some(Errors::EscrowNotFound)
    } else if ctx.escrow_session.id@ != id {
        Some(Errors::EscrowNotFound)
    } else if ctx.escrow_vault.lamports < amount {
        Some(Errors::InsufficientFunds)
    } else if !is_derived_address(custody, ctx.escrow_vault.key@) {
        Some(Errors::InvalidEscrowAccount)
    } else if ctx.user.lamports + amount > u64::MAX {
        Some(Errors::ArithmeticOverflow)
    } else if ctx.vault_lamports + (ctx.escrow_vault.lamports - amount) > u64::MAX {
        Some(Errors::ArithmeticOverflow)
    } else {
        None
    }
}

/// Settles the running lease `id` at `now`, given what the renter, the
/// authority and the id derive. The renter is paid `amount` out of the
/// custody balance, and whatever remains there is swept into the vault, so
/// that what is paid and what is swept make up exactly what the custody
/// address held. The escrow's record is reset and the lease is closed. A
/// refused request moves nothing and leaves both records as they were.
pub fn finalize_rental_escrow_with(
    ctx: &mut FinalizeRentalEscrow,
    id: &String,
    amount: u64,
    now: i64,
    custody: Option<(Identity, u8)>,
) -> (r: Result<Settlement, Errors>)
    ensures
        failure(r) == finalize_rental_escrow_failure(*old(ctx), id@, amount, derived(custody)),
        r is Ok ==> {
            &&& r.unwrap().paid_to_user == amount
            &&& r.unwrap().swept_to_vault == old(ctx).escrow_vault.lamports - amount
            &&& r.unwrap().paid_to_user + r.unwrap().swept_to_vault
                == old(ctx).escrow_vault.lamports
            &&& final(ctx).user.lamports == old(ctx).user.lamports + r.unwrap().paid_to_user
            &&& final(ctx).vault_lamports == old(ctx).vault_lamports + r.unwrap().swept_to_vault
            &&& final(ctx).escrow_vault.lamports == 0
            &&& final(ctx).escrow_session@ == EscrowSessionView::reset()
            &&& final(ctx).rental_session@ == old(ctx).rental_session@.settled(now)
        },
        r is Err ==> *final(ctx) == *old(ctx),
        final(ctx).user.key == old(ctx).user.key,
        final(ctx).admin == old(ctx).admin,
        final(ctx).escrow_vault.key == old(ctx).escrow_vault.key,
        final(ctx).vault_account == old(ctx).vault_account,
        final(ctx).user.lamports + final(ctx).escrow_vault.lamports + final(ctx).vault_lamports
            == old(ctx).user.lamports + old(ctx).escrow_vault.lamports + old(ctx).vault_lamports,
        old(ctx).escrow_vault.lamports >= old(ctx).escrow_session@.amount
            ==> final(ctx).escrow_vault.lamports >= final(ctx).escrow_session@.amount,
        old(ctx).rental_session@.wf() ==> final(ctx).rental_session@.wf(),
        old(ctx).escrow_session@.wf() ==> final(ctx).escrow_session@.wf(),
{
    if !ctx.vault_account.owner.same(&ctx.admin) {
        return Err(Errors::Unauthorized);
    }
    if !ctx.rental_session.is_active {
        return Err(Errors::NotActive);
    }
    if !ctx.escrow_session.is_active {
        return Err(Errors::EscrowNotActive);
    }
    if !ctx.escrow_session.user.same(&ctx.user.key) {
        return Err(Errors::EscrowNotFound);
    }
    if ctx.escrow_session.id != *id {
        return Err(Errors::EscrowNotFound);
    }
    if ctx.escrow_vault.lamports < amount {
        return Err(Errors::InsufficientFunds);
    }
    match custody {
        Some((key, _)) => {
            if !key.same(&ctx.escrow_vault.key) {
                return Err(Errors::InvalidEscrowAccount);
            }
        },
        None => {
            return Err(Errors::InvalidEscrowAccount);
        },
    }
    let remainder: u64 = ctx.escrow_vault.lamports - amount;
    if amount > u64::MAX - ctx.user.lamports {
        return Err(Errors::ArithmeticOverflow);
    }
    if remainder > u64::MAX - ctx.vault_lamports {
        return Err(Errors::ArithmeticOverflow);
    }
    ctx.user.lamports = ctx.user.lamports + amount;
    ctx.vault_lamports = ctx.vault_lamports + remainder;
    ctx.escrow_vault.lamports = 0;

    ctx.escrow_session.start_time = 0;
    ctx.escrow_session.is_active = false;
    ctx.escrow_session.amount = 0;
    ctx.escrow_session.user = Identity::default();
    ctx.escrow_session.id = String::new();
    ctx.escrow_session.bump = 0;

    ctx.rental_session.is_active = false;
    ctx.rental_session.end_time = now;
    ctx.rental_session.amount_paid = 0;
    Ok(Settlement { paid_to_user: amount, swept_to_vault: remainder })
}

/// Settles the running lease `id` at `now`: derives the custody address and
/// goes on as `finalize_rental_escrow_with` does.
pub fn finalize_rental_escrow(
    ctx: &mut FinalizeRentalEscrow,
    id: &String,
    amount: u64,
    now: i64,
    config: &ProgramConfig,
) -> (r: Result<Settlement, Errors>)
    ensures
        failure(r) == finalize_rental_escrow_failure(
            *old(ctx),
            id@,
            amount,
            program_address(
                escrow_vault_seeds(old(ctx).user.key@, old(ctx).admin@, id@),
                config.program_id@,
            ),
        ),
        r is Ok ==> {
            &&& r.unwrap().paid_to_user == amount
            &&& r.unwrap().swept_to_vault == old(ctx).escrow_vault.lamports - amount
            &&& r.unwrap().paid_to_user + r.unwrap().swept_to_vault
                == old(ctx).escrow_vault.lamports
            &&& final(ctx).user.lamports == old(ctx).user.lamports + r.unwrap().paid_to_user
            &&& final(ctx).vault_lamports == old(ctx).vault_lamports + r.unwrap().swept_to_vault
            &&& final(ctx).escrow_vault.lamports == 0
            &&& final(ctx).escrow_session@ == EscrowSessionView::reset()
            &&& final(ctx).rental_session@ == old(ctx).rental_session@.settled(now)
        },
        encode_utf8(id@).len() > MAX_SEED_LEN ==> r is Err,
        r is Err ==> *final(ctx) == *old(ctx),
        final(ctx).user.key == old(ctx).user.key,
        final(ctx).admin == old(ctx).admin,
        final(ctx).escrow_vault.key == old(ctx).escrow_vault.key,
        final(ctx).vault_account == old(ctx).vault_account,
        final(ctx).user.lamports + final(ctx).escrow_vault.lamports + final(ctx).vault_lamports
            == old(ctx).user.lamports + old(ctx).escrow_vault.lamports + old(ctx).vault_lamports,
        old(ctx).escrow_vault.lamports >= old(ctx).escrow_session@.amount
            ==> final(ctx).escrow_vault.lamports >= final(ctx).escrow_session@.amount,
        old(ctx).rental_session@.wf() ==> final(ctx).rental_session@.wf(),
        old(ctx).escrow_session@.wf() ==> final(ctx).escrow_session@.wf(),
{
    let custody = escrow_vault_address(&ctx.user.key, &ctx.admin, id, &config.program_id);
    finalize_rental_escrow_with(ctx, id, amount, now, custody)
}

} // verus!

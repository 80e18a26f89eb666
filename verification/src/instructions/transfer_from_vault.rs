//! Taking money back out of a running lease that was paid up front.

use vstd::prelude::*;
use crate::errors::{failure, Errors};
use crate::funds::{transfer_failure, Wallet};
use crate::identity::Identity;
use crate::instructions::disburse::disburse;
use crate::state::{RentalSession, VaultAccount};

verus! {

/// What a withdrawal from a running lease is handed.
#[derive(Clone, Debug)]
pub struct TransferFromVault {
    /// The renter, who signed the request, and its balance.
    pub payer: Wallet,
    /// The vault's record.
    pub vault_account: VaultAccount,
    /// The vault's balance.
    pub vault_lamports: u64,
    /// The identity that is said to own the vault.
    pub admin: Identity,
    /// The lease's record.
    pub rental_session: RentalSession,
}

/// Why a withdrawal from a running lease at `now` fails, if it does. The
/// checks are made in this order, and the first that fails gives the reason.
pub open spec fn transfer_from_vault_failure(
    ctx: TransferFromVault,
    amount: u64,
    now: i64,
) -> Option<Errors> {
    if ctx.vault_account.owner@ != ctx.admin@ {
        Some(Errors::Unauthorized)
    } else if amount == 0 {
        Some(Errors::InvalidAmount)
    } else if !ctx.rental_session.is_active {
        Some(Errors::Unauthorized)
    } else if ctx.rental_session.amount_paid < amount {
        Some(Errors::InsufficientFunds)
    } else if ctx.rental_session.user@ != ctx.payer.key@ {
        Some(Errors::Unauthorized)
    } else if now >= ctx.rental_session.end_time {
        Some(Errors::Unauthorized)
    } else {
        transfer_failure(ctx.vault_lamports, ctx.payer.lamports, amount)
    }
}

/// Pays the renter `amount` out of the vault while the lease runs, and
/// closes the lease whatever the amount: one withdrawal, of all or of a part
/// of what was paid, ends it and sets what was paid to zero. A refused
/// request moves nothing and leaves the record as it was.
pub fn transfer_from_vault(
    ctx: &mut TransferFromVault,
    amount: u64,
    now: i64,
) -> (r: Result<(), Errors>)
    ensures
        failure(r) == transfer_from_vault_failure(*old(ctx), amount, now),
        r is Ok ==> {
            &&& final(ctx).rental_session@ == old(ctx).rental_session@.closed()
            &&& final(ctx).payer.lamports == old(ctx).payer.lamports + amount
            &&& final(ctx).vault_lamports == old(ctx).vault_lamports - amount
        },
        r is Err ==> *final(ctx) == *old(ctx),
        final(ctx).payer.key == old(ctx).payer.key,
        final(ctx).admin == old(ctx).admin,
        final(ctx).vault_account == old(ctx).vault_account,
        final(ctx).payer.lamports + final(ctx).vault_lamports
            == old(ctx).payer.lamports + old(ctx).vault_lamports,
        old(ctx).rental_session@.wf() ==> final(ctx).rental_session@.wf(),
{
    if !ctx.vault_account.owner.same(&ctx.admin) {
        return Err(Errors::Unauthorized);
    }
    if amount == 0 {
        return Err(Errors::InvalidAmount);
    }
    if !ctx.rental_session.is_active {
        return Err(Errors::Unauthorized);
    }
    if ctx.rental_session.amount_paid < amount {
        return Err(Errors::InsufficientFunds);
    }
    if !ctx.rental_session.user.same(&ctx.payer.key) {
        return Err(Errors::Unauthorized);
    }
    if now >= ctx.rental_session.end_time {
        return Err(Errors::Unauthorized);
    }
    let paid = disburse(
        &ctx.vault_account,
        &ctx.admin,
        &mut ctx.vault_lamports,
        &mut ctx.payer.lamports,
        amount,
    );
    if let Err(e) = paid {
        return Err(e);
    }
    ctx.rental_session.is_active = false;
    ctx.rental_session.amount_paid = 0;
    Ok(())
}

} // verus!

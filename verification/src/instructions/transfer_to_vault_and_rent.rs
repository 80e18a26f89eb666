//! Starting a lease that is paid up front into the vault.

use vstd::prelude::*;
use vstd::utf8::encode_utf8;
use crate::address::{
    derived, program_address, rental_session_address, rental_session_seeds, MAX_SEED_LEN,
};
use crate::errors::{failure, Errors};
use crate::funds::{transfer_failure, Wallet};
use crate::identity::{Identity, ProgramConfig};
use crate::state::{RentalSession, RentalSessionView, VaultAccount};

verus! {

/// What the start of a lease paid up front is handed.
#[derive(Clone, Debug)]
pub struct TransferToVaultAndRent {
    /// The renter, who signed the request, and its balance.
    pub payer: Wallet,
    /// The vault's record.
    pub vault_account: VaultAccount,
    /// The vault's balance.
    pub vault_lamports: u64,
    /// The identity that is said to own the vault.
    pub admin: Identity,
    /// The lease's record.
    pub rental_session: RentalSession,
}

/// Why the start of a lease paid up front fails, if it does, where `found`
/// is what the renter and the id derive. The checks are made in this order,
/// and the first that fails gives the reason.
pub open spec fn transfer_to_vault_and_rent_failure(
    ctx: TransferToVaultAndRent,
    amount: u64,
    duration_seconds: i64,
    now: i64,
    found: Option<(Seq<u8>, u8)>,
) -> Option<Errors> {
    if ctx.vault_account.owner@ != ctx.admin@ {
        Some(Errors::Unauthorized)
    } else if amount == 0 {
        Some(Errors::InvalidAmount)
    } else if duration_seconds <= 0 {
        Some(Errors::InvalidDuration)
    } else if transfer_failure(ctx.payer.lamports, ctx.vault_lamports, amount) is Some {
        transfer_failure(ctx.payer.lamports, ctx.vault_lamports, amount)
    } else if now + duration_seconds > i64::MAX {
        Some(Errors::ArithmeticOverflow)
    } else if found is None {
        Some(Errors::Unauthorized)
    } else {
        None
    }
}

/// The record of a lease of `duration_seconds` that `user` has just paid
/// `amount` for at `now`.
pub open spec fn leased(
    user: Seq<u8>,
    id: Seq<char>,
    amount: u64,
    duration_seconds: i64,
    now: i64,
    bump: u8,
) -> RentalSessionView
    recommends
        now + duration_seconds <= i64::MAX,
{
    RentalSessionView {
        user,
        id,
        amount_paid: amount,
        start_time: now,
        end_time: (now + duration_seconds) as i64,
        duration_seconds,
        is_active: true,
        bump,
    }
}

/// Starts a lease paid up front, given what the renter and the id derive:
/// `amount` moves from the renter into the vault, and the lease runs from
/// `now` for `duration_seconds`. An amount or a duration that is not
/// positive is refused; nothing moves then and the record stays as it was.
pub fn transfer_to_vault_and_rent_with(
    ctx: &mut TransferToVaultAndRent,
    amount: u64,
    duration_seconds: i64,
    id: String,
    now: i64,
    found: Option<(Identity, u8)>,
) -> (r: Result<(), Errors>)
    ensures
        failure(r) == transfer_to_vault_and_rent_failure(
            *old(ctx),
            amount,
            duration_seconds,
            now,
            derived(found),
        ),
        r is Ok ==> {
            &&& final(ctx).rental_session@ == leased(
                old(ctx).payer.key@,
                id@,
                amount,
                duration_seconds,
                now,
                found.unwrap().1,
            )
            &&& final(ctx).rental_session@.wf()
            &&& final(ctx).rental_session@.is_direct()
            &&& final(ctx).payer.lamports == old(ctx).payer.lamports - amount
            &&& final(ctx).vault_lamports == old(ctx).vault_lamports + amount
        },
        r is Err ==> *final(ctx) == *old(ctx),
        final(ctx).payer.key == old(ctx).payer.key,
        final(ctx).admin == old(ctx).admin,
        final(ctx).vault_account == old(ctx).vault_account,
        final(ctx).payer.lamports + final(ctx).vault_lamports
            == old(ctx).payer.lamports + old(ctx).vault_lamports,
{
    if !ctx.vault_account.owner.same(&ctx.admin) {
        return Err(Errors::Unauthorized);
    }
    if amount == 0 {
        return Err(Errors::InvalidAmount);
    }
    if duration_seconds <= 0 {
        return Err(Errors::InvalidDuration);
    }
    if ctx.payer.lamports < amount {
        return Err(Errors::InsufficientFunds);
    }
    if amount > u64::MAX - ctx.vault_lamports {
        return Err(Errors::ArithmeticOverflow);
    }
    let end_time: i64 = match now.checked_add(duration_seconds) {
        Some(end_time) => end_time,
        None => {
            return Err(Errors::ArithmeticOverflow);
        },
    };
    let bump: u8 = match found {
        Some((_, bump)) => bump,
        None => {
            return Err(Errors::Unauthorized);
        },
    };
    ctx.payer.lamports = ctx.payer.lamports - amount;
    ctx.vault_lamports = ctx.vault_lamports + amount;
    ctx.rental_session.user = ctx.payer.key;
    ctx.rental_session.amount_paid = amount;
    ctx.rental_session.start_time = now;
    ctx.rental_session.duration_seconds = duration_seconds;
    ctx.rental_session.is_active = true;
    ctx.rental_session.id = id;
    ctx.rental_session.end_time = end_time;
    ctx.rental_session.bump = bump;
    Ok(())
}

/// Starts a lease paid up front: derives the address of its record and goes
/// on as `transfer_to_vault_and_rent_with` does.
pub fn transfer_to_vault_and_rent(
    ctx: &mut TransferToVaultAndRent,
    amount: u64,
    duration_seconds: i64,
    id: String,
    now: i64,
    config: &ProgramConfig,
) -> (r: Result<(), Errors>)
    ensures
        failure(r) == transfer_to_vault_and_rent_failure(
            *old(ctx),
            amount,
            duration_seconds,
            now,
            program_address(rental_session_seeds(old(ctx).payer.key@, id@), config.program_id@),
        ),
        r is Ok ==> {
            &&& final(ctx).rental_session@ == leased(
                old(ctx).payer.key@,
                id@,
                amount,
                duration_seconds,
                now,
                program_address(
                    rental_session_seeds(old(ctx).payer.key@, id@),
                    config.program_id@,
                ).unwrap().1,
            )
            &&& final(ctx).rental_session@.wf()
            &&& final(ctx).rental_session@.is_direct()
            &&& final(ctx).payer.lamports == old(ctx).payer.lamports - amount
            &&& final(ctx).vault_lamports == old(ctx).vault_lamports + amount
        },
        encode_utf8(id@).len() > MAX_SEED_LEN ==> r is Err,
        r is Err ==> *final(ctx) == *old(ctx),
        final(ctx).payer.key == old(ctx).payer.key,
        final(ctx).admin == old(ctx).admin,
        final(ctx).vault_account == old(ctx).vault_account,
        final(ctx).payer.lamports + final(ctx).vault_lamports
            == old(ctx).payer.lamports + old(ctx).vault_lamports,
{
    let found = rental_session_address(&ctx.payer.key, &id, &config.program_id);
    transfer_to_vault_and_rent_with(ctx, amount, duration_seconds, id, now, found)
}

} // verus!

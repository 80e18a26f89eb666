//! Ending a lease backed by an escrow against the renter.

use vstd::prelude::*;
use vstd::utf8::encode_utf8;
use crate::address::{
    derived, escrow_vault_address, escrow_vault_seeds, is_derived_address, program_address,
    MAX_SEED_LEN,
};
use crate::errors::{failure, Errors};
use crate::funds::{Settlement, Wallet};
use crate::identity::{Identity, ProgramConfig};
use crate::state::{EscrowSession, EscrowSessionView, RentalSession, VaultAccount};

verus! {

/// What a forced termination is handed.
#[derive(Clone, Debug)]
pub struct ForceTerminateRental {
    /// The identity that signed the request.
    pub admin: Identity,
    /// The renter whose lease is ended.
    pub user: Identity,
    /// The lease's record.
    pub rental_session: RentalSession,
    /// The escrow's record.
    pub escrow_session: EscrowSession,
    /// The custody address that is said to hold the deposits, and its balance.
    pub escrow_vault: Wallet,
    /// The vault's record.
    pub vault_account: VaultAccount,
    /// The vault's balance.
    pub vault_lamports: u64,
}

/// Why a forced termination fails, if it does, where `custody` is what the
/// renter, the authority and the id derive. The checks are made in this
/// order, and the first that fails gives the reason.
pub open spec fn force_terminate_rental_failure(
    ctx: ForceTerminateRental,
    id: Seq<char>,
    admin: Seq<u8>,
    custody: Option<(Seq<u8>, u8)>,
) -> Option<Errors> {
    if ctx.admin@ != admin {
        Some(Errors::Unauthorized)
    } else if ctx.vault_account.owner@ != ctx.admin@ {
        Some(Errors::Unauthorized)
    } else if !ctx.rental_session.is_active {
        Some(Errors::NotActive)
    } else if !ctx.escrow_session.is_active {
        Some(Errors::EscrowNotActive)
    } else if ctx.rental_session.id@ != id {
        Some(Errors::Unauthorized)
    } else if ctx.escrow_session.id@ != id {
        Some(Errors::Unauthorized)
    } else if ctx.user@ != ctx.rental_session.user@ {
        Some(Errors::Unauthorized)
    } else if !is_derived_address(custody, ctx.escrow_vault.key@) {
        Some(Errors::InvalidEscrowAccount)
    } else if ctx.escrow_vault.lamports == 0 {
        Some(Errors::InsufficientFunds)
    } else if ctx.vault_lamports + ctx.escrow_vault.lamports > u64::MAX {
        Some(Errors::ArithmeticOverflow)
    } else {
        None
    }
}

/// Ends the running lease `id` at `now` on behalf of the administrative
/// authority, given what the renter, the authority and the id derive. The
/// whole custody balance is swept into the vault and the renter is paid
/// nothing. The escrow's record is reset and the lease is closed. A refused
/// request moves nothing and leaves both records as they were.
pub fn force_terminate_rental_with(
    ctx: &mut ForceTerminateRental,
    id: &String,
    now: i64,
    config: &ProgramConfig,
    custody: Option<(Identity, u8)>,
) -> (r: Result<Settlement, Errors>)
    ensures
        failure(r) == force_terminate_rental_failure(
            *old(ctx),
            id@,
            config.admin@,
            derived(custody),
        ),
        r is Ok ==> {
            &&& r.unwrap().paid_to_user == 0
            &&& r.unwrap().swept_to_vault == old(ctx).escrow_vault.lamports
            &&& r.unwrap().paid_to_user + r.unwrap().swept_to_vault
                == old(ctx).escrow_vault.lamports
            &&& final(ctx).vault_lamports == old(ctx).vault_lamports + r.unwrap().swept_to_vault
            &&& final(ctx).escrow_vault.lamports == 0
            &&& final(ctx).escrow_session@ == EscrowSessionView::reset()
            &&& final(ctx).rental_session@ == old(ctx).rental_session@.settled(now)
        },
        r is Err ==> *final(ctx) == *old(ctx),
        final(ctx).admin == old(ctx).admin,
        final(ctx).user == old(ctx).user,
        final(ctx).escrow_vault.key == old(ctx).escrow_vault.key,
        final(ctx).vault_account == old(ctx).vault_account,
        final(ctx).escrow_vault.lamports + final(ctx).vault_lamports
            == old(ctx).escrow_vault.lamports + old(ctx).vault_lamports,
        old(ctx).escrow_vault.lamports >= old(ctx).escrow_session@.amount
            ==> final(ctx).escrow_vault.lamports >= final(ctx).escrow_session@.amount,
        old(ctx).rental_session@.wf() ==> final(ctx).rental_session@.wf(),
        old(ctx).escrow_session@.wf() ==> final(ctx).escrow_session@.wf(),
{
    if !ctx.admin.same(&config.admin) {
        return Err(Errors::Unauthorized);
    }
    if !ctx.vault_account.owner.same(&ctx.admin) {
        return Err(Errors::Unauthorized);
    }
    if !ctx.rental_session.is_active {
        return Err(Errors::NotActive);
    }
    if !ctx.escrow_session.is_active {
        return Err(Errors::EscrowNotActive);
    }
    if ctx.rental_session.id != *id {
        return Err(Errors::Unauthorized);
    }
    if ctx.escrow_session.id != *id {
        return Err(Errors::Unauthorized);
    }
    if !ctx.user.same(&ctx.rental_session.user) {
        return Err(Errors::Unauthorized);
    }
    match custody {
        Some((key, _)) => {
            if !key.same(&ctx.escrow_vault.key) {
                return Err(Errors::InvalidEscrowAccount);
            }
        },
        None => {
            return Err(Errors::InvalidEscrowAccount);
        },
    }
    let balance: u64 = ctx.escrow_vault.lamports;
    if balance == 0 {
        return Err(Errors::InsufficientFunds);
    }
    if balance > u64::MAX - ctx.vault_lamports {
        return Err(Errors::ArithmeticOverflow);
    }
    ctx.vault_lamports = ctx.vault_lamports + balance;
    ctx.escrow_vault.lamports = 0;

    ctx.rental_session.is_active = false;
    ctx.rental_session.end_time = now;
    ctx.rental_session.amount_paid = 0;

    ctx.escrow_session.start_time = 0;
    ctx.escrow_session.is_active = false;
    ctx.escrow_session.user = Identity::default();
    ctx.escrow_session.id = String::new();
    ctx.escrow_session.bump = 0;
    ctx.escrow_session.amount = 0;
    Ok(Settlement { paid_to_user: 0, swept_to_vault: balance })
}

/// Ends the running lease `id` at `now` on behalf of the administrative
/// authority: derives the custody address and goes on as
/// `force_terminate_rental_with` does.
pub fn force_terminate_rental(
    ctx: &mut ForceTerminateRental,
    id: &String,
    now: i64,
    config: &ProgramConfig,
) -> (r: Result<Settlement, Errors>)
    ensures
        failure(r) == force_terminate_rental_failure(
            *old(ctx),
            id@,
            config.admin@,
            program_address(
                escrow_vault_seeds(old(ctx).user@, old(ctx).admin@, id@),
                config.program_id@,
            ),
        ),
        r is Ok ==> {
            &&& r.unwrap().paid_to_user == 0
            &&& r.unwrap().swept_to_vault == old(ctx).escrow_vault.lamports
            &&& r.unwrap().paid_to_user + r.unwrap().swept_to_vault
                == old(ctx).escrow_vault.lamports
            &&& final(ctx).vault_lamports == old(ctx).vault_lamports + r.unwrap().swept_to_vault
            &&& final(ctx).escrow_vault.lamports == 0
            &&& final(ctx).escrow_session@ == EscrowSessionView::reset()
            &&& final(ctx).rental_session@ == old(ctx).rental_session@.settled(now)
        },
        encode_utf8(id@).len() > MAX_SEED_LEN ==> r is Err,
        r is Err ==> *final(ctx) == *old(ctx),
        final(ctx).admin == old(ctx).admin,
        final(ctx).user == old(ctx).user,
        final(ctx).escrow_vault.key == old(ctx).escrow_vault.key,
        final(ctx).vault_account == old(ctx).vault_account,
        final(ctx).escrow_vault.lamports + final(ctx).vault_lamports
            == old(ctx).escrow_vault.lamports + old(ctx).vault_lamports,
        old(ctx).escrow_vault.lamports >= old(ctx).escrow_session@.amount
            ==> final(ctx).escrow_vault.lamports >= final(ctx).escrow_session@.amount,
        old(ctx).rental_session@.wf() ==> final(ctx).rental_session@.wf(),
        old(ctx).escrow_session@.wf() ==> final(ctx).escrow_session@.wf(),
{
    let custody = escrow_vault_address(&ctx.user, &ctx.admin, id, &config.program_id);
    force_terminate_rental_with(ctx, id, now, config, custody)
}

} // verus!

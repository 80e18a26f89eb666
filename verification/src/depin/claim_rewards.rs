//! Paying out what a machine has earned.

use vstd::prelude::*;
use vstd::utf8::encode_utf8;
use crate::address::{
    derived, host_machine_address, host_machine_seeds, is_derived_address, program_address,
    MAX_SEED_LEN,
};
use crate::errors::{failure, DepinErrors, Errors, ProgramError};
use crate::funds::Wallet;
use crate::identity::{Identity, ProgramConfig};
use crate::instructions::disburse::disburse;
use crate::state::{HostMachineRegistration, HostMachineRegistrationView, VaultAccount};

verus! {

/// What a claim is handed.
#[derive(Clone, Debug)]
pub struct ClaimRewards {
    /// The host, who signed the request, and its balance.
    pub host: Wallet,
    /// The address at which the record is held.
    pub host_machine_key: Identity,
    /// The machine's record.
    pub host_machine: HostMachineRegistration,
    /// The identity that is said to own the vault.
    pub admin: Identity,
    /// The vault's record.
    pub vault_account: VaultAccount,
    /// The vault's balance.
    pub vault_lamports: u64,
}

/// The balances and identities that a claim reads beside the record.
pub struct ClaimFunds {
    pub host: Seq<u8>,
    pub host_lamports: u64,
    pub admin: Seq<u8>,
    pub vault_owner: Seq<u8>,
    pub vault_lamports: u64,
}

impl ClaimRewards {
    /// The balances and identities that this claim reads beside the record.
    pub open spec fn funds(self) -> ClaimFunds {
        ClaimFunds {
            host: self.host.key@,
            host_lamports: self.host.lamports,
            admin: self.admin@,
            vault_owner: self.vault_account.owner@,
            vault_lamports: self.vault_lamports,
        }
    }
}

/// Why a claim fails, if it does, where `key` is the address at which the
/// record is held and `found` is what the host and the id derive. The checks
/// are made in this order, and the first that fails gives the reason.
pub open spec fn claim_rewards_failure(
    machine: HostMachineRegistrationView,
    funds: ClaimFunds,
    id: Seq<char>,
    key: Seq<u8>,
    found: Option<(Seq<u8>, u8)>,
) -> Option<ProgramError> {
    if !is_derived_address(found, key) {
        Some(ProgramError::Depin(DepinErrors::KeyDoesNotMatchPDA))
    } else if funds.vault_owner != funds.admin {
        Some(ProgramError::Rental(Errors::Unauthorized))
    } else if machine.penalized {
        Some(ProgramError::Depin(DepinErrors::HostMachinePenalized))
    } else if machine.is_active {
        Some(ProgramError::Depin(DepinErrors::HostMachineShouldNotBeActiveForClaiming))
    } else if machine.id != id {
        Some(ProgramError::Depin(DepinErrors::InvalidHostMachineRegistrationId))
    } else if machine.host_key != funds.host {
        Some(ProgramError::Depin(DepinErrors::HostKeyMismatch))
    } else if funds.vault_lamports < machine.earned {
        Some(ProgramError::Rental(Errors::InsufficientFunds))
    } else if funds.host_lamports + machine.earned > u64::MAX {
        Some(ProgramError::Rental(Errors::ArithmeticOverflow))
    } else {
        None
    }
}

/// Pays the host, out of the vault, exactly what the machine had earned when
/// the claim was made, and sets what it earned to zero, given what the host
/// and the id derive. A machine that is penalized or running, another id or
/// host, or a vault that holds less than was earned is refused, and nothing
/// moves.
pub fn claim_rewards_with(
    ctx: &mut ClaimRewards,
    id: &String,
    found: Option<(Identity, u8)>,
) -> (r: Result<(), ProgramError>)
    ensures
        failure(r) == claim_rewards_failure(
            old(ctx).host_machine@,
            old(ctx).funds(),
            id@,
            old(ctx).host_machine_key@,
            derived(found),
        ),
        r is Ok ==> {
            &&& final(ctx).host_machine@ == old(ctx).host_machine@.claimed()
            &&& final(ctx).host.lamports == old(ctx).host.lamports + old(ctx).host_machine@.earned
            &&& final(ctx).vault_lamports == old(ctx).vault_lamports - old(ctx).host_machine@.earned
        },
        r is Err ==> {
            &&& final(ctx).host_machine@ == old(ctx).host_machine@
            &&& final(ctx).host.lamports == old(ctx).host.lamports
            &&& final(ctx).vault_lamports == old(ctx).vault_lamports
        },
        final(ctx).host.key == old(ctx).host.key,
        final(ctx).host_machine_key == old(ctx).host_machine_key,
        final(ctx).admin == old(ctx).admin,
        final(ctx).vault_account == old(ctx).vault_account,
        final(ctx).host.lamports + final(ctx).vault_lamports
            == old(ctx).host.lamports + old(ctx).vault_lamports,
        old(ctx).vault_lamports < old(ctx).host_machine@.earned ==> r is Err,
        final(ctx).host_machine@.penalized == old(ctx).host_machine@.penalized,
        old(ctx).host_machine@.wf() ==> final(ctx).host_machine@.wf(),
{
    match found {
        Some((key, _)) => {
            if !key.same(&ctx.host_machine_key) {
                return Err(ProgramError::Depin(DepinErrors::KeyDoesNotMatchPDA));
            }
        },
        None => {
            return Err(ProgramError::Depin(DepinErrors::KeyDoesNotMatchPDA));
        },
    }
    if !ctx.vault_account.owner.same(&ctx.admin) {
        return Err(ProgramError::Rental(Errors::Unauthorized));
    }
    if ctx.host_machine.penalized {
        return Err(ProgramError::Depin(DepinErrors::HostMachinePenalized));
    }
    if ctx.host_machine.is_active {
        return Err(ProgramError::Depin(DepinErrors::HostMachineShouldNotBeActiveForClaiming));
    }
    if ctx.host_machine.id != *id {
        return Err(ProgramError::Depin(DepinErrors::InvalidHostMachineRegistrationId));
    }
    if !ctx.host_machine.host_key.same(&ctx.host.key) {
        return Err(ProgramError::Depin(DepinErrors::HostKeyMismatch));
    }
    let earned: u64 = ctx.host_machine.earned;
    let paid = disburse(
        &ctx.vault_account,
        &ctx.admin,
        &mut ctx.vault_lamports,
        &mut ctx.host.lamports,
        earned,
    );
    if let Err(e) = paid {
        return Err(ProgramError::Rental(e));
    }
    ctx.host_machine.earned = 0;
    Ok(())
}

/// Pays the host what the machine `id` has earned: derives the address of
/// its record and goes on as `claim_rewards_with` does.
pub fn claim_rewards(
    ctx: &mut ClaimRewards,
    id: &String,
    config: &ProgramConfig,
) -> (r: Result<(), ProgramError>)
    ensures
        failure(r) == claim_rewards_failure(
            old(ctx).host_machine@,
            old(ctx).funds(),
            id@,
            old(ctx).host_machine_key@,
            program_address(host_machine_seeds(old(ctx).host.key@, id@), config.program_id@),
        ),
        r is Ok ==> {
            &&& final(ctx).host_machine@ == old(ctx).host_machine@.claimed()
            &&& final(ctx).host.lamports == old(ctx).host.lamports + old(ctx).host_machine@.earned
            &&& final(ctx).vault_lamports == old(ctx).vault_lamports - old(ctx).host_machine@.earned
        },
        r is Err ==> {
            &&& final(ctx).host_machine@ == old(ctx).host_machine@
            &&& final(ctx).host.lamports == old(ctx).host.lamports
            &&& final(ctx).vault_lamports == old(ctx).vault_lamports
        },
        final(ctx).host.key == old(ctx).host.key,
        final(ctx).host_machine_key == old(ctx).host_machine_key,
        final(ctx).admin == old(ctx).admin,
        final(ctx).vault_account == old(ctx).vault_account,
        final(ctx).host.lamports + final(ctx).vault_lamports
            == old(ctx).host.lamports + old(ctx).vault_lamports,
        old(ctx).vault_lamports < old(ctx).host_machine@.earned ==> r is Err,
        encode_utf8(id@).len() > MAX_SEED_LEN ==> r is Err,
        final(ctx).host_machine@.penalized == old(ctx).host_machine@.penalized,
        old(ctx).host_machine@.wf() ==> final(ctx).host_machine@.wf(),
{
    let found = host_machine_address(&ctx.host.key, id, &config.program_id);
    claim_rewards_with(ctx, id, found)
}

} // verus!

//! Taking out of the vault.

use vstd::prelude::*;
use crate::errors::{failure, Errors};
use crate::funds::{transfer_failure, Wallet};
use crate::identity::ProgramConfig;
use crate::state::VaultAccount;

verus! {

/// What a withdrawal from the vault is handed.
#[derive(Clone, Copy, Debug)]
pub struct WithdrawFunds {
    /// The receiver, who signed the request, and its balance.
    pub admin: Wallet,
    /// The vault's record.
    pub vault_account: VaultAccount,
    /// The vault's balance.
    pub vault_lamports: u64,
}

/// Why a withdrawal fails, if it does. The checks are made in this order,
/// and the first that fails gives the reason.
pub open spec fn withdraw_funds_failure(
    ctx: WithdrawFunds,
    amount: u64,
    admin: Seq<u8>,
) -> Option<Errors> {
    if ctx.vault_account.owner@ != ctx.admin.key@ {
        Some(Errors::Unauthorized)
    } else if ctx.admin.key@ != admin {
        Some(Errors::Unauthorized)
    } else {
        transfer_failure(ctx.vault_lamports, ctx.admin.lamports, amount)
    }
}

/// Moves `amount` out of the vault to the administrative authority, who must
/// own the vault. A vault that holds less than `amount` is refused, and
/// nothing moves.
pub fn withdraw_funds(
    ctx: &mut WithdrawFunds,
    amount: u64,
    config: &ProgramConfig,
) -> (r: Result<(), Errors>)
    ensures
        failure(r) == withdraw_funds_failure(*old(ctx), amount, config.admin@),
        r is Ok ==> {
            &&& final(ctx).admin.lamports == old(ctx).admin.lamports + amount
            &&& final(ctx).vault_lamports == old(ctx).vault_lamports - amount
        },
        r is Err ==> *final(ctx) == *old(ctx),
        amount > old(ctx).vault_lamports ==> r is Err,
        final(ctx).admin.key == old(ctx).admin.key,
        final(ctx).vault_account == old(ctx).vault_account,
        final(ctx).admin.lamports + final(ctx).vault_lamports
            == old(ctx).admin.lamports + old(ctx).vault_lamports,
{
    if !ctx.vault_account.owner.same(&ctx.admin.key) {
        return Err(Errors::Unauthorized);
    }
    if !ctx.admin.key.same(&config.admin) {
        return Err(Errors::Unauthorized);
    }
    crate::funds::transfer(&mut ctx.vault_lamports, &mut ctx.admin.lamports, amount)
}

} // verus!

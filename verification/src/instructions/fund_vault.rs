//! Paying into the vault.

use vstd::prelude::*;
use crate::errors::{failure, Errors};
use crate::funds::{transfer_failure, Wallet};
use crate::state::VaultAccount;

verus! {

/// What a payment into the vault is handed.
#[derive(Clone, Copy, Debug)]
pub struct FundVault {
    /// The payer, who signed the request, and its balance.
    pub admin: Wallet,
    /// The vault's record.
    pub vault_account: VaultAccount,
    /// The vault's balance.
    pub vault_lamports: u64,
}

/// Why a payment into the vault fails, if it does. The checks are made in
/// this order, and the first that fails gives the reason.
pub open spec fn fund_vault_failure(ctx: FundVault, amount: u64) -> Option<Errors> {
    if ctx.vault_account.owner@ != ctx.admin.key@ {
        Some(Errors::Unauthorized)
    } else if amount == 0 {
        Some(Errors::InvalidAmount)
    } else {
        transfer_failure(ctx.admin.lamports, ctx.vault_lamports, amount)
    }
}

/// Moves `amount` from the vault's owner into the vault. An amount of zero is
/// refused, and so is a payer who is not the owner or holds too little;
/// nothing moves then.
pub fn fund_vault(ctx: &mut FundVault, amount: u64) -> (r: Result<(), Errors>)
    ensures
        failure(r) == fund_vault_failure(*old(ctx), amount),
        r is Ok ==> {
            &&& final(ctx).admin.lamports == old(ctx).admin.lamports - amount
            &&& final(ctx).vault_lamports == old(ctx).vault_lamports + amount
        },
        r is Err ==> *final(ctx) == *old(ctx),
        final(ctx).admin.key == old(ctx).admin.key,
        final(ctx).vault_account == old(ctx).vault_account,
        final(ctx).admin.lamports + final(ctx).vault_lamports
            == old(ctx).admin.lamports + old(ctx).vault_lamports,
{
    if !ctx.vault_account.owner.same(&ctx.admin.key) {
        return Err(Errors::Unauthorized);
    }
    if amount == 0 {
        return Err(Errors::InvalidAmount);
    }
    crate::funds::transfer(&mut ctx.admin.lamports, &mut ctx.vault_lamports, amount)
}

} // verus!

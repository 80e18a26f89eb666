//! Paying out of the vault on the vault's own authority.

use vstd::prelude::*;
use crate::errors::{failure, Errors};
use crate::funds::transfer_failure;
use crate::identity::Identity;
use crate::state::VaultAccount;

verus! {

/// Why a payment out of the vault fails, if it does: the vault is not that of
/// the authority named, it holds too little, or the receiver cannot hold
/// the sum.
pub open spec fn disburse_failure(
    vault_owner: Seq<u8>,
    admin: Seq<u8>,
    vault_lamports: u64,
    to: u64,
    amount: u64,
) -> Option<Errors> {
    if vault_owner != admin {
        Some(Errors::Unauthorized)
    } else {
        transfer_failure(vault_lamports, to, amount)
    }
}

/// Pays `amount` out of the vault into the balance `to`. No signer is asked:
/// the settlement of a lease or of a host's earnings hands the vault's own
/// record, and the payment is made on that alone. A refused payment moves
/// nothing.
pub fn disburse(
    vault_account: &VaultAccount,
    admin: &Identity,
    vault_lamports: &mut u64,
    to: &mut u64,
    amount: u64,
) -> (r: Result<(), Errors>)
    ensures
        failure(r) == disburse_failure(
            vault_account.owner@,
            admin@,
            *old(vault_lamports),
            *old(to),
            amount,
        ),
        r is Ok ==> *final(vault_lamports) == *old(vault_lamports) - amount
            && *final(to) == *old(to) + amount,
        r is Err ==> *final(vault_lamports) == *old(vault_lamports) && *final(to) == *old(to),
        *final(vault_lamports) + *final(to) == *old(vault_lamports) + *old(to),
{
    if !vault_account.owner.same(admin) {
        return Err(Errors::Unauthorized);
    }
    crate::funds::transfer(vault_lamports, to, amount)
}

} // verus!

//! Balances, and the one way value moves between them.

use vstd::prelude::*;
use crate::errors::Errors;
use crate::identity::Identity;

verus! {

/// An address together with the balance held at it.
#[derive(Clone, Copy, Debug, PartialEq, Eq)]
pub struct Wallet {
    pub key: Identity,
    pub lamports: u64,
}

/// What left an escrow custody balance when its lease was settled.
#[derive(Clone, Copy, Debug, PartialEq, Eq, Structural)]
pub struct Settlement {
    /// What was paid to the renter.
    pub paid_to_user: u64,
    /// What was swept into the vault.
    pub swept_to_vault: u64,
}

/// Why moving `amount` from a balance `from` to a balance `to` fails, if it
/// does: the source holds too little, or the destination cannot hold the sum.
pub open spec fn transfer_failure(from: u64, to: u64, amount: u64) -> Option<Errors> {
    if from < amount {
        Some(Errors::InsufficientFunds)
    } else if to + amount > u64::MAX {
        Some(Errors::ArithmeticOverflow)
    } else {
        None
    }
}

/// Moves `amount` from one balance to another, or fails and moves nothing.
pub fn transfer(from: &mut u64, to: &mut u64, amount: u64) -> (r: Result<(), Errors>)
    ensures
        crate::errors::failure(r) == transfer_failure(*old(from), *old(to), amount),
        r is Ok ==> *final(from) == *old(from) - amount && *final(to) == *old(to) + amount,
        r is Err ==> *final(from) == *old(from) && *final(to) == *old(to),
{
    if *from < amount {
        return Err(Errors::InsufficientFunds);
    }
    if amount > u64::MAX - *to {
        return Err(Errors::ArithmeticOverflow);
    }
    *from = *from - amount;
    *to = *to + amount;
    Ok(())
}

} // verus!

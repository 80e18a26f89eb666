//! The vault: the custodial balance of the administrative authority.

use vstd::prelude::*;
use crate::identity::Identity;

verus! {

/// The record of a vault. Its balance is held at the vault's address, not here.
#[derive(Clone, Copy, Debug, PartialEq, Eq)]
pub struct VaultAccount {
    /// The authority that alone may fund, withdraw and disburse.
    pub owner: Identity,
    /// The bump under which the vault's address was derived.
    pub bump: u8,
}

/// What a vault record says.
pub struct VaultAccountView {
    pub owner: Seq<u8>,
    pub bump: u8,
}

impl View for VaultAccount {
    type V = VaultAccountView;

    open spec fn view(&self) -> VaultAccountView {
        VaultAccountView { owner: self.owner@, bump: self.bump }
    }
}

impl VaultAccount {
    /// A record that holds no vault yet.
    pub fn new() -> (r: VaultAccount)
        ensures
            r@ == (VaultAccountView { owner: Identity::zero(), bump: 0 }),
    {
        VaultAccount { owner: Identity::default(), bump: 0 }
    }
}

} // verus!

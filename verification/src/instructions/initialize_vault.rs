//! Creating the vault of the administrative authority.

use vstd::prelude::*;
use vstd::utf8::encode_utf8;
use crate::address::{
    derived, is_derived_address, program_address, vault_account_address, vault_account_seeds,
    MAX_SEED_LEN,
};
use crate::errors::{failure, Errors};
use crate::identity::{Identity, ProgramConfig};
use crate::state::{VaultAccount, VaultAccountView};

verus! {

/// What the creation of a vault is handed.
#[derive(Clone, Copy, Debug)]
pub struct InitializeVault {
    /// The identity that signed the request.
    pub admin: Identity,
    /// The address at which the record is held.
    pub vault_key: Identity,
    /// The vault's record.
    pub vault_account: VaultAccount,
}

/// Whether the record holds a vault already: a vault has an owner.
pub open spec fn is_initialized(vault: VaultAccountView) -> bool {
    vault.owner != Identity::zero()
}

/// Why the creation of a vault fails, if it does, where `vault` is the
/// record to fill, `key` the address at which it is held and `found` what
/// the authority and the vault's label derive: the signer is not the
/// administrative authority, the record holds the vault of another owner,
/// or it is held elsewhere than at the derived address.
pub open spec fn initialize_vault_failure(
    vault: VaultAccountView,
    signer: Seq<u8>,
    admin: Seq<u8>,
    key: Seq<u8>,
    found: Option<(Seq<u8>, u8)>,
) -> Option<Errors> {
    if signer != admin {
        Some(Errors::Unauthorized)
    } else if is_initialized(vault) && vault.owner != admin {
        Some(Errors::Unauthorized)
    } else if !is_derived_address(found, key) {
        Some(Errors::VaultNotInitialized)
    } else {
        None
    }
}

/// Creates the vault, given what the authority and the vault's label derive:
/// the record must sit at the derived address; the signer becomes its owner,
/// and the derived bump is kept. A vault may be created again, and its owner
/// is then what it was: no request changes the owner of a vault. A refused
/// request leaves the record as it was.
pub fn initialize_vault_with(
    ctx: &mut InitializeVault,
    config: &ProgramConfig,
    found: Option<(Identity, u8)>,
) -> (r: Result<(), Errors>)
    ensures
        failure(r) == initialize_vault_failure(
            old(ctx).vault_account@,
            old(ctx).admin@,
            config.admin@,
            old(ctx).vault_key@,
            derived(found),
        ),
        r is Ok ==> final(ctx).vault_account@ == (VaultAccountView {
            owner: config.admin@,
            bump: found.unwrap().1,
        }),
        r is Ok && is_initialized(old(ctx).vault_account@)
            ==> final(ctx).vault_account@.owner == old(ctx).vault_account@.owner,
        r is Err ==> final(ctx).vault_account == old(ctx).vault_account,
        final(ctx).admin == old(ctx).admin,
        final(ctx).vault_key == old(ctx).vault_key,
{
    if !ctx.admin.same(&config.admin) {
        return Err(Errors::Unauthorized);
    }
    let blank = Identity::default();
    if !ctx.vault_account.owner.same(&blank) && !ctx.vault_account.owner.same(&config.admin) {
        return Err(Errors::Unauthorized);
    }
    match found {
        Some((key, bump)) => {
            if !key.same(&ctx.vault_key) {
                return Err(Errors::VaultNotInitialized);
            }
            ctx.vault_account.owner = ctx.admin;
            ctx.vault_account.bump = bump;
            Ok(())
        },
        None => Err(Errors::VaultNotInitialized),
    }
}

/// Creates the vault labelled `secret_key`: derives its address and goes on
/// as `initialize_vault_with` does.
pub fn initialize_vault(
    ctx: &mut InitializeVault,
    secret_key: &String,
    config: &ProgramConfig,
) -> (r: Result<(), Errors>)
    ensures
        failure(r) == initialize_vault_failure(
            old(ctx).vault_account@,
            old(ctx).admin@,
            config.admin@,
            old(ctx).vault_key@,
            program_address(vault_account_seeds(old(ctx).admin@, secret_key@), config.program_id@),
        ),
        r is Ok ==> final(ctx).vault_account@ == (VaultAccountView {
            owner: config.admin@,
            bump: program_address(
                vault_account_seeds(old(ctx).admin@, secret_key@),
                config.program_id@,
            ).unwrap().1,
        }),
        r is Ok && is_initialized(old(ctx).vault_account@)
            ==> final(ctx).vault_account@.owner == old(ctx).vault_account@.owner,
        encode_utf8(secret_key@).len() > MAX_SEED_LEN ==> r is Err,
        r is Err ==> final(ctx).vault_account == old(ctx).vault_account,
        final(ctx).admin == old(ctx).admin,
        final(ctx).vault_key == old(ctx).vault_key,
{
    let found = vault_account_address(&ctx.admin, secret_key, &config.program_id);
    initialize_vault_with(ctx, config, found)
}

} // verus!

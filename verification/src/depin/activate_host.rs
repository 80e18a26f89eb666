//! Starting a registered machine.

use vstd::prelude::*;
use vstd::utf8::encode_utf8;
use crate::address::{
    derived, host_machine_address, host_machine_seeds, is_derived_address, program_address,
    MAX_SEED_LEN,
};
use crate::errors::{failure, DepinErrors};
use crate::identity::{Identity, ProgramConfig};
use crate::state::{HostMachineRegistration, HostMachineRegistrationView};

verus! {

/// What an activation is handed.
#[derive(Clone, Debug)]
pub struct ActivateHost {
    /// The identity that signed the request.
    pub user: Identity,
    /// The identity that is said to host the machine.
    pub host: Identity,
    /// The address at which the record is held.
    pub host_machine_key: Identity,
    /// The machine's record.
    pub host_machine: HostMachineRegistration,
}

/// Why an activation fails, if it does, where `key` is the address at which
/// the record is held and `found` is what the host and the id derive. The
/// checks are made in this order, and the first that fails gives the reason.
pub open spec fn activate_host_failure(
    machine: HostMachineRegistrationView,
    user: Seq<u8>,
    host: Seq<u8>,
    id: Seq<char>,
    admin: Seq<u8>,
    key: Seq<u8>,
    found: Option<(Seq<u8>, u8)>,
) -> Option<DepinErrors> {
    if !is_derived_address(found, key) {
        Some(DepinErrors::KeyDoesNotMatchPDA)
    } else if user != host && user != admin {
        Some(DepinErrors::UnauthorizedAdmin)
    } else if host != machine.host_key {
        Some(DepinErrors::HostKeyMismatch)
    } else if machine.is_active {
        Some(DepinErrors::HostMachineRegistrationNotActive)
    } else if machine.id != id {
        Some(DepinErrors::InvalidHostMachineRegistrationId)
    } else if machine.started_at != 0 {
        Some(DepinErrors::HostMachineAlreadyStarted)
    } else if machine.penalized {
        Some(DepinErrors::HostMachinePenalized)
    } else {
        None
    }
}

/// Starts the machine at `now`, on behalf of its host or of the
/// administrative authority, given what the host and the id derive. A record
/// held elsewhere than at the derived address is refused, and so is a
/// machine that is running, was started, is penalized or has another id; the
/// record then stays as it was.
pub fn activate_host_with(
    ctx: &mut ActivateHost,
    id: &String,
    now: i64,
    config: &ProgramConfig,
    found: Option<(Identity, u8)>,
) -> (r: Result<(), DepinErrors>)
    ensures
        failure(r) == activate_host_failure(
            old(ctx).host_machine@,
            old(ctx).user@,
            old(ctx).host@,
            id@,
            config.admin@,
            old(ctx).host_machine_key@,
            derived(found),
        ),
        r is Ok ==> final(ctx).host_machine@ == old(ctx).host_machine@.activated(now),
        r is Err ==> final(ctx).host_machine@ == old(ctx).host_machine@,
        final(ctx).user == old(ctx).user,
        final(ctx).host == old(ctx).host,
        final(ctx).host_machine_key == old(ctx).host_machine_key,
        final(ctx).host_machine@.earned == old(ctx).host_machine@.earned,
        old(ctx).host_machine@.is_active || old(ctx).host_machine@.started_at != 0
            || old(ctx).host_machine@.penalized || old(ctx).host_machine@.id != id@ ==> r is Err,
        final(ctx).host_machine@.penalized == old(ctx).host_machine@.penalized,
        old(ctx).host_machine@.wf() && now != 0 ==> final(ctx).host_machine@.wf(),
{
    match found {
        Some((key, _)) => {
            if !key.same(&ctx.host_machine_key) {
                return Err(DepinErrors::KeyDoesNotMatchPDA);
            }
        },
        None => {
            return Err(DepinErrors::KeyDoesNotMatchPDA);
        },
    }
    if !ctx.user.same(&ctx.host) && !ctx.user.same(&config.admin) {
        return Err(DepinErrors::UnauthorizedAdmin);
    }
    if !ctx.host.same(&ctx.host_machine.host_key) {
        return Err(DepinErrors::HostKeyMismatch);
    }
    if ctx.host_machine.is_active {
        return Err(DepinErrors::HostMachineRegistrationNotActive);
    }
    if ctx.host_machine.id != *id {
        return Err(DepinErrors::InvalidHostMachineRegistrationId);
    }
    if ctx.host_machine.started_at != 0 {
        return Err(DepinErrors::HostMachineAlreadyStarted);
    }
    if ctx.host_machine.penalized {
        return Err(DepinErrors::HostMachinePenalized);
    }
    ctx.host_machine.started_at = now;
    ctx.host_machine.is_active = true;
    Ok(())
}

/// Starts the machine `id` at `now`: derives the address of its record and
/// goes on as `activate_host_with` does.
pub fn activate_host(
    ctx: &mut ActivateHost,
    id: &String,
    now: i64,
    config: &ProgramConfig,
) -> (r: Result<(), DepinErrors>)
    ensures
        failure(r) == activate_host_failure(
            old(ctx).host_machine@,
            old(ctx).user@,
            old(ctx).host@,
            id@,
            config.admin@,
            old(ctx).host_machine_key@,
            program_address(host_machine_seeds(old(ctx).host@, id@), config.program_id@),
        ),
        r is Ok ==> final(ctx).host_machine@ == old(ctx).host_machine@.activated(now),
        r is Err ==> final(ctx).host_machine@ == old(ctx).host_machine@,
        final(ctx).user == old(ctx).user,
        final(ctx).host == old(ctx).host,
        final(ctx).host_machine_key == old(ctx).host_machine_key,
        final(ctx).host_machine@.earned == old(ctx).host_machine@.earned,
        old(ctx).host_machine@.is_active || old(ctx).host_machine@.started_at != 0
            || old(ctx).host_machine@.penalized || old(ctx).host_machine@.id != id@ ==> r is Err,
        encode_utf8(id@).len() > MAX_SEED_LEN ==> r is Err,
        final(ctx).host_machine@.penalized == old(ctx).host_machine@.penalized,
        old(ctx).host_machine@.wf() && now != 0 ==> final(ctx).host_machine@.wf(),
{
    let found = host_machine_address(&ctx.host, id, &config.program_id);
    activate_host_with(ctx, id, now, config, found)
}

} // verus!

//! Registering a machine under its host.

use vstd::prelude::*;
use vstd::utf8::encode_utf8;
use crate::address::{
    derived, host_machine_address, host_machine_seeds, is_derived_address, program_address,
};
use crate::errors::{failure, DepinErrors};
use crate::identity::{Identity, ProgramConfig};
use crate::state::{HostMachineRegistration, HostMachineRegistrationView};

verus! {

/// What a registration is handed.
#[derive(Clone, Debug)]
pub struct InitialiseHostRegistration {
    /// The identity that signed the request.
    pub admin: Identity,
    /// The identity that will host the machine.
    pub user_key: Identity,
    /// The address at which the record was allocated.
    pub host_machine_registration_key: Identity,
    /// The record to fill.
    pub host_machine_registration: HostMachineRegistration,
}

/// Whether the record holds a machine already: only a registration gives a
/// record a disk.
pub open spec fn is_registered(machine: HostMachineRegistrationView) -> bool {
    machine.disk_size != 0
}

/// Why a registration fails, if it does, where `machine` is the record to
/// fill and `found` is what the host and the id derive. The checks are made
/// in this order, and the first that fails gives the reason.
pub open spec fn initialise_host_registration_failure(
    machine: HostMachineRegistrationView,
    signer: Seq<u8>,
    admin: Seq<u8>,
    id: Seq<char>,
    disk_size: u64,
    key: Seq<u8>,
    found: Option<(Seq<u8>, u8)>,
) -> Option<DepinErrors> {
    if is_registered(machine) {
        Some(DepinErrors::HostMachineRegistrationAlreadyExists)
    } else if signer != admin {
        Some(DepinErrors::UnauthorizedAdmin)
    } else if encode_utf8(id).len() > 32 {
        Some(DepinErrors::InvalidHostMachineRegistrationData)
    } else if disk_size == 0 {
        Some(DepinErrors::InvalidHostMachineRegistrationDiskSize)
    } else if !is_derived_address(found, key) {
        Some(DepinErrors::KeyDoesNotMatchPDA)
    } else {
        None
    }
}

/// The record of a machine that has just been registered: idle, nothing
/// earned, never started, not penalized.
pub open spec fn registered(
    host: Seq<u8>,
    id: Seq<char>,
    host_name: Seq<char>,
    machine_type: Seq<char>,
    os: Seq<char>,
    disk_size: u64,
    sol_per_hour: u64,
    bump: u8,
) -> HostMachineRegistrationView {
    HostMachineRegistrationView {
        is_active: false,
        host_key: host,
        host_name,
        machine_type,
        os,
        disk_size,
        bump,
        id,
        earned: 0,
        started_at: 0,
        penalized: false,
        sol_per_hour,
    }
}

/// Registers a machine, given what its host and id derive. A record is
/// filled once: one that holds a machine already is refused. Only the
/// administrative authority may register; the id has at most 32 bytes, the
/// disk is not empty, and the record sits at the derived address. A refused
/// request leaves the record as it was.
pub fn initialise_host_registration_with(
    ctx: &mut InitialiseHostRegistration,
    id: String,
    host_name: String,
    machine_type: String,
    os: String,
    disk_size: u64,
    sol_per_hour: u64,
    config: &ProgramConfig,
    found: Option<(Identity, u8)>,
) -> (r: Result<(), DepinErrors>)
    ensures
        failure(r) == initialise_host_registration_failure(
            old(ctx).host_machine_registration@,
            old(ctx).admin@,
            config.admin@,
            id@,
            disk_size,
            old(ctx).host_machine_registration_key@,
            derived(found),
        ),
        r is Ok ==> final(ctx).host_machine_registration@ == registered(
            old(ctx).user_key@,
            id@,
            host_name@,
            machine_type@,
            os@,
            disk_size,
            sol_per_hour,
            found.unwrap().1,
        ),
        r is Ok ==> final(ctx).host_machine_registration@.wf(),
        r is Err ==> final(ctx).host_machine_registration@ == old(ctx).host_machine_registration@,
        final(ctx).admin == old(ctx).admin,
        final(ctx).user_key == old(ctx).user_key,
        final(ctx).host_machine_registration_key == old(ctx).host_machine_registration_key,
{
    if ctx.host_machine_registration.disk_size != 0 {
        return Err(DepinErrors::HostMachineRegistrationAlreadyExists);
    }
    if !ctx.admin.same(&config.admin) {
        return Err(DepinErrors::UnauthorizedAdmin);
    }
    if id.as_str().as_bytes().len() > 32 {
        return Err(DepinErrors::InvalidHostMachineRegistrationData);
    }
    if disk_size == 0 {
        return Err(DepinErrors::InvalidHostMachineRegistrationDiskSize);
    }
    let bump: u8 = match found {
        Some((key, bump)) => {
            if !ctx.host_machine_registration_key.same(&key) {
                return Err(DepinErrors::KeyDoesNotMatchPDA);
            }
            bump
        },
        None => {
            return Err(DepinErrors::KeyDoesNotMatchPDA);
        },
    };
    ctx.host_machine_registration.id = id;
    ctx.host_machine_registration.host_key = ctx.user_key;
    ctx.host_machine_registration.is_active = false;
    ctx.host_machine_registration.host_name = host_name;
    ctx.host_machine_registration.machine_type = machine_type;
    ctx.host_machine_registration.os = os;
    ctx.host_machine_registration.disk_size = disk_size;
    ctx.host_machine_registration.bump = bump;
    ctx.host_machine_registration.earned = 0;
    ctx.host_machine_registration.started_at = 0;
    ctx.host_machine_registration.penalized = false;
    ctx.host_machine_registration.sol_per_hour = sol_per_hour;
    Ok(())
}

/// Registers a machine under the host `ctx.user_key`: derives the address of
/// its record and goes on as `initialise_host_registration_with` does.
pub fn initialise_host_registration(
    ctx: &mut InitialiseHostRegistration,
    id: String,
    host_name: String,
    machine_type: String,
    os: String,
    disk_size: u64,
    sol_per_hour: u64,
    config: &ProgramConfig,
) -> (r: Result<(), DepinErrors>)
    ensures
        failure(r) == initialise_host_registration_failure(
            old(ctx).host_machine_registration@,
            old(ctx).admin@,
            config.admin@,
            id@,
            disk_size,
            old(ctx).host_machine_registration_key@,
            program_address(host_machine_seeds(old(ctx).user_key@, id@), config.program_id@),
        ),
        r is Ok ==> final(ctx).host_machine_registration@ == registered(
            old(ctx).user_key@,
            id@,
            host_name@,
            machine_type@,
            os@,
            disk_size,
            sol_per_hour,
            program_address(
                host_machine_seeds(old(ctx).user_key@, id@),
                config.program_id@,
            ).unwrap().1,
        ),
        r is Ok ==> final(ctx).host_machine_registration@.wf(),
        r is Err ==> final(ctx).host_machine_registration@ == old(ctx).host_machine_registration@,
        final(ctx).admin == old(ctx).admin,
        final(ctx).user_key == old(ctx).user_key,
        final(ctx).host_machine_registration_key == old(ctx).host_machine_registration_key,
{
    let found = host_machine_address(&ctx.user_key, &id, &config.program_id);
    initialise_host_registration_with(
        ctx,
        id,
        host_name,
        machine_type,
        os,
        disk_size,
        sol_per_hour,
        config,
        found,
    )
}

} // verus!

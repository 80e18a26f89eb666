//! Stopping a running machine and accruing its reward.

use vstd::prelude::*;
use vstd::utf8::encode_utf8;
use crate::address::{
    derived, host_machine_address, host_machine_seeds, is_derived_address, program_address,
    MAX_SEED_LEN,
};
use crate::errors::{failure, DepinErrors, Errors, ProgramError};
use crate::identity::{Identity, ProgramConfig};
use crate::state::{HostMachineRegistration, HostMachineRegistrationView};

verus! {

/// What a deactivation is handed.
#[derive(Clone, Debug)]
pub struct DeactivateHost {
    /// The identity that signed the request.
    pub user: Identity,
    /// The identity that is said to host the machine.
    pub host: Identity,
    /// The address at which the record is held.
    pub host_machine_key: Identity,
    /// The machine's record.
    pub host_machine: HostMachineRegistration,
}

/// Why a deactivation at `now` fails, if it does, where `key` is the address
/// at which the record is held and `found` is what the host and the id
/// derive. The checks are made in this order, and the first that fails gives
/// the reason. A clock behind the start time is refused, and so is a reward
/// that `earned` cannot hold.
pub open spec fn deactivate_host_failure(
    machine: HostMachineRegistrationView,
    user: Seq<u8>,
    host: Seq<u8>,
    id: Seq<char>,
    admin: Seq<u8>,
    now: i64,
    key: Seq<u8>,
    found: Option<(Seq<u8>, u8)>,
) -> Option<ProgramError> {
    if !is_derived_address(found, key) {
        Some(ProgramError::Depin(DepinErrors::KeyDoesNotMatchPDA))
    } else if user != host && user != admin {
        Some(ProgramError::Depin(DepinErrors::UnauthorizedAdmin))
    } else if host != machine.host_key {
        Some(ProgramError::Depin(DepinErrors::HostKeyMismatch))
    } else if !machine.is_active {
        Some(ProgramError::Depin(DepinErrors::HostMachineRegistrationNotActive))
    } else if machine.id != id {
        Some(ProgramError::Depin(DepinErrors::InvalidHostMachineRegistrationId))
    } else if machine.started_at <= 0 {
        Some(ProgramError::Depin(DepinErrors::HostMachineRegistrationNotActiveLongEnough))
    } else if now - machine.started_at < 0 {
        Some(ProgramError::Depin(DepinErrors::HostMachineRegistrationNotActiveLongEnough))
    } else if machine.earned + machine.reward(now - machine.started_at) > u64::MAX {
        Some(ProgramError::Rental(Errors::ArithmeticOverflow))
    } else {
        None
    }
}

/// Stops the machine at `now`, on behalf of its host or of the administrative
/// authority, given what the host and the id derive, and adds to what it
/// earned the hourly rate for each whole hour since it was started. A
/// refused request leaves the record as it was.
pub fn deactivate_host_with(
    ctx: &mut DeactivateHost,
    id: &String,
    now: i64,
    config: &ProgramConfig,
    found: Option<(Identity, u8)>,
) -> (r: Result<(), ProgramError>)
    ensures
        failure(r) == deactivate_host_failure(
            old(ctx).host_machine@,
            old(ctx).user@,
            old(ctx).host@,
            id@,
            config.admin@,
            now,
            old(ctx).host_machine_key@,
            derived(found),
        ),
        r is Ok ==> final(ctx).host_machine@ == old(ctx).host_machine@.deactivated(now),
        r is Ok ==> final(ctx).host_machine@.earned == old(ctx).host_machine@.earned
            + ((now - old(ctx).host_machine@.started_at) / 3600)
            * old(ctx).host_machine@.sol_per_hour,
        r is Err ==> final(ctx).host_machine@ == old(ctx).host_machine@,
        final(ctx).user == old(ctx).user,
        final(ctx).host == old(ctx).host,
        final(ctx).host_machine_key == old(ctx).host_machine_key,
        final(ctx).host_machine@.earned >= old(ctx).host_machine@.earned,
        final(ctx).host_machine@.penalized == old(ctx).host_machine@.penalized,
        old(ctx).host_machine@.wf() ==> final(ctx).host_machine@.wf(),
{
    match found {
        Some((key, _)) => {
            if !key.same(&ctx.host_machine_key) {
                return Err(ProgramError::Depin(DepinErrors::KeyDoesNotMatchPDA));
            }
        },
        None => {
            return Err(ProgramError::Depin(DepinErrors::KeyDoesNotMatchPDA));
        },
    }
    if !ctx.user.same(&ctx.host) && !ctx.user.same(&config.admin) {
        return Err(ProgramError::Depin(DepinErrors::UnauthorizedAdmin));
    }
    if !ctx.host.same(&ctx.host_machine.host_key) {
        return Err(ProgramError::Depin(DepinErrors::HostKeyMismatch));
    }
    if !ctx.host_machine.is_active {
        return Err(ProgramError::Depin(DepinErrors::HostMachineRegistrationNotActive));
    }
    if ctx.host_machine.id != *id {
        return Err(ProgramError::Depin(DepinErrors::InvalidHostMachineRegistrationId));
    }
    if ctx.host_machine.started_at <= 0 {
        return Err(ProgramError::Depin(DepinErrors::HostMachineRegistrationNotActiveLongEnough));
    }
    if now < ctx.host_machine.started_at {
        return Err(ProgramError::Depin(DepinErrors::HostMachineRegistrationNotActiveLongEnough));
    }
    let elapsed: u64 = (now - ctx.host_machine.started_at) as u64;
    let hours: u64 = elapsed / 3600;
    let ghost rate = ctx.host_machine.sol_per_hour as int;
    assert(hours * rate >= 0) by (nonlinear_arith)
        requires
            hours >= 0,
            rate >= 0,
    ;
    let reward: u64 = match hours.checked_mul(ctx.host_machine.sol_per_hour) {
        Some(reward) => reward,
        None => {
            return Err(ProgramError::Rental(Errors::ArithmeticOverflow));
        },
    };
    let earned: u64 = match ctx.host_machine.earned.checked_add(reward) {
        Some(earned) => earned,
        None => {
            return Err(ProgramError::Rental(Errors::ArithmeticOverflow));
        },
    };
    ctx.host_machine.is_active = false;
    ctx.host_machine.earned = earned;
    ctx.host_machine.started_at = 0;
    Ok(())
}

/// Stops the machine `id` at `now`: derives the address of its record and
/// goes on as `deactivate_host_with` does.
pub fn deactivate_host(
    ctx: &mut DeactivateHost,
    id: &String,
    now: i64,
    config: &ProgramConfig,
) -> (r: Result<(), ProgramError>)
    ensures
        failure(r) == deactivate_host_failure(
            old(ctx).host_machine@,
            old(ctx).user@,
            old(ctx).host@,
            id@,
            config.admin@,
            now,
            old(ctx).host_machine_key@,
            program_address(host_machine_seeds(old(ctx).host@, id@), config.program_id@),
        ),
        r is Ok ==> final(ctx).host_machine@ == old(ctx).host_machine@.deactivated(now),
        r is Ok ==> final(ctx).host_machine@.earned == old(ctx).host_machine@.earned
            + ((now - old(ctx).host_machine@.started_at) / 3600)
            * old(ctx).host_machine@.sol_per_hour,
        r is Err ==> final(ctx).host_machine@ == old(ctx).host_machine@,
        final(ctx).user == old(ctx).user,
        final(ctx).host == old(ctx).host,
        final(ctx).host_machine_key == old(ctx).host_machine_key,
        final(ctx).host_machine@.earned >= old(ctx).host_machine@.earned,
        encode_utf8(id@).len() > MAX_SEED_LEN ==> r is Err,
        final(ctx).host_machine@.penalized == old(ctx).host_machine@.penalized,
        old(ctx).host_machine@.wf() ==> final(ctx).host_machine@.wf(),
{
    let found = host_machine_address(&ctx.host, id, &config.program_id);
    deactivate_host_with(ctx, id, now, config, found)
}

} // verus!

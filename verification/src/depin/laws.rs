//! What holds of a host registration over any sequence of requests.

use vstd::prelude::*;
use crate::depin::activate_host::activate_host_failure;
use crate::depin::claim_rewards::{claim_rewards_failure, ClaimFunds};
use crate::depin::deactivate_host::deactivate_host_failure;
use crate::depin::initialise_host_registration::{initialise_host_registration_failure, registered};
use crate::depin::penalize_host::penalize_host_failure;
use crate::errors::{DepinErrors, ProgramError};
use crate::state::HostMachineRegistrationView;

verus! {

/// Who asks for a start or a stop, of which machine, and where its record
/// is held and was derived.
pub struct HostRequest {
    pub user: Seq<u8>,
    pub host: Seq<u8>,
    pub id: Seq<char>,
    pub key: Seq<u8>,
    pub found: Option<(Seq<u8>, u8)>,
}

/// What a registration asks for.
pub struct Registration {
    pub signer: Seq<u8>,
    pub host: Seq<u8>,
    pub id: Seq<char>,
    pub host_name: Seq<char>,
    pub machine_type: Seq<char>,
    pub os: Seq<char>,
    pub disk_size: u64,
    pub sol_per_hour: u64,
    pub key: Seq<u8>,
    pub found: Option<(Seq<u8>, u8)>,
}

/// One request made of a host's record, with everything it is handed.
pub enum HostCall {
    Register { registration: Registration },
    Activate { request: HostRequest, now: i64 },
    Deactivate { request: HostRequest, now: i64 },
    Claim { funds: ClaimFunds, id: Seq<char>, key: Seq<u8>, found: Option<(Seq<u8>, u8)> },
    Penalize { signer: Seq<u8> },
}

/// Why a registration is refused, if it is.
pub open spec fn registration_failure(
    machine: HostMachineRegistrationView,
    registration: Registration,
    admin: Seq<u8>,
) -> Option<DepinErrors> {
    initialise_host_registration_failure(
        machine,
        registration.signer,
        admin,
        registration.id,
        registration.disk_size,
        registration.key,
        registration.found,
    )
}

/// Why a start asked for by `request` is refused, if it is.
pub open spec fn start_failure(
    machine: HostMachineRegistrationView,
    request: HostRequest,
    admin: Seq<u8>,
) -> Option<DepinErrors> {
    activate_host_failure(
        machine,
        request.user,
        request.host,
        request.id,
        admin,
        request.key,
        request.found,
    )
}

/// Why a stop at `now` asked for by `request` is refused, if it is.
pub open spec fn stop_failure(
    machine: HostMachineRegistrationView,
    request: HostRequest,
    admin: Seq<u8>,
    now: i64,
) -> Option<ProgramError> {
    deactivate_host_failure(
        machine,
        request.user,
        request.host,
        request.id,
        admin,
        now,
        request.key,
        request.found,
    )
}

/// The record after one request: changed where the request is granted, as it
/// was where the request is refused.
pub open spec fn after_call(
    machine: HostMachineRegistrationView,
    call: HostCall,
    admin: Seq<u8>,
) -> HostMachineRegistrationView {
    match call {
        HostCall::Register { registration } => {
            if registration_failure(machine, registration, admin) is None {
                registered(
                    registration.host,
                    registration.id,
                    registration.host_name,
                    registration.machine_type,
                    registration.os,
                    registration.disk_size,
                    registration.sol_per_hour,
                    registration.found.unwrap().1,
                )
            } else {
                machine
            }
        },
        HostCall::Activate { request, now } => {
            if start_failure(machine, request, admin) is None {
                machine.activated(now)
            } else {
                machine
            }
        },
        HostCall::Deactivate { request, now } => {
            if stop_failure(machine, request, admin, now) is None {
                machine.deactivated(now)
            } else {
                machine
            }
        },
        HostCall::Claim { funds, id, key, found } => {
            if claim_rewards_failure(machine, funds, id, key, found) is None {
                machine.claimed()
            } else {
                machine
            }
        },
        HostCall::Penalize { signer } => {
            if penalize_host_failure(signer, admin) is None {
                machine.forfeited()
            } else {
                machine
            }
        },
    }
}

/// The record after a sequence of requests, made in order.
pub open spec fn after_calls(
    machine: HostMachineRegistrationView,
    calls: Seq<HostCall>,
    admin: Seq<u8>,
) -> HostMachineRegistrationView
    decreases calls.len(),
{
    if calls.len() == 0 {
        machine
    } else {
        after_call(after_calls(machine, calls.drop_last(), admin), calls.last(), admin)
    }
}

/// A machine that is started and then stopped `elapsed` seconds later has
/// earned, beyond what it had, exactly the hourly rate for each whole hour
/// of `elapsed`.
pub proof fn lemma_activation_accrues_whole_hours(
    machine: HostMachineRegistrationView,
    start: HostRequest,
    stop: HostRequest,
    admin: Seq<u8>,
    started_at: i64,
    elapsed: int,
)
    requires
        0 <= elapsed,
        started_at + elapsed <= i64::MAX,
        start_failure(machine, start, admin) is None,
        stop_failure(machine.activated(started_at), stop, admin, (started_at + elapsed) as i64)
            is None,
    ensures
        machine.activated(started_at).deactivated((started_at + elapsed) as i64).earned
            == machine.earned + (elapsed / 3600) * machine.sol_per_hour,
{
}

/// What a registered machine has earned never falls but by a claim or a
/// penalty.
pub proof fn lemma_earned_falls_only_by_claim_or_penalty(
    machine: HostMachineRegistrationView,
    call: HostCall,
    admin: Seq<u8>,
)
    requires
        machine.wf(),
        !(call is Claim),
        !(call is Penalize),
    ensures
        after_call(machine, call, admin).earned >= machine.earned,
{
    match call {
        HostCall::Deactivate { request, now } => {
            if stop_failure(machine, request, admin, now) is None {
                let hours = (now - machine.started_at) / 3600;
                let rate = machine.sol_per_hour as int;
                assert(hours * rate >= 0) by (nonlinear_arith)
                    requires
                        hours >= 0,
                        rate >= 0,
                ;
            }
        },
        _ => {},
    }
}

/// A penalty is for good: once a registered machine is penalized, whatever
/// requests follow, a new registration among them, its record stays
/// penalized, idle and without a start time, and every request to start it
/// is refused.
pub proof fn lemma_penalty_is_permanent(
    machine: HostMachineRegistrationView,
    signer: Seq<u8>,
    calls: Seq<HostCall>,
    admin: Seq<u8>,
    request: HostRequest,
)
    requires
        machine.wf(),
        penalize_host_failure(signer, admin) is None,
    ensures
        after_calls(machine.forfeited(), calls, admin).wf(),
        after_calls(machine.forfeited(), calls, admin).penalized,
        !after_calls(machine.forfeited(), calls, admin).is_active,
        after_calls(machine.forfeited(), calls, admin).started_at == 0,
        start_failure(after_calls(machine.forfeited(), calls, admin), request, admin) is Some,
    decreases calls.len(),
{
    if calls.len() > 0 {
        lemma_penalty_is_permanent(machine, signer, calls.drop_last(), admin, request);
    }
}

/// Every request keeps the record of a registered machine well-formed, but a
/// start at the clock reading zero, which no start time can tell from
/// idleness.
pub proof fn lemma_calls_keep_well_formed(
    machine: HostMachineRegistrationView,
    call: HostCall,
    admin: Seq<u8>,
)
    requires
        machine.wf(),
        call is Activate ==> call->Activate_now != 0,
    ensures
        after_call(machine, call, admin).wf(),
{
}

/// A record is filled once: every registration of a record that holds a
/// machine is refused.
pub proof fn lemma_registered_once(
    machine: HostMachineRegistrationView,
    registration: Registration,
    admin: Seq<u8>,
)
    requires
        machine.wf(),
    ensures
        registration_failure(machine, registration, admin)
            == Some(DepinErrors::HostMachineRegistrationAlreadyExists),
        after_call(machine, HostCall::Register { registration }, admin) == machine,
{
}

} // verus!

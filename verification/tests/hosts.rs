use compute_rental::address::host_machine_address;
use compute_rental::{
    activate_host, activate_host_with, claim_rewards, claim_rewards_with, deactivate_host,
    deactivate_host_with, initialise_host_registration, initialise_host_registration_with,
    penalize_host, ActivateHost, ClaimRewards, DeactivateHost, DepinErrors, ErrorKind, Errors,
    HostMachineRegistration, Identity, InitialiseHostRegistration, PenalizeHost, ProgramConfig,
    ProgramError, VaultAccount, Wallet,
};

fn key(n: u8) -> Identity {
    Identity::new([n; 32])
}

fn admin() -> Identity {
    key(9)
}

fn host() -> Identity {
    key(1)
}

fn config() -> ProgramConfig {
    ProgramConfig { admin: admin(), program_id: key(42) }
}

fn address_of(id: &str) -> Identity {
    host_machine_address(&host(), &id.to_string(), &config().program_id).unwrap().0
}

fn registered(id: &str, sol_per_hour: u64) -> HostMachineRegistration {
    let id = id.to_string();
    let found = host_machine_address(&host(), &id, &config().program_id).unwrap();
    let mut ctx = InitialiseHostRegistration {
        admin: admin(),
        user_key: host(),
        host_machine_registration_key: found.0,
        host_machine_registration: HostMachineRegistration::new(),
    };
    let r = initialise_host_registration(
        &mut ctx,
        id,
        "rig".to_string(),
        "gpu".to_string(),
        "linux".to_string(),
        512,
        sol_per_hour,
        &config(),
    );
    assert_eq!(r, Ok(()));
    ctx.host_machine_registration
}

fn activate(
    machine: HostMachineRegistration,
    user: Identity,
    id: &str,
    now: i64,
) -> (Result<(), DepinErrors>, HostMachineRegistration) {
    let mut ctx = ActivateHost {
        user,
        host: host(),
        host_machine_key: address_of(id),
        host_machine: machine,
    };
    let r = activate_host(&mut ctx, &id.to_string(), now, &config());
    (r, ctx.host_machine)
}

fn deactivate(
    machine: HostMachineRegistration,
    user: Identity,
    id: &str,
    now: i64,
) -> (Result<(), ProgramError>, HostMachineRegistration) {
    let mut ctx = DeactivateHost {
        user,
        host: host(),
        host_machine_key: address_of(id),
        host_machine: machine,
    };
    let r = deactivate_host(&mut ctx, &id.to_string(), now, &config());
    (r, ctx.host_machine)
}

fn claim(
    machine: HostMachineRegistration,
    id: &str,
    host_lamports: u64,
    vault_lamports: u64,
) -> (Result<(), ProgramError>, ClaimRewards) {
    let mut ctx = ClaimRewards {
        host: Wallet { key: host(), lamports: host_lamports },
        host_machine_key: address_of(id),
        host_machine: machine,
        admin: admin(),
        vault_account: VaultAccount { owner: admin(), bump: 254 },
        vault_lamports,
    };
    let r = claim_rewards(&mut ctx, &id.to_string(), &config());
    (r, ctx)
}

fn penalize(
    machine: HostMachineRegistration,
    signer: Identity,
) -> (Result<(), DepinErrors>, HostMachineRegistration) {
    let mut ctx = PenalizeHost { admin: signer, host_machine: machine };
    let r = penalize_host(&mut ctx, &config());
    (r, ctx.host_machine)
}

#[test]
fn register_fills_an_idle_record() {
    let machine = registered("h1", 10);
    let found = host_machine_address(&host(), &"h1".to_string(), &config().program_id).unwrap();
    assert_eq!(machine.id, "h1");
    assert_eq!(machine.host_key, host());
    assert_eq!(machine.host_name, "rig");
    assert_eq!(machine.machine_type, "gpu");
    assert_eq!(machine.os, "linux");
    assert_eq!(machine.disk_size, 512);
    assert_eq!(machine.sol_per_hour, 10);
    assert_eq!(machine.bump, found.1);
    assert_eq!(machine.earned, 0);
    assert_eq!(machine.started_at, 0);
    assert!(!machine.is_active);
    assert!(!machine.penalized);
}

fn register_attempt(
    signer: Identity,
    id: &str,
    disk_size: u64,
    key: Identity,
) -> (Result<(), DepinErrors>, HostMachineRegistration) {
    let mut ctx = InitialiseHostRegistration {
        admin: signer,
        user_key: host(),
        host_machine_registration_key: key,
        host_machine_registration: HostMachineRegistration::new(),
    };
    let r = initialise_host_registration(
        &mut ctx,
        id.to_string(),
        "rig".to_string(),
        "gpu".to_string(),
        "linux".to_string(),
        disk_size,
        10,
        &config(),
    );
    (r, ctx.host_machine_registration)
}

#[test]
fn register_is_for_the_authority_only() {
    let found = host_machine_address(&host(), &"h1".to_string(), &config().program_id).unwrap();
    let (r, machine) = register_attempt(host(), "h1", 512, found.0);
    assert_eq!(r, Err(DepinErrors::UnauthorizedAdmin));
    assert_eq!(machine, HostMachineRegistration::new());
}

#[test]
fn register_refuses_an_id_over_32_bytes() {
    let long = "a".repeat(33);
    let (r, machine) = register_attempt(admin(), &long, 512, key(7));
    assert_eq!(r, Err(DepinErrors::InvalidHostMachineRegistrationData));
    assert_eq!(machine, HostMachineRegistration::new());
}

#[test]
fn register_counts_bytes_not_characters() {
    // Eleven characters of three bytes each.
    let wide = "\u{20AC}".repeat(11);
    let (r, _) = register_attempt(admin(), &wide, 512, key(7));
    assert_eq!(r, Err(DepinErrors::InvalidHostMachineRegistrationData));
}

#[test]
fn register_accepts_an_id_of_32_bytes() {
    let id = "b".repeat(32);
    let found = host_machine_address(&host(), &id, &config().program_id).unwrap();
    let (r, machine) = register_attempt(admin(), &id, 512, found.0);
    assert_eq!(r, Ok(()));
    assert_eq!(machine.id, id);
}

#[test]
fn register_refuses_an_empty_disk() {
    let found = host_machine_address(&host(), &"h1".to_string(), &config().program_id).unwrap();
    let (r, _) = register_attempt(admin(), "h1", 0, found.0);
    assert_eq!(r, Err(DepinErrors::InvalidHostMachineRegistrationDiskSize));
}

#[test]
fn register_refuses_another_address() {
    let (r, machine) = register_attempt(admin(), "h1", 512, key(7));
    assert_eq!(r, Err(DepinErrors::KeyDoesNotMatchPDA));
    assert_eq!(machine, HostMachineRegistration::new());
}

#[test]
fn register_refuses_the_address_of_another_id() {
    let other = host_machine_address(&host(), &"h2".to_string(), &config().program_id).unwrap();
    let (r, _) = register_attempt(admin(), "h1", 512, other.0);
    assert_eq!(r, Err(DepinErrors::KeyDoesNotMatchPDA));
}

#[test]
fn register_twice_is_refused() {
    let machine = registered("h1", 10);
    let mut ctx = InitialiseHostRegistration {
        admin: admin(),
        user_key: host(),
        host_machine_registration_key: address_of("h1"),
        host_machine_registration: machine.clone(),
    };
    let r = initialise_host_registration(
        &mut ctx,
        "h1".to_string(),
        "other".to_string(),
        "cpu".to_string(),
        "bsd".to_string(),
        9,
        99,
        &config(),
    );
    assert_eq!(r, Err(DepinErrors::HostMachineRegistrationAlreadyExists));
    assert_eq!(ctx.host_machine_registration, machine);
}

#[test]
fn a_penalized_machine_cannot_be_registered_anew() {
    let (_, machine) = penalize(registered("h1", 10), admin());
    let mut ctx = InitialiseHostRegistration {
        admin: admin(),
        user_key: host(),
        host_machine_registration_key: address_of("h1"),
        host_machine_registration: machine.clone(),
    };
    let r = initialise_host_registration(
        &mut ctx,
        "h1".to_string(),
        "rig".to_string(),
        "gpu".to_string(),
        "linux".to_string(),
        512,
        10,
        &config(),
    );
    assert_eq!(r, Err(DepinErrors::HostMachineRegistrationAlreadyExists));
    assert!(ctx.host_machine_registration.penalized);
    let (r, _) = activate(ctx.host_machine_registration, host(), "h1", 60);
    assert_eq!(r, Err(DepinErrors::HostMachinePenalized));
}

#[test]
fn register_without_a_derived_address_is_refused() {
    let mut ctx = InitialiseHostRegistration {
        admin: admin(),
        user_key: host(),
        host_machine_registration_key: key(7),
        host_machine_registration: HostMachineRegistration::new(),
    };
    let r = initialise_host_registration_with(
        &mut ctx,
        "h1".to_string(),
        "rig".to_string(),
        "gpu".to_string(),
        "linux".to_string(),
        512,
        10,
        &config(),
        None,
    );
    assert_eq!(r, Err(DepinErrors::KeyDoesNotMatchPDA));
}

#[test]
fn register_with_takes_the_bump_it_is_given() {
    let mut ctx = InitialiseHostRegistration {
        admin: admin(),
        user_key: host(),
        host_machine_registration_key: key(7),
        host_machine_registration: HostMachineRegistration::new(),
    };
    let r = initialise_host_registration_with(
        &mut ctx,
        "h1".to_string(),
        "rig".to_string(),
        "gpu".to_string(),
        "linux".to_string(),
        512,
        10,
        &config(),
        Some((key(7), 201)),
    );
    assert_eq!(r, Ok(()));
    assert_eq!(ctx.host_machine_registration.bump, 201);
    assert_eq!(ctx.host_machine_registration.host_key, host());
}

#[test]
fn scenario_host_earns_two_hours_and_claims() {
    let machine = registered("h1", 10);
    let (r, machine) = activate(machine, host(), "h1", 1_000);
    assert_eq!(r, Ok(()));
    assert!(machine.is_active);
    assert_eq!(machine.started_at, 1_000);

    let (r, machine) = deactivate(machine, host(), "h1", 1_000 + 7_200);
    assert_eq!(r, Ok(()));
    assert_eq!(machine.earned, 20);
    assert!(!machine.is_active);
    assert_eq!(machine.started_at, 0);

    let (r, ctx) = claim(machine, "h1", 0, 100);
    assert_eq!(r, Ok(()));
    assert_eq!(ctx.vault_lamports, 80);
    assert_eq!(ctx.host.lamports, 20);
    assert_eq!(ctx.host_machine.earned, 0);
}

#[test]
fn activate_by_the_authority_is_allowed() {
    let (r, machine) = activate(registered("h1", 10), admin(), "h1", 50);
    assert_eq!(r, Ok(()));
    assert!(machine.is_active);
}

#[test]
fn activate_by_a_stranger_is_refused() {
    let before = registered("h1", 10);
    let (r, machine) = activate(before.clone(), key(77), "h1", 50);
    assert_eq!(r, Err(DepinErrors::UnauthorizedAdmin));
    assert_eq!(machine, before);
}

#[test]
fn activate_for_another_host_is_refused() {
    let other = host_machine_address(&key(2), &"h1".to_string(), &config().program_id).unwrap();
    let mut ctx = ActivateHost {
        user: admin(),
        host: key(2),
        host_machine_key: other.0,
        host_machine: registered("h1", 10),
    };
    let r = activate_host(&mut ctx, &"h1".to_string(), 50, &config());
    assert_eq!(r, Err(DepinErrors::HostKeyMismatch));
    ctx.host_machine_key = address_of("h1");
    let r = activate_host(&mut ctx, &"h1".to_string(), 50, &config());
    assert_eq!(r, Err(DepinErrors::KeyDoesNotMatchPDA));
}

#[test]
fn activate_fails_when_already_active() {
    let (_, machine) = activate(registered("h1", 10), host(), "h1", 50);
    let (r, after) = activate(machine.clone(), host(), "h1", 60);
    assert_eq!(r, Err(DepinErrors::HostMachineRegistrationNotActive));
    assert_eq!(after, machine);
}

#[test]
fn activate_fails_when_started() {
    let mut machine = registered("h1", 10);
    machine.started_at = 5;
    let (r, _) = activate(machine, host(), "h1", 60);
    assert_eq!(r, Err(DepinErrors::HostMachineAlreadyStarted));
}

#[test]
fn activate_fails_on_another_id() {
    let (r, _) = activate(registered("h1", 10), host(), "h2", 60);
    assert_eq!(r, Err(DepinErrors::InvalidHostMachineRegistrationId));
}

#[test]
fn activate_fails_on_a_record_held_elsewhere() {
    let before = registered("h1", 10);
    let mut ctx = ActivateHost {
        user: host(),
        host: host(),
        host_machine_key: address_of("h2"),
        host_machine: before.clone(),
    };
    let r = activate_host(&mut ctx, &"h1".to_string(), 60, &config());
    assert_eq!(r, Err(DepinErrors::KeyDoesNotMatchPDA));
    assert_eq!(ctx.host_machine, before);
    let r = activate_host_with(&mut ctx, &"h1".to_string(), 60, &config(), None);
    assert_eq!(r, Err(DepinErrors::KeyDoesNotMatchPDA));
    let found = Some((address_of("h2"), 3));
    let r = activate_host_with(&mut ctx, &"h1".to_string(), 60, &config(), found);
    assert_eq!(r, Ok(()));
    assert_eq!(ctx.host_machine.started_at, 60);
}

#[test]
fn an_id_over_32_bytes_is_refused_everywhere() {
    let long = "a".repeat(33);
    let mut machine = registered("h1", 10);
    machine.id = long.clone();
    let mut ctx = ActivateHost {
        user: host(),
        host: host(),
        host_machine_key: key(7),
        host_machine: machine.clone(),
    };
    assert_eq!(
        activate_host(&mut ctx, &long, 60, &config()),
        Err(DepinErrors::KeyDoesNotMatchPDA)
    );
    let mut ctx = DeactivateHost {
        user: host(),
        host: host(),
        host_machine_key: key(7),
        host_machine: machine.clone(),
    };
    assert_eq!(
        deactivate_host(&mut ctx, &long, 60, &config()),
        Err(ProgramError::Depin(DepinErrors::KeyDoesNotMatchPDA))
    );
    let mut ctx = ClaimRewards {
        host: Wallet { key: host(), lamports: 0 },
        host_machine_key: key(7),
        host_machine: machine,
        admin: admin(),
        vault_account: VaultAccount { owner: admin(), bump: 254 },
        vault_lamports: 100,
    };
    assert_eq!(
        claim_rewards(&mut ctx, &long, &config()),
        Err(ProgramError::Depin(DepinErrors::KeyDoesNotMatchPDA))
    );
}

#[test]
fn activate_fails_when_penalized() {
    let (r, machine) = penalize(registered("h1", 10), admin());
    assert_eq!(r, Ok(()));
    let (r, _) = activate(machine, host(), "h1", 60);
    assert_eq!(r, Err(DepinErrors::HostMachinePenalized));
}

#[test]
fn deactivate_pays_whole_hours_only() {
    let (_, machine) = activate(registered("h1", 7), host(), "h1", 100);
    let (r, machine) = deactivate(machine, host(), "h1", 100 + 3 * 3600 + 3599);
    assert_eq!(r, Ok(()));
    assert_eq!(machine.earned, 21);
}

#[test]
fn deactivate_within_the_first_hour_earns_nothing() {
    let (_, machine) = activate(registered("h1", 7), host(), "h1", 100);
    let (r, machine) = deactivate(machine, host(), "h1", 100 + 3599);
    assert_eq!(r, Ok(()));
    assert_eq!(machine.earned, 0);
    assert!(!machine.is_active);
}

#[test]
fn deactivate_at_the_start_time_earns_nothing() {
    let (_, machine) = activate(registered("h1", 7), host(), "h1", 100);
    let (r, machine) = deactivate(machine, host(), "h1", 100);
    assert_eq!(r, Ok(()));
    assert_eq!(machine.earned, 0);
}

#[test]
fn earnings_add_up_over_two_runs() {
    let (_, machine) = activate(registered("h1", 10), host(), "h1", 100);
    let (_, machine) = deactivate(machine, host(), "h1", 100 + 3600);
    assert_eq!(machine.earned, 10);
    let (r, machine) = activate(machine, host(), "h1", 10_000);
    assert_eq!(r, Ok(()));
    assert_eq!(machine.earned, 10);
    let (r, machine) = deactivate(machine, admin(), "h1", 10_000 + 2 * 3600);
    assert_eq!(r, Ok(()));
    assert_eq!(machine.earned, 30);
}

#[test]
fn deactivate_an_idle_machine_is_refused() {
    let before = registered("h1", 10);
    let (r, machine) = deactivate(before.clone(), host(), "h1", 100);
    assert_eq!(r, Err(ProgramError::Depin(DepinErrors::HostMachineRegistrationNotActive)));
    assert_eq!(machine, before);
}

#[test]
fn deactivate_by_a_stranger_is_refused() {
    let (_, machine) = activate(registered("h1", 10), host(), "h1", 100);
    let (r, _) = deactivate(machine, key(77), "h1", 4000);
    assert_eq!(r, Err(ProgramError::Depin(DepinErrors::UnauthorizedAdmin)));
}

#[test]
fn deactivate_for_another_host_is_refused() {
    let (_, machine) = activate(registered("h1", 10), host(), "h1", 100);
    let other = host_machine_address(&key(2), &"h1".to_string(), &config().program_id).unwrap();
    let mut ctx = DeactivateHost {
        user: admin(),
        host: key(2),
        host_machine_key: other.0,
        host_machine: machine,
    };
    let r = deactivate_host(&mut ctx, &"h1".to_string(), 4000, &config());
    assert_eq!(r, Err(ProgramError::Depin(DepinErrors::HostKeyMismatch)));
    ctx.host_machine_key = address_of("h1");
    let r = deactivate_host(&mut ctx, &"h1".to_string(), 4000, &config());
    assert_eq!(r, Err(ProgramError::Depin(DepinErrors::KeyDoesNotMatchPDA)));
    let found = Some((address_of("h1"), 9));
    let r = deactivate_host_with(&mut ctx, &"h1".to_string(), 4000, &config(), found);
    assert_eq!(r, Err(ProgramError::Depin(DepinErrors::HostKeyMismatch)));
}

#[test]
fn deactivate_on_another_id_is_refused() {
    let (_, machine) = activate(registered("h1", 10), host(), "h1", 100);
    let (r, _) = deactivate(machine, host(), "h2", 4000);
    assert_eq!(r, Err(ProgramError::Depin(DepinErrors::InvalidHostMachineRegistrationId)));
}

#[test]
fn deactivate_before_the_start_time_is_refused() {
    let (_, machine) = activate(registered("h1", 10), host(), "h1", 100);
    let (r, after) = deactivate(machine.clone(), host(), "h1", 99);
    assert_eq!(
        r,
        Err(ProgramError::Depin(DepinErrors::HostMachineRegistrationNotActiveLongEnough))
    );
    assert_eq!(after, machine);
}

#[test]
fn deactivate_without_a_positive_start_time_is_refused() {
    let (r, machine) = activate(registered("h1", 10), host(), "h1", 0);
    assert_eq!(r, Ok(()));
    let (r, _) = deactivate(machine, host(), "h1", 4000);
    assert_eq!(
        r,
        Err(ProgramError::Depin(DepinErrors::HostMachineRegistrationNotActiveLongEnough))
    );
}

#[test]
fn deactivate_refuses_a_reward_that_does_not_fit() {
    let (_, machine) = activate(registered("h1", u64::MAX), host(), "h1", 100);
    let (r, after) = deactivate(machine.clone(), host(), "h1", 100 + 2 * 3600);
    assert_eq!(r, Err(ProgramError::Rental(Errors::ArithmeticOverflow)));
    assert_eq!(after, machine);
}

#[test]
fn deactivate_refuses_a_sum_that_does_not_fit() {
    let mut machine = registered("h1", 10);
    machine.earned = u64::MAX - 5;
    let (_, machine) = activate(machine, host(), "h1", 100);
    let (r, after) = deactivate(machine.clone(), host(), "h1", 100 + 3600);
    assert_eq!(r, Err(ProgramError::Rental(Errors::ArithmeticOverflow)));
    assert_eq!(after.earned, u64::MAX - 5);
    assert!(after.is_active);
}

#[test]
fn claim_fails_if_the_vault_holds_less_than_earned() {
    let mut machine = registered("h1", 10);
    machine.earned = 20;
    let (r, ctx) = claim(machine, "h1", 3, 19);
    assert_eq!(r, Err(ProgramError::Rental(Errors::InsufficientFunds)));
    assert_eq!(ctx.vault_lamports, 19);
    assert_eq!(ctx.host.lamports, 3);
    assert_eq!(ctx.host_machine.earned, 20);
}

#[test]
fn claim_takes_the_whole_vault_when_it_holds_just_enough() {
    let mut machine = registered("h1", 10);
    machine.earned = 20;
    let (r, ctx) = claim(machine, "h1", 3, 20);
    assert_eq!(r, Ok(()));
    assert_eq!(ctx.vault_lamports, 0);
    assert_eq!(ctx.host.lamports, 23);
}

#[test]
fn claim_of_nothing_moves_nothing() {
    let (r, ctx) = claim(registered("h1", 10), "h1", 3, 0);
    assert_eq!(r, Ok(()));
    assert_eq!(ctx.vault_lamports, 0);
    assert_eq!(ctx.host.lamports, 3);
}

#[test]
fn claim_while_running_is_refused() {
    let mut machine = registered("h1", 10);
    machine.earned = 20;
    let (_, machine) = activate(machine, host(), "h1", 100);
    let (r, ctx) = claim(machine, "h1", 0, 100);
    assert_eq!(
        r,
        Err(ProgramError::Depin(DepinErrors::HostMachineShouldNotBeActiveForClaiming))
    );
    assert_eq!(ctx.vault_lamports, 100);
}

#[test]
fn claim_when_penalized_is_refused() {
    let (_, machine) = penalize(registered("h1", 10), admin());
    let (r, _) = claim(machine, "h1", 0, 100);
    assert_eq!(r, Err(ProgramError::Depin(DepinErrors::HostMachinePenalized)));
}

#[test]
fn claim_on_another_id_is_refused() {
    let (r, _) = claim(registered("h1", 10), "h2", 0, 100);
    assert_eq!(r, Err(ProgramError::Depin(DepinErrors::InvalidHostMachineRegistrationId)));
}

#[test]
fn claim_by_another_host_is_refused() {
    let other = host_machine_address(&key(2), &"h1".to_string(), &config().program_id).unwrap();
    let mut ctx = ClaimRewards {
        host: Wallet { key: key(2), lamports: 0 },
        host_machine_key: other.0,
        host_machine: registered("h1", 10),
        admin: admin(),
        vault_account: VaultAccount { owner: admin(), bump: 254 },
        vault_lamports: 100,
    };
    let r = claim_rewards(&mut ctx, &"h1".to_string(), &config());
    assert_eq!(r, Err(ProgramError::Depin(DepinErrors::HostKeyMismatch)));
    ctx.host_machine_key = address_of("h1");
    let r = claim_rewards(&mut ctx, &"h1".to_string(), &config());
    assert_eq!(r, Err(ProgramError::Depin(DepinErrors::KeyDoesNotMatchPDA)));
    let r = claim_rewards_with(&mut ctx, &"h1".to_string(), None);
    assert_eq!(r, Err(ProgramError::Depin(DepinErrors::KeyDoesNotMatchPDA)));
    assert_eq!(ctx.vault_lamports, 100);
}

#[test]
fn claim_from_a_vault_of_another_owner_is_refused() {
    let mut ctx = ClaimRewards {
        host: Wallet { key: host(), lamports: 0 },
        host_machine_key: address_of("h1"),
        host_machine: registered("h1", 10),
        admin: admin(),
        vault_account: VaultAccount { owner: key(3), bump: 254 },
        vault_lamports: 100,
    };
    let r = claim_rewards(&mut ctx, &"h1".to_string(), &config());
    assert_eq!(r, Err(ProgramError::Rental(Errors::Unauthorized)));
}

#[test]
fn claim_refuses_a_balance_that_does_not_fit() {
    let mut machine = registered("h1", 10);
    machine.earned = 20;
    let (r, ctx) = claim(machine, "h1", u64::MAX - 19, 100);
    assert_eq!(r, Err(ProgramError::Rental(Errors::ArithmeticOverflow)));
    assert_eq!(ctx.vault_lamports, 100);
    assert_eq!(ctx.host_machine.earned, 20);
}

#[test]
fn penalize_is_for_the_authority_only() {
    let before = registered("h1", 10);
    let (r, machine) = penalize(before.clone(), host());
    assert_eq!(r, Err(DepinErrors::UnauthorizedAdmin));
    assert_eq!(machine, before);
}

#[test]
fn penalize_stops_the_machine_and_forfeits_what_it_earned() {
    let mut machine = registered("h1", 10);
    machine.earned = 55;
    let (_, machine) = activate(machine, host(), "h1", 100);
    let (r, machine) = penalize(machine, admin());
    assert_eq!(r, Ok(()));
    assert_eq!(machine.earned, 0);
    assert_eq!(machine.started_at, 0);
    assert!(!machine.is_active);
    assert!(machine.penalized);
    assert_eq!(machine.id, "h1");
    assert_eq!(machine.sol_per_hour, 10);
}

#[test]
fn penalize_is_sticky_whatever_follows() {
    let (_, machine) = penalize(registered("h1", 10), admin());
    let (r, machine) = deactivate(machine, host(), "h1", 5000);
    assert!(r.is_err());
    let (r, ctx) = claim(machine, "h1", 0, 100);
    assert!(r.is_err());
    let (r, machine) = penalize(ctx.host_machine, admin());
    assert_eq!(r, Ok(()));
    let (r, machine) = activate(machine, host(), "h1", 6000);
    assert_eq!(r, Err(DepinErrors::HostMachinePenalized));
    let (r, machine) = activate(machine, admin(), "h1", 7000);
    assert_eq!(r, Err(DepinErrors::HostMachinePenalized));
    assert!(machine.penalized);
    assert!(!machine.is_active);
}

#[test]
fn failures_fall_into_their_families() {
    assert_eq!(DepinErrors::UnauthorizedAdmin.kind(), ErrorKind::Authorization);
    assert_eq!(DepinErrors::UnauthorizedHostMachineAccess.kind(), ErrorKind::Authorization);
    assert_eq!(DepinErrors::HostKeyMismatch.kind(), ErrorKind::IdentityMismatch);
    assert_eq!(DepinErrors::KeyDoesNotMatchPDA.kind(), ErrorKind::IdentityMismatch);
    assert_eq!(DepinErrors::InvalidHostMachineRegistrationId.kind(), ErrorKind::IdentityMismatch);
    assert_eq!(DepinErrors::InvalidHostMachineRegistrationData.kind(), ErrorKind::IdentityMismatch);
    assert_eq!(DepinErrors::InvalidHostMachineRegistrationDiskSize.kind(), ErrorKind::Funds);
    assert_eq!(DepinErrors::HostMachinePenalized.kind(), ErrorKind::State);
    assert_eq!(DepinErrors::HostMachineRegistrationAlreadyExists.kind(), ErrorKind::State);
    assert_eq!(DepinErrors::HostMachineAlreadyStarted.kind(), ErrorKind::State);
    assert_eq!(DepinErrors::HostMachineRegistrationNotActive.kind(), ErrorKind::State);
    assert_eq!(
        DepinErrors::HostMachineRegistrationNotActiveLongEnough.kind(),
        ErrorKind::State
    );
    assert_eq!(Errors::Unauthorized.kind(), ErrorKind::Authorization);
    assert_eq!(Errors::InvalidAmount.kind(), ErrorKind::Funds);
    assert_eq!(Errors::InsufficientFunds.kind(), ErrorKind::Funds);
    assert_eq!(Errors::ArithmeticOverflow.kind(), ErrorKind::Arithmetic);
    assert_eq!(Errors::InvalidEscrowAccount.kind(), ErrorKind::IdentityMismatch);
    assert_eq!(Errors::EscrowNotFound.kind(), ErrorKind::IdentityMismatch);
    assert_eq!(Errors::AlreadyActive.kind(), ErrorKind::State);
    assert_eq!(Errors::NotActive.kind(), ErrorKind::State);
    assert_eq!(Errors::EscrowNotActive.kind(), ErrorKind::State);
    assert_eq!(Errors::RentalExpired.kind(), ErrorKind::State);
    assert_eq!(
        ProgramError::Rental(Errors::InsufficientFunds).kind(),
        ErrorKind::Funds
    );
    assert_eq!(
        ProgramError::Depin(DepinErrors::HostMachinePenalized).kind(),
        ErrorKind::State
    );
}

//! The host registration: one hosted machine and what it has earned.

use vstd::prelude::*;
use vstd::utf8::encode_utf8;
use crate::identity::Identity;

verus! {

/// The record of a hosted machine.
#[derive(Clone, Debug, PartialEq, Eq)]
pub struct HostMachineRegistration {
    pub is_active: bool,
    pub host_key: Identity,
    pub host_name: String,
    pub machine_type: String,
    pub os: String,
    pub disk_size: u64,
    pub bump: u8,
    pub id: String,
    pub earned: u64,
    pub started_at: i64,
    pub penalized: bool,
    pub sol_per_hour: u64,
}

/// What a host registration record says.
pub struct HostMachineRegistrationView {
    pub is_active: bool,
    pub host_key: Seq<u8>,
    pub host_name: Seq<char>,
    pub machine_type: Seq<char>,
    pub os: Seq<char>,
    pub disk_size: u64,
    pub bump: u8,
    pub id: Seq<char>,
    pub earned: u64,
    pub started_at: i64,
    pub penalized: bool,
    pub sol_per_hour: u64,
}

impl View for HostMachineRegistration {
    type V = HostMachineRegistrationView;

    open spec fn view(&self) -> HostMachineRegistrationView {
        HostMachineRegistrationView {
            is_active: self.is_active,
            host_key: self.host_key@,
            host_name: self.host_name@,
            machine_type: self.machine_type@,
            os: self.os@,
            disk_size: self.disk_size,
            bump: self.bump,
            id: self.id@,
            earned: self.earned,
            started_at: self.started_at,
            penalized: self.penalized,
            sol_per_hour: self.sol_per_hour,
        }
    }
}

impl HostMachineRegistrationView {
    /// The id of a registered machine has at most 32 bytes and its disk is
    /// not empty; it is active exactly while it has a start time; and a
    /// penalized machine is neither active nor started.
    pub open spec fn wf(self) -> bool {
        &&& encode_utf8(self.id).len() <= 32
        &&& self.disk_size > 0
        &&& (self.started_at == 0 <==> !self.is_active)
        &&& (self.penalized ==> !self.is_active && self.started_at == 0)
    }

    /// The reward for `elapsed` seconds of activity: the hourly rate for each
    /// whole hour.
    pub open spec fn reward(self, elapsed: int) -> int {
        (elapsed / 3600) * self.sol_per_hour
    }

    /// The record once the machine is started at `now`.
    pub open spec fn activated(self, now: i64) -> HostMachineRegistrationView {
        HostMachineRegistrationView { is_active: true, started_at: now, ..self }
    }

    /// The record once the machine is stopped at `now` and its reward accrued.
    pub open spec fn deactivated(self, now: i64) -> HostMachineRegistrationView
        recommends
            self.earned + self.reward(now - self.started_at) <= u64::MAX,
    {
        HostMachineRegistrationView {
            is_active: false,
            started_at: 0,
            earned: (self.earned + self.reward(now - self.started_at)) as u64,
            ..self
        }
    }

    /// The record once what it earned is paid out.
    pub open spec fn claimed(self) -> HostMachineRegistrationView {
        HostMachineRegistrationView { earned: 0, ..self }
    }

    /// The record once the machine is penalized: stopped for good, earnings forfeited.
    pub open spec fn forfeited(self) -> HostMachineRegistrationView {
        HostMachineRegistrationView {
            earned: 0,
            is_active: false,
            started_at: 0,
            penalized: true,
            ..self
        }
    }
}

impl HostMachineRegistration {
    /// A record that holds no machine yet: it becomes one by registration.
    pub fn new() -> (r: HostMachineRegistration)
        ensures
            r@ == (HostMachineRegistrationView {
                is_active: false,
                host_key: Identity::zero(),
                host_name: Seq::<char>::empty(),
                machine_type: Seq::<char>::empty(),
                os: Seq::<char>::empty(),
                disk_size: 0,
                bump: 0,
                id: Seq::<char>::empty(),
                earned: 0,
                started_at: 0,
                penalized: false,
                sol_per_hour: 0,
            }),
    {
        HostMachineRegistration {
            is_active: false,
            host_key: Identity::default(),
            host_name: String::new(),
            machine_type: String::new(),
            os: String::new(),
            disk_size: 0,
            bump: 0,
            id: String::new(),
            earned: 0,
            started_at: 0,
            penalized: false,
            sol_per_hour: 0,
        }
    }
}

} // verus!

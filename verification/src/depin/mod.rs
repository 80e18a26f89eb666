//! The life of a host registration: register, activate, deactivate, claim, penalize.

pub mod initialise_host_registration;
pub mod activate_host;
pub mod deactivate_host;
pub mod claim_rewards;
pub mod penalize_host;
pub mod laws;

pub use initialise_host_registration::{
    initialise_host_registration, initialise_host_registration_with, InitialiseHostRegistration,
};
pub use activate_host::{activate_host, activate_host_with, ActivateHost};
pub use deactivate_host::{deactivate_host, deactivate_host_with, DeactivateHost};
pub use claim_rewards::{claim_rewards, claim_rewards_with, ClaimRewards};
pub use penalize_host::{penalize_host, PenalizeHost};

//! The stored records: vault, rental session, escrow session, host registration.

pub mod vault_account;
pub mod rental_session;
pub mod escrow_session;
pub mod host_machine_registration;

pub use vault_account::{VaultAccount, VaultAccountView};
pub use rental_session::{RentalSession, RentalSessionView};
pub use escrow_session::{EscrowSession, EscrowSessionView};
pub use host_machine_registration::{HostMachineRegistration, HostMachineRegistrationView};

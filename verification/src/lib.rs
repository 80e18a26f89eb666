//! Custody, rental and host-reward rules of a compute rental marketplace.
//!
//! Renters pay for leases either up front into the vault or step by step
//! into an escrow; hosts earn an hourly rate while their machines run and
//! are paid out of the vault. Every operation is a total function from the
//! records and balances it is handed, one clock reading and its arguments to
//! either the updated records and balances or one coded failure that leaves
//! everything as it was.

pub mod identity;
pub mod address;
pub mod errors;
pub mod funds;
pub mod state;
pub mod instructions;
pub mod depin;

pub use identity::{Identity, ProgramConfig};
pub use errors::{DepinErrors, ErrorKind, Errors, ProgramError};
pub use funds::{transfer, Settlement, Wallet};
pub use state::{EscrowSession, HostMachineRegistration, RentalSession, VaultAccount};
pub use instructions::{
    disburse, end_rental_session, finalize_rental_escrow, finalize_rental_escrow_with,
    force_terminate_rental, force_terminate_rental_with, fund_vault, initialize_vault,
    initialize_vault_with, start_rental_with_escrow, start_rental_with_escrow_with,
    top_up_escrow, top_up_escrow_with, transfer_from_vault, transfer_to_vault_and_rent,
    transfer_to_vault_and_rent_with, withdraw_funds, EndRentalSession, EscrowAddresses,
    FinalizeRentalEscrow, ForceTerminateRental, FundVault, InitializeVault,
    StartRentalWithEscrow, TopUpEscrow, TransferFromVault, TransferToVaultAndRent,
    WithdrawFunds,
};
pub use depin::{
    activate_host, activate_host_with, claim_rewards, claim_rewards_with, deactivate_host,
    deactivate_host_with, initialise_host_registration, initialise_host_registration_with,
    penalize_host, ActivateHost, ClaimRewards, DeactivateHost, InitialiseHostRegistration,
    PenalizeHost,
};

//! The vault, the lease paid up front and the lease backed by an escrow.

pub mod initialize_vault;
pub mod fund_vault;
pub mod withdraw_funds;
pub mod disburse;
pub mod transfer_to_vault_and_rent;
pub mod transfer_from_vault;
pub mod end_rental_session;
pub mod start_rental_with_escrow;
pub mod top_up_escrow;
pub mod finalize_rental_escrow;
pub mod force_terminate_rental;

pub use initialize_vault::{initialize_vault, initialize_vault_with, InitializeVault};
pub use fund_vault::{fund_vault, FundVault};
pub use withdraw_funds::{withdraw_funds, WithdrawFunds};
pub use disburse::disburse;
pub use transfer_to_vault_and_rent::{
    transfer_to_vault_and_rent, transfer_to_vault_and_rent_with, TransferToVaultAndRent,
};
pub use transfer_from_vault::{transfer_from_vault, TransferFromVault};
pub use end_rental_session::{end_rental_session, EndRentalSession};
pub use start_rental_with_escrow::{
    start_rental_with_escrow, start_rental_with_escrow_with, EscrowAddresses,
    StartRentalWithEscrow,
};
pub use top_up_escrow::{top_up_escrow, top_up_escrow_with, TopUpEscrow};
pub use finalize_rental_escrow::{
    finalize_rental_escrow, finalize_rental_escrow_with, FinalizeRentalEscrow,
};
pub use force_terminate_rental::{
    force_terminate_rental, force_terminate_rental_with, ForceTerminateRental,
};

//! The coded reasons for which an operation fails, and their five families.

use vstd::prelude::*;

verus! {

/// Why a vault, rental or escrow operation failed.
#[derive(Clone, Copy, Debug, PartialEq, Eq, Structural)]
pub enum Errors {
    /// Unauthorized access to vault account.
    Unauthorized,
    /// Invalid amount specified for transfer.
    InvalidAmount,
    /// Vault account not initialized.
    VaultNotInitialized,
    /// Insufficient funds in vault account.
    InsufficientFunds,
    /// Rental session has expired.
    RentalExpired,
    /// Invalid duration specified.
    InvalidDuration,
    /// Rental session is already active.
    AlreadyActive,
    /// Escrow session not found.
    EscrowNotFound,
    /// Escrow session already exists.
    EscrowAlreadyExists,
    /// Invalid escrow account.
    InvalidEscrowAccount,
    /// Escrow session is not active.
    EscrowNotActive,
    /// Rental session is not active.
    NotActive,
    /// Arithmetic overflow occurred during operation.
    ArithmeticOverflow,
}

/// Why a host registration operation failed.
#[derive(Clone, Copy, Debug, PartialEq, Eq, Structural)]
pub enum DepinErrors {
    /// Host machine registration not found.
    HostMachineRegistrationNotFound,
    /// Host machine registration already exists.
    HostMachineRegistrationAlreadyExists,
    /// Invalid host machine registration data.
    InvalidHostMachineRegistrationData,
    /// Unauthorized access to host machine registration.
    UnauthorizedHostMachineAccess,
    /// Host machine registration is not active.
    HostMachineRegistrationNotActive,
    /// Host machine registration ID is invalid.
    InvalidHostMachineRegistrationId,
    /// Host machine registration OS is invalid.
    InvalidHostMachineRegistrationOS,
    /// Host machine registration disk size is invalid.
    InvalidHostMachineRegistrationDiskSize,
    /// Host machine registration name is invalid.
    InvalidHostMachineRegistrationName,
    /// Key does not match with the derived address.
    KeyDoesNotMatchPDA,
    /// Unauthorized admin access.
    UnauthorizedAdmin,
    /// Host key mismatch.
    HostKeyMismatch,
    /// Host machine registration not active long enough.
    HostMachineRegistrationNotActiveLongEnough,
    /// Host machine already started.
    HostMachineAlreadyStarted,
    /// Host machine registration not found for the given ID.
    HostMachineRegistrationNotFoundForId,
    /// Host machine penalized.
    HostMachinePenalized,
    /// Host machine should not be active for claiming earned rewards.
    HostMachineShouldNotBeActiveForClaiming,
}

/// A failure of an operation that touches both a host registration and the vault.
#[derive(Clone, Copy, Debug, PartialEq, Eq, Structural)]
pub enum ProgramError {
    /// The vault or a balance refused the operation.
    Rental(Errors),
    /// The host registration refused the operation.
    Depin(DepinErrors),
}

/// The five families of failure.
#[derive(Clone, Copy, Debug, PartialEq, Eq, Structural)]
pub enum ErrorKind {
    /// Wrong signer, not the administrative authority, not the owner.
    Authorization,
    /// The record is not in the state that the operation needs.
    State,
    /// An id, an identity or a derived address is not the expected one.
    IdentityMismatch,
    /// A quantity that must be positive is not, or a balance is too small.
    Funds,
    /// A sum or a product does not fit.
    Arithmetic,
}

/// What an operation's result says of its failure: the reason, or `None` on success.
pub open spec fn failure<T, E>(r: Result<T, E>) -> Option<E> {
    match r {
        Ok(_) => None,
        Err(e) => Some(e),
    }
}

impl Errors {
    /// The family of this failure.
    pub open spec fn spec_kind(self) -> ErrorKind {
        match self {
            Errors::Unauthorized => ErrorKind::Authorization,
            Errors::InvalidAmount | Errors::InsufficientFunds => ErrorKind::Funds,
            Errors::ArithmeticOverflow => ErrorKind::Arithmetic,
            Errors::EscrowNotFound | Errors::InvalidEscrowAccount => ErrorKind::IdentityMismatch,
            Errors::VaultNotInitialized
            | Errors::RentalExpired
            | Errors::InvalidDuration
            | Errors::AlreadyActive
            | Errors::EscrowAlreadyExists
            | Errors::EscrowNotActive
            | Errors::NotActive => ErrorKind::State,
        }
    }

    /// The family of this failure.
    pub fn kind(&self) -> (k: ErrorKind)
        ensures
            k == self.spec_kind(),
    {
        match self {
            Errors::Unauthorized => ErrorKind::Authorization,
            Errors::InvalidAmount | Errors::InsufficientFunds => ErrorKind::Funds,
            Errors::ArithmeticOverflow => ErrorKind::Arithmetic,
            Errors::EscrowNotFound | Errors::InvalidEscrowAccount => ErrorKind::IdentityMismatch,
            _ => ErrorKind::State,
        }
    }
}

impl DepinErrors {
    /// The family of this failure. A host registration never fails on arithmetic.
    pub open spec fn spec_kind(self) -> ErrorKind {
        match self {
            DepinErrors::UnauthorizedHostMachineAccess | DepinErrors::UnauthorizedAdmin => {
                ErrorKind::Authorization
            },
            DepinErrors::InvalidHostMachineRegistrationDiskSize => ErrorKind::Funds,
            DepinErrors::InvalidHostMachineRegistrationData
            | DepinErrors::InvalidHostMachineRegistrationId
            | DepinErrors::InvalidHostMachineRegistrationOS
            | DepinErrors::InvalidHostMachineRegistrationName
            | DepinErrors::KeyDoesNotMatchPDA
            | DepinErrors::HostKeyMismatch => ErrorKind::IdentityMismatch,
            DepinErrors::HostMachineRegistrationNotFound
            | DepinErrors::HostMachineRegistrationAlreadyExists
            | DepinErrors::HostMachineRegistrationNotActive
            | DepinErrors::HostMachineRegistrationNotActiveLongEnough
            | DepinErrors::HostMachineAlreadyStarted
            | DepinErrors::HostMachineRegistrationNotFoundForId
            | DepinErrors::HostMachinePenalized
            | DepinErrors::HostMachineShouldNotBeActiveForClaiming => ErrorKind::State,
        }
    }

    /// The family of this failure.
    pub fn kind(&self) -> (k: ErrorKind)
        ensures
            k == self.spec_kind(),
    {
        match self {
            DepinErrors::UnauthorizedHostMachineAccess | DepinErrors::UnauthorizedAdmin => {
                ErrorKind::Authorization
            },
            DepinErrors::InvalidHostMachineRegistrationDiskSize => ErrorKind::Funds,
            DepinErrors::InvalidHostMachineRegistrationData
            | DepinErrors::InvalidHostMachineRegistrationId
            | DepinErrors::InvalidHostMachineRegistrationOS
            | DepinErrors::InvalidHostMachineRegistrationName
            | DepinErrors::KeyDoesNotMatchPDA
            | DepinErrors::HostKeyMismatch => ErrorKind::IdentityMismatch,
            _ => ErrorKind::State,
        }
    }
}

impl ProgramError {
    /// The family of this failure: that of the reason it carries.
    pub open spec fn spec_kind(self) -> ErrorKind {
        match self {
            ProgramError::Rental(e) => e.spec_kind(),
            ProgramError::Depin(e) => e.spec_kind(),
        }
    }

    /// The family of this failure: that of the reason it carries.
    pub fn kind(&self) -> (k: ErrorKind)
        ensures
            k == self.spec_kind(),
    {
        match self {
            ProgramError::Rental(e) => e.kind(),
            ProgramError::Depin(e) => e.kind(),
        }
    }
}

} // verus!

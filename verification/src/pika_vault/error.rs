//! The errors of the Pika Vault program.
use vstd::prelude::*;

verus! {

/// The program's generic error.
#[derive(PartialEq, Eq, Structural, Clone, Copy, Debug)]
pub enum ErrorCode {
    CustomError,
}

/// Errors about the marketplace.
#[derive(PartialEq, Eq, Structural, Clone, Copy, Debug)]
pub enum MarketplaceError {
    NameTooLong,
    Verify,
}

/// Errors about listings and their escrows.
#[derive(PartialEq, Eq, Structural, Clone, Copy, Debug)]
pub enum ListingError {
    ListingNotActive,
    InsufficientFunds,
    EscrowCreationFailed,
    ListingNotSold,
    UnauthorizedRefund,
    EscrowAlreadyReleased,
}

/// Why an instruction of the program fails.
#[derive(PartialEq, Eq, Structural, Clone, Copy, Debug)]
pub enum InstructionError {
    /// An account constraint without an error of its own does not hold.
    ConstraintRaw,
    /// An account's new state does not fit in the account's space.
    AccountDidNotSerialize,
    /// A listing error.
    Listing(ListingError),
}

} // verus!

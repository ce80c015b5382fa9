//! What an operation can fail with.

use vstd::prelude::*;

verus! {

/// Why a movement of tokens between two accounts was refused.
#[derive(Clone, Copy, Debug, PartialEq, Eq, Structural)]
pub enum TransferError {
    /// The source holds less than the amount.
    InsufficientFunds,
    /// The authorizer does not own the source account.
    OwnerMismatch,
    /// The destination's balance would exceed 64 bits.
    Overflow,
}

/// Why a registry operation was refused. A refused operation changes nothing.
#[derive(Clone, Copy, Debug, PartialEq, Eq, Structural)]
pub enum AethernetError {
    /// The URI is longer than 256 bytes.
    UriTooLong,
    /// The caller is not the authority that owns the record.
    Unauthorized,
    /// No record exists under the given identity.
    NotFound,
    /// The authority's token account holds less than the stake.
    InsufficientBalance,
    /// The escrow transfer failed for another reason.
    TransferFailed,
    /// The network singleton exists already.
    AlreadyInitialized,
}

impl AethernetError {
    /// The error that a registration gives for a failed transfer.
    pub open spec fn of_transfer(e: TransferError) -> AethernetError {
        match e {
            TransferError::InsufficientFunds => AethernetError::InsufficientBalance,
            TransferError::OwnerMismatch => AethernetError::TransferFailed,
            TransferError::Overflow => AethernetError::TransferFailed,
        }
    }

    /// The error that a registration gives for a failed transfer: a
    /// shortfall in the source is `InsufficientBalance`, anything else
    /// `TransferFailed`.
    pub fn from_transfer(e: TransferError) -> (err: AethernetError)
        ensures
            err == Self::of_transfer(e),
    {
        match e {
            TransferError::InsufficientFunds => AethernetError::InsufficientBalance,
            TransferError::OwnerMismatch => AethernetError::TransferFailed,
            TransferError::Overflow => AethernetError::TransferFailed,
        }
    }

    /// The message shown for this error.
    pub fn message(&self) -> (text: &'static str)
        ensures
            text@ == Self::message_of(*self)@,
    {
        match self {
            AethernetError::UriTooLong => "The provided URI is too long.",
            AethernetError::Unauthorized => "The caller is not the record's authority.",
            AethernetError::NotFound => "No record exists under this identity.",
            AethernetError::InsufficientBalance => "The token balance is below the stake.",
            AethernetError::TransferFailed => "The escrow transfer failed.",
            AethernetError::AlreadyInitialized => "The network is already initialized.",
        }
    }

    /// The text that `message` returns for each error.
    pub open spec fn message_of(e: AethernetError) -> &'static str {
        match e {
            AethernetError::UriTooLong => "The provided URI is too long.",
            AethernetError::Unauthorized => "The caller is not the record's authority.",
            AethernetError::NotFound => "No record exists under this identity.",
            AethernetError::InsufficientBalance => "The token balance is below the stake.",
            AethernetError::TransferFailed => "The escrow transfer failed.",
            AethernetError::AlreadyInitialized => "The network is already initialized.",
        }
    }
}

} // verus!

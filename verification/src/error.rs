//! The errors with which an operation stops.

use vstd::prelude::*;

verus! {

/// Why an operation was refused. Every error is final: nothing is retried.
#[derive(Clone, Copy, Debug, PartialEq, Eq, Structural)]
pub enum ProgramError {
    /// An account that had to sign the transaction did not.
    MissingRequiredSignature,
    /// An account is owned by a program other than the one its kind demands.
    IllegalOwner,
    /// An account is not the one this program owns or derives.
    InvalidAccountOwner,
    /// An account's data has the wrong size or the wrong type tag.
    InvalidAccountData,
    /// An address is not the one derived for its role.
    InvalidArgument,
    /// An account that had to be empty already holds data.
    AccountAlreadyInitialized,
    /// Fewer (or more) accounts were supplied than the operation takes.
    NotEnoughAccountKeys,
    /// The instruction bytes are malformed.
    InvalidInstructionData,
    /// The seeds derive no valid address.
    InvalidSeeds,
    /// There are too many seeds, or one of them is too long.
    MaxSeedLengthExceeded,
    /// A balance would exceed what 64 bits hold.
    ArithmeticOverflow,
}

impl ProgramError {
    /// Whether this is one of the errors with which an operation on an escrow
    /// stops. The errors of a derivation and of a sum are not: an operation
    /// answers them with one of these.
    pub open spec fn ends_an_operation(self) -> bool {
        self is MissingRequiredSignature || self is IllegalOwner || self is InvalidAccountOwner
            || self is InvalidAccountData || self is InvalidArgument || self is AccountAlreadyInitialized
            || self is NotEnoughAccountKeys || self is InvalidInstructionData
    }
}

} // verus!

//! The ways in which an operation is turned down.

use vstd::prelude::*;

verus! {

/// Why an operation was rejected. A rejected operation changes nothing, and
/// submitting it again unchanged is rejected again.
#[derive(Clone, Copy, Debug, PartialEq, Eq, Structural)]
pub enum ChainferenceError {
    /// The locking provider does not list the requested model.
    ModelNotProvided,
    /// The request is not open to be locked or cancelled.
    RequestAlreadyLocked,
    /// The claimer is not the provider that holds the lock.
    ClaimingNonLockedRequest,
    /// The claim is larger than what the request may still cost.
    ClaimTooLarge,
    /// A registration holds more listings than a registry may.
    TooManyListings,
    /// The caller is not the party that the record belongs to.
    NotOwner,
    /// An amount is zero where a positive one is needed.
    InvalidAmount,
    /// The paying balance does not cover the transfer.
    InsufficientFunds,
}

impl ChainferenceError {
    /// The text shown to the caller for this error.
    pub open spec fn spec_message(self) -> Seq<char> {
        match self {
            ChainferenceError::ModelNotProvided =>
                "Server locking inference request does not provide requested model."@,
            ChainferenceError::RequestAlreadyLocked =>
                "Inference request has already been locked."@,
            ChainferenceError::ClaimingNonLockedRequest =>
                "Trying to claim payment from inference request that hasn't previously been locked by claimer."@,
            ChainferenceError::ClaimTooLarge =>
                "Payment claim exceeds max cost of inference request."@,
            ChainferenceError::TooManyListings =>
                "Server registers more model listings than a server may hold."@,
            ChainferenceError::NotOwner => "Caller does not own the account."@,
            ChainferenceError::InvalidAmount => "Amount must be greater than zero."@,
            ChainferenceError::InsufficientFunds =>
                "Balance does not cover the transfer."@,
        }
    }

    /// The text shown to the caller for this error.
    pub fn message(&self) -> (text: String)
        ensures
            text@ == self.spec_message(),
    {
        let text: &str = match self {
            ChainferenceError::ModelNotProvided =>
                "Server locking inference request does not provide requested model.",
            ChainferenceError::RequestAlreadyLocked =>
                "Inference request has already been locked.",
            ChainferenceError::ClaimingNonLockedRequest =>
                "Trying to claim payment from inference request that hasn't previously been locked by claimer.",
            ChainferenceError::ClaimTooLarge =>
                "Payment claim exceeds max cost of inference request.",
            ChainferenceError::TooManyListings =>
                "Server registers more model listings than a server may hold.",
            ChainferenceError::NotOwner => "Caller does not own the account.",
            ChainferenceError::InvalidAmount => "Amount must be greater than zero.",
            ChainferenceError::InsufficientFunds => "Balance does not cover the transfer.",
        };
        text.to_owned()
    }
}

} // verus!

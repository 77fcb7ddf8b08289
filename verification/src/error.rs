//! The ways in which an operation is refused.

use vstd::prelude::*;

verus! {

/// A rule of the subscription program that a request broke.
#[derive(Clone, Copy, Debug, PartialEq, Eq, Structural)]
pub enum SubscriptionError {
    /// A price of zero was offered.
    PriceTooLow,
    /// The pricing record exists already.
    ConfigAlreadyInitialized,
    /// Reserved: no operation reports it.
    PausedSubscription,
    /// The subscription is paused already.
    AlreadyPausedSubscription,
    /// The subscription has run out.
    ExpiredSubscription,
    /// The subscription is not paused.
    NotPausedSubscription,
    /// The payee is not the creator that the pricing record names.
    InvalidCreator,
}

impl SubscriptionError {
    /// The text that goes with each kind.
    pub open spec fn message_text(self) -> Seq<char> {
        match self {
            SubscriptionError::PriceTooLow => "Price is too low"@,
            SubscriptionError::ConfigAlreadyInitialized => "Config already initialized"@,
            SubscriptionError::PausedSubscription => "Subscription paused"@,
            SubscriptionError::AlreadyPausedSubscription => "Subscription already paused"@,
            SubscriptionError::ExpiredSubscription => "Subscription expired"@,
            SubscriptionError::NotPausedSubscription => "Subscription is not paused"@,
            SubscriptionError::InvalidCreator => "Invalid creator"@,
        }
    }

    /// A short description for people.
    pub fn message(&self) -> (text: &'static str)
        ensures
            text@ == self.message_text(),
    {
        match self {
            SubscriptionError::PriceTooLow => "Price is too low",
            SubscriptionError::ConfigAlreadyInitialized => "Config already initialized",
            SubscriptionError::PausedSubscription => "Subscription paused",
            SubscriptionError::AlreadyPausedSubscription => "Subscription already paused",
            SubscriptionError::ExpiredSubscription => "Subscription expired",
            SubscriptionError::NotPausedSubscription => "Subscription is not paused",
            SubscriptionError::InvalidCreator => "Invalid creator",
        }
    }
}

/// Why an operation did nothing. Every refusal leaves all records as they
/// were.
#[derive(Clone, Copy, Debug, PartialEq, Eq, Structural)]
pub enum OperationError {
    /// A rule of the program was broken.
    Program(SubscriptionError),
    /// A record that the operation works on does not exist.
    RecordMissing,
    /// The record that the operation would create exists already.
    RecordExists,
    /// The caller is not the owner that the record names.
    Unauthorized,
    /// The new end of the subscription does not fit in a timestamp.
    TimestampOverflow,
}

} // verus!

//! The record of one subscriber, and the tiers on offer.

use vstd::prelude::*;
use crate::identity::Identity;

verus! {

/// The seed from which, with the subscriber's identity, the place of a
/// subscription record is derived.
pub const SUBSCRIPTION_SEED: &'static str = "SUBSCRIPTION_SEED";

/// Thirty days, in seconds.
pub const MONTH_SECONDS: i64 = 2_592_000;

/// Ninety days, in seconds.
pub const QUARTAL_SECONDS: i64 = 7_776_000;

/// Three hundred and sixty-five days, in seconds.
pub const ANNUAL_SECONDS: i64 = 31_536_000;

/// A tier: how long a payment lasts.
#[derive(Clone, Copy, Debug, PartialEq, Eq, Structural)]
pub enum SubscriptionType {
    Month,
    Quartal,
    Annual,
}

impl SubscriptionType {
    /// The length of the tier in seconds.
    pub open spec fn duration_seconds(self) -> int {
        match self {
            SubscriptionType::Month => 2_592_000,
            SubscriptionType::Quartal => 7_776_000,
            SubscriptionType::Annual => 31_536_000,
        }
    }

    /// The number under which the tier travels: 0, 1 or 2.
    pub open spec fn index_of(self) -> int {
        match self {
            SubscriptionType::Month => 0,
            SubscriptionType::Quartal => 1,
            SubscriptionType::Annual => 2,
        }
    }

    /// The length of the tier in seconds.
    pub fn get_duration_seconds(&self) -> (seconds: i64)
        ensures
            seconds == self.duration_seconds(),
            seconds > 0,
    {
        match self {
            SubscriptionType::Month => MONTH_SECONDS,
            SubscriptionType::Quartal => QUARTAL_SECONDS,
            SubscriptionType::Annual => ANNUAL_SECONDS,
        }
    }

    /// The number under which the tier travels.
    pub fn index(&self) -> (n: u8)
        ensures
            n == self.index_of(),
    {
        match self {
            SubscriptionType::Month => 0,
            SubscriptionType::Quartal => 1,
            SubscriptionType::Annual => 2,
        }
    }

    /// The tier that travels under `n`, if there is one.
    pub fn from_index(n: u8) -> (tier: Option<SubscriptionType>)
        ensures
            n > 2 <==> tier is None,
            tier matches Some(t) ==> t.index_of() == n,
    {
        if n == 0 {
            Some(SubscriptionType::Month)
        } else if n == 1 {
            Some(SubscriptionType::Quartal)
        } else if n == 2 {
            Some(SubscriptionType::Annual)
        } else {
            None
        }
    }
}

/// What is kept for one subscriber.
///
/// `paused_at` is 0 while the subscription runs; a pause writes the time of
/// the pause there. Whether a subscription has run out is not kept: it is
/// asked of `end_timestamp` and the time of the request.
#[derive(Clone, Copy, Debug, PartialEq, Eq)]
pub struct Subscription {
    pub subscriber: Identity,
    pub paused_at: i64,
    pub typ: SubscriptionType,
    pub end_timestamp: i64,
    pub bump: u8,
}

impl Subscription {
    /// The subscription has run out at `now`.
    pub open spec fn expired_at(self, now: i64) -> bool {
        self.end_timestamp <= now
    }

    /// Whether the subscription has run out at `now`.
    pub fn is_expired(&self, now: i64) -> (expired: bool)
        ensures
            expired == self.expired_at(now),
    {
        self.end_timestamp <= now
    }
}

} // verus!

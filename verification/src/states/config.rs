//! The creator's pricing record.

use vstd::prelude::*;
use crate::identity::Identity;
use crate::states::subscription::SubscriptionType;

verus! {

/// The seed from which the place of the pricing record is derived.
pub const CONFIG_SEED: &'static str = "config";

/// The one pricing record: who is paid, and how much for each tier.
#[derive(Clone, Copy, Debug, PartialEq, Eq)]
pub struct Config {
    pub creator: Identity,
    pub month_price: u64,
    pub quartal_price: u64,
    pub annual_price: u64,
    pub bump: u8,
}

impl Config {
    /// Every price is above zero. Creation establishes this and every change
    /// of a price keeps it.
    pub open spec fn well_formed(self) -> bool {
        &&& self.month_price > 0
        &&& self.quartal_price > 0
        &&& self.annual_price > 0
    }

    /// The price of a tier.
    pub open spec fn price_of(self, typ: SubscriptionType) -> u64 {
        match typ {
            SubscriptionType::Month => self.month_price,
            SubscriptionType::Quartal => self.quartal_price,
            SubscriptionType::Annual => self.annual_price,
        }
    }

    /// The price of a tier. Every tier has one, and the answer depends on
    /// nothing but the record and the tier.
    pub fn get_price_type(&self, typ: SubscriptionType) -> (price: u64)
        ensures
            price == self.price_of(typ),
            self.well_formed() ==> price > 0,
    {
        match typ {
            SubscriptionType::Month => self.month_price,
            SubscriptionType::Quartal => self.quartal_price,
            SubscriptionType::Annual => self.annual_price,
        }
    }
}

} // verus!

//! Creating the pricing record and changing its prices.

use vstd::prelude::*;
use crate::error::OperationError;
use crate::error::SubscriptionError;
use crate::identity::Identity;
use crate::states::config::Config;

verus! {

/// A price that was offered is acceptable: none was offered, or it is above
/// zero.
pub open spec fn price_acceptable(offered: Option<u64>) -> bool {
    offered matches Some(price) ==> price > 0
}

/// The price after a change: the one offered, or else the one kept.
pub open spec fn price_after(offered: Option<u64>, kept: u64) -> u64 {
    match offered {
        Some(price) => price,
        None => kept,
    }
}

/// The accounts for creating the pricing record.
#[derive(Clone, Copy, Debug, PartialEq, Eq)]
pub struct InitCreatorConfig {
    /// Who asks, and becomes the creator.
    pub creator: Identity,
    /// What stands at the place of the pricing record.
    pub config: Option<Config>,
    /// The number that came with that place when it was derived.
    pub bump: u8,
}

impl InitCreatorConfig {
    /// Why the accounts are refused, if they are: the place is taken, or,
    /// where it is free, one of the prices is zero.
    pub open spec fn refusal(self, monthly_price: u64, quartal_price: u64, annual_price: u64)
        -> Option<OperationError> {
        if self.config is Some {
            Some(OperationError::Program(SubscriptionError::ConfigAlreadyInitialized))
        } else if monthly_price == 0 || quartal_price == 0 || annual_price == 0 {
            Some(OperationError::Program(SubscriptionError::PriceTooLow))
        } else {
            None
        }
    }

    /// The record that creation writes.
    pub open spec fn created(self, monthly_price: u64, quartal_price: u64, annual_price: u64)
        -> Config {
        Config {
            creator: self.creator,
            month_price: monthly_price,
            quartal_price: quartal_price,
            annual_price: annual_price,
            bump: self.bump,
        }
    }

    /// What the operation comes to: the accounts after it, or the refusal.
    pub open spec fn outcome(self, monthly_price: u64, quartal_price: u64, annual_price: u64)
        -> Result<InitCreatorConfig, OperationError> {
        match self.refusal(monthly_price, quartal_price, annual_price) {
            Some(e) => Err(e),
            None => Ok(
                InitCreatorConfig {
                    config: Some(self.created(monthly_price, quartal_price, annual_price)),
                    ..self
                },
            ),
        }
    }

    /// Checks the accounts.
    pub fn check(&self, monthly_price: u64, quartal_price: u64, annual_price: u64) -> (r: Result<
        (),
        OperationError,
    >)
        ensures
            r is Ok <==> self.refusal(monthly_price, quartal_price, annual_price) is None,
            r matches Err(e) ==> self.refusal(monthly_price, quartal_price, annual_price) == Some(
                e,
            ),
    {
        if self.config.is_some() {
            Err(OperationError::Program(SubscriptionError::ConfigAlreadyInitialized))
        } else if monthly_price == 0 || quartal_price == 0 || annual_price == 0 {
            Err(OperationError::Program(SubscriptionError::PriceTooLow))
        } else {
            Ok(())
        }
    }
}

/// The accounts for changing prices.
#[derive(Clone, Copy, Debug, PartialEq, Eq)]
pub struct UpdateCreatorPrice {
    /// Who asks.
    pub creator: Identity,
    /// What stands at the place of the pricing record.
    pub config: Option<Config>,
}

impl UpdateCreatorPrice {
    /// Why the accounts are refused, if they are: there is no pricing record,
    /// or the one who asks is not its creator.
    pub open spec fn refusal(self) -> Option<OperationError> {
        match self.config {
            None => Some(OperationError::RecordMissing),
            Some(config) => if config.creator != self.creator {
                Some(OperationError::Unauthorized)
            } else {
                None
            },
        }
    }

    /// What the operation comes to: the accounts after it, or the refusal.
    /// One unacceptable price refuses the whole change.
    pub open spec fn outcome(
        self,
        monthly_price: Option<u64>,
        quartal_price: Option<u64>,
        annual_price: Option<u64>,
    ) -> Result<UpdateCreatorPrice, OperationError> {
        match self.refusal() {
            Some(e) => Err(e),
            None => if !(price_acceptable(monthly_price) && price_acceptable(quartal_price)
                && price_acceptable(annual_price)) {
                Err(OperationError::Program(SubscriptionError::PriceTooLow))
            } else {
                Ok(
                    UpdateCreatorPrice {
                        config: Some(
                            Config {
                                month_price: price_after(
                                    monthly_price,
                                    self.config->0.month_price,
                                ),
                                quartal_price: price_after(
                                    quartal_price,
                                    self.config->0.quartal_price,
                                ),
                                annual_price: price_after(
                                    annual_price,
                                    self.config->0.annual_price,
                                ),
                                ..self.config->0
                            },
                        ),
                        ..self
                    },
                )
            },
        }
    }

    /// Checks the accounts.
    pub fn check(&self) -> (r: Result<(), OperationError>)
        ensures
            r is Ok <==> self.refusal() is None,
            r matches Err(e) ==> self.refusal() == Some(e),
    {
        match &self.config {
            None => Err(OperationError::RecordMissing),
            Some(config) => if config.creator != self.creator {
                Err(OperationError::Unauthorized)
            } else {
                Ok(())
            },
        }
    }
}

/// Tells whether an offered price is acceptable.
fn acceptable(offered: &Option<u64>) -> (ok: bool)
    ensures
        ok == price_acceptable(*offered),
{
    match offered {
        Some(price) => *price > 0,
        None => true,
    }
}

/// Creates the pricing record: checks the accounts, then writes the creator,
/// the three prices and the number that came with the place. Refused where
/// the record exists already, and else where a price is zero; a refusal
/// writes nothing.
pub fn _create_creator_config(
    ctx: &mut InitCreatorConfig,
    monthly_price: u64,
    quartal_price: u64,
    annual_price: u64,
) -> (r: Result<(), OperationError>)
    ensures
        match old(ctx).outcome(monthly_price, quartal_price, annual_price) {
            Ok(after) => r is Ok && *final(ctx) == after,
            Err(e) => r == Err::<(), OperationError>(e) && *final(ctx) == *old(ctx),
        },
        r is Ok <==> old(ctx).config is None && monthly_price > 0 && quartal_price > 0
            && annual_price > 0,
        old(ctx).config is Some ==> r == Err::<(), OperationError>(
            OperationError::Program(SubscriptionError::ConfigAlreadyInitialized),
        ),
        old(ctx).config is None && (monthly_price == 0 || quartal_price == 0 || annual_price == 0)
            ==> r == Err::<(), OperationError>(
            OperationError::Program(SubscriptionError::PriceTooLow),
        ),
        r is Err ==> *final(ctx) == *old(ctx),
        r is Ok ==> final(ctx).config == Some(
            old(ctx).created(monthly_price, quartal_price, annual_price),
        ) && final(ctx).config->0.well_formed(),
{
    match ctx.check(monthly_price, quartal_price, annual_price) {
        Err(e) => {
            return Err(e);
        },
        Ok(()) => {},
    }
    ctx.config = Some(
        Config {
            creator: ctx.creator,
            month_price: monthly_price,
            quartal_price: quartal_price,
            annual_price: annual_price,
            bump: ctx.bump,
        },
    );
    Ok(())
}

/// Changes prices: checks the accounts, then the prices, then writes. Only
/// the creator may. Each price that is offered must be above zero; if one is
/// not, nothing is written. A price that is not offered stays, and to offer
/// none changes nothing.
pub fn _update_creator_price(
    ctx: &mut UpdateCreatorPrice,
    monthly_price: Option<u64>,
    quartal_price: Option<u64>,
    annual_price: Option<u64>,
) -> (r: Result<(), OperationError>)
    ensures
        match old(ctx).outcome(monthly_price, quartal_price, annual_price) {
            Ok(after) => r is Ok && *final(ctx) == after,
            Err(e) => r == Err::<(), OperationError>(e) && *final(ctx) == *old(ctx),
        },
        r is Ok <==> old(ctx).refusal() is None && price_acceptable(monthly_price)
            && price_acceptable(quartal_price) && price_acceptable(annual_price),
        old(ctx).refusal() matches Some(e) ==> r == Err::<(), OperationError>(e),
        old(ctx).refusal() is None && r is Err ==> r == Err::<(), OperationError>(
            OperationError::Program(SubscriptionError::PriceTooLow),
        ),
        r is Err ==> *final(ctx) == *old(ctx),
        final(ctx).config is Some <==> old(ctx).config is Some,
        old(ctx).config matches Some(before) ==> {
            &&& final(ctx).config->0.creator == before.creator
            &&& final(ctx).config->0.bump == before.bump
            &&& before.well_formed() ==> final(ctx).config->0.well_formed()
        },
        r is Ok && monthly_price is None && quartal_price is None && annual_price is None
            ==> *final(ctx) == *old(ctx),
{
    match ctx.check() {
        Err(e) => {
            return Err(e);
        },
        Ok(()) => {},
    }
    if !(acceptable(&monthly_price) && acceptable(&quartal_price) && acceptable(&annual_price)) {
        return Err(OperationError::Program(SubscriptionError::PriceTooLow));
    }
    match &mut ctx.config {
        Some(config) => {
            if let Some(price) = monthly_price {
                config.month_price = price;
            }
            if let Some(price) = quartal_price {
                config.quartal_price = price;
            }
            if let Some(price) = annual_price {
                config.annual_price = price;
            }
            Ok(())
        },
        None => Err(OperationError::RecordMissing),
    }
}

} // verus!

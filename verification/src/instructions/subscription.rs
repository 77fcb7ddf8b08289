//! Opening a subscription and cancelling it.

use vstd::prelude::*;
use crate::error::OperationError;
use crate::error::SubscriptionError;
use crate::identity::Identity;
use crate::instructions::payment::Payment;
use crate::states::config::Config;
use crate::states::subscription::Subscription;
use crate::states::subscription::SubscriptionType;

verus! {

/// The accounts for opening a subscription.
#[derive(Clone, Copy, Debug, PartialEq, Eq)]
pub struct Subscribe {
    /// Who is to be paid.
    pub creator: Identity,
    /// What stands at the place of the pricing record.
    pub config: Option<Config>,
    /// Who asks, and pays.
    pub subscriber: Identity,
    /// What stands at the place of the subscriber's record.
    pub subscription: Option<Subscription>,
    /// The number that came with that place when it was derived.
    pub bump: u8,
}

impl Subscribe {
    /// Why the accounts are refused, if they are: there is no pricing record;
    /// the subscriber has a record already; or the one to be paid is not the
    /// creator that the pricing record names.
    pub open spec fn refusal(self) -> Option<OperationError> {
        match self.config {
            None => Some(OperationError::RecordMissing),
            Some(config) => if self.subscription is Some {
                Some(OperationError::RecordExists)
            } else if self.creator != config.creator {
                Some(OperationError::Program(SubscriptionError::InvalidCreator))
            } else {
                None
            },
        }
    }

    /// The payment owed for the tier on accounts that pass the check.
    pub open spec fn payment(self, typ: SubscriptionType) -> Payment {
        Payment {
            from: self.subscriber,
            to: self.creator,
            amount: self.config->0.price_of(typ),
        }
    }

    /// What the operation comes to at `now`: the accounts after it and the
    /// payment owed, or the refusal. The new record runs from `now` for the
    /// length of the tier and is not paused.
    pub open spec fn outcome(self, typ: SubscriptionType, now: i64) -> Result<
        (Subscribe, Payment),
        OperationError,
    > {
        match self.refusal() {
            Some(e) => Err(e),
            None => if now + typ.duration_seconds() > i64::MAX {
                Err(OperationError::TimestampOverflow)
            } else {
                Ok(
                    (
                        Subscribe {
                            subscription: Some(
                                Subscription {
                                    subscriber: self.subscriber,
                                    paused_at: 0,
                                    typ: typ,
                                    end_timestamp: (now + typ.duration_seconds()) as i64,
                                    bump: self.bump,
                                },
                            ),
                            ..self
                        },
                        self.payment(typ),
                    ),
                )
            },
        }
    }

    /// Checks the accounts.
    pub fn check(&self) -> (r: Result<(), OperationError>)
        ensures
            r is Ok <==> self.refusal() is None,
            r matches Err(e) ==> self.refusal() == Some(e),
    {
        match &self.config {
            None => Err(OperationError::RecordMissing),
            Some(config) => if self.subscription.is_some() {
                Err(OperationError::RecordExists)
            } else if self.creator != config.creator {
                Err(OperationError::Program(SubscriptionError::InvalidCreator))
            } else {
                Ok(())
            },
        }
    }
}

/// The accounts for cancelling a subscription.
#[derive(Clone, Copy, Debug, PartialEq, Eq)]
pub struct CancelSubscription {
    /// Who asks.
    pub subscriber: Identity,
    /// What stands at the place of the subscriber's record.
    pub subscription: Option<Subscription>,
}

impl CancelSubscription {
    /// Why the accounts are refused, if they are: there is no record, or it
    /// belongs to another. Neither the end of the subscription nor a pause
    /// stands in the way.
    pub open spec fn refusal(self) -> Option<OperationError> {
        match self.subscription {
            None => Some(OperationError::RecordMissing),
            Some(subscription) => if subscription.subscriber != self.subscriber {
                Some(OperationError::Unauthorized)
            } else {
                None
            },
        }
    }

    /// What the operation comes to: the accounts with the record gone, or the
    /// refusal.
    pub open spec fn outcome(self) -> Result<CancelSubscription, OperationError> {
        match self.refusal() {
            Some(e) => Err(e),
            None => Ok(CancelSubscription { subscription: None, ..self }),
        }
    }

    /// Checks the accounts.
    pub fn check(&self) -> (r: Result<(), OperationError>)
        ensures
            r is Ok <==> self.refusal() is None,
            r matches Err(e) ==> self.refusal() == Some(e),
    {
        match &self.subscription {
            None => Err(OperationError::RecordMissing),
            Some(subscription) => if subscription.subscriber != self.subscriber {
                Err(OperationError::Unauthorized)
            } else {
                Ok(())
            },
        }
    }
}

/// Opens a subscription of tier `typ` at `now`: checks the accounts, then
/// writes the record and says what the subscriber owes the creator for it.
/// Refused where there is no pricing record, where the subscriber has a
/// record already, where the payee is not the creator, and where the end
/// would not fit in a timestamp; a refusal writes nothing and asks for no
/// payment.
pub fn _subscribe(ctx: &mut Subscribe, typ: SubscriptionType, now: i64) -> (r: Result<
    Payment,
    OperationError,
>)
    ensures
        match old(ctx).outcome(typ, now) {
            Ok((after, payment)) => r == Ok::<Payment, OperationError>(payment) && *final(ctx)
                == after,
            Err(e) => r == Err::<Payment, OperationError>(e) && *final(ctx) == *old(ctx),
        },
        r is Ok <==> old(ctx).refusal() is None && now + typ.duration_seconds() <= i64::MAX,
        old(ctx).refusal() matches Some(e) ==> r == Err::<Payment, OperationError>(e),
        old(ctx).refusal() is None && r is Err ==> r == Err::<Payment, OperationError>(
            OperationError::TimestampOverflow,
        ),
        r is Err ==> *final(ctx) == *old(ctx),
        final(ctx).config == old(ctx).config,
        r matches Ok(payment) ==> {
            &&& payment.amount == old(ctx).config->0.price_of(typ)
            &&& payment.from == old(ctx).subscriber
            &&& payment.to == old(ctx).config->0.creator
            &&& final(ctx).subscription matches Some(opened)
            &&& opened.subscriber == old(ctx).subscriber
            &&& opened.end_timestamp == now + typ.duration_seconds()
            &&& opened.paused_at == 0
            &&& opened.typ == typ
            &&& opened.bump == old(ctx).bump
        },
{
    match ctx.check() {
        Err(e) => {
            return Err(e);
        },
        Ok(()) => {},
    }
    let amount: u64 = match &ctx.config {
        Some(config) => config.get_price_type(typ),
        None => {
            return Err(OperationError::RecordMissing);
        },
    };
    let duration: i64 = typ.get_duration_seconds();
    if now > i64::MAX - duration {
        return Err(OperationError::TimestampOverflow);
    }
    ctx.subscription = Some(
        Subscription {
            subscriber: ctx.subscriber,
            paused_at: 0,
            typ: typ,
            end_timestamp: now + duration,
            bump: ctx.bump,
        },
    );
    Ok(Payment { from: ctx.subscriber, to: ctx.creator, amount: amount })
}

/// Cancels a subscription: checks the accounts, then removes the record.
/// Only the owner may, and the owner always may. The host gives the deposit
/// that kept the record back to the subscriber.
pub fn _cancel_subscription(ctx: &mut CancelSubscription) -> (r: Result<(), OperationError>)
    ensures
        match old(ctx).outcome() {
            Ok(after) => r is Ok && *final(ctx) == after,
            Err(e) => r == Err::<(), OperationError>(e) && *final(ctx) == *old(ctx),
        },
        r is Ok <==> (old(ctx).subscription matches Some(subscription) && subscription.subscriber
            == old(ctx).subscriber),
        old(ctx).refusal() matches Some(e) ==> r == Err::<(), OperationError>(e),
        r is Err ==> *final(ctx) == *old(ctx),
        r is Ok ==> final(ctx).subscription is None,
        final(ctx).subscriber == old(ctx).subscriber,
{
    match ctx.check() {
        Err(e) => {
            return Err(e);
        },
        Ok(()) => {},
    }
    ctx.subscription = None;
    Ok(())
}

} // verus!

//! Pausing, resuming and extending a subscription.

use vstd::prelude::*;
use crate::error::OperationError;
use crate::error::SubscriptionError;
use crate::identity::Identity;
use crate::instructions::payment::Payment;
use crate::states::config::Config;
use crate::states::subscription::Subscription;
use crate::states::subscription::SubscriptionType;

verus! {

/// The accounts for pausing a subscription.
#[derive(Clone, Copy, Debug, PartialEq, Eq)]
pub struct PauseSubscription {
    /// Who asks.
    pub subscriber: Identity,
    /// What stands at the place of the subscriber's record.
    pub subscription: Option<Subscription>,
}

impl PauseSubscription {
    /// Why the accounts are refused, if they are: there is no record; it
    /// belongs to another; or a pause is recorded in it.
    pub open spec fn refusal(self) -> Option<OperationError> {
        match self.subscription {
            None => Some(OperationError::RecordMissing),
            Some(subscription) => if subscription.subscriber != self.subscriber {
                Some(OperationError::Unauthorized)
            } else if subscription.paused_at != 0 {
                Some(OperationError::Program(SubscriptionError::AlreadyPausedSubscription))
            } else {
                None
            },
        }
    }

    /// What the operation comes to at `now`: the accounts after it, or the
    /// refusal. A subscription that has run out cannot be paused; one that
    /// runs gets `now` as the time of its pause.
    pub open spec fn outcome(self, now: i64) -> Result<PauseSubscription, OperationError> {
        match self.refusal() {
            Some(e) => Err(e),
            None => if self.subscription->0.expired_at(now) {
                Err(OperationError::Program(SubscriptionError::ExpiredSubscription))
            } else {
                Ok(
                    PauseSubscription {
                        subscription: Some(Subscription { paused_at: now, ..self.subscription->0 }),
                        ..self
                    },
                )
            },
        }
    }

    /// Checks the accounts.
    pub fn check(&self) -> (r: Result<(), OperationError>)
        ensures
            r is Ok <==> self.refusal() is None,
            r matches Err(e) ==> self.refusal() == Some(e),
    {
        match &self.subscription {
            None => Err(OperationError::RecordMissing),
            Some(subscription) => if subscription.subscriber != self.subscriber {
                Err(OperationError::Unauthorized)
            } else if subscription.paused_at != 0 {
                Err(OperationError::Program(SubscriptionError::AlreadyPausedSubscription))
            } else {
                Ok(())
            },
        }
    }
}

/// The accounts for resuming a subscription.
#[derive(Clone, Copy, Debug, PartialEq, Eq)]
pub struct ResumeSubscription {
    /// Who asks.
    pub subscriber: Identity,
    /// What stands at the place of the subscriber's record.
    pub subscription: Option<Subscription>,
}

impl ResumeSubscription {
    /// Why the accounts are refused, if they are: there is no record; it
    /// belongs to another; or no pause at a time above zero is recorded in it.
    pub open spec fn refusal(self) -> Option<OperationError> {
        match self.subscription {
            None => Some(OperationError::RecordMissing),
            Some(subscription) => if subscription.subscriber != self.subscriber {
                Some(OperationError::Unauthorized)
            } else if subscription.paused_at <= 0 {
                Some(OperationError::Program(SubscriptionError::NotPausedSubscription))
            } else {
                None
            },
        }
    }

    /// The time that went by since the pause.
    pub open spec fn time_paused(self, now: i64) -> int {
        now - self.subscription->0.paused_at
    }

    /// The end of the subscription once the time paused is added to it.
    pub open spec fn resumed_end(self, now: i64) -> int {
        self.subscription->0.end_timestamp + self.time_paused(now)
    }

    /// What the operation comes to at `now`: the accounts after it, or the
    /// refusal. The end moves by the time paused. The time of the pause
    /// stays in the record.
    pub open spec fn outcome(self, now: i64) -> Result<ResumeSubscription, OperationError> {
        match self.refusal() {
            Some(e) => Err(e),
            None => if !(i64::MIN <= self.time_paused(now) && i64::MIN <= self.resumed_end(now)
                <= i64::MAX) {
                Err(OperationError::TimestampOverflow)
            } else {
                Ok(
                    ResumeSubscription {
                        subscription: Some(
                            Subscription {
                                end_timestamp: self.resumed_end(now) as i64,
                                ..self.subscription->0
                            },
                        ),
                        ..self
                    },
                )
            },
        }
    }

    /// Checks the accounts.
    pub fn check(&self) -> (r: Result<(), OperationError>)
        ensures
            r is Ok <==> self.refusal() is None,
            r matches Err(e) ==> self.refusal() == Some(e),
    {
        match &self.subscription {
            None => Err(OperationError::RecordMissing),
            Some(subscription) => if subscription.subscriber != self.subscriber {
                Err(OperationError::Unauthorized)
            } else if subscription.paused_at <= 0 {
                Err(OperationError::Program(SubscriptionError::NotPausedSubscription))
            } else {
                Ok(())
            },
        }
    }
}

/// The accounts for extending a subscription.
#[derive(Clone, Copy, Debug, PartialEq, Eq)]
pub struct ExtendSubscription {
    /// Who is to be paid.
    pub creator: Identity,
    /// Who asks, and pays.
    pub subscriber: Identity,
    /// What stands at the place of the subscriber's record.
    pub subscription: Option<Subscription>,
    /// What stands at the place of the pricing record.
    pub config: Option<Config>,
}

impl ExtendSubscription {
    /// Why the accounts are refused, if they are: a record is missing; the
    /// one to be paid is not the creator that the pricing record names; or
    /// the subscriber's record belongs to another.
    pub open spec fn refusal(self) -> Option<OperationError> {
        match (self.subscription, self.config) {
            (Some(subscription), Some(config)) => if self.creator != config.creator {
                Some(OperationError::Program(SubscriptionError::InvalidCreator))
            } else if subscription.subscriber != self.subscriber {
                Some(OperationError::Unauthorized)
            } else {
                None
            },
            _ => Some(OperationError::RecordMissing),
        }
    }

    /// The payment owed for the tier on accounts that pass the check.
    pub open spec fn payment(self, typ: SubscriptionType) -> Payment {
        Payment {
            from: self.subscriber,
            to: self.creator,
            amount: self.config->0.price_of(typ),
        }
    }

    /// The end of the subscription once the length of the tier is added.
    pub open spec fn extended_end(self, typ: SubscriptionType) -> int {
        self.subscription->0.end_timestamp + typ.duration_seconds()
    }

    /// What the operation comes to at `now`: the accounts after it and the
    /// payment owed, or the refusal. A subscription that has run out cannot
    /// be extended. The length of the new tier is added to the end as it
    /// stands, whatever the tier was before, and the new tier is recorded.
    pub open spec fn outcome(self, typ: SubscriptionType, now: i64) -> Result<
        (ExtendSubscription, Payment),
        OperationError,
    > {
        match self.refusal() {
            Some(e) => Err(e),
            None => if self.subscription->0.expired_at(now) {
                Err(OperationError::Program(SubscriptionError::ExpiredSubscription))
            } else if self.extended_end(typ) > i64::MAX {
                Err(OperationError::TimestampOverflow)
            } else {
                Ok(
                    (
                        ExtendSubscription {
                            subscription: Some(
                                Subscription {
                                    typ: typ,
                                    end_timestamp: self.extended_end(typ) as i64,
                                    ..self.subscription->0
                                },
                            ),
                            ..self
                        },
                        self.payment(typ),
                    ),
                )
            },
        }
    }

    /// Checks the accounts.
    pub fn check(&self) -> (r: Result<(), OperationError>)
        ensures
            r is Ok <==> self.refusal() is None,
            r matches Err(e) ==> self.refusal() == Some(e),
    {
        match (&self.subscription, &self.config) {
            (Some(subscription), Some(config)) => if self.creator != config.creator {
                Err(OperationError::Program(SubscriptionError::InvalidCreator))
            } else if subscription.subscriber != self.subscriber {
                Err(OperationError::Unauthorized)
            } else {
                Ok(())
            },
            _ => Err(OperationError::RecordMissing),
        }
    }
}

/// Pauses a subscription at `now`: checks the accounts, then the time, then
/// records `now` as the time of the pause. Refused where there is no record,
/// where it belongs to another, where a pause is recorded in it, and where
/// it has run out; a refusal changes nothing.
pub fn _pause_subscription(ctx: &mut PauseSubscription, now: i64) -> (r: Result<
    (),
    OperationError,
>)
    ensures
        match old(ctx).outcome(now) {
            Ok(after) => r is Ok && *final(ctx) == after,
            Err(e) => r == Err::<(), OperationError>(e) && *final(ctx) == *old(ctx),
        },
        r is Ok <==> old(ctx).refusal() is None && old(ctx).subscription->0.end_timestamp > now,
        old(ctx).refusal() matches Some(e) ==> r == Err::<(), OperationError>(e),
        old(ctx).refusal() is None && r is Err ==> r == Err::<(), OperationError>(
            OperationError::Program(SubscriptionError::ExpiredSubscription),
        ),
        r is Err ==> *final(ctx) == *old(ctx),
        r is Ok ==> final(ctx).subscription->0.paused_at == now,
{
    match ctx.check() {
        Err(e) => {
            return Err(e);
        },
        Ok(()) => {},
    }
    match &mut ctx.subscription {
        Some(subscription) => {
            if subscription.is_expired(now) {
                return Err(OperationError::Program(SubscriptionError::ExpiredSubscription));
            }
            subscription.paused_at = now;
            Ok(())
        },
        None => Err(OperationError::RecordMissing),
    }
}

/// Resumes a subscription at `now`: checks the accounts, then adds the time
/// that went by since the pause to the end. Refused where there is no
/// record, where it belongs to another, where no pause at a time above zero
/// is recorded in it, and where the new end would not fit in a timestamp; a
/// refusal changes nothing.
///
/// The time of the pause is left in the record. So a subscription that was
/// resumed cannot be paused again, and can be resumed again, which adds the
/// time since the same pause once more.
pub fn _resume_subscription(ctx: &mut ResumeSubscription, now: i64) -> (r: Result<
    (),
    OperationError,
>)
    ensures
        match old(ctx).outcome(now) {
            Ok(after) => r is Ok && *final(ctx) == after,
            Err(e) => r == Err::<(), OperationError>(e) && *final(ctx) == *old(ctx),
        },
        r is Ok <==> old(ctx).refusal() is None && i64::MIN <= old(ctx).time_paused(now)
            && i64::MIN <= old(ctx).resumed_end(now) <= i64::MAX,
        old(ctx).refusal() matches Some(e) ==> r == Err::<(), OperationError>(e),
        old(ctx).refusal() is None && r is Err ==> r == Err::<(), OperationError>(
            OperationError::TimestampOverflow,
        ),
        r is Err ==> *final(ctx) == *old(ctx),
        r is Ok ==> {
            &&& final(ctx).subscription->0.end_timestamp == old(ctx).subscription->0.end_timestamp
                + (now - old(ctx).subscription->0.paused_at)
            &&& final(ctx).subscription->0.paused_at == old(ctx).subscription->0.paused_at
        },
{
    match ctx.check() {
        Err(e) => {
            return Err(e);
        },
        Ok(()) => {},
    }
    match &mut ctx.subscription {
        Some(subscription) => {
            let time_diff: i64 = match now.checked_sub(subscription.paused_at) {
                Some(d) => d,
                None => {
                    return Err(OperationError::TimestampOverflow);
                },
            };
            let end: i64 = match subscription.end_timestamp.checked_add(time_diff) {
                Some(e) => e,
                None => {
                    return Err(OperationError::TimestampOverflow);
                },
            };
            subscription.end_timestamp = end;
            Ok(())
        },
        None => Err(OperationError::RecordMissing),
    }
}

/// Extends a subscription at `now` by the tier `typ`: checks the accounts,
/// then the time, then adds the length of the tier to the end, records the
/// tier and says what the subscriber owes the creator for it. Refused where
/// a record is missing, where the payee is not the creator, where the
/// subscriber's record belongs to another, where it has run out, and where
/// the new end would not fit in a timestamp; a refusal changes nothing and
/// asks for no payment.
pub fn _extend_subscription(ctx: &mut ExtendSubscription, typ: SubscriptionType, now: i64) -> (r:
    Result<Payment, OperationError>)
    ensures
        match old(ctx).outcome(typ, now) {
            Ok((after, payment)) => r == Ok::<Payment, OperationError>(payment) && *final(ctx)
                == after,
            Err(e) => r == Err::<Payment, OperationError>(e) && *final(ctx) == *old(ctx),
        },
        r is Ok <==> old(ctx).refusal() is None && old(ctx).subscription->0.end_timestamp > now
            && old(ctx).extended_end(typ) <= i64::MAX,
        old(ctx).refusal() matches Some(e) ==> r == Err::<Payment, OperationError>(e),
        old(ctx).refusal() is None && old(ctx).subscription->0.end_timestamp <= now ==> r == Err::<
            Payment,
            OperationError,
        >(OperationError::Program(SubscriptionError::ExpiredSubscription)),
        r is Err ==> *final(ctx) == *old(ctx),
        final(ctx).config == old(ctx).config,
        r matches Ok(payment) ==> {
            &&& payment.amount == old(ctx).config->0.price_of(typ)
            &&& payment.from == old(ctx).subscriber
            &&& payment.to == old(ctx).config->0.creator
            &&& final(ctx).subscription->0.typ == typ
            &&& final(ctx).subscription->0.end_timestamp == old(ctx).subscription->0.end_timestamp
                + typ.duration_seconds()
            &&& final(ctx).subscription->0.paused_at == old(ctx).subscription->0.paused_at
        },
{
    match ctx.check() {
        Err(e) => {
            return Err(e);
        },
        Ok(()) => {},
    }
    let amount: u64 = match &ctx.config {
        Some(config) => config.get_price_type(typ),
        None => {
            return Err(OperationError::RecordMissing);
        },
    };
    let duration: i64 = typ.get_duration_seconds();
    match &mut ctx.subscription {
        Some(subscription) => {
            if subscription.is_expired(now) {
                return Err(OperationError::Program(SubscriptionError::ExpiredSubscription));
            }
            if subscription.end_timestamp > i64::MAX - duration {
                return Err(OperationError::TimestampOverflow);
            }
            subscription.typ = typ;
            subscription.end_timestamp = subscription.end_timestamp + duration;
        },
        None => {
            return Err(OperationError::RecordMissing);
        },
    }
    Ok(Payment { from: ctx.subscriber, to: ctx.creator, amount: amount })
}

} // verus!

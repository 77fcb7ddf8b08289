//! Subscription billing on a ledger: one creator publishes a price for each
//! of three tiers, and subscribers pay to acquire, pause, resume, extend or
//! cancel a subscription that runs for a time.
//!
//! Each operation is one step. It is handed the records that stand at the
//! places it works on and the time of the request, checks who asks and what
//! state the records are in, and either changes them or refuses and leaves
//! them as they were. Where a step asks for money it says so in a
//! [`instructions::payment::Payment`], which the host has to make.

use vstd::prelude::*;
use crate::error::OperationError;
use crate::error::SubscriptionError;
use crate::instructions::creator::InitCreatorConfig;
use crate::instructions::creator::UpdateCreatorPrice;
use crate::instructions::creator::_create_creator_config;
use crate::instructions::creator::_update_creator_price;
use crate::instructions::operations::ExtendSubscription;
use crate::instructions::operations::PauseSubscription;
use crate::instructions::operations::ResumeSubscription;
use crate::instructions::operations::_extend_subscription;
use crate::instructions::operations::_pause_subscription;
use crate::instructions::operations::_resume_subscription;
use crate::instructions::payment::Payment;
use crate::instructions::subscription::CancelSubscription;
use crate::instructions::subscription::Subscribe;
use crate::instructions::subscription::_cancel_subscription;
use crate::instructions::subscription::_subscribe;
use crate::states::subscription::SubscriptionType;

pub mod error;
pub mod identity;
pub mod instructions;
pub mod lifecycle;
pub mod states;

verus! {

/// The accounts for the greeting: none.
#[derive(Clone, Copy, Debug, PartialEq, Eq, Structural)]
pub struct Initialize {
}

/// The greeting with which a host starts: it reads nothing, changes nothing
/// and always succeeds.
pub fn initialize(ctx: &Initialize) -> (r: Result<(), OperationError>)
    ensures
        r is Ok,
{
    Ok(())
}

/// Creates the pricing record, once: the one who asks becomes the creator.
/// Refused where the record exists already, and else where a price is zero.
pub fn create_creator_profile(
    ctx: &mut InitCreatorConfig,
    monthly_price: u64,
    quartal_price: u64,
    annual_price: u64,
) -> (r: Result<(), OperationError>)
    ensures
        match old(ctx).outcome(monthly_price, quartal_price, annual_price) {
            Ok(after) => r is Ok && *final(ctx) == after,
            Err(e) => r == Err::<(), OperationError>(e) && *final(ctx) == *old(ctx),
        },
        old(ctx).config is Some ==> r == Err::<(), OperationError>(
            OperationError::Program(SubscriptionError::ConfigAlreadyInitialized),
        ),
        old(ctx).config is None && (monthly_price == 0 || quartal_price == 0 || annual_price == 0)
            ==> r == Err::<(), OperationError>(
            OperationError::Program(SubscriptionError::PriceTooLow),
        ) && final(ctx).config is None,
        r is Ok ==> (final(ctx).config matches Some(config) && config.well_formed()),
{
    _create_creator_config(ctx, monthly_price, quartal_price, annual_price)
}

/// Opens a subscription of tier `typ` at `now` and says what the subscriber
/// owes the creator for it. The record runs from `now` for the length of the
/// tier and is not paused.
pub fn subscription(ctx: &mut Subscribe, typ: SubscriptionType, now: i64) -> (r: Result<
    Payment,
    OperationError,
>)
    ensures
        match old(ctx).outcome(typ, now) {
            Ok((after, payment)) => r == Ok::<Payment, OperationError>(payment) && *final(ctx)
                == after,
            Err(e) => r == Err::<Payment, OperationError>(e) && *final(ctx) == *old(ctx),
        },
        r matches Ok(payment) ==> {
            &&& payment.amount == old(ctx).config->0.price_of(typ)
            &&& payment.from == old(ctx).subscriber
            &&& payment.to == old(ctx).config->0.creator
            &&& final(ctx).subscription matches Some(opened)
            &&& opened.subscriber == old(ctx).subscriber
            &&& opened.end_timestamp == now + typ.duration_seconds()
            &&& opened.paused_at == 0
            &&& opened.typ == typ
        },
{
    _subscribe(ctx, typ, now)
}

/// Cancels a subscription: the record is gone afterwards. The owner may
/// always cancel, whether the subscription is paused or has run out.
pub fn cancel_subscription(ctx: &mut CancelSubscription) -> (r: Result<(), OperationError>)
    ensures
        match old(ctx).outcome() {
            Ok(after) => r is Ok && *final(ctx) == after,
            Err(e) => r == Err::<(), OperationError>(e) && *final(ctx) == *old(ctx),
        },
        r is Ok <==> (old(ctx).subscription matches Some(subscription) && subscription.subscriber
            == old(ctx).subscriber),
        r is Ok ==> final(ctx).subscription is None,
{
    _cancel_subscription(ctx)
}

/// Pauses a running subscription at `now`: `now` is recorded as the time of
/// the pause.
pub fn pause_subscription(ctx: &mut PauseSubscription, now: i64) -> (r: Result<
    (),
    OperationError,
>)
    ensures
        match old(ctx).outcome(now) {
            Ok(after) => r is Ok && *final(ctx) == after,
            Err(e) => r == Err::<(), OperationError>(e) && *final(ctx) == *old(ctx),
        },
        r is Ok ==> final(ctx).subscription->0.paused_at == now,
{
    _pause_subscription(ctx, now)
}

/// Resumes a paused subscription at `now`: the end moves by the time that
/// went by since the pause. The time of the pause stays in the record.
pub fn resume_subscription(ctx: &mut ResumeSubscription, now: i64) -> (r: Result<
    (),
    OperationError,
>)
    ensures
        match old(ctx).outcome(now) {
            Ok(after) => r is Ok && *final(ctx) == after,
            Err(e) => r == Err::<(), OperationError>(e) && *final(ctx) == *old(ctx),
        },
        r is Ok ==> {
            &&& final(ctx).subscription->0.end_timestamp == old(ctx).subscription->0.end_timestamp
                + (now - old(ctx).subscription->0.paused_at)
            &&& final(ctx).subscription->0.paused_at == old(ctx).subscription->0.paused_at
        },
{
    _resume_subscription(ctx, now)
}

/// Changes the prices that are offered and keeps the others. Only the
/// creator may; one price of zero refuses the whole change.
pub fn update_creator_price(
    ctx: &mut UpdateCreatorPrice,
    monthly_price: Option<u64>,
    quartal_price: Option<u64>,
    annual_price: Option<u64>,
) -> (r: Result<(), OperationError>)
    ensures
        match old(ctx).outcome(monthly_price, quartal_price, annual_price) {
            Ok(after) => r is Ok && *final(ctx) == after,
            Err(e) => r == Err::<(), OperationError>(e) && *final(ctx) == *old(ctx),
        },
        (old(ctx).config matches Some(before) && before.well_formed()) ==> (final(
            ctx
        ).config matches Some(after) && after.well_formed()),
        r is Ok && monthly_price is None && quartal_price is None && annual_price is None
            ==> *final(ctx) == *old(ctx),
{
    _update_creator_price(ctx, monthly_price, quartal_price, annual_price)
}

/// Extends a subscription that has not run out at `now` by the tier `typ`,
/// and says what the subscriber owes the creator for it. The length of the
/// tier is added to the end as it stands, and the tier is recorded.
pub fn extend_subscription(ctx: &mut ExtendSubscription, typ: SubscriptionType, now: i64) -> (r:
    Result<Payment, OperationError>)
    ensures
        match old(ctx).outcome(typ, now) {
            Ok((after, payment)) => r == Ok::<Payment, OperationError>(payment) && *final(ctx)
                == after,
            Err(e) => r == Err::<Payment, OperationError>(e) && *final(ctx) == *old(ctx),
        },
        r matches Ok(payment) ==> {
            &&& payment.amount == old(ctx).config->0.price_of(typ)
            &&& payment.from == old(ctx).subscriber
            &&& payment.to == old(ctx).config->0.creator
            &&& final(ctx).subscription->0.typ == typ
            &&& final(ctx).subscription->0.end_timestamp == old(ctx).subscription->0.end_timestamp
                + typ.duration_seconds()
        },
{
    _extend_subscription(ctx, typ, now)
}

} // verus!

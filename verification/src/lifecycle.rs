//! What holds of the operations taken together, over every input.

use vstd::prelude::*;
use crate::error::OperationError;
use crate::error::SubscriptionError;
use crate::identity::Identity;
use crate::instructions::creator::InitCreatorConfig;
use crate::instructions::creator::UpdateCreatorPrice;
use crate::instructions::operations::ExtendSubscription;
use crate::instructions::operations::PauseSubscription;
use crate::instructions::operations::ResumeSubscription;
use crate::instructions::payment::Payment;
use crate::instructions::subscription::CancelSubscription;
use crate::instructions::subscription::Subscribe;
use crate::states::config::Config;
use crate::states::subscription::SubscriptionType;

verus! {

/// Every tier has a price, and in a well-formed pricing record it is above
/// zero.
pub proof fn every_tier_has_a_price(config: Config, typ: SubscriptionType)
    ensures
        config.price_of(typ) == config.month_price || config.price_of(typ) == config.quartal_price
            || config.price_of(typ) == config.annual_price,
        config.well_formed() ==> config.price_of(typ) > 0,
{
}

/// Where no pricing record exists yet, creation with a price of zero is
/// refused for the price.
pub proof fn creation_with_a_zero_price_is_refused(
    ctx: InitCreatorConfig,
    monthly_price: u64,
    quartal_price: u64,
    annual_price: u64,
)
    requires
        ctx.config is None,
        monthly_price == 0 || quartal_price == 0 || annual_price == 0,
    ensures
        ctx.outcome(monthly_price, quartal_price, annual_price) == Err::<
            InitCreatorConfig,
            OperationError,
        >(OperationError::Program(SubscriptionError::PriceTooLow)),
{
}

/// Creation succeeds exactly where no pricing record exists and every price
/// is above zero, and the record it writes is well formed.
pub proof fn creation_succeeds_once_with_positive_prices(
    ctx: InitCreatorConfig,
    monthly_price: u64,
    quartal_price: u64,
    annual_price: u64,
)
    ensures
        ctx.outcome(monthly_price, quartal_price, annual_price) is Ok <==> ctx.config is None
            && monthly_price > 0 && quartal_price > 0 && annual_price > 0,
        ctx.outcome(monthly_price, quartal_price, annual_price) matches Ok(after) ==> (
        after.config matches Some(config) && config.well_formed() && config.creator
            == ctx.creator),
{
}

/// After the pricing record was created, every further creation at its
/// place is refused as already done, whoever asks and whatever the prices.
pub proof fn second_creation_is_refused(
    first: InitCreatorConfig,
    monthly_price: u64,
    quartal_price: u64,
    annual_price: u64,
    second_creator: Identity,
    second_bump: u8,
    second_monthly_price: u64,
    second_quartal_price: u64,
    second_annual_price: u64,
)
    requires
        first.outcome(monthly_price, quartal_price, annual_price) is Ok,
    ensures
        (InitCreatorConfig {
            creator: second_creator,
            config: first.outcome(monthly_price, quartal_price, annual_price)->Ok_0.config,
            bump: second_bump,
        }).outcome(second_monthly_price, second_quartal_price, second_annual_price) == Err::<
            InitCreatorConfig,
            OperationError,
        >(OperationError::Program(SubscriptionError::ConfigAlreadyInitialized)),
{
}

/// A change of prices keeps a well-formed pricing record well formed, keeps
/// its creator, and with no price offered changes nothing.
pub proof fn price_change_keeps_the_record_well_formed(
    ctx: UpdateCreatorPrice,
    monthly_price: Option<u64>,
    quartal_price: Option<u64>,
    annual_price: Option<u64>,
)
    requires
        ctx.config matches Some(config) && config.well_formed(),
    ensures
        ctx.outcome(monthly_price, quartal_price, annual_price) matches Ok(after) ==> {
            &&& after.config matches Some(config)
            &&& config.well_formed()
            &&& config.creator == ctx.config->0.creator
        },
        ctx.refusal() is None ==> ctx.outcome(None, None, None) == Ok::<
            UpdateCreatorPrice,
            OperationError,
        >(ctx),
{
}

/// Only the creator changes prices.
pub proof fn only_the_creator_changes_prices(
    ctx: UpdateCreatorPrice,
    monthly_price: Option<u64>,
    quartal_price: Option<u64>,
    annual_price: Option<u64>,
)
    requires
        ctx.config matches Some(config) && config.creator != ctx.creator,
    ensures
        ctx.outcome(monthly_price, quartal_price, annual_price) == Err::<
            UpdateCreatorPrice,
            OperationError,
        >(OperationError::Unauthorized),
{
}

/// A subscription that was just opened is owned by the one who asked, runs
/// for the length of its tier from the time of the request, is not paused,
/// and costs the price of its tier, owed by the subscriber to the creator.
pub proof fn a_new_subscription_runs_for_its_tier(ctx: Subscribe, typ: SubscriptionType, now: i64)
    requires
        ctx.outcome(typ, now) is Ok,
    ensures
        ({
            let (after, payment) = ctx.outcome(typ, now)->Ok_0;
            &&& after.subscription matches Some(opened)
            &&& opened.subscriber == ctx.subscriber
            &&& opened.end_timestamp == now + typ.duration_seconds()
            &&& opened.paused_at == 0
            &&& opened.typ == typ
            &&& payment.amount == ctx.config->0.price_of(typ)
            &&& payment.from == ctx.subscriber
            &&& payment.to == ctx.config->0.creator
        }),
{
}

/// While a subscriber has a record, no second one is opened.
pub proof fn one_record_for_each_subscriber(ctx: Subscribe, typ: SubscriptionType, now: i64)
    requires
        ctx.subscription is Some,
    ensures
        ctx.outcome(typ, now) is Err,
        ctx.config is Some ==> ctx.outcome(typ, now) == Err::<
            (Subscribe, Payment),
            OperationError,
        >(OperationError::RecordExists),
{
}

/// Where the pricing record exists and the subscriber has no record yet, to
/// name as payee anyone but the creator is refused as an invalid creator.
pub proof fn subscribing_pays_the_creator_only(ctx: Subscribe, typ: SubscriptionType, now: i64)
    requires
        ctx.config matches Some(config) && config.creator != ctx.creator,
        ctx.subscription is None,
    ensures
        ctx.outcome(typ, now) == Err::<
            (Subscribe, Payment),
            OperationError,
        >(OperationError::Program(SubscriptionError::InvalidCreator)),
{
}

/// Where both records exist, to name as payee of an extension anyone but the
/// creator is refused as an invalid creator.
pub proof fn extending_pays_the_creator_only(
    ctx: ExtendSubscription,
    typ: SubscriptionType,
    now: i64,
)
    requires
        ctx.config matches Some(config) && config.creator != ctx.creator,
        ctx.subscription is Some,
    ensures
        ctx.outcome(typ, now) == Err::<
            (ExtendSubscription, Payment),
            OperationError,
        >(OperationError::Program(SubscriptionError::InvalidCreator)),
{
}

/// A pause records the time of the request. After a pause at a time other
/// than zero, every further pause is refused as already paused.
pub proof fn a_paused_subscription_is_not_paused_again(
    ctx: PauseSubscription,
    now: i64,
    later: i64,
)
    requires
        ctx.outcome(now) is Ok,
        now != 0,
    ensures
        ctx.outcome(now)->Ok_0.subscription->0.paused_at == now,
        ctx.outcome(now)->Ok_0.outcome(later) == Err::<PauseSubscription, OperationError>(
            OperationError::Program(SubscriptionError::AlreadyPausedSubscription),
        ),
{
}

/// A resumption moves the end by the time that went by since the pause and
/// changes nothing else in the record.
pub proof fn resuming_gives_the_paused_time_back(ctx: ResumeSubscription, now: i64)
    requires
        ctx.outcome(now) is Ok,
    ensures
        ({
            let before = ctx.subscription->0;
            let after = ctx.outcome(now)->Ok_0.subscription->0;
            &&& after.end_timestamp == before.end_timestamp + (now - before.paused_at)
            &&& now >= before.paused_at ==> after.end_timestamp >= before.end_timestamp
            &&& after.paused_at == before.paused_at
            &&& after.typ == before.typ
            &&& after.subscriber == before.subscriber
        }),
{
}

/// A subscription that is not paused cannot be resumed.
pub proof fn a_running_subscription_is_not_resumed(ctx: ResumeSubscription, now: i64)
    requires
        ctx.subscription matches Some(subscription) && subscription.subscriber == ctx.subscriber
            && subscription.paused_at == 0,
    ensures
        ctx.outcome(now) == Err::<ResumeSubscription, OperationError>(
            OperationError::Program(SubscriptionError::NotPausedSubscription),
        ),
{
}

/// The time of the pause outlives the resumption: a subscription that was
/// resumed is still refused a pause as already paused.
pub proof fn a_resumed_subscription_still_counts_as_paused(
    ctx: ResumeSubscription,
    now: i64,
    later: i64,
)
    requires
        ctx.outcome(now) is Ok,
    ensures
        (PauseSubscription {
            subscriber: ctx.subscriber,
            subscription: ctx.outcome(now)->Ok_0.subscription,
        }).outcome(later) == Err::<PauseSubscription, OperationError>(
            OperationError::Program(SubscriptionError::AlreadyPausedSubscription),
        ),
{
}

/// An extension adds the full length of the new tier to the end as it
/// stands and records the new tier, whatever the tier was before.
pub proof fn extending_adds_the_length_of_the_new_tier(
    ctx: ExtendSubscription,
    typ: SubscriptionType,
    now: i64,
)
    requires
        ctx.outcome(typ, now) is Ok,
    ensures
        ({
            let before = ctx.subscription->0;
            let (after, payment) = ctx.outcome(typ, now)->Ok_0;
            &&& before.end_timestamp > now
            &&& after.subscription->0.end_timestamp == before.end_timestamp
                + typ.duration_seconds()
            &&& after.subscription->0.end_timestamp > before.end_timestamp
            &&& after.subscription->0.typ == typ
            &&& after.subscription->0.paused_at == before.paused_at
            &&& after.subscription->0.subscriber == before.subscriber
            &&& payment.amount == ctx.config->0.price_of(typ)
            &&& payment.to == ctx.config->0.creator
        }),
{
}

/// A subscription that has run out is never paused, whoever asks. Where its
/// owner asks and it is not paused, the pause is refused as expired.
pub proof fn an_expired_subscription_is_not_paused(ctx: PauseSubscription, now: i64)
    requires
        ctx.subscription matches Some(subscription) && subscription.expired_at(now),
    ensures
        ctx.outcome(now) is Err,
        ctx.subscription->0.subscriber == ctx.subscriber && ctx.subscription->0.paused_at == 0
            ==> ctx.outcome(now) == Err::<PauseSubscription, OperationError>(
            OperationError::Program(SubscriptionError::ExpiredSubscription),
        ),
{
}

/// A subscription that has run out is never extended, whoever asks. Where
/// its owner asks and names the creator as payee, the extension is refused
/// as expired.
pub proof fn an_expired_subscription_is_not_extended(
    ctx: ExtendSubscription,
    typ: SubscriptionType,
    now: i64,
)
    requires
        ctx.subscription matches Some(subscription) && subscription.expired_at(now),
    ensures
        ctx.outcome(typ, now) is Err,
        ctx.subscription->0.subscriber == ctx.subscriber && (ctx.config matches Some(config)
            && config.creator == ctx.creator) ==> ctx.outcome(typ, now) == Err::<
            (ExtendSubscription, Payment),
            OperationError,
        >(OperationError::Program(SubscriptionError::ExpiredSubscription)),
{
}

/// The owner can always cancel: neither a pause nor the end of the
/// subscription stands in the way.
pub proof fn the_owner_can_always_cancel(ctx: CancelSubscription)
    ensures
        ctx.outcome() is Ok <==> (ctx.subscription matches Some(subscription)
            && subscription.subscriber == ctx.subscriber),
        ctx.outcome() matches Ok(after) ==> after.subscription is None,
{
}

/// After a cancellation the record is gone, and a pause, a resumption or an
/// extension at its place is refused for want of the record, whoever asks
/// and whenever.
pub proof fn after_a_cancellation_the_record_is_missing(
    ctx: CancelSubscription,
    pause: PauseSubscription,
    resume: ResumeSubscription,
    extend: ExtendSubscription,
    typ: SubscriptionType,
    now: i64,
)
    requires
        ctx.outcome() is Ok,
        pause.subscription == ctx.outcome()->Ok_0.subscription,
        resume.subscription == ctx.outcome()->Ok_0.subscription,
        extend.subscription == ctx.outcome()->Ok_0.subscription,
    ensures
        ctx.outcome()->Ok_0.subscription is None,
        pause.outcome(now) == Err::<PauseSubscription, OperationError>(
            OperationError::RecordMissing,
        ),
        resume.outcome(now) == Err::<ResumeSubscription, OperationError>(
            OperationError::RecordMissing,
        ),
        extend.outcome(typ, now) == Err::<
            (ExtendSubscription, Payment),
            OperationError,
        >(OperationError::RecordMissing),
{
}

/// After a cancellation the subscriber can subscribe again.
pub proof fn after_a_cancellation_one_can_subscribe_again(
    ctx: CancelSubscription,
    again: Subscribe,
    typ: SubscriptionType,
    now: i64,
)
    requires
        ctx.outcome() is Ok,
        again.subscription == ctx.outcome()->Ok_0.subscription,
        again.config matches Some(config) && config.creator == again.creator,
        now + typ.duration_seconds() <= i64::MAX,
    ensures
        again.outcome(typ, now) is Ok,
{
}

/// Only the owner of a record pauses, resumes, extends or cancels it.
pub proof fn only_the_owner_acts_on_a_record(
    pause: PauseSubscription,
    resume: ResumeSubscription,
    extend: ExtendSubscription,
    cancel: CancelSubscription,
    typ: SubscriptionType,
    now: i64,
)
    ensures
        (pause.subscription matches Some(s) && s.subscriber != pause.subscriber) ==> pause.outcome(
            now,
        ) == Err::<PauseSubscription, OperationError>(OperationError::Unauthorized),
        (resume.subscription matches Some(s) && s.subscriber != resume.subscriber)
            ==> resume.outcome(now) == Err::<ResumeSubscription, OperationError>(
            OperationError::Unauthorized,
        ),
        (cancel.subscription matches Some(s) && s.subscriber != cancel.subscriber)
            ==> cancel.outcome() == Err::<CancelSubscription, OperationError>(
            OperationError::Unauthorized,
        ),
        (extend.subscription matches Some(s) && s.subscriber != extend.subscriber)
            ==> extend.outcome(typ, now) is Err,
{
}

/// No operation removes the pricing record or hands it to another creator:
/// a change of prices keeps the record and its creator, and opening or
/// extending a subscription leaves the record as it is.
pub proof fn the_pricing_record_stays(
    update: UpdateCreatorPrice,
    monthly_price: Option<u64>,
    quartal_price: Option<u64>,
    annual_price: Option<u64>,
    subscribe: Subscribe,
    extend: ExtendSubscription,
    typ: SubscriptionType,
    now: i64,
)
    ensures
        update.outcome(monthly_price, quartal_price, annual_price) matches Ok(after) ==> (
        after.config matches Some(config) && config.creator == update.config->0.creator),
        subscribe.outcome(typ, now) matches Ok(after) ==> after.0.config == subscribe.config,
        extend.outcome(typ, now) matches Ok(after) ==> after.0.config == extend.config,
{
}

/// The owner of a record never changes: after a pause, a resumption or an
/// extension the record names the subscriber that it named before.
pub proof fn the_owner_of_a_record_stays(
    pause: PauseSubscription,
    resume: ResumeSubscription,
    extend: ExtendSubscription,
    typ: SubscriptionType,
    now: i64,
)
    ensures
        pause.outcome(now) matches Ok(after) ==> after.subscription->0.subscriber
            == pause.subscription->0.subscriber,
        resume.outcome(now) matches Ok(after) ==> after.subscription->0.subscriber
            == resume.subscription->0.subscriber,
        extend.outcome(typ, now) matches Ok(after) ==> after.0.subscription->0.subscriber
            == extend.subscription->0.subscriber,
{
}

/// The kind `PausedSubscription` is kept in reserve: no operation reports
/// it, on any accounts and at any time.
pub proof fn the_reserved_kind_is_never_reported(
    create: InitCreatorConfig,
    update: UpdateCreatorPrice,
    monthly_price: u64,
    quartal_price: u64,
    annual_price: u64,
    offered_monthly_price: Option<u64>,
    offered_quartal_price: Option<u64>,
    offered_annual_price: Option<u64>,
    subscribe: Subscribe,
    cancel: CancelSubscription,
    pause: PauseSubscription,
    resume: ResumeSubscription,
    extend: ExtendSubscription,
    typ: SubscriptionType,
    now: i64,
)
    ensures
        ({
            let reserved = OperationError::Program(SubscriptionError::PausedSubscription);
            &&& create.outcome(monthly_price, quartal_price, annual_price) != Err::<
                InitCreatorConfig,
                OperationError,
            >(reserved)
            &&& update.outcome(offered_monthly_price, offered_quartal_price, offered_annual_price)
                != Err::<UpdateCreatorPrice, OperationError>(reserved)
            &&& subscribe.outcome(typ, now) != Err::<(Subscribe, Payment), OperationError>(
                reserved,
            )
            &&& cancel.outcome() != Err::<CancelSubscription, OperationError>(reserved)
            &&& pause.outcome(now) != Err::<PauseSubscription, OperationError>(reserved)
            &&& resume.outcome(now) != Err::<ResumeSubscription, OperationError>(reserved)
            &&& extend.outcome(typ, now) != Err::<(ExtendSubscription, Payment), OperationError>(
                reserved,
            )
        }),
{
}

} // verus!

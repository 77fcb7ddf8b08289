use subscription_chain::cancel_subscription;
use subscription_chain::create_creator_profile;
use subscription_chain::error::OperationError;
use subscription_chain::error::SubscriptionError;
use subscription_chain::extend_subscription;
use subscription_chain::identity::Identity;
use subscription_chain::initialize;
use subscription_chain::instructions::creator::InitCreatorConfig;
use subscription_chain::instructions::creator::UpdateCreatorPrice;
use subscription_chain::instructions::operations::ExtendSubscription;
use subscription_chain::instructions::operations::PauseSubscription;
use subscription_chain::instructions::operations::ResumeSubscription;
use subscription_chain::instructions::payment::Payment;
use subscription_chain::instructions::subscription::CancelSubscription;
use subscription_chain::instructions::subscription::Subscribe;
use subscription_chain::pause_subscription;
use subscription_chain::resume_subscription;
use subscription_chain::states::config::Config;
use subscription_chain::states::subscription::Subscription;
use subscription_chain::states::subscription::SubscriptionType;
use subscription_chain::subscription;
use subscription_chain::update_creator_price;
use subscription_chain::Initialize;

fn creator() -> Identity {
    Identity::new([0xC1u8; 32])
}

fn subscriber() -> Identity {
    Identity::new([0x5Bu8; 32])
}

fn stranger() -> Identity {
    Identity::new([0x77u8; 32])
}

fn prices() -> Config {
    Config { creator: creator(), month_price: 100, quartal_price: 250, annual_price: 900, bump: 254 }
}

fn record(end_timestamp: i64, paused_at: i64, typ: SubscriptionType) -> Subscription {
    Subscription { subscriber: subscriber(), paused_at, typ, end_timestamp, bump: 253 }
}

fn program(e: SubscriptionError) -> OperationError {
    OperationError::Program(e)
}

#[test]
fn greeting_always_succeeds() {
    assert_eq!(initialize(&Initialize {}), Ok(()));
}

#[test]
fn creation_writes_the_record() {
    let mut ctx = InitCreatorConfig { creator: creator(), config: None, bump: 254 };
    assert_eq!(create_creator_profile(&mut ctx, 100, 250, 900), Ok(()));
    assert_eq!(ctx.config, Some(prices()));
    assert_eq!(ctx.creator, creator());
}

#[test]
fn creation_with_a_zero_price_writes_nothing() {
    for (m, q, a) in [(0u64, 250u64, 900u64), (100, 0, 900), (100, 250, 0), (0, 0, 0)] {
        let mut ctx = InitCreatorConfig { creator: creator(), config: None, bump: 254 };
        assert_eq!(
            create_creator_profile(&mut ctx, m, q, a),
            Err(program(SubscriptionError::PriceTooLow))
        );
        assert_eq!(ctx.config, None);
    }
}

#[test]
fn creation_twice_is_refused() {
    let mut ctx = InitCreatorConfig { creator: creator(), config: None, bump: 254 };
    assert_eq!(create_creator_profile(&mut ctx, 100, 250, 900), Ok(()));
    let mut second = InitCreatorConfig { creator: stranger(), config: ctx.config, bump: 1 };
    assert_eq!(
        create_creator_profile(&mut second, 5, 6, 7),
        Err(program(SubscriptionError::ConfigAlreadyInitialized))
    );
    assert_eq!(second.config, Some(prices()));
    assert_eq!(
        create_creator_profile(&mut second, 0, 6, 7),
        Err(program(SubscriptionError::ConfigAlreadyInitialized))
    );
    assert_eq!(second.config, Some(prices()));
}

#[test]
fn update_changes_what_is_offered_and_keeps_the_rest() {
    let mut ctx = UpdateCreatorPrice { creator: creator(), config: Some(prices()) };
    assert_eq!(update_creator_price(&mut ctx, Some(120), None, Some(1000)), Ok(()));
    assert_eq!(
        ctx.config,
        Some(Config {
            creator: creator(),
            month_price: 120,
            quartal_price: 250,
            annual_price: 1000,
            bump: 254
        })
    );
    assert_eq!(update_creator_price(&mut ctx, None, Some(1), None), Ok(()));
    assert_eq!(ctx.config.unwrap().quartal_price, 1);
    assert_eq!(ctx.config.unwrap().month_price, 120);
}

#[test]
fn update_with_nothing_offered_changes_nothing() {
    let mut ctx = UpdateCreatorPrice { creator: creator(), config: Some(prices()) };
    assert_eq!(update_creator_price(&mut ctx, None, None, None), Ok(()));
    assert_eq!(ctx.config, Some(prices()));
}

#[test]
fn update_with_one_zero_price_writes_nothing() {
    for (m, q, a) in [
        (Some(0u64), Some(300u64), Some(1000u64)),
        (Some(120), Some(0), None),
        (Some(120), Some(300), Some(0)),
        (None, None, Some(0)),
    ] {
        let mut ctx = UpdateCreatorPrice { creator: creator(), config: Some(prices()) };
        assert_eq!(
            update_creator_price(&mut ctx, m, q, a),
            Err(program(SubscriptionError::PriceTooLow))
        );
        assert_eq!(ctx.config, Some(prices()));
    }
}

#[test]
fn update_is_for_the_creator_only() {
    let mut ctx = UpdateCreatorPrice { creator: stranger(), config: Some(prices()) };
    assert_eq!(
        update_creator_price(&mut ctx, Some(1), Some(1), Some(1)),
        Err(OperationError::Unauthorized)
    );
    assert_eq!(ctx.config, Some(prices()));
    let mut absent = UpdateCreatorPrice { creator: creator(), config: None };
    assert_eq!(
        update_creator_price(&mut absent, Some(1), None, None),
        Err(OperationError::RecordMissing)
    );
    assert_eq!(absent.config, None);
}

#[test]
fn subscribe_month_at_1000() {
    let mut ctx = Subscribe {
        creator: creator(),
        config: Some(prices()),
        subscriber: subscriber(),
        subscription: None,
        bump: 253,
    };
    let payment = subscription(&mut ctx, SubscriptionType::Month, 1000);
    assert_eq!(payment, Ok(Payment { from: subscriber(), to: creator(), amount: 100 }));
    assert_eq!(ctx.subscription, Some(record(2_593_000, 0, SubscriptionType::Month)));
    assert_eq!(ctx.config, Some(prices()));

    let paid = payment.unwrap();
    let (creator_before, subscriber_before) = (5_000u64, 700u64);
    let creator_after = creator_before + paid.amount;
    let subscriber_after = subscriber_before - paid.amount;
    assert_eq!(creator_after - creator_before, prices().month_price);
    assert_eq!(subscriber_before - subscriber_after, prices().month_price);
}

#[test]
fn subscribe_each_tier_costs_its_price() {
    for (typ, amount, end) in [
        (SubscriptionType::Month, 100u64, 2_592_010i64),
        (SubscriptionType::Quartal, 250, 7_776_010),
        (SubscriptionType::Annual, 900, 31_536_010),
    ] {
        let mut ctx = Subscribe {
            creator: creator(),
            config: Some(prices()),
            subscriber: subscriber(),
            subscription: None,
            bump: 253,
        };
        let payment = subscription(&mut ctx, typ, 10).unwrap();
        assert_eq!(payment.amount, amount);
        assert_eq!(ctx.subscription, Some(record(end, 0, typ)));
    }
}

#[test]
fn subscribe_is_refused_on_bad_accounts() {
    let good = Subscribe {
        creator: creator(),
        config: Some(prices()),
        subscriber: subscriber(),
        subscription: None,
        bump: 253,
    };

    let mut no_prices = Subscribe { config: None, ..good };
    assert_eq!(
        subscription(&mut no_prices, SubscriptionType::Month, 1000),
        Err(OperationError::RecordMissing)
    );
    assert_eq!(no_prices.subscription, None);

    let taken = Some(record(9000, 0, SubscriptionType::Annual));
    let mut twice = Subscribe { subscription: taken, ..good };
    assert_eq!(
        subscription(&mut twice, SubscriptionType::Month, 1000),
        Err(OperationError::RecordExists)
    );
    assert_eq!(twice.subscription, taken);

    let mut wrong_payee = Subscribe { creator: stranger(), ..good };
    assert_eq!(
        subscription(&mut wrong_payee, SubscriptionType::Month, 1000),
        Err(program(SubscriptionError::InvalidCreator))
    );
    assert_eq!(wrong_payee.subscription, None);

    let mut too_late = good;
    assert_eq!(
        subscription(&mut too_late, SubscriptionType::Month, i64::MAX - 2_591_999),
        Err(OperationError::TimestampOverflow)
    );
    assert_eq!(too_late.subscription, None);
    let mut just_in_time = good;
    assert!(subscription(&mut just_in_time, SubscriptionType::Month, i64::MAX - 2_592_000).is_ok());
    assert_eq!(just_in_time.subscription.unwrap().end_timestamp, i64::MAX);
}

#[test]
fn pause_at_1500_then_again() {
    let mut ctx = PauseSubscription {
        subscriber: subscriber(),
        subscription: Some(record(2_593_000, 0, SubscriptionType::Month)),
    };
    assert_eq!(pause_subscription(&mut ctx, 1500), Ok(()));
    assert_eq!(ctx.subscription, Some(record(2_593_000, 1500, SubscriptionType::Month)));
    assert_eq!(
        pause_subscription(&mut ctx, 1500),
        Err(program(SubscriptionError::AlreadyPausedSubscription))
    );
    assert_eq!(
        pause_subscription(&mut ctx, 1600),
        Err(program(SubscriptionError::AlreadyPausedSubscription))
    );
    assert_eq!(ctx.subscription, Some(record(2_593_000, 1500, SubscriptionType::Month)));
}

#[test]
fn resume_at_2000_after_pause_at_1500() {
    let mut ctx = ResumeSubscription {
        subscriber: subscriber(),
        subscription: Some(record(2_593_000, 1500, SubscriptionType::Month)),
    };
    assert_eq!(resume_subscription(&mut ctx, 2000), Ok(()));
    assert_eq!(ctx.subscription, Some(record(2_593_500, 1500, SubscriptionType::Month)));
}

#[test]
fn resume_keeps_the_time_of_the_pause() {
    let mut ctx = ResumeSubscription {
        subscriber: subscriber(),
        subscription: Some(record(2_593_000, 1500, SubscriptionType::Month)),
    };
    assert_eq!(resume_subscription(&mut ctx, 2000), Ok(()));
    let mut pause = PauseSubscription { subscriber: subscriber(), subscription: ctx.subscription };
    assert_eq!(
        pause_subscription(&mut pause, 2100),
        Err(program(SubscriptionError::AlreadyPausedSubscription))
    );
    assert_eq!(resume_subscription(&mut ctx, 2000), Ok(()));
    assert_eq!(ctx.subscription, Some(record(2_594_000, 1500, SubscriptionType::Month)));
}

#[test]
fn resume_is_refused_when_not_paused() {
    for paused_at in [0i64, -1, i64::MIN] {
        let before = Some(record(2_593_000, paused_at, SubscriptionType::Month));
        let mut ctx = ResumeSubscription { subscriber: subscriber(), subscription: before };
        assert_eq!(
            resume_subscription(&mut ctx, 2000),
            Err(program(SubscriptionError::NotPausedSubscription))
        );
        assert_eq!(ctx.subscription, before);
    }
}

#[test]
fn resume_is_refused_where_the_end_does_not_fit() {
    let before = Some(record(i64::MAX - 10, 1500, SubscriptionType::Month));
    let mut ctx = ResumeSubscription { subscriber: subscriber(), subscription: before };
    assert_eq!(resume_subscription(&mut ctx, 1511), Err(OperationError::TimestampOverflow));
    assert_eq!(ctx.subscription, before);
    assert_eq!(resume_subscription(&mut ctx, 1510), Ok(()));
    assert_eq!(ctx.subscription.unwrap().end_timestamp, i64::MAX);

    let early = Some(record(i64::MAX, 2, SubscriptionType::Month));
    let mut ctx = ResumeSubscription { subscriber: subscriber(), subscription: early };
    assert_eq!(resume_subscription(&mut ctx, i64::MIN + 1), Err(OperationError::TimestampOverflow));
    assert_eq!(ctx.subscription, early);
    assert_eq!(resume_subscription(&mut ctx, i64::MIN + 2), Ok(()));
    assert_eq!(ctx.subscription.unwrap().end_timestamp, -1);
}

#[test]
fn resume_before_the_pause_moves_the_end_back() {
    let mut ctx = ResumeSubscription {
        subscriber: subscriber(),
        subscription: Some(record(10_000, 1500, SubscriptionType::Month)),
    };
    assert_eq!(resume_subscription(&mut ctx, 1000), Ok(()));
    assert_eq!(ctx.subscription.unwrap().end_timestamp, 9_500);
}

#[test]
fn extend_quartal_adds_to_the_end() {
    for prior in [SubscriptionType::Month, SubscriptionType::Quartal, SubscriptionType::Annual] {
        let mut ctx = ExtendSubscription {
            creator: creator(),
            subscriber: subscriber(),
            subscription: Some(record(2_593_000, 0, prior)),
            config: Some(prices()),
        };
        let payment = extend_subscription(&mut ctx, SubscriptionType::Quartal, 2000);
        assert_eq!(payment, Ok(Payment { from: subscriber(), to: creator(), amount: 250 }));
        assert_eq!(ctx.subscription, Some(record(10_369_000, 0, SubscriptionType::Quartal)));
    }
}

#[test]
fn extend_does_not_ask_whether_paused() {
    let mut ctx = ExtendSubscription {
        creator: creator(),
        subscriber: subscriber(),
        subscription: Some(record(2_593_000, 1500, SubscriptionType::Month)),
        config: Some(prices()),
    };
    assert_eq!(extend_subscription(&mut ctx, SubscriptionType::Annual, 2000).unwrap().amount, 900);
    assert_eq!(ctx.subscription, Some(record(34_129_000, 1500, SubscriptionType::Annual)));
}

#[test]
fn pause_and_extend_are_refused_on_an_expired_record() {
    for now in [2_593_000i64, 2_593_001, i64::MAX] {
        let before = Some(record(2_593_000, 0, SubscriptionType::Month));
        let mut pause = PauseSubscription { subscriber: subscriber(), subscription: before };
        assert_eq!(
            pause_subscription(&mut pause, now),
            Err(program(SubscriptionError::ExpiredSubscription))
        );
        assert_eq!(pause.subscription, before);
        let mut extend = ExtendSubscription {
            creator: creator(),
            subscriber: subscriber(),
            subscription: before,
            config: Some(prices()),
        };
        assert_eq!(
            extend_subscription(&mut extend, SubscriptionType::Month, now),
            Err(program(SubscriptionError::ExpiredSubscription))
        );
        assert_eq!(extend.subscription, before);
    }
    let mut pause = PauseSubscription {
        subscriber: subscriber(),
        subscription: Some(record(2_593_000, 0, SubscriptionType::Month)),
    };
    assert_eq!(pause_subscription(&mut pause, 2_592_999), Ok(()));
}

#[test]
fn checks_on_the_accounts_come_before_the_check_on_the_time() {
    let mut pause = PauseSubscription {
        subscriber: subscriber(),
        subscription: Some(record(2_593_000, 1500, SubscriptionType::Month)),
    };
    assert_eq!(
        pause_subscription(&mut pause, 3_000_000),
        Err(program(SubscriptionError::AlreadyPausedSubscription))
    );
    let mut extend = ExtendSubscription {
        creator: stranger(),
        subscriber: subscriber(),
        subscription: Some(record(2_593_000, 0, SubscriptionType::Month)),
        config: Some(prices()),
    };
    assert_eq!(
        extend_subscription(&mut extend, SubscriptionType::Month, 3_000_000),
        Err(program(SubscriptionError::InvalidCreator))
    );
}

#[test]
fn extend_is_refused_on_bad_accounts() {
    let before = Some(record(2_593_000, 0, SubscriptionType::Month));
    let good = ExtendSubscription {
        creator: creator(),
        subscriber: subscriber(),
        subscription: before,
        config: Some(prices()),
    };
    let mut wrong_payee = ExtendSubscription { creator: stranger(), ..good };
    assert_eq!(
        extend_subscription(&mut wrong_payee, SubscriptionType::Month, 2000),
        Err(program(SubscriptionError::InvalidCreator))
    );
    assert_eq!(wrong_payee.subscription, before);
    let mut not_owner = ExtendSubscription { subscriber: stranger(), ..good };
    assert_eq!(
        extend_subscription(&mut not_owner, SubscriptionType::Month, 2000),
        Err(OperationError::Unauthorized)
    );
    let mut no_prices = ExtendSubscription { config: None, ..good };
    assert_eq!(
        extend_subscription(&mut no_prices, SubscriptionType::Month, 2000),
        Err(OperationError::RecordMissing)
    );
    let mut far = ExtendSubscription {
        subscription: Some(record(i64::MAX - 2_591_999, 0, SubscriptionType::Month)),
        ..good
    };
    assert_eq!(
        extend_subscription(&mut far, SubscriptionType::Month, 2000),
        Err(OperationError::TimestampOverflow)
    );
    assert_eq!(far.subscription, Some(record(i64::MAX - 2_591_999, 0, SubscriptionType::Month)));
}

#[test]
fn only_the_owner_pauses_resumes_and_cancels() {
    let running = Some(record(2_593_000, 0, SubscriptionType::Month));
    let paused = Some(record(2_593_000, 1500, SubscriptionType::Month));
    let mut pause = PauseSubscription { subscriber: stranger(), subscription: running };
    assert_eq!(pause_subscription(&mut pause, 1500), Err(OperationError::Unauthorized));
    assert_eq!(pause.subscription, running);
    let mut resume = ResumeSubscription { subscriber: stranger(), subscription: paused };
    assert_eq!(resume_subscription(&mut resume, 2000), Err(OperationError::Unauthorized));
    assert_eq!(resume.subscription, paused);
    let mut cancel = CancelSubscription { subscriber: stranger(), subscription: running };
    assert_eq!(cancel_subscription(&mut cancel), Err(OperationError::Unauthorized));
    assert_eq!(cancel.subscription, running);
}

#[test]
fn cancel_removes_the_record() {
    for before in [
        record(2_593_000, 0, SubscriptionType::Month),
        record(2_593_000, 1500, SubscriptionType::Quartal),
        record(-5, 0, SubscriptionType::Annual),
    ] {
        let mut cancel = CancelSubscription { subscriber: subscriber(), subscription: Some(before) };
        assert_eq!(cancel_subscription(&mut cancel), Ok(()));
        assert_eq!(cancel.subscription, None);

        let mut pause =
            PauseSubscription { subscriber: subscriber(), subscription: cancel.subscription };
        assert_eq!(pause_subscription(&mut pause, 1000), Err(OperationError::RecordMissing));
        let mut resume =
            ResumeSubscription { subscriber: subscriber(), subscription: cancel.subscription };
        assert_eq!(resume_subscription(&mut resume, 1000), Err(OperationError::RecordMissing));
        let mut extend = ExtendSubscription {
            creator: creator(),
            subscriber: subscriber(),
            subscription: cancel.subscription,
            config: Some(prices()),
        };
        assert_eq!(
            extend_subscription(&mut extend, SubscriptionType::Month, 1000),
            Err(OperationError::RecordMissing)
        );
        assert_eq!(cancel_subscription(&mut cancel), Err(OperationError::RecordMissing));

        let mut again = Subscribe {
            creator: creator(),
            config: Some(prices()),
            subscriber: subscriber(),
            subscription: cancel.subscription,
            bump: 253,
        };
        assert!(subscription(&mut again, SubscriptionType::Month, 1000).is_ok());
    }
}

#[test]
fn pause_at_time_zero_leaves_the_record_running() {
    let mut ctx = PauseSubscription {
        subscriber: subscriber(),
        subscription: Some(record(100, 0, SubscriptionType::Month)),
    };
    assert_eq!(pause_subscription(&mut ctx, 0), Ok(()));
    assert_eq!(ctx.subscription, Some(record(100, 0, SubscriptionType::Month)));
    assert_eq!(pause_subscription(&mut ctx, 50), Ok(()));
    assert_eq!(ctx.subscription.unwrap().paused_at, 50);
}

#[test]
fn end_to_end() {
    let mut init = InitCreatorConfig { creator: creator(), config: None, bump: 254 };
    assert_eq!(create_creator_profile(&mut init, 100, 250, 900), Ok(()));
    let config = init.config;

    let mut subscribe = Subscribe {
        creator: creator(),
        config,
        subscriber: subscriber(),
        subscription: None,
        bump: 253,
    };
    let paid = subscription(&mut subscribe, SubscriptionType::Month, 1000).unwrap();
    assert_eq!(paid.amount, 100);
    assert_eq!(paid.from, subscriber());
    assert_eq!(paid.to, creator());
    assert_eq!(subscribe.subscription.unwrap().end_timestamp, 2_593_000);

    let mut extend = ExtendSubscription {
        creator: creator(),
        subscriber: subscriber(),
        subscription: subscribe.subscription,
        config,
    };
    assert_eq!(
        extend_subscription(&mut extend, SubscriptionType::Month, 2_593_100),
        Err(program(SubscriptionError::ExpiredSubscription))
    );
    assert_eq!(extend.subscription, subscribe.subscription);
}

#[test]
fn every_kind_has_its_message() {
    assert_eq!(SubscriptionError::PriceTooLow.message(), "Price is too low");
    assert_eq!(SubscriptionError::ConfigAlreadyInitialized.message(), "Config already initialized");
    assert_eq!(SubscriptionError::PausedSubscription.message(), "Subscription paused");
    assert_eq!(
        SubscriptionError::AlreadyPausedSubscription.message(),
        "Subscription already paused"
    );
    assert_eq!(SubscriptionError::ExpiredSubscription.message(), "Subscription expired");
    assert_eq!(SubscriptionError::NotPausedSubscription.message(), "Subscription is not paused");
    assert_eq!(SubscriptionError::InvalidCreator.message(), "Invalid creator");
}

#[test]
fn the_checks_alone_change_nothing() {
    let ctx = PauseSubscription {
        subscriber: subscriber(),
        subscription: Some(record(2_593_000, 0, SubscriptionType::Month)),
    };
    assert_eq!(ctx.check(), Ok(()));
    let init = InitCreatorConfig { creator: creator(), config: None, bump: 0 };
    assert_eq!(init.check(1, 1, 1), Ok(()));
    assert_eq!(init.check(1, 0, 1), Err(program(SubscriptionError::PriceTooLow)));
}

#[test]
fn resume_and_extend_do_not_move_the_end_back() {
    let mut resume = ResumeSubscription {
        subscriber: subscriber(),
        subscription: Some(record(2_593_000, 1500, SubscriptionType::Month)),
    };
    assert_eq!(resume_subscription(&mut resume, 1500), Ok(()));
    assert_eq!(resume.subscription.unwrap().end_timestamp, 2_593_000);
    let mut extend = ExtendSubscription {
        creator: creator(),
        subscriber: subscriber(),
        subscription: resume.subscription,
        config: Some(prices()),
    };
    assert!(extend_subscription(&mut extend, SubscriptionType::Annual, 1500).is_ok());
    assert_eq!(extend.subscription.unwrap().end_timestamp, 34_129_000);
    assert_eq!(extend.config, Some(prices()));
}

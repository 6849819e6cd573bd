use market_feed::instrument::{DataFeed, FeedError, Instrument, Kind, Push};

#[test]
fn scenario_reuters() {
    let mut feed = DataFeed::new("reuters".to_owned());
    feed.add(Instrument::new(Kind::Equity("AAPL".to_owned())))
        .unwrap();
    feed.add(Instrument::new(Kind::Currency("EUR=".to_owned())))
        .unwrap();

    let image = feed.subscribe("AAPL".to_owned()).unwrap();
    assert_eq!(image.push, Push::Image);
    assert_eq!(image.name, "AAPL");
    assert_eq!(feed.registry[0].get_subscribers(), 1);

    match feed.subscribe("XYZ".to_owned()) {
        Err(e) => assert_eq!(e, FeedError::NotFound),
        Ok(_) => panic!("unregistered identifier accepted"),
    }

    let streams = feed.start(5);
    assert_eq!(feed.registry[0].read_snapshot().tick, 5);
    assert_eq!(feed.registry[1].read_snapshot().tick, 5);
    assert_eq!(streams.len(), 2);
    assert_eq!(streams[0].len(), 5);
    assert_eq!(streams[1].len(), 0);
    for em in &streams[0] {
        assert_eq!(em.push, Push::Update);
        assert_eq!(em.name, "AAPL");
    }
}

#[test]
fn unsubscribed_stay_silent() {
    let mut feed = DataFeed::new("quiet".to_owned());
    feed.add(Instrument::new(Kind::Bond("46590XAR7=".to_owned())))
        .unwrap();
    feed.add(Instrument::new(Kind::Warrant("WTS".to_owned())))
        .unwrap();

    assert!(feed.flush().is_empty());

    let streams = feed.start(4);
    assert!(streams.iter().all(|s| s.is_empty()));
    assert_eq!(feed.registry[0].read_snapshot().tick, 4);
    assert_eq!(feed.registry[1].read_snapshot().tick, 4);
    assert!(feed.flush().is_empty());
}

#[test]
fn subscribe_emits_initial_image_synchronously() {
    let mut feed = DataFeed::new("images".to_owned());
    feed.add(Instrument::new(Kind::Equity("MSFT".to_owned())))
        .unwrap();

    let image = feed.subscribe("MSFT".to_owned()).unwrap();
    assert_eq!(image.push, Push::Image);
    assert_eq!(image.name, "MSFT");
    assert_eq!(image.data, feed.registry[0].read_snapshot());
    assert_eq!(image.data.tick, 0);
    assert_eq!(image.data.last, 0);
    assert_eq!(feed.registry[0].get_subscribers(), 1);
}

#[test]
fn flush_images_only_subscribed() {
    let mut feed = DataFeed::new("mixed".to_owned());
    feed.add(Instrument::new(Kind::Equity("AAPL".to_owned())))
        .unwrap();
    feed.add(Instrument::new(Kind::Currency("CHF=".to_owned())))
        .unwrap();
    feed.subscribe("CHF=".to_owned()).unwrap();

    let images = feed.flush();
    assert_eq!(images.len(), 1);
    assert_eq!(images[0].push, Push::Image);
    assert_eq!(images[0].name, "CHF=");
}

#[test]
fn ticks_are_monotone_and_count_the_loops() {
    let mut inst = Instrument::new(Kind::Currency("IDR=".to_owned()));
    inst.increment_subscriber();

    let before = inst.read_snapshot().tick;
    let updates = inst.run(5);
    assert_eq!(inst.read_snapshot().tick, before + 5);
    assert_eq!(updates.len(), 5);
    let mut prev = before;
    for em in &updates {
        assert!(em.data.tick > prev);
        prev = em.data.tick;
    }
    assert_eq!(prev, 5);

    let again = inst.read_snapshot().tick;
    assert!(again >= prev);
}

#[test]
fn updates_carry_prices_below_the_tick_range() {
    let mut inst = Instrument::new(Kind::Equity("AAPL".to_owned()));
    inst.increment_subscriber();
    let updates = inst.run(20);
    assert_eq!(updates.len(), 20);
    for em in &updates {
        assert!(em.data.last < 1000);
    }
    assert!(inst.read_snapshot().last < 1000);
}

#[test]
fn duplicate_identifier_rejected() {
    let mut feed = DataFeed::new("dups".to_owned());
    feed.add(Instrument::new(Kind::Equity("AAPL".to_owned())))
        .unwrap();
    let second = feed.add(Instrument::new(Kind::Bond("AAPL".to_owned())));
    assert_eq!(second, Err(FeedError::DuplicateIdentifier));
    assert_eq!(feed.registry.len(), 1);
}

#[test]
fn tick_step_pushes_only_while_subscribed() {
    let mut inst = Instrument::new(Kind::Equity("MSFT".to_owned()));
    assert!(inst.tick_step(42).is_none());
    assert_eq!(inst.read_snapshot().tick, 1);
    assert_eq!(inst.read_snapshot().last, 42);

    inst.increment_subscriber();
    let em = inst.tick_step(7).unwrap();
    assert_eq!(em.push, Push::Update);
    assert_eq!(em.name, "MSFT");
    assert_eq!(em.data.tick, 2);
    assert_eq!(em.data.last, 7);
}

#[test]
fn zero_loops_change_nothing() {
    let mut feed = DataFeed::new("still".to_owned());
    feed.add(Instrument::new(Kind::Equity("AAPL".to_owned())))
        .unwrap();
    feed.subscribe("AAPL".to_owned()).unwrap();
    let streams = feed.start(0);
    assert_eq!(streams.len(), 1);
    assert!(streams[0].is_empty());
    assert_eq!(feed.registry[0].read_snapshot().tick, 0);
}

#[test]
fn empty_feed_is_silent() {
    let mut feed = DataFeed::new("empty".to_owned());
    assert!(feed.flush().is_empty());
    assert!(feed.start(3).is_empty());
    match feed.subscribe("AAPL".to_owned()) {
        Err(e) => assert_eq!(e, FeedError::NotFound),
        Ok(_) => panic!("subscription to an empty feed succeeded"),
    }
}

#[test]
fn identity_is_immutable_through_ticks() {
    let mut inst = Instrument::new(Kind::Warrant("WTS".to_owned()));
    {
        let (name, kind) = inst.get_identity();
        assert_eq!(name, "WTS");
        assert!(matches!(kind, Kind::Warrant(_)));
    }
    inst.run(3);
    let (name, _) = inst.get_identity();
    assert_eq!(name, "WTS");
}

#[test]
fn subscribing_twice_counts_twice() {
    let mut feed = DataFeed::new("twice".to_owned());
    feed.add(Instrument::new(Kind::Equity("AAPL".to_owned())))
        .unwrap();
    feed.subscribe("AAPL".to_owned()).unwrap();
    feed.subscribe("AAPL".to_owned()).unwrap();
    assert_eq!(feed.registry[0].get_subscribers(), 2);
}

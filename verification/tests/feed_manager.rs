use data_oracle::domain::data_point::{DataValue, FeedId, PriceData, Timestamp, VerifiedDataPoint};
use data_oracle::domain::feed::{FeedCategory, FeedConfig, FeedState};
use data_oracle::error::OracleError;
use data_oracle::state::feed_manager::FeedManager;

fn point(feed: &str, price: f64, secs: i64) -> VerifiedDataPoint {
    VerifiedDataPoint {
        id: 99,
        feed_id: FeedId::new(feed),
        value: DataValue::Price(PriceData {
            price: price.to_bits(),
            currency: "USD".to_string(),
            volume_24h: Some(1.5f64.to_bits()),
            market_cap: None,
        }),
        timestamp: Timestamp { secs, nanos: 5 },
        confidence: 0.9f64.to_bits(),
    }
}

fn manager() -> FeedManager {
    let mut m = FeedManager::new();
    m.initialize_default_feeds();
    m
}

#[test]
fn new_manager_has_no_feeds() {
    let m = FeedManager::new();
    assert!(m.get_all_feeds().is_empty());
    match m.get_feed(&FeedId::new("ETH/USD")) {
        Err(OracleError::FeedNotFound(id)) => assert_eq!(id, "ETH/USD"),
        other => panic!("unexpected {:?}", other),
    }
}

#[test]
fn default_feeds_are_registered() {
    let m = manager();
    for (id, name) in [
        ("ETH/USD", "Ethereum / US Dollar"),
        ("BTC/USD", "Bitcoin / US Dollar"),
        ("SOL/USD", "Solana / US Dollar"),
    ] {
        let state = m.get_feed(&FeedId::new(id)).unwrap();
        assert_eq!(state.config.id.0, id);
        assert_eq!(state.config.name, name);
        assert_eq!(state.config.category, FeedCategory::Crypto);
        assert!(state.config.active);
        assert!(state.last_value.is_none());
        assert!(state.last_update.is_none());
        assert_eq!(state.error_count, 0);
    }
    let mut ids: Vec<String> = m.get_all_feeds().into_iter().map(|s| s.config.id.0).collect();
    ids.sort();
    assert_eq!(ids, vec!["BTC/USD", "ETH/USD", "SOL/USD"]);
}

#[test]
fn initialize_twice_keeps_three_fresh_feeds() {
    let mut m = manager();
    m.update_feed(&point("ETH/USD", 2500.0, 10)).unwrap();
    m.initialize_default_feeds();
    assert_eq!(m.get_all_feeds().len(), 3);
    assert!(m.get_feed(&FeedId::new("ETH/USD")).unwrap().last_value.is_none());
}

#[test]
fn update_then_get_reads_back_the_point() {
    let mut m = manager();
    let p = point("BTC/USD", 65000.0, 1_700_000_000);
    m.update_feed(&p).unwrap();
    let state = m.get_feed(&FeedId::new("BTC/USD")).unwrap();
    assert_eq!(state.last_value, Some(p.clone()));
    assert_eq!(state.last_update, Some(p.timestamp));
    assert_eq!(state.error_count, 0);
    assert_eq!(state.config.name, "Bitcoin / US Dollar");
    let other = m.get_feed(&FeedId::new("ETH/USD")).unwrap();
    assert!(other.last_value.is_none());
}

#[test]
fn update_of_unknown_feed_fails_and_changes_nothing() {
    let mut m = manager();
    match m.update_feed(&point("DOGE/USD", 0.1, 1)) {
        Err(OracleError::FeedNotFound(id)) => assert_eq!(id, "DOGE/USD"),
        other => panic!("unexpected {:?}", other),
    }
    assert_eq!(m.get_all_feeds().len(), 3);
    assert!(m.get_feed(&FeedId::new("DOGE/USD")).is_err());
}

#[test]
fn errors_are_counted_and_cleared_by_an_update() {
    let mut m = manager();
    let id = FeedId::new("SOL/USD");
    m.record_error(&id);
    m.record_error(&id);
    assert_eq!(m.get_feed(&id).unwrap().error_count, 2);
    assert_eq!(m.get_feed(&FeedId::new("ETH/USD")).unwrap().error_count, 0);
    m.update_feed(&point("SOL/USD", 150.0, 3)).unwrap();
    assert_eq!(m.get_feed(&id).unwrap().error_count, 0);
    m.record_error(&id);
    let state = m.get_feed(&id).unwrap();
    assert_eq!(state.error_count, 1);
    assert_eq!(state.last_value, Some(point("SOL/USD", 150.0, 3)));
}

#[test]
fn error_on_unknown_feed_is_ignored() {
    let mut m = manager();
    m.record_error(&FeedId::new("XRP/USD"));
    assert_eq!(m.get_all_feeds().len(), 3);
    assert!(m.get_feed(&FeedId::new("XRP/USD")).is_err());
}

#[test]
fn listed_feeds_are_found_by_lookup() {
    let mut m = manager();
    m.update_feed(&point("ETH/USD", 2400.0, 8)).unwrap();
    for state in m.get_all_feeds() {
        assert_eq!(m.get_feed(&state.config.id).unwrap(), state);
    }
}

#[test]
fn feed_state_new_is_fresh() {
    let config = FeedConfig {
        id: FeedId::new("EUR/USD"),
        name: "Euro / US Dollar".to_string(),
        category: FeedCategory::Forex,
        active: false,
    };
    let state = FeedState::new(config.clone());
    assert_eq!(state.config, config);
    assert!(state.last_value.is_none() && state.last_update.is_none());
    assert_eq!(state.error_count, 0);
}

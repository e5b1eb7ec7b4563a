use std::collections::HashSet;

use data_oracle::aggregation::engine::AggregationEngine;
use data_oracle::domain::data_point::{DataValue, FeedId, PriceData, RawDataPoint, Timestamp};
use data_oracle::sources::coingecko::feed_to_coint_id;
use data_oracle::state::feed_manager::FeedManager;

fn manager() -> FeedManager {
    let mut m = FeedManager::new();
    m.initialize_default_feeds();
    m
}

#[test]
fn aggregated_point_becomes_the_latest_value() {
    let mut m = manager();
    let value = DataValue::Price(PriceData {
        price: 150.25f64.to_bits(),
        currency: "USD".to_string(),
        volume_24h: Some(2.0e9f64.to_bits()),
        market_cap: Some(7.0e10f64.to_bits()),
    });
    let raw = RawDataPoint {
        id: 11,
        feed_id: FeedId::new("SOL/USD"),
        source: "coingecko".to_string(),
        value: value.clone(),
        timestamp: Timestamp { secs: 1, nanos: 2 },
        confidence: 0.8f64.to_bits(),
    };
    let ts = Timestamp { secs: 1_725_000_000, nanos: 9 };
    let verified = AggregationEngine::aggregate_with(raw, 77, ts).unwrap();
    m.update_feed(&verified).unwrap();
    let state = m.get_feed(&FeedId::new("SOL/USD")).unwrap();
    let latest = state.last_value.unwrap();
    assert_eq!(latest.value, value);
    assert_eq!(f64::from_bits(latest.confidence), 0.8);
    assert_eq!(latest.feed_id, FeedId::new("SOL/USD"));
    assert_eq!(state.last_update, Some(ts));
}

#[test]
fn two_listings_agree_up_to_order() {
    let m = manager();
    let first: HashSet<String> = m.get_all_feeds().into_iter().map(|s| s.config.id.0).collect();
    let second = m.get_all_feeds();
    assert_eq!(second.len(), first.len());
    let second: HashSet<String> = second.into_iter().map(|s| s.config.id.0).collect();
    assert_eq!(first, second);
}

#[test]
fn default_feeds_are_fetchable() {
    let m = manager();
    for state in m.get_all_feeds() {
        assert!(feed_to_coint_id(&state.config.id).is_some());
    }
    assert_eq!(feed_to_coint_id(&FeedId::new("ETH/USD")), Some("ethereum"));
}

use data_oracle::api::handlers::feeds::{
    category_name, check_force_update, default_limit, feed_response, feed_responses, history_limit,
    HistoryQuery, LatestData, MAX_HISTORY_LIMIT,
};
use data_oracle::domain::data_point::{DataValue, FeedId, PriceData, Timestamp, VerifiedDataPoint};
use data_oracle::domain::feed::FeedCategory;
use data_oracle::error::OracleError;
use data_oracle::sources::coingecko::feed_to_coint_id;
use data_oracle::state::feed_manager::FeedManager;

fn manager() -> FeedManager {
    let mut m = FeedManager::new();
    m.initialize_default_feeds();
    m
}

#[test]
fn history_limit_defaults_and_caps() {
    assert_eq!(default_limit(), 100);
    assert_eq!(history_limit(&HistoryQuery { limit: default_limit() }), 100);
    assert_eq!(history_limit(&HistoryQuery { limit: 1000 }), 1000);
    assert_eq!(history_limit(&HistoryQuery { limit: 5000 }), MAX_HISTORY_LIMIT);
    assert_eq!(history_limit(&HistoryQuery { limit: -3 }), -3);
}

#[test]
fn category_names_follow_debug() {
    for c in [FeedCategory::Crypto, FeedCategory::Forex, FeedCategory::Commodities, FeedCategory::Weather] {
        assert_eq!(category_name(c), format!("{:?}", c));
    }
}

#[test]
fn response_of_fresh_and_updated_feed() {
    let mut m = manager();
    let fresh = m.get_feed(&FeedId::new("ETH/USD")).unwrap();
    let r = feed_response(&fresh);
    assert_eq!(r.id, "ETH/USD");
    assert_eq!(r.name, "Ethereum / US Dollar");
    assert_eq!(r.category, "Crypto");
    assert!(r.active);
    assert!(r.latest.is_none());

    let value = DataValue::Price(PriceData {
        price: 2500.5f64.to_bits(),
        currency: "USD".to_string(),
        volume_24h: None,
        market_cap: Some(3.0e11f64.to_bits()),
    });
    let p = VerifiedDataPoint {
        id: 1,
        feed_id: FeedId::new("ETH/USD"),
        value: value.clone(),
        timestamp: Timestamp { secs: 1_725_029_869, nanos: 0 },
        confidence: 0.9f64.to_bits(),
    };
    m.update_feed(&p).unwrap();
    let r = feed_response(&m.get_feed(&FeedId::new("ETH/USD")).unwrap());
    assert_eq!(
        r.latest,
        Some(LatestData {
            value,
            timestamp: Timestamp { secs: 1_725_029_869, nanos: 0 },
            confidence: 0.9f64.to_bits(),
        })
    );
    let all = m.get_all_feeds();
    let rs = feed_responses(&all);
    assert_eq!(rs.len(), all.len());
    for (s, r) in all.iter().zip(rs.iter()) {
        assert_eq!(r.id, s.config.id.0);
    }
}

#[test]
fn force_update_checks() {
    let m = manager();
    match check_force_update(&m, &FeedId::new("DOGE/USD"), true) {
        Err(OracleError::FeedNotFound(id)) => assert_eq!(id, "DOGE/USD"),
        other => panic!("unexpected {:?}", other),
    }
    match check_force_update(&m, &FeedId::new("DOGE/USD"), false) {
        Err(OracleError::FeedNotFound(id)) => assert_eq!(id, "DOGE/USD"),
        other => panic!("unexpected {:?}", other),
    }
    match check_force_update(&m, &FeedId::new("ETH/USD"), false) {
        Err(OracleError::BadRequest(msg)) => {
            assert_eq!(msg, "Feed ETH/USD not supported by data source")
        }
        other => panic!("unexpected {:?}", other),
    }
    assert!(check_force_update(&m, &FeedId::new("ETH/USD"), true).is_ok());
}

#[test]
fn coingecko_ids() {
    assert_eq!(feed_to_coint_id(&FeedId::new("ETH/USD")), Some("ethereum"));
    assert_eq!(feed_to_coint_id(&FeedId::new("BTC/USD")), Some("bitcoin"));
    assert_eq!(feed_to_coint_id(&FeedId::new("SOL/USD")), Some("solana"));
    assert_eq!(feed_to_coint_id(&FeedId::new("LINK/USD")), Some("chainlink"));
    assert_eq!(feed_to_coint_id(&FeedId::new("AVAX/USD")), Some("avalanche-2"));
    assert_eq!(feed_to_coint_id(&FeedId::new("eth/usd")), None);
    assert_eq!(feed_to_coint_id(&FeedId::new("")), None);
}

#[test]
fn error_replies() {
    let r = OracleError::FeedNotFound("X/Y".to_string()).reply();
    assert_eq!((r.status, r.code, r.message.as_str()), (404, "FEED_NOT_FOUND", "Feed not found: X/Y"));
    let r = OracleError::BadRequest("nope".to_string()).reply();
    assert_eq!((r.status, r.code, r.message.as_str()), (400, "BAD_REQUEST", "Invalid request : nope"));
    let r = OracleError::SourceFetch { source_name: "coingecko".to_string(), message: "timeout".to_string() }
        .reply();
    assert_eq!(
        (r.status, r.code, r.message.as_str()),
        (503, "SOURCE_UNAVAILABLE", "Failed to fetch from source coingecko: timeout")
    );
    let json_err = serde_json::from_str::<serde_json::Value>("{").unwrap_err();
    let e = OracleError::Serialization(json_err);
    assert!(e.is_internal_error());
    let r = e.reply();
    assert_eq!((r.status, r.code, r.message.as_str()), (500, "INTERNAL_ERROR", "An internal error occured"));
    let r = OracleError::Database(sqlx::Error::RowNotFound).reply();
    assert_eq!((r.status, r.code, r.message.as_str()), (500, "INTERNAL_ERROR", "An internal error occured"));
    assert!(!OracleError::BadRequest(String::new()).is_internal_error());
}

//! Data points as they come from a source and as they are published.
//!
//! Floating-point quantities (prices, volumes, confidences) are carried as
//! their IEEE-754 binary64 bit patterns (`f64::to_bits`), so that the library
//! can hold them, compare them and move them without floating-point code.

use vstd::prelude::*;

verus! {

/// Identifier of a feed, such as `ETH/USD`.
#[derive(Debug, PartialEq, Eq, Hash)]
pub struct FeedId(pub String);

impl FeedId {
    pub fn new(id: &str) -> (r: FeedId)
        ensures
            r.0@ == id@,
    {
        FeedId(id.to_owned())
    }
}

impl Clone for FeedId {
    fn clone(&self) -> (r: Self)
        ensures
            r == *self,
    {
        FeedId(self.0.clone())
    }
}

/// A UTC instant: whole seconds since the Unix epoch and the nanoseconds
/// past that second (above 999_999_999 only during a leap second).
#[derive(Debug, Clone, Copy, PartialEq, Eq, Structural)]
pub struct Timestamp {
    pub secs: i64,
    pub nanos: u32,
}

/// A price observation. `price`, `volume_24h` and `market_cap` hold the bit
/// patterns of binary64 values.
#[derive(Debug, PartialEq)]
pub struct PriceData {
    pub price: u64,
    pub currency: String,
    pub volume_24h: Option<u64>,
    pub market_cap: Option<u64>,
}

impl Clone for PriceData {
    fn clone(&self) -> (r: Self)
        ensures
            r == *self,
    {
        PriceData {
            price: self.price,
            currency: self.currency.clone(),
            volume_24h: self.volume_24h,
            market_cap: self.market_cap,
        }
    }
}

/// The value a feed publishes.
#[derive(Debug, PartialEq)]
pub enum DataValue {
    Price(PriceData),
}

impl Clone for DataValue {
    fn clone(&self) -> (r: Self)
        ensures
            r == *self,
    {
        match self {
            DataValue::Price(p) => DataValue::Price(p.clone()),
        }
    }
}

/// A point as fetched from a source. `confidence` holds the bit pattern of a
/// binary64 value.
#[derive(Debug, PartialEq)]
pub struct RawDataPoint {
    pub id: u128,
    pub feed_id: FeedId,
    pub source: String,
    pub value: DataValue,
    pub timestamp: Timestamp,
    pub confidence: u64,
}

impl Clone for RawDataPoint {
    fn clone(&self) -> (r: Self)
        ensures
            r == *self,
    {
        RawDataPoint {
            id: self.id,
            feed_id: self.feed_id.clone(),
            source: self.source.clone(),
            value: self.value.clone(),
            timestamp: self.timestamp,
            confidence: self.confidence,
        }
    }
}

/// A point that passed aggregation and may be published. `confidence` holds
/// the bit pattern of a binary64 value.
#[derive(Debug, PartialEq)]
pub struct VerifiedDataPoint {
    pub id: u128,
    pub feed_id: FeedId,
    pub value: DataValue,
    pub timestamp: Timestamp,
    pub confidence: u64,
}

impl Clone for VerifiedDataPoint {
    fn clone(&self) -> (r: Self)
        ensures
            r == *self,
    {
        VerifiedDataPoint {
            id: self.id,
            feed_id: self.feed_id.clone(),
            value: self.value.clone(),
            timestamp: self.timestamp,
            confidence: self.confidence,
        }
    }
}

} // verus!

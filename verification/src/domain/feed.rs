//! Feeds: their static configuration and their live state.

use vstd::prelude::*;
use crate::domain::data_point::{FeedId, Timestamp, VerifiedDataPoint};

verus! {

#[derive(Debug, Clone, Copy, PartialEq, Eq, Structural)]
pub enum FeedCategory {
    Crypto,
    Forex,
    Commodities,
    Weather,
}

#[derive(Debug, PartialEq)]
pub struct FeedConfig {
    pub id: FeedId,
    pub name: String,
    pub category: FeedCategory,
    pub active: bool,
}

impl Clone for FeedConfig {
    fn clone(&self) -> (r: Self)
        ensures
            r == *self,
    {
        FeedConfig {
            id: self.id.clone(),
            name: self.name.clone(),
            category: self.category,
            active: self.active,
        }
    }
}

#[derive(Debug, PartialEq)]
pub struct FeedState {
    pub config: FeedConfig,
    pub last_value: Option<VerifiedDataPoint>,
    pub last_update: Option<Timestamp>,
    pub error_count: u32,
}

impl FeedState {
    /// The state of a feed that has published nothing yet.
    pub open spec fn is_fresh(&self) -> bool {
        &&& self.last_value is None
        &&& self.last_update is None
        &&& self.error_count == 0
    }

    pub fn new(config: FeedConfig) -> (r: FeedState)
        ensures
            r.config == config,
            r.is_fresh(),
    {
        FeedState { config, last_value: None, last_update: None, error_count: 0 }
    }
}

impl Clone for FeedState {
    fn clone(&self) -> (r: Self)
        ensures
            r == *self,
    {
        let last_value = match &self.last_value {
            Some(v) => Some(v.clone()),
            None => None,
        };
        FeedState {
            config: self.config.clone(),
            last_value,
            last_update: self.last_update,
            error_count: self.error_count,
        }
    }
}

} // verus!

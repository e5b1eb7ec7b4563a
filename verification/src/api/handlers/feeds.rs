//! What the feed endpoints answer: the description of a feed, the bound on a
//! history query, and the checks made before a forced update.

use vstd::prelude::*;
use vstd::string::*;
use crate::domain::data_point::{DataValue, FeedId, Timestamp};
use crate::domain::feed::{FeedCategory, FeedState};
use crate::error::OracleError;
use crate::state::feed_manager::{lookup, FeedManager};

verus! {

/// The latest value of a feed as described to clients. `timestamp` is
/// rendered as RFC 3339 text on the wire and `confidence` (the bit pattern of
/// a binary64 value) as a number.
#[derive(Debug, PartialEq)]
pub struct LatestData {
    pub value: DataValue,
    pub timestamp: Timestamp,
    pub confidence: u64,
}

/// A feed as described to clients.
#[derive(Debug, PartialEq)]
pub struct FeedResponse {
    pub id: String,
    pub name: String,
    pub category: String,
    pub active: bool,
    pub latest: Option<LatestData>,
}

/// The query of a history request.
#[derive(Debug, Clone, Copy, PartialEq, Eq, Structural)]
pub struct HistoryQuery {
    pub limit: i64,
}

/// The most points a history request returns.
pub const MAX_HISTORY_LIMIT: i64 = 1000;

/// The limit of a history query that names none.
pub fn default_limit() -> (r: i64)
    ensures
        r == 100,
{
    100
}

/// The number of points a history query asks the store for: its limit, capped
/// at `MAX_HISTORY_LIMIT`.
pub fn history_limit(query: &HistoryQuery) -> (r: i64)
    ensures
        r == (if query.limit <= MAX_HISTORY_LIMIT { query.limit } else { MAX_HISTORY_LIMIT }),
{
    if query.limit <= MAX_HISTORY_LIMIT {
        query.limit
    } else {
        MAX_HISTORY_LIMIT
    }
}

/// The name of a category, as its `Debug` form spells it.
pub open spec fn category_text(category: FeedCategory) -> Seq<char> {
    match category {
        FeedCategory::Crypto => "Crypto"@,
        FeedCategory::Forex => "Forex"@,
        FeedCategory::Commodities => "Commodities"@,
        FeedCategory::Weather => "Weather"@,
    }
}

pub fn category_name(category: FeedCategory) -> (r: String)
    ensures
        r@ == category_text(category),
{
    match category {
        FeedCategory::Crypto => "Crypto".to_owned(),
        FeedCategory::Forex => "Forex".to_owned(),
        FeedCategory::Commodities => "Commodities".to_owned(),
        FeedCategory::Weather => "Weather".to_owned(),
    }
}

/// `response` describes `feed`: its id, name, category and activity, and its
/// latest value, time and confidence if it has published.
pub open spec fn describes(response: FeedResponse, feed: FeedState) -> bool {
    &&& response.id@ == feed.config.id.0@
    &&& response.name@ == feed.config.name@
    &&& response.category@ == category_text(feed.config.category)
    &&& response.active == feed.config.active
    &&& response.latest == (match feed.last_value {
        Some(v) => Some(LatestData { value: v.value, timestamp: v.timestamp, confidence: v.confidence }),
        None => None,
    })
}

/// Describes a feed to clients.
pub fn feed_response(feed: &FeedState) -> (r: FeedResponse)
    ensures
        describes(r, *feed),
{
    let latest = match &feed.last_value {
        Some(v) => Some(
            LatestData { value: v.value.clone(), timestamp: v.timestamp, confidence: v.confidence },
        ),
        None => None,
    };
    FeedResponse {
        id: feed.config.id.0.clone(),
        name: feed.config.name.clone(),
        category: category_name(feed.config.category),
        active: feed.config.active,
        latest,
    }
}

/// Describes each of the feeds, in order.
pub fn feed_responses(feeds: &Vec<FeedState>) -> (r: Vec<FeedResponse>)
    ensures
        r.len() == feeds.len(),
        forall|i: int| 0 <= i < feeds.len() ==> describes(#[trigger] r[i], feeds[i]),
{
    let mut r: Vec<FeedResponse> = Vec::new();
    for i in 0..feeds.len()
        invariant
            r.len() == i,
            forall|j: int| 0 <= j < i ==> describes(#[trigger] r[j], feeds[j]),
    {
        r.push(feed_response(&feeds[i]));
    }
    r
}

/// The text that refuses a forced update of a feed the data source cannot
/// fetch.
pub open spec fn unsupported_text(id: Seq<char>) -> Seq<char> {
    "Feed "@ + id + " not supported by data source"@
}

/// The checks made before a feed is fetched on demand: the feed must be
/// registered, and `supported` (the data source's answer for it) must be true.
pub fn check_force_update(manager: &FeedManager, feed_id: &FeedId, supported: bool) -> (r: Result<
    (),
    OracleError,
>)
    ensures
        lookup(manager@, feed_id.0@) is None ==> r == Err::<(), OracleError>(
            OracleError::FeedNotFound(feed_id.0),
        ),
        lookup(manager@, feed_id.0@) is Some && !supported ==> (r matches Err(
            OracleError::BadRequest(m),
        ) && m@ == unsupported_text(feed_id.0@)),
        lookup(manager@, feed_id.0@) is Some && supported ==> r is Ok,
{
    let _ = manager.get_feed(feed_id)?;
    if !supported {
        let mut message = "Feed ".to_owned();
        message.append(feed_id.0.as_str());
        message.append(" not supported by data source");
        return Err(OracleError::BadRequest(message));
    }
    Ok(())
}

} // verus!

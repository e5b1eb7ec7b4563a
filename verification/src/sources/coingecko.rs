//! The CoinGecko data source: which feeds it can fetch, by which coin id.

use vstd::prelude::*;
use crate::domain::data_point::FeedId;

verus! {

/// The CoinGecko coin id of each feed the source can fetch.
pub open spec fn coin_id_of(feed_id: Seq<char>) -> Option<Seq<char>> {
    if feed_id == "ETH/USD"@ {
        Some("ethereum"@)
    } else if feed_id == "BTC/USD"@ {
        Some("bitcoin"@)
    } else if feed_id == "SOL/USD"@ {
        Some("solana"@)
    } else if feed_id == "LINK/USD"@ {
        Some("chainlink"@)
    } else if feed_id == "AVAX/USD"@ {
        Some("avalanche-2"@)
    } else {
        None
    }
}

/// Maps a feed to the CoinGecko id of its coin, if the source can fetch it.
pub fn feed_to_coint_id(feed_id: &FeedId) -> (r: Option<&'static str>)
    ensures
        r is Some <==> coin_id_of(feed_id.0@) is Some,
        r matches Some(s) ==> coin_id_of(feed_id.0@) == Some(s@),
{
    let id = &feed_id.0;
    if *id == "ETH/USD".to_owned() {
        Some("ethereum")
    } else if *id == "BTC/USD".to_owned() {
        Some("bitcoin")
    } else if *id == "SOL/USD".to_owned() {
        Some("solana")
    } else if *id == "LINK/USD".to_owned() {
        Some("chainlink")
    } else if *id == "AVAX/USD".to_owned() {
        Some("avalanche-2")
    } else {
        None
    }
}

} // verus!

//! Properties of the library that span several operations, stated over the
//! spec functions that the operations' contracts use.

use vstd::prelude::*;
use crate::aggregation::engine::{f64_is_nan, f64_is_nonpositive, verified_from};
use crate::domain::data_point::{RawDataPoint, Timestamp, VerifiedDataPoint};
use crate::domain::feed::FeedState;
use crate::error::{reply_code, reply_message, reply_status, OracleError};
use crate::api::handlers::feeds::{describes, FeedResponse};
use crate::domain::feed::FeedCategory;
use crate::sources::coingecko::coin_id_of;
use crate::state::feed_manager::{
    after_error, after_update, failed_once, lists_active_feeds, lookup, published, table_wf,
};

verus! {

/// Publishing a point on a registered feed and then looking the feed up gives
/// back the point as its latest value, the point's time as its latest update,
/// no errors, and the feed's configuration unchanged.
pub proof fn law_update_then_lookup(table: Map<Seq<char>, FeedState>, point: VerifiedDataPoint)
    requires
        table.contains_key(point.feed_id.0@),
    ensures
        lookup(after_update(table, point), point.feed_id.0@) == Some(
            published(table[point.feed_id.0@], point),
        ),
        published(table[point.feed_id.0@], point).last_value == Some(point),
        published(table[point.feed_id.0@], point).last_update == Some(point.timestamp),
        published(table[point.feed_id.0@], point).error_count == 0,
        published(table[point.feed_id.0@], point).config == table[point.feed_id.0@].config,
{
}

/// Publishing a point changes no feed but the one it names, and publishing on
/// an unregistered feed changes nothing.
pub proof fn law_update_is_local(table: Map<Seq<char>, FeedState>, point: VerifiedDataPoint, other: Seq<char>)
    requires
        other != point.feed_id.0@,
    ensures
        lookup(after_update(table, point), other) == lookup(table, other),
        !table.contains_key(point.feed_id.0@) ==> after_update(table, point) == table,
{
}

/// Recording an error counts exactly one more error on that feed and touches
/// nothing else; recording one for an unregistered feed changes nothing.
pub proof fn law_error_counts_once(table: Map<Seq<char>, FeedState>, id: Seq<char>, other: Seq<char>)
    requires
        table.contains_key(id) ==> table[id].error_count < u32::MAX,
        other != id,
    ensures
        table.contains_key(id) ==> lookup(after_error(table, id), id) == Some(failed_once(table[id]))
            && failed_once(table[id]).error_count == table[id].error_count + 1
            && failed_once(table[id]).config == table[id].config
            && failed_once(table[id]).last_value == table[id].last_value
            && failed_once(table[id]).last_update == table[id].last_update,
        lookup(after_error(table, id), other) == lookup(table, other),
        !table.contains_key(id) ==> after_error(table, id) == table,
{
}

/// A successful publication clears the errors counted before it.
pub proof fn law_update_clears_errors(table: Map<Seq<char>, FeedState>, point: VerifiedDataPoint)
    requires
        table.contains_key(point.feed_id.0@),
        table[point.feed_id.0@].error_count < u32::MAX,
    ensures
        lookup(after_update(after_error(table, point.feed_id.0@), point), point.feed_id.0@) matches Some(
            s,
        ) && s.error_count == 0 && s.last_value == Some(point),
{
}

/// Publishing and recording errors keep every feed stored under its own id.
pub proof fn law_operations_keep_table_wf(
    table: Map<Seq<char>, FeedState>,
    point: VerifiedDataPoint,
    id: Seq<char>,
)
    requires
        table_wf(table),
    ensures
        table_wf(after_update(table, point)),
        table_wf(after_error(table, id)),
{
}

/// Every feed in a listing of the active feeds is found, as listed, by a
/// lookup of its id.
pub proof fn law_listed_feeds_are_found(table: Map<Seq<char>, FeedState>, feeds: Seq<FeedState>, i: int)
    requires
        lists_active_feeds(table, feeds),
        0 <= i < feeds.len(),
    ensures
        lookup(table, feeds[i].config.id.0@) == Some(feeds[i]),
        feeds[i].config.active,
{
}

/// Two listings of the active feeds of one table hold the same feeds, the
/// same number of times: they differ at most in order.
pub proof fn law_listing_is_unique(
    table: Map<Seq<char>, FeedState>,
    first: Seq<FeedState>,
    second: Seq<FeedState>,
)
    requires
        lists_active_feeds(table, first),
        lists_active_feeds(table, second),
    ensures
        first.to_set() == second.to_set(),
        first.len() == second.len(),
{
    assert forall|s: FeedState| first.to_set().contains(s) implies second.to_set().contains(s) by {
        let i = choose|i: int| 0 <= i < first.len() && first[i] == s;
        let k = first[i].config.id.0@;
        assert(table.contains_key(k) && table[k].config.active);
        let j = choose|j: int| 0 <= j < second.len() && (#[trigger] second[j]).config.id.0@ == k;
        assert(second[j] == table[k]);
        assert(second.contains(s));
    }
    assert forall|s: FeedState| second.to_set().contains(s) implies first.to_set().contains(s) by {
        let i = choose|i: int| 0 <= i < second.len() && second[i] == s;
        let k = second[i].config.id.0@;
        assert(table.contains_key(k) && table[k].config.active);
        let j = choose|j: int| 0 <= j < first.len() && (#[trigger] first[j]).config.id.0@ == k;
        assert(first[j] == table[k]);
        assert(first.contains(s));
    }
    assert(first.to_set() =~= second.to_set());
    assert(first.no_duplicates()) by {
        assert forall|i: int, j: int|
            0 <= i < first.len() && 0 <= j < first.len() && i != j implies first[i] != first[j] by {
            assert(first[i].config.id.0@ != first[j].config.id.0@);
        }
    }
    assert(second.no_duplicates()) by {
        assert forall|i: int, j: int|
            0 <= i < second.len() && 0 <= j < second.len() && i != j implies second[i] != second[j] by {
            assert(second[i].config.id.0@ != second[j].config.id.0@);
        }
    }
    first.unique_seq_to_set();
    second.unique_seq_to_set();
}

/// A point is refused exactly when its confidence `c` satisfies `c <= 0.0`:
/// zero of either sign and every negative value, infinite or not. Every
/// positive value, `+inf`, and every NaN (for which `c <= 0.0` is false) pass.
pub proof fn law_confidence_gate(bits: u64)
    ensures
        f64_is_nonpositive(bits) <==> (bits == 0 || (bits >= 0x8000_0000_0000_0000 && !f64_is_nan(
            bits,
        ))),
        0 < bits <= 0x7FF0_0000_0000_0000 ==> !f64_is_nonpositive(bits),
        f64_is_nan(bits) ==> !f64_is_nonpositive(bits),
{
}

/// A fetched point that passes aggregation and is published on its
/// registered feed becomes the feed's latest value, with the value and the
/// confidence that were fetched.
pub proof fn law_aggregate_then_publish(
    table: Map<Seq<char>, FeedState>,
    raw: RawDataPoint,
    id: u128,
    timestamp: Timestamp,
)
    requires
        table.contains_key(raw.feed_id.0@),
        !f64_is_nonpositive(raw.confidence),
    ensures
        lookup(after_update(table, verified_from(raw, id, timestamp)), raw.feed_id.0@) matches Some(s)
            && s.last_value matches Some(p) && p.value == raw.value && p.confidence == raw.confidence
            && p.feed_id == raw.feed_id && s.last_update == Some(timestamp),
{
}

/// Every error is answered with one of four statuses; the errors a client can
/// act on are answered with their own text, and internal errors with a fixed
/// text that reveals nothing of them.
pub proof fn law_error_replies(e: OracleError)
    ensures
        reply_status(e) == 400 || reply_status(e) == 404 || reply_status(e) == 500 || reply_status(e)
            == 503,
        e.is_internal() ==> reply_status(e) == 500 && reply_code(e) == "INTERNAL_ERROR"@
            && reply_message(e) == "An internal error occured"@,
        !e.is_internal() ==> reply_status(e) != 500,
{
}

/// Every feed registered by default can be fetched from the CoinGecko source.
pub proof fn law_default_feeds_are_fetchable()
    ensures
        coin_id_of("ETH/USD"@) == Some("ethereum"@),
        coin_id_of("BTC/USD"@) == Some("bitcoin"@),
        coin_id_of("SOL/USD"@) == Some("solana"@),
{
    reveal_strlit("ETH/USD");
    reveal_strlit("BTC/USD");
    reveal_strlit("SOL/USD");
    assert("BTC/USD"@[0] != "ETH/USD"@[0]);
    assert("SOL/USD"@[0] != "ETH/USD"@[0]);
    assert("SOL/USD"@[0] != "BTC/USD"@[0]);
}


/// How the confidence gate reads a binary64 bit pattern, stated on the raw
/// fields (sign bit 2^63, eleven exponent bits above 2^52, 52 fraction bits):
/// every value with the sign bit set is refused unless it is a NaN (all
/// exponent bits set and a nonzero fraction); among values with the sign bit
/// clear only +0.0 is refused; and every NaN, whatever its sign, passes.
pub proof fn law_confidence_gate_fields(bits: u64)
    ensures
        bits >= 0x8000_0000_0000_0000 && (bits as int / 0x10_0000_0000_0000) % 2048 != 2047
            ==> f64_is_nonpositive(bits),
        bits >= 0x8000_0000_0000_0000 && bits as int % 0x10_0000_0000_0000 == 0
            ==> f64_is_nonpositive(bits),
        0 < bits < 0x8000_0000_0000_0000 ==> !f64_is_nonpositive(bits),
        bits == 0 ==> f64_is_nonpositive(bits),
        (bits as int / 0x10_0000_0000_0000) % 2048 == 2047 && bits as int % 0x10_0000_0000_0000 != 0
            ==> !f64_is_nonpositive(bits),
        f64_is_nan(bits) ==> (bits as int / 0x10_0000_0000_0000) % 2048 == 2047,
{
}

/// The negative values of everyday size are all refused: -1.5, -1.25, -1.0,
/// -2.0 and every other negative value in [-2^1023, -2^-1022] or below it in
/// magnitude, down to -0.0.
pub proof fn law_negative_values_refused(bits: u64)
    requires
        0x8000_0000_0000_0000 <= bits <= 0xFFEF_FFFF_FFFF_FFFF,
    ensures
        f64_is_nonpositive(bits),
{
}

/// The category a feed is described with is the `Debug` name of the feed's
/// own category, so feeds of different categories are described differently.
pub proof fn law_response_category(
    response: FeedResponse,
    feed: FeedState,
    other_response: FeedResponse,
    other_feed: FeedState,
)
    requires
        describes(response, feed),
        describes(other_response, other_feed),
    ensures
        feed.config.category == FeedCategory::Crypto ==> response.category@ == "Crypto"@,
        feed.config.category == FeedCategory::Forex ==> response.category@ == "Forex"@,
        feed.config.category == FeedCategory::Commodities ==> response.category@ == "Commodities"@,
        feed.config.category == FeedCategory::Weather ==> response.category@ == "Weather"@,
        feed.config.category != other_feed.config.category ==> response.category@
            != other_response.category@,
        response.id@ == feed.config.id.0@,
        response.name@ == feed.config.name@,
        response.active == feed.config.active,
{
    reveal_strlit("Crypto");
    reveal_strlit("Forex");
    reveal_strlit("Commodities");
    reveal_strlit("Weather");
    assert("Crypto"@[0] != "Forex"@[0]);
    assert("Crypto"@[1] != "Commodities"@[1]);
    assert("Crypto"@[0] != "Weather"@[0]);
    assert("Forex"@[0] != "Commodities"@[0]);
    assert("Forex"@[0] != "Weather"@[0]);
    assert("Commodities"@[0] != "Weather"@[0]);
}

/// The reply to an error depends only on its kind: every bad request is
/// answered 400 `BAD_REQUEST`, every unknown feed 404 `FEED_NOT_FOUND`,
/// every source failure 503 `SOURCE_UNAVAILABLE`, whatever their text; the
/// message is the error's own text behind a fixed prefix.
pub proof fn law_reply_by_kind(text: String, source_name: String, detail: String)
    ensures
        reply_status(OracleError::BadRequest(text)) == 400,
        reply_code(OracleError::BadRequest(text)) == "BAD_REQUEST"@,
        reply_message(OracleError::BadRequest(text)) == "Invalid request : "@ + text@,
        reply_status(OracleError::FeedNotFound(text)) == 404,
        reply_code(OracleError::FeedNotFound(text)) == "FEED_NOT_FOUND"@,
        reply_message(OracleError::FeedNotFound(text)) == "Feed not found: "@ + text@,
        reply_status(OracleError::SourceFetch { source_name, message: detail }) == 503,
        reply_code(OracleError::SourceFetch { source_name, message: detail }) == "SOURCE_UNAVAILABLE"@,
        reply_message(OracleError::SourceFetch { source_name, message: detail })
            == "Failed to fetch from source "@ + source_name@ + ": "@ + detail@,
{
}

/// Two errors of the same kind are answered with the same status and code,
/// whatever they carry.
pub proof fn law_reply_status_ignores_text(a: String, b: String)
    ensures
        reply_status(OracleError::BadRequest(a)) == reply_status(OracleError::BadRequest(b)),
        reply_status(OracleError::FeedNotFound(a)) == reply_status(OracleError::FeedNotFound(b)),
        reply_code(OracleError::BadRequest(a)) == reply_code(OracleError::BadRequest(b)),
        reply_code(OracleError::FeedNotFound(a)) == reply_code(OracleError::FeedNotFound(b)),
{
}

/// The CoinGecko source serves exactly five feeds, all priced in US dollars:
/// any other id, such as `ETH/EUR`, has no coin id.
pub proof fn law_coingecko_serves_five_feeds(id: Seq<char>)
    ensures
        coin_id_of(id) is Some ==> id == "ETH/USD"@ || id == "BTC/USD"@ || id == "SOL/USD"@ || id
            == "LINK/USD"@ || id == "AVAX/USD"@,
        id != "ETH/USD"@ && id != "BTC/USD"@ && id != "SOL/USD"@ && id != "LINK/USD"@ && id
            != "AVAX/USD"@ ==> coin_id_of(id) is None,
        id == "LINK/USD"@ ==> coin_id_of(id) == Some("chainlink"@),
        id == "AVAX/USD"@ ==> coin_id_of(id) == Some("avalanche-2"@),
{
    reveal_strlit("ETH/USD");
    reveal_strlit("BTC/USD");
    reveal_strlit("SOL/USD");
    reveal_strlit("LINK/USD");
    reveal_strlit("AVAX/USD");
    assert("LINK/USD"@[0] != "ETH/USD"@[0] && "LINK/USD"@[0] != "BTC/USD"@[0] && "LINK/USD"@[0]
        != "SOL/USD"@[0]);
    assert("AVAX/USD"@[0] != "ETH/USD"@[0] && "AVAX/USD"@[0] != "BTC/USD"@[0] && "AVAX/USD"@[0]
        != "SOL/USD"@[0] && "AVAX/USD"@[0] != "LINK/USD"@[0]);
}

} // verus!

//! Aggregation: the step that turns a point fetched from a source into a
//! verified point, stamped with a fresh id and the current time.

use vstd::prelude::*;
use crate::domain::data_point::{RawDataPoint, Timestamp, VerifiedDataPoint};
use crate::error::OracleError;

verus! {

/// 2^52: the weight of the lowest exponent bit of a binary64 value.
pub open spec fn f64_exponent_unit() -> int {
    0x10_0000_0000_0000
}

/// True of the bit pattern of a binary64 NaN: all exponent bits set and a
/// nonzero fraction.
pub open spec fn f64_is_nan(bits: u64) -> bool {
    &&& (bits as int / f64_exponent_unit()) % 0x800 == 0x7FF
    &&& bits as int % f64_exponent_unit() != 0
}

/// True of the bit pattern of a binary64 value `x` for which `x <= 0.0`
/// holds: zero of either sign and every negative value, but no NaN.
pub open spec fn f64_is_nonpositive(bits: u64) -> bool {
    &&& !f64_is_nan(bits)
    &&& (bits >= 0x8000_0000_0000_0000 || bits == 0)
}

/// Decides `x <= 0.0` for the binary64 value `x` whose bit pattern is `bits`.
pub fn f64_bits_nonpositive(bits: u64) -> (r: bool)
    ensures
        r == f64_is_nonpositive(bits),
{
    let exponent = (bits / 0x10_0000_0000_0000) % 0x800;
    let fraction = bits % 0x10_0000_0000_0000;
    let is_nan = exponent == 0x7FF && fraction != 0;
    !is_nan && (bits >= 0x8000_0000_0000_0000 || bits == 0)
}

/// The verified point made of `raw` with the given id and time.
pub open spec fn verified_from(raw: RawDataPoint, id: u128, timestamp: Timestamp) -> VerifiedDataPoint {
    VerifiedDataPoint {
        id,
        feed_id: raw.feed_id,
        value: raw.value,
        timestamp,
        confidence: raw.confidence,
    }
}

/// The error that rejects a point whose confidence is not positive.
pub open spec fn is_invalid_confidence(e: OracleError) -> bool {
    e matches OracleError::BadRequest(m) && m@ == "Invalid confidence value"@
}

/// True of the 128-bit value of a random (version 4, RFC 4122 variant) UUID.
pub open spec fn is_v4_uuid(id: u128) -> bool {
    &&& (id as int / 0x1000_0000_0000_0000_0000) % 16 == 4
    &&& (id as int / 0x4000_0000_0000_0000) % 4 == 2
}

/// `uuid::Uuid::new_v4`, as its 128-bit value (`Uuid::as_u128`). The value is
/// random; the version and variant bits are always those of a version 4 UUID.
#[verifier::external_body]
fn random_point_id() -> (id: u128)
    ensures
        is_v4_uuid(id),
{
    uuid::Uuid::new_v4().as_u128()
}

/// `chrono::Utc::now`, as whole seconds (`DateTime::timestamp`) and the
/// nanoseconds past them (`DateTime::timestamp_subsec_nanos`). The time is
/// the system clock's; it is not before the Unix epoch (chrono panics on a
/// clock set before it) and carries no leap second. Nothing else is stated.
#[verifier::external_body]
fn current_time() -> (t: Timestamp)
    ensures
        t.secs >= 0 && t.nanos < 1_000_000_000,
{
    let now = chrono::Utc::now();
    Timestamp { secs: now.timestamp(), nanos: now.timestamp_subsec_nanos() }
}

pub struct AggregationEngine;

impl AggregationEngine {
    /// Accepts `raw` as a verified point with the given id and time, unless
    /// its confidence is not positive.
    pub fn aggregate_with(raw: RawDataPoint, id: u128, timestamp: Timestamp) -> (r: Result<
        VerifiedDataPoint,
        OracleError,
    >)
        ensures
            r is Err <==> f64_is_nonpositive(raw.confidence),
            r matches Err(e) ==> is_invalid_confidence(e),
            !f64_is_nonpositive(raw.confidence) ==> r == Ok::<VerifiedDataPoint, OracleError>(
                verified_from(raw, id, timestamp),
            ),
    {
        if f64_bits_nonpositive(raw.confidence) {
            return Err(OracleError::BadRequest("Invalid confidence value".to_owned()));
        }
        Ok(VerifiedDataPoint {
            id,
            feed_id: raw.feed_id,
            value: raw.value,
            timestamp,
            confidence: raw.confidence,
        })
    }

    /// Accepts `raw` as a verified point with a fresh random id and the
    /// current time, unless its confidence is not positive.
    pub fn aggregate_simple(raw: RawDataPoint) -> (r: Result<VerifiedDataPoint, OracleError>)
        ensures
            r is Err <==> f64_is_nonpositive(raw.confidence),
            r matches Err(e) ==> is_invalid_confidence(e),
            r matches Ok(p) ==> p == verified_from(raw, p.id, p.timestamp) && is_v4_uuid(p.id)
                && p.timestamp.secs >= 0 && p.timestamp.nanos < 1_000_000_000,
    {
        if f64_bits_nonpositive(raw.confidence) {
            return Err(OracleError::BadRequest("Invalid confidence value".to_owned()));
        }
        let id = random_point_id();
        let timestamp = current_time();
        Self::aggregate_with(raw, id, timestamp)
    }
}

} // verus!

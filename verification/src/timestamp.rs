//! Instants in time: RFC 3339 text from the OpenAPI API, and protobuf
//! timestamps from the gRPC API.

use vstd::prelude::*;
use crate::problem::ValidationError;

verus! {

/// An instant in UTC: seconds since the Unix epoch and the nanoseconds within
/// that second (a leap second is written with nanoseconds from 10^9 on).
#[derive(Debug, Clone, Copy, PartialEq, Eq, Structural)]
pub struct UtcInstant {
    pub seconds: i64,
    pub nanos: u32,
}

/// A protobuf `google.protobuf.Timestamp`.
#[derive(Debug, Clone, Copy, PartialEq, Eq, Structural)]
pub struct ProtoTimestamp {
    pub seconds: i64,
    pub nanos: i32,
}

/// Whether the nanoseconds fit the second: below 10^9, or below 2 * 10^9 in the
/// last second of a minute (a leap second).
pub open spec fn nanos_fit(seconds: i64, nanos: u32) -> bool {
    nanos < 1_000_000_000 || (nanos < 2_000_000_000 && seconds % 60 == 59)
}

impl UtcInstant {
    /// Whether this instant is one that `chrono` can hold.
    pub open spec fn wf(self) -> bool {
        utc_seconds_in_range(self.seconds) && nanos_fit(self.seconds, self.nanos)
    }
}

/// The instant that RFC 3339 text denotes, as `chrono` reads it; `None` for text
/// that it rejects.
pub uninterp spec fn rfc3339_instant(text: Seq<char>) -> Option<UtcInstant>;

/// The first second that `chrono` can hold: -262143-01-01T00:00:00Z, the start
/// of its minimum year (proleptic Gregorian, with a year 0).
pub const MIN_UTC_SECONDS: i64 = -8334601228800;

/// The last second that `chrono` can hold: 262142-12-31T23:59:59Z.
pub const MAX_UTC_SECONDS: i64 = 8210266876799;

/// Whether `chrono` turns this many seconds since the epoch into a UTC date:
/// from the start of January 1 of year -262143 to the end of December 31 of
/// year 262142.
pub open spec fn utc_seconds_in_range(seconds: i64) -> bool {
    MIN_UTC_SECONDS <= seconds <= MAX_UTC_SECONDS
}

/// `chrono::DateTime::parse_from_rfc3339`, converted to UTC and read back as
/// seconds and nanoseconds.
#[verifier::external_body]
fn parse_rfc3339(text: &str) -> (r: Option<UtcInstant>)
    ensures
        r == rfc3339_instant(text@),
        r matches Some(i) ==> i.nanos < 2_000_000_000,
{
    match chrono::DateTime::parse_from_rfc3339(text) {
        Ok(dt) => Some(UtcInstant { seconds: dt.timestamp(), nanos: dt.timestamp_subsec_nanos() }),
        Err(_) => None,
    }
}

/// `chrono::Utc.timestamp_opt(seconds, nanos).single()`: the instant, when the
/// seconds are in `chrono`'s range and the nanoseconds fit the second.
#[verifier::external_body]
fn utc_from_timestamp(seconds: i64, nanos: u32) -> (r: Option<UtcInstant>)
    ensures
        r == (if utc_seconds_in_range(seconds) && nanos_fit(seconds, nanos) {
            Some(UtcInstant { seconds, nanos })
        } else {
            None
        }),
{
    match chrono::TimeZone::timestamp_opt(&chrono::Utc, seconds, nanos).single() {
        Some(dt) => Some(UtcInstant { seconds: dt.timestamp(), nanos: dt.timestamp_subsec_nanos() }),
        None => None,
    }
}

/// `chrono::DateTime::from_timestamp(seconds, 0)`: the instant of whole Unix
/// seconds, when `chrono` can hold it.
#[verifier::external_body]
pub(crate) fn utc_from_unix_seconds(seconds: i64) -> (r: Option<UtcInstant>)
    ensures
        r == (if utc_seconds_in_range(seconds) {
            Some(UtcInstant { seconds, nanos: 0 })
        } else {
            None
        }),
{
    match chrono::DateTime::from_timestamp(seconds, 0) {
        Some(dt) => Some(UtcInstant { seconds: dt.timestamp(), nanos: dt.timestamp_subsec_nanos() }),
        None => None,
    }
}

/// The RFC 3339 text that `chrono` writes for a UTC instant.
pub uninterp spec fn rfc3339_text(seconds: i64, nanos: u32) -> Seq<char>;

/// `chrono::DateTime::<Utc>::to_rfc3339` of the instant, which `chrono` can hold.
#[verifier::external_body]
pub(crate) fn format_rfc3339(instant: UtcInstant) -> (s: String)
    requires
        instant.wf(),
    ensures
        s@ == rfc3339_text(instant.seconds, instant.nanos),
{
    match chrono::DateTime::from_timestamp(instant.seconds, instant.nanos) {
        Some(dt) => dt.to_rfc3339(),
        None => String::new(),
    }
}

/// `chrono::Utc::now`: the current instant, which depends on the clock.
#[verifier::external_body]
pub(crate) fn utc_now() -> (r: UtcInstant)
    ensures
        r.nanos < 2_000_000_000,
        r.wf(),
{
    let now = chrono::Utc::now();
    UtcInstant { seconds: now.timestamp(), nanos: now.timestamp_subsec_nanos() }
}

/// What `parse_timestamp` gives for optional RFC 3339 text.
pub open spec fn parse_timestamp_result(s: Option<Seq<char>>) -> Result<UtcInstant, ValidationError> {
    match s {
        None => Err(ValidationError::MissingField("timestamp")),
        Some(t) => match rfc3339_instant(t) {
            Some(i) => Ok(i),
            None => Err(ValidationError::InvalidValue("timestamp")),
        },
    }
}

/// Parses an RFC 3339 timestamp: absent text is a missing field, text that is not
/// RFC 3339 an invalid value.
pub fn parse_timestamp(s: Option<String>) -> (r: Result<UtcInstant, ValidationError>)
    ensures
        r == parse_timestamp_result(crate::problem::opt_view(s)),
        r matches Ok(i) ==> i.nanos < 2_000_000_000,
{
    match s {
        None => Err(ValidationError::MissingField("timestamp")),
        Some(t) => match parse_rfc3339(t.as_str()) {
            Some(i) => Ok(i),
            None => Err(ValidationError::InvalidValue("timestamp")),
        },
    }
}

/// Parses optional RFC 3339 text, keeping only a timestamp that parses.
pub fn parse_timestamp_ok(s: Option<String>) -> (r: Option<UtcInstant>)
    ensures
        r == (match s {
            Some(t) => rfc3339_instant(t@),
            None => None,
        }),
{
    match s {
        Some(t) => parse_rfc3339(t.as_str()),
        None => None,
    }
}

/// What converting a protobuf timestamp gives: a missing timestamp is a missing
/// field, negative nanoseconds are invalid, and so is an instant out of range.
pub open spec fn proto_timestamp_result(ts: Option<ProtoTimestamp>) -> Result<UtcInstant, ValidationError> {
    match ts {
        None => Err(ValidationError::MissingField("timestamp")),
        Some(t) => if t.nanos < 0 {
            Err(ValidationError::InvalidValue("timestamp nanos"))
        } else if utc_seconds_in_range(t.seconds) && nanos_fit(t.seconds, t.nanos as u32) {
            Ok(UtcInstant { seconds: t.seconds, nanos: t.nanos as u32 })
        } else {
            Err(ValidationError::InvalidValue("timestamp"))
        },
    }
}

/// Converts a protobuf timestamp to a UTC instant.
pub fn timestamp_to_datetime(ts: Option<ProtoTimestamp>) -> (r: Result<UtcInstant, ValidationError>)
    ensures
        r == proto_timestamp_result(ts),
{
    match ts {
        None => Err(ValidationError::MissingField("timestamp")),
        Some(t) => {
            if t.nanos < 0 {
                return Err(ValidationError::InvalidValue("timestamp nanos"));
            }
            match utc_from_timestamp(t.seconds, t.nanos as u32) {
                Some(i) => Ok(i),
                None => Err(ValidationError::InvalidValue("timestamp")),
            }
        },
    }
}

/// The instant of a protobuf timestamp, when its nanoseconds are not negative and
/// it is in range.
pub open spec fn proto_instant(t: ProtoTimestamp) -> Option<UtcInstant> {
    if t.nanos >= 0 && utc_seconds_in_range(t.seconds) && nanos_fit(t.seconds, t.nanos as u32) {
        Some(UtcInstant { seconds: t.seconds, nanos: t.nanos as u32 })
    } else {
        None
    }
}

/// What converting an optional protobuf timestamp gives: absent stays absent,
/// negative nanoseconds are invalid, and an instant out of range becomes absent.
pub open spec fn optional_proto_result(ts: Option<ProtoTimestamp>) -> Result<Option<UtcInstant>, ValidationError> {
    match ts {
        None => Ok(None),
        Some(t) => if t.nanos < 0 {
            Err(ValidationError::InvalidValue("timestamp nanos"))
        } else {
            Ok(proto_instant(t))
        },
    }
}

/// Converts an optional protobuf timestamp: absent stays absent, negative
/// nanoseconds are invalid, and an instant out of range becomes absent.
pub fn optional_timestamp_to_datetime(ts: Option<ProtoTimestamp>) -> (r: Result<Option<UtcInstant>, ValidationError>)
    ensures
        r == optional_proto_result(ts),
{
    match ts {
        None => Ok(None),
        Some(t) => {
            if t.nanos < 0 {
                return Err(ValidationError::InvalidValue("timestamp nanos"));
            }
            Ok(utc_from_timestamp(t.seconds, t.nanos as u32))
        },
    }
}

/// Converts a protobuf timestamp to a UTC instant, `None` when it is not one.
pub fn proto_timestamp_instant(ts: ProtoTimestamp) -> (r: Option<UtcInstant>)
    ensures
        r == proto_instant(ts),
{
    if ts.nanos < 0 {
        return None;
    }
    utc_from_timestamp(ts.seconds, ts.nanos as u32)
}

/// Converts an optional protobuf timestamp, dropping one that is not an instant.
pub fn optional_proto_timestamp_instant(ts: Option<ProtoTimestamp>) -> (r: Option<UtcInstant>)
    ensures
        r == (match ts {
            Some(t) => proto_instant(t),
            None => None,
        }),
{
    match ts {
        Some(t) => proto_timestamp_instant(t),
        None => None,
    }
}

/// Converts a UTC instant to a protobuf timestamp.
pub fn datetime_to_timestamp(instant: UtcInstant) -> (ts: ProtoTimestamp)
    requires
        instant.nanos < 2_000_000_000,
    ensures
        ts.seconds == instant.seconds,
        ts.nanos == instant.nanos,
{
    ProtoTimestamp { seconds: instant.seconds, nanos: instant.nanos as i32 }
}

/// A valid instant survives the trip to a protobuf timestamp and back.
pub proof fn lemma_timestamp_roundtrip(instant: UtcInstant)
    requires
        instant.wf(),
    ensures
        proto_timestamp_result(Some(ProtoTimestamp { seconds: instant.seconds, nanos: instant.nanos as i32 }))
            == Ok::<UtcInstant, ValidationError>(instant),
{
}

} // verus!

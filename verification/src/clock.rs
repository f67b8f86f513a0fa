//! The clock of the daemon and the written form of its timestamps.

use crate::models::Timestamp;
use vstd::prelude::*;

verus! {

/// The present instant from `chrono::Utc::now`, by `DateTime::timestamp` and
/// `DateTime::timestamp_subsec_nanos`. Nothing is promised of it: it is
/// whatever the clock of the machine says.
#[verifier::external_body]
pub(crate) fn now_utc() -> (t: Timestamp) {
    let t = chrono::Utc::now();
    Timestamp { secs: t.timestamp(), nanos: t.timestamp_subsec_nanos() }
}

/// What `chrono::DateTime::parse_from_rfc3339` reads from the text `s`,
/// moved to UTC: `None` where the text is not an RFC 3339 timestamp.
pub uninterp spec fn rfc3339_instant(s: Seq<char>) -> Option<Timestamp>;

/// How `chrono::DateTime::<Utc>::to_rfc3339` writes the instant; `None`
/// where `chrono::DateTime::from_timestamp` has no date for it.
pub uninterp spec fn rfc3339_text(t: Timestamp) -> Option<Seq<char>>;

/// Reads an RFC 3339 timestamp with `chrono::DateTime::parse_from_rfc3339`
/// and moves it to UTC. The contract only names the result.
#[verifier::external_body]
pub(crate) fn parse_rfc3339(s: &str) -> (r: Option<Timestamp>)
    ensures
        r == rfc3339_instant(s@),
{
    let t = chrono::DateTime::parse_from_rfc3339(s).ok()?.with_timezone(&chrono::Utc);
    Some(Timestamp { secs: t.timestamp(), nanos: t.timestamp_subsec_nanos() })
}

/// Writes an instant with `chrono::DateTime::from_timestamp` and
/// `DateTime::to_rfc3339`. The contract only names the result.
#[verifier::external_body]
pub(crate) fn format_rfc3339(t: Timestamp) -> (r: Option<String>)
    ensures
        crate::models::opt_view(r) == rfc3339_text(t),
{
    chrono::DateTime::from_timestamp(t.secs, t.nanos).map(|d| d.to_rfc3339())
}

} // verus!

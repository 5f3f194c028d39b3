//! Trusted boundary to the process clock and the local time zone.
//! Every result here depends on the moment of the call or on the
//! machine's time zone, so nothing is promised of the values; the
//! verified callers state what holds of every outcome.

use vstd::prelude::*;

verus! {

/// Relies on chrono::Utc::now and DateTime::to_rfc3339: the current
/// instant as an ISO-8601 / RFC 3339 UTC string.
#[verifier::external_body]
pub fn now_utc_rfc3339() -> (r: String)
{
    chrono::Utc::now().to_rfc3339()
}

/// Relies on chrono::Local::now and DateTime::format: the current
/// local time as a file-name-safe stamp (year-month-day_hourminsec).
#[verifier::external_body]
pub fn now_backup_stamp() -> (r: String)
{
    chrono::Local::now().format("%Y-%m-%d_%H%M%S").to_string()
}

/// Relies on chrono::DateTime::parse_from_rfc3339, parse_from_str and
/// with_timezone: renders a stored UTC timestamp in the machine's
/// local time zone, trying the raw string first, then the "%+" form,
/// then the pre-simplified string; `None` when none of them parses.
#[verifier::external_body]
pub fn render_local(ts: &str, simplified: &str) -> (r: Option<String>)
{
    let parsed = chrono::DateTime::parse_from_rfc3339(ts)
        .or_else(|_| chrono::DateTime::parse_from_str(ts, "%+"))
        .or_else(|_| chrono::DateTime::parse_from_rfc3339(simplified));
    parsed.ok().map(|t| t.with_timezone(&chrono::Local).format("%Y-%m-%d %H:%M:%S").to_string())
}

} // verus!

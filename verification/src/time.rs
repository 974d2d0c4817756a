//! The clock and calendar formatting, which come from `chrono`.
use crate::model::Timestamp;
use vstd::prelude::*;

verus! {

/// The proleptic Gregorian year (UTC, year 0 is 1 BC) of the day that is
/// `days` whole days after 1970-01-01: the days are counted from
/// 0000-03-01 in eras of 400 years, so that leap days fall at the end of a
/// year that starts in March; January and February belong to the next year.
pub open spec fn civil_year(days: int) -> int {
    let z = days + 719468;
    let era = z / 146097;
    let doe = z - era * 146097;
    let yoe = (doe - doe / 1460 + doe / 36524 - doe / 146096) / 365;
    let doy = doe - (365 * yoe + yoe / 4 - yoe / 100);
    let mp = (5 * doy + 2) / 153;
    let y = yoe + era * 400;
    if mp >= 10 {
        y + 1
    } else {
        y
    }
}

/// The calendar year (proleptic Gregorian, UTC) in which the instant
/// `secs` seconds after the Unix epoch falls: that of its day, counted
/// with whole days of 86400 seconds, rounding down.
pub open spec fn utc_year(secs: int) -> int {
    civil_year(secs / 86400)
}

/// The text `chrono` produces for the UTC instant (`secs`, `nanos`) with the
/// strftime-like pattern `pattern`.
pub uninterp spec fn utc_format(secs: int, nanos: int, pattern: Seq<char>) -> Seq<char>;

/// The RFC 3339 text `chrono` produces for the UTC instant (`secs`, `nanos`)
/// with whole seconds and a `Z` suffix, such as `2025-01-01T08:00:00Z`.
pub uninterp spec fn utc_rfc3339(secs: int, nanos: int) -> Seq<char>;

/// The patterns this crate formats dates with, all valid for `chrono`.
pub open spec fn known_pattern(p: Seq<char>) -> bool {
    ||| p == "%Y-%m-%d"@
    ||| p == "%Y-%m-%dT%H:%M"@
    ||| p == "%d-%m-%Y"@
    ||| p == "%a, %d %b %Y %H:%M:%S GMT"@
}

/// The current instant: `chrono::Utc::now()`. Of the result nothing is
/// claimed but that it is a representable instant that is not a leap second.
#[verifier::external_body]
pub(crate) fn now() -> (t: Timestamp)
    ensures
        t.wf(),
        t.nanos < 1_000_000_000,
{
    let n = chrono::Utc::now();
    Timestamp { secs: n.timestamp(), nanos: n.timestamp_subsec_nanos() }
}

/// `chrono`'s `Datelike::year` of the instant: the result is `utc_year` of
/// its seconds.
#[verifier::external_body]
pub(crate) fn year_of(t: &Timestamp) -> (y: i32)
    requires
        t.wf(),
    ensures
        y as int == utc_year(t.secs as int),
{
    chrono::Datelike::year(&chrono::DateTime::from_timestamp(t.secs, t.nanos).unwrap())
}

/// `chrono`'s `DateTime::format(pattern)` rendered to a string: the result
/// is `utc_format` of the instant and the pattern.
#[verifier::external_body]
pub(crate) fn format_utc(t: &Timestamp, pattern: &str) -> (s: String)
    requires
        t.wf(),
        known_pattern(pattern@),
    ensures
        s@ == utc_format(t.secs as int, t.nanos as int, pattern@),
{
    chrono::DateTime::from_timestamp(t.secs, t.nanos).unwrap().format(pattern).to_string()
}

/// `chrono`'s `to_rfc3339_opts(SecondsFormat::Secs, true)`: the result is
/// `utc_rfc3339` of the instant.
#[verifier::external_body]
pub(crate) fn rfc3339(t: &Timestamp) -> (s: String)
    requires
        t.wf(),
    ensures
        s@ == utc_rfc3339(t.secs as int, t.nanos as int),
{
    chrono::DateTime::from_timestamp(t.secs, t.nanos).unwrap().to_rfc3339_opts(
        chrono::SecondsFormat::Secs,
        true,
    )
}

} // verus!

//! Date and time formatting: delegations to chrono's formatter, stated
//! here as trusted items.

use vstd::prelude::*;
use chrono::{Datelike, NaiveDate, Offset};
use crate::instant::Instant;

verus! {

/// Relies on chrono's NaiveDate::format with "%Y-%m-%d": the date as
/// "YYYY-MM-DD"; years outside 0..=9999 carry an explicit sign and more
/// than four digits, as chrono renders them.
#[verifier::external_body]
pub fn to_date_string(date: NaiveDate) -> String {
    date.format("%Y-%m-%d").to_string()
}

/// Relies on chrono's NaiveDate::format with "%B %e, %Y": the date as
/// "Month Day, Year" with the full English month name and a
/// space-padded day (e.g. "February  5, 2026").
#[verifier::external_body]
pub fn to_long_date(date: NaiveDate) -> String {
    date.format("%B %e, %Y").to_string()
}

/// Relies on chrono's DateTime::to_rfc3339: the instant as an ISO 8601 /
/// RFC 3339 string with its timezone offset, "YYYY-MM-DDTHH:MM:SS+HH:MM".
#[verifier::external_body]
pub fn to_iso8601(datetime: Instant) -> String {
    datetime.inner.to_rfc3339()
}

/// Relies on chrono's DateTime::to_rfc2822: the instant as an RFC 2822
/// string, "Day, DD Mon YYYY HH:MM:SS +HHMM", or None when the local
/// year falls outside 0..=9999, which RFC 2822 cannot represent (there
/// chrono's own method panics). The guard recomputes the local datetime
/// with NaiveDateTime::checked_add_offset and restates chrono's own
/// documented panic condition, so the call never panics.
#[verifier::external_body]
pub fn to_rfc2822(datetime: Instant) -> Option<String> {
    let offset = datetime.inner.offset().fix();
    match datetime.inner.naive_utc().checked_add_offset(offset) {
        Some(local) if (0..=9999).contains(&local.year()) => Some(datetime.inner.to_rfc2822()),
        _ => None,
    }
}

} // verus!

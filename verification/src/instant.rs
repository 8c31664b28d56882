//! The `Instant` type: an absolute point in time with its local timezone
//! offset, as chrono provides it. The crate treats an instant as opaque:
//! chrono produces it and measures between two of them, and only the
//! measured whole-second delta enters the verified logic.

use vstd::prelude::*;
use chrono::{Duration, Local, Offset, TimeZone};

verus! {

/// An absolute point in time with its local timezone offset.
#[verifier::external_body]
pub struct Instant {
    pub(crate) inner: chrono::DateTime<chrono::Local>,
}

/// The signed whole-second difference `reference - target` that chrono
/// measures between two instants. It depends on the two instants alone;
/// `seconds_between` is the one function that returns it.
pub uninterp spec fn spec_delta(target: Instant, reference: Instant) -> i64;

impl Instant {
    /// Relies on chrono::Local::now: the current local instant.
    #[verifier::external_body]
    pub fn now() -> Instant {
        Instant { inner: Local::now() }
    }

    /// Relies on chrono's TimeZone::with_ymd_and_hms for Local: the local
    /// instant with the given calendar fields, or None when the fields do
    /// not name a single valid local time (an invalid date, or a time
    /// skipped or repeated across a DST transition).
    #[verifier::external_body]
    pub fn from_ymd_hms(
        year: i32,
        month: u32,
        day: u32,
        hour: u32,
        min: u32,
        sec: u32,
    ) -> Option<Instant> {
        match Local.with_ymd_and_hms(year, month, day, hour, min, sec).single() {
            Some(dt) => Some(Instant { inner: dt }),
            None => None,
        }
    }

    /// Relies on chrono's NaiveDateTime::checked_add_offset and
    /// NaiveDateTime::date — the checked form of DateTime::date_naive:
    /// the calendar date of this instant in its local timezone, or None
    /// when the timezone offset pushes the local datetime outside the
    /// representable range (reachable only within about a day of the
    /// extreme representable instants, where chrono's own date_naive
    /// panics). Never panics.
    #[verifier::external_body]
    pub fn date(&self) -> Option<chrono::NaiveDate> {
        let offset = self.inner.offset().fix();
        match self.inner.naive_utc().checked_add_offset(offset) {
            Some(local) => Some(local.date()),
            None => None,
        }
    }

    /// Relies on chrono's TimeDelta::try_seconds and
    /// DateTime::checked_sub_signed: this instant shifted back by `secs`
    /// whole seconds, or None when the shift or its result leaves the
    /// representable range. Never panics.
    #[verifier::external_body]
    pub fn minus_seconds(&self, secs: i64) -> Option<Instant> {
        match Duration::try_seconds(secs) {
            Some(delta) => match self.inner.checked_sub_signed(delta) {
                Some(dt) => Some(Instant { inner: dt }),
                None => None,
            },
            None => None,
        }
    }

    /// Relies on chrono's TimeDelta::try_seconds and
    /// DateTime::checked_add_signed: this instant shifted forward by
    /// `secs` whole seconds, or None when the shift or its result leaves
    /// the representable range. Never panics.
    #[verifier::external_body]
    pub fn plus_seconds(&self, secs: i64) -> Option<Instant> {
        match Duration::try_seconds(secs) {
            Some(delta) => match self.inner.checked_add_signed(delta) {
                Some(dt) => Some(Instant { inner: dt }),
                None => None,
            },
            None => None,
        }
    }
}

/// Relies on chrono's DateTime::signed_duration_since (which, per its
/// documentation, does not overflow or underflow at all) and
/// TimeDelta::num_seconds: the signed difference `reference - target`, in
/// whole seconds, truncated toward zero. The result is a function of the
/// two instants alone, named `spec_delta`.
#[verifier::external_body]
pub(crate) fn seconds_between(target: &Instant, reference: &Instant) -> (r: i64)
    ensures
        r == spec_delta(*target, *reference),
{
    reference.inner.signed_duration_since(target.inner).num_seconds()
}

} // verus!

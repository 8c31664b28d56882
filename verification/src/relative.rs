//! Relative calendar dates: today's local date shifted by whole days,
//! weeks or calendar months. These are delegations to chrono's date
//! arithmetic, stated here as trusted items; the phrase logic lives in
//! the `humanize` submodule.

pub mod humanize;

use vstd::prelude::*;
use chrono::{Duration, Local, Months, NaiveDate};

verus! {

/// Relies on chrono (Local::now, date_naive, TimeDelta::days and
/// `NaiveDate - TimeDelta`): today's local date shifted back by `days`
/// whole days. The bound on `days` keeps the shifted date representable
/// for any clock within about ten thousand years of the present era;
/// chrono's operators still panic if the clock itself stands near the
/// edge of the representable range.
#[verifier::external_body]
pub fn days_ago(days: i64) -> NaiveDate
    requires
        -91_000_000 <= days <= 91_000_000,
{
    Local::now().date_naive() - Duration::days(days)
}

/// Relies on chrono (Local::now, date_naive, TimeDelta::days and
/// `NaiveDate + TimeDelta`): today's local date shifted forward by
/// `days` whole days. The bound on `days` keeps the shifted date
/// representable for any clock within about ten thousand years of the
/// present era; chrono's operators still panic if the clock itself
/// stands near the edge of the representable range.
#[verifier::external_body]
pub fn days_from_now(days: i64) -> NaiveDate
    requires
        -91_000_000 <= days <= 91_000_000,
{
    Local::now().date_naive() + Duration::days(days)
}

/// Relies on chrono (Local::now, date_naive, TimeDelta::weeks and
/// `NaiveDate - TimeDelta`): today's local date shifted back by `weeks`
/// whole weeks. The bound on `weeks` keeps the shifted date
/// representable for any clock within about ten thousand years of the
/// present era; chrono's operators still panic if the clock itself
/// stands near the edge of the representable range.
#[verifier::external_body]
pub fn weeks_ago(weeks: i64) -> NaiveDate
    requires
        -13_000_000 <= weeks <= 13_000_000,
{
    Local::now().date_naive() - Duration::weeks(weeks)
}

/// Relies on chrono (Local::now, date_naive, TimeDelta::weeks and
/// `NaiveDate + TimeDelta`): today's local date shifted forward by
/// `weeks` whole weeks. The bound on `weeks` keeps the shifted date
/// representable for any clock within about ten thousand years of the
/// present era; chrono's operators still panic if the clock itself
/// stands near the edge of the representable range.
#[verifier::external_body]
pub fn weeks_from_now(weeks: i64) -> NaiveDate
    requires
        -13_000_000 <= weeks <= 13_000_000,
{
    Local::now().date_naive() + Duration::weeks(weeks)
}

/// The local calendar date one day before today.
pub fn yesterday() -> NaiveDate {
    days_ago(1)
}

/// The local calendar date one day after today.
pub fn tomorrow() -> NaiveDate {
    days_from_now(1)
}

/// Relies on chrono (Local::now, date_naive, Months::new and
/// `NaiveDate - Months`): today's local date shifted back by `months`
/// calendar months, with the day clamped to the target month's length.
/// The bound on `months` keeps the shifted date representable for any
/// clock within about ten thousand years of the present era; chrono's
/// operator still panics if the clock itself stands near the edge of
/// the representable range.
#[verifier::external_body]
pub fn months_ago(months: u32) -> NaiveDate
    requires
        months <= 3_000_000,
{
    Local::now().date_naive() - Months::new(months)
}

/// Relies on chrono (Local::now, date_naive, Months::new and
/// `NaiveDate + Months`): today's local date shifted forward by `months`
/// calendar months, with the day clamped to the target month's length.
/// The bound on `months` keeps the shifted date representable for any
/// clock within about ten thousand years of the present era; chrono's
/// operator still panics if the clock itself stands near the edge of
/// the representable range.
#[verifier::external_body]
pub fn months_from_now(months: u32) -> NaiveDate
    requires
        months <= 3_000_000,
{
    Local::now().date_naive() + Months::new(months)
}

} // verus!

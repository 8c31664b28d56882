//! Relative-time phrasing: the mapping from a signed time delta in whole
//! seconds to an English phrase such as "3 minutes ago" or "in a month".
//!
//! The delta is bucketed by its absolute value against a fixed table of
//! thresholds; each bucket carries either a fixed idiom ("a minute ago",
//! "yesterday") or a numeric template whose count is the magnitude divided
//! by the bucket's unit. Months are approximated as 30 days and years as
//! 365 days, for bucketing only.

use vstd::prelude::*;
use vstd::string::StringExecFns;
use crate::decimal::{spec_dec, append_dec};
use crate::instant::{seconds_between, spec_delta, Instant};

verus! {

/// Seconds in a minute.
pub const MINUTE: i64 = 60;

/// Seconds in an hour.
pub const HOUR: i64 = 3600;

/// Seconds in a day.
pub const DAY: i64 = 86400;

/// Seconds in a month, approximated as exactly 30 days.
pub const MONTH: i64 = 30 * DAY;

/// Seconds in a year, approximated as exactly 365 days.
pub const YEAR: i64 = 365 * DAY;

/// Magnitude of a delta: its absolute value, saturating at `i64::MAX`
/// (the absolute value of `i64::MIN` is not representable in `i64`).
pub open spec fn spec_magnitude(delta: int) -> int {
    if delta >= 0 {
        delta
    } else if delta == i64::MIN {
        i64::MAX as int
    } else {
        -delta
    }
}

/// The upper bounds (exclusive) of the phrase buckets, in seconds,
/// in ascending order. The last bucket has no upper bound.
pub open spec fn bucket_bounds() -> Seq<int> {
    seq![
        30,
        90,
        45 * MINUTE,
        90 * MINUTE,
        22 * HOUR,
        36 * HOUR,
        25 * DAY,
        45 * DAY,
        10 * MONTH,
        18 * MONTH,
    ]
}

/// The index of the bucket a magnitude falls in: the first whose upper
/// bound exceeds it, or the last bucket when every bound is passed.
pub open spec fn spec_bucket(mag: int) -> int {
    if mag < 30 {
        0
    } else if mag < 90 {
        1
    } else if mag < 45 * MINUTE {
        2
    } else if mag < 90 * MINUTE {
        3
    } else if mag < 22 * HOUR {
        4
    } else if mag < 36 * HOUR {
        5
    } else if mag < 25 * DAY {
        6
    } else if mag < 45 * DAY {
        7
    } else if mag < 10 * MONTH {
        8
    } else if mag < 18 * MONTH {
        9
    } else {
        10
    }
}

/// Whether bucket `i` covers magnitude `mag`: at or above the previous
/// bucket's bound, and below its own (the last bucket has none).
pub open spec fn in_bucket(i: int, mag: int) -> bool {
    &&& 0 <= i <= 10
    &&& (if i == 0 {
        0 <= mag
    } else {
        bucket_bounds()[i - 1] <= mag
    })
    &&& (i == 10 || mag < bucket_bounds()[i])
}

/// The unit noun for a count: the singular base exactly when `n == 1`,
/// the base with a trailing "s" for any other count.
pub open spec fn spec_noun(unit: Seq<char>, n: int) -> Seq<char> {
    if n == 1 {
        unit
    } else {
        unit + "s"@
    }
}

/// A direction-free phrase core wrapped in its framing: the "ago" suffix
/// for the past, the "in " prefix for the future.
pub open spec fn spec_framed(core: Seq<char>, is_past: bool) -> Seq<char> {
    if is_past {
        core + " ago"@
    } else {
        "in "@ + core
    }
}

/// A numeric phrase: the count, a space, the unit noun, framed by
/// direction.
pub open spec fn spec_numeric(n: int, unit: Seq<char>, is_past: bool) -> Seq<char>
    recommends
        n >= 0,
{
    spec_framed(spec_dec(n as nat) + " "@ + spec_noun(unit, n), is_past)
}

/// The phrase for a magnitude and a direction. Counts use integer
/// (floor) division by the bucket's unit.
pub open spec fn spec_phrase(mag: int, is_past: bool) -> Seq<char>
    recommends
        mag >= 0,
{
    let b = spec_bucket(mag);
    if b == 0 {
        "just now"@
    } else if b == 1 {
        if is_past {
            "a minute ago"@
        } else {
            "in a minute"@
        }
    } else if b == 2 {
        spec_numeric(mag / (MINUTE as int), "minute"@, is_past)
    } else if b == 3 {
        if is_past {
            "an hour ago"@
        } else {
            "in an hour"@
        }
    } else if b == 4 {
        spec_numeric(mag / (HOUR as int), "hour"@, is_past)
    } else if b == 5 {
        if is_past {
            "yesterday"@
        } else {
            "tomorrow"@
        }
    } else if b == 6 {
        spec_numeric(mag / (DAY as int), "day"@, is_past)
    } else if b == 7 {
        if is_past {
            "a month ago"@
        } else {
            "in a month"@
        }
    } else if b == 8 {
        spec_numeric(mag / (MONTH as int), "month"@, is_past)
    } else if b == 9 {
        if is_past {
            "a year ago"@
        } else {
            "in a year"@
        }
    } else {
        spec_numeric(mag / (YEAR as int), "year"@, is_past)
    }
}

/// The phrase for a signed delta in whole seconds. A non-negative delta
/// lies in the past, a negative one in the future; the magnitude is the
/// saturated absolute value.
pub open spec fn spec_humanize(delta: int) -> Seq<char> {
    spec_phrase(spec_magnitude(delta), delta >= 0)
}

/// Builds a numeric phrase for a count and its singular unit noun.
fn numeric_phrase(n: u64, unit: &str, is_past: bool) -> (r: String)
    ensures
        r@ == spec_numeric(n as int, unit@, is_past),
{
    let mut s = String::new();
    if !is_past {
        s.append("in ");
    }
    append_dec(&mut s, n);
    s.append(" ");
    s.append(unit);
    if n != 1 {
        s.append("s");
    }
    if is_past {
        s.append(" ago");
    }
    proof {
        assert(s@ =~= spec_numeric(n as int, unit@, is_past));
    }
    s
}

/// The phrase for a signed delta in whole seconds: `delta_secs` is the
/// reference time minus the target time, so a positive delta means the
/// target lies in the past. Total: every `i64` produces a phrase, with
/// the magnitude of `i64::MIN` saturating to `i64::MAX`.
pub fn humanize_delta(delta_secs: i64) -> (r: String)
    ensures
        r@ == spec_humanize(delta_secs as int),
{
    let is_past = delta_secs >= 0;
    let mag: i64 = if delta_secs >= 0 {
        delta_secs
    } else if delta_secs == i64::MIN {
        i64::MAX
    } else {
        -delta_secs
    };
    if mag < 30 {
        String::from_str("just now")
    } else if mag < 90 {
        String::from_str(if is_past { "a minute ago" } else { "in a minute" })
    } else if mag < 45 * MINUTE {
        numeric_phrase((mag / MINUTE) as u64, "minute", is_past)
    } else if mag < 90 * MINUTE {
        String::from_str(if is_past { "an hour ago" } else { "in an hour" })
    } else if mag < 22 * HOUR {
        numeric_phrase((mag / HOUR) as u64, "hour", is_past)
    } else if mag < 36 * HOUR {
        String::from_str(if is_past { "yesterday" } else { "tomorrow" })
    } else if mag < 25 * DAY {
        numeric_phrase((mag / DAY) as u64, "day", is_past)
    } else if mag < 45 * DAY {
        String::from_str(if is_past { "a month ago" } else { "in a month" })
    } else if mag < 10 * MONTH {
        numeric_phrase((mag / MONTH) as u64, "month", is_past)
    } else if mag < 18 * MONTH {
        String::from_str(if is_past { "a year ago" } else { "in a year" })
    } else {
        numeric_phrase((mag / YEAR) as u64, "year", is_past)
    }
}

/// The bucket bounds are strictly increasing, so the table is well
/// ordered and its ranges are disjoint by construction.
pub proof fn lemma_bounds_increasing()
    ensures
        forall|i: int| 0 <= i < 9 ==> #[trigger] bucket_bounds()[i] < bucket_bounds()[i + 1],
{
}

/// Every non-negative magnitude lies in exactly one bucket: the one
/// `spec_bucket` selects, and no other — the table has no gaps and no
/// overlaps.
pub proof fn lemma_bucket_partition(mag: int)
    requires
        mag >= 0,
    ensures
        in_bucket(spec_bucket(mag), mag),
        forall|j: int| in_bucket(j, mag) ==> j == spec_bucket(mag),
{
}

/// Any delta whose magnitude is under 30 seconds reads "just now",
/// whatever its sign.
pub proof fn lemma_just_now(delta: int)
    requires
        spec_magnitude(delta) < 30,
    ensures
        spec_humanize(delta) == "just now"@,
{
}

/// The direction-free core of a phrase, for the magnitudes whose past
/// and future forms share their wording: every bucket except "just now"
/// (which ignores direction) and "yesterday"/"tomorrow" (whose wording
/// changes with direction).
pub open spec fn spec_core(mag: int) -> Seq<char>
    recommends
        spec_bucket(mag) != 0,
        spec_bucket(mag) != 5,
{
    let b = spec_bucket(mag);
    if b == 1 {
        "a minute"@
    } else if b == 2 {
        spec_dec((mag / (MINUTE as int)) as nat) + " "@ + spec_noun("minute"@, mag / (MINUTE as int))
    } else if b == 3 {
        "an hour"@
    } else if b == 4 {
        spec_dec((mag / (HOUR as int)) as nat) + " "@ + spec_noun("hour"@, mag / (HOUR as int))
    } else if b == 6 {
        spec_dec((mag / (DAY as int)) as nat) + " "@ + spec_noun("day"@, mag / (DAY as int))
    } else if b == 7 {
        "a month"@
    } else if b == 8 {
        spec_dec((mag / (MONTH as int)) as nat) + " "@ + spec_noun("month"@, mag / (MONTH as int))
    } else if b == 9 {
        "a year"@
    } else {
        spec_dec((mag / (YEAR as int)) as nat) + " "@ + spec_noun("year"@, mag / (YEAR as int))
    }
}

/// Symmetry of direction: outside the "just now" bucket (where the
/// phrase ignores direction) and the "yesterday"/"tomorrow" bucket
/// (where the wording itself changes), the past and future phrases for
/// one magnitude differ only by the framing — "<core> ago" against
/// "in <core>" — never by wording or count.
pub proof fn lemma_symmetry(mag: int)
    requires
        mag >= 30,
        !(22 * HOUR <= mag < 36 * HOUR),
    ensures
        spec_phrase(mag, true) == spec_core(mag) + " ago"@,
        spec_phrase(mag, false) == "in "@ + spec_core(mag),
{
    reveal_strlit("a minute ago");
    reveal_strlit("in a minute");
    reveal_strlit("a minute");
    reveal_strlit("an hour ago");
    reveal_strlit("in an hour");
    reveal_strlit("an hour");
    reveal_strlit("a month ago");
    reveal_strlit("in a month");
    reveal_strlit("a month");
    reveal_strlit("a year ago");
    reveal_strlit("in a year");
    reveal_strlit("a year");
    reveal_strlit(" ago");
    reveal_strlit("in ");
    let b = spec_bucket(mag);
    if b == 1 {
        assert(spec_phrase(mag, true) =~= spec_core(mag) + " ago"@);
        assert(spec_phrase(mag, false) =~= "in "@ + spec_core(mag));
    } else if b == 3 {
        assert(spec_phrase(mag, true) =~= spec_core(mag) + " ago"@);
        assert(spec_phrase(mag, false) =~= "in "@ + spec_core(mag));
    } else if b == 7 {
        assert(spec_phrase(mag, true) =~= spec_core(mag) + " ago"@);
        assert(spec_phrase(mag, false) =~= "in "@ + spec_core(mag));
    } else if b == 9 {
        assert(spec_phrase(mag, true) =~= spec_core(mag) + " ago"@);
        assert(spec_phrase(mag, false) =~= "in "@ + spec_core(mag));
    } else {
        assert(spec_phrase(mag, true) =~= spec_core(mag) + " ago"@);
        assert(spec_phrase(mag, false) =~= "in "@ + spec_core(mag));
    }
}

/// Pluralization: a numeric phrase frames its count and unit noun by
/// direction, and the noun is the singular base exactly when the count
/// is 1, the base with a trailing "s" for any other count.
pub proof fn lemma_pluralization(n: int, unit: Seq<char>, is_past: bool)
    requires
        n >= 0,
    ensures
        spec_numeric(n, unit, is_past) == spec_framed(
            spec_dec(n as nat) + " "@ + spec_noun(unit, n),
            is_past,
        ),
        n == 1 ==> spec_noun(unit, n) == unit,
        n != 1 ==> spec_noun(unit, n) == unit + "s"@,
{
}

/// Each numeric bucket's phrase is the numeric template applied to the
/// magnitude floor-divided by the bucket's unit, with that unit's noun.
pub proof fn lemma_numeric_buckets(mag: int, is_past: bool)
    requires
        mag >= 0,
    ensures
        90 <= mag < 45 * MINUTE ==> spec_phrase(mag, is_past) == spec_numeric(
            mag / (MINUTE as int),
            "minute"@,
            is_past,
        ),
        90 * MINUTE <= mag < 22 * HOUR ==> spec_phrase(mag, is_past) == spec_numeric(
            mag / (HOUR as int),
            "hour"@,
            is_past,
        ),
        36 * HOUR <= mag < 25 * DAY ==> spec_phrase(mag, is_past) == spec_numeric(
            mag / (DAY as int),
            "day"@,
            is_past,
        ),
        45 * DAY <= mag < 10 * MONTH ==> spec_phrase(mag, is_past) == spec_numeric(
            mag / (MONTH as int),
            "month"@,
            is_past,
        ),
        18 * MONTH <= mag ==> spec_phrase(mag, is_past) == spec_numeric(
            mag / (YEAR as int),
            "year"@,
            is_past,
        ),
{
}

/// The phrase for `datetime` measured against an explicit reference
/// instant `now`: exactly the phrase of the whole-second delta
/// `now - datetime` that chrono measures between the two.
pub fn humanize_impl(datetime: &Instant, now: &Instant) -> (r: String)
    ensures
        r@ == spec_humanize(spec_delta(*datetime, *now) as int),
{
    let secs = seconds_between(datetime, now);
    humanize_delta(secs)
}

/// The phrase for `datetime` measured against the current local time:
/// the phrase of the delta between `datetime` and the instant the clock
/// returned.
pub fn humanize(datetime: Instant) -> (r: String)
    ensures
        exists|n: Instant| r@ == spec_humanize(spec_delta(datetime, n) as int),
{
    let now = Instant::now();
    let r = humanize_impl(&datetime, &now);
    proof {
        assert(r@ == spec_humanize(spec_delta(datetime, now) as int));
    }
    r
}

} // verus!

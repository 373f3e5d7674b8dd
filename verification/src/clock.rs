use vstd::prelude::*;

use crate::model::Date;

verus! {

/// Julian day number of 1970-01-01.
pub const UNIX_EPOCH_JULIAN_DAY: i32 = 2440588;

/// Julian day of -999999-01-01, the first day of `time::Date` with its
/// `large-dates` feature (its range without that feature lies inside).
pub const FIRST_CLOCK_DAY: i32 = -363521074;

/// Julian day of 999999-12-31, the last day of `time::Date` with its
/// `large-dates` feature (its range without that feature lies inside).
pub const LAST_CLOCK_DAY: i32 = 366963559;

/// A day that the clock can read: one within the range of `time::Date`.
pub open spec fn is_clock_day(d: Date) -> bool {
    FIRST_CLOCK_DAY <= d.julian_day <= LAST_CLOCK_DAY
}

/// A reading of the clock in UTC.
pub struct UtcNow {
    /// Whole seconds since 1970-01-01T00:00:00Z.
    pub unix_timestamp: i64,
    /// The UTC calendar day of that instant.
    pub today: Date,
}

/// `time::OffsetDateTime::now_utc()`, read as its Unix timestamp
/// (`unix_timestamp`) and its day (`date().to_julian_day()`). The instant
/// itself rests on the machine's clock and is not stated; the contract states
/// what `unix_timestamp` computes from the day at offset zero: the timestamp
/// falls within that day. The day is a value of `time::Date`, whose year
/// lies within `MIN_YEAR..=MAX_YEAR` (at most -999999..=999999), so it is a
/// clock day.
#[verifier::external_body]
pub(crate) fn utc_now() -> (now: UtcNow)
    ensures
        is_clock_day(now.today),
        now.today.julian_day as int == UNIX_EPOCH_JULIAN_DAY as int + now.unix_timestamp as int
            / 86400,
{
    let t = time::OffsetDateTime::now_utc();
    UtcNow { unix_timestamp: t.unix_timestamp(), today: Date { julian_day: t.to_julian_day() } }
}

/// The first Unix timestamp past every possible clock reading: the start of
/// the day after Julian day `i32::MAX`.
pub open spec fn clock_timestamp_limit() -> int {
    86400 * (i32::MAX - UNIX_EPOCH_JULIAN_DAY + 1)
}

/// A clock reading whose day is an `i32` Julian day lies before
/// `clock_timestamp_limit()`.
pub proof fn lemma_clock_reading_bounded(unix_timestamp: i64, julian_day: i32)
    requires
        julian_day as int == UNIX_EPOCH_JULIAN_DAY as int + unix_timestamp as int / 86400,
    ensures
        (unix_timestamp as int) < clock_timestamp_limit(),
{
    let ts = unix_timestamp as int;
    let days = ts / 86400;
    assert(days <= i32::MAX - UNIX_EPOCH_JULIAN_DAY);
    assert(ts < 86400 * (days + 1)) by (nonlinear_arith)
        requires
            days == ts / 86400,
    ;
    assert(86400 * (days + 1) <= 86400 * (i32::MAX - UNIX_EPOCH_JULIAN_DAY + 1)) by (nonlinear_arith)
        requires
            days <= i32::MAX - UNIX_EPOCH_JULIAN_DAY,
    ;
}

} // verus!

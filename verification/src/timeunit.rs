//! The time span over which market data is fetched, and the range of
//! timestamps it denotes.

use vstd::prelude::*;

use crate::digits::rendered;
use crate::digits::u64_to_string;

verus! {

/// The smallest amount of time that can be used.
pub const MINIMUM_TIME: u64 = 1;

/// The largest amount of time that can be used.
pub const MAXIMUM_TIME: u64 = 9223372036854775807;

/// The time unit to fetch the data for: so many seconds, minutes, hours,
/// days, weeks, months or years ago.
#[derive(Debug, Clone, PartialEq, Eq, Structural)]
pub enum TimeUnit {
    Seconds(u64),
    Minutes(u64),
    Hours(u64),
    Days(u64),
    Weeks(u64),
    Months(u64),
    Years(u64),
}

impl TimeUnit {
    /// The bare number carried by the unit.
    pub open spec fn number(self) -> u64 {
        match self {
            TimeUnit::Seconds(n) => n,
            TimeUnit::Minutes(n) => n,
            TimeUnit::Hours(n) => n,
            TimeUnit::Days(n) => n,
            TimeUnit::Weeks(n) => n,
            TimeUnit::Months(n) => n,
            TimeUnit::Years(n) => n,
        }
    }

    /// The whole span in seconds, as an unbounded integer. A month counts
    /// as 30 days and a year as 365 days.
    pub open spec fn span_seconds(self) -> int {
        match self {
            TimeUnit::Seconds(n) => n as int,
            TimeUnit::Minutes(n) => n * 60,
            TimeUnit::Hours(n) => n * (60 * 60),
            TimeUnit::Days(n) => n * (60 * 60 * 24),
            TimeUnit::Weeks(n) => n * (60 * 60 * 24 * 7),
            TimeUnit::Months(n) => n * (60 * 60 * 24 * 30),
            TimeUnit::Years(n) => n * (60 * 60 * 24 * 365),
        }
    }

    /// Gets the number of the time unit.
    pub fn get_number(&self) -> (n: u64)
        ensures
            n == self.number(),
    {
        match self {
            TimeUnit::Seconds(seconds) => *seconds,
            TimeUnit::Minutes(minutes) => *minutes,
            TimeUnit::Hours(hours) => *hours,
            TimeUnit::Days(days) => *days,
            TimeUnit::Weeks(weeks) => *weeks,
            TimeUnit::Months(months) => *months,
            TimeUnit::Years(years) => *years,
        }
    }

    /// Converts the time unit to seconds.
    pub fn as_seconds(&self) -> (s: u64)
        requires
            self.span_seconds() <= u64::MAX,
        ensures
            s == self.span_seconds(),
    {
        match self {
            TimeUnit::Seconds(seconds) => *seconds,
            TimeUnit::Minutes(minutes) => *minutes * 60,
            TimeUnit::Hours(hours) => *hours * (60 * 60),
            TimeUnit::Days(days) => *days * (60 * 60 * 24),
            TimeUnit::Weeks(weeks) => *weeks * (60 * 60 * 24 * 7),
            TimeUnit::Months(months) => *months * (60 * 60 * 24 * 30),
            TimeUnit::Years(years) => *years * (60 * 60 * 24 * 365),
        }
    }

    /// Converts the time unit to seconds, unless the span is too large
    /// for a `u64`.
    pub fn checked_seconds(&self) -> (r: Option<u64>)
        ensures
            r is Some <==> self.span_seconds() <= u64::MAX,
            r matches Some(s) ==> s == self.span_seconds(),
    {
        match self {
            TimeUnit::Seconds(seconds) => Some(*seconds),
            TimeUnit::Minutes(minutes) => minutes.checked_mul(60),
            TimeUnit::Hours(hours) => hours.checked_mul(60 * 60),
            TimeUnit::Days(days) => days.checked_mul(60 * 60 * 24),
            TimeUnit::Weeks(weeks) => weeks.checked_mul(60 * 60 * 24 * 7),
            TimeUnit::Months(months) => months.checked_mul(60 * 60 * 24 * 30),
            TimeUnit::Years(years) => years.checked_mul(60 * 60 * 24 * 365),
        }
    }

    /// The span in words: the number, a space and the unit's name.
    pub fn describe(&self) -> (r: String)
        ensures
            *self matches TimeUnit::Seconds(n) ==> r@ == rendered(n as int) + " seconds"@,
            *self matches TimeUnit::Minutes(n) ==> r@ == rendered(n as int) + " minutes"@,
            *self matches TimeUnit::Hours(n) ==> r@ == rendered(n as int) + " hours"@,
            *self matches TimeUnit::Days(n) ==> r@ == rendered(n as int) + " days"@,
            *self matches TimeUnit::Weeks(n) ==> r@ == rendered(n as int) + " weeks"@,
            *self matches TimeUnit::Months(n) ==> r@ == rendered(n as int) + " months"@,
            *self matches TimeUnit::Years(n) ==> r@ == rendered(n as int) + " years"@,
    {
        match self {
            TimeUnit::Seconds(seconds) => u64_to_string(*seconds).concat(" seconds"),
            TimeUnit::Minutes(minutes) => u64_to_string(*minutes).concat(" minutes"),
            TimeUnit::Hours(hours) => u64_to_string(*hours).concat(" hours"),
            TimeUnit::Days(days) => u64_to_string(*days).concat(" days"),
            TimeUnit::Weeks(weeks) => u64_to_string(*weeks).concat(" weeks"),
            TimeUnit::Months(months) => u64_to_string(*months).concat(" months"),
            TimeUnit::Years(years) => u64_to_string(*years).concat(" years"),
        }
    }
}

/// Why a requested fetch window is refused.
#[derive(Debug, Clone, PartialEq, Eq, Structural)]
pub enum TimeError {
    /// The span in seconds lies outside `MINIMUM_TIME..=MAXIMUM_TIME`.
    OutOfRange,
    /// The window would reach beyond what the clock has counted: more
    /// seconds ago than have passed since the epoch.
    InFuture,
}

impl TimeError {
    /// The error message, as the service reports it.
    pub fn message(&self) -> (r: String)
        ensures
            *self is OutOfRange ==> r@
                == "The number of seconds must be between 1 and 9223372036854775807!"@,
            *self is InFuture ==> r@ == "The time cannot be in the future!"@,
    {
        match self {
            TimeError::OutOfRange => String::from_str(
                "The number of seconds must be between 1 and 9223372036854775807!",
            ),
            TimeError::InFuture => String::from_str("The time cannot be in the future!"),
        }
    }
}

/// Relies on time::OffsetDateTime::now_utc for the clock's current
/// reading; unix_timestamp turns it into seconds since the epoch.
/// Nothing is promised of the value: it depends on the wall clock.
#[verifier::external_body]
fn now_unix() -> i64 {
    ::time::OffsetDateTime::now_utc().unix_timestamp()
}

/// The window of `seconds` seconds that ends at the timestamp `now`.
/// The span must lie between `MINIMUM_TIME` and `MAXIMUM_TIME`, and the
/// window must not begin before the epoch.
pub fn time_range(now: i64, seconds: u64) -> (r: Result<(i64, i64), TimeError>)
    ensures
        r matches Err(e) && e is OutOfRange <==> !(MINIMUM_TIME <= seconds <= MAXIMUM_TIME),
        r matches Err(e) && e is InFuture <==> (MINIMUM_TIME <= seconds <= MAXIMUM_TIME && now
            < seconds),
        r matches Ok(window) <==> (MINIMUM_TIME <= seconds <= MAXIMUM_TIME && now >= seconds),
        r matches Ok(window) ==> window.0 == now - seconds && window.1 == now,
{
    if seconds < MINIMUM_TIME || seconds > MAXIMUM_TIME {
        return Err(TimeError::OutOfRange);
    }
    if now < 0 || seconds > now as u64 {
        return Err(TimeError::InFuture);
    }
    Ok((now - seconds as i64, now))
}

/// Gets the current time and the time `seconds` ago, both as seconds
/// since the epoch. What depends on the span alone is pinned down: a
/// span outside `MINIMUM_TIME..=MAXIMUM_TIME` is refused as out of
/// range, and a window that comes back spans exactly `seconds` seconds
/// and does not begin before the epoch.
pub fn get_time(seconds: u64) -> (r: Result<(i64, i64), TimeError>)
    ensures
        r matches Err(e) && e is OutOfRange <==> !(MINIMUM_TIME <= seconds <= MAXIMUM_TIME),
        r matches Err(e) && e is InFuture ==> MINIMUM_TIME <= seconds <= MAXIMUM_TIME,
        r matches Ok(window) ==> (MINIMUM_TIME <= seconds <= MAXIMUM_TIME && window.1 - window.0
            == seconds && window.0 >= 0),
{
    let now: i64 = now_unix();
    time_range(now, seconds)
}

} // verus!

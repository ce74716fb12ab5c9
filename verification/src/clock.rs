//! The date and the time of day in Belgrade at a given moment. The calendar
//! and the time zone's rules are the work of `chrono` and `chrono-tz`.

use vstd::prelude::*;
use vstd::string::*;

verus! {

/// The last second of the year 9999, counted from the start of 1970.
pub const LAST_SECOND: i64 = 253_402_300_799;

/// The moment, given in seconds since the start of 1970 in universal time,
/// written by the pattern as Belgrade's clock shows it; `None` where
/// `chrono` has no date for the moment.
pub uninterp spec fn belgrade_text(seconds: int, pattern: Seq<char>) -> Option<Seq<char>>;

/// The pattern by which a date is written: day, month, year.
pub open spec fn date_pattern() -> Seq<char> {
    "%d.%m.%Y"@
}

/// The pattern by which a time of day is written: hours, minutes, seconds.
pub open spec fn time_pattern() -> Seq<char> {
    "%H:%M:%S"@
}

/// `chrono::DateTime::from_timestamp`, `with_timezone` for
/// `chrono_tz::Europe::Belgrade`, and `format`: the moment written by the
/// pattern. The text depends on the moment and the pattern alone: the zone's
/// rules are those compiled into `chrono-tz`, not the machine's. Only the
/// two patterns of this module are handed to it, and only moments of the
/// years 1970 to 9999.
#[verifier::external_body]
fn belgrade_clock(seconds: i64, pattern: &str) -> (text: Option<String>)
    requires
        0 <= seconds <= LAST_SECOND,
        pattern@ == date_pattern() || pattern@ == time_pattern(),
    ensures
        text.deep_view() == belgrade_text(seconds as int, pattern@),
{
    let moment = chrono::DateTime::from_timestamp(seconds, 0)?;
    Some(moment.with_timezone(&chrono_tz::Europe::Belgrade).format(pattern).to_string())
}

/// The date and the time of day in Belgrade at the moment, or `None` where
/// the moment lies outside the years 1970 to 9999 or has no date.
pub open spec fn date_time_of(seconds: int) -> Option<(Seq<char>, Seq<char>)> {
    if 0 <= seconds <= LAST_SECOND {
        match (belgrade_text(seconds, date_pattern()), belgrade_text(seconds, time_pattern())) {
            (Some(date), Some(time)) => Some((date, time)),
            _ => None,
        }
    } else {
        None
    }
}

/// Gives the date, as day.month.year, and the time of day, as
/// hours:minutes:seconds, that Belgrade's clock shows at the moment.
pub fn date_time_at(seconds: i64) -> (r: Option<(String, String)>)
    ensures
        match date_time_of(seconds as int) {
            Some(pair) => r matches Some(found) && found.0@ == pair.0 && found.1@ == pair.1,
            None => r is None,
        },
{
    if seconds < 0 || seconds > LAST_SECOND {
        return None;
    }
    let date = match belgrade_clock(seconds, "%d.%m.%Y") {
        Some(text) => text,
        None => { return None; },
    };
    let time = match belgrade_clock(seconds, "%H:%M:%S") {
        Some(text) => text,
        None => { return None; },
    };
    Some((date, time))
}

} // verus!

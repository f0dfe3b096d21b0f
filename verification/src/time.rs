//! Day keys: the calendar day, in a named time zone, by which daily loss
//! accounting is reset.

use vstd::prelude::*;
use vstd::string::StringExecFns;
use chrono::Datelike;
use crate::text::{padded, push_padded};

verus! {

/// Why no day key could be had.
#[derive(Debug, Clone, Copy, PartialEq, Eq, Structural)]
pub enum TimeError {
    /// The time zone's name is not in the database.
    InvalidZone,
    /// The moment lies outside the calendar that dates are reckoned in.
    OutOfRange,
}

/// Whether the time zone database compiled into `chrono_tz` holds a zone of
/// exactly this name.
pub uninterp spec fn zone_known(name: Seq<char>) -> bool;

/// Whether `chrono` has a date for the moment that lies `unix_seconds`
/// seconds after the start of 1970 in UTC.
pub uninterp spec fn in_calendar(unix_seconds: i64) -> bool;

/// The year of the calendar date of the moment `unix_seconds` in the zone
/// named `zone`.
pub uninterp spec fn civil_year(zone: Seq<char>, unix_seconds: i64) -> i32;

/// The month of that date.
pub uninterp spec fn civil_month(zone: Seq<char>, unix_seconds: i64) -> u32;

/// The day of the month of that date.
pub uninterp spec fn civil_day(zone: Seq<char>, unix_seconds: i64) -> u32;

/// A calendar date.
#[derive(Debug, Clone, Copy, PartialEq, Eq, Structural)]
pub struct CivilDate {
    pub year: i32,
    pub month: u32,
    pub day: u32,
}

/// `<chrono_tz::Tz as FromStr>::from_str`, then `chrono::DateTime::from_timestamp`
/// seen through `DateTime::with_timezone` and read with `Datelike::year`,
/// `month` and `day`. The first looks the name up in the table of zones
/// compiled into the crate; the second gives no moment where the seconds lie
/// outside its calendar; none of them reads a clock or gives up. The result is
/// nothing for a name that is not known, and for a known name the date or
/// nothing. The contract names which names are known, which moments have a
/// date, and the date, and claims of the date only the ranges that `Datelike`
/// documents for the month and the day.
#[verifier::external_body]
fn date_in_zone(zone: &str, unix_seconds: i64) -> (found: Option<Option<CivilDate>>)
    ensures
        found is Some <==> zone_known(zone@),
        found matches Some(date) ==> (date is Some <==> in_calendar(unix_seconds)),
        found matches Some(Some(date)) ==> date.year == civil_year(zone@, unix_seconds),
        found matches Some(Some(date)) ==> date.month == civil_month(zone@, unix_seconds),
        found matches Some(Some(date)) ==> date.day == civil_day(zone@, unix_seconds),
        found matches Some(Some(date)) ==> 1 <= date.month <= 12 && 1 <= date.day <= 31,
{
    match zone.parse::<chrono_tz::Tz>() {
        Err(_) => None,
        Ok(tz) => Some(
            match chrono::DateTime::from_timestamp(unix_seconds, 0) {
                None => None,
                Some(utc) => {
                    let local = utc.with_timezone(&tz);
                    Some(CivilDate { year: local.year(), month: local.month(), day: local.day() })
                },
            },
        ),
    }
}

/// The text of a year: at least four characters, the sign of a negative year
/// counted among them.
pub open spec fn year_text(year: int) -> Seq<char> {
    if year < 0 {
        seq!['-'] + padded((-year) as nat, 3)
    } else {
        padded(year as nat, 4)
    }
}

/// The day key of a calendar date: `YYYY-MM-DD`.
pub open spec fn day_key_text(year: int, month: int, day: int) -> Seq<char> {
    year_text(year) + seq!['-'] + padded(month as nat, 2) + seq!['-'] + padded(day as nat, 2)
}

/// The day key of the moment `unix_seconds` in the zone named `zone`.
pub open spec fn day_key_of(zone: Seq<char>, unix_seconds: i64) -> Seq<char> {
    day_key_text(
        civil_year(zone, unix_seconds) as int,
        civil_month(zone, unix_seconds) as int,
        civil_day(zone, unix_seconds) as int,
    )
}

/// The day key of the given calendar date.
pub fn day_key_for(year: i32, month: u32, day: u32) -> (key: String)
    ensures
        key@ == day_key_text(year as int, month as int, day as int),
{
    proof {
        reveal_strlit("-");
    }
    let mut key = String::new();
    if year < 0 {
        key.append("-");
        push_padded(&mut key, (-(year as i64)) as u64, 3);
    } else {
        push_padded(&mut key, year as u64, 4);
    }
    assert(key@ =~= year_text(year as int));
    key.append("-");
    push_padded(&mut key, month as u64, 2);
    key.append("-");
    push_padded(&mut key, day as u64, 2);
    assert(key@ =~= day_key_text(year as int, month as int, day as int));
    key
}

/// The day key, in the time zone named `tz`, of the moment that lies
/// `unix_seconds` seconds after the start of 1970 in UTC; the caller reads
/// the clock. It is had exactly when the name is one that the time zone
/// database holds and the moment is one that the calendar reaches.
pub fn day_key(tz: &str, unix_seconds: i64) -> (key: Result<String, TimeError>)
    ensures
        key is Ok <==> (zone_known(tz@) && in_calendar(unix_seconds)),
        key matches Ok(text) ==> text@ == day_key_of(tz@, unix_seconds),
        key matches Ok(text) ==> 1 <= civil_month(tz@, unix_seconds) <= 12 && 1 <= civil_day(
            tz@,
            unix_seconds,
        ) <= 31,
        key matches Err(error) ==> !zone_known(tz@) && error == TimeError::InvalidZone
            || zone_known(tz@) && error == TimeError::OutOfRange,
{
    match date_in_zone(tz, unix_seconds) {
        Some(Some(date)) => Ok(day_key_for(date.year, date.month, date.day)),
        Some(None) => Err(TimeError::OutOfRange),
        None => Err(TimeError::InvalidZone),
    }
}

} // verus!

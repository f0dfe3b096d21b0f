//! The liveness record that the heartbeat appends.

use vstd::prelude::*;
use vstd::string::StringExecFns;
use crate::time::in_calendar;

verus! {

/// The fewest characters of a timestamp: `YYYY-MM-DDTHH:MM:SS+HH:MM`.
pub const STAMP_MIN_LEN: usize = 25;

/// `chrono::DateTime::from_timestamp` seen through `DateTime::with_timezone`
/// in `chrono::Local` and rendered by `DateTime::to_rfc3339`: the moment in
/// the machine's time zone. No clock is read and nothing gives up: a moment
/// outside the calendar gives no text. The machine's zone is looked up, so
/// nothing is claimed of which text it is; of every text the contract claims
/// the length that the date, the time and the offset take at the least.
#[verifier::external_body]
fn local_timestamp(unix_seconds: i64, nanos: u32) -> (stamp: Option<String>)
    ensures
        nanos < 1_000_000_000 ==> (stamp is Some <==> in_calendar(unix_seconds)),
        stamp matches Some(text) ==> text@.len() >= STAMP_MIN_LEN,
{
    match chrono::DateTime::from_timestamp(unix_seconds, nanos) {
        Some(utc) => Some(utc.with_timezone(&chrono::Local).to_rfc3339()),
        None => None,
    }
}

/// The heartbeat line for a given timestamp.
pub open spec fn heartbeat_of(stamp: Seq<char>) -> Seq<char> {
    stamp + " heartbeat"@
}

/// Whether `line` is the heartbeat line of some timestamp of full length.
pub open spec fn is_heartbeat(line: Seq<char>) -> bool {
    exists|stamp: Seq<char>| stamp.len() >= STAMP_MIN_LEN && line == #[trigger] heartbeat_of(stamp)
}

/// The heartbeat line for a given timestamp: the timestamp, a space, and the
/// word `heartbeat`.
pub fn heartbeat_text(stamp: &str) -> (line: String)
    ensures
        line@ == heartbeat_of(stamp@),
{
    let mut line = stamp.to_owned();
    line.append(" heartbeat");
    line
}

/// The heartbeat line for the moment that lies `unix_seconds` seconds and
/// `nanos` nanoseconds after the start of 1970 in UTC; the caller reads the
/// clock. A moment that the calendar reaches has a line.
pub fn heartbeat_line(unix_seconds: i64, nanos: u32) -> (line: Option<String>)
    ensures
        nanos < 1_000_000_000 ==> (line is Some <==> in_calendar(unix_seconds)),
        line matches Some(text) ==> is_heartbeat(text@),
{
    match local_timestamp(unix_seconds, nanos) {
        Some(stamp) => {
            let line = heartbeat_text(stamp.as_str());
            assert(line@ == heartbeat_of(stamp@));
            Some(line)
        },
        None => None,
    }
}

} // verus!

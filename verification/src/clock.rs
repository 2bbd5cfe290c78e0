//! The wall clock and the rendering of instants, both from `jiff`.
//!
//! An instant is a count of whole milliseconds since the Unix epoch: the
//! precision that the store keeps.

use vstd::prelude::*;

verus! {

/// The earliest instant that `jiff` holds, in milliseconds.
pub const EARLIEST_MILLIS: i64 = -377705023201000;

/// The latest instant that `jiff` makes from milliseconds.
pub const LATEST_MILLIS: i64 = 253402207200000;

/// Whether `jiff` makes an instant from this count of milliseconds: its
/// `Timestamp::from_millisecond` accepts exactly the counts from
/// [`EARLIEST_MILLIS`] to [`LATEST_MILLIS`].
pub fn representable(millis: i64) -> (r: bool)
    ensures
        r == (EARLIEST_MILLIS <= millis <= LATEST_MILLIS),
{
    EARLIEST_MILLIS <= millis && millis <= LATEST_MILLIS
}

/// The current instant in whole milliseconds, or `None` where the system
/// clock stands outside the range of `jiff`: `std::time::SystemTime::now()`,
/// made a `jiff::Timestamp` by its `TryFrom`, which fails where the time is
/// out of range, and cut to milliseconds by `as_millisecond`. The
/// contract claims only the bounds that every `jiff::Timestamp` has; the last
/// second of the range has sub-second parts, hence the 999.
#[verifier::external_body]
pub(crate) fn system_millis() -> (now: Option<i64>)
    ensures
        now is Some ==> EARLIEST_MILLIS <= now->0 <= LATEST_MILLIS + 999,
{
    match jiff::Timestamp::try_from(std::time::SystemTime::now()) {
        Ok(timestamp) => Some(timestamp.as_millisecond()),
        Err(_) => None,
    }
}

/// Whether a reading of the clock is one that the clock can give: an instant
/// within the bounds of `jiff`, or none.
pub open spec fn clock_reading(clock: Option<i64>) -> bool {
    clock is Some ==> EARLIEST_MILLIS <= clock->0 <= LATEST_MILLIS + 999
}

/// The instant as Berlin wall time, `2025-03-07T02:12:38+01:00`:
/// `jiff::Timestamp::from_millisecond`, then `in_tz("Europe/Berlin")`, then
/// `strftime("%FT%T%:z")`. The text depends on the time zone database of the
/// machine, so the contract claims only that no text comes for an instant
/// that `from_millisecond` documents as out of range. `None` also where the
/// database does not know the zone.
#[verifier::external_body]
pub(crate) fn berlin_text(millis: i64) -> (text: Option<String>)
    ensures
        text is Some ==> EARLIEST_MILLIS <= millis <= LATEST_MILLIS,
{
    let timestamp = jiff::Timestamp::from_millisecond(millis).ok()?;
    let zoned = timestamp.in_tz("Europe/Berlin").ok()?;
    Some(zoned.strftime("%FT%T%:z").to_string())
}

} // verus!

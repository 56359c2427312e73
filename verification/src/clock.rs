//! Arithmetic on local clock readings.
//!
//! A local clock reading is an `i64` count of seconds: a UTC unix
//! timestamp plus the zone's UTC offset at that instant.  The hour,
//! minute, day number and weekday of such a reading follow from Euclidean
//! division, so they are computed and proved here rather than asked of an
//! outside crate.

use vstd::prelude::*;

verus! {

/// Largest magnitude of a clock reading the helpers accept; generous
/// enough for every instant the widget admits plus any UTC offset.
pub const MAX_ABS_CLOCK: i64 = 10_000_000_000_000;

/// Hour of the day, in `[0, 24)`, of the local clock reading `u`.
pub open spec fn spec_hour_of_day(u: int) -> int {
    (u / 3600) % 24
}

/// Minute of the hour, in `[0, 60)`, of the local clock reading `u`.
pub open spec fn spec_minute_of_hour(u: int) -> int {
    (u / 60) % 60
}

/// Calendar day number (days since 1970-01-01) holding the local clock
/// reading `u`.
pub open spec fn spec_day_number(u: int) -> int {
    u / 86400
}

/// Weekday index, in `[0, 7)` with 0 for Thursday (the weekday of day
/// number zero, 1970-01-01), of the local clock reading `u`.
pub open spec fn spec_weekday(u: int) -> int {
    (u / 86400) % 7
}

/// Hour of the day of a local clock reading.
pub fn local_hour_of_day(u: i64) -> (r: u32)
    requires
        -MAX_ABS_CLOCK <= u <= MAX_ABS_CLOCK,
    ensures
        r as int == spec_hour_of_day(u as int),
        r < 24,
{
    let q = u.checked_div_euclid(3600).unwrap();
    let h = q.checked_rem_euclid(24).unwrap();
    h as u32
}

/// Minute of the hour of a local clock reading.
pub fn local_minute_of_hour(u: i64) -> (r: u32)
    requires
        -MAX_ABS_CLOCK <= u <= MAX_ABS_CLOCK,
    ensures
        r as int == spec_minute_of_hour(u as int),
        r < 60,
{
    let q = u.checked_div_euclid(60).unwrap();
    let m = q.checked_rem_euclid(60).unwrap();
    m as u32
}

/// Day number of a local clock reading.
pub fn local_day_number(u: i64) -> (r: i64)
    requires
        -MAX_ABS_CLOCK <= u <= MAX_ABS_CLOCK,
    ensures
        r as int == spec_day_number(u as int),
        -116_000_000 <= r <= 116_000_000,
{
    u.checked_div_euclid(86400).unwrap()
}

/// Weekday index of a local clock reading, 0 for Thursday.
pub fn local_weekday(u: i64) -> (r: u32)
    requires
        -MAX_ABS_CLOCK <= u <= MAX_ABS_CLOCK,
    ensures
        r as int == spec_weekday(u as int),
        r < 7,
{
    let q = u.checked_div_euclid(86400).unwrap();
    let w = q.checked_rem_euclid(7).unwrap();
    w as u32
}

} // verus!

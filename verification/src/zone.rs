//! The timezone capability: a zone identifier from `chrono_tz` together
//! with the few lookups the widget needs from it.
//!
//! The timezone database compiled into `chrono_tz` makes every lookup
//! here a function of the zone and its arguments alone, so each outside
//! call sits behind a trusted wrapper whose result is named by an
//! uninterpreted spec function; the rest of the crate reasons only over
//! those names.

use chrono::Datelike;
use chrono::Offset;
use vstd::prelude::*;

verus! {

/// Zone identifiers come from `chrono_tz`; a value of this type is
/// opaque to the verifier and only carried through to the wrappers.
#[verifier::external_type_specification]
#[verifier::external_body]
pub struct ExTz(chrono_tz::Tz);

/// Largest magnitude of instant the offset lookup accepts; safely inside
/// the range `chrono` can represent.
pub const MAX_ABS_LOOKUP: i64 = 4_300_000_000_000;

/// The UTC offset, in seconds, that zone `tz` applies at UTC instant `t`.
pub uninterp spec fn zone_offset_of(tz: chrono_tz::Tz, t: int) -> int;

/// The IANA name of zone `tz`.
pub uninterp spec fn zone_name_of(tz: chrono_tz::Tz) -> Seq<char>;

/// The proleptic Gregorian calendar date, as (year, month, day), of day
/// number `d` (days since 1970-01-01).
pub uninterp spec fn civil_date_of(d: int) -> (int, int, int);

/// The unique UTC instant whose local reading in zone `tz` is hour `h`
/// of the calendar date `(y, m, d)`, or `None` where that wall-clock
/// reading is ambiguous or does not exist (near a daylight-saving jump,
/// or for an invalid date).
pub uninterp spec fn local_unique_of(tz: chrono_tz::Tz, y: int, m: int, d: int, h: int) -> Option<
    int,
>;

/// Relies on `chrono::TimeZone::offset_from_utc_datetime` for `chrono_tz::Tz`
/// and `chrono::Offset::fix`: the offset a zone applies at a UTC instant,
/// which `chrono::FixedOffset` documents as lying strictly between -24 and
/// +24 hours of seconds.
#[verifier::external_body]
pub fn utc_offset_at(tz: &chrono_tz::Tz, t: i64) -> (r: i32)
    requires
        -MAX_ABS_LOOKUP <= t <= MAX_ABS_LOOKUP,
    ensures
        r as int == zone_offset_of(*tz, t as int),
        -86400 < r < 86400,
{
    let utc = chrono::DateTime::<chrono::Utc>::from_timestamp(t, 0).unwrap();
    let offset = chrono::TimeZone::offset_from_utc_datetime(tz, &utc.naive_utc());
    chrono::Offset::fix(&offset).local_minus_utc()
}

/// Relies on `chrono_tz::Tz::name`: the zone's IANA name.
#[verifier::external_body]
pub fn zone_name(tz: &chrono_tz::Tz) -> (r: String)
    ensures
        r@ == zone_name_of(*tz),
{
    (*tz).name().to_string()
}

/// Relies on `chrono::NaiveDate::from_num_days_from_ce_opt` and the
/// `chrono::Datelike` accessors: the calendar date of a day number, with
/// the month in `[1, 12]` and the day of the month in `[1, 31]` as
/// `chrono` documents them.  The admitted day numbers lie well inside
/// the years `chrono`'s calendar covers.
#[verifier::external_body]
pub fn civil_from_day_number(d: i64) -> (r: (i32, u32, u32))
    requires
        -50_000_000 <= d <= 50_000_000,
    ensures
        (r.0 as int, r.1 as int, r.2 as int) == civil_date_of(d as int),
        1 <= r.1 <= 12,
        1 <= r.2 <= 31,
{
    let ce_days = d + 719_163;
    let date = chrono::NaiveDate::from_num_days_from_ce_opt(ce_days as i32).unwrap();
    (Datelike::year(&date), Datelike::month(&date), Datelike::day(&date))
}

/// Relies on `chrono::NaiveDate::from_ymd_opt`, `NaiveDate::and_hms_opt`,
/// `chrono::TimeZone::from_local_datetime` and `MappedLocalTime::single`:
/// resolves a local wall-clock reading to the UTC instant it names, or to
/// `None` where the reading is skipped, ambiguous, or not a valid date.
/// A returned timestamp lies within the range `chrono`'s calendar covers.
#[verifier::external_body]
pub fn resolve_local(tz: &chrono_tz::Tz, y: i32, m: u32, d: u32, h: u32) -> (r: Option<i64>)
    ensures
        r is Some <==> local_unique_of(*tz, y as int, m as int, d as int, h as int) is Some,
        r matches Some(t) ==> local_unique_of(*tz, y as int, m as int, d as int, h as int)
            == Some(t as int) && -8_400_000_000_000 <= t <= 8_400_000_000_000,
{
    let date = match chrono::NaiveDate::from_ymd_opt(y, m, d) {
        Some(x) => x,
        None => return None,
    };
    let naive = match date.and_hms_opt(h, 0, 0) {
        Some(x) => x,
        None => return None,
    };
    match chrono::TimeZone::from_local_datetime(tz, &naive).single() {
        Some(dt) => Some(dt.timestamp()),
        None => None,
    }
}

/// A timezone as the widget sees it: the zone identifier used for
/// offset and calendar lookups, and its display names.
pub struct TimeZone {
    pub tz: chrono_tz::Tz,
    pub display_name: String,
    pub full_display_name: String,
}

impl TimeZone {
    /// Builds the capability for a `chrono_tz` zone; both display names
    /// start as the zone's IANA name.
    pub fn from_tz(tz: chrono_tz::Tz) -> (r: TimeZone)
        ensures
            r.tz == tz,
            r.display_name@ == zone_name_of(tz),
            r.full_display_name@ == zone_name_of(tz),
    {
        let display_name = zone_name(&tz);
        let full_display_name = display_name.clone();
        TimeZone { tz, display_name, full_display_name }
    }
}

} // verus!

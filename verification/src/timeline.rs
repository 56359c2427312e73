//! The timeline widget: a 48-hour window of one timezone's activity,
//! centered on a scrub instant, with the mapping from instants to track
//! columns and the hourly scan for daylight-saving transitions.

use crate::clock::{local_hour_of_day, spec_hour_of_day};
use crate::config::{Activity, ColorTheme, ThemeColor, TimeDisplayConfig};
use crate::zone::{utc_offset_at, zone_offset_of, TimeZone, MAX_ABS_LOOKUP};
use vstd::arithmetic::div_mod::{lemma_div_is_ordered, lemma_div_pos_is_pos};
use vstd::arithmetic::mul::lemma_mul_inequality;
use vstd::prelude::*;

verus! {

/// Seconds from the scrub instant to either end of the rendered window.
pub const HALF_WINDOW: i64 = 86_400;

/// Largest magnitude of instant a widget may be built around; a machine
/// bound, far beyond any calendar date the zone database describes.
pub const MAX_ABS_INSTANT: i64 = 4_000_000_000_000;

/// Largest magnitude of instant `time_to_position` accepts; wide enough
/// for every instant a resolved wall-clock reading can produce.
pub const MAX_ABS_MAPPED: i64 = 9_000_000_000_000;

/// How the time caption is written: 24-hour or 12-hour clock.
#[derive(Debug, Clone, Copy, PartialEq, Eq, Structural)]
pub enum TimeFormat {
    TwentyFourHour,
    TwelveHour,
}

/// How the widget title names the zone: short name with offset, or the
/// full display name.
#[derive(Debug, Clone, Copy, PartialEq, Eq, Structural)]
pub enum TimezoneDisplayMode {
    Short,
    Full,
}

/// A change of UTC offset between two sampled instants an hour apart.
/// The offset growing is reported as `FallBack` and the offset shrinking
/// as `SpringForward`.
#[derive(Debug, Clone, Copy, PartialEq, Eq, Structural)]
pub enum DstTransition {
    SpringForward,
    FallBack,
}

/// One timezone's timeline for a single render call: the scrub instant
/// it is centered on, the real current instant, and the borrowed
/// capabilities that classify and color its hours.
pub struct TimelineWidget<'a> {
    pub timeline_position: i64,
    pub current_time: i64,
    pub timezone: &'a TimeZone,
    pub selected: bool,
    pub display_format: TimeFormat,
    pub timezone_display_mode: TimezoneDisplayMode,
    pub time_config: &'a TimeDisplayConfig,
    pub color_theme: ColorTheme,
    pub show_date: bool,
    pub show_dst: bool,
}

/// Column of the track of `width` columns that instant `t` maps to, for
/// a window centered on `pos`: the ratio of `t - (pos - 24h)` to the
/// 48-hour span, times the width, rounded to the nearest column and
/// clamped to `[0, width - 1]`.
pub open spec fn spec_time_to_position(pos: int, t: int, width: int) -> int {
    let td = t - (pos - 86400);
    let cap = if width >= 1 {
        width - 1
    } else {
        0
    };
    if td <= 0 {
        0
    } else {
        let col = (2 * td * width + 172800) / 345600;
        if col > cap {
            cap
        } else {
            col
        }
    }
}

/// The transition reported at sample instant `t`: the zone's offsets at
/// `t` and one hour later are compared; a larger later offset is a fall
/// back, a smaller one a spring forward, an equal one no transition.
pub open spec fn spec_detect(tz: chrono_tz::Tz, t: int) -> Option<DstTransition> {
    let before = zone_offset_of(tz, t);
    let after = zone_offset_of(tz, t + 3600);
    if after > before {
        Some(DstTransition::FallBack)
    } else if after < before {
        Some(DstTransition::SpringForward)
    } else {
        None
    }
}

/// The transitions found by `n` hourly samples starting at instant `t`,
/// each paired with the sample instant that reported it, in sample
/// order.
pub open spec fn spec_scan_from(tz: chrono_tz::Tz, t: int, n: nat) -> Seq<(int, DstTransition)>
    decreases n,
{
    if n == 0 {
        Seq::empty()
    } else {
        let rest = spec_scan_from(tz, t + 3600, (n - 1) as nat);
        match spec_detect(tz, t) {
            Some(tr) => seq![(t, tr)] + rest,
            None => rest,
        }
    }
}

/// The transitions of the 48-hour window centered on `pos`: one sample
/// per hour from the window's start, the window's end excluded.
pub open spec fn spec_scan(tz: chrono_tz::Tz, pos: int) -> Seq<(int, DstTransition)> {
    spec_scan_from(tz, pos - 86400, 48)
}

impl<'a> TimelineWidget<'a> {
    /// The widget's instants stay far from the machine's limits and its
    /// configured hour thresholds lie within a day.
    pub open spec fn wf(self) -> bool {
        &&& -MAX_ABS_INSTANT <= self.timeline_position <= MAX_ABS_INSTANT
        &&& -MAX_ABS_INSTANT <= self.current_time <= MAX_ABS_INSTANT
        &&& self.time_config.wf()
    }

    /// Builds a widget; a faithful copy of every argument.
    pub fn new(
        timeline_position: i64,
        current_time: i64,
        timezone: &'a TimeZone,
        selected: bool,
        display_format: TimeFormat,
        timezone_display_mode: TimezoneDisplayMode,
        time_config: &'a TimeDisplayConfig,
        color_theme: ColorTheme,
        show_date: bool,
        show_dst: bool,
    ) -> (r: Self)
        requires
            -MAX_ABS_INSTANT <= timeline_position <= MAX_ABS_INSTANT,
            -MAX_ABS_INSTANT <= current_time <= MAX_ABS_INSTANT,
            time_config.wf(),
        ensures
            r.timeline_position == timeline_position,
            r.current_time == current_time,
            r.timezone == timezone,
            r.selected == selected,
            r.display_format == display_format,
            r.timezone_display_mode == timezone_display_mode,
            r.time_config == time_config,
            r.color_theme == color_theme,
            r.show_date == show_date,
            r.show_dst == show_dst,
            r.wf(),
    {
        Self {
            timeline_position,
            current_time,
            timezone,
            selected,
            display_format,
            timezone_display_mode,
            time_config,
            color_theme,
            show_date,
            show_dst,
        }
    }

    /// Start of the rendered window, 24 hours before the scrub instant.
    pub fn get_timeline_start(&self) -> (r: i64)
        requires
            self.wf(),
        ensures
            r == self.timeline_position - HALF_WINDOW,
    {
        self.timeline_position - HALF_WINDOW
    }

    /// End of the rendered window, 24 hours after the scrub instant.
    pub fn get_timeline_end(&self) -> (r: i64)
        requires
            self.wf(),
        ensures
            r == self.timeline_position + HALF_WINDOW,
    {
        self.timeline_position + HALF_WINDOW
    }

    /// Maps an instant to its track column.
    pub fn time_to_position(&self, time: i64, width: u16) -> (r: u16)
        requires
            self.wf(),
            -MAX_ABS_MAPPED <= time <= MAX_ABS_MAPPED,
        ensures
            r as int == spec_time_to_position(
                self.timeline_position as int,
                time as int,
                width as int,
            ),
            width >= 1 ==> r < width,
    {
        let start = self.get_timeline_start();
        let end = self.get_timeline_end();
        let total: i64 = end - start;
        if total == 0 {
            // Degenerate window; unreachable since the window is fixed at 48 hours.
            return 0;
        }
        let td: i64 = time - start;
        if td <= 0 || width == 0 {
            return 0;
        }
        let w: i64 = width as i64;
        proof {
            assert(2 * (td as int) * (w as int) <= 2 * 13_000_000_086_400int * 65535)
                by (nonlinear_arith)
                requires
                    1 <= td <= 13_000_000_086_400i64,
                    1 <= w <= 65535,
            ;
            assert(2 * (td as int) * (w as int) >= 2) by (nonlinear_arith)
                requires
                    1 <= td,
                    1 <= w,
            ;
        }
        let num: i64 = 2 * td * w + total;
        let col: i64 = num.checked_div_euclid(2 * total).unwrap();
        proof {
            lemma_div_pos_is_pos(num as int, 345600);
        }
        let cap: i64 = (width - 1) as i64;
        if col > cap {
            width - 1
        } else {
            col as u16
        }
    }

    /// Glyph and color of an hour of local time under the widget's
    /// configuration and theme.
    pub fn get_hour_display(&self, hour: u32) -> (r: (char, ThemeColor))
        ensures
            r.0 == TimeDisplayConfig::spec_glyph(self.time_config.spec_classify(hour as int)),
            r.1 == TimeDisplayConfig::spec_color(
                self.time_config.spec_classify(hour as int),
                self.color_theme,
            ),
    {
        let activity: Activity = self.time_config.get_time_activity(hour);
        let ch = self.time_config.get_activity_char(activity);
        let color = self.time_config.get_activity_color(activity, self.color_theme);
        (ch, color)
    }

    /// Reports the daylight-saving transition, if any, between this
    /// sample instant and the next hour.
    pub fn detect_dst_transition(&self, utc_time: i64) -> (r: Option<DstTransition>)
        requires
            -MAX_ABS_LOOKUP <= utc_time,
            utc_time + 3600 <= MAX_ABS_LOOKUP,
        ensures
            r == spec_detect(self.timezone.tz, utc_time as int),
    {
        let offset_before = utc_offset_at(&self.timezone.tz, utc_time);
        let offset_after = utc_offset_at(&self.timezone.tz, utc_time + 3600);
        if offset_after > offset_before {
            Some(DstTransition::FallBack)
        } else if offset_after < offset_before {
            Some(DstTransition::SpringForward)
        } else {
            None
        }
    }

    /// Scans the window hour by hour and collects every transition with
    /// the sample instant that reported it, in order.
    pub fn get_dst_transitions_in_range(&self) -> (r: Vec<(i64, DstTransition)>)
        requires
            self.wf(),
        ensures
            r@.map_values(|p: (i64, DstTransition)| (p.0 as int, p.1)) == spec_scan(
                self.timezone.tz,
                self.timeline_position as int,
            ),
    {
        let ghost tz = self.timezone.tz;
        let ghost full = spec_scan(tz, self.timeline_position as int);
        let mut transitions: Vec<(i64, DstTransition)> = Vec::new();
        let start = self.get_timeline_start();
        let end = self.get_timeline_end();
        let mut current = start;
        let mut i: u32 = 0;
        proof {
            assert(transitions@.map_values(|p: (i64, DstTransition)| (p.0 as int, p.1))
                =~= Seq::<(int, DstTransition)>::empty());
        }
        while current < end
            invariant
                self.wf(),
                tz == self.timezone.tz,
                start == self.timeline_position - 86400,
                end == self.timeline_position + 86400,
                0 <= i <= 48,
                current == start + 3600 * i,
                full == spec_scan(tz, self.timeline_position as int),
                transitions@.map_values(|p: (i64, DstTransition)| (p.0 as int, p.1))
                    + spec_scan_from(tz, current as int, (48 - i) as nat) == full,
            decreases end - current,
        {
            let ghost mapped_before = transitions@.map_values(
                |p: (i64, DstTransition)| (p.0 as int, p.1),
            );
            if let Some(transition) = self.detect_dst_transition(current) {
                transitions.push((current, transition));
                proof {
                    assert(transitions@.map_values(|p: (i64, DstTransition)| (p.0 as int, p.1))
                        =~= mapped_before + seq![(current as int, transition)]);
                }
            }
            proof {
                assert(spec_scan_from(tz, current as int, (48 - i) as nat) == (
                match spec_detect(tz, current as int) {
                    Some(tr) => seq![(current as int, tr)] + spec_scan_from(
                        tz,
                        current as int + 3600,
                        (47 - i) as nat,
                    ),
                    None => spec_scan_from(tz, current as int + 3600, (47 - i) as nat),
                }));
                assert(transitions@.map_values(|p: (i64, DstTransition)| (p.0 as int, p.1))
                    + spec_scan_from(tz, current as int + 3600, (47 - i) as nat) =~= full);
            }
            current = current + 3600;
            i = i + 1;
        }
        proof {
            assert(i == 48);
            assert(spec_scan_from(tz, current as int, 0) =~= Seq::<(int, DstTransition)>::empty());
            assert(transitions@.map_values(|p: (i64, DstTransition)| (p.0 as int, p.1)) =~= full);
        }
        transitions
    }

    /// Glyph and color of track column `i` of `width`: the column's
    /// fractional position across the window names an instant, whose
    /// local hour in the zone is classified.
    pub open spec fn spec_display_at(self, width: int, i: int) -> (char, ThemeColor) {
        let start = self.timeline_position - 86400;
        let t = start + 60 * ((i * 2880) / width);
        let u = t + zone_offset_of(self.timezone.tz, t);
        let a = self.time_config.spec_classify(spec_hour_of_day(u));
        (TimeDisplayConfig::spec_glyph(a), TimeDisplayConfig::spec_color(a, self.color_theme))
    }

    /// Background of the track: for each column, the glyph and color of
    /// the local hour that column falls in.
    pub fn get_timeline_display(&self, width: u16) -> (r: Vec<(char, ThemeColor)>)
        requires
            self.wf(),
        ensures
            r@.len() == width as int,
            forall|i: int|
                0 <= i < width as int ==> r@[i] == self.spec_display_at(width as int, i),
    {
        let mut display: Vec<(char, ThemeColor)> = Vec::new();
        let start = self.get_timeline_start();
        let mut i: u16 = 0;
        while i < width
            invariant
                self.wf(),
                start == self.timeline_position - 86400,
                0 <= i <= width,
                display@.len() == i as int,
                forall|j: int|
                    0 <= j < i as int ==> display@[j] == self.spec_display_at(width as int, j),
            decreases width - i,
        {
            let scaled: i64 = (i as i64) * 2880;
            let minutes: i64 = scaled.checked_div_euclid(width as i64).unwrap();
            proof {
                vstd::arithmetic::div_mod::lemma_multiply_divide_lt(
                    scaled as int,
                    width as int,
                    2880,
                );
                lemma_div_pos_is_pos(scaled as int, width as int);
            }
            let t: i64 = start + 60 * minutes;
            let off: i32 = utc_offset_at(&self.timezone.tz, t);
            let u: i64 = t + off as i64;
            let hour: u32 = local_hour_of_day(u);
            let cell = self.get_hour_display(hour);
            display.push(cell);
            i = i + 1;
        }
        display
    }
}

/// The column an instant maps to always lies on the track: for every
/// window center and every width of at least one column, the result of
/// the mapping lies in `[0, width - 1]`.
pub proof fn lemma_time_to_position_bounds(pos: int, t: int, width: int)
    requires
        width >= 1,
    ensures
        0 <= spec_time_to_position(pos, t, width) <= width - 1,
{
    let td = t - (pos - 86400);
    if td > 0 {
        assert(2 * td * width >= 2) by (nonlinear_arith)
            requires
                td >= 1,
                width >= 1,
        ;
        lemma_div_pos_is_pos(2 * td * width + 172800, 345600);
    }
}

/// The mapping from instants to columns is monotonic: a later instant
/// never maps to an earlier column, whatever the window center and for
/// every width of at least one column.
pub proof fn lemma_time_to_position_monotonic(pos: int, t1: int, t2: int, width: int)
    requires
        width >= 1,
        t1 <= t2,
    ensures
        spec_time_to_position(pos, t1, width) <= spec_time_to_position(pos, t2, width),
{
    let td1 = t1 - (pos - 86400);
    let td2 = t2 - (pos - 86400);
    lemma_time_to_position_bounds(pos, t1, width);
    lemma_time_to_position_bounds(pos, t2, width);
    if td1 > 0 {
        lemma_mul_inequality(td1, td2, 2 * width);
        assert(2 * td1 * width == td1 * (2 * width) && 2 * td2 * width == td2 * (2 * width))
            by (nonlinear_arith);
        lemma_div_is_ordered(2 * td1 * width + 172800, 2 * td2 * width + 172800, 345600);
    }
}

/// In a zone whose UTC offset never changes, the hourly scan of any
/// window reports no transition at all.
pub proof fn lemma_fixed_offset_no_transitions(tz: chrono_tz::Tz, pos: int)
    requires
        forall|t1: int, t2: int| zone_offset_of(tz, t1) == zone_offset_of(tz, t2),
    ensures
        spec_scan(tz, pos).len() == 0,
{
    lemma_fixed_offset_scan_from_empty(tz, pos - 86400, 48);
}

proof fn lemma_fixed_offset_scan_from_empty(tz: chrono_tz::Tz, t: int, n: nat)
    requires
        forall|t1: int, t2: int| zone_offset_of(tz, t1) == zone_offset_of(tz, t2),
    ensures
        spec_scan_from(tz, t, n).len() == 0,
    decreases n,
{
    if n > 0 {
        assert(zone_offset_of(tz, t + 3600) == zone_offset_of(tz, t));
        lemma_fixed_offset_scan_from_empty(tz, t + 3600, (n - 1) as nat);
    }
}

/// Every transition the scan of a window reports carries a sample
/// instant inside `[window start, window end)`, and is one of the two
/// transition kinds.
pub proof fn lemma_scan_transitions_in_window(tz: chrono_tz::Tz, pos: int)
    ensures
        forall|k: int|
            0 <= k < spec_scan(tz, pos).len() ==> {
                let (t, tr) = #[trigger] spec_scan(tz, pos)[k];
                pos - 86400 <= t < pos + 86400 && (tr == DstTransition::SpringForward || tr
                    == DstTransition::FallBack)
            },
{
    lemma_scan_from_in_range(tz, pos - 86400, 48);
}

proof fn lemma_scan_from_in_range(tz: chrono_tz::Tz, t: int, n: nat)
    ensures
        forall|k: int|
            0 <= k < spec_scan_from(tz, t, n).len() ==> {
                let (ti, tr) = #[trigger] spec_scan_from(tz, t, n)[k];
                t <= ti < t + 3600 * n && (tr == DstTransition::SpringForward || tr
                    == DstTransition::FallBack)
            },
    decreases n,
{
    if n > 0 {
        lemma_scan_from_in_range(tz, t + 3600, (n - 1) as nat);
        let rest = spec_scan_from(tz, t + 3600, (n - 1) as nat);
        match spec_detect(tz, t) {
            Some(tr) => {
                assert(forall|k: int|
                    0 <= k < spec_scan_from(tz, t, n).len() ==> #[trigger] spec_scan_from(
                        tz,
                        t,
                        n,
                    )[k] == if k == 0 {
                        (t, tr)
                    } else {
                        rest[k - 1]
                    });
            },
            None => {},
        }
    }
}

} // verus!

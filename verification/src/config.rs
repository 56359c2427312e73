//! Activity-classification rules and color palette supplied to the widget.
//!
//! An hour of local time falls into one of three activity categories:
//! `Work` inside the configured work-hours range, `Awake` in the daytime
//! hours outside work, and `Night` for the rest.  Each category has a
//! fixed glyph and a theme-dependent color.

use vstd::prelude::*;

verus! {

/// Activity category of an hour of local time.
#[derive(Debug, Clone, Copy, PartialEq, Eq, Structural)]
pub enum Activity {
    Work,
    Awake,
    Night,
}

/// A color of the terminal palette, as the widget names them.  The
/// application maps these onto whatever backend palette it draws with.
#[derive(Debug, Clone, Copy, PartialEq, Eq, Structural)]
pub enum ThemeColor {
    Default,
    DarkGray,
    Gray,
    White,
    Green,
    Yellow,
    Cyan,
    Magenta,
    Blue,
    Red,
}

/// Threshold rules classifying each hour of the day.  Hours satisfying
/// `work_hours_start <= h < work_hours_end` are work hours; otherwise
/// hours satisfying `awake_hours_start <= h < awake_hours_end` are awake
/// hours; every remaining hour is night.
#[derive(Debug, Clone, Copy, PartialEq, Eq, Structural)]
pub struct TimeDisplayConfig {
    pub work_hours_start: u32,
    pub work_hours_end: u32,
    pub awake_hours_start: u32,
    pub awake_hours_end: u32,
}

/// Palette selection: border and marker colors, and one color per
/// activity category.
#[derive(Debug, Clone, Copy, PartialEq, Eq, Structural)]
pub struct ColorTheme {
    pub selected_border: ThemeColor,
    pub now_marker: ThemeColor,
    pub scrub_marker: ThemeColor,
    pub work: ThemeColor,
    pub awake: ThemeColor,
    pub night: ThemeColor,
}

impl TimeDisplayConfig {
    /// The configured hour thresholds all lie within a day.
    pub open spec fn wf(self) -> bool {
        self.work_hours_start <= 23 && self.work_hours_end <= 24
            && self.awake_hours_start <= 23 && self.awake_hours_end <= 24
    }

    /// Category of hour `h` under configuration `self`.
    pub open spec fn spec_classify(self, h: int) -> Activity {
        if self.work_hours_start <= h < self.work_hours_end {
            Activity::Work
        } else if self.awake_hours_start <= h < self.awake_hours_end {
            Activity::Awake
        } else {
            Activity::Night
        }
    }

    /// Classifies an hour of the day into its activity category.
    pub fn get_time_activity(&self, hour: u32) -> (r: Activity)
        ensures
            r == self.spec_classify(hour as int),
    {
        if self.work_hours_start <= hour && hour < self.work_hours_end {
            Activity::Work
        } else if self.awake_hours_start <= hour && hour < self.awake_hours_end {
            Activity::Awake
        } else {
            Activity::Night
        }
    }

    /// Glyph drawn for a category.
    pub open spec fn spec_glyph(a: Activity) -> char {
        match a {
            Activity::Work => '\u{2593}',
            Activity::Awake => '\u{2592}',
            Activity::Night => '\u{2591}',
        }
    }

    /// Returns the shade-block glyph for an activity category: dark shade
    /// for work, medium shade for awake, light shade for night.
    pub fn get_activity_char(&self, activity: Activity) -> (r: char)
        ensures
            r == Self::spec_glyph(activity),
    {
        match activity {
            Activity::Work => '\u{2593}',
            Activity::Awake => '\u{2592}',
            Activity::Night => '\u{2591}',
        }
    }

    /// Color drawn for a category under a theme.
    pub open spec fn spec_color(a: Activity, theme: ColorTheme) -> ThemeColor {
        match a {
            Activity::Work => theme.work,
            Activity::Awake => theme.awake,
            Activity::Night => theme.night,
        }
    }

    /// Returns the theme color for an activity category.
    pub fn get_activity_color(&self, activity: Activity, theme: ColorTheme) -> (r: ThemeColor)
        ensures
            r == Self::spec_color(activity, theme),
    {
        match activity {
            Activity::Work => theme.work,
            Activity::Awake => theme.awake,
            Activity::Night => theme.night,
        }
    }
}

impl Default for TimeDisplayConfig {
    /// Default rules: work 08:00-18:00, awake 06:00-22:00, night otherwise.
    fn default() -> (r: Self)
        ensures
            r.work_hours_start == 8,
            r.work_hours_end == 18,
            r.awake_hours_start == 6,
            r.awake_hours_end == 22,
            r.wf(),
    {
        TimeDisplayConfig {
            work_hours_start: 8,
            work_hours_end: 18,
            awake_hours_start: 6,
            awake_hours_end: 22,
        }
    }
}

impl ColorTheme {
    /// Color of the border of a selected widget.
    pub fn get_selected_border_color(&self) -> (r: ThemeColor)
        ensures
            r == self.selected_border,
    {
        self.selected_border
    }

    /// Color of the now marker.
    pub fn get_current_time_color(&self) -> (r: ThemeColor)
        ensures
            r == self.now_marker,
    {
        self.now_marker
    }

    /// Color of the scrub marker.
    pub fn get_timeline_position_color(&self) -> (r: ThemeColor)
        ensures
            r == self.scrub_marker,
    {
        self.scrub_marker
    }
}

impl Default for ColorTheme {
    /// Default palette.
    fn default() -> (r: Self)
        ensures
            r.selected_border == ThemeColor::Cyan,
            r.now_marker == ThemeColor::White,
            r.scrub_marker == ThemeColor::Magenta,
            r.work == ThemeColor::Green,
            r.awake == ThemeColor::Yellow,
            r.night == ThemeColor::DarkGray,
    {
        ColorTheme {
            selected_border: ThemeColor::Cyan,
            now_marker: ThemeColor::White,
            scrub_marker: ThemeColor::Magenta,
            work: ThemeColor::Green,
            awake: ThemeColor::Yellow,
            night: ThemeColor::DarkGray,
        }
    }
}

} // verus!

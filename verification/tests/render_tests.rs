use tz_timeline::{
    caption_chars, date_label_chars, label_start, local_day_number, local_hour_of_day,
    local_minute_of_hour, local_weekday, offset_chars, Activity, ColorTheme, TimeDisplayConfig,
    TimeFormat, TimeZone, TimelineWidget, TimezoneDisplayMode,
};

// 2024-01-01T13:30:00Z, a Monday.
const MONDAY_HALF_PAST_ONE: i64 = 1_704_115_800;

fn widget<'a>(
    position: i64,
    now: i64,
    tz: &'a TimeZone,
    config: &'a TimeDisplayConfig,
    format: TimeFormat,
    show_date: bool,
    show_dst: bool,
) -> TimelineWidget<'a> {
    TimelineWidget::new(
        position,
        now,
        tz,
        false,
        format,
        TimezoneDisplayMode::Short,
        config,
        ColorTheme::default(),
        show_date,
        show_dst,
    )
}

#[test]
fn test_classification_defaults() {
    let config = TimeDisplayConfig::default();
    assert_eq!(config.get_time_activity(14), Activity::Work);
    assert_eq!(config.get_time_activity(7), Activity::Awake);
    assert_eq!(config.get_time_activity(2), Activity::Night);
    assert_eq!(config.get_activity_char(Activity::Work), '▓');
    assert_eq!(config.get_activity_char(Activity::Awake), '▒');
    assert_eq!(config.get_activity_char(Activity::Night), '░');
}

#[test]
fn test_label_start_centering_and_clamping() {
    // Centered: start = c - l/2.
    assert_eq!(label_start(50, 9, 100), 46);
    // Floored at the left edge.
    assert_eq!(label_start(1, 6, 100), 0);
    // Pulled left so the label ends on the track.
    assert_eq!(label_start(99, 6, 100), 94);
    // Longer than the track: starts at 0 and truncates.
    assert_eq!(label_start(2, 10, 5), 0);
}

#[test]
fn test_clock_field_helpers() {
    // One second before the epoch is 23:59:59 on the last day of 1969.
    assert_eq!(local_hour_of_day(-1), 23);
    assert_eq!(local_minute_of_hour(-1), 59);
    assert_eq!(local_day_number(-1), -1);
    // Day zero, 1970-01-01, was a Thursday (weekday index 0).
    assert_eq!(local_weekday(0), 0);
    // 13:30 on a Monday.
    assert_eq!(local_hour_of_day(MONDAY_HALF_PAST_ONE), 13);
    assert_eq!(local_minute_of_hour(MONDAY_HALF_PAST_ONE), 30);
    assert_eq!(local_weekday(MONDAY_HALF_PAST_ONE), 4);
}

#[test]
fn test_text_builders() {
    let caption: String = caption_chars(TimeFormat::TwentyFourHour, 13, 30, 4)
        .into_iter()
        .collect();
    assert_eq!(caption, "13:30 Mon");
    let caption12: String = caption_chars(TimeFormat::TwelveHour, 0, 5, 0)
        .into_iter()
        .collect();
    assert_eq!(caption12, "12:05 AM Thu");
    let caption_pm: String = caption_chars(TimeFormat::TwelveHour, 13, 30, 4)
        .into_iter()
        .collect();
    assert_eq!(caption_pm, "01:30 PM Mon");
    let date: String = date_label_chars(5, 7).into_iter().collect();
    assert_eq!(date, "05 Jul");
    let plus: String = offset_chars(19_800).into_iter().collect();
    assert_eq!(plus, "+05:30");
    let minus: String = offset_chars(-18_000).into_iter().collect();
    assert_eq!(minus, "-05:00");
}

#[test]
fn test_title_short_and_full() {
    let tz = TimeZone::from_tz(chrono_tz::UTC);
    let config = TimeDisplayConfig::default();
    let w = widget(
        MONDAY_HALF_PAST_ONE,
        MONDAY_HALF_PAST_ONE,
        &tz,
        &config,
        TimeFormat::TwentyFourHour,
        false,
        false,
    );
    assert_eq!(w.title(), "UTC +00:00");

    let kolkata = TimeZone::from_tz(chrono_tz::Asia::Kolkata);
    let w2 = widget(
        MONDAY_HALF_PAST_ONE,
        MONDAY_HALF_PAST_ONE,
        &kolkata,
        &config,
        TimeFormat::TwentyFourHour,
        false,
        false,
    );
    assert_eq!(w2.title(), "Asia/Kolkata +05:30");

    let full = TimelineWidget::new(
        MONDAY_HALF_PAST_ONE,
        MONDAY_HALF_PAST_ONE,
        &kolkata,
        false,
        TimeFormat::TwentyFourHour,
        TimezoneDisplayMode::Full,
        &config,
        ColorTheme::default(),
        false,
        false,
    );
    assert_eq!(full.title(), "Asia/Kolkata");
}

#[test]
fn test_render_now_and_scrub_collapse_to_one_marker() {
    // End to end: scrub and now coincide, so only the now marker is drawn,
    // at the midpoint column of a 100-column track.
    let tz = TimeZone::from_tz(chrono_tz::UTC);
    let config = TimeDisplayConfig::default();
    let w = widget(
        MONDAY_HALF_PAST_ONE,
        MONDAY_HALF_PAST_ONE,
        &tz,
        &config,
        TimeFormat::TwentyFourHour,
        false,
        false,
    );
    let rows = w.render_content(100, 2);
    assert_eq!(rows.len(), 2);
    assert_eq!(rows[0].len(), 100);
    assert_eq!(rows[0][50].ch, '│');
    assert!(rows[0].iter().all(|c| c.ch != '┃'));

    // The caption "13:30 Mon" is centered under the scrub column.
    let expected: Vec<char> = "13:30 Mon".chars().collect();
    for (i, c) in expected.iter().enumerate() {
        assert_eq!(rows[1][46 + i].ch, *c);
    }
    assert_eq!(rows[1][0].ch, ' ');
}

#[test]
fn test_render_separate_markers() {
    // The scrub sits an hour ahead of the current time, so two distinct
    // markers are drawn.
    let tz = TimeZone::from_tz(chrono_tz::UTC);
    let config = TimeDisplayConfig::default();
    let w = widget(
        MONDAY_HALF_PAST_ONE,
        MONDAY_HALF_PAST_ONE - 3_600,
        &tz,
        &config,
        TimeFormat::TwentyFourHour,
        false,
        false,
    );
    let rows = w.render_content(100, 1);
    assert_eq!(rows.len(), 1);
    assert_eq!(rows[0][48].ch, '│');
    assert_eq!(rows[0][50].ch, '┃');
}

#[test]
fn test_render_background_classifies_hours() {
    // With 96 columns each column covers half an hour.  Column 0 maps to
    // 13:30 local (work, dark shade); column 25 maps to 02:00 local
    // (night, light shade).
    let tz = TimeZone::from_tz(chrono_tz::UTC);
    let config = TimeDisplayConfig::default();
    let w = widget(
        MONDAY_HALF_PAST_ONE,
        MONDAY_HALF_PAST_ONE,
        &tz,
        &config,
        TimeFormat::TwentyFourHour,
        false,
        false,
    );
    let rows = w.render_content(96, 1);
    assert_eq!(rows[0][0].ch, '▓');
    assert_eq!(rows[0][25].ch, '░');
}

#[test]
fn test_render_small_track_is_empty() {
    let tz = TimeZone::from_tz(chrono_tz::UTC);
    let config = TimeDisplayConfig::default();
    let w = widget(
        MONDAY_HALF_PAST_ONE,
        MONDAY_HALF_PAST_ONE,
        &tz,
        &config,
        TimeFormat::TwentyFourHour,
        false,
        false,
    );
    let rows = w.render_content(1, 2);
    assert!(rows.is_empty());
}

#[test]
fn test_render_date_labels() {
    // The window runs 2023-12-31T13:30Z to 2024-01-02T13:30Z, so three
    // calendar days are visible in UTC.  Each label is anchored at 13:00
    // local, the middle of the default work hours, and clamped to the
    // track; the middle label paints over the markers.
    let tz = TimeZone::from_tz(chrono_tz::UTC);
    let config = TimeDisplayConfig::default();
    let w = widget(
        MONDAY_HALF_PAST_ONE,
        MONDAY_HALF_PAST_ONE,
        &tz,
        &config,
        TimeFormat::TwentyFourHour,
        true,
        false,
    );
    let rows = w.render_content(100, 1);
    let chars: Vec<char> = rows[0].iter().map(|c| c.ch).collect();
    let first: String = chars[0..6].iter().collect();
    assert_eq!(first, "31 Dec");
    let middle: String = chars[46..52].iter().collect();
    assert_eq!(middle, "01 Jan");
    let last: String = chars[94..100].iter().collect();
    assert_eq!(last, "02 Jan");
}

#[test]
fn test_render_dst_marker() {
    // The known 2024 US/Eastern spring transition: its sample instant
    // (2024-03-10T06:00:00Z) sits one hour before the window center, at
    // column 49, marked with the offset-grew glyph.
    let tz = TimeZone::from_tz(chrono_tz::US::Eastern);
    let config = TimeDisplayConfig::default();
    let w = widget(
        1_710_054_000,
        1_710_054_000,
        &tz,
        &config,
        TimeFormat::TwentyFourHour,
        false,
        true,
    );
    let rows = w.render_content(100, 1);
    assert_eq!(rows[0][48].ch, '⇊');
    assert_eq!(rows[0][50].ch, '│');
}

use tz_timeline::{
    ColorTheme, DstTransition, TimeDisplayConfig, TimeFormat, TimeZone, TimelineWidget,
    TimezoneDisplayMode,
};

fn default_widget<'a>(
    position: i64,
    now: i64,
    tz: &'a TimeZone,
    config: &'a TimeDisplayConfig,
    format: TimeFormat,
    show_date: bool,
    show_dst: bool,
) -> TimelineWidget<'a> {
    TimelineWidget::new(
        position,
        now,
        tz,
        false,
        format,
        TimezoneDisplayMode::Short,
        config,
        ColorTheme::default(),
        show_date,
        show_dst,
    )
}

#[test]
fn test_timeline_widget_creation() {
    let tz = TimeZone::from_tz(chrono_tz::UTC);
    let now = chrono::Utc::now().timestamp();
    let config = TimeDisplayConfig::default();

    let widget = TimelineWidget::new(
        now,
        now,
        &tz,
        false,
        TimeFormat::TwentyFourHour,
        TimezoneDisplayMode::Short,
        &config,
        ColorTheme::default(),
        false,
        false,
    );
    assert_eq!(widget.timeline_position, now);
    assert_eq!(widget.current_time, now);
    assert!(!widget.selected);
    assert_eq!(widget.display_format, TimeFormat::TwentyFourHour);
}

#[test]
fn test_time_to_position() {
    let tz = TimeZone::from_tz(chrono_tz::UTC);
    let base_time = chrono::Utc::now().timestamp();
    let config = TimeDisplayConfig::default();
    let widget = default_widget(
        base_time,
        base_time,
        &tz,
        &config,
        TimeFormat::TwentyFourHour,
        false,
        false,
    );

    // Position should be in the middle for the timeline position itself
    let pos = widget.time_to_position(base_time, 100);
    assert_eq!(pos, 50); // Middle of 100-width timeline
}

#[test]
fn test_hour_display_mapping() {
    let tz = TimeZone::from_tz(chrono_tz::UTC);
    let base_time = chrono::Utc::now().timestamp();
    let config = TimeDisplayConfig::default();
    let widget = default_widget(
        base_time,
        base_time,
        &tz,
        &config,
        TimeFormat::TwentyFourHour,
        false,
        false,
    );

    // Work hours get the dark shade block
    let (ch, _) = widget.get_hour_display(14); // 2 PM
    assert_eq!(ch, '▓');

    // Awake hours get the medium shade
    let (ch, _) = widget.get_hour_display(7); // 7 AM
    assert_eq!(ch, '▒');

    // Night hours get the light shade
    let (ch, _) = widget.get_hour_display(2); // 2 AM
    assert_eq!(ch, '░');
}

#[test]
fn test_time_format_handling() {
    let tz = TimeZone::from_tz(chrono_tz::UTC);
    let base_time = chrono::Utc::now().timestamp();
    let config = TimeDisplayConfig::default();

    let widget_24h = default_widget(
        base_time,
        base_time,
        &tz,
        &config,
        TimeFormat::TwentyFourHour,
        false,
        false,
    );
    assert_eq!(widget_24h.display_format, TimeFormat::TwentyFourHour);

    let widget_12h = default_widget(
        base_time,
        base_time,
        &tz,
        &config,
        TimeFormat::TwelveHour,
        false,
        false,
    );
    assert_eq!(widget_12h.display_format, TimeFormat::TwelveHour);
}

#[test]
fn test_dst_transition_detection() {
    // A timezone that has DST transitions (US/Eastern)
    let tz = TimeZone::from_tz(chrono_tz::US::Eastern);
    let config = TimeDisplayConfig::default();

    let base_time = chrono::Utc::now().timestamp();
    let widget = default_widget(
        base_time,
        base_time,
        &tz,
        &config,
        TimeFormat::TwentyFourHour,
        false,
        true,
    );

    let transitions = widget.get_dst_transitions_in_range();

    // Every reported transition has valid data
    for (time, transition_type) in transitions {
        assert!(time >= widget.get_timeline_start() && time <= widget.get_timeline_end());
        assert!(matches!(
            transition_type,
            DstTransition::SpringForward | DstTransition::FallBack
        ));
    }
}

#[test]
fn test_dst_always_enabled() {
    let tz = TimeZone::from_tz(chrono_tz::UTC);
    let now = chrono::Utc::now().timestamp();
    let config = TimeDisplayConfig::default();

    let widget = default_widget(
        now,
        now,
        &tz,
        &config,
        TimeFormat::TwentyFourHour,
        false,
        true,
    );
    assert!(widget.show_dst);
}

#[test]
fn test_fixed_offset_zone_has_no_transitions() {
    let tz = TimeZone::from_tz(chrono_tz::UTC);
    let config = TimeDisplayConfig::default();
    // 2024-01-01T13:30:00Z
    let widget = default_widget(
        1_704_115_800,
        1_704_115_800,
        &tz,
        &config,
        TimeFormat::TwentyFourHour,
        false,
        true,
    );
    let transitions = widget.get_dst_transitions_in_range();
    assert!(transitions.is_empty());
}

#[test]
fn test_known_spring_transition_is_reported_once() {
    // US/Eastern went from UTC-5 to UTC-4 at 2024-03-10T07:00:00Z.  The
    // window is centered on that instant, so exactly one sample (the one
    // at 06:00Z, an hour before the jump) reports a change; the offset
    // grows, which this widget reports as FallBack.
    let tz = TimeZone::from_tz(chrono_tz::US::Eastern);
    let config = TimeDisplayConfig::default();
    let widget = default_widget(
        1_710_054_000,
        1_710_054_000,
        &tz,
        &config,
        TimeFormat::TwentyFourHour,
        false,
        true,
    );
    let transitions = widget.get_dst_transitions_in_range();
    assert_eq!(transitions.len(), 1);
    assert_eq!(transitions[0].0, 1_710_050_400);
    assert!(matches!(transitions[0].1, DstTransition::FallBack));
    // In range, as the window invariant promises.
    assert!(transitions[0].0 >= widget.get_timeline_start());
    assert!(transitions[0].0 < widget.get_timeline_end());
}

#[test]
fn test_time_to_position_clamps_and_is_monotonic() {
    let tz = TimeZone::from_tz(chrono_tz::UTC);
    let config = TimeDisplayConfig::default();
    let pos: i64 = 1_704_115_800;
    let widget = default_widget(
        pos,
        pos,
        &tz,
        &config,
        TimeFormat::TwentyFourHour,
        false,
        false,
    );
    // Far before the window start: column 0; far after: column W-1.
    assert_eq!(widget.time_to_position(pos - 1_000_000, 100), 0);
    assert_eq!(widget.time_to_position(pos + 1_000_000, 100), 99);
    // Monotonic samples across the window.
    let mut last = 0u16;
    let mut t = pos - 90_000;
    while t <= pos + 90_000 {
        let col = widget.time_to_position(t, 100);
        assert!(col >= last);
        assert!(col <= 99);
        last = col;
        t += 3_600;
    }
}

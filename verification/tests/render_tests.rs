use tomato_timer::font::TextMapper;
use tomato_timer::render::{
    compose_clock, format_clock, plan_frame, too_small_message, FramePlan,
};

#[test]
fn clock_formats_zero_padded() {
    assert_eq!(format_clock(0), "00:00");
    assert_eq!(format_clock(1), "00:01");
    assert_eq!(format_clock(59), "00:59");
    assert_eq!(format_clock(60), "01:00");
    assert_eq!(format_clock(90), "01:30");
    assert_eq!(format_clock(1500), "25:00");
    assert_eq!(format_clock(3599), "59:59");
}

#[test]
fn clock_widens_past_an_hour() {
    assert_eq!(format_clock(3600), "60:00");
    assert_eq!(format_clock(6000), "100:00");
    assert_eq!(format_clock(6061), "101:01");
}

#[test]
fn compose_without_header_is_the_glyph_rows() {
    let mapper = TextMapper::new();
    let rows = compose_clock(0, &mapper, None);
    assert_eq!(rows.len(), 6);
    for (i, row) in rows.iter().enumerate() {
        assert_eq!(row, &mapper.get_string_scan("00:00", i));
    }
    assert_eq!(rows[0], " _____  _____     _____  _____ ");
}

#[test]
fn compose_with_header_appends_padded_header() {
    let mapper = TextMapper::new();
    let rows = compose_clock(90, &mapper, Some("Work Interval"));
    assert_eq!(rows.len(), 9);
    for (i, row) in rows.iter().take(6).enumerate() {
        assert_eq!(row, &mapper.get_string_scan("01:30", i));
    }
    assert_eq!(rows[6], "");
    assert_eq!(rows[7], "Work Interval");
    assert_eq!(rows[8], "");
}

#[test]
fn plan_centers_content_bottom_heavy() {
    let mapper = TextMapper::new();
    match plan_frame(20, &mapper, false) {
        FramePlan::Centered { top, content, bottom } => {
            assert_eq!((top, content, bottom), (7, 6, 7));
        }
        FramePlan::TooSmall => panic!("twenty rows hold six rows of content"),
    }
    match plan_frame(20, &mapper, true) {
        FramePlan::Centered { top, content, bottom } => {
            // 20 - 9 = 11 leftover rows: five on top, six below
            assert_eq!((top, content, bottom), (5, 9, 6));
        }
        FramePlan::TooSmall => panic!("twenty rows hold nine rows of content"),
    }
}

#[test]
fn plan_exact_fit_has_no_padding() {
    let mapper = TextMapper::new();
    match plan_frame(6, &mapper, false) {
        FramePlan::Centered { top, content, bottom } => {
            assert_eq!((top, content, bottom), (0, 6, 0));
        }
        FramePlan::TooSmall => panic!("six rows hold six rows of content"),
    }
}

#[test]
fn short_surface_falls_back_without_layout() {
    let mapper = TextMapper::new();
    assert!(matches!(plan_frame(5, &mapper, false), FramePlan::TooSmall));
    assert!(matches!(plan_frame(8, &mapper, true), FramePlan::TooSmall));
    assert!(matches!(plan_frame(0, &mapper, false), FramePlan::TooSmall));
    assert!(!too_small_message().is_empty());
}

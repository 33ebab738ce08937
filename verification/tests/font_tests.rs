use tomato_timer::font::{TextMapper, SCAN_COUNT};

#[test]
fn num_scans_is_six() {
    let mapper = TextMapper::new();
    assert_eq!(mapper.get_num_scans(), 6);
    assert_eq!(SCAN_COUNT, 6);
}

#[test]
fn scan_returns_glyph_lines() {
    let mapper = TextMapper::new();
    assert_eq!(mapper.get_scan(&'0', 0), " _____ ");
    assert_eq!(mapper.get_scan(&'0', 5), r" \___/ ");
    assert_eq!(mapper.get_scan(&'1', 0), " __  ");
    assert_eq!(mapper.get_scan(&'7', 1), "|___  /");
    assert_eq!(mapper.get_scan(&':', 1), "(_)");
    assert_eq!(mapper.get_scan(&' ', 3), " ");
}

#[test]
fn scan_unsupported_is_empty_every_line() {
    let mapper = TextMapper::new();
    for c in ['x', 'A', '-', '\n', 'é'] {
        for i in 0..mapper.get_num_scans() {
            assert_eq!(mapper.get_scan(&c, i), "");
        }
    }
}

#[test]
fn scan_width_fixed_per_character() {
    let mapper = TextMapper::new();
    for c in ['0', '1', '2', '3', '4', '5', '6', '7', '8', '9', ':', ' '] {
        let w = mapper.get_scan(&c, 0).chars().count();
        assert!(w > 0);
        for i in 0..mapper.get_num_scans() {
            assert_eq!(mapper.get_scan(&c, i).chars().count(), w);
            // repeated calls agree
            assert_eq!(mapper.get_scan(&c, i), mapper.get_scan(&c, i));
        }
    }
    assert_eq!(mapper.get_scan(&'0', 0).chars().count(), 7);
    assert_eq!(mapper.get_scan(&'1', 0).chars().count(), 5);
    assert_eq!(mapper.get_scan(&':', 0).chars().count(), 3);
    assert_eq!(mapper.get_scan(&' ', 0).chars().count(), 1);
}

#[test]
fn string_scan_concatenates_in_order() {
    let mapper = TextMapper::new();
    for i in 0..mapper.get_num_scans() {
        let expected = format!(
            "{}{}{}",
            mapper.get_scan(&'1', i),
            mapper.get_scan(&':', i),
            mapper.get_scan(&'2', i)
        );
        assert_eq!(mapper.get_string_scan("1:2", i), expected);
    }
}

#[test]
fn string_scan_empty_string_is_empty() {
    let mapper = TextMapper::new();
    for i in 0..mapper.get_num_scans() {
        assert_eq!(mapper.get_string_scan("", i), "");
    }
}

#[test]
fn string_scan_skips_unsupported_characters() {
    let mapper = TextMapper::new();
    for i in 0..mapper.get_num_scans() {
        assert_eq!(mapper.get_string_scan("x1y", i), mapper.get_scan(&'1', i));
    }
}

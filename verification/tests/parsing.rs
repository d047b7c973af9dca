use record_region::decimal::{integer_string, read_i32, read_u32};
use record_region::geometry::{Monitor, Rect};
use record_region::monitors::{
    parse_display_dimensions, parse_monitor_geometry, parse_monitor_layout, parse_xrandr_line,
    MonitorQueryError,
};
use record_region::selection::{parse_selection_geometry, read_selection, GeometryError};
use record_region::text::{
    chars_of, contains_char, contains_run, find_first, lists, split_fields, trim_slice, trim_str,
    CharClass,
};

fn chars(s: &str) -> Vec<char> {
    s.chars().collect()
}

fn strings(pieces: &[Vec<char>]) -> Vec<String> {
    pieces.iter().map(|p| p.iter().collect::<String>()).collect()
}

#[test]
fn parse_selection_reads_four_values() {
    assert_eq!(
        parse_selection_geometry("10,20,300,400"),
        Ok(Rect { x: 10, y: 20, w: 300, h: 400 })
    );
}

#[test]
fn parse_selection_rejects_three_values() {
    assert_eq!(parse_selection_geometry("1,2,3"), Err(GeometryError::WrongCount(3)));
}

#[test]
fn parse_selection_rejects_five_values() {
    assert_eq!(parse_selection_geometry("1,2,3,4,5"), Err(GeometryError::WrongCount(5)));
}

#[test]
fn parse_selection_rejects_a_letter() {
    assert_eq!(parse_selection_geometry("a,2,3,4"), Err(GeometryError::InvalidNumber));
}

#[test]
fn parse_selection_reports_bad_number_before_bad_count() {
    assert_eq!(parse_selection_geometry("1,2,3,x,5"), Err(GeometryError::InvalidNumber));
    assert_eq!(parse_selection_geometry("1,x"), Err(GeometryError::InvalidNumber));
}

#[test]
fn parse_selection_rejects_empty_text_and_empty_values() {
    assert_eq!(parse_selection_geometry(""), Err(GeometryError::InvalidNumber));
    assert_eq!(parse_selection_geometry("1,,3,4"), Err(GeometryError::InvalidNumber));
    assert_eq!(parse_selection_geometry("1,2,3,4,"), Err(GeometryError::InvalidNumber));
    assert_eq!(parse_selection_geometry("7"), Err(GeometryError::WrongCount(1)));
}

#[test]
fn parse_selection_trims_each_value() {
    assert_eq!(
        parse_selection_geometry(" 10 ,\t20, 300 ,400\n"),
        Ok(Rect { x: 10, y: 20, w: 300, h: 400 })
    );
    assert_eq!(
        parse_selection_geometry("\u{a0}1,\u{2003}2,3\u{3000},4"),
        Ok(Rect { x: 1, y: 2, w: 3, h: 4 })
    );
    assert_eq!(parse_selection_geometry("1 0,2,3,4"), Err(GeometryError::InvalidNumber));
}

#[test]
fn parse_selection_reads_signs() {
    assert_eq!(
        parse_selection_geometry("-5,+6,-0,8"),
        Ok(Rect { x: -5, y: 6, w: 0, h: 8 })
    );
    assert_eq!(parse_selection_geometry("--5,6,7,8"), Err(GeometryError::InvalidNumber));
    assert_eq!(parse_selection_geometry("+-5,6,7,8"), Err(GeometryError::InvalidNumber));
    assert_eq!(parse_selection_geometry("-,6,7,8"), Err(GeometryError::InvalidNumber));
    assert_eq!(parse_selection_geometry("+,6,7,8"), Err(GeometryError::InvalidNumber));
}

#[test]
fn parse_selection_respects_the_integer_range() {
    assert_eq!(
        parse_selection_geometry("2147483647,-2147483648,0,0"),
        Ok(Rect { x: i32::MAX, y: i32::MIN, w: 0, h: 0 })
    );
    assert_eq!(parse_selection_geometry("2147483648,0,0,0"), Err(GeometryError::InvalidNumber));
    assert_eq!(parse_selection_geometry("-2147483649,0,0,0"), Err(GeometryError::InvalidNumber));
    assert_eq!(
        parse_selection_geometry("99999999999999999999999999,0,0,0"),
        Err(GeometryError::InvalidNumber)
    );
    assert_eq!(
        parse_selection_geometry("000000000000000000000000012,0,0,0"),
        Ok(Rect { x: 12, y: 0, w: 0, h: 0 })
    );
}

#[test]
fn parse_selection_rejects_fractions_and_other_digits() {
    assert_eq!(parse_selection_geometry("1.5,2,3,4"), Err(GeometryError::InvalidNumber));
    assert_eq!(parse_selection_geometry("1_0,2,3,4"), Err(GeometryError::InvalidNumber));
    assert_eq!(parse_selection_geometry("\u{661},2,3,4"), Err(GeometryError::InvalidNumber));
    assert_eq!(parse_selection_geometry("0x10,2,3,4"), Err(GeometryError::InvalidNumber));
}

#[test]
fn read_i32_agrees_with_the_standard_parser() {
    let samples = [
        "", "0", "-0", "+0", "7", "-7", "+7", "++7", "+-7", "-+7", " 7", "7 ", "2147483647",
        "2147483648", "-2147483648", "-2147483649", "00012", "-00012", "1e3", "١٢", "12a", "a12",
        "+", "-", "4294967296", "-4294967296", "9223372036854775808",
    ];
    for s in samples {
        assert_eq!(read_i32(&chars(s)), s.parse::<i32>().ok(), "for {:?}", s);
    }
}

#[test]
fn read_u32_agrees_with_the_standard_parser() {
    let samples = [
        "", "0", "-0", "+0", "7", "-7", "+7", "++7", "4294967295", "4294967296", "00012", "12a",
        "+", "-", " 1", "42949672950", "18446744073709551616",
    ];
    for s in samples {
        assert_eq!(read_u32(&chars(s)), s.parse::<u32>().ok(), "for {:?}", s);
    }
}

#[test]
fn integer_string_agrees_with_the_standard_formatter() {
    let samples = [
        0i64, 1, -1, 9, 10, 11, 99, 100, 101, -10, 12345, -12345, 2147483647, -2147483648,
        4294967295, i64::MAX, i64::MIN,
    ];
    for n in samples {
        assert_eq!(integer_string(n), n.to_string());
    }
    assert_eq!(integer_string(-4294967296), "-4294967296");
    assert_eq!(integer_string(1080), "1080");
}

#[test]
fn written_integers_read_back() {
    for n in [0i32, 5, -5, 1920, i32::MAX, i32::MIN] {
        assert_eq!(read_i32(&chars(&integer_string(n as i64))), Some(n));
    }
}

#[test]
fn read_selection_treats_failure_as_cancel() {
    assert_eq!(read_selection(false, "10,20,300,400"), Ok(None));
    assert_eq!(read_selection(false, ""), Ok(None));
    assert_eq!(read_selection(false, "junk"), Ok(None));
}

#[test]
fn read_selection_treats_empty_output_as_cancel() {
    assert_eq!(read_selection(true, ""), Ok(None));
    assert_eq!(read_selection(true, "  \n\t"), Ok(None));
}

#[test]
fn read_selection_reads_the_trimmed_output() {
    assert_eq!(
        read_selection(true, "10,20,300,400\n"),
        Ok(Some(Rect { x: 10, y: 20, w: 300, h: 400 }))
    );
    assert_eq!(read_selection(true, "junk\n"), Err(GeometryError::InvalidNumber));
    assert_eq!(read_selection(true, "1,2\n"), Err(GeometryError::WrongCount(2)));
}

#[test]
fn monitor_geometry_reads_extent_and_offsets() {
    assert_eq!(
        parse_monitor_geometry("1920x1080+0+0"),
        Some(Monitor { x: 0, y: 0, w: 1920, h: 1080 })
    );
    assert_eq!(
        parse_monitor_geometry("2560x1440+1920+360"),
        Some(Monitor { x: 1920, y: 360, w: 2560, h: 1440 })
    );
}

#[test]
fn monitor_geometry_reads_negative_offsets() {
    assert_eq!(
        parse_monitor_geometry("1920x1080-1920+0"),
        Some(Monitor { x: -1920, y: 0, w: 1920, h: 1080 })
    );
    assert_eq!(
        parse_monitor_geometry("1920x1080+0-1080"),
        Some(Monitor { x: 0, y: -1080, w: 1920, h: 1080 })
    );
    assert_eq!(
        parse_monitor_geometry("1920x1080-5-7"),
        Some(Monitor { x: -5, y: -7, w: 1920, h: 1080 })
    );
}

#[test]
fn monitor_geometry_rejects_malformed_tokens() {
    for token in [
        "", "1920x1080", "1920x1080+0", "x1080+0+0", "1920x+0+0", "1920x1080+0+", "axb+0+0",
        "1920x1080+0+0+5", "1920+0+0", "1920x1080++0", "1920x-1080+0+0", "1920X1080+0+0",
        "1920x1080+a+0", "1920x1080+0+b", "99999999999x1080+0+0", "1920 x1080+0+0",
    ] {
        assert_eq!(parse_monitor_geometry(token), None, "for {:?}", token);
    }
}

#[test]
fn monitor_geometry_reads_a_signed_width() {
    assert_eq!(
        parse_monitor_geometry("+5x3+1+2"),
        Some(Monitor { x: 1, y: 2, w: 5, h: 3 })
    );
    assert_eq!(
        parse_monitor_geometry("-5x3+1+2"),
        Some(Monitor { x: 1, y: 2, w: -5, h: 3 })
    );
}

#[test]
fn layout_line_of_connected_output() {
    let line = "eDP-1 connected primary 1920x1080+0+0 (normal left inverted right x axis y axis) 344mm x 194mm";
    assert_eq!(parse_xrandr_line(line), Some(Monitor { x: 0, y: 0, w: 1920, h: 1080 }));
    let second = "HDMI-1 connected 2560x1440+1920+0 (normal left inverted right x axis y axis) 597mm x 336mm\r";
    assert_eq!(parse_xrandr_line(second), Some(Monitor { x: 1920, y: 0, w: 2560, h: 1440 }));
}

#[test]
fn layout_line_of_disconnected_output() {
    let line = "HDMI-2 disconnected (normal left inverted right x axis y axis)";
    assert_eq!(parse_xrandr_line(line), None);
    assert_eq!(parse_xrandr_line("DP-1 disconnected 1920x1080+0+0"), None);
}

#[test]
fn layout_line_without_geometry() {
    assert_eq!(
        parse_xrandr_line("DP-2 connected (normal left inverted right x axis y axis)"),
        None
    );
    assert_eq!(parse_xrandr_line("   1920x1080     60.00*+  59.97"), None);
    assert_eq!(parse_xrandr_line("Screen 0: minimum 320 x 200, current 3840 x 1080"), None);
    assert_eq!(parse_xrandr_line(""), None);
    assert_eq!(parse_xrandr_line(" connected"), None);
}

#[test]
fn layout_line_takes_only_the_first_candidate_token() {
    assert_eq!(parse_xrandr_line("DP-1 connected x+y 1920x1080+0+0"), None);
    assert_eq!(
        parse_xrandr_line("DP-1 connected primary\t800x600+10+20 x+y"),
        Some(Monitor { x: 10, y: 20, w: 800, h: 600 })
    );
}

#[test]
fn layout_lists_connected_outputs_in_order() {
    let output = "Screen 0: minimum 320 x 200, current 4480 x 1440, maximum 16384 x 16384\n\
eDP-1 connected primary 1920x1080+0+360 (normal left inverted right x axis y axis) 344mm x 194mm\n\
   1920x1080     60.00*+  59.97\n\
HDMI-1 disconnected (normal left inverted right x axis y axis)\n\
DP-1 connected 2560x1440+1920+0 (normal left inverted right x axis y axis) 597mm x 336mm\n\
   2560x1440     59.95*+\n";
    assert_eq!(
        parse_monitor_layout(output),
        Ok(vec![
            Monitor { x: 0, y: 360, w: 1920, h: 1080 },
            Monitor { x: 1920, y: 0, w: 2560, h: 1440 },
        ])
    );
}

#[test]
fn layout_with_carriage_returns_and_no_final_newline() {
    let output = "A connected 10x20+1+2\r\nB connected 30x40+3+4";
    assert_eq!(
        parse_monitor_layout(output),
        Ok(vec![Monitor { x: 1, y: 2, w: 10, h: 20 }, Monitor { x: 3, y: 4, w: 30, h: 40 }])
    );
}

#[test]
fn layout_skips_lines_with_bad_geometry() {
    let output = "A connected 10x+1+2\nB connected 30x40+3+4\n";
    assert_eq!(parse_monitor_layout(output), Ok(vec![Monitor { x: 3, y: 4, w: 30, h: 40 }]));
}

#[test]
fn layout_without_monitors_is_an_error() {
    assert_eq!(parse_monitor_layout(""), Err(MonitorQueryError::NoMonitors));
    assert_eq!(
        parse_monitor_layout("HDMI-1 disconnected\nScreen 0: current 10 x 10\n"),
        Err(MonitorQueryError::NoMonitors)
    );
}

#[test]
fn display_dimensions_are_anchored_at_the_origin() {
    let output = "name of display:    :0\n\
screen #0:\n\
  dimensions:    3840x1080 pixels (1016x286 millimeters)\n\
  resolution:    96x96 dots per inch\n";
    assert_eq!(parse_display_dimensions(output), Ok(Monitor { x: 0, y: 0, w: 3840, h: 1080 }));
}

#[test]
fn display_dimensions_missing() {
    assert_eq!(parse_display_dimensions(""), Err(MonitorQueryError::DimensionsMissing));
    assert_eq!(
        parse_display_dimensions("resolution: 96x96 dots per inch\n"),
        Err(MonitorQueryError::DimensionsMissing)
    );
    assert_eq!(
        parse_display_dimensions("dimensions: 1920x1080+0+0 pixels\n"),
        Err(MonitorQueryError::DimensionsMissing)
    );
    assert_eq!(
        parse_display_dimensions("dimensions: many pixels\n"),
        Err(MonitorQueryError::DimensionsMissing)
    );
}

#[test]
fn display_dimensions_with_bad_width_or_height() {
    assert_eq!(
        parse_display_dimensions("dimensions: x1080 pixels\n"),
        Err(MonitorQueryError::InvalidWidth)
    );
    assert_eq!(
        parse_display_dimensions("dimensions: 99999999999x1 pixels\n"),
        Err(MonitorQueryError::InvalidWidth)
    );
    assert_eq!(
        parse_display_dimensions("dimensions: 1920x pixels\n"),
        Err(MonitorQueryError::InvalidHeight)
    );
    assert_eq!(
        parse_display_dimensions("dimensions: 1920x1080x3 pixels\n"),
        Err(MonitorQueryError::InvalidHeight)
    );
}

#[test]
fn display_dimensions_come_from_the_first_line_that_has_them() {
    let output = "dimensions: unknown\n  dimensions: 800x600 pixels\n dimensions: 1x1\n";
    assert_eq!(parse_display_dimensions(output), Ok(Monitor { x: 0, y: 0, w: 800, h: 600 }));
    let bad_first = "dimensions: 800x pixels\ndimensions: 1x1\n";
    assert_eq!(parse_display_dimensions(bad_first), Err(MonitorQueryError::InvalidHeight));
    let first_token = "dimensions: 96x96 800x600\n";
    assert_eq!(parse_display_dimensions(first_token), Ok(Monitor { x: 0, y: 0, w: 96, h: 96 }));
}

#[test]
fn chars_of_gives_every_character() {
    assert_eq!(chars_of("añ→z"), vec!['a', 'ñ', '→', 'z']);
    assert_eq!(chars_of(""), Vec::<char>::new());
}

#[test]
fn trimming_agrees_with_the_standard_library() {
    let samples = [
        "", " ", "a", " a", "a ", "  a b  ", "\t\n x \r\n", "\u{a0}x\u{2028}", "\u{85}\u{1680}",
        "\u{200b}x", "\u{180e}x", "x\u{feff}", "\u{2000}\u{200a}y\u{202f}\u{205f}\u{3000}",
        "\u{b}\u{c}z\u{1c}", "\u{1f}q",
    ];
    for s in samples {
        assert_eq!(trim_str(s), s.trim(), "for {:?}", s);
        let trimmed: String = trim_slice(&chars(s)).iter().collect();
        assert_eq!(trimmed, s.trim(), "for {:?}", s);
    }
}

#[test]
fn white_space_class_agrees_with_the_standard_library() {
    let mut code: u32 = 0;
    while code <= 0x3100 {
        if let Some(c) = char::from_u32(code) {
            assert_eq!(CharClass::Space.test(c), c.is_whitespace(), "for U+{:04X}", code);
        }
        code += 1;
    }
    assert!(!CharClass::Space.test('\u{feff}'));
    assert!(!CharClass::Space.test('\u{10ffff}'));
}

#[test]
fn character_classes() {
    assert!(CharClass::Sign.test('+'));
    assert!(CharClass::Sign.test('-'));
    assert!(!CharClass::Sign.test('x'));
    assert!(CharClass::Exactly('x').test('x'));
    assert!(!CharClass::Exactly('x').test('X'));
}

#[test]
fn splitting_agrees_with_the_standard_library() {
    let samples = ["", ",", "a", "a,b", ",a", "a,", "a,,b", ",,", "10,20,300,400", "é,→"];
    for s in samples {
        let expected: Vec<String> = s.split(',').map(|p| p.to_string()).collect();
        assert_eq!(strings(&split_fields(&chars(s), CharClass::Exactly(','))), expected);
    }
    let words = split_fields(&chars(" a\t b  "), CharClass::Space);
    assert_eq!(strings(&words), vec!["", "a", "", "b", "", ""]);
}

#[test]
fn searching_finds_the_first_occurrence() {
    assert_eq!(find_first(&chars("1920x1080x3"), CharClass::Exactly('x')), Some(4));
    assert_eq!(find_first(&chars("1080-5+7"), CharClass::Sign), Some(4));
    assert_eq!(find_first(&chars("1080"), CharClass::Sign), None);
    assert_eq!(find_first(&chars(""), CharClass::Space), None);
    assert!(contains_char(&chars("abc"), 'c'));
    assert!(!contains_char(&chars("abc"), 'd'));
}

#[test]
fn substring_search_agrees_with_the_standard_library() {
    let hays = ["", "a", "ab", "aab", "HDMI-1 connected", "HDMI-1 disconnected", "xx connecte"];
    let needles = ["", "a", "ab", "b", " connected", "connected", "aab", "aaab"];
    for h in hays {
        for n in needles {
            assert_eq!(contains_run(&chars(h), &chars(n)), h.contains(n), "{:?} in {:?}", n, h);
        }
    }
}

#[test]
fn list_membership_is_exact() {
    let list = vec!["mic".to_string(), "System".to_string()];
    assert!(lists(&list, "mic"));
    assert!(!lists(&list, "system"));
    assert!(!lists(&list, "mi"));
    assert!(!lists(&Vec::new(), "mic"));
}

use hyprscreen::geometry::{
    capture_geometry, capture_window_geometry, inset_geometry, parse_region, region_string,
};
use hyprscreen::text::int_to_string;

#[test]
fn parses_slurp_geometry() {
    assert_eq!(parse_region("10,20 300x400"), Some((10, 20, 300, 400)));
}

#[test]
fn parses_geometry_with_surrounding_whitespace() {
    assert_eq!(parse_region("  10,20 300x400\n"), Some((10, 20, 300, 400)));
    assert_eq!(parse_region("10, 20 300x 400"), None);
    assert_eq!(parse_region("10 ,20 300 x400"), None);
    assert_eq!(parse_region("10,\t20 300\tx400"), Some((10, 20, 300, 400)));
}

#[test]
fn parses_signed_components() {
    assert_eq!(parse_region("-1920,+0 1920x1080"), Some((-1920, 0, 1920, 1080)));
    assert_eq!(parse_region("-2147483648,2147483647 0x-1"), Some((i32::MIN, i32::MAX, 0, -1)));
}

#[test]
fn rejects_malformed_geometry() {
    assert_eq!(parse_region(""), None);
    assert_eq!(parse_region("10,20"), None);
    assert_eq!(parse_region("10 20x30"), None);
    assert_eq!(parse_region("10,20 30"), None);
    assert_eq!(parse_region("a,20 30x40"), None);
    assert_eq!(parse_region("10,20 30x40 extra"), None);
    assert_eq!(parse_region("+,20 30x40"), None);
    assert_eq!(parse_region("2147483648,0 1x1"), None);
    assert_eq!(parse_region("-2147483649,0 1x1"), None);
    assert_eq!(parse_region("99999999999999999999,0 1x1"), None);
}

#[test]
fn formats_integers_like_display() {
    for v in [0i64, 7, -7, 10, 1234567890, i32::MIN as i64, i32::MAX as i64, i64::MIN, i64::MAX] {
        assert_eq!(int_to_string(v), format!("{}", v));
    }
}

#[test]
fn formats_regions() {
    assert_eq!(region_string(0, -5, 1920, 1080), "0,-5 1920x1080");
}

#[test]
fn region_text_round_trips() {
    for r in [(0, 0, 0, 0), (-1, 2, 3, -4), (i32::MIN, i32::MAX, 1, 99), (2560, 0, 1280, 720)] {
        let text = region_string(r.0, r.1, r.2, r.3);
        assert_eq!(parse_region(&text), Some(r));
    }
}

#[test]
fn inset_shrinks_every_side() {
    assert_eq!(inset_geometry("10,20 300x400", 2), Some("12,22 296x396".to_string()));
    assert_eq!(inset_geometry("0,0 4x10", 2), None);
    assert_eq!(inset_geometry("0,0 5x10", 2), Some("2,2 1x6".to_string()));
    assert_eq!(inset_geometry("not a geometry", 2), None);
}

#[test]
fn capture_geometry_insets_by_two() {
    assert_eq!(capture_geometry("100,100 50x60"), "102,102 46x56");
}

#[test]
fn capture_geometry_falls_back_to_selection() {
    assert_eq!(capture_geometry("garbage"), "garbage");
    assert_eq!(capture_geometry("1,1 3x3"), "1,1 3x3");
}

#[test]
fn window_geometry_uses_given_inset() {
    assert_eq!(capture_window_geometry("0,0 100x100", 12), "12,12 76x76");
    assert_eq!(capture_window_geometry("0,0 100x100", 0), "0,0 100x100");
}

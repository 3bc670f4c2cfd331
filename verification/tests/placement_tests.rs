use hyprscreen::hyprland::Monitor;
use hyprscreen::placement::{
    center_in, center_on, dock_position, hud_position, identifier_position, indicator_position,
    thumbnail_position, toast_position, webcam_position, webcam_size,
};

fn mon(x: i32, y: i32, w: i32, h: i32) -> Monitor {
    Monitor { name: "DP-1".to_string(), x, y, width: w, height: h, focused: true }
}

#[test]
fn centers_on_monitor() {
    assert_eq!(center_on(&mon(1920, 0, 2560, 1440), 960, 600), (1920 + 800, 420));
    assert_eq!(center_in((0, 0, 101, 51), 10, 10), (45, 20));
}

#[test]
fn oversized_windows_stick_to_the_origin() {
    assert_eq!(center_on(&mon(100, 50, 800, 600), 1000, 700), (100, 50));
    assert_eq!(center_in((0, 0, 10, 10), 11, 13), (0, 0));
}

#[test]
fn dock_sits_34px_above_the_bottom() {
    let m = mon(0, 0, 1920, 1080);
    let (x, y) = dock_position(&m, 600, 76);
    assert_eq!((x, y), (660, 1080 - 76 - 34));
    assert_eq!(y + 76 + 34, 1080);
    assert_eq!(dock_position(&m, 600, 2000), (660, 0));
}

#[test]
fn toast_sits_above_the_dock() {
    let m = mon(0, 100, 1920, 1080);
    assert_eq!(toast_position(&m, 300, 50), (810, 100 + 1080 - 50 - 130));
}

#[test]
fn thumbnail_in_top_right_corner() {
    let m = mon(10, 20, 1920, 1080);
    assert_eq!(thumbnail_position(&m, 268, 200), (10 + 1920 - 268 - 22, 74));
    assert_eq!(thumbnail_position(&m, 5000, 200), (10, 74));
}

#[test]
fn hud_and_indicator_positions() {
    assert_eq!(hud_position((0, 0, 1920, 1080), 400), (760, 18));
    assert_eq!(indicator_position((0, 0, 1920, 1080)), (952, 1080 - 36));
}

#[test]
fn identifier_overlay_truncates_toward_zero() {
    assert_eq!(identifier_position(&mon(0, 0, 1920, 1080)), (870, 492));
    assert_eq!(identifier_position(&mon(0, 0, 100, 50)), (-40, -23));
    assert_eq!(identifier_position(&mon(0, 0, 181, 97)), (0, 0));
}

#[test]
fn webcam_corners() {
    let r = (0, 0, 1920, 1080);
    assert_eq!(webcam_position(r, 200, "bottom-right"), (1920 - 234, 1080 - 234));
    assert_eq!(webcam_position(r, 200, "top-left"), (34, 34));
    assert_eq!(webcam_position(r, 200, "top-right"), (1920 - 234, 34));
    assert_eq!(webcam_position(r, 200, "bottom-left"), (34, 1080 - 234));
    assert_eq!(webcam_position(r, 200, "middle"), (34, 1080 - 234));
}

#[test]
fn webcam_size_is_clamped() {
    assert_eq!(webcam_size(10), 64);
    assert_eq!(webcam_size(200), 200);
    assert_eq!(webcam_size(4000), 512);
}

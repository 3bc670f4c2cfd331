use hyprscreen::dock::Mode;
use hyprscreen::capture::{
    available_monitors, generated_filename, monitor_choices, select_monitor, selection_geometry,
    grim_args, slurp_colors, window_choices, GrimSource, CaptureError, ClientInfo, MonitorInfo, MonitorTarget, SelectionKind,
};

fn info(id: i32, name: &str, disabled: bool, x: i32, ws: i32) -> MonitorInfo {
    MonitorInfo {
        id,
        name: name.to_string(),
        disabled,
        x,
        y: 0,
        width: 1920,
        height: 1080,
        active_workspace: ws,
    }
}

fn target(name: &str, x: i32, y: i32, w: i32, h: i32) -> MonitorTarget {
    MonitorTarget { name: name.to_string(), x, y, width: w, height: h }
}

fn client(class: &str, title: &str, monitor: i32, workspace: i32) -> ClientInfo {
    ClientInfo {
        mapped: true,
        hidden: false,
        class: class.to_string(),
        title: title.to_string(),
        monitor,
        workspace,
        at: (10, 20),
        size: (300, 200),
    }
}

#[test]
fn available_monitors_skip_disabled() {
    let ms = vec![info(0, "DP-1", false, 0, 1), info(1, "HDMI-A-1", true, 1920, 2), info(2, "eDP-1", false, 3840, 3)];
    let ts = available_monitors(&ms);
    let names: Vec<&str> = ts.iter().map(|t| t.name.as_str()).collect();
    assert_eq!(names, vec!["DP-1", "eDP-1"]);
    assert_eq!(ts[1].x, 3840);
}

#[test]
fn monitor_choices_list_rectangles() {
    let ts = vec![target("DP-1", 0, 0, 2560, 1440), target("eDP-1", 2560, 0, 1280, 800)];
    assert_eq!(
        monitor_choices(&ts),
        Ok(vec!["0,0 2560x1440".to_string(), "2560,0 1280x800".to_string()])
    );
    assert_eq!(monitor_choices(&Vec::new()), Err(CaptureError::NoEligibleMonitors));
}

#[test]
fn select_monitor_resolves_by_rectangle() {
    let ts = vec![target("DP-1", 0, 0, 2560, 1440), target("eDP-1", 2560, 0, 1280, 800)];
    assert_eq!(select_monitor(&ts, "2560,0 1280x800"), Ok("eDP-1".to_string()));
    assert_eq!(select_monitor(&ts, " 0,0 2560x1440\n"), Ok("DP-1".to_string()));
}

#[test]
fn select_monitor_errors() {
    let ts = vec![target("DP-1", 0, 0, 2560, 1440)];
    assert_eq!(select_monitor(&ts, "1,0 2560x1440"), Err(CaptureError::UnresolvedMonitor));
    assert_eq!(select_monitor(&ts, "nonsense"), Err(CaptureError::InvalidGeometry));
    assert_eq!(select_monitor(&Vec::new(), "0,0 1x1"), Err(CaptureError::NoEligibleMonitors));
}

#[test]
fn select_monitor_prefers_first_duplicate() {
    let ts = vec![target("A", 0, 0, 10, 10), target("B", 0, 0, 10, 10)];
    assert_eq!(select_monitor(&ts, "0,0 10x10"), Ok("A".to_string()));
}

#[test]
fn every_offered_monitor_line_resolves() {
    let ts = vec![target("DP-1", -1920, 0, 1920, 1080), target("eDP-1", 0, 0, 1280, 800)];
    let lines = monitor_choices(&ts).unwrap();
    for (line, t) in lines.iter().zip(ts.iter()) {
        assert_eq!(select_monitor(&ts, line), Ok(t.name.clone()));
    }
}

#[test]
fn window_choices_keep_visible_windows() {
    let ms = vec![info(0, "DP-1", false, 0, 1), info(1, "eDP-1", false, 1920, 5)];
    let mut hidden = client("kitty", "hidden", 0, 1);
    hidden.hidden = true;
    let mut unmapped = client("kitty", "unmapped", 0, 1);
    unmapped.mapped = false;
    let mut empty = client("kitty", "empty", 0, 1);
    empty.size = (0, 100);
    let clients = vec![
        client("firefox", "Docs\nPage", 0, 1),
        client("land.hypr.Hyprscreen", "Hyprscreen", 0, 1),
        client("kitty", "", 1, 5),
        client("kitty", "other workspace", 1, 4),
        client("kitty", "no such monitor", 7, 1),
        hidden,
        unmapped,
        empty,
    ];
    assert_eq!(
        window_choices(&ms, &clients, "land.hypr.Hyprscreen"),
        Ok(vec!["10,20 300x200 firefox - Docs Page".to_string(), "10,20 300x200 kitty".to_string()])
    );
}

#[test]
fn window_choices_use_last_monitor_entry_and_skip_disabled() {
    let ms = vec![info(0, "DP-1", false, 0, 1), info(0, "DP-1", false, 0, 2), info(1, "X", true, 0, 3)];
    let clients = vec![client("a", "t", 0, 1), client("b", "t", 0, 2), client("c", "t", 1, 3)];
    assert_eq!(window_choices(&ms, &clients, "self"), Ok(vec!["10,20 300x200 b - t".to_string()]));
}

#[test]
fn window_choices_error_when_nothing_qualifies() {
    let ms = vec![info(0, "DP-1", false, 0, 1)];
    assert_eq!(window_choices(&ms, &Vec::new(), "self"), Err(CaptureError::NoEligibleWindows));
    let clients = vec![client("self", "me", 0, 1)];
    assert_eq!(window_choices(&ms, &clients, "self"), Err(CaptureError::NoEligibleWindows));
}

#[test]
fn selection_output_is_trimmed() {
    assert_eq!(selection_geometry(" 1,2 3x4\n", SelectionKind::Area), Ok("1,2 3x4".to_string()));
    assert_eq!(selection_geometry("\n\t ", SelectionKind::Window), Err(CaptureError::EmptySelection(SelectionKind::Window)));
    assert_eq!(selection_geometry("", SelectionKind::Monitor), Err(CaptureError::EmptySelection(SelectionKind::Monitor)));
}

#[test]
fn error_messages() {
    assert_eq!(CaptureError::NoEligibleMonitors.message(), "no eligible monitors found");
    assert_eq!(CaptureError::NoEligibleWindows.message(), "no eligible windows found");
    assert_eq!(CaptureError::UnresolvedMonitor.message(), "selected monitor could not be resolved");
    assert_eq!(CaptureError::InvalidGeometry.message(), "invalid selection geometry");
    assert_eq!(CaptureError::EmptySelection(SelectionKind::Area).message(), "area selection returned no geometry");
    assert_eq!(CaptureError::EmptySelection(SelectionKind::Window).message(), "window selection returned no geometry");
    assert_eq!(CaptureError::EmptySelection(SelectionKind::Monitor).message(), "monitor selection returned no geometry");
}

#[test]
fn generated_filenames() {
    assert_eq!(generated_filename("hyprscreen", Some("20260405-235959"), "23595905042026", "png"), "hyprscreen-20260405-235959.png");
    assert_eq!(generated_filename("hyprscreen", Some(""), "23595905042026", "png"), "hyprscreen-23595905042026.png");
    assert_eq!(generated_filename("shot", None, "000000", "mp4"), "shot-000000.mp4");
}

#[test]
fn slurp_takes_the_mode_accent() {
    assert_eq!(slurp_colors(Mode::Screenshot), ("#5ee6d0ff", "#5ee6d01a", "#06080c6b"));
    assert_eq!(slurp_colors(Mode::Record), ("#ff5d5dff", "#ff5d5d1a", "#06080c6b"));
}

#[test]
fn grim_includes_the_pointer_on_request() {
    let g = GrimSource::Geometry("10,10 20x20".to_string());
    assert_eq!(grim_args(&g, true), vec!["-c", "-g", "10,10 20x20"]);
    assert_eq!(grim_args(&g, false), vec!["-g", "10,10 20x20"]);
    assert_eq!(grim_args(&GrimSource::Output("DP-1".to_string()), true), vec!["-c", "-o", "DP-1"]);
}

use hyprscreen::hyprland::{
    enumerate_monitors, focused_monitor, glass_window_props, move_exact_arg, move_relative_arg,
    plain_window_props, rule_accepted, selector_for_title, window_rule, HyprClient, Monitor,
    MonitorRecord, PrepositionCache,
};

fn record(name: &str, disabled: bool, focused: bool) -> MonitorRecord {
    MonitorRecord { name: name.to_string(), disabled, x: 0, y: 0, width: 1920, height: 1080, focused }
}

fn monitor(name: &str, focused: bool) -> Monitor {
    Monitor { name: name.to_string(), x: 0, y: 0, width: 1920, height: 1080, focused }
}

#[test]
fn enumerate_drops_disabled_monitors() {
    let ms = enumerate_monitors(&vec![record("DP-1", false, false), record("DP-2", true, true), record("eDP-1", false, true)]);
    let names: Vec<&str> = ms.iter().map(|m| m.name.as_str()).collect();
    assert_eq!(names, vec!["DP-1", "eDP-1"]);
    assert!(ms[1].focused);
}

#[test]
fn focused_monitor_prefers_focus() {
    let ms = vec![monitor("DP-1", false), monitor("eDP-1", true), monitor("HDMI-A-1", true)];
    assert_eq!(focused_monitor(&ms).unwrap().name, "eDP-1");
}

#[test]
fn focused_monitor_falls_back_to_first() {
    let ms = vec![monitor("DP-1", false), monitor("eDP-1", false)];
    assert_eq!(focused_monitor(&ms).unwrap().name, "DP-1");
    assert!(focused_monitor(&Vec::new()).is_none());
}

#[test]
fn selector_uses_first_exact_title() {
    let clients = vec![
        HyprClient { address: "0x1".to_string(), title: "Hyprscreen Toast x".to_string() },
        HyprClient { address: "0x2".to_string(), title: "Hyprscreen Toast".to_string() },
        HyprClient { address: "0x3".to_string(), title: "Hyprscreen Toast".to_string() },
    ];
    assert_eq!(selector_for_title(&clients, "Hyprscreen Toast"), Some("address:0x2".to_string()));
    assert_eq!(selector_for_title(&clients, "Hyprscreen"), None);
}

#[test]
fn window_rule_text() {
    assert_eq!(
        window_rule("Hyprscreen", 960, -40),
        "match:title ^(Hyprscreen)$, float 1, no_anim 1, move 960 -40"
    );
}

#[test]
fn move_arguments() {
    assert_eq!(move_exact_arg("address:0xab", 10, 20), "exact 10 20,address:0xab");
    assert_eq!(move_relative_arg("address:0xab", -3, 4), "-3 4,address:0xab");
}

#[test]
fn rule_acceptance_needs_ok_output() {
    assert!(rule_accepted(true, b"ok\n"));
    assert!(!rule_accepted(false, b"ok"));
    assert!(!rule_accepted(true, b"invalid rule"));
    assert!(!rule_accepted(true, b"o"));
}

#[test]
fn window_property_lists() {
    let plain: Vec<(String, String)> = plain_window_props();
    assert_eq!(
        plain,
        vec![
            ("decorate".to_string(), "0".to_string()),
            ("border_size".to_string(), "0".to_string()),
            ("no_blur".to_string(), "1".to_string()),
            ("no_shadow".to_string(), "1".to_string()),
            ("rounding".to_string(), "0".to_string()),
            ("no_anim".to_string(), "1".to_string()),
        ]
    );
    let glass = glass_window_props(16);
    assert_eq!(glass[2], ("no_blur".to_string(), "0".to_string()));
    assert_eq!(glass[3], ("no_shadow".to_string(), "0".to_string()));
    assert_eq!(glass[4], ("rounding".to_string(), "16".to_string()));
    assert_eq!(glass.len(), 6);
}

#[test]
fn preposition_cache_remembers_last_coordinates() {
    let mut cache = PrepositionCache::new();
    assert!(!cache.is_current("Hyprscreen", 1, 2));
    cache.remember("Hyprscreen", 1, 2);
    assert!(cache.is_current("Hyprscreen", 1, 2));
    assert!(!cache.is_current("Hyprscreen", 1, 3));
    assert!(!cache.is_current("Hyprscreen Toast", 1, 2));
    cache.remember("Hyprscreen Toast", 5, 5);
    cache.remember("Hyprscreen", 7, 8);
    assert!(cache.is_current("Hyprscreen", 7, 8));
    assert!(!cache.is_current("Hyprscreen", 1, 2));
    assert!(cache.is_current("Hyprscreen Toast", 5, 5));
}

#[test]
fn preposition_cache_starts_empty() {
    let cache = PrepositionCache::new();
    assert!(!cache.is_current("Hyprscreen", 0, 0));
}

use hyprscreen::annotate::{
    blur_region, pixelate_size, text_entry_size, DoneGate, EditorEvent, ShapeStack,
};
use hyprscreen::dock::{countdown_region, Target};
use hyprscreen::hyprland::{identifier_title, monitor_region_by_name, Monitor};

#[test]
fn blur_region_is_clipped_to_the_image() {
    assert_eq!(blur_region(10, 10, 50, 40, 100, 100), Some((10, 10, 50, 40)));
    assert_eq!(blur_region(90, 90, 50, 40, 100, 100), Some((90, 90, 10, 10)));
    assert_eq!(blur_region(95, 10, 50, 40, 100, 100), None);
    assert_eq!(blur_region(80, 70, 50, 40, 100, 100), Some((80, 70, 20, 30)));
    assert_eq!(blur_region(500, 0, 50, 40, 100, 100), None);
    assert_eq!(blur_region(0, 0, -5, 40, 100, 100), None);
    assert_eq!(blur_region(0, 0, 8, 8, 100, 100), Some((0, 0, 8, 8)));
}

#[test]
fn pixelation_shrinks_by_eight() {
    assert_eq!(pixelate_size(64, 20), (8, 2));
    assert_eq!(pixelate_size(7, 0), (1, 1));
}

#[test]
fn text_entry_grows_with_content() {
    assert_eq!(text_entry_size(10, 18), (160, 30));
    assert_eq!(text_entry_size(300, 40), (322, 52));
}

#[test]
fn identifier_titles() {
    assert_eq!(identifier_title("DP-1"), "Hyprscreen Monitor ID DP-1");
}

fn mon(name: &str, x: i32) -> Monitor {
    Monitor { name: name.to_string(), x, y: 0, width: 1920, height: 1080, focused: false }
}

#[test]
fn regions_by_monitor_name() {
    let ms = vec![mon("DP-1", 0), mon("eDP-1", 1920), mon("eDP-1", 5000)];
    assert_eq!(monitor_region_by_name(&ms, "eDP-1"), Some((1920, 0, 1920, 1080)));
    assert_eq!(monitor_region_by_name(&ms, "HDMI-A-1"), None);
}

#[test]
fn countdown_regions_follow_the_target() {
    let ms = vec![mon("DP-1", 0), mon("eDP-1", 1920)];
    assert_eq!(countdown_region(Target::Monitor, "eDP-1", &ms), Some((1920, 0, 1920, 1080)));
    assert_eq!(countdown_region(Target::Area, "5,6 7x8", &ms), Some((5, 6, 7, 8)));
    assert_eq!(countdown_region(Target::Window, "eDP-1", &ms), None);
}

#[test]
fn blur_on_an_empty_image_draws_nothing() {
    assert_eq!(blur_region(0, 0, 50, 40, 0, 0), None);
    assert_eq!(blur_region(10, 3, 50, 40, 0, 100), None);
}

#[test]
fn undo_drops_the_last_shape() {
    let mut shapes: ShapeStack<(f64, f64)> = ShapeStack::new();
    shapes.undo();
    assert_eq!(shapes.len(), 0);
    shapes.push((1.0, 2.0));
    shapes.push((3.0, 4.0));
    shapes.undo();
    assert_eq!(shapes.len(), 1);
    assert_eq!(*shapes.get(0), (1.0, 2.0));
}

#[test]
fn done_runs_after_a_successful_export_only() {
    let mut g = DoneGate::new();
    assert!(!g.event(EditorEvent::Done { export_ok: false }));
    assert!(g.open);
    assert!(g.event(EditorEvent::Done { export_ok: true }));
    assert!(!g.open);
    let mut h = DoneGate::new();
    assert!(!h.event(EditorEvent::Close));
    assert!(!h.open);
}

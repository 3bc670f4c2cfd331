use hyprscreen::dock::{
    active_target, delay_label, hide_delay_ms, next_delay, pointer_tooltip, preset_secs,
    primary_button_text, timer_label, DelayPreset, DockCommand, DockConfig, DockEffect, DockKey,
    DockState, FireRequest, Mode, StartupAction, Target,
};
use hyprscreen::recording::RecordingFormat;

fn cfg(mode: Mode, target: Target, delay_secs: u64, show_pointer: bool) -> DockConfig {
    DockConfig {
        mode,
        target,
        delay_secs,
        show_pointer,
        format: RecordingFormat::Mp4,
        record_audio: false,
        show_recording_hud: true,
    }
}
use hyprscreen::toast::{auto_dismisses, deletes_on_close, dismiss_deletions, save_state, SaveState, ThumbKind, ToastKind};

#[test]
fn delay_chip_cycles_through_presets() {
    assert_eq!(next_delay(0), 3);
    assert_eq!(next_delay(3), 5);
    assert_eq!(next_delay(5), 10);
    assert_eq!(next_delay(10), 0);
    assert_eq!(next_delay(7), 0);
    let mut v = 5;
    for _ in 0..4 {
        v = next_delay(v);
    }
    assert_eq!(v, 5);
}

#[test]
fn delay_labels() {
    assert_eq!(delay_label(0), "No delay");
    assert_eq!(delay_label(3), "3s");
    assert_eq!(delay_label(10), "10s");
}

#[test]
fn timer_labels() {
    assert_eq!(timer_label(0), "00:00");
    assert_eq!(timer_label(65), "01:05");
    assert_eq!(timer_label(600), "10:00");
    assert_eq!(timer_label(6000), "100:00");
    assert_eq!(timer_label(3599), "59:59");
}

#[test]
fn targets_and_buttons() {
    assert_eq!(active_target(true, true), Target::Area);
    assert_eq!(active_target(false, true), Target::Window);
    assert_eq!(active_target(false, false), Target::Monitor);
    assert_eq!(primary_button_text(Mode::Screenshot), ("Capture", "\u{23ce}"));
    assert_eq!(primary_button_text(Mode::Record), ("Record", "\u{23f5}"));
    assert_eq!(pointer_tooltip(Mode::Screenshot, true), "Pointer: on");
    assert_eq!(pointer_tooltip(Mode::Screenshot, false), "Pointer: off");
    assert_eq!(pointer_tooltip(Mode::Record, true), "wf-recorder always records the pointer");
    assert_eq!(hide_delay_ms(Target::Monitor), 220);
    assert_eq!(hide_delay_ms(Target::Area), 60);
}

#[test]
fn toast_kinds() {
    assert_eq!(ToastKind::Success.lifetime_secs(), 4);
    assert_eq!(ToastKind::Failure.lifetime_secs(), 6);
    assert_eq!(ToastKind::Success.icon(), ("check", "#6FD79E", "ok"));
    assert_eq!(ToastKind::Failure.icon(), ("alert", "#FF5D5D", "err"));
}

#[test]
fn thumbnail_card_rules() {
    assert_eq!(ThumbKind::Screenshot.badge_label(), "SCREENSHOT");
    assert_eq!(ThumbKind::Recording.badge_label(), "RECORDING");
    assert!(ThumbKind::Screenshot.can_annotate());
    assert!(!ThumbKind::Recording.can_annotate());
    assert_eq!(save_state(false, true), SaveState::Pinned);
    assert_eq!(save_state(true, true), SaveState::AutoSaved);
    assert_eq!(save_state(true, false), SaveState::Saved);
    assert_eq!(SaveState::Pinned.markup(), "<span foreground=\"#9A9CA6\">pinned</span>");
    assert!(auto_dismisses(true, 8));
    assert!(!auto_dismisses(true, 0));
    assert!(!auto_dismisses(false, 8));
    assert!(deletes_on_close(true, false));
    assert!(!deletes_on_close(true, true));
    assert!(!deletes_on_close(false, false));
}

#[test]
fn dock_chip_cycle_keeps_presets_in_step() {
    let mut dock = DockState::new(cfg(Mode::Screenshot, Target::Area, 0, true));
    assert_eq!(dock.chip_label(), "No delay");
    let labels = ["3s", "5s", "10s", "No delay"];
    let delays = [3, 5, 10, 0];
    for i in 0..4 {
        assert_eq!(dock.key_pressed(DockKey::Letter('d'), true), DockEffect::Handled);
        assert_eq!(dock.delay_secs, delays[i]);
        assert_eq!(dock.chip_label(), labels[i]);
        let active: Vec<DelayPreset> = [DelayPreset::Now, DelayPreset::Three, DelayPreset::Five, DelayPreset::Ten]
            .into_iter()
            .filter(|p| preset_secs(*p) == dock.delay_secs)
            .collect();
        assert_eq!(active.len(), 1);
    }
    dock.choose_preset(DelayPreset::Five);
    assert_eq!(dock.delay_secs, 5);
    assert_eq!(dock.chip_label(), "5s");
    dock.choose_preset(DelayPreset::Five);
    assert_eq!(dock.delay_secs, 5);
    assert_eq!(preset_secs(DelayPreset::Ten), 10);
}

#[test]
fn dock_configured_delay_outside_presets() {
    let mut dock = DockState::new(cfg(Mode::Screenshot, Target::Area, 7, true));
    assert_eq!(dock.chip_label(), "7s");
    dock.apply(DockCommand::CycleDelay);
    assert_eq!(dock.delay_secs, 0);
}

#[test]
fn dock_record_mode_disables_pointer() {
    let mut dock = DockState::new(cfg(Mode::Record, Target::Monitor, 0, true));
    assert!(!dock.pointer_enabled());
    assert_eq!(dock.key_pressed(DockKey::Letter('P'), true), DockEffect::Handled);
    assert!(dock.pointer_on);
    assert_eq!(dock.apply(DockCommand::TogglePointer), DockEffect::Handled);
    assert!(dock.pointer_on);
    dock.set_pointer(false);
    assert!(!dock.pointer_on);
    dock.key_pressed(DockKey::Letter('s'), true);
    assert_eq!(dock.mode, Mode::Screenshot);
    assert!(dock.pointer_enabled());
    dock.key_pressed(DockKey::Letter('p'), true);
    assert!(dock.pointer_on);
}

#[test]
fn dock_targets_and_fire() {
    let mut dock = DockState::new(cfg(Mode::Screenshot, Target::Area, 3, false));
    dock.key_pressed(DockKey::Digit(2), true);
    assert_eq!(dock.target, Target::Window);
    dock.key_pressed(DockKey::Digit(3), true);
    assert_eq!(dock.target, Target::Monitor);
    assert_eq!(
        dock.key_pressed(DockKey::Enter, true),
        DockEffect::Fire(FireRequest::Capture { target: Target::Monitor, delay_secs: 3, pointer: false })
    );
    assert_eq!(dock.key_pressed(DockKey::Enter, false), DockEffect::Handled);
    dock.key_pressed(DockKey::Letter('R'), true);
    assert_eq!(
        dock.apply(DockCommand::Fire),
        DockEffect::Fire(FireRequest::Record { target: Target::Monitor, delay_secs: 3, format: RecordingFormat::Mp4, audio: false, show_hud: true })
    );
    assert_eq!(dock.key_pressed(DockKey::Slash, true), DockEffect::ToggleCheatsheet);
    assert_eq!(dock.key_pressed(DockKey::Escape, true), DockEffect::Quit);
    assert_eq!(dock.key_pressed(DockKey::Other, true), DockEffect::Pass);
}

#[test]
fn dock_startup_action_fires() {
    let mut dock = DockState::new(cfg(Mode::Screenshot, Target::Area, 5, true));
    let r = dock.startup(StartupAction::Record(Target::Window));
    assert_eq!(r, FireRequest::Record { target: Target::Window, delay_secs: 5, format: RecordingFormat::Mp4, audio: false, show_hud: true });
    assert_eq!(dock.mode, Mode::Record);
    assert_eq!(dock.target, Target::Window);
    let r = dock.startup(StartupAction::Screenshot(Target::Area));
    assert_eq!(r, FireRequest::Capture { target: Target::Area, delay_secs: 5, pointer: true });
}

#[test]
fn dock_recording_settings_reach_the_recording() {
    let mut dock = DockState::new(cfg(Mode::Screenshot, Target::Area, 0, true));
    assert!(!dock.record_rows_visible());
    dock.key_pressed(DockKey::Letter('r'), true);
    assert!(dock.record_rows_visible());
    dock.choose_format(RecordingFormat::Webm);
    dock.choose_format(RecordingFormat::Webm);
    assert_eq!(dock.format, RecordingFormat::Webm);
    dock.set_audio(true);
    dock.set_show_hud(false);
    assert_eq!(
        dock.fire_request(),
        FireRequest::Record {
            target: Target::Area,
            delay_secs: 0,
            format: RecordingFormat::Webm,
            audio: true,
            show_hud: false
        }
    );
    dock.key_pressed(DockKey::Letter('s'), true);
    assert_eq!(dock.format, RecordingFormat::Webm);
}

#[test]
fn closing_a_card_removes_temps_only() {
    assert_eq!(dismiss_deletions(true, false, "/t/a.png", false, None), vec!["/t/a.png"]);
    assert_eq!(dismiss_deletions(true, true, "/t/a.png", false, None), Vec::<String>::new());
    assert_eq!(
        dismiss_deletions(true, false, "/t/r.mp4", true, Some("/t/r.png")),
        vec!["/t/r.mp4", "/t/r.png"]
    );
    assert_eq!(dismiss_deletions(false, false, "/t/r.mp4", true, Some("/t/r.png")), vec!["/t/r.png"]);
    assert_eq!(dismiss_deletions(false, false, "/t/r.gif", false, Some("/t/r.gif")), Vec::<String>::new());
}

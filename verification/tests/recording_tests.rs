use hyprscreen::annotate::{next_step_number, parse_hex};
use hyprscreen::recording::{
    finalize_plan, format_extension, recorder_args, recording_produced, segment_path,
    FinalizeError, FinalizePlan, PauseAction, PendingAction, RecordTarget, RecordingFormat,
    RestartAction, SegmentExit, Session,
};

#[test]
fn segment_paths() {
    assert_eq!(segment_path("/tmp/hs/rec.mp4", 1), "/tmp/hs/rec-seg1.mp4");
    assert_eq!(segment_path("/tmp/a.b/rec", 2), "/tmp/a.b/rec-seg2");
    assert_eq!(segment_path("/tmp/.hidden", 3), "/tmp/.hidden-seg3");
    assert_eq!(segment_path("clip.tar.webm", 12), "clip.tar-seg12.webm");
}

#[test]
fn pause_resume_stop_collects_segments() {
    let mut s = Session::start("/t/rec.mp4".to_string(), 1000, true);
    assert_eq!(s.elapsed_ms(3500), 2500);
    assert!(matches!(s.pause_pressed(4000, true), PauseAction::Interrupt));
    assert_eq!(s.pending, PendingAction::Pause);
    assert!(matches!(s.pause_pressed(4100, true), PauseAction::Ignore));
    assert!(matches!(s.segment_exited(), SegmentExit::Paused));
    assert!(!s.running);
    assert_eq!(s.elapsed_ms(9000), 3000);
    let path = match s.pause_pressed(9000, true) {
        PauseAction::Spawn { path, .. } => path,
        _ => panic!("expected a new segment"),
    };
    assert_eq!(path, "/t/rec-seg1.mp4");
    s.segment_spawned(path, 9000);
    assert_eq!(s.elapsed_ms(10000), 4000);
    match s.segment_exited() {
        SegmentExit::Finished { segments } => {
            assert_eq!(segments, vec!["/t/rec.mp4".to_string(), "/t/rec-seg1.mp4".to_string()]);
        }
        _ => panic!("expected the recording to finish"),
    }
}

#[test]
fn restart_while_running_drops_everything() {
    let mut s = Session::start("/t/rec.mp4".to_string(), 0, true);
    assert!(matches!(s.restart_pressed(5000), RestartAction::Interrupt));
    assert_eq!(s.elapsed_ms(5000), 0);
    match s.segment_exited() {
        SegmentExit::Respawn { remove, path, .. } => {
            assert_eq!(remove, vec!["/t/rec.mp4".to_string()]);
            assert_eq!(path, "/t/rec.mp4");
            s.segment_spawned(path, 5100);
        }
        _ => panic!("expected a respawn"),
    }
    assert!(s.running);
    assert_eq!(s.pending, PendingAction::Nothing);
    assert_eq!(s.elapsed_ms(6100), 1000);
}

#[test]
fn restart_while_paused_respawns_at_once() {
    let mut s = Session::start("/t/rec.mp4".to_string(), 0, true);
    s.pause_pressed(100, true);
    s.segment_exited();
    let p = match s.pause_pressed(200, true) {
        PauseAction::Spawn { path, .. } => path,
        _ => panic!(),
    };
    s.segment_spawned(p, 200);
    s.pause_pressed(300, true);
    s.segment_exited();
    match s.restart_pressed(400) {
        RestartAction::Respawn { remove, path, .. } => {
            assert_eq!(
                remove,
                vec![
                    "/t/rec-seg1.mp4".to_string(),
                    "/t/rec.mp4".to_string(),
                    "/t/rec-seg1.mp4".to_string()
                ]
            );
            assert_eq!(path, "/t/rec.mp4");
        }
        _ => panic!("expected a respawn"),
    }
    assert_eq!(s.seg_index, 0);
    assert!(s.segments.is_empty());
    assert_eq!(s.elapsed_ms(400), 0);
}

#[test]
fn recording_outcome() {
    assert!(recording_produced(true, false));
    assert!(recording_produced(false, true));
    assert!(!recording_produced(false, false));
}

#[test]
fn ink_colors_parse() {
    assert_eq!(parse_hex("#5EE6D0"), (0x5E, 0xE6, 0xD0));
    assert_eq!(parse_hex("#ffffff"), (255, 255, 255));
    assert_eq!(parse_hex("##7CA8FF"), (0x7C, 0xA8, 0xFF));
    assert_eq!(parse_hex("#zz0000"), (255, 0, 0));
    assert_eq!(parse_hex("+f+f-1"), (15, 15, 255));
}

#[test]
fn step_numbers() {
    assert_eq!(next_step_number(0), 1);
    assert_eq!(next_step_number(4), 5);
}

#[test]
fn stop_while_paused_hands_over_segments() {
    let mut s = Session::start("/t/rec.mp4".to_string(), 0, true);
    s.pause_pressed(100, true);
    assert!(matches!(s.segment_exited(), SegmentExit::Paused));
    let p = match s.pause_pressed(200, true) {
        PauseAction::Spawn { path, .. } => path,
        _ => panic!("expected a new segment"),
    };
    s.segment_spawned(p, 200);
    s.pause_pressed(300, true);
    s.segment_exited();
    assert!(!s.running);
    assert_eq!(
        s.finish_paused(),
        vec!["/t/rec.mp4".to_string(), "/t/rec-seg1.mp4".to_string()]
    );
}

#[test]
fn resume_takes_the_current_microphone_setting() {
    let mut s = Session::start("/t/rec.webm".to_string(), 0, true);
    assert_eq!(s.hud_label(), "REC");
    s.pause_pressed(100, true);
    assert_eq!(s.hud_label(), "PAUSED");
    s.segment_exited();
    match s.pause_pressed(200, false) {
        PauseAction::Spawn { path, audio } => {
            assert_eq!(path, "/t/rec-seg1.webm");
            assert!(!audio);
            s.segment_spawned(path, 200);
        }
        _ => panic!("expected a new segment"),
    }
    assert_eq!(s.hud_label(), "REC");
    assert!(!s.audio);
    assert!(matches!(s.restart_pressed(300), RestartAction::Interrupt));
    match s.segment_exited() {
        SegmentExit::Respawn { audio, .. } => assert!(!audio),
        _ => panic!("expected a respawn"),
    }
}

#[test]
fn recorder_arguments_per_format_and_audio() {
    let g = RecordTarget::Geometry("0,0 800x600".to_string());
    assert_eq!(
        recorder_args(&g, RecordingFormat::Mp4, false, None, "/t/a.mp4"),
        vec!["-g", "0,0 800x600", "-f", "/t/a.mp4"]
    );
    assert_eq!(
        recorder_args(&g, RecordingFormat::Mp4, true, None, "/t/a.mp4"),
        vec!["-g", "0,0 800x600", "-a", "-f", "/t/a.mp4"]
    );
    let o = RecordTarget::Output("DP-1".to_string());
    assert_eq!(
        recorder_args(&o, RecordingFormat::Webm, true, Some("mic0"), "/t/a.webm"),
        vec!["-o", "DP-1", "-c", "libvpx-vp9", "-C", "libopus", "--audio=mic0", "-f", "/t/a.webm"]
    );
    assert_eq!(
        recorder_args(&o, RecordingFormat::Webm, false, Some("mic0"), "/t/a.webm"),
        vec!["-o", "DP-1", "-c", "libvpx-vp9", "-f", "/t/a.webm"]
    );
    assert_eq!(format_extension(RecordingFormat::Mp4), "mp4");
    assert_eq!(format_extension(RecordingFormat::Webm), "webm");
}

#[test]
fn finalize_plans() {
    assert!(matches!(finalize_plan(&vec![]), Err(FinalizeError::NoOutput)));
    match finalize_plan(&vec!["/t/rec.mp4".to_string()]) {
        Ok(FinalizePlan::Single { path }) => assert_eq!(path, "/t/rec.mp4"),
        _ => panic!("expected a single file"),
    }
    match finalize_plan(&vec!["/t/rec.mp4".to_string(), "/t/it's-seg1.mp4".to_string()]) {
        Ok(FinalizePlan::Join { list_path, list_body, joined_path, target }) => {
            assert_eq!(list_path, "/t/rec.txt");
            assert_eq!(list_body, "file '/t/rec.mp4'\nfile '/t/it'\\''s-seg1.mp4'\n");
            assert_eq!(joined_path, "/t/joined-rec.mp4");
            assert_eq!(target, "/t/rec.mp4");
        }
        _ => panic!("expected a join"),
    }
    match finalize_plan(&vec!["clip".to_string(), "clip-seg1".to_string()]) {
        Ok(FinalizePlan::Join { list_path, joined_path, .. }) => {
            assert_eq!(list_path, "clip.txt");
            assert_eq!(joined_path, "joined-clip");
        }
        _ => panic!("expected a join"),
    }
}

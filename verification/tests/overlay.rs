use snap_overlay::controller::{OverlayAction, OverlayController, OverlayEvent, Visibility};
use snap_overlay::placement::{overlay_position, WorkArea, OVERLAY_WIDTH, WINDOW_HEIGHT, WINDOW_WIDTH};
use snap_overlay::probe::is_marvel_snap_running;

fn area(width: i32, height: i32) -> WorkArea {
    WorkArea { x: 0, y: 0, width, height }
}

#[test]
fn probe_detects_running_target() {
    let out = b"user  4242  0.1  2.3 123456 7890 ?  Sl  12:00  0:42 Z:\\game\\SNAP.exe\n";
    assert!(is_marvel_snap_running(out));
}

#[test]
fn probe_ignores_own_grep_invocation() {
    // Only the filtering command itself shows up: must not match itself.
    let out = b"user  777  0.0  0.0  9999  111 pts/0  S+  12:00  0:00 grep SNAP.exe\n";
    assert!(!is_marvel_snap_running(out));
}

#[test]
fn probe_ignores_shell_pipeline_line() {
    let out = b"user  778  0.0  0.0  9999  111 pts/0  S+  12:00  0:00 sh -c ps aux | grep 'SNAP.exe'\n";
    assert!(!is_marvel_snap_running(out));
}

#[test]
fn probe_empty_output_is_not_running() {
    assert!(!is_marvel_snap_running(b""));
}

#[test]
fn probe_unrelated_processes_are_not_running() {
    let out = b"root  1  0.0  0.1 16000 900 ?  Ss  11:00  0:01 /sbin/init\nuser  55  0.0  0.2 20000 800 ?  S  11:01  0:00 bash\n";
    assert!(!is_marvel_snap_running(out));
}

#[test]
fn probe_needs_target_within_one_line() {
    // The name split across a line boundary is no match.
    let out = b"user 1 0.0 0.0 1 1 ? S 12:00 0:00 SNAP\n.exe something\n";
    assert!(!is_marvel_snap_running(out));
}

#[test]
fn probe_matches_line_without_trailing_newline() {
    let out = b"user  4242  0.1  2.3 123456 7890 ?  Sl  12:00  0:42 SNAP.exe";
    assert!(is_marvel_snap_running(out));
}

#[test]
fn probe_grep_line_does_not_mask_real_target() {
    let out = b"user 777 0.0 0.0 1 1 pts/0 S+ 12:00 0:00 grep SNAP.exe\nuser 4242 0.1 2.3 1 1 ? Sl 12:00 0:42 SNAP.exe\n";
    assert!(is_marvel_snap_running(out));
}

#[test]
fn placement_full_hd_work_area() {
    let pos = overlay_position(&area(1920, 1080));
    assert_eq!(pos, (1920 - 560, 1080 / 2 - 250));
    assert_eq!(pos, (1360, 290));
}

#[test]
fn placement_smallest_allowed_work_area() {
    let pos = overlay_position(&area(560, 500));
    assert_eq!(pos, (0, 0));
}

#[test]
fn placement_odd_height_truncates() {
    let pos = overlay_position(&area(1366, 769));
    assert_eq!(pos, (806, 134));
}

#[test]
fn window_footprint_constants() {
    assert_eq!(OVERLAY_WIDTH, 560);
    assert_eq!(WINDOW_WIDTH, 570);
    assert_eq!(WINDOW_HEIGHT, 320);
}

#[test]
fn startup_hidden_then_shown_when_target_appears() {
    // Probe says not running at startup with hide-if-not-running on:
    // start hidden, window not shown.
    let mut c = OverlayController::new(true, false);
    assert_eq!(c.visibility, Visibility::Hidden);
    // Probe then reports running: show, with placement recomputed for the
    // current work area.
    let action = c.handle_event(OverlayEvent::IdleTick { target_running: true });
    assert_eq!(action, OverlayAction::ShowAndPlace);
    assert_eq!(c.visibility, Visibility::Visible);
    let pos = overlay_position(&area(1920, 1080));
    assert_eq!(pos, (1360, 290));
}

#[test]
fn startup_visible_when_target_already_runs() {
    let c = OverlayController::new(true, true);
    assert_eq!(c.visibility, Visibility::Visible);
}

#[test]
fn startup_visible_when_not_tracking() {
    let c = OverlayController::new(false, false);
    assert_eq!(c.visibility, Visibility::Visible);
}

#[test]
fn repeated_ticks_in_same_state_do_nothing() {
    let mut c = OverlayController::new(true, true);
    assert_eq!(c.visibility, Visibility::Visible);
    for _ in 0..3 {
        let action = c.handle_event(OverlayEvent::IdleTick { target_running: true });
        assert_eq!(action, OverlayAction::DoNothing);
        assert_eq!(c.visibility, Visibility::Visible);
    }
    let action = c.handle_event(OverlayEvent::IdleTick { target_running: false });
    assert_eq!(action, OverlayAction::HideWindow);
    for _ in 0..3 {
        let action = c.handle_event(OverlayEvent::IdleTick { target_running: false });
        assert_eq!(action, OverlayAction::DoNothing);
        assert_eq!(c.visibility, Visibility::Hidden);
    }
}

#[test]
fn visibility_tracks_most_recent_probe_result() {
    let mut c = OverlayController::new(true, false);
    for &running in &[true, true, false, true, false, false, true] {
        c.handle_event(OverlayEvent::IdleTick { target_running: running });
        let expected = if running { Visibility::Visible } else { Visibility::Hidden };
        assert_eq!(c.visibility, expected);
    }
}

#[test]
fn ticks_are_no_ops_when_not_tracking() {
    let mut c = OverlayController::new(false, true);
    assert!(!c.wants_probe());
    for &running in &[false, true, false] {
        let action = c.handle_event(OverlayEvent::IdleTick { target_running: running });
        assert_eq!(action, OverlayAction::DoNothing);
        assert_eq!(c.visibility, Visibility::Visible);
    }
}

#[test]
fn close_request_exits_from_any_state() {
    let mut hidden = OverlayController::new(true, false);
    assert_eq!(hidden.handle_event(OverlayEvent::CloseRequested), OverlayAction::ExitLoop);
    assert_eq!(hidden.visibility, Visibility::Hidden);

    let mut visible = OverlayController::new(true, true);
    assert_eq!(visible.handle_event(OverlayEvent::CloseRequested), OverlayAction::ExitLoop);
    assert_eq!(visible.visibility, Visibility::Visible);

    let mut untracked = OverlayController::new(false, false);
    assert_eq!(untracked.handle_event(OverlayEvent::CloseRequested), OverlayAction::ExitLoop);
}

#[test]
fn wants_probe_follows_configuration() {
    assert!(OverlayController::new(true, false).wants_probe());
    assert!(!OverlayController::new(false, false).wants_probe());
}

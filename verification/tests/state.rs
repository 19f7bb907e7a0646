use select_stream::foreground::ForegroundTracker;
use select_stream::state::{build_select_windows, enable_select_or_default, AppState};
use select_stream::window::{FocusGuardedWindow, WindowCommand, WindowState};

#[test]
fn tracker_starts_at_the_sentinel() {
    let t = ForegroundTracker::new();
    assert_eq!(t.current(), 0);
}

#[test]
fn tracker_records_real_handles() {
    let mut t = ForegroundTracker::new();
    t.record(42);
    assert_eq!(t.current(), 42);
    t.record(7);
    assert_eq!(t.current(), 7);
}

#[test]
fn tracker_never_records_zero() {
    let mut t = ForegroundTracker::new();
    t.record(42);
    t.record(0);
    assert_eq!(t.current(), 42);
}

#[test]
fn selection_capture_is_enabled_unless_configured_off() {
    assert!(enable_select_or_default(None));
    assert!(enable_select_or_default(Some(true)));
    assert!(!enable_select_or_default(Some(false)));
}

#[test]
fn fresh_state_is_empty() {
    let s = AppState::new(true);
    assert!(s.selected_content.is_empty());
    assert_eq!(s.foreground.handle, 0);
    assert!(s.auto_input.is_none());
    assert!(s.enable_select);
}

#[test]
fn caching_replaces_the_previous_selection() {
    let mut s = AppState::new(true);
    s.cache_selected_content(b"first".to_vec());
    s.cache_selected_content(b"second".to_vec());
    assert_eq!(s.selected_content, b"second".to_vec());
}

#[test]
fn stream_worker_is_created_lazily_once() {
    let mut s = AppState::new(true);
    assert!(s.auto_input.is_none());
    s.get_or_init_auto_input();
    assert!(s.auto_input.is_some());
    let _ = s.send_auto_input_value(b"kept".to_vec());
    s.get_or_init_auto_input();
    // A later init call never resets the accumulator.
    assert_eq!(s.auto_input.as_ref().unwrap().content, b"kept".to_vec());
}

#[test]
fn sending_values_streams_incrementally() {
    let mut s = AppState::new(true);
    let e1 = s.send_auto_input_value(b"par".to_vec());
    let e2 = s.send_auto_input_value(b"partial".to_vec());
    assert_eq!(e1, b"par".to_vec());
    assert_eq!(e2, b"tial".to_vec());
}

#[test]
fn capture_gesture_records_focus_and_shows_popup() {
    let mut s = AppState::new(true);
    let mut w = FocusGuardedWindow::new();
    let cmds = build_select_windows(&mut s, &mut w, 99, 10, 20);
    assert_eq!(s.foreground.handle, 99);
    assert_eq!(w.state, WindowState::Shown { x: 10, y: 20 });
    assert_eq!(
        cmds,
        vec![
            WindowCommand::SetPosition { x: 10, y: 20 },
            WindowCommand::Show,
            WindowCommand::Focus,
        ]
    );
}

#[test]
fn capture_gesture_with_unknown_focus_keeps_last_handle() {
    let mut s = AppState::new(true);
    let mut w = FocusGuardedWindow::new();
    let _ = build_select_windows(&mut s, &mut w, 31, 0, 0);
    let _ = build_select_windows(&mut s, &mut w, 0, 5, 6);
    assert_eq!(s.foreground.handle, 31);
    assert_eq!(w.state, WindowState::Shown { x: 5, y: 6 });
}

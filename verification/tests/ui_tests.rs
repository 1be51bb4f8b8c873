use monoterminal_master::activity::ActivityTracker;
use monoterminal_master::layout::SessionList;
use std::time::{Duration, Instant};

#[test]
fn test_desktop_active_fps() {
    let tracker = ActivityTracker::new();
    assert_eq!(tracker.target_fps(), 60, "Desktop active should be 60 FPS");
}

#[test]
fn test_desktop_idle_fps() {
    let mut tracker = ActivityTracker::new();
    tracker.last_input = Instant::now() - Duration::from_secs(10); // Force idle

    assert!(tracker.is_idle(), "Should be idle after 10 seconds");
    assert_eq!(tracker.target_fps(), 30, "Desktop idle should be 30 FPS");
}

#[test]
fn test_mobile_active_fps() {
    let tracker = ActivityTracker::new_mobile();
    assert_eq!(tracker.target_fps(), 30, "Mobile active should be 30 FPS");
}

#[test]
fn test_mobile_idle_fps() {
    let mut tracker = ActivityTracker::new_mobile();
    tracker.last_input = Instant::now() - Duration::from_secs(5); // Force idle

    assert!(tracker.is_idle(), "Should be idle after 5 seconds");
    assert_eq!(tracker.target_fps(), 15, "Mobile idle should be 15 FPS");
}

#[test]
fn test_on_input_resets_idle() {
    let mut tracker = ActivityTracker::new();
    tracker.last_input = Instant::now() - Duration::from_secs(10); // Force idle

    assert!(tracker.is_idle(), "Should be idle initially");

    tracker.on_input(); // Simulate user input

    assert!(!tracker.is_idle(), "Should not be idle after input");
    assert_eq!(tracker.target_fps(), 60, "Should return to 60 FPS");
}

#[test]
fn test_frame_duration_calculation() {
    let tracker = ActivityTracker::new();
    let frame_duration = tracker.frame_duration();

    // 60 FPS = 16.67ms per frame
    assert!(
        frame_duration.as_micros() >= 16_600 && frame_duration.as_micros() <= 16_700,
        "60 FPS should be ~16.67ms per frame"
    );
}

#[test]
fn test_activity_transition() {
    let mut tracker = ActivityTracker::new();

    // Start active
    assert!(!tracker.is_idle());
    assert_eq!(tracker.target_fps(), 60);

    // Simulate time passing (mock idle)
    tracker.last_input = Instant::now() - Duration::from_secs(6);
    assert!(tracker.is_idle());
    assert_eq!(tracker.target_fps(), 30);

    // User input brings back to active
    tracker.on_input();
    assert!(!tracker.is_idle());
    assert_eq!(tracker.target_fps(), 60);
}

#[test]
fn idle_threshold_is_strict() {
    let tracker = ActivityTracker::new();
    assert!(!tracker.is_idle_after(5_000_000_000));
    assert!(tracker.is_idle_after(5_000_000_001));
    let mobile = ActivityTracker::new_mobile();
    assert!(!mobile.is_idle_after(3_000_000_000));
    assert!(mobile.is_idle_after(3_000_000_001));
}

#[test]
fn frame_micros_for_each_rate() {
    let desktop = ActivityTracker::new();
    assert_eq!(desktop.frame_micros_after(0), 16_666);
    assert_eq!(desktop.frame_micros_after(10_000_000_000), 33_333);
    let mobile = ActivityTracker::new_mobile();
    assert_eq!(mobile.target_fps_after(0), 30);
    assert_eq!(mobile.frame_micros_after(10_000_000_000), 66_666);
}

#[test]
fn test_session_list_new() {
    let list = SessionList::new();
    assert_eq!(list.sessions().len(), 0);
    assert_eq!(list.selected(), None);
}

#[test]
fn test_session_list_add() {
    let mut list = SessionList::new();
    list.add_session("Session 1".to_string());
    list.add_session("Session 2".to_string());

    assert_eq!(list.sessions().len(), 2);
    assert_eq!(list.sessions()[0].name, "Session 1");
    assert_eq!(list.sessions()[1].name, "Session 2");
}

#[test]
fn test_session_list_select() {
    let mut list = SessionList::new();
    list.add_session("Session 1".to_string());
    list.add_session("Session 2".to_string());

    list.set_selected(Some(0));
    assert_eq!(list.selected(), Some(0));

    list.set_selected(Some(1));
    assert_eq!(list.selected(), Some(1));

    list.set_selected(None);
    assert_eq!(list.selected(), None);
}

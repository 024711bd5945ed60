use simple_nes_rs::emulator::{
    HostAction, HostEvent, RunState, CPU_CYCLE_NANOSECONDS, NES_VIDEO_HEIGHT, NES_VIDEO_WIDTH,
    SCREEN_SCALE,
};

#[test]
fn new_run_state_runs() {
    let s = RunState::new();
    assert!(s.is_running());
    assert_eq!(s.elapsed, 0);
}

#[test]
fn closing_events_close() {
    let mut s = RunState::new();
    assert_eq!(s.handle(HostEvent::Closed), HostAction::Close);
    assert_eq!(s.handle(HostEvent::Escape), HostAction::Close);
    assert_eq!(s, RunState::new());
}

#[test]
fn pause_toggles_and_restarts_timer_on_resume() {
    let mut s = RunState::new();
    assert_eq!(s.handle(HostEvent::TogglePause), HostAction::Continue);
    assert!(s.pause);
    assert!(!s.is_running());
    assert_eq!(s.handle(HostEvent::TogglePause), HostAction::RestartTimer);
    assert!(!s.pause);
    assert!(s.is_running());
}

#[test]
fn focus_stops_and_starts_the_machine() {
    let mut s = RunState::new();
    assert_eq!(s.handle(HostEvent::LostFocus), HostAction::Continue);
    assert!(!s.is_running());
    assert_eq!(s.handle(HostEvent::GainedFocus), HostAction::RestartTimer);
    assert!(s.is_running());
}

#[test]
fn elapsed_time_is_spent_cycle_by_cycle() {
    let mut s = RunState::new();
    s.advance(559 * 3);
    assert!(s.take_cycle());
    assert!(s.take_cycle());
    // exactly one cycle's time left: not more than a cycle
    assert_eq!(s.elapsed, 559);
    assert!(!s.take_cycle());
    s.advance(1);
    assert!(s.take_cycle());
    assert_eq!(s.elapsed, 1);
    assert!(!s.take_cycle());
}

#[test]
fn elapsed_time_saturates() {
    let mut s = RunState::new();
    s.advance(i64::MAX);
    s.advance(10);
    assert_eq!(s.elapsed, i64::MAX);
    let mut s = RunState::new();
    s.advance(i64::MIN);
    s.advance(-10);
    assert_eq!(s.elapsed, i64::MIN);
    assert!(!s.take_cycle());
}

#[test]
fn host_constants() {
    assert_eq!(CPU_CYCLE_NANOSECONDS, 559);
    assert_eq!(NES_VIDEO_WIDTH * SCREEN_SCALE, 512);
    assert_eq!(NES_VIDEO_HEIGHT * SCREEN_SCALE, 480);
}

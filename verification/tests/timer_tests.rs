use pausecat::timer::{BreakTimer, InterruptibleSleep, PendingCheck, TimerAction, NANOS_PER_SEC};

const S: u64 = NANOS_PER_SEC;

#[test]
fn full_cycle_with_capture_and_break() {
    let mut t = BreakTimer::new(10, 3);
    assert_eq!(t.remaining_ns, 10 * S);
    assert_eq!(t.tick(10, 3, false, 2 * S), TimerAction::Idle);
    assert_eq!(t.remaining_ns, 8 * S);
    // 5.5 s left: 5 whole seconds, the background is captured ahead.
    assert_eq!(t.tick(10, 3, false, 2 * S + S / 2), TimerAction::CheckFocus);
    assert_eq!(t.pending, PendingCheck::BeforeCapture);
    assert_eq!(t.resolve_focus(false, false, 3), TimerAction::CaptureBackground);
    assert!(t.pre_capture_triggered);
    assert_eq!(t.tick(10, 3, false, S), TimerAction::Idle);
    assert_eq!(t.tick(10, 3, false, 10 * S), TimerAction::CheckFocus);
    assert_eq!(t.resolve_focus(false, false, 3), TimerAction::ShowOverlay);
    assert!(t.is_breaking);
    assert_eq!(t.remaining_ns, 3 * S);
    assert_eq!(t.tick(10, 3, false, 3 * S), TimerAction::HideOverlay);
    assert!(!t.is_breaking);
    assert!(!t.pre_capture_triggered);
    assert_eq!(t.remaining_ns, 10 * S);
}

#[test]
fn six_seconds_left_is_not_yet_capture_time() {
    let mut t = BreakTimer::new(10, 3);
    assert_eq!(t.tick(10, 3, false, 4 * S), TimerAction::Idle);
    assert_eq!(t.tick(10, 3, false, 1), TimerAction::CheckFocus);
}

#[test]
fn pause_freezes_the_count() {
    let mut t = BreakTimer::new(100, 10);
    assert_eq!(t.tick(100, 10, true, 50 * S), TimerAction::Idle);
    assert_eq!(t.remaining_ns, 100 * S);
}

#[test]
fn whitelist_postpones_by_a_minute() {
    let mut t = BreakTimer::new(300, 10);
    assert_eq!(t.tick(300, 10, false, 301 * S), TimerAction::CheckFocus);
    assert_eq!(t.resolve_focus(true, false, 10), TimerAction::Postponed);
    assert_eq!(t.remaining_ns, 60 * S);
    assert!(!t.is_breaking);
    assert_eq!(t.resolve_focus(false, false, 10), TimerAction::Idle);
}

#[test]
fn locked_session_defers_the_break() {
    let mut t = BreakTimer::new(300, 10);
    assert_eq!(t.tick(300, 10, false, 300 * S), TimerAction::CheckFocus);
    assert_eq!(t.resolve_focus(false, true, 10), TimerAction::Deferred);
    assert_eq!(t.remaining_ns, 5 * S);
    assert!(!t.is_breaking);
}

#[test]
fn new_settings_restart_work_but_not_a_break() {
    let mut t = BreakTimer::new(3600, 300);
    t.tick(3600, 300, false, 1000 * S);
    assert_eq!(t.tick(5000, 300, false, 7 * S), TimerAction::Idle);
    assert_eq!(t.remaining_ns, 5000 * S);
    assert_eq!(t.work_secs, 5000);
    // Into a break, then change the settings: the break keeps its time.
    t.tick(5000, 300, false, 5000 * S);
    assert_eq!(t.resolve_focus(false, false, 300), TimerAction::ShowOverlay);
    assert_eq!(t.tick(6000, 200, false, 100 * S), TimerAction::Idle);
    assert_eq!(t.remaining_ns, 200 * S);
    assert_eq!(t.break_secs, 200);
}

#[test]
fn break_length_is_read_when_it_starts() {
    let mut t = BreakTimer::new(300, 10);
    t.tick(300, 10, false, 300 * S);
    assert_eq!(t.resolve_focus(false, false, 42), TimerAction::ShowOverlay);
    assert_eq!(t.remaining_ns, 42 * S);
}

#[test]
fn interruptible_sleep_counts_unpaused_slices() {
    let mut s = InterruptibleSleep::new(120_000_000);
    assert!(!s.is_done());
    s.record_slice(true);
    assert_eq!(s.slept_ns, 0);
    s.record_slice(false);
    s.record_slice(false);
    assert!(!s.is_done());
    s.record_slice(true);
    s.record_slice(false);
    assert!(s.is_done());
    assert_eq!(s.slept_ns, 150_000_000);
    assert!(InterruptibleSleep::new(0).is_done());
}

/// Sleeps `duration` the way the timer thread does: slice by slice, counting
/// only the slices slept while not paused.
fn sleep_unpaused(duration: std::time::Duration) {
    let mut sleep = InterruptibleSleep::new(duration.as_nanos());
    while !sleep.is_done() {
        let slice_start = std::time::Instant::now();
        while slice_start.elapsed().as_nanos() < pausecat::timer::SLEEP_SLICE_NS {}
        sleep.record_slice(false);
    }
}

#[test]
fn test_sleep_interruptible() {
    let start = std::time::Instant::now();
    sleep_unpaused(std::time::Duration::from_millis(100));
    assert!(start.elapsed() >= std::time::Duration::from_millis(100));
}

#[test]
fn test_sleep_interruptible_basic() {
    let start = std::time::Instant::now();
    let duration = std::time::Duration::from_millis(500);
    sleep_unpaused(duration);
    assert!(start.elapsed() >= duration);
}

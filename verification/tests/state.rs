use tytimer::state::TimerState;

#[test]
fn initial_state_has_full_countdown() {
    let s = TimerState::new(600);
    assert_eq!(s.original, 600);
    assert_eq!(s.remaining, 600);
    assert!(s.running);
    assert!(!s.alarm_triggered);
}

#[test]
fn initial_state_smallest_duration() {
    let s = TimerState::new(1);
    assert_eq!(s.original, 1);
    assert_eq!(s.remaining, 1);
    assert!(s.running);
    assert!(!s.alarm_triggered);
}

#[test]
fn tick_decrements_while_running() {
    let mut s = TimerState::new(100);
    let fired = s.tick();
    assert!(!fired);
    assert_eq!(s.remaining, 99);
    assert!(s.running);
    assert!(!s.alarm_triggered);
}

#[test]
fn tick_leaves_paused_countdown_alone() {
    let mut s = TimerState::new(100);
    s.toggle_running();
    let before = s;
    let fired = s.tick();
    assert!(!fired);
    assert_eq!(s, before);
    assert_eq!(s.remaining, 100);
}

#[test]
fn tick_paused_at_crossing_does_not_fire() {
    let mut s = TimerState::new(1);
    s.toggle_running();
    let fired = s.tick();
    assert!(!fired);
    assert_eq!(s.remaining, 1);
    assert!(!s.alarm_triggered);
}

#[test]
fn alarm_fires_exactly_once_per_segment() {
    let mut s = TimerState::new(3);
    assert!(!s.tick());
    assert_eq!(s.remaining, 2);
    assert!(!s.tick());
    assert_eq!(s.remaining, 1);
    assert!(!s.alarm_triggered);
    let fired = s.tick();
    assert!(fired);
    assert_eq!(s.remaining, 0);
    assert!(s.alarm_triggered);
    let fired_again = s.tick();
    assert!(!fired_again);
    assert_eq!(s.remaining, -1);
    assert!(s.alarm_triggered);
}

#[test]
fn overrun_keeps_counting_down() {
    let mut s = TimerState::new(1);
    assert!(s.tick());
    assert!(!s.tick());
    assert!(!s.tick());
    assert_eq!(s.remaining, -2);
    assert!(s.running);
    assert!(s.alarm_triggered);
}

#[test]
fn pause_for_percent_examples() {
    let mut s = TimerState::new(600);
    s.pause_for_percent(10);
    assert_eq!(s.remaining, 60);
    assert!(s.running);
    assert!(!s.alarm_triggered);

    s.pause_for_percent(1);
    assert_eq!(s.remaining, 6);
    assert!(s.running);
    assert!(!s.alarm_triggered);

    s.pause_for_percent(150);
    assert_eq!(s.remaining, 900);
    assert!(s.running);
    assert!(!s.alarm_triggered);
}

#[test]
fn pause_for_percent_floors_at_one() {
    let mut s = TimerState::new(1);
    s.pause_for_percent(1);
    assert_eq!(s.remaining, 1);

    let mut t = TimerState::new(49);
    t.pause_for_percent(1);
    assert_eq!(t.remaining, 1);
}

#[test]
fn pause_for_percent_rounds_half_up() {
    let mut s = TimerState::new(149);
    s.pause_for_percent(1);
    assert_eq!(s.remaining, 1);

    let mut t = TimerState::new(150);
    t.pause_for_percent(1);
    assert_eq!(t.remaining, 2);
}

#[test]
fn pause_for_percent_keeps_original() {
    let mut s = TimerState::new(600);
    s.pause_for_percent(10);
    assert_eq!(s.original, 600);
}

#[test]
fn pause_for_percent_rearms_a_fired_alarm() {
    let mut s = TimerState::new(1);
    assert!(s.tick());
    assert!(s.alarm_triggered);
    s.pause_for_percent(100);
    assert!(!s.alarm_triggered);
    assert!(s.running);
    assert_eq!(s.remaining, 1);
    assert!(s.tick());
    assert!(s.alarm_triggered);
}

#[test]
fn pause_for_percent_resumes_a_paused_countdown() {
    let mut s = TimerState::new(600);
    s.toggle_running();
    assert!(!s.running);
    s.pause_for_percent(10);
    assert!(s.running);
}

#[test]
fn toggle_running_twice_is_identity() {
    let s0 = TimerState::new(600);
    let mut s = s0;
    s.toggle_running();
    assert!(!s.running);
    assert_eq!(s.remaining, s0.remaining);
    assert_eq!(s.original, s0.original);
    assert_eq!(s.alarm_triggered, s0.alarm_triggered);
    s.toggle_running();
    assert_eq!(s, s0);
}

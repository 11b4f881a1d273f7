use tytimer::actions::{drain_actions, handle_action, UiCommand};
use tytimer::state::TimerState;
use tytimer::tray::TrayAction;

#[test]
fn toggle_action_flips_running_and_refreshes() {
    let mut s = TimerState::new(600);
    let cmds = handle_action(&mut s, TrayAction::ToggleRunning);
    assert!(!s.running);
    assert_eq!(cmds, vec![UiCommand::RefreshDisplay]);
}

#[test]
fn show_alarm_action_changes_no_state() {
    let mut s = TimerState::new(600);
    let before = s;
    let cmds = handle_action(&mut s, TrayAction::ShowAlarm);
    assert_eq!(s, before);
    assert_eq!(cmds, vec![UiCommand::ShowWindow, UiCommand::RefreshDisplay]);
}

#[test]
fn quit_action_changes_no_state() {
    let mut s = TimerState::new(600);
    let before = s;
    let cmds = handle_action(&mut s, TrayAction::Quit);
    assert_eq!(s, before);
    assert_eq!(cmds, vec![UiCommand::Quit]);
}

#[test]
fn drain_preserves_order_and_restores_running() {
    let mut s = TimerState::new(600);
    let queued = vec![
        TrayAction::ToggleRunning,
        TrayAction::ShowAlarm,
        TrayAction::ToggleRunning,
    ];
    let cmds = drain_actions(&mut s, &queued);
    assert!(s.running);
    assert_eq!(s, TimerState::new(600));
    assert_eq!(
        cmds,
        vec![
            UiCommand::RefreshDisplay,
            UiCommand::ShowWindow,
            UiCommand::RefreshDisplay,
            UiCommand::RefreshDisplay,
        ]
    );
}

#[test]
fn quit_truncates_the_drain_cycle() {
    let mut s = TimerState::new(600);
    let queued = vec![
        TrayAction::ToggleRunning,
        TrayAction::Quit,
        TrayAction::ToggleRunning,
    ];
    let cmds = drain_actions(&mut s, &queued);
    assert!(!s.running);
    assert_eq!(cmds, vec![UiCommand::RefreshDisplay, UiCommand::Quit]);
}

#[test]
fn drain_of_empty_queue_does_nothing() {
    let mut s = TimerState::new(600);
    let before = s;
    let cmds = drain_actions(&mut s, &Vec::new());
    assert_eq!(s, before);
    assert!(cmds.is_empty());
}

#[test]
fn drain_starting_with_quit_applies_nothing() {
    let mut s = TimerState::new(600);
    let before = s;
    let queued = vec![TrayAction::Quit, TrayAction::ShowAlarm];
    let cmds = drain_actions(&mut s, &queued);
    assert_eq!(s, before);
    assert_eq!(cmds, vec![UiCommand::Quit]);
}

#[test]
fn drain_never_touches_the_countdown_fields() {
    let mut s = TimerState::new(600);
    let queued = vec![
        TrayAction::ToggleRunning,
        TrayAction::ShowAlarm,
        TrayAction::ToggleRunning,
        TrayAction::ToggleRunning,
    ];
    drain_actions(&mut s, &queued);
    assert_eq!(s.remaining, 600);
    assert_eq!(s.original, 600);
    assert!(!s.alarm_triggered);
    assert!(!s.running);
}

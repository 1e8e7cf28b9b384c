use vosk_dictation::daemon::DaemonState;
use vosk_dictation::dbus::{command_target_state, state_to_str, DaemonCommand};

#[test]
fn state_names() {
    assert_eq!(state_to_str(DaemonState::Idle), "idle");
    assert_eq!(state_to_str(DaemonState::Listening), "listening");
    assert_eq!(state_to_str(DaemonState::Paused), "paused");
}

#[test]
fn command_targets() {
    assert_eq!(command_target_state(DaemonCommand::Enable), Some(DaemonState::Idle));
    assert_eq!(command_target_state(DaemonCommand::Disable), Some(DaemonState::Paused));
    assert_eq!(command_target_state(DaemonCommand::Quit), None);
}

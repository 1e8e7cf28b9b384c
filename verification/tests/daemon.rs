use vosk_dictation::daemon::{handle_event, update_shared_state, DaemonAction, DaemonEvent, DaemonState};
use vosk_dictation::dbus::DaemonCommand;
use vosk_dictation::focus::{AppInfo, FocusState};
use vosk_dictation::stt::SttEvent;
use std::sync::{Arc, Mutex};

fn focused() -> DaemonEvent {
    DaemonEvent::Focus(FocusState::TextFieldActive(AppInfo {
        wm_class: "gedit".to_string(),
        window_name: "notes".to_string(),
    }))
}

#[test]
fn enable_and_disable_publish_their_state() {
    for s in [DaemonState::Idle, DaemonState::Listening, DaemonState::Paused] {
        let t = handle_event(s, DaemonEvent::Command(DaemonCommand::Enable), true);
        assert_eq!(t.state, DaemonState::Idle);
        assert_eq!(t.actions, vec![DaemonAction::Publish(DaemonState::Idle)]);
        let t = handle_event(s, DaemonEvent::Command(DaemonCommand::Disable), true);
        assert_eq!(t.state, DaemonState::Paused);
        assert_eq!(t.actions, vec![DaemonAction::Publish(DaemonState::Paused)]);
    }
}

#[test]
fn quit_and_closed_channels_stop() {
    for e in [
        DaemonEvent::Command(DaemonCommand::Quit),
        DaemonEvent::ControlClosed,
        DaemonEvent::FocusClosed,
        DaemonEvent::TranscriptClosed,
    ] {
        let t = handle_event(DaemonState::Listening, e, true);
        assert_eq!(t.state, DaemonState::Listening);
        assert_eq!(t.actions, vec![DaemonAction::Stop]);
    }
}

#[test]
fn focus_starts_listening_unless_paused() {
    let t = handle_event(DaemonState::Idle, focused(), true);
    assert_eq!(t.state, DaemonState::Listening);
    assert_eq!(
        t.actions,
        vec![DaemonAction::Publish(DaemonState::Listening), DaemonAction::Announce(DaemonState::Listening)]
    );
    let t = handle_event(DaemonState::Listening, focused(), true);
    assert_eq!(t.state, DaemonState::Listening);
    assert_eq!(t.actions, vec![DaemonAction::Publish(DaemonState::Listening)]);
    let t = handle_event(DaemonState::Paused, focused(), true);
    assert_eq!(t.state, DaemonState::Paused);
    assert!(t.actions.is_empty());
}

#[test]
fn losing_focus_makes_a_listening_daemon_idle() {
    let t = handle_event(DaemonState::Listening, DaemonEvent::Focus(FocusState::NotActive), true);
    assert_eq!(t.state, DaemonState::Idle);
    assert_eq!(t.actions, vec![DaemonAction::Publish(DaemonState::Idle), DaemonAction::Announce(DaemonState::Idle)]);
    let t = handle_event(DaemonState::Paused, DaemonEvent::Focus(FocusState::NotActive), true);
    assert_eq!(t.state, DaemonState::Paused);
    assert!(t.actions.is_empty());
    let t = handle_event(DaemonState::Idle, DaemonEvent::Focus(FocusState::NotActive), true);
    assert_eq!(t.state, DaemonState::Idle);
    assert!(t.actions.is_empty());
}

#[test]
fn final_text_is_typed_with_a_space() {
    let t = handle_event(
        DaemonState::Listening,
        DaemonEvent::Transcript(SttEvent::Final("hello world".to_string())),
        true,
    );
    assert_eq!(t.state, DaemonState::Listening);
    assert_eq!(
        t.actions,
        vec![DaemonAction::TypeText("hello world".to_string()), DaemonAction::TypeText(" ".to_string())]
    );
}

#[test]
fn final_text_is_printed_without_keyboard() {
    let t = handle_event(
        DaemonState::Listening,
        DaemonEvent::Transcript(SttEvent::Final("hello".to_string())),
        false,
    );
    assert_eq!(t.actions, vec![DaemonAction::Print("hello".to_string())]);
}

#[test]
fn text_is_ignored_unless_listening() {
    for s in [DaemonState::Idle, DaemonState::Paused] {
        let t = handle_event(s, DaemonEvent::Transcript(SttEvent::Final("x".to_string())), true);
        assert_eq!(t.state, s);
        assert!(t.actions.is_empty());
    }
    let t = handle_event(
        DaemonState::Listening,
        DaemonEvent::Transcript(SttEvent::Partial("hel".to_string())),
        true,
    );
    assert_eq!(t.state, DaemonState::Listening);
    assert!(t.actions.is_empty());
}

#[test]
fn paused_daemon_stays_paused_until_enabled() {
    let mut s = DaemonState::Paused;
    for e in [
        focused(),
        DaemonEvent::Focus(FocusState::NotActive),
        DaemonEvent::Transcript(SttEvent::Final("x".to_string())),
        DaemonEvent::Command(DaemonCommand::Disable),
        DaemonEvent::Command(DaemonCommand::Quit),
    ] {
        s = handle_event(s, e, true).state;
        assert_eq!(s, DaemonState::Paused);
    }
    s = handle_event(s, DaemonEvent::Command(DaemonCommand::Enable), true).state;
    assert_eq!(s, DaemonState::Idle);
}

#[test]
fn shared_state_tracks_daemon_state() {
    let events = vec![
        focused(),
        DaemonEvent::Transcript(SttEvent::Final("one".to_string())),
        DaemonEvent::Command(DaemonCommand::Disable),
        focused(),
        DaemonEvent::Command(DaemonCommand::Enable),
        focused(),
        DaemonEvent::Focus(FocusState::NotActive),
    ];
    let mut state = DaemonState::Idle;
    let mut shared = DaemonState::Idle;
    for e in events {
        let t = handle_event(state, e, true);
        state = t.state;
        for a in t.actions {
            if let DaemonAction::Publish(p) = a {
                shared = p;
            }
        }
        assert_eq!(shared, state);
    }
    assert_eq!(state, DaemonState::Idle);
}

#[test]
fn update_shared_state_stores_the_state() {
    let shared = Arc::new(Mutex::new(DaemonState::Idle));
    update_shared_state(&shared, DaemonState::Listening);
    assert_eq!(*shared.lock().unwrap(), DaemonState::Listening);
    update_shared_state(&shared, DaemonState::Paused);
    assert_eq!(*shared.lock().unwrap(), DaemonState::Paused);
}

#[test]
fn focus_changes_are_announced_once() {
    let events = vec![
        focused(),
        focused(),
        DaemonEvent::Focus(FocusState::NotActive),
        DaemonEvent::Focus(FocusState::NotActive),
        DaemonEvent::Command(DaemonCommand::Disable),
        focused(),
    ];
    let mut state = DaemonState::Idle;
    let mut announced = Vec::new();
    for e in events {
        let t = handle_event(state, e, true);
        for a in &t.actions {
            if let DaemonAction::Announce(s) = a {
                assert_ne!(*s, state);
                assert_eq!(*s, t.state);
                announced.push(*s);
            }
        }
        state = t.state;
    }
    assert_eq!(announced, vec![DaemonState::Listening, DaemonState::Idle]);
}

//! The daemon's central state machine: from its state and one event (a
//! control command, a focus change, a transcription, or a closed channel) to
//! its next state and the actions to perform.

use std::sync::Arc;
use std::sync::LockResult;
use std::sync::Mutex;
use std::sync::MutexGuard;
use std::sync::PoisonError;
use vstd::prelude::*;
use crate::dbus::DaemonCommand;
use crate::focus::FocusState;
use crate::stt::SttEvent;

verus! {

/// The daemon's operating state.
#[derive(Debug, Clone, Copy, PartialEq, Eq, Structural)]
pub enum DaemonState {
    /// Daemon is idle — no text field focused.
    Idle,
    /// A text field is focused and we are actively listening/transcribing.
    Listening,
    /// Daemon is paused by the user (global toggle off).
    Paused,
}

/// What the daemon receives: a message on one of its three channels, or the
/// news that a channel was closed.
#[derive(Debug, Clone, PartialEq, Eq)]
pub enum DaemonEvent {
    Command(DaemonCommand),
    ControlClosed,
    Focus(FocusState),
    FocusClosed,
    Transcript(SttEvent),
    TranscriptClosed,
}

/// What the daemon does in answer to an event.
#[derive(Debug, Clone, PartialEq, Eq)]
pub enum DaemonAction {
    /// Write the state to the state shared with the D-Bus interface.
    Publish(DaemonState),
    /// Announce a new state on D-Bus (the `StatusChanged` signal).
    Announce(DaemonState),
    /// Type the text on the virtual keyboard.
    TypeText(String),
    /// Print the text on standard output (no virtual keyboard).
    Print(String),
    /// Leave the daemon loop.
    Stop,
}

/// A daemon action with its text taken by value.
pub enum DaemonActionView {
    Publish(DaemonState),
    Announce(DaemonState),
    TypeText(Seq<char>),
    Print(Seq<char>),
    Stop,
}

impl View for DaemonAction {
    type V = DaemonActionView;

    open spec fn view(&self) -> DaemonActionView {
        match self {
            DaemonAction::Publish(s) => DaemonActionView::Publish(*s),
            DaemonAction::Announce(s) => DaemonActionView::Announce(*s),
            DaemonAction::TypeText(t) => DaemonActionView::TypeText(t@),
            DaemonAction::Print(t) => DaemonActionView::Print(t@),
            DaemonAction::Stop => DaemonActionView::Stop,
        }
    }
}

/// The views of a sequence of actions.
pub open spec fn actions_view(actions: Seq<DaemonAction>) -> Seq<DaemonActionView> {
    actions.map_values(|a: DaemonAction| a@)
}

/// The daemon's next state.
pub open spec fn next_state(state: DaemonState, event: DaemonEvent) -> DaemonState {
    match event {
        DaemonEvent::Command(DaemonCommand::Enable) => DaemonState::Idle,
        DaemonEvent::Command(DaemonCommand::Disable) => DaemonState::Paused,
        DaemonEvent::Focus(FocusState::TextFieldActive(_)) => {
            if state != DaemonState::Paused { DaemonState::Listening } else { state }
        },
        DaemonEvent::Focus(FocusState::NotActive) => {
            if state == DaemonState::Listening { DaemonState::Idle } else { state }
        },
        _ => state,
    }
}

/// The actions the daemon performs for an event, in order.
pub open spec fn event_actions(state: DaemonState, event: DaemonEvent, has_keyboard: bool) -> Seq<DaemonActionView> {
    match event {
        DaemonEvent::Command(DaemonCommand::Enable) => seq![DaemonActionView::Publish(DaemonState::Idle)],
        DaemonEvent::Command(DaemonCommand::Disable) => seq![DaemonActionView::Publish(DaemonState::Paused)],
        DaemonEvent::Command(DaemonCommand::Quit) => seq![DaemonActionView::Stop],
        DaemonEvent::ControlClosed => seq![DaemonActionView::Stop],
        DaemonEvent::Focus(FocusState::TextFieldActive(_)) => {
            if state == DaemonState::Paused {
                seq![]
            } else if state == DaemonState::Listening {
                seq![DaemonActionView::Publish(DaemonState::Listening)]
            } else {
                seq![
                    DaemonActionView::Publish(DaemonState::Listening),
                    DaemonActionView::Announce(DaemonState::Listening),
                ]
            }
        },
        DaemonEvent::Focus(FocusState::NotActive) => {
            if state == DaemonState::Listening {
                seq![DaemonActionView::Publish(DaemonState::Idle), DaemonActionView::Announce(DaemonState::Idle)]
            } else {
                seq![]
            }
        },
        DaemonEvent::FocusClosed => seq![DaemonActionView::Stop],
        DaemonEvent::Transcript(SttEvent::Partial(_)) => seq![],
        DaemonEvent::Transcript(SttEvent::Final(text)) => {
            if state != DaemonState::Listening {
                seq![]
            } else if has_keyboard {
                seq![DaemonActionView::TypeText(text@), DaemonActionView::TypeText(" "@)]
            } else {
                seq![DaemonActionView::Print(text@)]
            }
        },
        DaemonEvent::TranscriptClosed => seq![DaemonActionView::Stop],
    }
}

/// The daemon's answer to one event.
pub struct Transition {
    pub state: DaemonState,
    pub actions: Vec<DaemonAction>,
}

/// Decides the daemon's next state and actions for one event.
///
/// `Enable` makes the daemon idle and `Disable` pauses it; `Quit` and a
/// closed channel stop it. A focused text field starts listening unless the
/// daemon is paused; losing focus while listening makes it idle, and such a
/// change of state is announced on D-Bus. Partial
/// transcriptions are only shown; a final one, while listening, is typed
/// followed by a space, or printed when there is no virtual keyboard. Each
/// state change is published to the state shared with the D-Bus interface.
pub fn handle_event(state: DaemonState, event: DaemonEvent, has_keyboard: bool) -> (t: Transition)
    ensures
        t.state == next_state(state, event),
        actions_view(t.actions@) == event_actions(state, event, has_keyboard),
{
    let ghost ev = event;
    let mut actions: Vec<DaemonAction> = Vec::new();
    let mut next = state;
    match event {
        DaemonEvent::Command(DaemonCommand::Enable) => {
            next = DaemonState::Idle;
            actions.push(DaemonAction::Publish(next));
        },
        DaemonEvent::Command(DaemonCommand::Disable) => {
            next = DaemonState::Paused;
            actions.push(DaemonAction::Publish(next));
        },
        DaemonEvent::Command(DaemonCommand::Quit) => {
            actions.push(DaemonAction::Stop);
        },
        DaemonEvent::ControlClosed => {
            actions.push(DaemonAction::Stop);
        },
        DaemonEvent::Focus(FocusState::TextFieldActive(_)) => {
            if state != DaemonState::Paused {
                next = DaemonState::Listening;
                actions.push(DaemonAction::Publish(next));
                if state != DaemonState::Listening {
                    actions.push(DaemonAction::Announce(next));
                }
            }
        },
        DaemonEvent::Focus(FocusState::NotActive) => {
            if state == DaemonState::Listening {
                next = DaemonState::Idle;
                actions.push(DaemonAction::Publish(next));
                actions.push(DaemonAction::Announce(next));
            }
        },
        DaemonEvent::FocusClosed => {
            actions.push(DaemonAction::Stop);
        },
        DaemonEvent::Transcript(SttEvent::Partial(_)) => {},
        DaemonEvent::Transcript(SttEvent::Final(text)) => {
            if state == DaemonState::Listening {
                if has_keyboard {
                    actions.push(DaemonAction::TypeText(text));
                    actions.push(DaemonAction::TypeText(String::from_str(" ")));
                } else {
                    actions.push(DaemonAction::Print(text));
                }
            }
        },
        DaemonEvent::TranscriptClosed => {
            actions.push(DaemonAction::Stop);
        },
    }
    assert(actions_view(actions@) =~= event_actions(state, ev, has_keyboard));
    Transition { state: next, actions }
}

/// The state last published by a sequence of actions, starting from `shared`.
pub open spec fn published_state(shared: DaemonState, actions: Seq<DaemonActionView>) -> DaemonState
    decreases actions.len(),
{
    if actions.len() == 0 {
        shared
    } else {
        match actions.last() {
            DaemonActionView::Publish(s) => s,
            _ => published_state(shared, actions.drop_last()),
        }
    }
}

/// Whether an action writes text to the focused window or to standard output.
pub open spec fn is_output(a: DaemonActionView) -> bool {
    a is TypeText || a is Print
}

/// Whether an event stops the daemon.
pub open spec fn is_stop_event(event: DaemonEvent) -> bool {
    ||| event == DaemonEvent::Command(DaemonCommand::Quit)
    ||| event is ControlClosed
    ||| event is FocusClosed
    ||| event is TranscriptClosed
}

/// The state shared with the D-Bus interface follows the daemon's state: after
/// an event, the last state the daemon published is its new state (when the
/// shared state agreed with the daemon's before the event).
pub proof fn lemma_published_state_is_next_state(state: DaemonState, event: DaemonEvent, has_keyboard: bool)
    ensures
        published_state(state, event_actions(state, event, has_keyboard)) == next_state(state, event),
{
    let acts = event_actions(state, event, has_keyboard);
    reveal_with_fuel(published_state, 3);
    if acts.len() == 2 {
        assert(acts.drop_last().drop_last() =~= Seq::<DaemonActionView>::empty());
    } else if acts.len() == 1 {
        assert(acts.drop_last() =~= Seq::<DaemonActionView>::empty());
    }
}

/// The daemon's state after a sequence of events.
pub open spec fn state_after(state: DaemonState, events: Seq<DaemonEvent>) -> DaemonState
    decreases events.len(),
{
    if events.len() == 0 {
        state
    } else {
        next_state(state_after(state, events.drop_last()), events.last())
    }
}

/// The shared state after the daemon handled a sequence of events, starting
/// from the shared state `shared` and the daemon state `state`.
pub open spec fn shared_after(shared: DaemonState, state: DaemonState, events: Seq<DaemonEvent>, has_keyboard: bool) -> DaemonState
    decreases events.len(),
{
    if events.len() == 0 {
        shared
    } else {
        let before = state_after(state, events.drop_last());
        published_state(
            shared_after(shared, state, events.drop_last(), has_keyboard),
            event_actions(before, events.last(), has_keyboard),
        )
    }
}

/// Whatever events arrive, the state shared with the D-Bus interface (which
/// starts equal to the daemon's) always equals the daemon's state.
pub proof fn lemma_shared_state_tracks_daemon(state: DaemonState, events: Seq<DaemonEvent>, has_keyboard: bool)
    ensures
        shared_after(state, state, events, has_keyboard) == state_after(state, events),
    decreases events.len(),
{
    if events.len() > 0 {
        lemma_shared_state_tracks_daemon(state, events.drop_last(), has_keyboard);
        lemma_published_state_is_next_state(state_after(state, events.drop_last()), events.last(), has_keyboard);
    }
}

/// Focusing a text field makes the daemon listen unless it is paused;
/// losing focus while listening makes it idle.
pub proof fn lemma_focus_controls_listening(state: DaemonState, app: crate::focus::AppInfo)
    ensures
        state != DaemonState::Paused ==> next_state(state, DaemonEvent::Focus(FocusState::TextFieldActive(app)))
            == DaemonState::Listening,
        state == DaemonState::Listening ==> next_state(state, DaemonEvent::Focus(FocusState::NotActive))
            == DaemonState::Idle,
{
}

/// While listening, a final transcription is always delivered: typed,
/// followed by a space, on the virtual keyboard, or printed on standard
/// output when there is none.
pub proof fn lemma_final_text_is_delivered(text: String, has_keyboard: bool)
    ensures
        has_keyboard ==> event_actions(DaemonState::Listening, DaemonEvent::Transcript(SttEvent::Final(text)), has_keyboard)
            == seq![DaemonActionView::TypeText(text@), DaemonActionView::TypeText(" "@)],
        !has_keyboard ==> event_actions(DaemonState::Listening, DaemonEvent::Transcript(SttEvent::Final(text)), has_keyboard)
            == seq![DaemonActionView::Print(text@)],
{
}

/// Every change of the daemon's state is announced once on D-Bus: by the
/// daemon for a focus change, by the D-Bus interface itself (with the same
/// state) for the command it forwarded. The daemon announces only real
/// changes, and only the state it moves to.
pub proof fn lemma_state_changes_are_announced(state: DaemonState, event: DaemonEvent, has_keyboard: bool)
    ensures
        next_state(state, event) != state ==> {
            ||| event_actions(state, event, has_keyboard).contains(
                DaemonActionView::Announce(next_state(state, event)),
            )
            ||| (event matches DaemonEvent::Command(cmd) && crate::dbus::command_target(cmd) == Some(
                next_state(state, event),
            ))
        },
        forall|i: int|
            0 <= i < event_actions(state, event, has_keyboard).len()
                && #[trigger] event_actions(state, event, has_keyboard)[i] is Announce ==> {
                &&& event_actions(state, event, has_keyboard)[i] == DaemonActionView::Announce(next_state(state, event))
                &&& next_state(state, event) != state
                &&& !(event is Command)
            },
{
    let acts = event_actions(state, event, has_keyboard);
    if next_state(state, event) != state && !(event is Command) {
        assert(acts[1] == DaemonActionView::Announce(next_state(state, event)));
    }
}

/// Transcriptions never change the daemon's state, and a partial one never
/// triggers any action; only `Enable`, `Disable` and focus changes move the
/// daemon to another state.
pub proof fn lemma_only_commands_and_focus_change_state(state: DaemonState, event: DaemonEvent, has_keyboard: bool)
    ensures
        event matches DaemonEvent::Transcript(SttEvent::Partial(_)) ==> next_state(state, event) == state
            && event_actions(state, event, has_keyboard).len() == 0,
        event is Transcript ==> next_state(state, event) == state,
        next_state(state, event) != state ==> (event is Focus || event == DaemonEvent::Command(DaemonCommand::Enable)
            || event == DaemonEvent::Command(DaemonCommand::Disable)),
{
}

/// A paused daemon stays paused until it is enabled: no focus change,
/// transcription or other command resumes it.
pub proof fn lemma_paused_until_enabled(event: DaemonEvent)
    requires
        event != DaemonEvent::Command(DaemonCommand::Enable),
    ensures
        next_state(DaemonState::Paused, event) == DaemonState::Paused,
{
}

/// Text is typed or printed only while the daemon listens, and only for a
/// final transcription; partial transcriptions never produce output.
pub proof fn lemma_output_only_while_listening(state: DaemonState, event: DaemonEvent, has_keyboard: bool, i: int)
    requires
        0 <= i < event_actions(state, event, has_keyboard).len(),
        is_output(event_actions(state, event, has_keyboard)[i]),
    ensures
        state == DaemonState::Listening,
        next_state(state, event) == DaemonState::Listening,
        event matches DaemonEvent::Transcript(SttEvent::Final(_)),
{
}

/// Without a virtual keyboard nothing is typed; with one nothing is printed.
pub proof fn lemma_output_goes_to_keyboard_or_stdout(state: DaemonState, event: DaemonEvent, has_keyboard: bool, i: int)
    requires
        0 <= i < event_actions(state, event, has_keyboard).len(),
    ensures
        event_actions(state, event, has_keyboard)[i] is TypeText ==> has_keyboard,
        event_actions(state, event, has_keyboard)[i] is Print ==> !has_keyboard,
{
}

/// `Quit` and a closed channel stop the daemon and do nothing else; no other
/// event stops it.
pub proof fn lemma_stop_events(state: DaemonState, event: DaemonEvent, has_keyboard: bool)
    ensures
        is_stop_event(event) ==> event_actions(state, event, has_keyboard) == seq![DaemonActionView::Stop]
            && next_state(state, event) == state,
        !is_stop_event(event) ==> !event_actions(state, event, has_keyboard).contains(DaemonActionView::Stop),
{
    if !is_stop_event(event) {
        let acts = event_actions(state, event, has_keyboard);
        if acts.contains(DaemonActionView::Stop) {
            let i = choose|i: int| 0 <= i < acts.len() && acts[i] == DaemonActionView::Stop;
            assert(acts[i] == DaemonActionView::Stop);
        }
    }
}

/// The daemon ends in the state that the D-Bus interface published for the
/// command it forwarded, whatever state the daemon was in.
pub proof fn lemma_daemon_agrees_with_dbus(state: DaemonState, cmd: DaemonCommand, has_keyboard: bool)
    ensures
        crate::dbus::command_target(cmd) matches Some(target) ==> next_state(state, DaemonEvent::Command(cmd)) == target
            && event_actions(state, DaemonEvent::Command(cmd), has_keyboard) == seq![DaemonActionView::Publish(target)],
        crate::dbus::command_target(cmd) is None ==> next_state(state, DaemonEvent::Command(cmd)) == state,
{
}

/// `std::sync::Mutex`, whose contents are not modelled.
#[verifier::external_type_specification]
#[verifier::external_body]
#[verifier::reject_recursive_types(T)]
pub struct ExMutex<T: ?Sized>(Mutex<T>);

/// `std::sync::MutexGuard`, the proof that a lock is held.
#[verifier::external_type_specification]
#[verifier::external_body]
#[verifier::reject_recursive_types(T)]
pub struct ExMutexGuard<'a, T: ?Sized + 'a>(MutexGuard<'a, T>);

/// `std::sync::PoisonError`, returned when a lock holder panicked.
#[verifier::external_type_specification]
#[verifier::external_body]
#[verifier::reject_recursive_types(T)]
pub struct ExPoisonError<T>(PoisonError<T>);

/// Calls `std::sync::Mutex::lock` on the shared state. The outcome depends on
/// the other threads that hold the lock, so nothing is stated of it.
#[verifier::external_body]
fn lock_shared_state(shared: &Arc<Mutex<DaemonState>>) -> LockResult<MutexGuard<'_, DaemonState>> {
    shared.lock()
}

/// Writes through a held guard (`DerefMut` of `std::sync::MutexGuard`). The
/// guarded value is not modelled, so nothing is stated of it.
#[verifier::external_body]
fn write_guarded_state(guard: &mut MutexGuard<'_, DaemonState>, new_state: DaemonState) {
    **guard = new_state;
}

/// Stores `new_state` in the state shared with the D-Bus interface. A poisoned
/// lock is left alone: the state is then not updated.
pub fn update_shared_state(shared: &Arc<Mutex<DaemonState>>, new_state: DaemonState) {
    match lock_shared_state(shared) {
        Ok(mut guard) => write_guarded_state(&mut guard, new_state),
        Err(_) => {},
    }
}

} // verus!

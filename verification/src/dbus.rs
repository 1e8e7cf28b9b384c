//! The D-Bus control interface's decisions: the commands it forwards, the
//! state it publishes for each, and the state's name on the bus.

use vstd::prelude::*;
use crate::daemon::DaemonState;

verus! {

/// Commands sent from D-Bus to the daemon control loop.
#[derive(Debug, Clone, Copy, PartialEq, Eq, Structural)]
pub enum DaemonCommand {
    Enable,
    Disable,
    Quit,
}

/// The name of a daemon state on the bus.
pub open spec fn state_name(s: DaemonState) -> Seq<char> {
    match s {
        DaemonState::Idle => "idle"@,
        DaemonState::Listening => "listening"@,
        DaemonState::Paused => "paused"@,
    }
}

/// The name of a daemon state, as the `State` property and the
/// `StatusChanged` signal carry it.
pub fn state_to_str(s: DaemonState) -> (name: &'static str)
    ensures
        name@ == state_name(s),
{
    match s {
        DaemonState::Idle => "idle",
        DaemonState::Listening => "listening",
        DaemonState::Paused => "paused",
    }
}

/// The state that the D-Bus interface publishes when it receives a command:
/// `Enable` resumes (idle), `Disable` pauses, `Quit` publishes nothing.
pub open spec fn command_target(cmd: DaemonCommand) -> Option<DaemonState> {
    match cmd {
        DaemonCommand::Enable => Some(DaemonState::Idle),
        DaemonCommand::Disable => Some(DaemonState::Paused),
        DaemonCommand::Quit => None,
    }
}

/// The state the D-Bus interface writes to the shared state, and announces in
/// a `StatusChanged` signal, before it forwards `cmd` to the daemon.
pub fn command_target_state(cmd: DaemonCommand) -> (target: Option<DaemonState>)
    ensures
        target == command_target(cmd),
{
    match cmd {
        DaemonCommand::Enable => Some(DaemonState::Idle),
        DaemonCommand::Disable => Some(DaemonState::Paused),
        DaemonCommand::Quit => None,
    }
}

} // verus!

//! Command-interface decisions: which caller may act, and what each
//! command does to the run state. Transport and message rendering live in
//! the embedding process; the authorization rule and every state change
//! are decided here.

use vstd::prelude::*;

use crate::state::{AppMode, AppState, ModeChangeOutcome};

verus! {

/// The commands the remote interface accepts.
#[derive(Clone, Copy, PartialEq, Eq, Structural, Debug)]
pub enum Command {
    /// Greet and point at the useful commands.
    Start,
    /// Show statistics.
    Stats,
    /// Manually trigger a scan and reclaim.
    Sweep,
    /// Show recent event history.
    Log,
    /// Switch between demo and real modes.
    Mode,
    /// Show help information.
    Help,
    /// Information about self-hosting.
    Host,
    /// Check system health.
    Health,
}

/// Whether a caller may use the interface.
#[derive(Clone, Copy, PartialEq, Eq, Structural, Debug)]
pub enum AuthDecision {
    /// The caller is the registered administrator, or the process runs in
    /// demo mode, where nobody is blocked.
    Allowed,
    /// Nobody is registered yet: the caller becomes the administrator.
    AllowedNewAdmin,
    /// The process is locked to another administrator.
    Denied,
}

/// The authorization rule. In real mode the interface is locked to the
/// registered administrator, and the first caller becomes that
/// administrator. In demo mode nobody is blocked, but the first caller is
/// still registered.
pub fn authorize(mode: AppMode, admin: Option<u64>, user_id: u64) -> (d: AuthDecision)
    ensures
        admin is None ==> d == AuthDecision::AllowedNewAdmin,
        admin matches Some(a) && (mode == AppMode::Demo || a == user_id) ==> d
            == AuthDecision::Allowed,
        admin matches Some(a) && mode == AppMode::Real && a != user_id ==> d
            == AuthDecision::Denied,
{
    match admin {
        None => AuthDecision::AllowedNewAdmin,
        Some(a) => {
            if matches!(mode, AppMode::Demo) {
                AuthDecision::Allowed
            } else if a == user_id {
                AuthDecision::Allowed
            } else {
                AuthDecision::Denied
            }
        },
    }
}

/// What applying a command did to the run state.
#[derive(Clone, Copy, PartialEq, Eq, Structural, Debug)]
pub enum CommandOutcome {
    /// A read-only command; nothing changed.
    NoChange,
    /// A sweep was scheduled for the next tick.
    SweepScheduled,
    /// The mode was toggled to this one.
    ModeSwitched { new_mode: AppMode },
    /// The process is locked to demo mode; the mode request was rejected.
    ModeLocked,
}

/// The mode the toggle command aims at: the opposite of the current one.
pub open spec fn spec_toggled_mode(mode: AppMode) -> AppMode {
    match mode {
        AppMode::Demo => AppMode::Real,
        AppMode::Real => AppMode::Demo,
    }
}

/// Apply one command to the run state. Only two commands change anything:
/// a sweep request sets the force flag, and a mode request toggles the
/// mode unless the process is locked to demo mode, in which case it is
/// rejected and nothing changes. Every other command reads only.
pub fn apply_command(cmd: Command, state: &mut AppState) -> (outcome: CommandOutcome)
    ensures
        cmd == Command::Sweep ==> outcome == CommandOutcome::SweepScheduled && *final(state) == (
        AppState { force_run: true, ..*old(state) }),
        cmd == Command::Mode && old(state).demo_only ==> outcome == CommandOutcome::ModeLocked
            && *final(state) == *old(state),
        cmd == Command::Mode && !old(state).demo_only ==> outcome == (CommandOutcome::ModeSwitched {
            new_mode: spec_toggled_mode(old(state).mode),
        }) && *final(state) == (AppState {
            mode: spec_toggled_mode(old(state).mode),
            ..*old(state)
        }),
        cmd != Command::Sweep && cmd != Command::Mode ==> outcome == CommandOutcome::NoChange
            && *final(state) == *old(state),
{
    match cmd {
        Command::Sweep => {
            state.request_force_run();
            CommandOutcome::SweepScheduled
        },
        Command::Mode => {
            let target = match state.mode {
                AppMode::Demo => AppMode::Real,
                AppMode::Real => AppMode::Demo,
            };
            match state.request_mode_change(target) {
                ModeChangeOutcome::Accepted => CommandOutcome::ModeSwitched { new_mode: target },
                ModeChangeOutcome::RejectedLocked => CommandOutcome::ModeLocked,
            }
        },
        _ => CommandOutcome::NoChange,
    }
}

} // verus!

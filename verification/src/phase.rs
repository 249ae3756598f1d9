//! The coarse lifecycle of the application process.
//!
//! The framework drives every transition but one: when the setup hook
//! finishes, its result decides whether the process enters the running
//! event loop or terminates abnormally. That decision is this module's.

use vstd::prelude::*;

use crate::SetupError;
use crate::setup::spec_setup_result;

verus! {

/// The phases the process passes through, in order. The event loop is
/// reached only through a setup hook that succeeded.
#[derive(Clone, Copy, Debug, PartialEq, Eq, Structural)]
pub enum AppPhase {
    /// The process has not run the framework yet.
    NotStarted,
    /// The framework is initializing itself.
    Initializing,
    /// The one-time setup hook is running.
    SetupRunning,
    /// The framework's blocking event loop is running; it holds the
    /// process until exit.
    EventLoopRunning,
    /// The process ended, normally or through a fatal startup error.
    Terminated,
}

/// The transitions the lifecycle allows: straight through initialization
/// and setup, with termination as the only exit, and no way back.
pub open spec fn phase_steps_to(from: AppPhase, to: AppPhase) -> bool {
    match from {
        AppPhase::NotStarted => to is Initializing,
        AppPhase::Initializing => to is SetupRunning || to is Terminated,
        AppPhase::SetupRunning => to is EventLoopRunning || to is Terminated,
        AppPhase::EventLoopRunning => to is Terminated,
        AppPhase::Terminated => false,
    }
}

/// The phase the setup hook's result sends the process to.
pub open spec fn spec_phase_after_setup(setup: Result<(), SetupError>) -> AppPhase {
    if setup is Ok {
        AppPhase::EventLoopRunning
    } else {
        AppPhase::Terminated
    }
}

/// The phase the process enters once the setup hook has finished: the
/// running event loop on success, abnormal termination on failure.
pub fn phase_after_setup(setup: &Result<(), SetupError>) -> (p: AppPhase)
    ensures
        p == spec_phase_after_setup(*setup),
        phase_steps_to(AppPhase::SetupRunning, p),
{
    match setup {
        Ok(_) => AppPhase::EventLoopRunning,
        Err(_) => AppPhase::Terminated,
    }
}

/// An embedded icon that does not decode is fatal: setup reports failure,
/// and the process terminates without ever reaching the running event
/// loop.
pub proof fn lemma_invalid_icon_never_reaches_event_loop()
    ensures
        spec_setup_result(false) is Err,
        spec_phase_after_setup(spec_setup_result(false)) is Terminated,
        !(spec_phase_after_setup(spec_setup_result(false)) is EventLoopRunning),
{
}

} // verus!

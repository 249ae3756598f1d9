//! The setup hook as a state machine.
//!
//! The framework invokes the hook once, after its own initialization. The
//! hook decodes the embedded icon bytes, then walks the windows open at that
//! moment and attempts to set the icon on each one. Only a failed decode is
//! fatal; a window that refuses its icon is skipped silently and the
//! remaining windows still get their attempt.
//!
//! [`SetupDriver`] holds the hook's decisions: the host performs each
//! [`SetupAction`] against the framework and answers with what happened,
//! and the driver says what comes next. [`run_setup`] runs the whole hook
//! in one call, the framework's answers given as values.

use vstd::prelude::*;

use crate::SetupError;

verus! {

/// What one per-window icon assignment attempt came to.
#[derive(Clone, Copy, Debug, PartialEq, Eq, Structural)]
pub enum AssignOutcome {
    /// The window accepted the icon.
    Assigned,
    /// The window refused the icon; setup went on regardless.
    Failed,
}

/// Where the setup hook stands.
#[derive(Clone, Copy, Debug, PartialEq, Eq, Structural)]
pub enum DriverState {
    /// The embedded icon bytes have not been decoded yet.
    AwaitingDecode,
    /// The icon decoded; the open windows are being assigned it, in order.
    Assigning,
    /// Every open window got its assignment attempt; setup succeeded.
    Succeeded,
    /// The icon bytes did not decode; setup failed before any assignment.
    Failed,
}

/// The next thing the host must do against the framework.
#[derive(Clone, Copy, Debug, PartialEq, Eq, Structural)]
pub enum SetupAction {
    /// Decode the embedded icon bytes.
    DecodeIcon,
    /// Attempt to set the icon on the window with this index.
    AssignIcon(usize),
    /// Tell the framework that setup succeeded.
    ReportSuccess,
    /// Tell the framework that setup failed.
    ReportFailure,
}

/// What the framework answered to the last action.
#[derive(Clone, Copy, Debug, PartialEq, Eq, Structural)]
pub enum SetupEvent {
    /// Whether the embedded icon bytes decoded into an image.
    IconDecoded(bool),
    /// Whether one window accepted its icon.
    IconAssigned(bool),
}

/// Drives the setup hook over the windows open when the hook began.
#[derive(Clone, Copy, Debug, PartialEq, Eq, Structural)]
pub struct SetupDriver {
    /// How many windows were open when the hook began.
    pub total: usize,
    /// Assignment attempts made so far.
    pub attempted: usize,
    /// Where the hook stands.
    pub state: DriverState,
}

/// The driver a setup hook starts from, for `total` open windows.
pub open spec fn spec_init(total: usize) -> SetupDriver {
    SetupDriver { total, attempted: 0, state: DriverState::AwaitingDecode }
}

/// The action a driver asks its host to perform.
pub open spec fn spec_action(d: SetupDriver) -> SetupAction {
    match d.state {
        DriverState::AwaitingDecode => SetupAction::DecodeIcon,
        DriverState::Assigning => SetupAction::AssignIcon(d.attempted),
        DriverState::Succeeded => SetupAction::ReportSuccess,
        DriverState::Failed => SetupAction::ReportFailure,
    }
}

/// One step of the setup protocol: how the driver changes on an answer.
///
/// An assignment answer moves the hook to the next window whether or not
/// the window accepted the icon: only the count of attempts matters.
pub open spec fn spec_step(d: SetupDriver, ev: SetupEvent) -> SetupDriver {
    match ev {
        SetupEvent::IconDecoded(ok) => {
            if !ok {
                SetupDriver { total: d.total, attempted: d.attempted, state: DriverState::Failed }
            } else if d.total == 0 {
                SetupDriver { total: d.total, attempted: d.attempted, state: DriverState::Succeeded }
            } else {
                SetupDriver { total: d.total, attempted: d.attempted, state: DriverState::Assigning }
            }
        }
        SetupEvent::IconAssigned(_) => {
            let n = ((d.attempted + 1) as usize);
            if n == d.total {
                SetupDriver { total: d.total, attempted: n, state: DriverState::Succeeded }
            } else {
                SetupDriver { total: d.total, attempted: n, state: DriverState::Assigning }
            }
        }
    }
}

/// Whether an answer is one the driver's state can take at all: the decode
/// answer comes only before decoding is settled, an assignment answer only
/// while windows are being assigned.
pub open spec fn event_fits(d: SetupDriver, ev: SetupEvent) -> bool {
    match ev {
        SetupEvent::IconDecoded(_) => d.state is AwaitingDecode,
        SetupEvent::IconAssigned(_) => d.state is Assigning,
    }
}

impl SetupDriver {
    /// Internal consistency of a driver: attempts never pass the window
    /// count, none is made before the decode settles or after a failed
    /// decode, and success means every window got its attempt.
    pub open spec fn inv(self) -> bool {
        &&& self.attempted <= self.total
        &&& (self.state is AwaitingDecode ==> self.attempted == 0)
        &&& (self.state is Failed ==> self.attempted == 0)
        &&& (self.state is Succeeded ==> self.attempted == self.total)
        &&& (self.state is Assigning ==> self.attempted < self.total)
    }

    /// A fresh driver for a setup hook that found `total` open windows.
    pub fn new(total: usize) -> (d: SetupDriver)
        ensures
            d == spec_init(total),
            d.inv(),
    {
        SetupDriver { total, attempted: 0, state: DriverState::AwaitingDecode }
    }

    /// The action the host must perform next.
    pub fn next_action(&self) -> (a: SetupAction)
        ensures
            a == spec_action(*self),
    {
        match self.state {
            DriverState::AwaitingDecode => SetupAction::DecodeIcon,
            DriverState::Assigning => SetupAction::AssignIcon(self.attempted),
            DriverState::Succeeded => SetupAction::ReportSuccess,
            DriverState::Failed => SetupAction::ReportFailure,
        }
    }

    /// Record whether the embedded icon bytes decoded.
    pub fn on_decoded(&mut self, ok: bool)
        requires
            old(self).inv(),
            old(self).state is AwaitingDecode,
        ensures
            *final(self) == spec_step(*old(self), SetupEvent::IconDecoded(ok)),
            final(self).inv(),
    {
        if !ok {
            self.state = DriverState::Failed;
        } else if self.total == 0 {
            self.state = DriverState::Succeeded;
        } else {
            self.state = DriverState::Assigning;
        }
    }

    /// Record one window's answer to its icon assignment. The hook moves to
    /// the next window whether or not this one accepted the icon.
    pub fn on_assigned(&mut self, accepted: bool)
        requires
            old(self).inv(),
            old(self).state is Assigning,
        ensures
            *final(self) == spec_step(*old(self), SetupEvent::IconAssigned(accepted)),
            final(self).inv(),
    {
        self.attempted = self.attempted + 1;
        if self.attempted == self.total {
            self.state = DriverState::Succeeded;
        }
    }
}

/// The outcome recorded for one window, given whether it accepted the icon.
pub open spec fn spec_outcome(accepted: bool) -> AssignOutcome {
    if accepted {
        AssignOutcome::Assigned
    } else {
        AssignOutcome::Failed
    }
}

/// How many icon assignments the setup hook attempts for `windows` open
/// windows: one per window when the icon decoded, none otherwise.
pub open spec fn spec_attempts(icon_ok: bool, windows: nat) -> nat {
    if icon_ok {
        windows
    } else {
        0
    }
}

/// Whether the setup hook succeeds: only the icon decode decides; no
/// window's answer does.
pub open spec fn spec_setup_result(icon_ok: bool) -> Result<(), SetupError> {
    if icon_ok {
        Ok(())
    } else {
        Err(SetupError::InvalidIcon)
    }
}

/// The per-window outcomes the setup hook records, in window order.
pub open spec fn spec_outcomes(icon_ok: bool, answers: Seq<bool>) -> Seq<AssignOutcome> {
    if icon_ok {
        answers.map(|i: int, a: bool| spec_outcome(a))
    } else {
        Seq::<AssignOutcome>::empty()
    }
}

/// What one whole run of the setup hook came to.
pub struct SetupReport {
    /// Assignment attempts made.
    pub attempts: usize,
    /// The outcome recorded for each window, in window order.
    pub outcomes: Vec<AssignOutcome>,
    /// Success, or the fatal decode failure.
    pub result: Result<(), SetupError>,
}

/// The whole setup hook in one call, the framework's answers given as
/// values: whether the embedded icon bytes decoded, and, for each window
/// open at setup time, whether that window accepted the icon.
///
/// When the icon decoded, every window gets exactly one assignment attempt,
/// in order, whatever the other windows answered, and setup succeeds. When
/// it did not, setup fails with no attempt made.
pub fn run_setup(icon_ok: bool, answers: &Vec<bool>) -> (r: SetupReport)
    ensures
        r.result == spec_setup_result(icon_ok),
        r.attempts == spec_attempts(icon_ok, answers@.len()),
        r.outcomes@ == spec_outcomes(icon_ok, answers@),
{
    let total = answers.len();
    let mut driver = SetupDriver::new(total);
    let mut outcomes: Vec<AssignOutcome> = Vec::new();
    driver.on_decoded(icon_ok);
    if !icon_ok {
        proof {
            assert(outcomes@ =~= spec_outcomes(false, answers@));
        }
        return SetupReport { attempts: 0, outcomes, result: Err(SetupError::InvalidIcon) };
    }
    let mut i: usize = 0;
    proof {
        assert(outcomes@ =~= spec_outcomes(true, answers@.take(0)));
    }
    while i < total
        invariant
            total == answers@.len(),
            i <= total,
            driver.inv(),
            driver.total == total,
            driver.attempted == i,
            i < total ==> driver.state is Assigning,
            i == total ==> driver.state is Succeeded,
            outcomes@ == spec_outcomes(true, answers@.take(i as int)),
        decreases total - i,
    {
        let accepted = answers[i];
        driver.on_assigned(accepted);
        if accepted {
            outcomes.push(AssignOutcome::Assigned);
        } else {
            outcomes.push(AssignOutcome::Failed);
        }
        i = i + 1;
        proof {
            assert(outcomes@ =~= spec_outcomes(true, answers@.take(i as int)));
        }
    }
    proof {
        assert(answers@.take(total as int) =~= answers@);
    }
    SetupReport { attempts: i, outcomes, result: Ok(()) }
}

/// Whether a sequence of framework answers can play out from driver `d`:
/// each answer in turn fits the state the previous answers led to.
pub open spec fn valid_trace(d: SetupDriver, t: Seq<SetupEvent>) -> bool
    decreases t.len(),
{
    t.len() == 0 || (event_fits(d, t[0]) && valid_trace(spec_step(d, t[0]), t.drop_first()))
}

/// The driver that a sequence of framework answers leads to from `d`.
pub open spec fn run_trace(d: SetupDriver, t: Seq<SetupEvent>) -> SetupDriver
    decreases t.len(),
{
    if t.len() == 0 {
        d
    } else {
        run_trace(spec_step(d, t[0]), t.drop_first())
    }
}

/// How many of the states a run passes through — the starting one included —
/// ask the host to decode the icon.
pub open spec fn decode_requests(d: SetupDriver, t: Seq<SetupEvent>) -> nat
    decreases t.len(),
{
    let here: nat = if spec_action(d) is DecodeIcon {
        1
    } else {
        0
    };
    if t.len() == 0 {
        here
    } else {
        here + decode_requests(spec_step(d, t[0]), t.drop_first())
    }
}

/// How many assignment answers a trace holds: one per attempt performed.
pub open spec fn assign_events(t: Seq<SetupEvent>) -> nat
    decreases t.len(),
{
    if t.len() == 0 {
        0
    } else {
        (if t[0] is IconAssigned {
            1nat
        } else {
            0nat
        }) + assign_events(t.drop_first())
    }
}

/// An answer that fits the driver's state keeps the driver's invariant.
pub proof fn lemma_step_preserves_inv(d: SetupDriver, ev: SetupEvent)
    requires
        d.inv(),
        event_fits(d, ev),
    ensures
        spec_step(d, ev).inv(),
{
}

/// Once any answer is in, the hook is past awaiting the icon decode and
/// never returns to it.
pub proof fn lemma_never_awaits_decode_again(d: SetupDriver, ev: SetupEvent)
    requires
        event_fits(d, ev),
    ensures
        !(spec_step(d, ev).state is AwaitingDecode),
{
}

/// A run that does not start awaiting the decode never asks for one.
proof fn lemma_no_decode_requests_after(d: SetupDriver, t: Seq<SetupEvent>)
    requires
        valid_trace(d, t),
        !(d.state is AwaitingDecode),
    ensures
        decode_requests(d, t) == 0,
    decreases t.len(),
{
    if t.len() > 0 {
        lemma_never_awaits_decode_again(d, t[0]);
        lemma_no_decode_requests_after(spec_step(d, t[0]), t.drop_first());
    }
}

/// The setup hook asks for the icon decode exactly once per run: in its
/// starting state, before any window is touched, and never again once the
/// framework has answered.
pub proof fn lemma_decode_requested_once(total: usize, t: Seq<SetupEvent>)
    requires
        valid_trace(spec_init(total), t),
    ensures
        decode_requests(spec_init(total), t) == 1,
{
    if t.len() > 0 {
        lemma_never_awaits_decode_again(spec_init(total), t[0]);
        lemma_no_decode_requests_after(spec_step(spec_init(total), t[0]), t.drop_first());
    }
}

/// A run's attempt count grows by exactly the assignment answers it takes
/// in, and the window count never changes.
pub proof fn lemma_trace_counts_attempts(d: SetupDriver, t: Seq<SetupEvent>)
    requires
        d.inv(),
        valid_trace(d, t),
    ensures
        run_trace(d, t).inv(),
        run_trace(d, t).total == d.total,
        run_trace(d, t).attempted == d.attempted + assign_events(t),
    decreases t.len(),
{
    if t.len() > 0 {
        lemma_step_preserves_inv(d, t[0]);
        lemma_trace_counts_attempts(spec_step(d, t[0]), t.drop_first());
    }
}

/// For N windows open at setup time, a run that ends in success made
/// exactly N assignment attempts — one per window, whatever each window
/// answered.
pub proof fn lemma_success_assigns_each_window_once(total: usize, t: Seq<SetupEvent>)
    requires
        valid_trace(spec_init(total), t),
        run_trace(spec_init(total), t).state is Succeeded,
    ensures
        assign_events(t) == total,
{
    lemma_trace_counts_attempts(spec_init(total), t);
}

/// A window that refuses its icon drives the hook forward exactly as one
/// that accepts it: a single failed assignment never cuts the remaining
/// attempts short.
pub proof fn lemma_assign_failure_not_fatal(d: SetupDriver)
    ensures
        spec_step(d, SetupEvent::IconAssigned(false)) == spec_step(
            d,
            SetupEvent::IconAssigned(true),
        ),
{
}

/// An icon that does not decode ends setup at once: the run stops failed,
/// no assignment was attempted, and no further framework answer fits.
pub proof fn lemma_invalid_icon_stops_setup(total: usize, t: Seq<SetupEvent>)
    requires
        valid_trace(spec_init(total), t),
        t.len() > 0,
        t[0] == SetupEvent::IconDecoded(false),
    ensures
        t.len() == 1,
        run_trace(spec_init(total), t).state is Failed,
        assign_events(t) == 0,
{
    let after = spec_step(spec_init(total), t[0]);
    assert(after.state is Failed);
    let rest = t.drop_first();
    assert(valid_trace(after, rest));
    if rest.len() > 0 {
        assert(event_fits(after, rest[0]) && valid_trace(spec_step(after, rest[0]), rest.drop_first()));
        assert(false);
    }
    assert(run_trace(spec_init(total), t) == run_trace(after, rest));
    assert(run_trace(after, rest) == after);
    assert(assign_events(rest) == 0);
    assert(assign_events(t) == assign_events(rest));
}

/// Running the setup hook again with the same valid icon and the same zero
/// open windows is a no-op both times: no assignment attempt, success, and
/// the same (empty) record of outcomes from each run.
pub proof fn lemma_setup_idempotent_without_windows(first: Seq<bool>, second: Seq<bool>)
    requires
        first.len() == 0,
        second.len() == 0,
    ensures
        spec_attempts(true, first.len()) == 0,
        spec_attempts(true, second.len()) == 0,
        spec_setup_result(true) is Ok,
        spec_outcomes(true, first) == spec_outcomes(true, second),
{
    assert(spec_outcomes(true, first) =~= spec_outcomes(true, second));
}

} // verus!

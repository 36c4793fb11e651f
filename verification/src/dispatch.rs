//! Manager acquisition tracking and the dispatcher's decision logic.
//!
//! One command resolves to one outcome.  An outcome that touches the
//! hardware first acquires exclusive access to the device manager; an
//! acquisition that finds another instance running is a soft condition,
//! not an error.  Acquisition is tracked by a small state machine whose valid traces
//! release the manager exactly once per successful acquisition, whatever
//! the apply step did.

use vstd::prelude::*;
use crate::cli::OutputType;

verus! {

/// What an attempt to acquire the device manager reported.
#[derive(Clone, Copy, Debug, PartialEq, Eq, Structural)]
pub enum AcquireOutcome {
    /// This invocation now owns the manager.
    Acquired,
    /// Another instance already owns it.
    Busy,
    /// The manager could not be created for any other reason.
    Failed,
}

/// What the dispatcher does after the acquisition attempt.
#[derive(Clone, Copy, Debug, PartialEq, Eq, Structural)]
pub enum Decision {
    /// Perform the outcome's manager action, then release.
    Proceed,
    /// Another instance is running: print a notice and succeed without
    /// touching the manager.
    SoftBusy,
    /// Acquisition failed hard: report the error.
    HardFail,
}

/// The single manager action an outcome calls for.
#[derive(Clone, Copy, Debug, PartialEq, Eq, Structural)]
pub enum ManagerAction {
    /// Hand the built profile to the manager.
    ApplyProfile,
    /// Hand the custom effect program to the manager.
    ApplyCustom,
}

/// Whether an outcome requires exclusive access to the device manager.
/// Only applying a profile or a custom effect does; `Exit` never touches
/// the hardware.
pub open spec fn spec_needs_manager(o: OutputType) -> bool {
    o is Profile || o is Custom
}

/// Executable query for [`spec_needs_manager`].
pub fn needs_manager(o: &OutputType) -> (b: bool)
    ensures
        b == spec_needs_manager(*o),
{
    matches!(o, OutputType::Profile(_) | OutputType::Custom(_))
}

/// The decision the acquisition report dictates.
pub open spec fn spec_decide(acq: AcquireOutcome) -> Decision {
    match acq {
        AcquireOutcome::Acquired => Decision::Proceed,
        AcquireOutcome::Busy => Decision::SoftBusy,
        AcquireOutcome::Failed => Decision::HardFail,
    }
}

/// Decides how to go on after acquiring for an outcome that needs the
/// manager: proceed when acquired, succeed quietly when another instance
/// runs, fail hard otherwise.
pub fn decide(o: &OutputType, acq: AcquireOutcome) -> (d: Decision)
    requires
        spec_needs_manager(*o),
    ensures
        d == spec_decide(acq),
{
    match acq {
        AcquireOutcome::Acquired => Decision::Proceed,
        AcquireOutcome::Busy => Decision::SoftBusy,
        AcquireOutcome::Failed => Decision::HardFail,
    }
}

/// The manager action an outcome calls for.
pub fn action_for(o: &OutputType) -> (a: ManagerAction)
    requires
        spec_needs_manager(*o),
    ensures
        *o is Profile <==> a is ApplyProfile,
        *o is Custom <==> a is ApplyCustom,
{
    match o {
        OutputType::Profile(_) => ManagerAction::ApplyProfile,
        OutputType::Custom(_) => ManagerAction::ApplyCustom,
        OutputType::Exit => {
            proof {
                assert(false);
            }
            ManagerAction::ApplyProfile
        },
    }
}

/// The exit status of the process for a decision that stopped short of a
/// manager action.  A soft-busy stop is a success; a hard failure is not.
pub open spec fn spec_decision_exit_code(d: Decision) -> i32 {
    match d {
        Decision::Proceed => 0,
        Decision::SoftBusy => 0,
        Decision::HardFail => 1,
    }
}

/// Executable query for [`spec_decision_exit_code`].
pub fn decision_exit_code(d: &Decision) -> (c: i32)
    ensures
        c == spec_decision_exit_code(*d),
{
    match d {
        Decision::HardFail => 1,
        _ => 0,
    }
}

/// Exit status once a manager action ran: success exactly when the action
/// succeeded.
pub fn apply_exit_code(applied_ok: bool) -> (c: i32)
    ensures
        applied_ok <==> c == 0,
        !applied_ok <==> c == 1,
{
    if applied_ok {
        0
    } else {
        1
    }
}

/// Exit status for an outcome that needs no manager: there is nothing
/// left to do, so the command succeeds.
pub fn no_manager_exit_code(o: &OutputType) -> (c: i32)
    requires
        !spec_needs_manager(*o),
    ensures
        c == 0,
{
    0
}

/// The states of the acquisition tracker.
#[derive(Clone, Copy, Debug, PartialEq, Eq, Structural)]
pub enum GateState {
    /// No acquisition has been attempted.
    NotAttempted,
    /// This invocation owns the manager.
    Acquired,
    /// Another instance owns the manager; nothing more may happen.
    Busy,
    /// Acquisition failed hard; nothing more may happen.
    Failed,
    /// The manager action ran (successfully or not); release is owed.
    Applied,
    /// The manager was released; nothing further may happen.
    Released,
}

/// The events the acquisition tracker reacts to.
#[derive(Clone, Copy, Debug, PartialEq, Eq, Structural)]
pub enum GateEvent {
    /// Acquisition succeeded.
    AcquireOk,
    /// Another instance already owns the manager.
    AcquireBusy,
    /// Acquisition failed for any other reason.
    AcquireFailed,
    /// The manager action ran and succeeded.
    ApplyOk,
    /// The manager action ran and failed.
    ApplyFailed,
    /// The manager was released.
    Release,
}

/// The tracker's transition relation.  Acquisition happens at most once;
/// only an owned manager may be used or released; the released, busy and
/// failed states are final.
pub open spec fn gate_step(s: GateState, e: GateEvent) -> Option<GateState> {
    match (s, e) {
        (GateState::NotAttempted, GateEvent::AcquireOk) => Some(GateState::Acquired),
        (GateState::NotAttempted, GateEvent::AcquireBusy) => Some(GateState::Busy),
        (GateState::NotAttempted, GateEvent::AcquireFailed) => Some(GateState::Failed),
        (GateState::Acquired, GateEvent::ApplyOk) => Some(GateState::Applied),
        (GateState::Acquired, GateEvent::ApplyFailed) => Some(GateState::Applied),
        (GateState::Acquired, GateEvent::Release) => Some(GateState::Released),
        (GateState::Applied, GateEvent::Release) => Some(GateState::Released),
        _ => None,
    }
}

/// Runs a trace of events from `s`; `None` as soon as any transition is
/// invalid.
pub open spec fn gate_run(s: GateState, evs: Seq<GateEvent>) -> Option<GateState>
    decreases evs.len(),
{
    if evs.len() == 0 {
        Some(s)
    } else {
        match gate_step(s, evs[0]) {
            Some(s2) => gate_run(s2, evs.drop_first()),
            None => None,
        }
    }
}

/// How many release events a trace holds.
pub open spec fn count_releases(evs: Seq<GateEvent>) -> nat
    decreases evs.len(),
{
    if evs.len() == 0 {
        0
    } else {
        count_releases(evs.drop_first()) + (if evs[0] is Release {
            1nat
        } else {
            0nat
        })
    }
}

/// The acquisition tracker, kept at run time.  Drive it with [`Gate::step`]
/// as the manager is acquired, used and released; the transition relation
/// refuses every out-of-protocol move.
pub struct Gate {
    state: GateState,
}

impl Gate {
    /// The tracker's current state.
    pub closed spec fn spec_state(self) -> GateState {
        self.state
    }

    /// A fresh tracker: no acquisition attempted yet.
    pub fn new() -> (g: Gate)
        ensures
            g.spec_state() is NotAttempted,
    {
        Gate { state: GateState::NotAttempted }
    }

    /// Executable query for [`Gate::spec_state`].
    pub fn current(&self) -> (s: GateState)
        ensures
            s == self.spec_state(),
    {
        self.state
    }

    /// Feeds one event to the tracker.  A valid transition moves the state
    /// and reports `true`; an out-of-protocol event leaves the state
    /// unchanged and reports `false`.
    pub fn step(&mut self, e: GateEvent) -> (ok: bool)
        ensures
            match gate_step(old(self).spec_state(), e) {
                Some(s2) => ok && final(self).spec_state() == s2,
                None => !ok && final(self).spec_state() == old(self).spec_state(),
            },
    {
        let next = match (self.state, e) {
            (GateState::NotAttempted, GateEvent::AcquireOk) => Some(GateState::Acquired),
            (GateState::NotAttempted, GateEvent::AcquireBusy) => Some(GateState::Busy),
            (GateState::NotAttempted, GateEvent::AcquireFailed) => Some(GateState::Failed),
            (GateState::Acquired, GateEvent::ApplyOk) => Some(GateState::Applied),
            (GateState::Acquired, GateEvent::ApplyFailed) => Some(GateState::Applied),
            (GateState::Acquired, GateEvent::Release) => Some(GateState::Released),
            (GateState::Applied, GateEvent::Release) => Some(GateState::Released),
            _ => None,
        };
        match next {
            Some(s2) => {
                self.state = s2;
                true
            },
            None => false,
        }
    }
}

/// The manager is released exactly once per successful acquisition: a
/// valid trace holds at most one release event, it holds one exactly when
/// it ends released, and this is independent of whether the apply step
/// succeeded, failed, or never ran.  A tracker that is already released
/// accepts no further event at all.
pub proof fn lemma_release_exactly_once(s: GateState, evs: Seq<GateEvent>, fin: GateState)
    requires
        gate_run(s, evs) == Some(fin),
    ensures
        count_releases(evs) <= 1,
        !(s is Released) ==> (count_releases(evs) == 1 <==> fin is Released),
        s is Released ==> evs.len() == 0 && fin == s,
    decreases evs.len(),
{
    if evs.len() == 0 {
    } else {
        let e = evs[0];
        let s2 = gate_step(s, e)->Some_0;
        lemma_release_exactly_once(s2, evs.drop_first(), fin);
    }
}

/// A busy acquisition is terminal: from the busy state no manager action
/// and no release is possible, so the invocation performs no manager
/// action at all.
pub proof fn lemma_busy_is_terminal(evs: Seq<GateEvent>)
    ensures
        gate_run(GateState::Busy, evs) is Some ==> evs.len() == 0,
{
    if evs.len() > 0 {
        assert(gate_step(GateState::Busy, evs[0]) is None);
    }
}

/// If acquisition reports busy while the outcome needs the manager, the
/// dispatcher takes the soft path: the decision is `SoftBusy` and the
/// process exit status is success.
pub proof fn lemma_busy_soft_success(o: OutputType)
    requires
        spec_needs_manager(o),
    ensures
        spec_decide(AcquireOutcome::Busy) is SoftBusy,
        spec_decision_exit_code(spec_decide(AcquireOutcome::Busy)) == 0,
{
}

/// The `Exit` outcome — which the `list` command resolves to — never
/// engages the manager; together with [`no_manager_exit_code`] the
/// invocation always reports success.
pub proof fn lemma_exit_never_acquires()
    ensures
        !spec_needs_manager(OutputType::Exit),
{
}

} // verus!

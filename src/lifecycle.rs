use vstd::prelude::*;

use crate::settings::{ActionType, AutomationSettings};
use crate::strategy::{
    select_strategy, strategy_spec, validate, validation_spec, StartError, Strategy,
};

verus! {

/// What a call of `start` asks the caller to do.
#[derive(Clone, Copy, Debug, PartialEq, Eq)]
pub enum StartOutcome {
    /// A run is still active: nothing more is done, and the call succeeds.
    AlreadyRunning,
    /// The settings are refused: nothing is launched.
    Rejected(StartError),
    /// Launch a new worker with fresh flags that runs this strategy.
    Launch(Strategy),
}

/// The decision of `start`: whether to join a finished worker first, then
/// what to do.
#[derive(Clone, Copy, Debug, PartialEq, Eq)]
pub struct StartStep {
    pub reap: bool,
    pub outcome: StartOutcome,
}

/// The decision of `stop`: whether to raise the cancellation flag, and
/// whether to join a worker.
#[derive(Clone, Copy, Debug, PartialEq, Eq, Structural)]
pub struct StopStep {
    pub cancel: bool,
    pub join: bool,
}

/// The bookkeeping of the engine: whether a worker handle and a cancellation
/// flag are held. The completion flag itself is shared with the worker, and
/// each operation that needs it takes its current value as `done`.
pub struct LifecycleState {
    pub has_unit: bool,
    pub has_cancel: bool,
}

impl LifecycleState {
    /// A run is active when a worker is held and has not marked itself done.
    pub open spec fn running(self, done: bool) -> bool {
        self.has_unit && !done
    }

    /// The idle engine.
    pub open spec fn idle() -> LifecycleState {
        LifecycleState { has_unit: false, has_cancel: false }
    }

    /// The state after `start` and its decision, given the completion flag.
    pub open spec fn start(self, done: bool, s: AutomationSettings) -> (LifecycleState, StartStep) {
        let reap = done && self.has_unit;
        let current = if done {
            LifecycleState::idle()
        } else {
            self
        };
        if current.has_unit {
            (current, StartStep { reap, outcome: StartOutcome::AlreadyRunning })
        } else {
            match validation_spec(s) {
                Err(e) => (current, StartStep { reap, outcome: StartOutcome::Rejected(e) }),
                Ok(interval) => (
                    LifecycleState { has_unit: true, has_cancel: true },
                    StartStep { reap, outcome: StartOutcome::Launch(strategy_spec(s, interval)) },
                ),
            }
        }
    }

    /// The state after `stop` and its decision.
    pub open spec fn stop(self) -> (LifecycleState, StopStep) {
        (LifecycleState::idle(), StopStep { cancel: self.has_cancel, join: self.has_unit })
    }
}

/// The engine's record of its worker.
pub struct Lifecycle {
    has_unit: bool,
    has_cancel: bool,
}

impl View for Lifecycle {
    type V = LifecycleState;

    closed spec fn view(&self) -> LifecycleState {
        LifecycleState { has_unit: self.has_unit, has_cancel: self.has_cancel }
    }
}

impl Lifecycle {
    /// An idle engine.
    pub fn new() -> (r: Lifecycle)
        ensures
            r@ == LifecycleState::idle(),
    {
        Lifecycle { has_unit: false, has_cancel: false }
    }

    /// Starts a run. A worker that has marked itself done is reaped first; a
    /// worker still active makes the call succeed with nothing launched;
    /// otherwise the settings are validated and, if valid, a worker launched.
    pub fn start(&mut self, done: bool, settings: &AutomationSettings) -> (step: StartStep)
        requires
            old(self)@.running(done) || (settings.needs_interval_spec() ==> settings.interval_fits()),
        ensures
            (final(self)@, step) == old(self)@.start(done, *settings),
            step.reap == (done && old(self)@.has_unit),
            old(self)@.running(done) ==> step.outcome == StartOutcome::AlreadyRunning
                && final(self)@ == old(self)@,
            !old(self)@.running(done) ==> match validation_spec(*settings) {
                Err(e) => step.outcome == StartOutcome::Rejected(e) && !final(self)@.has_unit,
                Ok(interval) => step.outcome == StartOutcome::Launch(
                    strategy_spec(*settings, interval),
                ) && final(self)@.running(false),
            },
    {
        let reap = done && self.has_unit;
        if done {
            self.has_unit = false;
            self.has_cancel = false;
        }
        if self.has_unit {
            return StartStep { reap, outcome: StartOutcome::AlreadyRunning };
        }
        match validate(settings) {
            Err(e) => StartStep { reap, outcome: StartOutcome::Rejected(e) },
            Ok(interval) => {
                let strategy = select_strategy(settings, interval);
                self.has_unit = true;
                self.has_cancel = true;
                StartStep { reap, outcome: StartOutcome::Launch(strategy) }
            },
        }
    }

    /// Stops any run: raises its cancellation flag and joins its worker, then
    /// holds neither. Safe when idle.
    pub fn stop(&mut self) -> (step: StopStep)
        ensures
            (final(self)@, step) == old(self)@.stop(),
            final(self)@ == LifecycleState::idle(),
    {
        let step = StopStep { cancel: self.has_cancel, join: self.has_unit };
        self.has_unit = false;
        self.has_cancel = false;
        step
    }

    /// Whether a run is active, given the completion flag: a worker that has
    /// finished but is not yet reaped is not running.
    pub fn is_running(&self, done: bool) -> (r: bool)
        ensures
            r == self@.running(done),
    {
        self.has_unit && !done
    }
}

/// Starting twice in a row while the first run is active launches one worker
/// only: the second call changes nothing, reaps nothing, launches nothing, and
/// the run stays active throughout.
pub proof fn lemma_start_twice_launches_once(
    l: LifecycleState,
    done: bool,
    first: AutomationSettings,
    second: AutomationSettings,
)
    requires
        !(l.start(done, first).1.outcome is Rejected),
    ensures
        l.start(done, first).0.running(false),
        l.start(done, first).0.start(false, second) == (
        l.start(done, first).0,
        StartStep { reap: false, outcome: StartOutcome::AlreadyRunning },
        ),
{
}

/// After `stop`, no run is active, whatever the completion flag and whatever
/// the state before, idle included.
pub proof fn lemma_stop_leaves_idle(l: LifecycleState, done: bool)
    ensures
        !l.stop().0.running(done),
        l.stop().0 == LifecycleState::idle(),
{
}

/// A key-family run without a key is refused with `MissingKey` whatever the
/// interval and the key mode, and leaves the engine without a worker, where no
/// run is active.
pub proof fn lemma_missing_key_refused(l: LifecycleState, done: bool, s: AutomationSettings)
    requires
        s.action_type == ActionType::HoldKey,
        s.hold_key@.len() == 0,
        !l.running(done),
    ensures
        l.start(done, s).1.outcome == StartOutcome::Rejected(StartError::MissingKey),
        !l.start(done, s).0.has_unit,
{
}

} // verus!

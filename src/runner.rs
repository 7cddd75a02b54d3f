use vstd::prelude::*;

use crate::keys::VIRTUAL_KEY;
use crate::settings::MouseButton;
use crate::strategy::{Strategy, KEY_HOLD_POLL_MS};

verus! {

/// One thing that the worker performs, in order, for a tick.
#[derive(Clone, Copy, Debug, PartialEq, Eq, Structural)]
pub enum Command {
    MoveAbs(i32, i32),
    MoveRel(i32, i32),
    Click(MouseButton),
    MouseDown(MouseButton),
    MouseUp(MouseButton),
    KeyDown(VIRTUAL_KEY),
    KeyUp(VIRTUAL_KEY),
    KeyPress(VIRTUAL_KEY),
    SleepMillis(u64),
    SleepMicros(u64),
    /// Set the completion flag.
    MarkDone,
    /// Notify the event sink that the run stopped.
    EmitStopped,
}

/// The commands that end a run, on every exit path.
pub open spec fn finish_ops() -> Seq<Command> {
    seq![Command::MarkDone, Command::EmitStopped]
}

/// Whether commands end with those that end a run.
pub open spec fn ends_with_finish(ops: Seq<Command>) -> bool {
    ops.len() >= 2 && ops[ops.len() - 2] == Command::MarkDone && ops[ops.len() - 1]
        == Command::EmitStopped
}

/// A move to fixed coordinates, where there are any.
pub open spec fn fixed_ops(fixed: Option<(i32, i32)>) -> Seq<Command> {
    match fixed {
        Some((x, y)) => seq![Command::MoveAbs(x, y)],
        None => seq![],
    }
}

/// A relative move, unless it is zero.
pub open spec fn rel_ops(dx: i32, dy: i32) -> Seq<Command> {
    if dx != 0 || dy != 0 {
        seq![Command::MoveRel(dx, dy)]
    } else {
        seq![]
    }
}

/// The one action of a repeating strategy.
pub open spec fn action_ops(strategy: Strategy) -> Seq<Command> {
    match strategy {
        Strategy::ClickRepeat { button, double, fixed, .. } => fixed_ops(fixed) + if double {
            seq![Command::Click(button), Command::Click(button)]
        } else {
            seq![Command::Click(button)]
        },
        Strategy::KeyRepeat { key, .. } => seq![Command::KeyPress(key)],
        _ => seq![],
    }
}

/// The number of actions after which a repeating strategy ends; zero for none
/// and for the hold strategies.
pub open spec fn limit_of(strategy: Strategy) -> u64 {
    match strategy {
        Strategy::ClickRepeat { limit, .. } => limit,
        Strategy::KeyRepeat { limit, .. } => limit,
        _ => 0,
    }
}

/// The pause between two actions of a repeating strategy.
pub open spec fn interval_of(strategy: Strategy) -> u64 {
    match strategy {
        Strategy::ClickRepeat { interval_ms, .. } => interval_ms,
        Strategy::KeyRepeat { interval_ms, .. } => interval_ms,
        _ => 0,
    }
}

/// Whether a strategy repeats an action, as opposed to holding.
pub open spec fn is_repeat(strategy: Strategy) -> bool {
    strategy is ClickRepeat || strategy is KeyRepeat
}

/// The state of one run: its strategy, the actions performed so far (counted
/// where there is a limit), whether the button or key has been pressed, and
/// whether it has ended.
pub struct RunState {
    pub strategy: Strategy,
    pub count: u64,
    pub started: bool,
    pub finished: bool,
}

impl RunState {
    /// A counted run has not reached its limit while it goes on.
    pub open spec fn wf(self) -> bool {
        !self.finished ==> (limit_of(self.strategy) > 0 ==> self.count < limit_of(self.strategy))
    }

    /// A run that has done nothing yet.
    pub open spec fn fresh(strategy: Strategy) -> RunState {
        RunState { strategy, count: 0, started: false, finished: false }
    }

    /// The next state of a run and the commands of one tick, given whether a
    /// stop was requested before it. An ended run stays as it is.
    pub open spec fn step(self, cancelled: bool) -> (RunState, Seq<Command>) {
        if self.finished {
            (self, seq![])
        } else {
            match self.strategy {
                Strategy::KeyHold { key } => if !self.started {
                    (RunState { started: true, ..self }, seq![Command::KeyDown(key)])
                } else if cancelled {
                    (RunState { finished: true, ..self }, seq![Command::KeyUp(key)] + finish_ops())
                } else {
                    (self, seq![Command::SleepMillis(KEY_HOLD_POLL_MS)])
                },
                Strategy::MouseDragHold { button, fixed, dx, dy, sleep_us } => if !self.started {
                    (
                        RunState { started: true, ..self },
                        fixed_ops(fixed) + seq![Command::MouseDown(button)],
                    )
                } else if cancelled {
                    (
                        RunState { finished: true, ..self },
                        seq![Command::MouseUp(button)] + finish_ops(),
                    )
                } else {
                    (self, rel_ops(dx, dy) + seq![Command::SleepMicros(sleep_us)])
                },
                Strategy::ClickRepeat { limit, interval_ms, .. } | Strategy::KeyRepeat {
                    limit,
                    interval_ms,
                    ..
                } => if cancelled {
                    (RunState { finished: true, ..self }, finish_ops())
                } else if limit > 0 && self.count + 1 >= limit {
                    (
                        RunState { finished: true, count: (self.count + 1) as u64, ..self },
                        action_ops(self.strategy) + finish_ops(),
                    )
                } else {
                    let count = if limit > 0 {
                        (self.count + 1) as u64
                    } else {
                        self.count
                    };
                    (
                        RunState { count, ..self },
                        action_ops(self.strategy) + seq![Command::SleepMillis(interval_ms)],
                    )
                },
            }
        }
    }
}

/// One run, ticked by the worker that executes it.
pub struct Runner {
    strategy: Strategy,
    count: u64,
    started: bool,
    finished: bool,
}

impl View for Runner {
    type V = RunState;

    closed spec fn view(&self) -> RunState {
        RunState {
            strategy: self.strategy,
            count: self.count,
            started: self.started,
            finished: self.finished,
        }
    }
}

impl Runner {
    /// Starts a run of a strategy.
    pub fn new(strategy: Strategy) -> (r: Runner)
        ensures
            r@ == RunState::fresh(strategy),
    {
        Runner { strategy, count: 0, started: false, finished: false }
    }

    /// Whether the run has ended.
    pub fn is_finished(&self) -> (r: bool)
        ensures
            r == self@.finished,
    {
        self.finished
    }

    /// Runs one tick: `cancelled` is whether a stop was requested. Returns the
    /// commands to perform, in order; a tick that ends the run ends with the
    /// completion and notification commands, and no other tick holds them.
    pub fn tick(&mut self, cancelled: bool) -> (ops: Vec<Command>)
        requires
            old(self)@.wf(),
            !old(self)@.finished,
        ensures
            final(self)@.wf(),
            (final(self)@, ops@) == old(self)@.step(cancelled),
            final(self)@.finished == ends_with_finish(ops@),
    {
        let mut ops: Vec<Command> = Vec::new();
        match self.strategy {
            Strategy::KeyHold { key } => {
                if !self.started {
                    self.started = true;
                    ops.push(Command::KeyDown(key));
                } else if cancelled {
                    self.finished = true;
                    ops.push(Command::KeyUp(key));
                    ops.push(Command::MarkDone);
                    ops.push(Command::EmitStopped);
                } else {
                    ops.push(Command::SleepMillis(KEY_HOLD_POLL_MS));
                }
            },
            Strategy::MouseDragHold { button, fixed, dx, dy, sleep_us } => {
                if !self.started {
                    self.started = true;
                    if let Some((x, y)) = fixed {
                        ops.push(Command::MoveAbs(x, y));
                    }
                    ops.push(Command::MouseDown(button));
                } else if cancelled {
                    self.finished = true;
                    ops.push(Command::MouseUp(button));
                    ops.push(Command::MarkDone);
                    ops.push(Command::EmitStopped);
                } else {
                    if dx != 0 || dy != 0 {
                        ops.push(Command::MoveRel(dx, dy));
                    }
                    ops.push(Command::SleepMicros(sleep_us));
                }
            },
            Strategy::ClickRepeat { button, double, fixed, limit, interval_ms } => {
                if cancelled {
                    self.finished = true;
                    ops.push(Command::MarkDone);
                    ops.push(Command::EmitStopped);
                } else {
                    if let Some((x, y)) = fixed {
                        ops.push(Command::MoveAbs(x, y));
                    }
                    ops.push(Command::Click(button));
                    if double {
                        ops.push(Command::Click(button));
                    }
                    self.finish_or_sleep(limit, interval_ms, &mut ops);
                }
            },
            Strategy::KeyRepeat { key, limit, interval_ms } => {
                if cancelled {
                    self.finished = true;
                    ops.push(Command::MarkDone);
                    ops.push(Command::EmitStopped);
                } else {
                    ops.push(Command::KeyPress(key));
                    self.finish_or_sleep(limit, interval_ms, &mut ops);
                }
            },
        }
        proof {
            let expected = old(self)@.step(cancelled).1;
            assert(ops@ =~= expected);
            if self.finished {
                assert(ops@[ops@.len() - 1] == Command::EmitStopped);
                assert(ops@[ops@.len() - 2] == Command::MarkDone);
            }
        }
        ops
    }

    /// Counts the action just performed, then ends the run at its limit or
    /// pauses for the interval.
    fn finish_or_sleep(&mut self, limit: u64, interval_ms: u64, ops: &mut Vec<Command>)
        requires
            !old(self).finished,
            limit > 0 ==> old(self).count < limit,
        ensures
            final(self).strategy == old(self).strategy,
            final(self).started == old(self).started,
            limit > 0 && old(self).count + 1 >= limit ==> {
                &&& final(self).finished
                &&& final(self).count == old(self).count + 1
                &&& final(ops)@ == old(ops)@ + finish_ops()
            },
            !(limit > 0 && old(self).count + 1 >= limit) ==> {
                &&& !final(self).finished
                &&& final(self).count == (if limit > 0 {
                    old(self).count + 1
                } else {
                    old(self).count as int
                })
                &&& final(ops)@ == old(ops)@ + seq![Command::SleepMillis(interval_ms)]
            },
    {
        if limit > 0 {
            self.count = self.count + 1;
            if self.count >= limit {
                self.finished = true;
                ops.push(Command::MarkDone);
                ops.push(Command::EmitStopped);
                assert(ops@ =~= old(ops)@ + finish_ops());
                return;
            }
        }
        ops.push(Command::SleepMillis(interval_ms));
        assert(ops@ =~= old(ops)@ + seq![Command::SleepMillis(interval_ms)]);
    }
}

/// The run after `k` ticks during which no stop was requested.
pub open spec fn after_ticks(r: RunState, k: nat) -> RunState
    decreases k,
{
    if k == 0 {
        r
    } else {
        after_ticks(r, (k - 1) as nat).step(false).0
    }
}

/// A repeating run with a limit `n`, never stopped, performs one action on
/// each of its first `n` ticks, pauses after each but the last, and ends by
/// itself on the `n`-th tick with the completion and notification commands.
pub proof fn lemma_counted_run_ends(strategy: Strategy, k: nat)
    requires
        is_repeat(strategy),
        limit_of(strategy) > 0,
        k <= limit_of(strategy),
    ensures
        after_ticks(RunState::fresh(strategy), k).strategy == strategy,
        after_ticks(RunState::fresh(strategy), k).count == k,
        after_ticks(RunState::fresh(strategy), k).finished == (k == limit_of(strategy)),
        k < limit_of(strategy) ==> after_ticks(RunState::fresh(strategy), k).step(false).1
            == action_ops(strategy) + if k + 1 == limit_of(strategy) {
            finish_ops()
        } else {
            seq![Command::SleepMillis(interval_of(strategy))]
        },
    decreases k,
{
    if k > 0 {
        lemma_counted_run_ends(strategy, (k - 1) as nat);
    }
}

} // verus!

use std::time::Duration;
use vstd::prelude::*;

use crate::driver::BacklightError;

verus! {

/// The duration that `Duration::from_millis` makes of `ms` milliseconds.
pub uninterp spec fn duration_of_millis(ms: u64) -> Duration;

/// Calls `Duration::from_millis`. Claimed: the result is the named duration.
#[verifier::external_body]
fn duration_from_millis(ms: u64) -> (d: Duration)
    ensures
        d == duration_of_millis(ms),
{
    Duration::from_millis(ms)
}

/// Timing parameters for a brightness transition.
#[derive(Debug, Clone, Copy)]
pub struct TransitionConfig {
    /// Total time the transition should take.
    pub duration: Duration,
    /// Time to wait between successive brightness updates.
    pub step_interval: Duration,
}

impl Default for TransitionConfig {
    /// A quarter of a second, in steps of 16 ms (about 60 updates a second).
    fn default() -> (r: Self)
        ensures
            r.duration == duration_of_millis(250),
            r.step_interval == duration_of_millis(16),
    {
        TransitionConfig { duration: duration_from_millis(250), step_interval: duration_from_millis(16) }
    }
}

/// A transition that moves at a constant rate from start to target.
#[derive(Debug, Default, Clone, Copy)]
pub struct Linear;

/// What a transition asks of the device, or how it ended.
#[derive(Debug)]
pub enum TransitionAction {
    /// Read the device's maximum brightness.
    ReadMax,
    /// Read the device's current brightness.
    ReadCurrent,
    /// Write the brightness of step `step` of the curve that starts at
    /// `start` (the steps are numbered from 1).
    Write { start: u32, step: u64 },
    /// Wait one step interval.
    Sleep,
    /// The transition is over, with this outcome.
    Finish(Result<(), BacklightError>),
}

/// What the device answered to the last action of a transition.
#[derive(Debug)]
pub enum TransitionEvent {
    /// The answer to [`TransitionAction::ReadMax`].
    MaxRead(Result<u32, BacklightError>),
    /// The answer to [`TransitionAction::ReadCurrent`].
    CurrentRead(Result<u32, BacklightError>),
    /// The answer to [`TransitionAction::Write`].
    Written(Result<(), BacklightError>),
    /// The answer to [`TransitionAction::Sleep`].
    Slept,
}

/// Where a transition stands.
#[derive(Debug, Clone, Copy, PartialEq, Eq, Structural)]
pub enum TransitionPhase {
    /// Waiting for the maximum brightness.
    ReadingMax,
    /// Waiting for the current brightness.
    ReadingCurrent,
    /// Waiting for the write of step `step`.
    Writing { start: u32, step: u64 },
    /// Waiting for the pause after step `step`.
    Sleeping { start: u32, step: u64 },
    /// Over.
    Done,
}

/// The action that a transition in `phase` waits on the answer to.
pub open spec fn pending_action(phase: TransitionPhase) -> TransitionAction {
    match phase {
        TransitionPhase::ReadingMax => TransitionAction::ReadMax,
        TransitionPhase::ReadingCurrent => TransitionAction::ReadCurrent,
        TransitionPhase::Writing { start, step } => TransitionAction::Write { start, step },
        TransitionPhase::Sleeping { .. } => TransitionAction::Sleep,
        TransitionPhase::Done => TransitionAction::Finish(Ok(())),
    }
}

/// The decisions of moving a device's brightness from its current value to
/// `target` in `steps` writes, one step interval apart: the target is
/// checked against the device's maximum, nothing is written when the device
/// is already at the target, the steps are written in order with a pause
/// between two writes (none after the last), and the first failure ends the
/// transition with that failure.
pub struct TransitionRun {
    device: String,
    target: u32,
    steps: u64,
    phase: TransitionPhase,
}

impl TransitionRun {
    #[verifier::type_invariant]
    closed spec fn inv(&self) -> bool {
        &&& self.steps >= 1
        &&& match self.phase {
            TransitionPhase::Writing { step, .. } => 1 <= step <= self.steps,
            TransitionPhase::Sleeping { step, .. } => 1 <= step < self.steps,
            _ => true,
        }
    }

    /// The device whose brightness moves.
    pub closed spec fn device(&self) -> Seq<char> {
        self.device@
    }

    /// The brightness the transition moves to.
    pub closed spec fn target(&self) -> u32 {
        self.target
    }

    /// How many writes the transition takes.
    pub closed spec fn steps(&self) -> u64 {
        self.steps
    }

    /// Where the transition stands.
    pub closed spec fn phase(&self) -> TransitionPhase {
        self.phase
    }

    /// Starts a transition of `device` to `target` in `steps` writes (at least
    /// one); its first action is to read the maximum brightness.
    pub fn new(device: String, target: u32, steps: u64) -> (r: (Self, TransitionAction))
        requires
            steps >= 1,
        ensures
            r.0.device() == device@,
            r.0.target() == target,
            r.0.steps() == steps,
            r.0.phase() == TransitionPhase::ReadingMax,
            r.1 == TransitionAction::ReadMax,
    {
        (TransitionRun { device, target, steps, phase: TransitionPhase::ReadingMax }, TransitionAction::ReadMax)
    }

    /// The brightness the transition moves to.
    pub fn target_brightness(&self) -> (r: u32)
        ensures
            r == self.target(),
    {
        self.target
    }

    /// How many writes the transition takes.
    pub fn step_count(&self) -> (r: u64)
        ensures
            r == self.steps(),
            r >= 1,
    {
        proof {
            use_type_invariant(self);
        }
        self.steps
    }

    /// Takes the answer to the last action and gives the next one. An answer
    /// that the transition is not waiting for changes nothing and the pending
    /// action is asked again.
    pub fn advance(&mut self, event: TransitionEvent) -> (action: TransitionAction)
        ensures
            final(self).device() == old(self).device(),
            final(self).target() == old(self).target(),
            final(self).steps() == old(self).steps(),
            transition_step(old(self).device(), old(self).target(), old(self).steps(), old(self).phase(),
                event, final(self).phase(), action),
    {
        proof {
            use_type_invariant(&*self);
        }
        match (self.phase, event) {
            (TransitionPhase::ReadingMax, TransitionEvent::MaxRead(Err(e))) => {
                self.phase = TransitionPhase::Done;
                TransitionAction::Finish(Err(e))
            },
            (TransitionPhase::ReadingMax, TransitionEvent::MaxRead(Ok(max))) => {
                if self.target > max {
                    self.phase = TransitionPhase::Done;
                    TransitionAction::Finish(
                        Err(BacklightError::InvalidValue { device: self.device.clone(), value: self.target, max }),
                    )
                } else {
                    self.phase = TransitionPhase::ReadingCurrent;
                    TransitionAction::ReadCurrent
                }
            },
            (TransitionPhase::ReadingCurrent, TransitionEvent::CurrentRead(Err(e))) => {
                self.phase = TransitionPhase::Done;
                TransitionAction::Finish(Err(e))
            },
            (TransitionPhase::ReadingCurrent, TransitionEvent::CurrentRead(Ok(start))) => {
                if start == self.target {
                    self.phase = TransitionPhase::Done;
                    TransitionAction::Finish(Ok(()))
                } else {
                    self.phase = TransitionPhase::Writing { start, step: 1 };
                    TransitionAction::Write { start, step: 1 }
                }
            },
            (TransitionPhase::Writing { .. }, TransitionEvent::Written(Err(e))) => {
                self.phase = TransitionPhase::Done;
                TransitionAction::Finish(Err(e))
            },
            (TransitionPhase::Writing { start, step }, TransitionEvent::Written(Ok(()))) => {
                if step < self.steps {
                    self.phase = TransitionPhase::Sleeping { start, step };
                    TransitionAction::Sleep
                } else {
                    self.phase = TransitionPhase::Done;
                    TransitionAction::Finish(Ok(()))
                }
            },
            (TransitionPhase::Sleeping { start, step }, TransitionEvent::Slept) => {
                self.phase = TransitionPhase::Writing { start, step: step + 1 };
                TransitionAction::Write { start, step: step + 1 }
            },
            (phase, _) => match phase {
                TransitionPhase::ReadingMax => TransitionAction::ReadMax,
                TransitionPhase::ReadingCurrent => TransitionAction::ReadCurrent,
                TransitionPhase::Writing { start, step } => TransitionAction::Write { start, step },
                TransitionPhase::Sleeping { .. } => TransitionAction::Sleep,
                TransitionPhase::Done => TransitionAction::Finish(Ok(())),
            },
        }
    }
}

/// One step of a transition of `device` to `target` in `steps` writes: in
/// `phase`, the answer `event` leads to `next` and asks for `action`.
pub open spec fn transition_step(
    device: Seq<char>,
    target: u32,
    steps: u64,
    phase: TransitionPhase,
    event: TransitionEvent,
    next: TransitionPhase,
    action: TransitionAction,
) -> bool {
    match (phase, event) {
        (TransitionPhase::ReadingMax, TransitionEvent::MaxRead(Err(e))) => next == TransitionPhase::Done
            && action == TransitionAction::Finish(Err(e)),
        (TransitionPhase::ReadingMax, TransitionEvent::MaxRead(Ok(max))) => if target > max {
            &&& next == TransitionPhase::Done
            &&& action matches TransitionAction::Finish(Err(BacklightError::InvalidValue { device: d, value, max: m }))
            &&& d@ == device && value == target && m == max
        } else {
            next == TransitionPhase::ReadingCurrent && action == TransitionAction::ReadCurrent
        },
        (TransitionPhase::ReadingCurrent, TransitionEvent::CurrentRead(Err(e))) => next == TransitionPhase::Done
            && action == TransitionAction::Finish(Err(e)),
        (TransitionPhase::ReadingCurrent, TransitionEvent::CurrentRead(Ok(start))) => if start == target {
            next == TransitionPhase::Done && action == TransitionAction::Finish(Ok(()))
        } else {
            next == (TransitionPhase::Writing { start, step: 1 }) && action == (TransitionAction::Write {
                start,
                step: 1,
            })
        },
        (TransitionPhase::Writing { .. }, TransitionEvent::Written(Err(e))) => next == TransitionPhase::Done
            && action == TransitionAction::Finish(Err(e)),
        (TransitionPhase::Writing { start, step }, TransitionEvent::Written(Ok(()))) => if step < steps {
            next == (TransitionPhase::Sleeping { start, step }) && action == TransitionAction::Sleep
        } else {
            next == TransitionPhase::Done && action == TransitionAction::Finish(Ok(()))
        },
        (TransitionPhase::Sleeping { start, step }, TransitionEvent::Slept) => next == (TransitionPhase::Writing {
            start,
            step: (step + 1) as u64,
        }) && action == (TransitionAction::Write { start, step: (step + 1) as u64 }),
        _ => next == phase && action == pending_action(phase),
    }
}

/// The successful answer to what a transition in `phase` is doing, once it
/// is writing: the write went through, or the pause is over.
pub open spec fn success_answer(phase: TransitionPhase) -> TransitionEvent {
    match phase {
        TransitionPhase::Writing { .. } => TransitionEvent::Written(Ok(())),
        _ => TransitionEvent::Slept,
    }
}

/// The actions that follow the write of step `k` of `steps` when every
/// write succeeds: a pause and the next write for each step left, then the
/// successful end.
pub open spec fn successful_rest(start: u32, k: u64, steps: u64) -> Seq<TransitionAction>
    decreases steps - k,
{
    if k >= steps {
        seq![TransitionAction::Finish(Ok(()))]
    } else {
        seq![TransitionAction::Sleep, TransitionAction::Write { start, step: (k + 1) as u64 }]
            + successful_rest(start, (k + 1) as u64, steps)
    }
}

/// Once a transition writes step `k`, and every write succeeds, it writes
/// each later step once and in order, pauses between two writes and never
/// after the last, and then ends successfully: the actions it asks for are
/// exactly [`successful_rest`].
pub proof fn law_successful_writes(
    device: Seq<char>,
    target: u32,
    steps: u64,
    start: u32,
    k: u64,
    phases: Seq<TransitionPhase>,
    actions: Seq<TransitionAction>,
)
    requires
        1 <= k <= steps,
        actions.len() == 2 * (steps - k) + 1,
        phases.len() == actions.len() + 1,
        phases[0] == (TransitionPhase::Writing { start, step: k }),
        forall|i: int|
            0 <= i < actions.len() ==> transition_step(
                device,
                target,
                steps,
                phases[i],
                success_answer(phases[i]),
                phases[i + 1],
                #[trigger] actions[i],
            ),
    ensures
        actions == successful_rest(start, k, steps),
    decreases steps - k,
{
    assert(transition_step(device, target, steps, phases[0], success_answer(phases[0]), phases[1], actions[0]));
    if k < steps {
        assert(transition_step(device, target, steps, phases[1], success_answer(phases[1]), phases[2], actions[1]));
        assert(phases[2] == (TransitionPhase::Writing { start, step: (k + 1) as u64 }));
        law_successful_writes(
            device,
            target,
            steps,
            start,
            (k + 1) as u64,
            phases.subrange(2, phases.len() as int),
            actions.subrange(2, actions.len() as int),
        );
        assert(actions =~= seq![actions[0], actions[1]] + actions.subrange(2, actions.len() as int));
    } else {
        assert(actions =~= seq![actions[0]]);
    }
}

/// A transition to a target the device accepts, from a different
/// brightness, with every read and write succeeding, reads the current
/// brightness once, writes steps `1..=steps` in order with one pause between
/// two writes, and ends successfully.
pub proof fn law_successful_transition(
    device: Seq<char>,
    target: u32,
    steps: u64,
    max: u32,
    start: u32,
    phases: Seq<TransitionPhase>,
    actions: Seq<TransitionAction>,
)
    requires
        steps >= 1,
        target <= max,
        start != target,
        actions.len() == 2 * steps + 1,
        phases.len() == actions.len() + 1,
        phases[0] == TransitionPhase::ReadingMax,
        transition_step(device, target, steps, phases[0], TransitionEvent::MaxRead(Ok(max)), phases[1], actions[0]),
        transition_step(device, target, steps, phases[1], TransitionEvent::CurrentRead(Ok(start)), phases[2], actions[1]),
        forall|i: int|
            2 <= i < actions.len() ==> transition_step(
                device,
                target,
                steps,
                phases[i],
                success_answer(phases[i]),
                phases[i + 1],
                #[trigger] actions[i],
            ),
    ensures
        actions == seq![TransitionAction::ReadCurrent, TransitionAction::Write { start, step: 1 }] + successful_rest(
            start,
            1,
            steps,
        ),
{
    let rest_phases = phases.subrange(2, phases.len() as int);
    let rest_actions = actions.subrange(2, actions.len() as int);
    assert forall|i: int| 0 <= i < rest_actions.len() implies transition_step(
        device,
        target,
        steps,
        rest_phases[i],
        success_answer(rest_phases[i]),
        rest_phases[i + 1],
        #[trigger] rest_actions[i],
    ) by {
        assert(rest_actions[i] == actions[i + 2]);
        assert(rest_phases[i] == phases[i + 2]);
        assert(rest_phases[i + 1] == phases[i + 3]);
    }
    law_successful_writes(device, target, steps, start, 1, rest_phases, rest_actions);
    assert(actions =~= seq![actions[0], actions[1]] + rest_actions);
}

/// A transition to a target above the device's maximum writes nothing: it
/// ends at once with the value and the maximum in the error.
pub proof fn law_target_above_max_is_refused(
    device: Seq<char>,
    target: u32,
    steps: u64,
    max: u32,
    next: TransitionPhase,
    action: TransitionAction,
)
    requires
        target > max,
        transition_step(device, target, steps, TransitionPhase::ReadingMax, TransitionEvent::MaxRead(Ok(max)), next, action),
    ensures
        next == TransitionPhase::Done,
        action matches TransitionAction::Finish(Err(BacklightError::InvalidValue { device: d, value, max: m }))
            && d@ == device && value == target && m == max,
{
}

/// A device already at the target is left alone: the transition ends
/// successfully without writing.
pub proof fn law_already_at_target_writes_nothing(
    device: Seq<char>,
    target: u32,
    steps: u64,
    next: TransitionPhase,
    action: TransitionAction,
)
    requires
        transition_step(device, target, steps, TransitionPhase::ReadingCurrent, TransitionEvent::CurrentRead(Ok(target)), next, action),
    ensures
        next == TransitionPhase::Done,
        action == TransitionAction::Finish(Ok(())),
{
}

/// A failure reported by the device ends the transition with that very
/// failure, whatever it was doing.
pub proof fn law_failure_ends_transition(
    device: Seq<char>,
    target: u32,
    steps: u64,
    phase: TransitionPhase,
    e: BacklightError,
    next: TransitionPhase,
    action: TransitionAction,
)
    requires
        ({
            let event = match phase {
                TransitionPhase::ReadingMax => TransitionEvent::MaxRead(Err(e)),
                TransitionPhase::ReadingCurrent => TransitionEvent::CurrentRead(Err(e)),
                _ => TransitionEvent::Written(Err(e)),
            };
            transition_step(device, target, steps, phase, event, next, action)
        }),
        phase is ReadingMax || phase is ReadingCurrent || phase is Writing,
    ensures
        next == TransitionPhase::Done,
        action == TransitionAction::Finish(Err(e)),
{
}

} // verus!

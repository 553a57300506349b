use vstd::prelude::*;
use crate::channel::{burst_model, SignalChannel};
use crate::coordinator::BenchCoordinator;
use crate::callback::{invoke_burst_model, LockedCallback, SchedulerRecorder};

verus! {

/// Pause a paced sequence worker takes after each wakeup, so that the
/// observer can process one wakeup before the next is posted.
pub const SEQUENCE_PACE_MICROS: u64 = 100;

/// Fixed plan one spawned worker runs to completion: an optional initial
/// delay, a number of wakeups, and — for paced sequences — a counter
/// increment before each wakeup and a pause after it.
#[derive(Clone, Copy, Debug, PartialEq, Eq, Structural)]
pub struct WorkerPlan {
    pub delay_micros: u64,
    pub wakeups: u64,
    pub pace_micros: u64,
    pub paced: bool,
}

/// The plan of a worker that sleeps `delay_micros`, performs exactly one
/// wakeup, and terminates.
pub open spec fn fire_after_delay_model(delay_micros: u64) -> WorkerPlan {
    WorkerPlan { delay_micros, wakeups: 1, pace_micros: 0, paced: false }
}

/// The plan of a worker that performs `count` wakeups back to back, with
/// no delay anywhere, for throughput measurement.
pub open spec fn burst_plan_model(count: u64) -> WorkerPlan {
    WorkerPlan { delay_micros: 0, wakeups: count, pace_micros: 0, paced: false }
}

/// The plan of a worker that, `iterations` times, increments the shared
/// counter, performs one wakeup, and pauses, for latency measurement.
pub open spec fn sequence_plan_model(iterations: u64) -> WorkerPlan {
    WorkerPlan {
        delay_micros: 0,
        wakeups: iterations,
        pace_micros: SEQUENCE_PACE_MICROS,
        paced: true,
    }
}

/// Builds the one-delayed-wakeup plan.
pub fn fire_after_delay_plan(delay_micros: u64) -> (p: WorkerPlan)
    ensures
        p == fire_after_delay_model(delay_micros),
{
    WorkerPlan { delay_micros, wakeups: 1, pace_micros: 0, paced: false }
}

/// Builds the maximum-throughput burst plan.
pub fn burst_plan(count: u64) -> (p: WorkerPlan)
    ensures
        p == burst_plan_model(count),
{
    WorkerPlan { delay_micros: 0, wakeups: count, pace_micros: 0, paced: false }
}

/// Builds the paced, counter-incrementing sequence plan.
pub fn sequence_plan(iterations: u64) -> (p: WorkerPlan)
    ensures
        p == sequence_plan_model(iterations),
{
    WorkerPlan {
        delay_micros: 0,
        wakeups: iterations,
        pace_micros: SEQUENCE_PACE_MICROS,
        paced: true,
    }
}

/// Where a worker stands inside its plan.
#[derive(Clone, Copy, Debug, PartialEq, Eq, Structural)]
pub enum WorkerPhase {
    /// Not started; the initial delay is still owed.
    Start,
    /// At an iteration boundary: finish, or begin the next wakeup.
    Ready,
    /// The counter increment is done; the wakeup itself is owed.
    Waking,
    /// The wakeup is done; the pacing pause is owed.
    Pausing,
    /// The plan has run to completion.
    Done,
}

/// One instruction the worker's thread performs next.
#[derive(Clone, Copy, Debug, PartialEq, Eq, Structural)]
pub enum WorkerAction {
    /// Sleep this many microseconds (zero means go on at once).
    SleepMicros(u64),
    /// Atomically increment the shared coordinator counter.
    IncrementCounter,
    /// Post one wakeup through the chosen mechanism.
    Wake,
    /// The plan is complete; the thread terminates.
    Finished,
}

/// A worker's position in its plan: the plan itself, how many wakeups are
/// complete, and the phase within the current iteration.
#[derive(Clone, Copy, Debug, PartialEq, Eq, Structural)]
pub struct WorkerState {
    pub plan: WorkerPlan,
    pub completed: u64,
    pub phase: WorkerPhase,
}

/// A reachable worker state: never more wakeups done than planned, and the
/// mid-iteration phases occur only where the plan puts them.
pub open spec fn worker_wf(s: WorkerState) -> bool {
    &&& s.completed <= s.plan.wakeups
    &&& (s.phase is Waking ==> s.plan.paced && s.completed < s.plan.wakeups)
    &&& (s.phase is Pausing ==> s.plan.paced)
}

/// The machine's transition relation: from a state, the next state and the
/// action the thread must perform before stepping again.
pub open spec fn step_model(s: WorkerState) -> (WorkerState, WorkerAction) {
    match s.phase {
        WorkerPhase::Start => (
            WorkerState { phase: WorkerPhase::Ready, ..s },
            WorkerAction::SleepMicros(s.plan.delay_micros),
        ),
        WorkerPhase::Ready => if s.completed == s.plan.wakeups {
            (WorkerState { phase: WorkerPhase::Done, ..s }, WorkerAction::Finished)
        } else if s.plan.paced {
            (WorkerState { phase: WorkerPhase::Waking, ..s }, WorkerAction::IncrementCounter)
        } else {
            (
                WorkerState { completed: (s.completed + 1) as u64, ..s },
                WorkerAction::Wake,
            )
        },
        WorkerPhase::Waking => (
            WorkerState {
                completed: (s.completed + 1) as u64,
                phase: WorkerPhase::Pausing,
                ..s
            },
            WorkerAction::Wake,
        ),
        WorkerPhase::Pausing => (
            WorkerState { phase: WorkerPhase::Ready, ..s },
            WorkerAction::SleepMicros(s.plan.pace_micros),
        ),
        WorkerPhase::Done => (s, WorkerAction::Finished),
    }
}

/// Ordering of the phases within one iteration, for termination: every
/// step either completes a wakeup or moves down this rank.
pub open spec fn phase_rank(p: WorkerPhase) -> nat {
    match p {
        WorkerPhase::Start => 5,
        WorkerPhase::Pausing => 4,
        WorkerPhase::Ready => 3,
        WorkerPhase::Waking => 2,
        WorkerPhase::Done => 0,
    }
}

/// Counter increments a worker has performed so far on its way through
/// the plan.
pub open spec fn increments_so_far(s: WorkerState) -> nat {
    if s.plan.paced {
        s.completed as nat + (if s.phase is Waking {
            1nat
        } else {
            0nat
        })
    } else {
        0nat
    }
}

/// Counter increments one whole run of `plan` performs: one per wakeup
/// for a paced sequence, none otherwise.
pub open spec fn worker_increments(plan: WorkerPlan) -> nat {
    if plan.paced {
        plan.wakeups as nat
    } else {
        0nat
    }
}

impl WorkerState {
    /// The state a freshly spawned worker starts in.
    pub fn start(plan: WorkerPlan) -> (s: Self)
        ensures
            s == (WorkerState { plan, completed: 0, phase: WorkerPhase::Start }),
            worker_wf(s),
    {
        WorkerState { plan, completed: 0, phase: WorkerPhase::Start }
    }

    /// Advances the machine by one transition and returns the action the
    /// thread must perform before the next step.
    pub fn step(&mut self) -> (action: WorkerAction)
        requires
            worker_wf(*old(self)),
        ensures
            worker_wf(*final(self)),
            *final(self) == step_model(*old(self)).0,
            action == step_model(*old(self)).1,
    {
        match self.phase {
            WorkerPhase::Start => {
                self.phase = WorkerPhase::Ready;
                WorkerAction::SleepMicros(self.plan.delay_micros)
            },
            WorkerPhase::Ready => {
                if self.completed == self.plan.wakeups {
                    self.phase = WorkerPhase::Done;
                    WorkerAction::Finished
                } else if self.plan.paced {
                    self.phase = WorkerPhase::Waking;
                    WorkerAction::IncrementCounter
                } else {
                    self.completed = self.completed + 1;
                    WorkerAction::Wake
                }
            },
            WorkerPhase::Waking => {
                self.completed = self.completed + 1;
                self.phase = WorkerPhase::Pausing;
                WorkerAction::Wake
            },
            WorkerPhase::Pausing => {
                self.phase = WorkerPhase::Ready;
                WorkerAction::SleepMicros(self.plan.pace_micros)
            },
            WorkerPhase::Done => WorkerAction::Finished,
        }
    }
}

/// Runs one worker's whole plan against a signal channel, performing the
/// pauses' decisions but no actual sleeping: every wakeup is a post into
/// the channel, and a paced plan increments the coordinator once before
/// each wakeup. The channel ends exactly as a burst of `plan.wakeups`
/// posts leaves it, and the counter has advanced by exactly the plan's
/// increments.
pub fn run_worker(plan: WorkerPlan, channel: &mut SignalChannel, coordinator: &mut BenchCoordinator)
    requires
        plan.paced ==> old(coordinator)@ + plan.wakeups <= u64::MAX,
    ensures
        final(channel)@ == burst_model(old(channel)@, plan.wakeups as nat),
        final(coordinator)@ == old(coordinator)@ + worker_increments(plan),
{
    let ghost ch0 = channel@;
    let ghost c0 = coordinator@;
    let mut state = WorkerState::start(plan);
    loop
        invariant_except_break
            worker_wf(state),
            state.plan == plan,
            !(state.phase is Done),
            channel@ == burst_model(ch0, state.completed as nat),
            coordinator@ == c0 + increments_so_far(state),
            plan.paced ==> c0 + plan.wakeups <= u64::MAX,
        ensures
            channel@ == burst_model(ch0, plan.wakeups as nat),
            coordinator@ == c0 + worker_increments(plan),
        decreases plan.wakeups - state.completed, phase_rank(state.phase),
    {
        let action = state.step();
        match action {
            WorkerAction::SleepMicros(_) => {},
            WorkerAction::IncrementCounter => {
                coordinator.increment();
            },
            WorkerAction::Wake => {
                let _ = channel.post();
            },
            WorkerAction::Finished => {
                break ;
            },
        }
    }
}

/// Runs one worker's whole plan against the locked callback: every wakeup
/// is one submission through the scheduler's locked entry point, and a
/// paced plan increments the coordinator once before each submission. The
/// recorder ends exactly as a burst of `plan.wakeups` submissions leaves
/// it, and the counter has advanced by exactly the plan's increments.
pub fn run_callback_worker(
    plan: WorkerPlan,
    callback: &LockedCallback,
    scheduler: &mut SchedulerRecorder,
    coordinator: &mut BenchCoordinator,
)
    requires
        plan.paced ==> old(coordinator)@ + plan.wakeups <= u64::MAX,
    ensures
        final(scheduler)@ == invoke_burst_model(old(scheduler)@, callback@, plan.wakeups as nat),
        final(coordinator)@ == old(coordinator)@ + worker_increments(plan),
{
    let ghost s0 = scheduler@;
    let ghost c0 = coordinator@;
    let mut state = WorkerState::start(plan);
    loop
        invariant_except_break
            worker_wf(state),
            state.plan == plan,
            !(state.phase is Done),
            scheduler@ == invoke_burst_model(s0, callback@, state.completed as nat),
            coordinator@ == c0 + increments_so_far(state),
            plan.paced ==> c0 + plan.wakeups <= u64::MAX,
        ensures
            scheduler@ == invoke_burst_model(s0, callback@, plan.wakeups as nat),
            coordinator@ == c0 + worker_increments(plan),
        decreases plan.wakeups - state.completed, phase_rank(state.phase),
    {
        let action = state.step();
        match action {
            WorkerAction::SleepMicros(_) => {},
            WorkerAction::IncrementCounter => {
                coordinator.increment();
            },
            WorkerAction::Wake => {
                callback.invoke(scheduler);
            },
            WorkerAction::Finished => {
                break ;
            },
        }
    }
}

/// Law: a sequence run of `iterations` wakeups performs exactly
/// `iterations` counter increments, one before each wakeup.
pub proof fn lemma_sequence_increments(iterations: u64)
    ensures
        worker_increments(sequence_plan_model(iterations)) == iterations,
{
}

} // verus!

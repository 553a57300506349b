use wakerbench::callback::{LockedCallback, SchedulerRecorder};
use wakerbench::channel::SignalChannel;
use wakerbench::coordinator::BenchCoordinator;
use wakerbench::driver::{
    burst_plan, fire_after_delay_plan, run_callback_worker, run_worker, sequence_plan,
    WorkerAction, WorkerState, SEQUENCE_PACE_MICROS,
};

fn fresh_channel() -> SignalChannel {
    SignalChannel::create(3, 4).unwrap()
}

#[test]
fn plan_constructors_fill_the_fields() {
    let f = fire_after_delay_plan(250);
    assert_eq!(f.delay_micros, 250);
    assert_eq!(f.wakeups, 1);
    assert!(!f.paced);

    let b = burst_plan(1000);
    assert_eq!(b.delay_micros, 0);
    assert_eq!(b.wakeups, 1000);
    assert_eq!(b.pace_micros, 0);
    assert!(!b.paced);

    let s = sequence_plan(5);
    assert_eq!(s.delay_micros, 0);
    assert_eq!(s.wakeups, 5);
    assert_eq!(s.pace_micros, SEQUENCE_PACE_MICROS);
    assert!(s.paced);
}

#[test]
fn fire_after_delay_emits_sleep_then_one_wake() {
    let mut state = WorkerState::start(fire_after_delay_plan(250));
    assert_eq!(state.step(), WorkerAction::SleepMicros(250));
    assert_eq!(state.step(), WorkerAction::Wake);
    assert_eq!(state.step(), WorkerAction::Finished);
    assert_eq!(state.step(), WorkerAction::Finished);
}

#[test]
fn sequence_increments_before_each_wake_and_paces_after() {
    let mut state = WorkerState::start(sequence_plan(2));
    assert_eq!(state.step(), WorkerAction::SleepMicros(0));
    assert_eq!(state.step(), WorkerAction::IncrementCounter);
    assert_eq!(state.step(), WorkerAction::Wake);
    assert_eq!(state.step(), WorkerAction::SleepMicros(SEQUENCE_PACE_MICROS));
    assert_eq!(state.step(), WorkerAction::IncrementCounter);
    assert_eq!(state.step(), WorkerAction::Wake);
    assert_eq!(state.step(), WorkerAction::SleepMicros(SEQUENCE_PACE_MICROS));
    assert_eq!(state.step(), WorkerAction::Finished);
}

#[test]
fn fire_after_delay_zero_makes_the_channel_ready() {
    let mut ch = fresh_channel();
    let mut co = BenchCoordinator::new();
    run_worker(fire_after_delay_plan(0), &mut ch, &mut co);
    assert!(ch.is_ready());
    assert_eq!(co.get_count(), 0);
}

#[test]
fn burst_of_zero_wakeups_leaves_the_channel_idle() {
    let mut ch = fresh_channel();
    let mut co = BenchCoordinator::new();
    run_worker(burst_plan(0), &mut ch, &mut co);
    assert!(!ch.is_ready());
    assert_eq!(ch.drain(), 0);
}

#[test]
fn burst_drains_in_at_most_count_reads() {
    let mut ch = fresh_channel();
    let mut co = BenchCoordinator::new();
    let count = 5u64;
    run_worker(burst_plan(count), &mut ch, &mut co);
    assert!(ch.is_ready());
    let reads = ch.drain();
    assert!(reads >= 1);
    assert!(reads <= count);
    assert!(!ch.is_ready());
}

#[test]
fn oversized_burst_coalesces_but_still_drains() {
    let mut ch = fresh_channel();
    let mut co = BenchCoordinator::new();
    let count = 100_000u64;
    run_worker(burst_plan(count), &mut ch, &mut co);
    assert!(ch.is_ready());
    let reads = ch.drain();
    assert!(reads >= 1);
    assert!(reads <= count);
    assert!(!ch.is_ready());
}

#[test]
fn sequence_of_five_counts_to_five_and_wakes() {
    let mut ch = fresh_channel();
    let mut co = BenchCoordinator::new();
    run_worker(sequence_plan(5), &mut ch, &mut co);
    assert_eq!(co.get_count(), 5);
    assert!(ch.is_ready());
    let reads = ch.drain();
    assert!(reads >= 1);
    assert!(reads <= 5);
}

#[test]
fn sequence_of_zero_iterations_does_nothing() {
    let mut ch = fresh_channel();
    let mut co = BenchCoordinator::new();
    run_worker(sequence_plan(0), &mut ch, &mut co);
    assert_eq!(co.get_count(), 0);
    assert!(!ch.is_ready());
}

#[test]
fn callback_burst_records_every_submission() {
    let cb = LockedCallback::create(7);
    let mut sched = SchedulerRecorder::new();
    let mut co = BenchCoordinator::new();
    run_callback_worker(burst_plan(100), &cb, &mut sched, &mut co);
    let n = sched.submission_count();
    assert!(n >= 1);
    assert!(n <= 100);
    assert_eq!(n, 100);
    assert!(sched.submissions().iter().all(|id| *id == 7));
    assert_eq!(co.get_count(), 0);
}

#[test]
fn callback_sequence_counts_and_submits() {
    let cb = LockedCallback::create(11);
    let mut sched = SchedulerRecorder::new();
    let mut co = BenchCoordinator::new();
    run_callback_worker(sequence_plan(3), &cb, &mut sched, &mut co);
    assert_eq!(co.get_count(), 3);
    assert_eq!(sched.submission_count(), 3);
}

#[test]
fn shut_down_scheduler_swallows_submissions() {
    let cb = LockedCallback::create(2);
    let mut sched = SchedulerRecorder::new();
    let mut co = BenchCoordinator::new();
    sched.shut_down();
    run_callback_worker(burst_plan(10), &cb, &mut sched, &mut co);
    assert_eq!(sched.submission_count(), 0);
    cb.invoke(&mut sched);
    assert_eq!(sched.submission_count(), 0);
}

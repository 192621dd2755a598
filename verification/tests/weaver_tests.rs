use std::cmp::Ordering;

use weaver::decay::{DecayOutcome, TaskMetadata, HALF_LIFE_NS};
use weaver::dispatch::{
    dispatch_budget, exec_slice_ns, stats_due, target_cpu, MIN_SLICE_NS, RUNTIME_NS,
    STAT_INTERVAL_NS,
};
use weaver::queue::RunQueue;
use weaver::scheduler::Scheduler;
use weaver::settings::{DecayFunction, DispatchStrategy, Settings};
use weaver::task::Task;

fn task(item: u32, v_deadline: u64) -> Task<u32> {
    Task { item, v_deadline }
}

fn settings(decay: DecayFunction, dispatch: DispatchStrategy) -> Settings {
    Settings { decay_function: decay, dispatch_strategy: dispatch, inherit: true }
}

fn drain(q: &mut RunQueue<u32>) -> Vec<(u32, u64)> {
    let mut out = Vec::new();
    while let Some(t) = q.pop() {
        out.push((t.item, t.v_deadline));
    }
    out
}

// ---- task order ----

#[test]
fn earlier_deadline_is_greater() {
    let a = task(1, 10);
    let b = task(2, 20);
    assert_eq!(a.cmp(&b), Ordering::Greater);
    assert_eq!(b.cmp(&a), Ordering::Less);
    assert_eq!(a.cmp(&task(3, 10)), Ordering::Equal);
    assert!(a > b);
    assert!(b < a);
}

#[test]
fn tasks_equal_by_deadline_only() {
    assert!(task(1, 42) == task(2, 42));
    assert!(task(1, 42) != task(1, 43));
    assert_eq!(task(1, 5).partial_cmp(&task(2, 7)), Some(Ordering::Greater));
    assert_eq!(task(1, 7).partial_cmp(&task(2, 7)), Some(Ordering::Equal));
}

// ---- run queue ----

#[test]
fn queue_pops_earliest_deadline_first() {
    let mut q = RunQueue::new();
    q.push(task(1, 30));
    q.push(task(2, 10));
    q.push(task(3, 20));
    q.push(task(4, 5));
    assert_eq!(q.len(), 4);
    assert_eq!(drain(&mut q), vec![(4, 5), (2, 10), (3, 20), (1, 30)]);
    assert_eq!(q.len(), 0);
}

#[test]
fn queue_serves_equal_deadlines_in_push_order() {
    let mut q = RunQueue::new();
    q.push(task(1, 10));
    q.push(task(2, 10));
    q.push(task(3, 5));
    q.push(task(4, 10));
    assert_eq!(drain(&mut q), vec![(3, 5), (1, 10), (2, 10), (4, 10)]);
}

#[test]
fn empty_queue_pops_none() {
    let mut q: RunQueue<u32> = RunQueue::new();
    assert!(q.pop().is_none());
    assert_eq!(q.len(), 0);
}

#[test]
fn push_then_pop_gives_back_the_task_when_earliest() {
    let mut q = RunQueue::new();
    q.push(task(1, 50));
    q.push(task(2, 40));
    let t = q.pop().unwrap();
    assert_eq!((t.item, t.v_deadline), (2, 40));
    assert_eq!(q.len(), 1);
}

// ---- decay ----

#[test]
fn discrete_decay_halves_per_whole_half_life() {
    let mut m = TaskMetadata::new(0, 7);
    let r = m.discrete_decay(100, 2 * HALF_LIFE_NS + HALF_LIFE_NS / 2);
    assert_eq!(r, Some(25));
    assert_eq!(m.prev_decay_ns, 2 * HALF_LIFE_NS);
    assert_eq!(m.vtime, 7);
}

#[test]
fn discrete_decay_waits_for_a_whole_half_life() {
    let mut m = TaskMetadata::new(1_000, 0);
    assert_eq!(m.discrete_decay(100, 1_000 + HALF_LIFE_NS - 1), None);
    assert_eq!(m.prev_decay_ns, 1_000);
    assert_eq!(m.discrete_decay(100, 1_000), None);
    assert_eq!(m.discrete_decay(100, 500), None);
    assert_eq!(m.prev_decay_ns, 1_000);
}

#[test]
fn discrete_decay_clears_after_64_half_lives() {
    let mut m = TaskMetadata::new(0, 0);
    assert_eq!(m.discrete_decay(u64::MAX, 64 * HALF_LIFE_NS), Some(0));
    let mut m = TaskMetadata::new(0, 0);
    assert_eq!(m.discrete_decay(u64::MAX, 63 * HALF_LIFE_NS), Some(1));
}

#[test]
fn discrete_decay_is_path_independent() {
    let t1 = 1_500_000;
    let t2 = 3_200_000;
    let mut once = TaskMetadata::new(0, 0);
    let direct = once.discrete_decay(1000, t2);
    let mut twice = TaskMetadata::new(0, 0);
    let first = twice.discrete_decay(1000, t1).unwrap();
    let second = twice.discrete_decay(first, t2);
    assert_eq!(direct, Some(125));
    assert_eq!(second, direct);
    assert_eq!(twice.prev_decay_ns, once.prev_decay_ns);
    assert_eq!(once.prev_decay_ns, 3_000_000);
}

#[test]
fn continuous_decay_reports_elapsed_and_resets_clock() {
    let mut m = TaskMetadata::new(1_000, 3);
    assert_eq!(m.continuous_decay(4_500), 3_500);
    assert_eq!(m.prev_decay_ns, 4_500);
    assert_eq!(m.continuous_decay(2_000), 0);
    assert_eq!(m.prev_decay_ns, 2_000);
    assert_eq!(m.vtime, 3);
}

// ---- dispatch numbers ----

#[test]
fn slice_is_period_shared_with_floor() {
    assert_eq!(exec_slice_ns(0), RUNTIME_NS);
    assert_eq!(exec_slice_ns(1), 7_500_000);
    assert_eq!(exec_slice_ns(2), 5_000_000);
    assert_eq!(exec_slice_ns(14), 1_000_000);
    assert_eq!(exec_slice_ns(20), MIN_SLICE_NS);
    assert_eq!(exec_slice_ns(u64::MAX), MIN_SLICE_NS);
}

#[test]
fn slice_bounds_and_monotonic() {
    let mut prev = exec_slice_ns(0);
    for n in 0..100u64 {
        let s = exec_slice_ns(n);
        assert!(MIN_SLICE_NS <= s && s <= RUNTIME_NS);
        assert!(s <= prev);
        prev = s;
    }
}

#[test]
fn batch_budget_fills_kernel_queue_to_twice_the_cpus() {
    assert_eq!(dispatch_budget(4, 3), 5);
    assert_eq!(dispatch_budget(4, 0), 8);
    assert_eq!(dispatch_budget(4, 8), 0);
    assert_eq!(dispatch_budget(4, 9), 0);
    assert_eq!(dispatch_budget(0, 0), 0);
}

#[test]
fn cpu_selection_falls_back_to_any() {
    assert_eq!(target_cpu(3), Some(3));
    assert_eq!(target_cpu(0), Some(0));
    assert_eq!(target_cpu(-1), None);
    assert_eq!(target_cpu(i32::MIN), None);
}

#[test]
fn stats_due_after_one_second() {
    assert!(!stats_due(0, STAT_INTERVAL_NS));
    assert!(stats_due(0, STAT_INTERVAL_NS + 1));
    assert!(!stats_due(5, 3));
    assert!(stats_due(10, 10 + 2 * STAT_INTERVAL_NS));
}

// ---- settings ----

#[test]
fn default_settings() {
    let s = Settings::default();
    assert_eq!(s.decay_function, DecayFunction::Discrete);
    assert_eq!(s.dispatch_strategy, DispatchStrategy::DripFeed);
    assert!(s.inherit);
    assert_eq!(DecayFunction::default(), DecayFunction::Discrete);
    assert_eq!(DispatchStrategy::default(), DispatchStrategy::DripFeed);
}

#[test]
fn setting_names() {
    assert_eq!(DecayFunction::Discrete.to_string(), "discrete");
    assert_eq!(DecayFunction::Continous.to_string(), "continous");
    assert_eq!(DispatchStrategy::Batch.to_string(), "batch");
    assert_eq!(DispatchStrategy::DripFeed.to_string(), "drip-feed");
}

// ---- scheduler ----

#[test]
fn new_task_starts_at_system_vtime() {
    let mut s: Scheduler<u32> =
        Scheduler::new(settings(DecayFunction::Discrete, DispatchStrategy::DripFeed));
    assert_eq!(s.vtime_of(1), 0);
    s.charge_task(1, 500, 0, 10);
    assert_eq!(s.vtime_of(1), 500);
    assert_eq!(s.system_vtime(), 500);
    // A task seen for the first time inherits the system virtual time.
    assert_eq!(s.vtime_of(2), 500);
    s.charge_task(2, 100, 0, 20);
    assert_eq!(s.vtime_of(2), 600);
    assert_eq!(s.system_vtime(), 600);
    // Charging a task behind the clock does not move the clock back.
    s.charge_task(1, 50, 0, 30);
    assert_eq!(s.vtime_of(1), 550);
    assert_eq!(s.system_vtime(), 600);
}

#[test]
fn wake_registers_task_without_charging() {
    let mut s: Scheduler<u32> =
        Scheduler::new(settings(DecayFunction::Discrete, DispatchStrategy::DripFeed));
    s.charge_task(1, 900, 0, 0);
    assert_eq!(s.decay_task(7, 0, 5), DecayOutcome::Unchanged);
    assert_eq!(s.vtime_of(7), 900);
    assert_eq!(s.system_vtime(), 900);
    assert_eq!(s.nr_waiting(), 0);
}

#[test]
fn decay_follows_the_configured_function() {
    let mut d: Scheduler<u32> =
        Scheduler::new(settings(DecayFunction::Discrete, DispatchStrategy::DripFeed));
    assert_eq!(d.decay_task(1, 80, 0), DecayOutcome::Unchanged);
    assert_eq!(d.decay_task(1, 80, 3 * HALF_LIFE_NS), DecayOutcome::Truncated(10));
    assert_eq!(d.decay_task(1, 10, 3 * HALF_LIFE_NS + 10), DecayOutcome::Unchanged);

    let mut c: Scheduler<u32> =
        Scheduler::new(settings(DecayFunction::Continous, DispatchStrategy::DripFeed));
    assert_eq!(c.decay_task(1, 80, 1_000), DecayOutcome::Elapsed(0));
    assert_eq!(c.decay_task(1, 80, 1_700), DecayOutcome::Elapsed(700));
    assert_eq!(c.charge_task(1, 5, 80, 2_000), DecayOutcome::Elapsed(300));
    assert_eq!(c.settings().decay_function, DecayFunction::Continous);
}

#[test]
fn enqueue_uses_vtime_plus_slice_as_deadline() {
    let mut s: Scheduler<u32> =
        Scheduler::new(settings(DecayFunction::Discrete, DispatchStrategy::DripFeed));
    s.charge_task(1, 100, 0, 0);
    s.enqueue(1, 11, 50);
    s.charge_task(2, 10, 0, 0);
    s.enqueue(2, 22, 5);
    assert_eq!(s.nr_waiting(), 2);
    // Task 2 starts at the system virtual time 100: deadline 100 + 10 + 5.
    let plan = s.dispatch(4, 0);
    assert_eq!(plan.tasks.len(), 1);
    assert_eq!(plan.tasks[0].item, 22);
    assert_eq!(plan.tasks[0].v_deadline, 115);
    assert_eq!(plan.slice_ns, 5_000_000);
    assert_eq!(plan.nr_remaining, 1);
    let plan = s.dispatch(4, 0);
    assert_eq!(plan.tasks[0].item, 11);
    assert_eq!(plan.tasks[0].v_deadline, 150);
    assert_eq!(plan.slice_ns, 7_500_000);
    assert_eq!(plan.nr_remaining, 0);
}

#[test]
fn drip_feed_on_empty_queue_sends_nothing() {
    let mut s: Scheduler<u32> =
        Scheduler::new(settings(DecayFunction::Discrete, DispatchStrategy::DripFeed));
    let plan = s.dispatch(8, 0);
    assert!(plan.tasks.is_empty());
    assert_eq!(plan.nr_remaining, 0);
}

fn batch_with_tasks(n: u32) -> Scheduler<u32> {
    let mut s: Scheduler<u32> =
        Scheduler::new(settings(DecayFunction::Discrete, DispatchStrategy::Batch));
    for i in 0..n {
        let pid = i as i32;
        s.charge_task(pid, 0, 0, 0);
        s.enqueue(pid, i, 1000 - u64::from(i));
    }
    s
}

#[test]
fn batch_sends_up_to_the_kernel_budget_in_deadline_order() {
    let mut s = batch_with_tasks(10);
    // 2 CPUs, 1 task already queued in the kernel: room for 3.
    let plan = s.dispatch(2, 1);
    let items: Vec<u32> = plan.tasks.iter().map(|t| t.item).collect();
    assert_eq!(items, vec![9, 8, 7]);
    assert_eq!(plan.slice_ns, exec_slice_ns(10));
    assert_eq!(plan.nr_remaining, 7);
    assert_eq!(s.nr_waiting(), 7);
}

#[test]
fn batch_sends_everything_when_budget_is_larger() {
    let mut s = batch_with_tasks(3);
    let plan = s.dispatch(8, 0);
    let items: Vec<u32> = plan.tasks.iter().map(|t| t.item).collect();
    assert_eq!(items, vec![2, 1, 0]);
    assert_eq!(plan.nr_remaining, 0);
}

#[test]
fn batch_holds_back_when_kernel_queue_is_full() {
    let mut s = batch_with_tasks(5);
    let plan = s.dispatch(2, 4);
    assert!(plan.tasks.is_empty());
    assert_eq!(plan.nr_remaining, 0);
    assert_eq!(s.nr_waiting(), 5);
}

#[test]
fn dispatch_loses_no_task() {
    let mut s = batch_with_tasks(6);
    let mut seen: Vec<u32> = Vec::new();
    loop {
        let plan = s.dispatch(1, 0);
        if plan.tasks.is_empty() {
            break;
        }
        assert!(plan.tasks.len() <= 2);
        for t in plan.tasks.iter() {
            seen.push(t.item);
        }
    }
    assert_eq!(seen, vec![5, 4, 3, 2, 1, 0]);
}

//! The numbers behind a dispatch round: how long a slice a dispatched task
//! gets, how many tasks a batch may send, which CPU a task is sent to, and
//! when statistics are due.
use vstd::prelude::*;

verus! {

/// Shortest time slice handed to a dispatched task, in nanoseconds.
pub const MIN_SLICE_NS: u64 = 1_000_000;

/// Scheduling period shared by the waiting tasks, in nanoseconds; also the
/// default slice of tasks that the kernel dispatches on its own.
pub const RUNTIME_NS: u64 = 15_000_000;

/// Interval between two statistics reports, in nanoseconds.
pub const STAT_INTERVAL_NS: u64 = 1_000_000_000;

/// The slice given to each task dispatched while `nr_waiting` tasks wait:
/// the period split among the waiting tasks and one more, but never less
/// than the minimum slice.
pub open spec fn slice_for(nr_waiting: nat) -> nat {
    let share = RUNTIME_NS as nat / (nr_waiting + 1);
    if share > MIN_SLICE_NS as nat {
        share
    } else {
        MIN_SLICE_NS as nat
    }
}

/// How many more tasks a batch may hand to the kernel: enough to keep two
/// tasks queued per online CPU, none when that many are already queued.
pub open spec fn batch_budget(nr_online_cpus: nat, nr_queued: nat) -> nat {
    if nr_queued >= 2 * nr_online_cpus {
        0
    } else {
        (2 * nr_online_cpus - nr_queued) as nat
    }
}

/// Slice length for the tasks dispatched while `nr_waiting` tasks wait in
/// the run queue.
pub fn exec_slice_ns(nr_waiting: u64) -> (slice: u64)
    ensures
        slice == slice_for(nr_waiting as nat),
        RUNTIME_NS as nat / (nr_waiting as nat + 1) >= MIN_SLICE_NS ==> slice == RUNTIME_NS as nat
            / (nr_waiting as nat + 1),
        RUNTIME_NS as nat / (nr_waiting as nat + 1) < MIN_SLICE_NS ==> slice == MIN_SLICE_NS,
{
    if nr_waiting >= RUNTIME_NS {
        proof {
            vstd::arithmetic::div_mod::lemma_basic_div(
                RUNTIME_NS as int,
                nr_waiting as int + 1,
            );
        }
        MIN_SLICE_NS
    } else {
        let share = RUNTIME_NS / (nr_waiting + 1);
        if share > MIN_SLICE_NS {
            share
        } else {
            MIN_SLICE_NS
        }
    }
}

/// The kernel queue target of a batch, `2 * nr_online_cpus`, less what is
/// already queued there; 0 when the target is met.
pub fn dispatch_budget(nr_online_cpus: u64, nr_queued: u64) -> (budget: u64)
    requires
        2 * nr_online_cpus <= u64::MAX,
    ensures
        budget == batch_budget(nr_online_cpus as nat, nr_queued as nat),
        nr_queued >= 2 * nr_online_cpus ==> budget == 0,
        nr_queued < 2 * nr_online_cpus ==> nr_queued + budget == 2 * nr_online_cpus,
{
    let target = 2 * nr_online_cpus;
    if nr_queued >= target {
        0
    } else {
        target - nr_queued
    }
}

/// The CPU to dispatch to, given what CPU selection answered: the selected
/// CPU when it is one (non-negative), otherwise `None`, meaning any CPU.
pub fn target_cpu(selected: i32) -> (cpu: Option<i32>)
    ensures
        selected >= 0 ==> cpu == Some(selected),
        selected < 0 ==> cpu is None,
{
    if selected >= 0 {
        Some(selected)
    } else {
        None
    }
}

/// Whether statistics are due: more than the report interval has passed
/// from `prev_ts` to `curr_ts`.
pub fn stats_due(prev_ts: u64, curr_ts: u64) -> (due: bool)
    ensures
        due == (curr_ts > prev_ts && curr_ts - prev_ts > STAT_INTERVAL_NS),
{
    curr_ts.saturating_sub(prev_ts) > STAT_INTERVAL_NS
}

/// Every slice lies between the minimum slice and the whole period.
pub proof fn lemma_slice_bounds(nr_waiting: nat)
    ensures
        MIN_SLICE_NS <= slice_for(nr_waiting) <= RUNTIME_NS,
{
    vstd::arithmetic::div_mod::lemma_div_nonincreasing(RUNTIME_NS as int, (nr_waiting + 1) as int);
}

/// The slice is the period divided among the waiting tasks and one more,
/// rounded down, unless that share falls below the minimum slice: then it is
/// the minimum slice.
pub proof fn lemma_slice_is_share_of_period(nr_waiting: nat)
    ensures
        RUNTIME_NS as nat / (nr_waiting + 1) >= MIN_SLICE_NS ==> slice_for(nr_waiting)
            == RUNTIME_NS as nat / (nr_waiting + 1),
        RUNTIME_NS as nat / (nr_waiting + 1) < MIN_SLICE_NS ==> slice_for(nr_waiting)
            == MIN_SLICE_NS,
        slice_for(nr_waiting) == MIN_SLICE_NS || (slice_for(nr_waiting) * (nr_waiting + 1)
            <= RUNTIME_NS && RUNTIME_NS < (slice_for(nr_waiting) + 1) * (nr_waiting + 1)),
{
    let d = (nr_waiting + 1) as int;
    let q = RUNTIME_NS as int / d;
    vstd::arithmetic::div_mod::lemma_fundamental_div_mod(RUNTIME_NS as int, d);
    vstd::arithmetic::div_mod::lemma_mod_bound(RUNTIME_NS as int, d);
    assert(q * d <= RUNTIME_NS < (q + 1) * d) by (nonlinear_arith)
        requires
            RUNTIME_NS as int == d * q + RUNTIME_NS as int % d,
            0 <= RUNTIME_NS as int % d < d,
    ;
}

/// The more tasks wait, the shorter (or equal) the slice each one gets.
pub proof fn lemma_slice_nonincreasing(n1: nat, n2: nat)
    requires
        n1 <= n2,
    ensures
        slice_for(n2) <= slice_for(n1),
{
    vstd::arithmetic::div_mod::lemma_div_is_ordered_by_denominator(
        RUNTIME_NS as int,
        (n1 + 1) as int,
        (n2 + 1) as int,
    );
}

/// A batch never fills the kernel queue beyond two tasks per online CPU,
/// and when the kernel queue is below that target it always may send at
/// least one task.
pub proof fn lemma_batch_budget_fills_to_target(nr_online_cpus: nat, nr_queued: nat)
    ensures
        nr_queued < 2 * nr_online_cpus ==> nr_queued + batch_budget(nr_online_cpus, nr_queued)
            == 2 * nr_online_cpus,
        nr_queued < 2 * nr_online_cpus ==> batch_budget(nr_online_cpus, nr_queued) >= 1,
        nr_queued >= 2 * nr_online_cpus ==> batch_budget(nr_online_cpus, nr_queued) == 0,
{
}

} // verus!

//! The scheduler's state and the decisions it takes on each event: a task
//! woke another, a task became runnable, a dispatch round is due.
//!
//! Every task is charged virtual time for the CPU time it used, scaled down
//! by its weight. A runnable task is queued with a virtual deadline: its
//! virtual time plus a slice that shrinks as its weight and its latency
//! criticality grow. Tasks are dispatched earliest deadline first. A task
//! seen for the first time starts at the system virtual time, the largest
//! virtual time charged so far, so that it cannot jump ahead of tasks that
//! have been waiting.
use std::collections::HashMap;
use vstd::prelude::*;

use crate::decay::{
    discrete_step, elapsed_ns, half_lives, DecayOutcome, TaskMetadata, HALF_LIFE_NS,
};
use vstd::arithmetic::power2::pow2;
use crate::dispatch::{
    batch_budget, dispatch_budget, exec_slice_ns, slice_for, MIN_SLICE_NS, RUNTIME_NS,
};
use crate::queue::{placed, sorted_by_deadline, RunQueue};
use crate::settings::{DecayFunction, DispatchStrategy, Settings};
use crate::task::Task;

verus! {

broadcast use vstd::std_specs::hash::group_hash_axioms;

/// The bookkeeping of a task first seen at `now`, while the system virtual
/// time is `vclock`.
pub open spec fn fresh_metadata(now: u64, vclock: u64) -> TaskMetadata {
    TaskMetadata { vtime: vclock, prev_decay_ns: now }
}

/// The bookkeeping of task `pid` as an event at `now` finds it: what the
/// table holds, or a fresh entry when the task is new.
pub open spec fn current_metadata(
    table: Map<i32, TaskMetadata>,
    pid: i32,
    now: u64,
    vclock: u64,
) -> TaskMetadata {
    if table.contains_key(pid) {
        table[pid]
    } else {
        fresh_metadata(now, vclock)
    }
}

/// The virtual time of task `pid`: what it has been charged, or, if it has
/// not been seen yet, the system virtual time it would start at.
pub open spec fn task_vtime(table: Map<i32, TaskMetadata>, pid: i32, vclock: u64) -> u64 {
    if table.contains_key(pid) {
        table[pid].vtime
    } else {
        vclock
    }
}

/// Decay at `now`, by decay function `f`, of a task with bookkeeping `m`
/// whose criticality has whole part `lc`: the new bookkeeping and what
/// becomes of the criticality.
pub open spec fn decayed(m: TaskMetadata, lc: u64, now: u64, f: DecayFunction) -> (
    TaskMetadata,
    DecayOutcome,
) {
    match f {
        DecayFunction::Discrete => {
            let (whole, prev) = discrete_step(lc, m.prev_decay_ns, now);
            (
                TaskMetadata { vtime: m.vtime, prev_decay_ns: prev },
                if half_lives(m.prev_decay_ns, now) > 0 {
                    DecayOutcome::Truncated(whole)
                } else {
                    DecayOutcome::Unchanged
                },
            )
        },
        DecayFunction::Continous => (
            TaskMetadata { vtime: m.vtime, prev_decay_ns: now },
            DecayOutcome::Elapsed(elapsed_ns(m.prev_decay_ns, now) as u64),
        ),
    }
}

/// No task has run ahead of the system virtual time.
pub open spec fn vtimes_bounded(table: Map<i32, TaskMetadata>, vclock: u64) -> bool {
    forall|pid: i32| #[trigger] table.contains_key(pid) ==> table[pid].vtime <= vclock
}

/// How many tasks a dispatch round takes from a run queue of `nr_waiting`
/// tasks: one (if any) when drip-feeding; in a batch, as many as the
/// kernel-side budget allows.
pub open spec fn round_size(
    strategy: DispatchStrategy,
    nr_online_cpus: nat,
    nr_queued: nat,
    nr_waiting: nat,
) -> nat {
    match strategy {
        DispatchStrategy::DripFeed => if nr_waiting == 0 {
            0
        } else {
            1
        },
        DispatchStrategy::Batch => {
            let budget = batch_budget(nr_online_cpus, nr_queued);
            if budget < nr_waiting {
                budget
            } else {
                nr_waiting
            }
        },
    }
}

/// The first `k` tasks a run queue `s` serves, in the order served.
pub open spec fn served<T>(s: Seq<Task<T>>, k: nat) -> Seq<Task<T>> {
    Seq::new(k, |i: int| s[s.len() - 1 - i])
}

/// What is left of run queue `s` once its first `k` tasks are served.
pub open spec fn left<T>(s: Seq<Task<T>>, k: nat) -> Seq<Task<T>> {
    s.subrange(0, s.len() - k)
}

/// The tasks that one dispatch round hands to the kernel.
pub struct DispatchPlan<T> {
    /// The tasks to dispatch, in this order: earliest deadline first.
    pub tasks: Vec<Task<T>>,
    /// The time slice each of them gets, in nanoseconds.
    pub slice_ns: u64,
    /// The number of waiting tasks to report to the kernel once the round is
    /// done.
    pub nr_remaining: u64,
}

/// The scheduler's state: the run queue, the bookkeeping of every task seen
/// so far, and the system virtual time.
pub struct Scheduler<T> {
    tasks: RunQueue<T>,
    meta: HashMap<i32, TaskMetadata>,
    system_vtime: u64,
    settings: Settings,
}

impl<T> Scheduler<T> {
    /// The run queue, from the task to be served last to the one served
    /// next.
    pub closed spec fn queue(&self) -> Seq<Task<T>> {
        self.tasks@
    }

    /// The bookkeeping of each task seen so far, by pid.
    pub closed spec fn table(&self) -> Map<i32, TaskMetadata> {
        self.meta@
    }

    /// The system virtual time.
    pub closed spec fn vclock(&self) -> u64 {
        self.system_vtime
    }

    /// The settings the scheduler runs with.
    pub closed spec fn config(&self) -> Settings {
        self.settings
    }

    /// The state is consistent: the run queue is ordered by deadline and no
    /// task is ahead of the system virtual time.
    pub open spec fn wf(&self) -> bool {
        &&& sorted_by_deadline(self.queue())
        &&& vtimes_bounded(self.table(), self.vclock())
    }

    /// A scheduler that has seen no task yet.
    pub fn new(settings: Settings) -> (s: Self)
        ensures
            s.wf(),
            s.queue() == Seq::<Task<T>>::empty(),
            s.table() == Map::<i32, TaskMetadata>::empty(),
            s.vclock() == 0,
            s.config() == settings,
    {
        Scheduler {
            tasks: RunQueue::new(),
            meta: HashMap::new(),
            system_vtime: 0,
            settings,
        }
    }

    /// The settings the scheduler runs with.
    pub fn settings(&self) -> (s: Settings)
        ensures
            s == self.config(),
    {
        self.settings
    }

    /// The system virtual time.
    pub fn system_vtime(&self) -> (v: u64)
        ensures
            v == self.vclock(),
    {
        self.system_vtime
    }

    /// Number of tasks in the run queue.
    pub fn nr_waiting(&self) -> (n: usize)
        ensures
            n == self.queue().len(),
    {
        self.tasks.len()
    }

    /// The virtual time of task `pid`: what it has been charged, or the
    /// system virtual time it would start at if it has not been seen yet.
    pub fn vtime_of(&self, pid: i32) -> (v: u64)
        ensures
            v == task_vtime(self.table(), pid, self.vclock()),
    {
        match self.meta.get(&pid) {
            Some(m) => m.vtime,
            None => self.system_vtime,
        }
    }

    /// The bookkeeping of `pid` as an event at `now_ns` finds it.
    fn lookup(&self, pid: i32, now_ns: u64) -> (m: TaskMetadata)
        ensures
            m == current_metadata(self.table(), pid, now_ns, self.vclock()),
    {
        match self.meta.get(&pid) {
            Some(m) => *m,
            None => TaskMetadata::new(now_ns, self.system_vtime),
        }
    }

    /// Decays `m` at `now_ns` by the configured decay function.
    fn decay(&self, m: &mut TaskMetadata, lc_whole: u64, now_ns: u64) -> (r: DecayOutcome)
        ensures
            (*final(m), r) == decayed(*old(m), lc_whole, now_ns, self.config().decay_function),
    {
        match self.settings.decay_function {
            DecayFunction::Discrete => match m.discrete_decay(lc_whole, now_ns) {
                Some(lc) => DecayOutcome::Truncated(lc),
                None => DecayOutcome::Unchanged,
            },
            DecayFunction::Continous => DecayOutcome::Elapsed(m.continuous_decay(now_ns)),
        }
    }

    /// A wake-up involves task `pid` at `now_ns`: the task is registered if
    /// new and its latency criticality, whose whole part is `lc_whole`, is
    /// decayed. Returns what becomes of the criticality.
    pub fn decay_task(&mut self, pid: i32, lc_whole: u64, now_ns: u64) -> (r: DecayOutcome)
        requires
            old(self).wf(),
        ensures
            final(self).wf(),
            ({
                let m = current_metadata(old(self).table(), pid, now_ns, old(self).vclock());
                let (m2, outcome) = decayed(m, lc_whole, now_ns, old(self).config().decay_function);
                &&& r == outcome
                &&& final(self).table() == old(self).table().insert(pid, m2)
            }),
            final(self).table().contains_key(pid),
            old(self).table().contains_key(pid) ==> final(self).table()[pid].vtime == old(self).table()[pid].vtime,
            !old(self).table().contains_key(pid) ==> final(self).table()[pid].vtime == old(self).vclock(),
            forall|p: i32|
                p != pid ==> #[trigger] final(self).table().contains_key(p) == old(self).table().contains_key(p) && (old(self).table().contains_key(p) ==> final(self).table()[p] == old(self).table()[p]),
            final(self).queue() == old(self).queue(),
            final(self).vclock() == old(self).vclock(),
            final(self).config() == old(self).config(),
    {
        let mut m = self.lookup(pid, now_ns);
        let r = self.decay(&mut m, lc_whole, now_ns);
        self.meta.insert(pid, m);
        proof {
            assert forall|p: i32| #[trigger] self.meta@.contains_key(p) implies self.meta@[p].vtime
                <= self.system_vtime by {
                if p != pid {
                    assert(old(self).table().contains_key(p));
                }
            }
        }
        r
    }

    /// Task `pid` became runnable at `now_ns` after using CPU time worth
    /// `vtime_delta` of virtual time: the task is registered if new, charged,
    /// and its criticality, whose whole part is `lc_whole`, is decayed; the
    /// system virtual time catches up with the task's. Returns what becomes
    /// of the criticality.
    pub fn charge_task(&mut self, pid: i32, vtime_delta: u64, lc_whole: u64, now_ns: u64) -> (r:
        DecayOutcome)
        requires
            old(self).wf(),
            current_metadata(old(self).table(), pid, now_ns, old(self).vclock()).vtime + vtime_delta
                <= u64::MAX,
        ensures
            final(self).wf(),
            ({
                let m = current_metadata(old(self).table(), pid, now_ns, old(self).vclock());
                let charged = TaskMetadata {
                    vtime: (m.vtime + vtime_delta) as u64,
                    prev_decay_ns: m.prev_decay_ns,
                };
                let (m2, outcome) = decayed(
                    charged,
                    lc_whole,
                    now_ns,
                    old(self).config().decay_function,
                );
                &&& r == outcome
                &&& final(self).table() == old(self).table().insert(pid, m2)
                &&& final(self).vclock() == if old(self).vclock() < m2.vtime {
                    m2.vtime
                } else {
                    old(self).vclock()
                }
            }),
            old(self).vclock() <= final(self).vclock(),
            final(self).table().contains_key(pid),
            old(self).table().contains_key(pid) ==> final(self).table()[pid].vtime == old(self).table()[pid].vtime + vtime_delta,
            !old(self).table().contains_key(pid) ==> final(self).table()[pid].vtime == old(self).vclock() + vtime_delta,
            final(self).table()[pid].vtime <= final(self).vclock(),
            forall|p: i32|
                p != pid ==> #[trigger] final(self).table().contains_key(p) == old(self).table().contains_key(p) && (old(self).table().contains_key(p) ==> final(self).table()[p] == old(self).table()[p]),
            final(self).queue() == old(self).queue(),
            final(self).config() == old(self).config(),
    {
        let mut m = self.lookup(pid, now_ns);
        m.vtime = m.vtime + vtime_delta;
        let r = self.decay(&mut m, lc_whole, now_ns);
        if self.system_vtime < m.vtime {
            self.system_vtime = m.vtime;
        }
        self.meta.insert(pid, m);
        proof {
            assert forall|p: i32| #[trigger] self.meta@.contains_key(p) implies self.meta@[p].vtime
                <= self.system_vtime by {
                if p != pid {
                    assert(old(self).table().contains_key(p));
                }
            }
        }
        r
    }

    /// Queues `item`, belonging to task `pid`, with the virtual deadline
    /// `vtime(pid) + slice_vtime`.
    pub fn enqueue(&mut self, pid: i32, item: T, slice_vtime: u64)
        requires
            old(self).wf(),
            task_vtime(old(self).table(), pid, old(self).vclock()) + slice_vtime <= u64::MAX,
        ensures
            final(self).wf(),
            placed(
                old(self).queue(),
                Task {
                    item,
                    v_deadline: (task_vtime(old(self).table(), pid, old(self).vclock())
                        + slice_vtime) as u64,
                },
                final(self).queue(),
            ),
            old(self).table().contains_key(pid) ==> placed(
                old(self).queue(),
                Task { item, v_deadline: (old(self).table()[pid].vtime + slice_vtime) as u64 },
                final(self).queue(),
            ),
            final(self).table() == old(self).table(),
            final(self).vclock() == old(self).vclock(),
            final(self).config() == old(self).config(),
    {
        let vtime = self.vtime_of(pid);
        let v_deadline = vtime + slice_vtime;
        self.tasks.push(Task { item, v_deadline });
    }

    /// One dispatch round. `nr_online_cpus` and `nr_queued` are the numbers
    /// of online CPUs and of tasks queued in the kernel. Takes from the run
    /// queue, earliest deadline first, the tasks the configured strategy
    /// sends this round, and fixes their slice and the number of waiting
    /// tasks to report afterwards (0 when the round sends nothing).
    pub fn dispatch(&mut self, nr_online_cpus: u64, nr_queued: u64) -> (plan: DispatchPlan<T>)
        requires
            old(self).wf(),
            old(self).config().dispatch_strategy == DispatchStrategy::Batch ==> 2 * nr_online_cpus
                <= u64::MAX,
        ensures
            final(self).wf(),
            ({
                let s = old(self).queue();
                let k = round_size(
                    old(self).config().dispatch_strategy,
                    nr_online_cpus as nat,
                    nr_queued as nat,
                    s.len(),
                );
                &&& plan.tasks@ == served(s, k)
                &&& final(self).queue() == left(s, k)
                &&& plan.slice_ns == slice_for(s.len())
                &&& plan.nr_remaining == if k == 0 {
                    0
                } else {
                    s.len() - k
                }
            }),
            plan.tasks@.len() <= old(self).queue().len(),
            forall|i: int|
                0 <= i < plan.tasks@.len() ==> #[trigger] plan.tasks@[i] == old(self).queue()[old(self).queue().len() - 1 - i],
            final(self).queue() == old(self).queue().subrange(0, final(self).queue().len() as int),
            final(self).queue().len() == old(self).queue().len() - plan.tasks@.len(),
            old(self).config().dispatch_strategy == DispatchStrategy::DripFeed ==> plan.tasks@.len()
                == if old(self).queue().len() == 0 {
                0nat
            } else {
                1nat
            },
            old(self).config().dispatch_strategy == DispatchStrategy::Batch && nr_queued >= 2
                * nr_online_cpus ==> plan.tasks@.len() == 0 && plan.nr_remaining == 0,
            old(self).config().dispatch_strategy == DispatchStrategy::Batch && nr_queued < 2
                * nr_online_cpus ==> nr_queued + plan.tasks@.len() <= 2 * nr_online_cpus && (
            nr_queued + plan.tasks@.len() == 2 * nr_online_cpus || plan.tasks@.len() == old(self).queue().len()),
            plan.tasks@.len() > 0 ==> plan.nr_remaining == final(self).queue().len(),
            plan.slice_ns == if RUNTIME_NS as nat / (old(self).queue().len() + 1) >= MIN_SLICE_NS {
                RUNTIME_NS as nat / (old(self).queue().len() + 1)
            } else {
                MIN_SLICE_NS as nat
            },
            forall|i: int, j: int|
                0 <= i < j < plan.tasks@.len() ==> plan.tasks@[i].v_deadline
                    <= plan.tasks@[j].v_deadline,
            forall|i: int, j: int|
                0 <= i < plan.tasks@.len() && 0 <= j < final(self).queue().len()
                    ==> plan.tasks@[i].v_deadline <= final(self).queue()[j].v_deadline,
            final(self).table() == old(self).table(),
            final(self).vclock() == old(self).vclock(),
            final(self).config() == old(self).config(),
    {
        let ghost s = self.tasks@;
        let waiting = self.tasks.len() as u64;
        let slice_ns = exec_slice_ns(waiting);
        proof {
            lemma_round_size_bounds(
                self.settings.dispatch_strategy,
                nr_online_cpus as nat,
                nr_queued as nat,
                s.len(),
            );
        }
        let k: u64 = match self.settings.dispatch_strategy {
            DispatchStrategy::DripFeed => if waiting == 0 {
                0
            } else {
                1
            },
            DispatchStrategy::Batch => {
                let budget = dispatch_budget(nr_online_cpus, nr_queued);
                if budget < waiting {
                    budget
                } else {
                    waiting
                }
            },
        };
        if k == 0 {
            assert(served(s, 0) =~= Seq::<Task<T>>::empty());
            assert(left(s, 0) =~= s);
            return DispatchPlan { tasks: Vec::new(), slice_ns, nr_remaining: 0 };
        }
        let mut tasks: Vec<Task<T>> = Vec::new();
        let mut i: u64 = 0;
        while i < k
            invariant
                0 <= i <= k <= s.len(),
                self.tasks@ == left(s, i as nat),
                tasks@ == served(s, i as nat),
                sorted_by_deadline(self.tasks@),
                self.meta@ == old(self).table(),
                self.system_vtime == old(self).vclock(),
                self.settings == old(self).config(),
            decreases k - i,
        {
            let popped = self.tasks.pop();
            if let Some(t) = popped {
                tasks.push(t);
            }
            assert(self.tasks@ =~= left(s, (i + 1) as nat));
            assert(tasks@ =~= served(s, (i + 1) as nat));
            i = i + 1;
        }
        proof {
            lemma_round_in_deadline_order(s, k as nat);
        }
        let nr_remaining = self.tasks.len() as u64;
        DispatchPlan { tasks, slice_ns, nr_remaining }
    }
}

/// A dispatch round loses no task and invents none: the run queue is what is
/// left followed by what was served, taken back in reverse.
pub proof fn lemma_round_splits_queue<T>(s: Seq<Task<T>>, k: nat)
    requires
        k <= s.len(),
    ensures
        s == left(s, k) + served(s, k).reverse(),
        served(s, k).len() == k,
{
    assert(s =~= left(s, k) + served(s, k).reverse());
}

/// As multisets: the tasks served and the tasks left make up the run queue.
pub proof fn lemma_round_conserves_tasks<T>(s: Seq<Task<T>>, k: nat)
    requires
        k <= s.len(),
    ensures
        s.to_multiset() == left(s, k).to_multiset().add(served(s, k).to_multiset()),
{
    lemma_round_splits_queue(s, k);
    vstd::seq_lib::lemma_multiset_commutative(left(s, k), served(s, k).reverse());
    served(s, k).lemma_reverse_to_multiset();
}

/// A dispatch round serves the earliest deadlines, in deadline order: the
/// tasks it sends come earliest first, and none of the tasks left waiting
/// has an earlier deadline than any task sent.
pub proof fn lemma_round_in_deadline_order<T>(s: Seq<Task<T>>, k: nat)
    requires
        sorted_by_deadline(s),
        k <= s.len(),
    ensures
        forall|i: int, j: int|
            0 <= i < j < k ==> served(s, k)[i].v_deadline <= served(s, k)[j].v_deadline,
        forall|i: int, j: int|
            0 <= i < k && 0 <= j < s.len() - k ==> served(s, k)[i].v_deadline <= left(
                s,
                k,
            )[j].v_deadline,
{
}

/// A round sends at most one task when drip-feeding; in a batch it never
/// pushes the kernel queue beyond two tasks per online CPU, and it sends at
/// least one task whenever tasks wait and the kernel queue is below that.
pub proof fn lemma_round_size_bounds(
    strategy: DispatchStrategy,
    nr_online_cpus: nat,
    nr_queued: nat,
    nr_waiting: nat,
)
    ensures
        round_size(strategy, nr_online_cpus, nr_queued, nr_waiting) <= nr_waiting,
        strategy == DispatchStrategy::DripFeed ==> round_size(
            strategy,
            nr_online_cpus,
            nr_queued,
            nr_waiting,
        ) <= 1,
        strategy == DispatchStrategy::Batch && nr_queued < 2 * nr_online_cpus ==> nr_queued
            + round_size(strategy, nr_online_cpus, nr_queued, nr_waiting) <= 2 * nr_online_cpus,
        strategy == DispatchStrategy::Batch && nr_queued >= 2 * nr_online_cpus ==> round_size(
            strategy,
            nr_online_cpus,
            nr_queued,
            nr_waiting,
        ) == 0,
        nr_waiting > 0 && (strategy == DispatchStrategy::DripFeed || nr_queued < 2
            * nr_online_cpus) ==> round_size(strategy, nr_online_cpus, nr_queued, nr_waiting) > 0,
        strategy == DispatchStrategy::DripFeed && nr_waiting > 0 ==> round_size(
            strategy,
            nr_online_cpus,
            nr_queued,
            nr_waiting,
        ) == 1,
        strategy == DispatchStrategy::Batch && nr_queued < 2 * nr_online_cpus ==> (nr_queued
            + round_size(strategy, nr_online_cpus, nr_queued, nr_waiting) == 2 * nr_online_cpus
            || round_size(strategy, nr_online_cpus, nr_queued, nr_waiting) == nr_waiting),
{
}

/// A batch round sends as many tasks as fit: when at least
/// `2 * nr_online_cpus - nr_queued` tasks wait, exactly that many are sent,
/// bringing the kernel queue to two tasks per online CPU; when fewer wait,
/// all of them are sent.
pub proof fn lemma_batch_round_fills_kernel_queue(
    nr_online_cpus: nat,
    nr_queued: nat,
    nr_waiting: nat,
)
    requires
        nr_queued < 2 * nr_online_cpus,
    ensures
        nr_waiting >= 2 * nr_online_cpus - nr_queued ==> nr_queued + round_size(
            DispatchStrategy::Batch,
            nr_online_cpus,
            nr_queued,
            nr_waiting,
        ) == 2 * nr_online_cpus,
        nr_waiting < 2 * nr_online_cpus - nr_queued ==> round_size(
            DispatchStrategy::Batch,
            nr_online_cpus,
            nr_queued,
            nr_waiting,
        ) == nr_waiting,
{
}

/// The bookkeeping an event works on for a task already seen is exactly what
/// is stored for it, whatever the time and the system virtual time; a task
/// not seen yet starts at the system virtual time with its decay clock at
/// the present.
pub proof fn lemma_current_metadata_is_stored(
    table: Map<i32, TaskMetadata>,
    pid: i32,
    now1: u64,
    vclock1: u64,
    now2: u64,
    vclock2: u64,
)
    ensures
        table.contains_key(pid) ==> current_metadata(table, pid, now1, vclock1) == table[pid],
        table.contains_key(pid) ==> current_metadata(table, pid, now1, vclock1)
            == current_metadata(table, pid, now2, vclock2),
        !table.contains_key(pid) ==> current_metadata(table, pid, now1, vclock1).vtime == vclock1,
        !table.contains_key(pid) ==> current_metadata(table, pid, now1, vclock1).prev_decay_ns
            == now1,
        task_vtime(table, pid, vclock1) == current_metadata(table, pid, now1, vclock1).vtime,
{
}

/// A task's virtual time is what is stored for it, independent of the system
/// virtual time; a task not seen yet is at the system virtual time.
pub proof fn lemma_task_vtime_is_stored(
    table: Map<i32, TaskMetadata>,
    pid: i32,
    vclock1: u64,
    vclock2: u64,
)
    ensures
        table.contains_key(pid) ==> task_vtime(table, pid, vclock1) == table[pid].vtime,
        table.contains_key(pid) ==> task_vtime(table, pid, vclock1) == task_vtime(
            table,
            pid,
            vclock2,
        ),
        !table.contains_key(pid) ==> task_vtime(table, pid, vclock1) == vclock1,
{
}

/// The whole part of the criticality after a decay with outcome `o`, when it
/// was `lc` before.
pub open spec fn criticality_after(o: DecayOutcome, lc: u64) -> u64 {
    match o {
        DecayOutcome::Truncated(v) => v,
        _ => lc,
    }
}

/// What a discrete decay does, stated on the clock: from `prev <= now`, the
/// clock advances by a whole number of half-lives to within one half-life of
/// `now`, the vtime is untouched, and the criticality is halved once per
/// half-life the clock advanced (it is left alone when the clock stays).
pub proof fn lemma_discrete_decay_clock(m: TaskMetadata, lc: u64, now: u64)
    requires
        m.prev_decay_ns <= now,
    ensures
        ({
            let (m2, o) = decayed(m, lc, now, DecayFunction::Discrete);
            let h = HALF_LIFE_NS as int;
            let steps = (m2.prev_decay_ns - m.prev_decay_ns) / h;
            &&& m2.vtime == m.vtime
            &&& m.prev_decay_ns <= m2.prev_decay_ns <= now
            &&& now - m2.prev_decay_ns < h
            &&& (m2.prev_decay_ns - m.prev_decay_ns) % h == 0
            &&& (m2.prev_decay_ns == m.prev_decay_ns <==> o == DecayOutcome::Unchanged)
            &&& m2.prev_decay_ns != m.prev_decay_ns ==> o == DecayOutcome::Truncated(
                (lc as nat / pow2(steps as nat)) as u64,
            )
        }),
{
    let h = HALF_LIFE_NS as int;
    let e = now - m.prev_decay_ns;
    vstd::arithmetic::div_mod::lemma_fundamental_div_mod(e, h);
    let n = e / h;
    let (m2, o) = decayed(m, lc, now, DecayFunction::Discrete);
    if n > 0 {
        assert(m2.prev_decay_ns - m.prev_decay_ns == n * h);
        vstd::arithmetic::div_mod::lemma_mod_multiples_basic(n, h);
        vstd::arithmetic::div_mod::lemma_div_multiples_vanish(n, h);
        assert((n * h) / h == n) by {
            vstd::arithmetic::mul::lemma_mul_is_commutative(n, h);
        }
    } else {
        assert(m2.prev_decay_ns == m.prev_decay_ns);
    }
}

/// Discrete decay on wake-ups does not depend on how often it happens:
/// decaying at `t1` and then at `t2` leaves the same bookkeeping and the
/// same criticality as decaying once at `t2`.
pub proof fn lemma_decay_twice_is_decay_once(m: TaskMetadata, lc: u64, t1: u64, t2: u64)
    requires
        m.prev_decay_ns <= t1 <= t2,
    ensures
        ({
            let (m1, o1) = decayed(m, lc, t1, DecayFunction::Discrete);
            let lc1 = criticality_after(o1, lc);
            let (m2, o2) = decayed(m1, lc1, t2, DecayFunction::Discrete);
            let (m3, o3) = decayed(m, lc, t2, DecayFunction::Discrete);
            &&& m2 == m3
            &&& criticality_after(o2, lc1) == criticality_after(o3, lc)
        }),
{
    crate::decay::lemma_discrete_decay_path_independent(lc, m.prev_decay_ns, t1, t2);
    lemma_discrete_decay_clock(m, lc, t1);
    lemma_discrete_decay_clock(m, lc, t2);
    let (m1, o1) = decayed(m, lc, t1, DecayFunction::Discrete);
    lemma_discrete_decay_clock(m1, criticality_after(o1, lc), t2);
}

/// Continuous decay moves the clock to the present and reports the time
/// elapsed since the last decay (0 when the present is not later).
pub proof fn lemma_continuous_decay_clock(m: TaskMetadata, lc: u64, now: u64)
    ensures
        ({
            let (m2, o) = decayed(m, lc, now, DecayFunction::Continous);
            &&& m2.vtime == m.vtime
            &&& m2.prev_decay_ns == now
            &&& now >= m.prev_decay_ns ==> o == DecayOutcome::Elapsed(
                (now - m.prev_decay_ns) as u64,
            )
            &&& now < m.prev_decay_ns ==> o == DecayOutcome::Elapsed(0)
        }),
{
}

} // verus!

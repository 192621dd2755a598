//! The run queue: tasks waiting for a CPU, served earliest virtual deadline
//! first.
use vstd::prelude::*;

use crate::task::Task;

verus! {

/// `s` is ordered from the latest virtual deadline down to the earliest, so
/// that its last element is the one to serve next.
pub open spec fn sorted_by_deadline<T>(s: Seq<Task<T>>) -> bool {
    forall|i: int, j: int| 0 <= i < j < s.len() ==> s[i].v_deadline >= s[j].v_deadline
}

/// `after` is `before` with `task` inserted so that it is served after every
/// queued task whose deadline is not later than its own, and before every
/// task with a later deadline.
pub open spec fn placed<T>(before: Seq<Task<T>>, task: Task<T>, after: Seq<Task<T>>) -> bool {
    exists|k: int|
        #![trigger before.insert(k, task)]
        {
            &&& 0 <= k <= before.len()
            &&& after == before.insert(k, task)
            &&& forall|i: int| 0 <= i < k ==> before[i].v_deadline > task.v_deadline
            &&& forall|i: int| k <= i < before.len() ==> before[i].v_deadline <= task.v_deadline
        }
}

/// Pushing adds exactly the pushed task to the queue's contents.
pub proof fn lemma_placed_adds_task<T>(before: Seq<Task<T>>, task: Task<T>, after: Seq<Task<T>>)
    requires
        placed(before, task, after),
    ensures
        after.to_multiset() == before.to_multiset().insert(task),
        after.len() == before.len() + 1,
{
    let k = choose|k: int|
        #![trigger before.insert(k, task)]
        {
            &&& 0 <= k <= before.len()
            &&& after == before.insert(k, task)
            &&& forall|i: int| 0 <= i < k ==> before[i].v_deadline > task.v_deadline
            &&& forall|i: int| k <= i < before.len() ==> before[i].v_deadline <= task.v_deadline
        };
    vstd::seq_lib::to_multiset_insert(before, k, task);
}

/// A priority queue of tasks keyed by virtual deadline. `pop` always yields
/// a task with the earliest deadline; among tasks with equal deadlines the
/// one pushed first leaves first.
pub struct RunQueue<T> {
    tasks: Vec<Task<T>>,
}

impl<T> View for RunQueue<T> {
    type V = Seq<Task<T>>;

    /// The queued tasks, from the one to be served last to the one to be
    /// served next.
    closed spec fn view(&self) -> Seq<Task<T>> {
        self.tasks@
    }
}

impl<T> RunQueue<T> {
    #[verifier::type_invariant]
    spec fn inv(self) -> bool {
        sorted_by_deadline(self.tasks@)
    }

    /// An empty queue.
    pub fn new() -> (q: Self)
        ensures
            q@ == Seq::<Task<T>>::empty(),
    {
        RunQueue { tasks: Vec::new() }
    }

    /// Number of queued tasks.
    pub fn len(&self) -> (n: usize)
        ensures
            n == self@.len(),
    {
        self.tasks.len()
    }

    /// Adds `task`, behind every queued task with an earlier or equal
    /// deadline.
    pub fn push(&mut self, task: Task<T>)
        ensures
            placed(old(self)@, task, final(self)@),
            sorted_by_deadline(final(self)@),
            final(self)@.len() == old(self)@.len() + 1,
            final(self)@.to_multiset() == old(self)@.to_multiset().insert(task),
            forall|i: int, j: int|
                0 <= i < j < final(self)@.len() ==> final(self)@[i].v_deadline >= final(self)@[j].v_deadline,
    {
        proof {
            use_type_invariant(&*self);
        }
        let ghost s = self.tasks@;
        let mut lo: usize = 0;
        let mut hi: usize = self.tasks.len();
        while lo < hi
            invariant
                s == self.tasks@,
                sorted_by_deadline(s),
                0 <= lo <= hi <= s.len(),
                forall|i: int| 0 <= i < lo ==> s[i].v_deadline > task.v_deadline,
                forall|i: int| hi <= i < s.len() ==> s[i].v_deadline <= task.v_deadline,
            decreases hi - lo,
        {
            let mid = lo + (hi - lo) / 2;
            if task > self.tasks[mid] {
                lo = mid + 1;
            } else {
                hi = mid;
            }
        }
        let ghost after = s.insert(lo as int, task);
        assert(sorted_by_deadline(after)) by {
            assert forall|i: int, j: int| 0 <= i < j < after.len() implies after[i].v_deadline
                >= after[j].v_deadline by {
                if j < lo {
                } else if j == lo {
                } else if i < lo {
                } else if i == lo {
                } else {
                    assert(after[i] == s[i - 1]);
                    assert(after[j] == s[j - 1]);
                }
            }
        }
        let mut tasks = Vec::new();
        std::mem::swap(&mut tasks, &mut self.tasks);
        tasks.insert(lo, task);
        assert(tasks@ == after);
        self.tasks = tasks;
        proof {
            lemma_placed_adds_task(s, task, self.tasks@);
        }
    }

    /// Removes and returns the task with the earliest deadline, or `None`
    /// when the queue is empty.
    pub fn pop(&mut self) -> (r: Option<Task<T>>)
        ensures
            old(self)@.len() == 0 ==> r is None && final(self)@ == old(self)@,
            old(self)@.len() > 0 ==> r == Some(old(self)@.last()) && final(self)@ == old(self)@.drop_last(),
            r matches Some(t) ==> forall|i: int|
                0 <= i < old(self)@.len() ==> t.v_deadline <= #[trigger] old(self)@[i].v_deadline,
            sorted_by_deadline(final(self)@),
    {
        proof {
            use_type_invariant(&*self);
        }
        let mut tasks = Vec::new();
        std::mem::swap(&mut tasks, &mut self.tasks);
        let r = tasks.pop();
        assert(sorted_by_deadline(tasks@));
        self.tasks = tasks;
        r
    }
}

} // verus!

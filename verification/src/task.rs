//! A runnable task tagged with its virtual deadline, and the priority order
//! between such tasks.
use core::cmp::Ordering;
use vstd::prelude::*;
use vstd::std_specs::cmp::PartialEqSpecImpl;
use vstd::std_specs::cmp::PartialOrdSpecImpl;

verus! {

/// A task waiting to be dispatched: whatever describes it (`item`) together
/// with the virtual deadline that decides when it runs.
pub struct Task<T> {
    pub item: T,
    pub v_deadline: u64,
}

impl<T> Task<T> {
    /// Priority order: a task with an earlier virtual deadline is the
    /// greater one, i.e. it is served first.
    pub open spec fn priority(self, other: Self) -> Ordering {
        if other.v_deadline < self.v_deadline {
            Ordering::Less
        } else if other.v_deadline == self.v_deadline {
            Ordering::Equal
        } else {
            Ordering::Greater
        }
    }

    /// Compares two tasks by priority: `Greater` means that `self` has the
    /// earlier virtual deadline and must be served before `other`.
    pub fn cmp(&self, other: &Self) -> (r: Ordering)
        ensures
            r == self.priority(*other),
    {
        if other.v_deadline < self.v_deadline {
            Ordering::Less
        } else if other.v_deadline == self.v_deadline {
            Ordering::Equal
        } else {
            Ordering::Greater
        }
    }
}

/// The priority order is a total order: comparing the other way round gives
/// the reverse answer, it agrees with `==`, and it is transitive.
pub proof fn lemma_priority_total_order<T>(a: Task<T>, b: Task<T>, c: Task<T>)
    ensures
        a.priority(b) == Ordering::Less <==> b.priority(a) == Ordering::Greater,
        (a.priority(b) == Ordering::Equal) == (a.v_deadline == b.v_deadline),
        a.priority(b) == Ordering::Greater && b.priority(c) == Ordering::Greater ==> a.priority(c)
            == Ordering::Greater,
        a.priority(b) == Ordering::Greater <==> a.v_deadline < b.v_deadline,
{
}

impl<T> PartialEq for Task<T> {
    /// Two tasks are equal in priority when their virtual deadlines agree.
    fn eq(&self, other: &Self) -> (r: bool) {
        self.v_deadline == other.v_deadline
    }
}

impl<T> PartialEqSpecImpl for Task<T> {
    open spec fn obeys_eq_spec() -> bool {
        true
    }

    open spec fn eq_spec(&self, other: &Self) -> bool {
        self.v_deadline == other.v_deadline
    }
}

impl<T> Eq for Task<T> {
}

impl<T> PartialOrd for Task<T> {
    /// The priority order is total: always `Some(self.cmp(other))`.
    fn partial_cmp(&self, other: &Self) -> (r: Option<Ordering>) {
        Some(self.cmp(other))
    }
}

impl<T> PartialOrdSpecImpl for Task<T> {
    open spec fn obeys_partial_cmp_spec() -> bool {
        true
    }

    open spec fn partial_cmp_spec(&self, other: &Self) -> Option<Ordering> {
        Some(self.priority(*other))
    }
}

} // verus!

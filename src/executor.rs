//! Scheduling decisions of a cooperative executor over a fixed set of tasks.
//! The executor never preempts: the runtime polls the task this module picks,
//! and reports back how the task suspended. Ready tasks are picked in
//! round-robin order.
use vstd::prelude::*;

verus! {

/// Where a task stands.
#[derive(Clone, Copy, Debug, PartialEq, Eq, Structural)]
pub enum TaskState {
    /// Waiting to be polled.
    Ready,
    /// Being polled now.
    Running,
    /// Suspended until the clock reaches the deadline (milliseconds).
    Sleeping(u64),
    /// Suspended until woken (a channel, a signal, a bus completion).
    Waiting,
    /// Its body returned; it is never polled again.
    Done,
}

/// How a polled task gave control back.
#[derive(Clone, Copy, Debug, PartialEq, Eq, Structural)]
pub enum Suspend {
    /// It can go on at once.
    Yield,
    /// It waits for the clock to reach the deadline.
    SleepUntil(u64),
    /// It waits for an event.
    Wait,
    /// Its body returned.
    Finish,
}

/// The state a task is left in by a suspension.
pub open spec fn suspended_state(s: Suspend) -> TaskState {
    match s {
        Suspend::Yield => TaskState::Ready,
        Suspend::SleepUntil(d) => TaskState::Sleeping(d),
        Suspend::Wait => TaskState::Waiting,
        Suspend::Finish => TaskState::Done,
    }
}

/// The task `k` places after `cursor` in round-robin order over `n` tasks.
pub open spec fn rr_index(cursor: nat, k: nat, n: nat) -> nat {
    if cursor + k < n {
        cursor + k
    } else {
        (cursor + k - n) as nat
    }
}

/// How many places task `i` comes after `cursor` in round-robin order over
/// `n` tasks.
pub open spec fn rr_distance(cursor: nat, i: nat, n: nat) -> nat {
    if i >= cursor {
        (i - cursor) as nat
    } else {
        (i + n - cursor) as nat
    }
}

/// Round-robin fairness of a pick. Let `i` be the task picked from `cursor`:
/// ready, with no ready task before it in round-robin order. Then a ready
/// task `j` is no farther from the cursor than `i`, and unless `j` was the one
/// picked it comes strictly nearer to the cursor that follows `i`. So a task
/// that stays ready is picked within as many picks as there are tasks.
pub proof fn lemma_round_robin_fair(tasks: Seq<TaskState>, cursor: nat, i: nat, j: nat)
    requires
        cursor < tasks.len(),
        i < tasks.len(),
        j < tasks.len(),
        tasks[j as int] == TaskState::Ready,
        forall|m: nat|
            m < rr_distance(cursor, i, tasks.len()) ==> tasks[rr_index(cursor, m, tasks.len()) as int]
                != TaskState::Ready,
    ensures
        rr_distance(cursor, i, tasks.len()) <= rr_distance(cursor, j, tasks.len()),
        j != i ==> rr_distance(rr_index(i, 1, tasks.len()), j, tasks.len()) < rr_distance(
            cursor,
            j,
            tasks.len(),
        ),
{
    let n = tasks.len();
    let d = rr_distance(cursor, j, n);
    assert(rr_index(cursor, d, n) == j);
    if rr_distance(cursor, i, n) > d {
        assert(tasks[rr_index(cursor, d, n) as int] != TaskState::Ready);
    }
}

/// The state a task has after the clock reads `now`: a sleeper whose
/// deadline has passed is ready, every other task keeps its state.
pub open spec fn after_tick(s: TaskState, now: u64) -> TaskState {
    match s {
        TaskState::Sleeping(d) => if d <= now {
            TaskState::Ready
        } else {
            s
        },
        _ => s,
    }
}

/// The scheduler of a fixed set of tasks, numbered from zero.
#[derive(Debug)]
pub struct Executor {
    states: Vec<TaskState>,
    cursor: usize,
}

impl Executor {
    /// The state of each task.
    pub closed spec fn tasks(&self) -> Seq<TaskState> {
        self.states@
    }

    /// The task the next round-robin search starts at.
    pub closed spec fn next_start(&self) -> nat {
        self.cursor as nat
    }

    /// The cursor names a task, when there is one.
    pub closed spec fn wf(&self) -> bool {
        if self.states@.len() == 0 {
            self.cursor == 0
        } else {
            self.cursor < self.states@.len()
        }
    }

    /// `n` tasks, all ready; the first search starts at task zero.
    pub fn new(n: usize) -> (r: Executor)
        ensures
            r.wf(),
            r.tasks() == Seq::new(n as nat, |i: int| TaskState::Ready),
            r.next_start() == 0,
    {
        let mut states: Vec<TaskState> = Vec::new();
        let mut i: usize = 0;
        while i < n
            invariant
                i <= n,
                states@ == Seq::new(i as nat, |k: int| TaskState::Ready),
            decreases n - i,
        {
            states.push(TaskState::Ready);
            i = i + 1;
            proof {
                assert(states@ =~= Seq::new(i as nat, |k: int| TaskState::Ready));
            }
        }
        Executor { states, cursor: 0 }
    }

    /// Number of tasks.
    pub fn len(&self) -> (r: usize)
        ensures
            r == self.tasks().len(),
    {
        self.states.len()
    }

    /// The state of task `i`.
    pub fn state(&self, i: usize) -> (r: TaskState)
        requires
            i < self.tasks().len(),
        ensures
            r == self.tasks()[i as int],
    {
        self.states[i]
    }

    /// Picks the first ready task in round-robin order from the cursor, marks
    /// it running and moves the cursor past it. `None` when no task is ready.
    pub fn next_task(&mut self) -> (r: Option<usize>)
        requires
            old(self).wf(),
        ensures
            final(self).wf(),
            r is None ==> final(self).tasks() == old(self).tasks(),
            r is None ==> final(self).next_start() == old(self).next_start(),
            r is None ==> forall|j: int| 0 <= j < old(self).tasks().len()
                ==> old(self).tasks()[j] != TaskState::Ready,
            r matches Some(i) ==> i < old(self).tasks().len(),
            r matches Some(i) ==> old(self).tasks()[i as int] == TaskState::Ready,
            r matches Some(i) ==> final(self).tasks() == old(self).tasks().update(
                i as int,
                TaskState::Running,
            ),
            r matches Some(i) ==> final(self).next_start() == rr_index(
                i as nat,
                1,
                old(self).tasks().len(),
            ),
            r matches Some(i) ==> forall|m: nat|
                m < rr_distance(old(self).next_start(), i as nat, old(self).tasks().len())
                    ==> old(self).tasks()[rr_index(
                    old(self).next_start(),
                    m,
                    old(self).tasks().len(),
                ) as int] != TaskState::Ready,
    {
        let n = self.states.len();
        let mut k: usize = 0;
        while k < n
            invariant
                n == self.states@.len(),
                self.states@ == old(self).states@,
                self.cursor == old(self).cursor,
                self.wf(),
                k <= n,
                forall|m: nat| m < k ==> self.states@[rr_index(self.cursor as nat, m, n as nat) as int]
                    != TaskState::Ready,
            decreases n - k,
        {
            let idx: usize = if k < n - self.cursor {
                self.cursor + k
            } else {
                k - (n - self.cursor)
            };
            if self.states[idx] == TaskState::Ready {
                self.states.set(idx, TaskState::Running);
                self.cursor = if idx + 1 < n {
                    idx + 1
                } else {
                    0
                };
                proof {
                    let c = old(self).cursor as nat;
                    assert(rr_index(c, k as nat, n as nat) == idx);
                    assert(forall|m: nat| m < k ==> old(self).states@[rr_index(c, m, n as nat) as int]
                        != TaskState::Ready);
                    assert(self.states@ == old(self).states@.update(idx as int, TaskState::Running));
                    assert(rr_distance(c, idx as nat, n as nat) == k);
                }
                return Some(idx);
            }
            k = k + 1;
        }
        proof {
            assert forall|j: int| 0 <= j < n implies old(self).states@[j] != TaskState::Ready by {
                let m: nat = if j >= self.cursor {
                    (j - self.cursor) as nat
                } else {
                    (j + n - self.cursor) as nat
                };
                assert(rr_index(self.cursor as nat, m, n as nat) == j);
            }
        }
        None
    }

    /// Records how running task `i` gave control back.
    pub fn suspend(&mut self, i: usize, how: Suspend)
        requires
            old(self).wf(),
            i < old(self).tasks().len(),
        ensures
            final(self).wf(),
            final(self).tasks() == old(self).tasks().update(i as int, suspended_state(how)),
            final(self).next_start() == old(self).next_start(),
    {
        let s = match how {
            Suspend::Yield => TaskState::Ready,
            Suspend::SleepUntil(d) => TaskState::Sleeping(d),
            Suspend::Wait => TaskState::Waiting,
            Suspend::Finish => TaskState::Done,
        };
        self.states.set(i, s);
    }

    /// Makes task `i` ready if it waits for an event; any other state is kept.
    pub fn wake(&mut self, i: usize)
        requires
            old(self).wf(),
            i < old(self).tasks().len(),
        ensures
            final(self).wf(),
            final(self).next_start() == old(self).next_start(),
            old(self).tasks()[i as int] == TaskState::Waiting ==> final(self).tasks()
                == old(self).tasks().update(i as int, TaskState::Ready),
            old(self).tasks()[i as int] != TaskState::Waiting ==> final(self).tasks()
                == old(self).tasks(),
    {
        if self.states[i] == TaskState::Waiting {
            self.states.set(i, TaskState::Ready);
        }
    }

    /// Makes ready every sleeper whose deadline is at or before `now`.
    pub fn tick(&mut self, now: u64)
        requires
            old(self).wf(),
        ensures
            final(self).wf(),
            final(self).next_start() == old(self).next_start(),
            final(self).tasks().len() == old(self).tasks().len(),
            forall|j: int| 0 <= j < old(self).tasks().len() ==> final(self).tasks()[j]
                == after_tick(old(self).tasks()[j], now),
    {
        let n = self.states.len();
        let mut i: usize = 0;
        while i < n
            invariant
                n == self.states@.len(),
                n == old(self).states@.len(),
                self.cursor == old(self).cursor,
                i <= n,
                forall|j: int| 0 <= j < i ==> self.states@[j] == after_tick(old(self).states@[j], now),
                forall|j: int| i <= j < n ==> self.states@[j] == old(self).states@[j],
            decreases n - i,
        {
            match self.states[i] {
                TaskState::Sleeping(d) => {
                    if d <= now {
                        self.states.set(i, TaskState::Ready);
                    }
                },
                _ => {},
            }
            i = i + 1;
        }
    }

    /// The earliest deadline among sleeping tasks: when the runtime must next
    /// look at the clock.
    pub fn next_deadline(&self) -> (r: Option<u64>)
        ensures
            r matches Some(d) ==> exists|j: int| 0 <= j < self.tasks().len()
                && self.tasks()[j] == TaskState::Sleeping(d),
            r matches Some(d) ==> forall|j: int, e: u64| 0 <= j < self.tasks().len()
                && self.tasks()[j] == TaskState::Sleeping(e) ==> d <= e,
            r is None ==> forall|j: int, e: u64| 0 <= j < self.tasks().len()
                ==> self.tasks()[j] != TaskState::Sleeping(e),
    {
        let mut best: Option<u64> = None;
        let mut i: usize = 0;
        while i < self.states.len()
            invariant
                i <= self.states@.len(),
                best matches Some(d) ==> exists|j: int| 0 <= j < i && self.states@[j]
                    == TaskState::Sleeping(d),
                best matches Some(d) ==> forall|j: int, e: u64| 0 <= j < i && self.states@[j]
                    == TaskState::Sleeping(e) ==> d <= e,
                best is None ==> forall|j: int, e: u64| 0 <= j < i ==> self.states@[j]
                    != TaskState::Sleeping(e),
            decreases self.states@.len() - i,
        {
            match self.states[i] {
                TaskState::Sleeping(d) => {
                    match best {
                        Some(b) => {
                            if d < b {
                                best = Some(d);
                            }
                        },
                        None => {
                            best = Some(d);
                        },
                    }
                },
                _ => {},
            }
            i = i + 1;
        }
        best
    }

    /// Whether every task has finished.
    pub fn all_done(&self) -> (r: bool)
        ensures
            r == forall|j: int| 0 <= j < self.tasks().len() ==> self.tasks()[j] == TaskState::Done,
    {
        let mut i: usize = 0;
        while i < self.states.len()
            invariant
                i <= self.states@.len(),
                forall|j: int| 0 <= j < i ==> self.states@[j] == TaskState::Done,
            decreases self.states@.len() - i,
        {
            if self.states[i] != TaskState::Done {
                return false;
            }
            i = i + 1;
        }
        true
    }
}

} // verus!

//! Shared state of the fetch loop.
//!
//! A single [`FetchState`] coordinates every loop task with its callers: a
//! level-triggered `running` flag, a count of loop tasks that are still
//! executing, and a count of successful fetches since the last reset. The
//! caller that shares the state between tasks guards it with a mutex; every
//! operation here is a plain, total state transition.
//!
//! The accounting laws at the bottom state how the active-task count behaves
//! over whole histories of operations: it never goes below zero, and as long
//! as every task exit is matched by an earlier start it equals the number of
//! starts not yet matched by an exit.

use vstd::prelude::*;

verus! {

/// One operation on the shared state, as the accounting laws speak of it.
pub enum StateOp {
    /// [`FetchState::start`]: set the running flag, one more active task.
    Start,
    /// [`FetchState::stop`]: clear the running flag.
    Stop,
    /// [`FetchState::decrement_task_count`]: one loop task has exited.
    TaskExited,
    /// [`FetchState::reset_benchmark`]: zero the success counter.
    ResetCount,
    /// [`FetchState::increment_image_count`]: one more successful fetch.
    IncrementCount,
}

/// Mathematical model of the shared state.
pub struct StateModel {
    /// Whether loop tasks should keep fetching.
    pub running: bool,
    /// How many loop tasks are currently executing.
    pub active: int,
    /// How many fetches have succeeded since the last reset.
    pub successes: nat,
}

/// The model of a freshly created state.
pub open spec fn init_model() -> StateModel {
    StateModel { running: false, active: 0, successes: 0 }
}

/// What one operation does to the model. A task exit on an already empty
/// state leaves the count at zero: the count never goes below it.
pub open spec fn state_step(m: StateModel, op: StateOp) -> StateModel {
    match op {
        StateOp::Start => StateModel { running: true, active: m.active + 1, ..m },
        StateOp::Stop => StateModel { running: false, ..m },
        StateOp::TaskExited => StateModel {
            active: if m.active > 0 { m.active - 1 } else { 0 },
            ..m
        },
        StateOp::ResetCount => StateModel { successes: 0, ..m },
        StateOp::IncrementCount => StateModel { successes: m.successes + 1, ..m },
    }
}

/// The model after running `ops` in order, starting from `m`.
pub open spec fn apply_ops(m: StateModel, ops: Seq<StateOp>) -> StateModel
    decreases ops.len(),
{
    if ops.len() == 0 {
        m
    } else {
        state_step(apply_ops(m, ops.drop_last()), ops.last())
    }
}

/// How many `Start` operations `ops` holds.
pub open spec fn count_starts(ops: Seq<StateOp>) -> int
    decreases ops.len(),
{
    if ops.len() == 0 {
        0
    } else {
        count_starts(ops.drop_last()) + (if ops.last() is Start {
            1int
        } else {
            0int
        })
    }
}

/// How many `TaskExited` operations `ops` holds.
pub open spec fn count_exits(ops: Seq<StateOp>) -> int
    decreases ops.len(),
{
    if ops.len() == 0 {
        0
    } else {
        count_exits(ops.drop_last()) + (if ops.last() is TaskExited {
            1int
        } else {
            0int
        })
    }
}

/// Every task exit is matched by an earlier start: in no prefix of `ops` do
/// the exits outnumber the starts.
pub open spec fn exits_matched(ops: Seq<StateOp>) -> bool {
    forall|i: int|
        0 <= i <= ops.len() ==> count_exits(#[trigger] ops.take(i)) <= count_starts(ops.take(i))
}

/// Shared state of the fetch loop: the running flag, the number of loop tasks
/// still executing, and the number of successful fetches since the last
/// reset.
pub struct FetchState {
    running: bool,
    task_count: usize,
    image_count: usize,
}

impl View for FetchState {
    type V = StateModel;

    closed spec fn view(&self) -> StateModel {
        StateModel {
            running: self.running,
            active: self.task_count as int,
            successes: self.image_count as nat,
        }
    }
}

impl FetchState {
    /// A fresh state: not running, no active tasks, no successes.
    pub fn new() -> (s: FetchState)
        ensures
            s@ == init_model(),
    {
        FetchState { running: false, task_count: 0, image_count: 0 }
    }

    /// Set the running flag and count one more active loop task. Called once
    /// per loop start.
    pub fn start(&mut self)
        requires
            old(self)@.active < usize::MAX,
        ensures
            final(self)@ == state_step(old(self)@, StateOp::Start),
    {
        self.running = true;
        self.task_count = self.task_count + 1;
    }

    /// Clear the running flag. Idempotent: stopping an already stopped state
    /// changes nothing.
    pub fn stop(&mut self)
        ensures
            final(self)@ == state_step(old(self)@, StateOp::Stop),
    {
        self.running = false;
    }

    /// Snapshot of the running flag.
    pub fn is_running(&self) -> (r: bool)
        ensures
            r == self@.running,
    {
        self.running
    }

    /// One loop task has exited. Called exactly once on every exit path of a
    /// loop task; an unmatched call leaves the count at zero rather than
    /// taking it below.
    pub fn decrement_task_count(&mut self)
        ensures
            final(self)@ == state_step(old(self)@, StateOp::TaskExited),
    {
        if self.task_count > 0 {
            self.task_count = self.task_count - 1;
        }
    }

    /// Snapshot of the active-task count.
    pub fn get_task_count(&self) -> (r: usize)
        ensures
            r == self@.active,
    {
        self.task_count
    }

    /// Zero the success counter, at the start of a new benchmark window.
    pub fn reset_benchmark(&mut self)
        ensures
            final(self)@ == state_step(old(self)@, StateOp::ResetCount),
    {
        self.image_count = 0;
    }

    /// One more fetch has succeeded.
    pub fn increment_image_count(&mut self)
        requires
            old(self)@.successes < usize::MAX,
        ensures
            final(self)@ == state_step(old(self)@, StateOp::IncrementCount),
    {
        self.image_count = self.image_count + 1;
    }

    /// Snapshot of the success counter.
    pub fn get_benchmark_result(&self) -> (r: usize)
        ensures
            r == self@.successes,
    {
        self.image_count
    }
}

/// The active-task count never goes below zero, whatever operations run and
/// in whatever order, starting from any model whose count is not negative.
pub proof fn lemma_active_nonneg_from(m: StateModel, ops: Seq<StateOp>)
    requires
        m.active >= 0,
    ensures
        apply_ops(m, ops).active >= 0,
    decreases ops.len(),
{
    if ops.len() > 0 {
        lemma_active_nonneg_from(m, ops.drop_last());
    }
}

/// Law: over every history of operations on a freshly created state, the
/// active-task count never goes negative — even when a task exit arrives with
/// no start to match it.
pub proof fn lemma_active_never_negative(ops: Seq<StateOp>)
    ensures
        apply_ops(init_model(), ops).active >= 0,
{
    lemma_active_nonneg_from(init_model(), ops);
}

/// Law: over every history in which task exits never outnumber earlier
/// starts, the active-task count of a freshly created state equals the number
/// of starts not yet matched by an exit.
pub proof fn lemma_active_counts_unmatched_starts(ops: Seq<StateOp>)
    requires
        exits_matched(ops),
    ensures
        apply_ops(init_model(), ops).active == count_starts(ops) - count_exits(ops),
    decreases ops.len(),
{
    if ops.len() == 0 {
    } else {
        let prefix = ops.drop_last();
        assert forall|i: int| 0 <= i <= prefix.len() implies count_exits(
            #[trigger] prefix.take(i),
        ) <= count_starts(prefix.take(i)) by {
            assert(prefix.take(i) =~= ops.take(i));
            assert(count_exits(ops.take(i)) <= count_starts(ops.take(i)));
        }
        lemma_active_counts_unmatched_starts(prefix);
        assert(ops.take(ops.len() as int) =~= ops);
        assert(count_exits(ops) <= count_starts(ops));
        assert(prefix.take(prefix.len() as int) =~= prefix);
    }
}

} // verus!

//! Spawned work and the run-exactly-once handoff.
//!
//! Spawning moves an owned, one-shot unit of work onto a new execution
//! context.  The contract with the host is that the trampoline entry point
//! is invoked with the handed-off work exactly once and never again; the
//! guest must then run the work and free its captured state in that single
//! invocation — any other accounting either leaks it or frees it twice.
//!
//! Two pieces state that contract here.  [`TransferBox`] is the single-owner
//! cell around the work: the work can only be reached by
//! [`TransferBox::invoke`], which consumes the box, so a second run is ruled
//! out by ownership rather than by convention.  [`TaskCell`] is the
//! accounting of one handoff as a state machine, with the run-exactly-once
//! law proved over its transitions.

use vstd::prelude::*;

verus! {

/// A single-owner box around a one-shot unit of work.  The raw
/// address-passing that carries it across the boundary lives outside this
/// crate; what is enforced here is that the work inside can be run only by
/// consuming the box.
pub struct TransferBox<F> {
    work: F,
}

impl<F: FnOnce() -> ()> TransferBox<F> {
    /// The work the box carries.
    pub closed spec fn work(self) -> F {
        self.work
    }

    /// Seal a unit of work into a box.
    pub fn new(work: F) -> (t: TransferBox<F>)
        ensures
            t.work() == work,
    {
        TransferBox { work }
    }

    /// Run the boxed work.  Consuming `self` is what makes a second run
    /// impossible: once invoked, the box is gone, and the postcondition
    /// records that the one run took place.
    pub fn invoke(self) -> (r: ())
        requires
            call_requires(self.work(), ()),
        ensures
            call_ensures(self.work(), (), r),
    {
        (self.work)()
    }
}

/// The lifecycle of one spawn handoff.
#[derive(Debug, Clone, Copy, PartialEq, Eq, Structural)]
pub enum TaskState {
    /// Handed off, not yet run.
    Pending,
    /// Run and reclaimed.
    Done,
}

/// The accounting of one spawn handoff: its state, and how many times its
/// work has run.
#[derive(Debug, Clone, Copy, PartialEq, Eq, Structural)]
pub struct TaskCell {
    pub state: TaskState,
    pub runs: u64,
}

/// Sound accounting: a pending task has never run, a done task has run
/// exactly once.
pub open spec fn task_wf(t: TaskCell) -> bool {
    &&& t.state is Pending ==> t.runs == 0
    &&& t.state is Done ==> t.runs == 1
}

/// Whether the trampoline may fire on the task: only while it is pending.
pub open spec fn trampoline_enabled(t: TaskCell) -> bool {
    t.state is Pending
}

/// The task after the trampoline fired: done, with one more run recorded.
pub open spec fn trampoline_next(t: TaskCell) -> TaskCell {
    TaskCell { state: TaskState::Done, runs: (t.runs + 1) as u64 }
}

/// A fresh handoff: pending, never run.
pub fn fresh_task() -> (t: TaskCell)
    ensures
        t == (TaskCell { state: TaskState::Pending, runs: 0 }),
        task_wf(t),
        trampoline_enabled(t),
{
    TaskCell { state: TaskState::Pending, runs: 0 }
}

/// Fire the trampoline on a pending task: it runs the work once and the
/// task is done.  The precondition is what makes a second firing on the
/// same task impossible.
pub fn run_trampoline(t: &mut TaskCell)
    requires
        task_wf(*old(t)),
        trampoline_enabled(*old(t)),
    ensures
        *final(t) == trampoline_next(*old(t)),
        task_wf(*final(t)),
        !trampoline_enabled(*final(t)),
        final(t).runs == old(t).runs + 1,
{
    t.state = TaskState::Done;
    t.runs = t.runs + 1;
}

/// Total number of recorded runs over a batch of handoffs.
pub open spec fn total_runs(ts: Seq<TaskCell>) -> int
    decreases ts.len(),
{
    if ts.len() == 0 {
        0
    } else {
        ts[0].runs + total_runs(ts.drop_first())
    }
}

/// A batch of handoffs after the trampoline fired once on each.
pub open spec fn fire_all(ts: Seq<TaskCell>) -> Seq<TaskCell> {
    ts.map_values(|t: TaskCell| trampoline_next(t))
}

/// The run-exactly-once law: a sound pending task admits the trampoline;
/// after it fires the work has run exactly once, the accounting is still
/// sound, and the trampoline can never fire on that task again.
pub proof fn lemma_trampoline_exactly_once(t: TaskCell)
    requires
        task_wf(t),
        trampoline_enabled(t),
    ensures
        trampoline_next(t).runs == 1,
        task_wf(trampoline_next(t)),
        !trampoline_enabled(trampoline_next(t)),
{
}

/// The batch form of the law: however many units of work are spawned, each
/// pending and sound, the batch starts with no run at all, and after the
/// trampoline fired once on each, every task has run exactly once and the
/// total number of runs equals the number of handoffs — never fewer and
/// never more.
pub proof fn lemma_repeated_spawns_run_once_each(ts: Seq<TaskCell>)
    requires
        forall|i: int| 0 <= i < ts.len() ==> task_wf(#[trigger] ts[i])
            && trampoline_enabled(ts[i]),
    ensures
        total_runs(ts) == 0,
        fire_all(ts).len() == ts.len(),
        total_runs(fire_all(ts)) == ts.len(),
        forall|i: int| 0 <= i < ts.len() ==> task_wf(#[trigger] fire_all(ts)[i])
            && !trampoline_enabled(fire_all(ts)[i]) && fire_all(ts)[i].runs == 1,
    decreases ts.len(),
{
    if ts.len() > 0 {
        assert(forall|i: int|
            0 <= i < ts.drop_first().len() ==> #[trigger] ts.drop_first()[i] == ts[i + 1]);
        lemma_repeated_spawns_run_once_each(ts.drop_first());
        assert(fire_all(ts).drop_first() =~= fire_all(ts.drop_first()));
        assert(fire_all(ts)[0] == trampoline_next(ts[0]));
        assert(total_runs(fire_all(ts)) == fire_all(ts)[0].runs + total_runs(
            fire_all(ts).drop_first(),
        ));
    }
}

} // verus!

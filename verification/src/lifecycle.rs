//! The lifecycle coordinator: a state machine that supervises a set of
//! named tasks, decides when to shut down, tracks cancellation of the
//! remaining tasks, and drains an ordered teardown registry exactly
//! once before the final outcome is reported.
//!
//! All supervised tasks are peers: the listener, the signal watcher
//! and every background task alike, and the first of them to complete
//! — however it completes — triggers shutdown of all the others.
//!
//! The coordinator itself holds no handles and performs no waiting: a
//! runtime drives it by feeding in the first completion it observes and
//! by running the teardown action whose index each teardown step hands
//! back.

use vstd::prelude::*;

use crate::service_setup::ServiceError;

verus! {

/// The phases of the coordinator, in the order they are passed through.
#[derive(Clone, Copy, PartialEq, Eq, Debug, Structural)]
pub enum Phase {
    Starting,
    Running,
    ShuttingDown,
    Terminated,
}

/// How far along its life each supervised task is, as the coordinator
/// sees it. A task is `Outstanding` until it either finishes on its own
/// or the coordinator requests its cancellation; it is never both.
#[derive(Clone, Copy, PartialEq, Eq, Debug, Structural)]
pub enum TaskState {
    Outstanding,
    Finished,
    CancelRequested,
}

/// One supervised task: its name, and where it stands.
pub struct TaskSlot {
    pub name: String,
    pub state: TaskState,
}

/// What a single task's completion looked like.
pub enum TaskOutcome {
    /// The task returned without an error.
    Success,
    /// The task returned its own, task-local error.
    Failure { error: ServiceError },
    /// The task's result could not be collected.
    JoinFailure { message: String },
}

/// The event that triggers shutdown: the first completion the runtime
/// observed while the coordinator was running.
pub enum Completion {
    /// There was nothing to supervise at all.
    NoTasks,
    /// The task at `index` completed, with the given outcome.
    Task { index: usize, outcome: TaskOutcome },
    /// The supervision machinery itself failed before any task could be
    /// identified; no index can be attributed.
    Unattributed { message: String },
}

/// Supervises named tasks and an ordered teardown registry.
///
/// `teardown_log` records the index of every teardown action that has
/// been handed out to run, in the order they were handed out; its
/// well-formedness pins it to the strict registration order.
pub struct Coordinator {
    pub phase: Phase,
    pub tasks: Vec<TaskSlot>,
    pub cause: Option<Completion>,
    pub teardown_total: usize,
    pub teardown_log: Vec<usize>,
}

/// How many tasks among the first `n` are still outstanding.
pub open spec fn count_outstanding_up_to(tasks: Seq<TaskSlot>, n: int) -> nat
    decreases n,
{
    if n <= 0 {
        0
    } else {
        count_outstanding_up_to(tasks, n - 1) + (if tasks[n - 1].state is Outstanding {
            1nat
        } else {
            0nat
        })
    }
}

/// How many tasks are still outstanding.
pub open spec fn count_outstanding(tasks: Seq<TaskSlot>) -> nat {
    count_outstanding_up_to(tasks, tasks.len() as int)
}

/// Among tasks that are all outstanding, the count just counts.
proof fn lemma_count_all_outstanding(tasks: Seq<TaskSlot>, n: int)
    requires
        0 <= n <= tasks.len(),
        forall|i: int| 0 <= i < tasks.len() ==> tasks[i].state is Outstanding,
    ensures
        count_outstanding_up_to(tasks, n) == n,
    decreases n,
{
    if n > 0 {
        lemma_count_all_outstanding(tasks, n - 1);
    }
}

/// Settling one outstanding task lowers the count by exactly one.
proof fn lemma_count_after_settling(tasks: Seq<TaskSlot>, i: int, slot: TaskSlot, n: int)
    requires
        0 <= i < tasks.len(),
        0 <= n <= tasks.len(),
        tasks[i].state is Outstanding,
        !(slot.state is Outstanding),
    ensures
        count_outstanding_up_to(tasks.update(i, slot), n) == count_outstanding_up_to(tasks, n) - (
        if i < n {
            1int
        } else {
            0int
        }),
    decreases n,
{
    if n > 0 {
        lemma_count_after_settling(tasks, i, slot, n - 1);
    }
}

/// Rank of a phase in the one-way order `Starting`, `Running`,
/// `ShuttingDown`, `Terminated`.
pub open spec fn phase_rank(p: Phase) -> nat {
    match p {
        Phase::Starting => 0,
        Phase::Running => 1,
        Phase::ShuttingDown => 2,
        Phase::Terminated => 3,
    }
}

impl Coordinator {
    /// No task has finished or been told to stop yet.
    pub open spec fn all_outstanding(self) -> bool {
        forall|i: int| 0 <= i < self.tasks@.len() ==> self.tasks@[i].state is Outstanding
    }

    /// Every task has either completed or been issued a cancellation.
    pub open spec fn all_settled(self) -> bool {
        forall|i: int| 0 <= i < self.tasks@.len() ==> !(self.tasks@[i].state is Outstanding)
    }

    /// The recorded shutdown cause is consistent with the task list.
    pub open spec fn cause_wf(self) -> bool {
        match self.cause {
            None => true,
            Some(Completion::NoTasks) => self.tasks@.len() == 0,
            Some(Completion::Task { index, .. }) => index < self.tasks@.len()
                && self.tasks@[index as int].state is Finished,
            Some(Completion::Unattributed { .. }) => true,
        }
    }

    /// The teardown log never outgrows the registry and only ever holds
    /// the registration order: entry `i` is action `i`.
    pub open spec fn log_wf(self) -> bool {
        &&& self.teardown_log@.len() <= self.teardown_total
        &&& forall|i: int| 0 <= i < self.teardown_log@.len() ==> self.teardown_log@[i] == i
    }

    /// Well-formedness of the whole coordinator. Before shutdown is
    /// decided there is no cause, every task is outstanding and no
    /// teardown has run; afterwards the cause is recorded, and teardown
    /// begins only once every task has settled.
    pub open spec fn wf(self) -> bool {
        &&& self.log_wf()
        &&& self.cause_wf()
        &&& match self.phase {
            Phase::Starting => self.cause is None && self.all_outstanding()
                && self.teardown_log@.len() == 0,
            Phase::Running => self.cause is None && self.all_outstanding()
                && self.teardown_log@.len() == 0,
            Phase::ShuttingDown => self.cause is Some && self.teardown_log@.len() == 0,
            Phase::Terminated => self.cause is Some && self.all_settled(),
        }
    }

    /// The recorded cause counts as a success: a normal exit of some
    /// task, or nothing to supervise at all.
    pub open spec fn success_cause(self) -> bool {
        match self.cause {
            Some(Completion::NoTasks) => true,
            Some(Completion::Task { outcome: TaskOutcome::Success, .. }) => true,
            _ => false,
        }
    }
}

/// Startup finished: the coordinator moves from `Starting` to
/// `Running`; nothing else changes.
pub open spec fn start_step(pre: Coordinator, post: Coordinator) -> bool {
    &&& pre.phase is Starting
    &&& post == (Coordinator { phase: Phase::Running, ..pre })
}

/// The first completion arrives: the coordinator moves from `Running`
/// to `ShuttingDown`, records the cause, and marks the completed task
/// finished; every other task is untouched.
pub open spec fn observe_step(pre: Coordinator, post: Coordinator, completion: Completion) -> bool {
    &&& pre.phase is Running
    &&& (completion matches Completion::Task { index, .. } ==> index < pre.tasks@.len())
    &&& (completion is NoTasks ==> pre.tasks@.len() == 0)
    &&& post.phase is ShuttingDown
    &&& post.cause == Some(completion)
    &&& post.teardown_total == pre.teardown_total
    &&& post.teardown_log == pre.teardown_log
    &&& match completion {
        Completion::Task { index, .. } => post.tasks@ == pre.tasks@.update(
            index as int,
            TaskSlot { name: pre.tasks@[index as int].name, state: TaskState::Finished },
        ),
        _ => post.tasks@ == pre.tasks@,
    }
}

/// Cancellation requests go out while shutting down: some outstanding
/// tasks become cancel-requested; names, the cause and the teardown
/// state never change, and no settled task is touched.
pub open spec fn cancel_step(pre: Coordinator, post: Coordinator) -> bool {
    &&& pre.phase is ShuttingDown
    &&& post.phase is ShuttingDown
    &&& post.cause == pre.cause
    &&& post.teardown_total == pre.teardown_total
    &&& post.teardown_log == pre.teardown_log
    &&& post.tasks@.len() == pre.tasks@.len()
    &&& forall|i: int|
        0 <= i < pre.tasks@.len() ==> {
            &&& post.tasks@[i].name == pre.tasks@[i].name
            &&& (post.tasks@[i].state == pre.tasks@[i].state || (pre.tasks@[i].state is Outstanding
                && post.tasks@[i].state is CancelRequested))
        }
}

/// Every task has settled: the coordinator moves from `ShuttingDown`
/// to `Terminated`, where teardown may run; nothing else changes.
pub open spec fn begin_teardown_step(pre: Coordinator, post: Coordinator) -> bool {
    &&& pre.phase is ShuttingDown
    &&& pre.all_settled()
    &&& post == (Coordinator { phase: Phase::Terminated, ..pre })
}

/// One teardown action is handed out to run: always the next one in
/// registration order, appended to the log; nothing else changes.
pub open spec fn run_teardown_step(pre: Coordinator, post: Coordinator) -> bool {
    &&& pre.phase is Terminated
    &&& pre.teardown_log@.len() < pre.teardown_total
    &&& post.phase == pre.phase
    &&& post.tasks == pre.tasks
    &&& post.cause == pre.cause
    &&& post.teardown_total == pre.teardown_total
    &&& post.teardown_log@ == pre.teardown_log@.push(pre.teardown_log@.len() as usize)
}

/// The transition relation of the coordinator: everything any one
/// operation may do to it.
pub open spec fn steps_to(pre: Coordinator, post: Coordinator) -> bool {
    ||| start_step(pre, post)
    ||| exists|c: Completion| observe_step(pre, post, c)
    ||| cancel_step(pre, post)
    ||| begin_teardown_step(pre, post)
    ||| run_teardown_step(pre, post)
}

impl Coordinator {
    /// A fresh coordinator in `Starting`, supervising one task per
    /// name, with `teardown_total` registered teardown actions.
    pub fn new(task_names: &Vec<String>, teardown_total: usize) -> (c: Coordinator)
        ensures
            c.wf(),
            c.phase is Starting,
            c.cause is None,
            c.teardown_total == teardown_total,
            c.teardown_log@.len() == 0,
            c.tasks@.len() == task_names@.len(),
            forall|i: int|
                0 <= i < task_names@.len() ==> c.tasks@[i].name == task_names@[i]
                    && c.tasks@[i].state is Outstanding,
    {
        let mut tasks: Vec<TaskSlot> = Vec::new();
        let mut i: usize = 0;
        while i < task_names.len()
            invariant
                i <= task_names@.len(),
                tasks@.len() == i,
                forall|j: int| #![trigger tasks@[j]]
                    0 <= j < i ==> tasks@[j].name == task_names@[j]
                        && tasks@[j].state is Outstanding,
            decreases task_names@.len() - i,
        {
            let slot = TaskSlot { name: task_names[i].clone(), state: TaskState::Outstanding };
            let ghost tasks_before = tasks@;
            let ghost pushed = slot;
            tasks.push(slot);
            proof {
                assert forall|j: int| #![trigger tasks@[j]] 0 <= j < i + 1 implies tasks@[j].name
                    == task_names@[j] && tasks@[j].state is Outstanding by {
                    if j < i {
                        assert(tasks@[j] == tasks_before[j]);
                    } else {
                        assert(tasks@[j] == pushed);
                    }
                }
            }
            i = i + 1;
        }
        Coordinator {
            phase: Phase::Starting,
            tasks,
            cause: None,
            teardown_total,
            teardown_log: Vec::new(),
        }
    }

    /// Startup is complete; begin running.
    pub fn start(&mut self)
        requires
            old(self).wf(),
            old(self).phase is Starting,
        ensures
            final(self).wf(),
            start_step(*old(self), *final(self)),
            steps_to(*old(self), *final(self)),
    {
        self.phase = Phase::Running;
    }

    /// Record the first observed completion and move to `ShuttingDown`.
    /// This is the only operation that leaves `Running`, and it can
    /// fire only there: shutdown is triggered exactly once.
    pub fn observe(&mut self, completion: Completion)
        requires
            old(self).wf(),
            old(self).phase is Running,
            completion matches Completion::Task { index, .. } ==> index < old(
                self,
            ).tasks@.len(),
            completion is NoTasks ==> old(self).tasks@.len() == 0,
        ensures
            final(self).wf(),
            observe_step(*old(self), *final(self), completion),
            steps_to(*old(self), *final(self)),
    {
        let ghost c = completion;
        match &completion {
            Completion::Task { index, .. } => {
                let i: usize = *index;
                self.tasks[i].state = TaskState::Finished;
            },
            _ => {},
        }
        self.cause = Some(completion);
        self.phase = Phase::ShuttingDown;
        proof {
            assert(observe_step(*old(self), *self, c));
        }
    }

    /// Request cancellation of the task at `index`. On an outstanding
    /// task this issues the request; on a task that already finished or
    /// was already told to stop it is a no-op, not an error.
    pub fn cancel(&mut self, index: usize) -> (requested: bool)
        requires
            old(self).wf(),
            old(self).phase is ShuttingDown,
            index < old(self).tasks@.len(),
        ensures
            final(self).wf(),
            cancel_step(*old(self), *final(self)),
            steps_to(*old(self), *final(self)),
            requested == (old(self).tasks@[index as int].state is Outstanding),
            final(self).tasks@[index as int].state == (if old(
                self,
            ).tasks@[index as int].state is Outstanding {
                TaskState::CancelRequested
            } else {
                old(self).tasks@[index as int].state
            }),
            forall|j: int|
                0 <= j < old(self).tasks@.len() && j != index ==> final(self).tasks@[j] == old(
                    self,
                ).tasks@[j],
    {
        match self.tasks[index].state {
            TaskState::Outstanding => {
                self.tasks[index].state = TaskState::CancelRequested;
                true
            },
            _ => false,
        }
    }

    /// Request cancellation of every task still outstanding, returning
    /// how many requests were issued. Afterwards no task is left
    /// un-aborted, and tasks that had already settled are untouched.
    pub fn cancel_outstanding(&mut self) -> (n: usize)
        requires
            old(self).wf(),
            old(self).phase is ShuttingDown,
        ensures
            final(self).wf(),
            cancel_step(*old(self), *final(self)),
            steps_to(*old(self), *final(self)),
            n == count_outstanding(old(self).tasks@),
            final(self).all_settled(),
            forall|i: int|
                0 <= i < old(self).tasks@.len() ==> final(self).tasks@[i].state == (if old(
                    self,
                ).tasks@[i].state is Outstanding {
                    TaskState::CancelRequested
                } else {
                    old(self).tasks@[i].state
                }),
    {
        let ghost pre = *self;
        let mut n: usize = 0;
        let mut i: usize = 0;
        while i < self.tasks.len()
            invariant
                self.phase == pre.phase,
                self.cause == pre.cause,
                self.teardown_total == pre.teardown_total,
                self.teardown_log == pre.teardown_log,
                self.tasks@.len() == pre.tasks@.len(),
                i <= self.tasks@.len(),
                n == count_outstanding_up_to(pre.tasks@, i as int),
                n <= i,
                forall|j: int|
                    0 <= j < i ==> self.tasks@[j].name == pre.tasks@[j].name
                        && self.tasks@[j].state == (if pre.tasks@[j].state is Outstanding {
                        TaskState::CancelRequested
                    } else {
                        pre.tasks@[j].state
                    }),
                forall|j: int| i <= j < self.tasks@.len() ==> self.tasks@[j] == pre.tasks@[j],
            decreases self.tasks@.len() - i,
        {
            match self.tasks[i].state {
                TaskState::Outstanding => {
                    self.tasks[i].state = TaskState::CancelRequested;
                    n = n + 1;
                },
                _ => {},
            }
            i = i + 1;
        }
        n
    }

    /// Every task has settled; enter `Terminated`, where the teardown
    /// registry is drained.
    pub fn begin_teardown(&mut self)
        requires
            old(self).wf(),
            old(self).phase is ShuttingDown,
            old(self).all_settled(),
        ensures
            final(self).wf(),
            begin_teardown_step(*old(self), *final(self)),
            steps_to(*old(self), *final(self)),
    {
        self.phase = Phase::Terminated;
    }

    /// How many teardown actions have not yet been handed out.
    pub fn teardown_remaining(&self) -> (r: usize)
        requires
            self.wf(),
        ensures
            r == self.teardown_total - self.teardown_log@.len(),
    {
        self.teardown_total - self.teardown_log.len()
    }

    /// Hand out the next teardown action to run. Actions come out in
    /// registration order, each exactly once.
    pub fn teardown_step(&mut self) -> (idx: usize)
        requires
            old(self).wf(),
            old(self).phase is Terminated,
            old(self).teardown_log@.len() < old(self).teardown_total,
        ensures
            final(self).wf(),
            run_teardown_step(*old(self), *final(self)),
            steps_to(*old(self), *final(self)),
            idx == old(self).teardown_log@.len(),
            final(self).teardown_log@ == old(self).teardown_log@.push(idx),
    {
        let idx = self.teardown_log.len();
        self.teardown_log.push(idx);
        idx
    }

    /// The whole shutdown decision in one move: record the completion,
    /// request cancellation of every other task, and open teardown.
    /// While running, every task is outstanding, so a completion of one
    /// task leads to exactly one cancellation request per remaining
    /// task, and an unattributed completion to one per task.
    pub fn shutdown(&mut self, completion: Completion) -> (cancelled: usize)
        requires
            old(self).wf(),
            old(self).phase is Running,
            completion matches Completion::Task { index, .. } ==> index < old(
                self,
            ).tasks@.len(),
            completion is NoTasks ==> old(self).tasks@.len() == 0,
        ensures
            final(self).wf(),
            final(self).phase is Terminated,
            final(self).cause == Some(completion),
            final(self).all_settled(),
            final(self).teardown_total == old(self).teardown_total,
            final(self).teardown_log == old(self).teardown_log,
            final(self).tasks@.len() == old(self).tasks@.len(),
            forall|i: int|
                0 <= i < old(self).tasks@.len() ==> final(self).tasks@[i].name == old(
                    self,
                ).tasks@[i].name,
            completion matches Completion::Task { index, .. } ==> {
                &&& cancelled == old(self).tasks@.len() - 1
                &&& final(self).tasks@[index as int].state is Finished
                &&& forall|i: int|
                    0 <= i < old(self).tasks@.len() && i != index
                        ==> final(self).tasks@[i].state is CancelRequested
            },
            !(completion matches Completion::Task { .. }) ==> {
                &&& cancelled == old(self).tasks@.len()
                &&& forall|i: int|
                    0 <= i < old(self).tasks@.len()
                        ==> final(self).tasks@[i].state is CancelRequested
            },
    {
        let ghost pre = *self;
        let ghost c = completion;
        self.observe(completion);
        proof {
            match c {
                Completion::Task { index, .. } => {
                    lemma_count_all_outstanding(pre.tasks@, pre.tasks@.len() as int);
                    lemma_count_after_settling(
                        pre.tasks@,
                        index as int,
                        self.tasks@[index as int],
                        pre.tasks@.len() as int,
                    );
                    assert(self.tasks@ == pre.tasks@.update(
                        index as int,
                        self.tasks@[index as int],
                    ));
                },
                _ => {
                    lemma_count_all_outstanding(pre.tasks@, pre.tasks@.len() as int);
                },
            }
        }
        let cancelled = self.cancel_outstanding();
        self.begin_teardown();
        cancelled
    }

    /// The final report, available once teardown has been drained:
    /// success exactly when the shutdown cause was a normal exit or an
    /// empty task set, and otherwise the typed failure naming the task
    /// that failed and why.
    pub fn outcome(&self) -> (r: Result<(), ServiceError>)
        requires
            self.wf(),
            self.phase is Terminated,
            self.teardown_log@.len() == self.teardown_total,
        ensures
            r is Ok <==> self.success_cause(),
            self.cause matches Some(
                Completion::Task { index, outcome: TaskOutcome::Failure { error } },
            ) ==> (r matches Err(ServiceError::TaskFailed { task, message }) && task@
                == self.tasks@[index as int].name@ && message@ == error.message_spec()),
            self.cause matches Some(
                Completion::Task { index, outcome: TaskOutcome::JoinFailure { message: m } },
            ) ==> (r matches Err(ServiceError::TaskJoin { task, message }) && task@
                == self.tasks@[index as int].name@ && message@ == m@),
            self.cause matches Some(Completion::Unattributed { message: m }) ==> (r matches Err(
                ServiceError::TaskJoin { task, message },
            ) && task@ == "service-wrapper"@ && message@ == m@),
    {
        match &self.cause {
            Some(Completion::NoTasks) => Ok(()),
            Some(Completion::Task { index, outcome }) => match outcome {
                TaskOutcome::Success => Ok(()),
                TaskOutcome::Failure { error } => Err(
                    ServiceError::TaskFailed {
                        task: self.tasks[*index].name.clone(),
                        message: error.message(),
                    },
                ),
                TaskOutcome::JoinFailure { message } => Err(
                    ServiceError::TaskJoin {
                        task: self.tasks[*index].name.clone(),
                        message: message.clone(),
                    },
                ),
            },
            Some(Completion::Unattributed { message }) => Err(
                ServiceError::TaskJoin {
                    task: "service-wrapper".to_owned(),
                    message: message.clone(),
                },
            ),
            None => vstd::pervasive::unreached(),
        }
    }
}

/// A possible history of one coordinator: every pair of neighbours is
/// related by a single operation.
pub open spec fn is_trace(trace: Seq<Coordinator>) -> bool {
    forall|i: int| 0 <= i < trace.len() - 1 ==> steps_to(trace[i], #[trigger] trace[i + 1])
}

/// The step at `i` is the one that enters `ShuttingDown`.
pub open spec fn enters_shutdown(trace: Seq<Coordinator>, i: int) -> bool {
    &&& 0 <= i < trace.len() - 1
    &&& !(trace[i].phase is ShuttingDown)
    &&& trace[i + 1].phase is ShuttingDown
}

/// No single operation ever moves the coordinator backwards: the phase
/// rank never decreases, `Running` is reached only from `Starting`, and
/// `ShuttingDown` is entered only from `Running`.
pub proof fn lemma_step_monotonic(pre: Coordinator, post: Coordinator)
    requires
        steps_to(pre, post),
    ensures
        phase_rank(pre.phase) <= phase_rank(post.phase),
        post.phase is Running ==> pre.phase is Starting || pre.phase is Running,
        post.phase is ShuttingDown ==> pre.phase is Running || pre.phase is ShuttingDown,
{
    if start_step(pre, post) {
    } else if exists|c: Completion| observe_step(pre, post, c) {
        let c = choose|c: Completion| observe_step(pre, post, c);
        assert(observe_step(pre, post, c));
    } else if cancel_step(pre, post) {
    } else if begin_teardown_step(pre, post) {
    } else {
        assert(run_teardown_step(pre, post));
    }
}

/// Along any history, phases only ever move forward.
pub proof fn lemma_trace_monotonic(trace: Seq<Coordinator>, i: int, j: int)
    requires
        is_trace(trace),
        0 <= i <= j < trace.len(),
    ensures
        phase_rank(trace[i].phase) <= phase_rank(trace[j].phase),
    decreases j - i,
{
    if i < j {
        lemma_trace_monotonic(trace, i, j - 1);
        assert(steps_to(trace[j - 1], trace[j - 1 + 1]));
        lemma_step_monotonic(trace[j - 1], trace[j]);
    }
}

/// Shutdown is triggered exactly once and is irrevocable: along any
/// history, `ShuttingDown` is entered by at most one step, and from the
/// moment the coordinator has left `Running` it never runs again.
pub proof fn lemma_shutdown_exactly_once(trace: Seq<Coordinator>)
    requires
        is_trace(trace),
    ensures
        forall|i: int, j: int|
            enters_shutdown(trace, i) && enters_shutdown(trace, j) ==> i == j,
        forall|i: int, j: int|
            0 <= i <= j < trace.len() && !(#[trigger] trace[i].phase is Starting) && !(
            trace[i].phase is Running) ==> !(#[trigger] trace[j].phase is Running),
{
    assert forall|i: int, j: int|
        enters_shutdown(trace, i) && enters_shutdown(trace, j) implies i == j by {
        if i < j {
            lemma_trace_monotonic(trace, i + 1, j);
            assert(phase_rank(trace[j].phase) >= 2);
        } else if j < i {
            lemma_trace_monotonic(trace, j + 1, i);
            assert(phase_rank(trace[i].phase) >= 2);
        }
    }
    assert forall|i: int, j: int|
        0 <= i <= j < trace.len() && !(trace[i].phase is Starting) && !(
        trace[i].phase is Running) implies !(trace[j].phase is Running) by {
        lemma_trace_monotonic(trace, i, j);
    }
}

/// The step at `i` hands out teardown action `k`.
pub open spec fn hands_out(trace: Seq<Coordinator>, i: int, k: int) -> bool {
    &&& 0 <= i < trace.len() - 1
    &&& run_teardown_step(trace[i], trace[i + 1])
    &&& trace[i].teardown_log@.len() == k
}

/// No single operation ever takes an entry back out of the teardown
/// log: it only grows at its end.
pub proof fn lemma_step_log_grows(pre: Coordinator, post: Coordinator)
    requires
        steps_to(pre, post),
    ensures
        pre.teardown_log@.is_prefix_of(post.teardown_log@),
{
    if start_step(pre, post) {
    } else if exists|c: Completion| observe_step(pre, post, c) {
        let c = choose|c: Completion| observe_step(pre, post, c);
        assert(observe_step(pre, post, c));
    } else if cancel_step(pre, post) {
    } else if begin_teardown_step(pre, post) {
    } else {
        assert(run_teardown_step(pre, post));
    }
}

/// Along any history, the teardown log of an earlier state is a prefix
/// of every later one.
pub proof fn lemma_trace_log_grows(trace: Seq<Coordinator>, i: int, j: int)
    requires
        is_trace(trace),
        0 <= i <= j < trace.len(),
    ensures
        trace[i].teardown_log@.is_prefix_of(trace[j].teardown_log@),
    decreases j - i,
{
    if i < j {
        lemma_trace_log_grows(trace, i, j - 1);
        assert(steps_to(trace[j - 1], trace[j - 1 + 1]));
        lemma_step_log_grows(trace[j - 1], trace[j]);
    }
}

/// Along any history, each teardown action is handed out to run at
/// most once: no two steps hand out the same action.
pub proof fn lemma_teardown_once_per_action(trace: Seq<Coordinator>)
    requires
        is_trace(trace),
    ensures
        forall|i: int, j: int, k: int|
            hands_out(trace, i, k) && hands_out(trace, j, k) ==> i == j,
{
    assert forall|i: int, j: int, k: int|
        hands_out(trace, i, k) && hands_out(trace, j, k) implies i == j by {
        if i < j {
            lemma_trace_log_grows(trace, i + 1, j);
            assert(trace[i + 1].teardown_log@.len() == k + 1);
        } else if j < i {
            lemma_trace_log_grows(trace, j + 1, i);
            assert(trace[j + 1].teardown_log@.len() == k + 1);
        }
    }
}

/// Teardown discipline: if any teardown action has run at all, the
/// coordinator is terminated, every tracked task has completed or been
/// issued a cancellation, and the log of invocations is exactly the
/// registration order, with no action run twice.
pub proof fn lemma_teardown_discipline(c: Coordinator)
    requires
        c.wf(),
        c.teardown_log@.len() > 0,
    ensures
        c.phase is Terminated,
        c.all_settled(),
        forall|i: int| 0 <= i < c.teardown_log@.len() ==> c.teardown_log@[i] == i,
        forall|i: int, j: int|
            0 <= i < j < c.teardown_log@.len() ==> c.teardown_log@[i] != c.teardown_log@[j],
{
}

} // verus!

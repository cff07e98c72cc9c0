//! The task scheduler: a queue of tasks, the tasks that workers are
//! running, a cancellation flag for each, and the events that report what
//! happens to them.
//!
//! The scheduler decides; it does not run anything. A worker asks for the
//! next task, does the work that the task names and reports how it ended.
//! Cancelling only sets a flag, which the worker reads at its checkpoints.

use vstd::prelude::*;
use crate::events::{event_views, AppEvent, EventEmitter, EventView, TaskCompletedResult};
use crate::task::{kind_of, task_may_follow, Task, TaskKind, TaskStatus, TaskView};
use crate::text::str_eq;

verus! {

/// A task in the scheduler, with its cancellation flag.
pub struct Slot {
    pub task: Task,
    pub cancelled: bool,
}

/// The mathematical value of a [`Slot`].
pub struct SlotView {
    pub task: TaskView,
    pub cancelled: bool,
}

impl View for Slot {
    type V = SlotView;

    open spec fn view(&self) -> SlotView {
        SlotView { task: self.task@, cancelled: self.cancelled }
    }
}

/// The views of a list of slots.
pub open spec fn slot_views(slots: Seq<Slot>) -> Seq<SlotView> {
    Seq::new(slots.len(), |i: int| slots[i]@)
}

/// Why the scheduler refused an operation.
#[derive(Debug, Clone, Copy, PartialEq, Eq, Structural)]
pub enum PoolError {
    /// No task with this id is queued or running.
    TaskNotFound,
}

/// How the work of a task ended, as its worker reports it.
#[derive(Debug, Clone)]
pub enum TaskOutcome {
    Completed(TaskCompletedResult),
    Failed(String),
}

/// What a worker that asks for work is told.
#[derive(Debug, Clone)]
pub enum Dispatch {
    /// The queue is empty.
    Idle,
    /// The next task had been cancelled while it waited: it is gone, and
    /// nothing is to be done for it.
    Dropped(Task),
    /// The task to run. It is now registered as running.
    Run(Task),
}

/// The state of the scheduler.
pub struct PoolView {
    /// The tasks that wait, the next one first.
    pub queue: Seq<SlotView>,
    /// The tasks that workers are running.
    pub active: Seq<SlotView>,
    /// The events reported and not yet handed out.
    pub events: Seq<EventView>,
}

/// The index of the slot whose task has this id, if there is one.
pub open spec fn slot_index(slots: Seq<SlotView>, id: Seq<char>) -> Option<int>
    decreases slots.len(),
{
    if slots.len() == 0 {
        None
    } else if slots.last().task.id == id {
        Some(slots.len() - 1)
    } else {
        slot_index(slots.drop_last(), id)
    }
}

pub proof fn lemma_slot_index(slots: Seq<SlotView>, id: Seq<char>)
    ensures
        match slot_index(slots, id) {
            Some(i) => 0 <= i < slots.len() && slots[i].task.id == id,
            None => forall|j: int| 0 <= j < slots.len() ==> (#[trigger] slots[j]).task.id != id,
        },
    decreases slots.len(),
{
    if slots.len() > 0 && slots.last().task.id != id {
        let init = slots.drop_last();
        lemma_slot_index(init, id);
        assert forall|j: int| 0 <= j < init.len() implies init[j] == slots[j] by {}
        if slot_index(init, id) is None {
            assert forall|j: int| 0 <= j < slots.len() implies (#[trigger] slots[j]).task.id
                != id by {
                if j < init.len() {
                    assert(init[j].task.id != id);
                }
            }
        }
    }
}

/// A percentage brought into the range from 0 to 100.
pub open spec fn clamp_percent(p: i32) -> i32 {
    if p < 0 {
        0
    } else if p > 100 {
        100
    } else {
        p
    }
}

/// A slot with its flag set; a running task is then marked `Cancelled`.
pub open spec fn cancelled_slot(s: SlotView) -> SlotView {
    SlotView {
        task: TaskView {
            status: if s.task.status == TaskStatus::Running {
                TaskStatus::Cancelled
            } else {
                s.task.status
            },
            ..s.task
        },
        cancelled: true,
    }
}

/// The slots with the flag set on every task of the given kind.
pub open spec fn cancel_kind(slots: Seq<SlotView>, kind: TaskKind) -> Seq<SlotView> {
    Seq::new(
        slots.len(),
        |i: int|
            if kind_of(slots[i].task.task_type) == kind {
                cancelled_slot(slots[i])
            } else {
                slots[i]
            },
    )
}

/// How many of the slots hold a task of the given kind.
pub open spec fn count_kind(slots: Seq<SlotView>, kind: TaskKind) -> nat
    decreases slots.len(),
{
    if slots.len() == 0 {
        0
    } else {
        count_kind(slots.drop_last(), kind) + if kind_of(slots.last().task.task_type) == kind {
            1nat
        } else {
            0nat
        }
    }
}

impl PoolView {
    /// A task with this id is queued or running.
    pub open spec fn knows(self, id: Seq<char>) -> bool {
        slot_index(self.queue, id) is Some || slot_index(self.active, id) is Some
    }

    /// The cancellation flag of the task with this id; unset where there
    /// is no such task.
    pub open spec fn cancelled(self, id: Seq<char>) -> bool {
        match slot_index(self.queue, id) {
            Some(i) => self.queue[i].cancelled,
            None => match slot_index(self.active, id) {
                Some(i) => self.active[i].cancelled,
                None => false,
            },
        }
    }

    /// The state after `task` was queued: it waits at the end of the
    /// queue with its flag unset, and its creation is reported.
    pub open spec fn enqueue(self, task: TaskView) -> PoolView {
        PoolView {
            queue: self.queue.push(
                SlotView { task: TaskView { status: TaskStatus::Queued, ..task }, cancelled: false },
            ),
            events: self.events.push(
                EventView::TaskCreated {
                    task_id: task.id,
                    task_type: task.task_type,
                    metadata: task.payload,
                },
            ),
            ..self
        }
    }

    /// The state after the task with this id was cancelled.
    pub open spec fn cancel(self, id: Seq<char>) -> PoolView {
        match slot_index(self.queue, id) {
            Some(i) => PoolView { queue: self.queue.update(i, cancelled_slot(self.queue[i])), ..self },
            None => match slot_index(self.active, id) {
                Some(i) => PoolView {
                    active: self.active.update(i, cancelled_slot(self.active[i])),
                    ..self
                },
                None => self,
            },
        }
    }

    /// The state after every task of the given kind was cancelled.
    pub open spec fn cancel_all(self, kind: TaskKind) -> PoolView {
        PoolView {
            queue: cancel_kind(self.queue, kind),
            active: cancel_kind(self.active, kind),
            ..self
        }
    }

    /// The state after a worker took the next task: a cancelled one is
    /// gone without a trace, another is running and reported as such.
    pub open spec fn take_next(self) -> PoolView {
        if self.queue.len() == 0 {
            self
        } else if self.queue[0].cancelled {
            PoolView { queue: self.queue.drop_first(), ..self }
        } else {
            PoolView {
                queue: self.queue.drop_first(),
                active: self.active.push(
                    SlotView {
                        task: TaskView { status: TaskStatus::Running, ..self.queue[0].task },
                        cancelled: false,
                    },
                ),
                events: self.events.push(
                    EventView::TaskUpdated {
                        task_id: self.queue[0].task.id,
                        progress: self.queue[0].task.progress,
                        status: "running"@,
                    },
                ),
            }
        }
    }

    /// The event that closes the running task in slot `s`, whose worker
    /// reports `outcome`: a cancelled task is reported as cancelled,
    /// whatever its worker says.
    pub open spec fn closing_event(s: SlotView, outcome: OutcomeView) -> EventView {
        if s.cancelled {
            EventView::TaskCancelled { task_id: s.task.id }
        } else {
            match outcome {
                OutcomeView::Completed { snippets_count, url_id } => EventView::TaskCompleted {
                    task_id: s.task.id,
                    snippets_count,
                    url_id,
                },
                OutcomeView::Failed { error } => EventView::TaskFailed {
                    task_id: s.task.id,
                    error,
                },
            }
        }
    }

    /// The status with which the running task in slot `s` ends.
    pub open spec fn closing_status(s: SlotView, outcome: OutcomeView) -> TaskStatus {
        if s.cancelled {
            TaskStatus::Cancelled
        } else {
            match outcome {
                OutcomeView::Completed { .. } => TaskStatus::Completed,
                OutcomeView::Failed { .. } => TaskStatus::Failed,
            }
        }
    }

    /// The state after the worker of the running task with this id
    /// reported its outcome: the task is gone, and one event closes it.
    pub open spec fn finish(self, id: Seq<char>, outcome: OutcomeView) -> PoolView {
        match slot_index(self.active, id) {
            Some(i) => PoolView {
                active: self.active.remove(i),
                events: self.events.push(Self::closing_event(self.active[i], outcome)),
                ..self
            },
            None => self,
        }
    }

    /// The state after progress was reported for the task with this id.
    pub open spec fn progress(self, id: Seq<char>, percent: i32, stage: Seq<char>) -> PoolView {
        PoolView {
            active: match slot_index(self.active, id) {
                Some(i) => self.active.update(
                    i,
                    SlotView {
                        task: TaskView { progress: clamp_percent(percent), ..self.active[i].task },
                        ..self.active[i]
                    },
                ),
                None => self.active,
            },
            events: self.events.push(
                EventView::TaskUpdated {
                    task_id: id,
                    progress: clamp_percent(percent),
                    status: stage,
                },
            ),
            ..self
        }
    }
}

/// The mathematical value of a [`TaskOutcome`].
pub enum OutcomeView {
    Completed { snippets_count: Option<usize>, url_id: u128 },
    Failed { error: Seq<char> },
}

impl View for TaskOutcome {
    type V = OutcomeView;

    open spec fn view(&self) -> OutcomeView {
        match *self {
            TaskOutcome::Completed(r) => OutcomeView::Completed {
                snippets_count: r.snippets_count,
                url_id: r.url_id,
            },
            TaskOutcome::Failed(e) => OutcomeView::Failed { error: e@ },
        }
    }
}

/// The scheduler.
pub struct WorkerPool {
    queue: Vec<Slot>,
    active_tasks: Vec<Slot>,
    event_emitter: EventEmitter,
}

impl View for WorkerPool {
    type V = PoolView;

    closed spec fn view(&self) -> PoolView {
        PoolView {
            queue: slot_views(self.queue@),
            active: slot_views(self.active_tasks@),
            events: self.event_emitter@,
        }
    }
}

/// The invariant of the scheduler's state: the tasks in the queue are
/// `Queued`, and a running task is `Running` until it is cancelled.
pub open spec fn pool_wf(p: PoolView) -> bool {
    &&& forall|i: int| 0 <= i < p.queue.len() ==> (#[trigger] p.queue[i]).task.status == TaskStatus::Queued
    &&& forall|i: int|
        0 <= i < p.active.len() ==> (#[trigger] p.active[i]).task.status == if p.active[i].cancelled {
            TaskStatus::Cancelled
        } else {
            TaskStatus::Running
        }
}

fn find_slot(slots: &Vec<Slot>, id: &str) -> (r: Option<usize>)
    ensures
        match r {
            Some(i) => slot_index(slot_views(slots@), id@) == Some(i as int) && i < slots@.len(),
            None => slot_index(slot_views(slots@), id@) is None,
        },
{
    let mut i: usize = slots.len();
    let ghost all = slot_views(slots@);
    assert(all.take(i as int) =~= all);
    while i > 0
        invariant
            i <= slots@.len(),
            all == slot_views(slots@),
            slot_index(all, id@) == slot_index(all.take(i as int), id@),
        decreases i,
    {
        i -= 1;
        proof {
            let upto = all.take(i as int + 1);
            assert(upto.last() == slots@[i as int]@);
            assert(upto.drop_last() =~= all.take(i as int));
        }
        if str_eq(slots[i].task.id.as_str(), id) {
            return Some(i);
        }
    }
    None
}

fn set_cancelled(slots: &mut Vec<Slot>, i: usize)
    requires
        i < old(slots)@.len(),
    ensures
        final(slots)@.len() == old(slots)@.len(),
        slot_views(final(slots)@) == slot_views(old(slots)@).update(
            i as int,
            cancelled_slot(old(slots)@[i as int]@),
        ),
{
    let mut slot = slots.remove(i);
    slot.cancelled = true;
    if slot.task.status == TaskStatus::Running {
        slot.task.status = TaskStatus::Cancelled;
    }
    slots.insert(i, slot);
    assert(slot_views(slots@) =~= slot_views(old(slots)@).update(
        i as int,
        cancelled_slot(old(slots)@[i as int]@),
    ));
}

fn cancel_where(slots: &mut Vec<Slot>, kind: TaskKind) -> (r: usize)
    ensures
        slot_views(final(slots)@) == cancel_kind(slot_views(old(slots)@), kind),
        r == count_kind(slot_views(old(slots)@), kind),
{
    let mut i: usize = 0;
    let mut count: usize = 0;
    let ghost before = slot_views(slots@);
    assert(before.take(0) =~= Seq::<SlotView>::empty());
    while i < slots.len()
        invariant
            i <= slots@.len(),
            slots@.len() == before.len(),
            count == count_kind(before.take(i as int), kind),
            count <= i,
            forall|j: int| 0 <= j < i ==> slot_views(slots@)[j] == cancel_kind(before, kind)[j],
            forall|j: int| i <= j < before.len() ==> slot_views(slots@)[j] == before[j],
        decreases slots@.len() - i,
    {
        proof {
            let next = before.take(i as int + 1);
            assert(next.drop_last() =~= before.take(i as int));
            assert(next.last() == before[i as int]);
            assert(slot_views(slots@)[i as int] == before[i as int]);
        }
        if slots[i].task.kind() == kind {
            let ghost pre = slot_views(slots@);
            set_cancelled(slots, i);
            count += 1;
            assert forall|j: int| 0 <= j < i + 1 implies slot_views(slots@)[j] == cancel_kind(
                before,
                kind,
            )[j] by {
                if j < i {
                    assert(slot_views(slots@)[j] == pre[j]);
                }
            }
            assert forall|j: int| i + 1 <= j < before.len() implies slot_views(slots@)[j]
                == before[j] by {
                assert(slot_views(slots@)[j] == pre[j]);
            }
        }
        i += 1;
    }
    assert(before.take(before.len() as int) =~= before);
    assert(slot_views(slots@) =~= cancel_kind(before, kind));
    count
}

impl WorkerPool {
    /// The scheduler's invariant.
    pub open spec fn wf(&self) -> bool {
        pool_wf(self@)
    }

    /// A scheduler without tasks and without events.
    pub fn new() -> (r: WorkerPool)
        ensures
            r.wf(),
            r@ == (PoolView { queue: Seq::empty(), active: Seq::empty(), events: Seq::empty() }),
    {
        let r = WorkerPool {
            queue: Vec::new(),
            active_tasks: Vec::new(),
            event_emitter: EventEmitter::new(),
        };
        assert(r@.queue =~= Seq::<SlotView>::empty());
        assert(r@.active =~= Seq::<SlotView>::empty());
        r
    }

    /// The event outbox.
    pub fn event_emitter(&self) -> (r: &EventEmitter)
        ensures
            r@ == self@.events,
    {
        &self.event_emitter
    }

    /// Appends a task to the queue and reports its creation, before any
    /// worker sees it. The task starts as `Queued`, with its flag unset.
    /// Returns the task's id. No task is refused: the queue has no bound.
    pub fn queue_task(&mut self, task: Task) -> (r: Result<String, PoolError>)
        requires
            old(self).wf(),
        ensures
            final(self).wf(),
            final(self)@ == old(self)@.enqueue(task@),
            r matches Ok(id) && id@ == task.id@,
    {
        Ok(self.push_task(task))
    }

    /// Appends a task to the queue and reports its creation; returns the
    /// task's id.
    pub(crate) fn push_task(&mut self, task: Task) -> (id: String)
        requires
            old(self).wf(),
        ensures
            final(self).wf(),
            final(self)@ == old(self)@.enqueue(task@),
            id@ == task.id@,
    {
        let id = task.id.clone();
        let mut queued = task;
        queued.status = TaskStatus::Queued;
        self.event_emitter.emit_task_created(
            queued.id.as_str(),
            queued.task_type.as_str(),
            queued.payload.duplicate(),
        );
        let slot = Slot { task: queued, cancelled: false };
        self.queue.push(slot);
        proof {
            assert(self@.queue =~= old(self)@.queue.push(slot@));
            assert forall|i: int| 0 <= i < self@.queue.len() implies (
            #[trigger] self@.queue[i]).task.status == TaskStatus::Queued by {
                if i < old(self)@.queue.len() {
                    assert(self@.queue[i] == old(self)@.queue[i]);
                }
            }
        }
        id
    }

    /// Sets the cancellation flag of a queued or running task. A running
    /// task is not interrupted: its worker sees the flag at its next
    /// checkpoint.
    pub fn cancel_task(&mut self, task_id: &str) -> (r: Result<(), PoolError>)
        requires
            old(self).wf(),
        ensures
            final(self).wf(),
            final(self)@ == old(self)@.cancel(task_id@),
            match r {
                Ok(_) => old(self)@.knows(task_id@),
                Err(e) => !old(self)@.knows(task_id@) && e == PoolError::TaskNotFound,
            },
            r is Ok ==> final(self)@.cancelled(task_id@),
    {
        match find_slot(&self.queue, task_id) {
            Some(i) => {
                set_cancelled(&mut self.queue, i);
                proof {
                    lemma_slot_index(old(self)@.queue, task_id@);
                    lemma_index_same_ids(old(self)@.queue, self@.queue, task_id@);
                }
                return Ok(());
            },
            None => {},
        }
        match find_slot(&self.active_tasks, task_id) {
            Some(i) => {
                set_cancelled(&mut self.active_tasks, i);
                proof {
                    lemma_slot_index(old(self)@.active, task_id@);
                    lemma_index_same_ids(old(self)@.queue, self@.queue, task_id@);
                    lemma_index_same_ids(old(self)@.active, self@.active, task_id@);
                }
                Ok(())
            },
            None => Err(PoolError::TaskNotFound),
        }
    }

    /// Sets the cancellation flag of every queued or running task of the
    /// given kind, and returns how many of them were queued and how many
    /// were running.
    pub fn cancel_all(&mut self, kind: TaskKind) -> (r: (usize, usize))
        requires
            old(self).wf(),
        ensures
            final(self).wf(),
            final(self)@ == old(self)@.cancel_all(kind),
            r.0 == count_kind(old(self)@.queue, kind),
            r.1 == count_kind(old(self)@.active, kind),
    {
        let queued = cancel_where(&mut self.queue, kind);
        let running = cancel_where(&mut self.active_tasks, kind);
        proof {
        }
        (queued, running)
    }

    /// Whether the cancellation flag of the task with this id is set. A
    /// worker asks this at each checkpoint.
    pub fn is_cancelled(&self, task_id: &str) -> (r: bool)
        ensures
            r == self@.cancelled(task_id@),
    {
        match find_slot(&self.queue, task_id) {
            Some(i) => self.queue[i].cancelled,
            None => match find_slot(&self.active_tasks, task_id) {
                Some(i) => self.active_tasks[i].cancelled,
                None => false,
            },
        }
    }

    /// The status of a queued or running task; none where the scheduler
    /// has no task of this id.
    pub fn get_task_status(&self, task_id: &str) -> (r: Option<TaskStatus>)
        ensures
            r == match slot_index(self@.queue, task_id@) {
                Some(i) => Some(self@.queue[i].task.status),
                None => match slot_index(self@.active, task_id@) {
                    Some(i) => Some(self@.active[i].task.status),
                    None => None,
                },
            },
    {
        match find_slot(&self.queue, task_id) {
            Some(i) => Some(self.queue[i].task.status),
            None => match find_slot(&self.active_tasks, task_id) {
                Some(i) => Some(self.active_tasks[i].task.status),
                None => None,
            },
        }
    }

    /// The tasks that workers are running.
    pub fn get_active_tasks(&self) -> (r: Vec<Task>)
        ensures
            r@.len() == self@.active.len(),
            forall|i: int| 0 <= i < r@.len() ==> (#[trigger] r@[i])@ == self@.active[i].task,
    {
        copy_tasks(&self.active_tasks)
    }

    /// The tasks that wait in the queue, the next one first.
    pub fn get_queued_tasks(&self) -> (r: Vec<Task>)
        ensures
            r@.len() == self@.queue.len(),
            forall|i: int| 0 <= i < r@.len() ==> (#[trigger] r@[i])@ == self@.queue[i].task,
    {
        copy_tasks(&self.queue)
    }

    /// Hands the next task to a worker. A task that was cancelled while it
    /// waited is dropped: nothing is reported and nothing is to be done
    /// for it. Any other is registered as running, which is reported.
    pub fn take_next(&mut self) -> (r: Dispatch)
        requires
            old(self).wf(),
        ensures
            final(self).wf(),
            final(self)@ == old(self)@.take_next(),
            match r {
                Dispatch::Idle => old(self)@.queue.len() == 0,
                Dispatch::Dropped(t) => old(self)@.queue.len() > 0 && old(self)@.queue[0].cancelled
                    && t@ == old(self)@.queue[0].task,
                Dispatch::Run(t) => old(self)@.queue.len() > 0 && !old(self)@.queue[0].cancelled
                    && t@ == (TaskView {
                    status: TaskStatus::Running,
                    ..old(self)@.queue[0].task
                }),
            },
    {
        if self.queue.len() == 0 {
            return Dispatch::Idle;
        }
        let slot = self.queue.remove(0);
        assert(slot@ == old(self)@.queue[0]);
        assert(self@.queue =~= old(self)@.queue.drop_first());
        if slot.cancelled {
            proof {
                assert forall|i: int| 0 <= i < self@.queue.len() implies (
                #[trigger] self@.queue[i]).task.status == TaskStatus::Queued by {
                    assert(self@.queue[i] == old(self)@.queue[i + 1]);
                }
            }
            return Dispatch::Dropped(slot.task);
        }
        let mut running = slot.task;
        running.status = TaskStatus::Running;
        self.event_emitter.emit_task_updated(running.id.as_str(), running.progress, "running");
        let copy = running.duplicate();
        let started = Slot { task: running, cancelled: false };
        self.active_tasks.push(started);
        proof {
            assert(self@.active =~= old(self)@.active.push(started@));
            assert forall|i: int| 0 <= i < self@.queue.len() implies (
            #[trigger] self@.queue[i]).task.status == TaskStatus::Queued by {
                assert(self@.queue[i] == old(self)@.queue[i + 1]);
            }
            assert forall|i: int| 0 <= i < self@.active.len() implies (
            #[trigger] self@.active[i]).task.status == if self@.active[i].cancelled {
                TaskStatus::Cancelled
            } else {
                TaskStatus::Running
            } by {
                if i < old(self)@.active.len() {
                    assert(self@.active[i] == old(self)@.active[i]);
                }
            }
        }
        Dispatch::Run(copy)
    }

    /// Reports progress of a task: the percentage, brought into the range
    /// from 0 to 100, and the stage that the work has reached.
    pub fn report_progress(&mut self, task_id: &str, percent: i32, stage: &str)
        requires
            old(self).wf(),
        ensures
            final(self).wf(),
            final(self)@ == old(self)@.progress(task_id@, percent, stage@),
    {
        let clamped: i32 = if percent < 0 {
            0
        } else if percent > 100 {
            100
        } else {
            percent
        };
        match find_slot(&self.active_tasks, task_id) {
            Some(i) => {
                let mut slot = self.active_tasks.remove(i);
                slot.task.progress = clamped;
                let ghost updated = slot@;
                self.active_tasks.insert(i, slot);
                proof {
                    assert(self@.active =~= old(self)@.active.update(i as int, updated));
                }
            },
            None => {},
        }
        self.event_emitter.emit_task_updated(task_id, clamped, stage);
    }

    /// Closes a running task: it leaves the scheduler, and exactly one
    /// event reports how it ended. A task whose flag is set ends as
    /// `Cancelled`, whatever its worker reports. Returns the status with
    /// which the task ended.
    pub fn finish_task(&mut self, task_id: &str, outcome: TaskOutcome) -> (r: Result<
        TaskStatus,
        PoolError,
    >)
        requires
            old(self).wf(),
        ensures
            final(self).wf(),
            final(self)@ == old(self)@.finish(task_id@, outcome@),
            match slot_index(old(self)@.active, task_id@) {
                Some(i) => r == Ok::<TaskStatus, PoolError>(
                    PoolView::closing_status(old(self)@.active[i], outcome@),
                ),
                None => r == Err::<TaskStatus, PoolError>(PoolError::TaskNotFound),
            },
    {
        let i = match find_slot(&self.active_tasks, task_id) {
            Some(i) => i,
            None => {
                return Err(PoolError::TaskNotFound);
            },
        };
        proof {
            lemma_slot_index(old(self)@.active, task_id@);
        }
        let slot = self.active_tasks.remove(i);
        assert(slot@ == old(self)@.active[i as int]);
        proof {
            assert(self@.active =~= old(self)@.active.remove(i as int));
            assert forall|k: int| 0 <= k < self@.active.len() implies (
            #[trigger] self@.active[k]).task.status == if self@.active[k].cancelled {
                TaskStatus::Cancelled
            } else {
                TaskStatus::Running
            } by {
                let k0 = if k < i { k } else { k + 1 };
                assert(self@.active[k] == old(self)@.active[k0]);
            }
        }
        if slot.cancelled {
            self.event_emitter.emit_task_cancelled(task_id);
            Ok(TaskStatus::Cancelled)
        } else {
            match outcome {
                TaskOutcome::Completed(result) => {
                    self.event_emitter.emit_task_completed(task_id, result);
                    Ok(TaskStatus::Completed)
                },
                TaskOutcome::Failed(error) => {
                    self.event_emitter.emit_task_failed(task_id, error.as_str());
                    Ok(TaskStatus::Failed)
                },
            }
        }
    }

    /// Appends an event to the outbox.
    pub fn emit(&mut self, event: AppEvent)
        requires
            old(self).wf(),
        ensures
            final(self).wf(),
            final(self)@ == (PoolView { events: old(self)@.events.push(event@), ..old(self)@ }),
    {
        self.event_emitter.emit(event);
    }

    /// Hands out the events collected so far, oldest first, and empties
    /// the outbox.
    pub fn drain_events(&mut self) -> (r: Vec<AppEvent>)
        requires
            old(self).wf(),
        ensures
            final(self).wf(),
            event_views(r@) == old(self)@.events,
            final(self)@ == (PoolView { events: Seq::empty(), ..old(self)@ }),
    {
        self.event_emitter.drain()
    }
}

fn copy_tasks(slots: &Vec<Slot>) -> (r: Vec<Task>)
    ensures
        r@.len() == slots@.len(),
        forall|i: int| 0 <= i < r@.len() ==> (#[trigger] r@[i])@ == slots@[i].task@,
{
    let mut out: Vec<Task> = Vec::new();
    let mut i: usize = 0;
    while i < slots.len()
        invariant
            i <= slots@.len(),
            out@.len() == i,
            forall|j: int| 0 <= j < i ==> (#[trigger] out@[j])@ == slots@[j].task@,
        decreases slots@.len() - i,
    {
        out.push(slots[i].task.duplicate());
        i += 1;
    }
    out
}

/// A task is found at the same place in two lists that hold the same ids
/// in the same order.
pub proof fn lemma_index_same_ids(a: Seq<SlotView>, b: Seq<SlotView>, id: Seq<char>)
    requires
        a.len() == b.len(),
        forall|i: int| 0 <= i < a.len() ==> (#[trigger] a[i]).task.id == b[i].task.id,
    ensures
        slot_index(a, id) == slot_index(b, id),
    decreases a.len(),
{
    if a.len() > 0 {
        assert(a[a.len() - 1].task.id == b[a.len() - 1].task.id);
        let a0 = a.drop_last();
        let b0 = b.drop_last();
        assert forall|i: int| 0 <= i < a0.len() implies (#[trigger] a0[i]).task.id
            == b0[i].task.id by {
            assert(a[i].task.id == b[i].task.id);
        }
        lemma_index_same_ids(a0, b0, id);
    }
}

/// There are no more tasks of a kind than there are tasks.
pub proof fn lemma_count_kind_bound(slots: Seq<SlotView>, kind: TaskKind)
    ensures
        count_kind(slots, kind) <= slots.len(),
    decreases slots.len(),
{
    if slots.len() > 0 {
        lemma_count_kind_bound(slots.drop_last(), kind);
    }
}


/// No two tasks, queued or running, share an id. The scheduler takes
/// every task that it is handed; this holds as long as each task comes
/// under an id of its own.
pub open spec fn distinct_ids(p: PoolView) -> bool {
    forall|i: int, j: int|
        0 <= i < j < (p.queue + p.active).len() ==> (#[trigger] (p.queue + p.active)[i]).task.id != (
        #[trigger] (p.queue + p.active)[j]).task.id
}

/// A task that comes under an id which the scheduler does not know
/// leaves the ids distinct.
pub proof fn lemma_new_id_keeps_ids_distinct(pool: PoolView, task: TaskView)
    requires
        distinct_ids(pool),
        !pool.knows(task.id),
    ensures
        distinct_ids(pool.enqueue(task)),
{
    let after = pool.enqueue(task);
    let a = pool.queue + pool.active;
    let b = after.queue + after.active;
    let n = pool.queue.len() as int;
    lemma_slot_index(pool.queue, task.id);
    lemma_slot_index(pool.active, task.id);
    assert forall|i: int, j: int| 0 <= i < j < b.len() implies (#[trigger] b[i]).task.id != (
    #[trigger] b[j]).task.id by {
        let oi = if i < n {
            i
        } else {
            i - 1
        };
        let oj = if j < n {
            j
        } else {
            j - 1
        };
        if i != n {
            assert(b[i] == a[oi]);
            if oi < n {
                assert(a[oi] == pool.queue[oi]);
            } else {
                assert(a[oi] == pool.active[oi - n]);
            }
        }
        if j != n {
            assert(b[j] == a[oj]);
            if oj < n {
                assert(a[oj] == pool.queue[oj]);
            } else {
                assert(a[oj] == pool.active[oj - n]);
            }
        }
    }
}

/// Cancelling, reporting progress, handing a task to a worker and
/// closing a task leave the ids distinct.
pub proof fn lemma_ids_stay_distinct(
    pool: PoolView,
    id: Seq<char>,
    kind: TaskKind,
    outcome: OutcomeView,
    percent: i32,
    stage: Seq<char>,
)
    requires
        distinct_ids(pool),
    ensures
        distinct_ids(pool.cancel(id)),
        distinct_ids(pool.cancel_all(kind)),
        distinct_ids(pool.progress(id, percent, stage)),
        distinct_ids(pool.take_next()),
        distinct_ids(pool.finish(id, outcome)),
{
    let a = pool.queue + pool.active;
    let n = pool.queue.len() as int;
    lemma_slot_index(pool.queue, id);
    lemma_slot_index(pool.active, id);
    assert(distinct_ids(pool.cancel(id))) by {
        let after = pool.cancel(id);
        let b = after.queue + after.active;
        assert forall|i: int, j: int| 0 <= i < j < b.len() implies (#[trigger] b[i]).task.id != (
        #[trigger] b[j]).task.id by {
            assert(b[i].task.id == a[i].task.id);
            assert(b[j].task.id == a[j].task.id);
        }
    }
    assert(distinct_ids(pool.cancel_all(kind))) by {
        let after = pool.cancel_all(kind);
        let b = after.queue + after.active;
        assert forall|i: int, j: int| 0 <= i < j < b.len() implies (#[trigger] b[i]).task.id != (
        #[trigger] b[j]).task.id by {
            assert(b[i].task.id == a[i].task.id);
            assert(b[j].task.id == a[j].task.id);
        }
    }
    assert(distinct_ids(pool.progress(id, percent, stage))) by {
        let after = pool.progress(id, percent, stage);
        let b = after.queue + after.active;
        assert forall|i: int, j: int| 0 <= i < j < b.len() implies (#[trigger] b[i]).task.id != (
        #[trigger] b[j]).task.id by {
            assert(b[i].task.id == a[i].task.id);
            assert(b[j].task.id == a[j].task.id);
        }
    }
    assert(distinct_ids(pool.take_next())) by {
        let after = pool.take_next();
        let b = after.queue + after.active;
        if pool.queue.len() > 0 {
            assert forall|i: int, j: int| 0 <= i < j < b.len() implies (#[trigger] b[i]).task.id
                != (#[trigger] b[j]).task.id by {
                let oi = if i < b.len() - 1 || pool.queue[0].cancelled {
                    i + 1
                } else {
                    0
                };
                let oj = if j < b.len() - 1 || pool.queue[0].cancelled {
                    j + 1
                } else {
                    0
                };
                assert(b[i].task.id == a[oi].task.id);
                assert(b[j].task.id == a[oj].task.id);
            }
        }
    }
    assert(distinct_ids(pool.finish(id, outcome))) by {
        let after = pool.finish(id, outcome);
        let b = after.queue + after.active;
        if slot_index(pool.active, id) is Some {
            let k = slot_index(pool.active, id).unwrap();
            assert forall|i: int, j: int| 0 <= i < j < b.len() implies (#[trigger] b[i]).task.id
                != (#[trigger] b[j]).task.id by {
                let oi = if i < n + k {
                    i
                } else {
                    i + 1
                };
                let oj = if j < n + k {
                    j
                } else {
                    j + 1
                };
                assert(b[i] == a[oi]);
                assert(b[j] == a[oj]);
            }
        }
    }
}

/// Where ids are distinct, a task that was closed is gone: the scheduler
/// no longer knows its id, and cancelling it fails and changes nothing.
pub proof fn lemma_closed_task_is_unknown(pool: PoolView, id: Seq<char>, outcome: OutcomeView)
    requires
        distinct_ids(pool),
        slot_index(pool.active, id) is Some,
    ensures
        !pool.finish(id, outcome).knows(id),
        pool.finish(id, outcome).cancel(id) == pool.finish(id, outcome),
{
    let after = pool.finish(id, outcome);
    let a = pool.queue + pool.active;
    let n = pool.queue.len() as int;
    let k = slot_index(pool.active, id).unwrap();
    lemma_slot_index(pool.queue, id);
    lemma_slot_index(pool.active, id);
    lemma_slot_index(after.queue, id);
    lemma_slot_index(after.active, id);
    assert(a[n + k] == pool.active[k]);
    if slot_index(after.queue, id) is Some {
        let q = slot_index(after.queue, id).unwrap();
        assert(a[q] == pool.queue[q]);
    }
    if slot_index(after.active, id) is Some {
        let m = slot_index(after.active, id).unwrap();
        let om = if m < k {
            m
        } else {
            m + 1
        };
        assert(after.active[m] == pool.active[om]);
        assert(a[n + om] == pool.active[om]);
    }
}

/// After all tasks of a kind were cancelled, every queued and every
/// running task of that kind has its flag set.
pub proof fn lemma_cancel_all_sets_flags(pool: PoolView, kind: TaskKind)
    ensures
        forall|i: int|
            0 <= i < pool.cancel_all(kind).queue.len() && kind_of(
                (#[trigger] pool.cancel_all(kind).queue[i]).task.task_type,
            ) == kind ==> pool.cancel_all(kind).queue[i].cancelled,
        forall|i: int|
            0 <= i < pool.cancel_all(kind).active.len() && kind_of(
                (#[trigger] pool.cancel_all(kind).active[i]).task.task_type,
            ) == kind ==> pool.cancel_all(kind).active[i].cancelled,
        pool.cancel_all(kind).events == pool.events,
        pool_wf(pool) ==> pool_wf(pool.cancel_all(kind)),
{
}

/// After all tasks of a kind were cancelled, a worker that asks whether a
/// queued or running task of that kind is cancelled is told that it is.
pub proof fn lemma_cancel_all_is_seen(pool: PoolView, kind: TaskKind, id: Seq<char>)
    requires
        pool_wf(pool),
        pool.knows(id),
        match slot_index(pool.queue, id) {
            Some(i) => kind_of(pool.queue[i].task.task_type) == kind,
            None => kind_of(pool.active[slot_index(pool.active, id).unwrap()].task.task_type)
                == kind,
        },
    ensures
        pool.cancel_all(kind).cancelled(id),
{
    let after = pool.cancel_all(kind);
    lemma_index_same_ids(pool.queue, after.queue, id);
    lemma_index_same_ids(pool.active, after.active, id);
    lemma_slot_index(pool.queue, id);
    lemma_slot_index(pool.active, id);
}

/// A task that was cancelled while it waited never runs: when its turn
/// comes it leaves the queue, no task starts, and nothing is reported.
pub proof fn lemma_cancelled_head_is_dropped(pool: PoolView)
    requires
        pool.queue.len() > 0,
        pool.queue[0].cancelled,
    ensures
        pool.take_next().queue == pool.queue.drop_first(),
        pool.take_next().active == pool.active,
        pool.take_next().events == pool.events,
{
}

/// Closing a task reports exactly one event, and that event closes the
/// task: it says that the task completed, failed or was cancelled.
pub proof fn lemma_finish_reports_once(pool: PoolView, id: Seq<char>, outcome: OutcomeView)
    requires
        slot_index(pool.active, id) is Some,
    ensures
        pool.finish(id, outcome).events.len() == pool.events.len() + 1,
        pool.finish(id, outcome).events.drop_last() == pool.events,
        crate::events::is_terminal(pool.finish(id, outcome).events.last()),
        pool.finish(id, outcome).active.len() == pool.active.len() - 1,
        pool.active[slot_index(pool.active, id).unwrap()].cancelled ==> pool.finish(
            id,
            outcome,
        ).events.last() is TaskCancelled,
{
    lemma_slot_index(pool.active, id);
    assert(pool.finish(id, outcome).events.drop_last() =~= pool.events);
}

/// Progress that is reported stays within 0 and 100.
pub proof fn lemma_progress_in_range(p: i32)
    ensures
        0 <= clamp_percent(p) <= 100,
{
}

/// A task moves through its life in one direction: from `Queued` to
/// `Running` when a worker takes it, and from `Running` to the status
/// with which it is closed. A task that was cancelled while it ran is
/// `Cancelled` from then on, and is closed as such.
pub proof fn lemma_task_lifecycle(pool: PoolView, id: Seq<char>, outcome: OutcomeView)
    requires
        pool_wf(pool),
    ensures
        pool.queue.len() > 0 && !pool.queue[0].cancelled ==> task_may_follow(
            pool.queue[0].task.status,
            pool.take_next().active.last().task.status,
        ),
        slot_index(pool.active, id) matches Some(i) ==> if pool.active[i].cancelled {
            pool.active[i].task.status == TaskStatus::Cancelled && PoolView::closing_status(
                pool.active[i],
                outcome,
            ) == TaskStatus::Cancelled
        } else {
            task_may_follow(
                pool.active[i].task.status,
                PoolView::closing_status(pool.active[i], outcome),
            )
        },
{
    lemma_slot_index(pool.active, id);
}

} // verus!

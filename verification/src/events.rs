//! The events that the engine reports, and the outbox that collects them.
//!
//! Reporting never fails and never blocks: an event is appended to the
//! outbox, and whoever runs the engine drains the outbox and delivers what
//! it holds.

use vstd::prelude::*;
use crate::ids::{id_text, uuid_text};
use crate::task::{TaskPayload, TaskPayloadView};
use crate::urls::opt_view;

verus! {

/// What a finished task has to show.
#[derive(Debug, Clone)]
pub struct TaskCompletedResult {
    pub snippets_count: Option<usize>,
    pub url_id: u128,
}

#[derive(Debug, Clone)]
pub struct TaskCreatedEvent {
    pub task_id: String,
    pub task_type: String,
    pub metadata: TaskPayload,
}

#[derive(Debug, Clone)]
pub struct TaskUpdatedEvent {
    pub task_id: String,
    pub progress: i32,
    pub status: String,
}

#[derive(Debug, Clone)]
pub struct TaskCompletedEvent {
    pub task_id: String,
    pub result: TaskCompletedResult,
}

#[derive(Debug, Clone)]
pub struct TaskFailedEvent {
    pub task_id: String,
    pub error: String,
}

#[derive(Debug, Clone)]
pub struct TaskCancelledEvent {
    pub task_id: String,
}

#[derive(Debug, Clone)]
pub struct ProcessingStartedEvent {
    pub task_id: String,
    pub url: Option<String>,
    pub tech_id: Option<String>,
}

#[derive(Debug, Clone)]
pub struct ProcessingCompletedEvent {
    pub task_id: String,
    pub snippets_count: i32,
}

#[derive(Debug, Clone)]
pub struct UrlStatusUpdatedEvent {
    pub url_id: String,
    pub status: String,
}

#[derive(Debug, Clone)]
pub struct AppNotificationEvent {
    pub title: String,
    pub message: String,
    pub notification_type: Option<String>,
}

/// An event of the engine.
#[derive(Debug, Clone)]
pub enum AppEvent {
    TaskCreated(TaskCreatedEvent),
    TaskUpdated(TaskUpdatedEvent),
    TaskCompleted(TaskCompletedEvent),
    TaskFailed(TaskFailedEvent),
    TaskError(TaskFailedEvent),
    TaskCancelled(TaskCancelledEvent),
    ProcessingStarted(ProcessingStartedEvent),
    ProcessingCompleted(ProcessingCompletedEvent),
    UrlStatusUpdated(UrlStatusUpdatedEvent),
    Notification(AppNotificationEvent),
}

/// The mathematical value of an [`AppEvent`].
pub enum EventView {
    TaskCreated { task_id: Seq<char>, task_type: Seq<char>, metadata: TaskPayloadView },
    TaskUpdated { task_id: Seq<char>, progress: i32, status: Seq<char> },
    TaskCompleted { task_id: Seq<char>, snippets_count: Option<usize>, url_id: u128 },
    TaskFailed { task_id: Seq<char>, error: Seq<char> },
    TaskError { task_id: Seq<char>, error: Seq<char> },
    TaskCancelled { task_id: Seq<char> },
    ProcessingStarted { task_id: Seq<char>, url: Option<Seq<char>>, tech_id: Option<Seq<char>> },
    ProcessingCompleted { task_id: Seq<char>, snippets_count: i32 },
    UrlStatusUpdated { url_id: Seq<char>, status: Seq<char> },
    Notification { title: Seq<char>, message: Seq<char>, notification_type: Option<Seq<char>> },
}

impl View for AppEvent {
    type V = EventView;

    open spec fn view(&self) -> EventView {
        match *self {
            AppEvent::TaskCreated(e) => EventView::TaskCreated {
                task_id: e.task_id@,
                task_type: e.task_type@,
                metadata: e.metadata@,
            },
            AppEvent::TaskUpdated(e) => EventView::TaskUpdated {
                task_id: e.task_id@,
                progress: e.progress,
                status: e.status@,
            },
            AppEvent::TaskCompleted(e) => EventView::TaskCompleted {
                task_id: e.task_id@,
                snippets_count: e.result.snippets_count,
                url_id: e.result.url_id,
            },
            AppEvent::TaskFailed(e) => EventView::TaskFailed {
                task_id: e.task_id@,
                error: e.error@,
            },
            AppEvent::TaskError(e) => EventView::TaskError { task_id: e.task_id@, error: e.error@ },
            AppEvent::TaskCancelled(e) => EventView::TaskCancelled { task_id: e.task_id@ },
            AppEvent::ProcessingStarted(e) => EventView::ProcessingStarted {
                task_id: e.task_id@,
                url: opt_view(e.url),
                tech_id: opt_view(e.tech_id),
            },
            AppEvent::ProcessingCompleted(e) => EventView::ProcessingCompleted {
                task_id: e.task_id@,
                snippets_count: e.snippets_count,
            },
            AppEvent::UrlStatusUpdated(e) => EventView::UrlStatusUpdated {
                url_id: e.url_id@,
                status: e.status@,
            },
            AppEvent::Notification(e) => EventView::Notification {
                title: e.title@,
                message: e.message@,
                notification_type: opt_view(e.notification_type),
            },
        }
    }
}

/// The name of the channel on which an event is delivered.
pub open spec fn channel_of(e: EventView) -> Seq<char> {
    match e {
        EventView::TaskCreated { .. } => "task:created"@,
        EventView::TaskUpdated { .. } => "task:updated"@,
        EventView::TaskCompleted { .. } => "task:completed"@,
        EventView::TaskFailed { .. } => "task:failed"@,
        EventView::TaskError { .. } => "task:error"@,
        EventView::TaskCancelled { .. } => "task:cancelled"@,
        EventView::ProcessingStarted { .. } => "processing:started"@,
        EventView::ProcessingCompleted { .. } => "processing:completed"@,
        EventView::UrlStatusUpdated { .. } => "url:status:updated"@,
        EventView::Notification { .. } => "app:notification"@,
    }
}

/// An event closes a task: it reports that the task completed, failed or
/// was cancelled.
pub open spec fn is_terminal(e: EventView) -> bool {
    e is TaskCompleted || e is TaskFailed || e is TaskCancelled
}

/// The views of a list of events.
pub open spec fn event_views(events: Seq<AppEvent>) -> Seq<EventView> {
    Seq::new(events.len(), |i: int| events[i]@)
}

impl AppEvent {
    /// The name of the channel on which the event is delivered.
    pub fn channel(&self) -> (r: &'static str)
        ensures
            r@ == channel_of(self@),
    {
        match self {
            AppEvent::TaskCreated(_) => "task:created",
            AppEvent::TaskUpdated(_) => "task:updated",
            AppEvent::TaskCompleted(_) => "task:completed",
            AppEvent::TaskFailed(_) => "task:failed",
            AppEvent::TaskError(_) => "task:error",
            AppEvent::TaskCancelled(_) => "task:cancelled",
            AppEvent::ProcessingStarted(_) => "processing:started",
            AppEvent::ProcessingCompleted(_) => "processing:completed",
            AppEvent::UrlStatusUpdated(_) => "url:status:updated",
            AppEvent::Notification(_) => "app:notification",
        }
    }
}

/// The outbox of events.
pub struct EventEmitter {
    outbox: Vec<AppEvent>,
}

impl View for EventEmitter {
    type V = Seq<EventView>;

    closed spec fn view(&self) -> Seq<EventView> {
        event_views(self.outbox@)
    }
}

impl EventEmitter {
    /// An emitter with an empty outbox.
    pub fn new() -> (r: EventEmitter)
        ensures
            r@ == Seq::<EventView>::empty(),
    {
        let r = EventEmitter { outbox: Vec::new() };
        assert(r@ =~= Seq::<EventView>::empty());
        r
    }

    /// The number of events in the outbox.
    pub fn len(&self) -> (r: usize)
        ensures
            r == self@.len(),
    {
        self.outbox.len()
    }

    /// Appends an event to the outbox.
    pub fn emit(&mut self, event: AppEvent)
        ensures
            final(self)@ == old(self)@.push(event@),
    {
        self.outbox.push(event);
        assert(final(self)@ =~= old(self)@.push(event@));
    }

    /// Hands out the events collected so far, oldest first, and empties
    /// the outbox.
    pub fn drain(&mut self) -> (r: Vec<AppEvent>)
        ensures
            event_views(r@) == old(self)@,
            final(self)@ == Seq::<EventView>::empty(),
    {
        let mut taken: Vec<AppEvent> = Vec::new();
        std::mem::swap(&mut self.outbox, &mut taken);
        assert(final(self)@ =~= Seq::<EventView>::empty());
        taken
    }

    pub fn emit_task_created(&mut self, task_id: &str, task_type: &str, metadata: TaskPayload)
        ensures
            final(self)@ == old(self)@.push(
                EventView::TaskCreated {
                    task_id: task_id@,
                    task_type: task_type@,
                    metadata: metadata@,
                },
            ),
    {
        self.emit(
            AppEvent::TaskCreated(
                TaskCreatedEvent {
                    task_id: task_id.to_owned(),
                    task_type: task_type.to_owned(),
                    metadata,
                },
            ),
        );
    }

    pub fn emit_task_updated(&mut self, task_id: &str, progress: i32, status: &str)
        ensures
            final(self)@ == old(self)@.push(
                EventView::TaskUpdated { task_id: task_id@, progress, status: status@ },
            ),
    {
        self.emit(
            AppEvent::TaskUpdated(
                TaskUpdatedEvent {
                    task_id: task_id.to_owned(),
                    progress,
                    status: status.to_owned(),
                },
            ),
        );
    }

    pub fn emit_task_completed(&mut self, task_id: &str, result: TaskCompletedResult)
        ensures
            final(self)@ == old(self)@.push(
                EventView::TaskCompleted {
                    task_id: task_id@,
                    snippets_count: result.snippets_count,
                    url_id: result.url_id,
                },
            ),
    {
        self.emit(
            AppEvent::TaskCompleted(TaskCompletedEvent { task_id: task_id.to_owned(), result }),
        );
    }

    pub fn emit_task_failed(&mut self, task_id: &str, error: &str)
        ensures
            final(self)@ == old(self)@.push(
                EventView::TaskFailed { task_id: task_id@, error: error@ },
            ),
    {
        self.emit(
            AppEvent::TaskFailed(
                TaskFailedEvent { task_id: task_id.to_owned(), error: error.to_owned() },
            ),
        );
    }

    pub fn emit_task_error(&mut self, task_id: &str, error: &str)
        ensures
            final(self)@ == old(self)@.push(
                EventView::TaskError { task_id: task_id@, error: error@ },
            ),
    {
        self.emit(
            AppEvent::TaskError(
                TaskFailedEvent { task_id: task_id.to_owned(), error: error.to_owned() },
            ),
        );
    }

    pub fn emit_task_cancelled(&mut self, task_id: &str)
        ensures
            final(self)@ == old(self)@.push(EventView::TaskCancelled { task_id: task_id@ }),
    {
        self.emit(AppEvent::TaskCancelled(TaskCancelledEvent { task_id: task_id.to_owned() }));
    }

    pub fn emit_processing_started(
        &mut self,
        task_id: &str,
        url: Option<&str>,
        tech_id: Option<u128>,
    )
        ensures
            final(self)@ == old(self)@.push(
                EventView::ProcessingStarted {
                    task_id: task_id@,
                    url: match url {
                        Some(u) => Some(u@),
                        None => None,
                    },
                    tech_id: match tech_id {
                        Some(t) => Some(uuid_text(t)),
                        None => None,
                    },
                },
            ),
    {
        let url_text = match url {
            Some(u) => Some(u.to_owned()),
            None => None,
        };
        let tech_text = match tech_id {
            Some(t) => Some(id_text(t)),
            None => None,
        };
        self.emit(
            AppEvent::ProcessingStarted(
                ProcessingStartedEvent {
                    task_id: task_id.to_owned(),
                    url: url_text,
                    tech_id: tech_text,
                },
            ),
        );
    }

    pub fn emit_processing_completed(&mut self, task_id: &str, snippets_count: i32)
        ensures
            final(self)@ == old(self)@.push(
                EventView::ProcessingCompleted { task_id: task_id@, snippets_count },
            ),
    {
        self.emit(
            AppEvent::ProcessingCompleted(
                ProcessingCompletedEvent { task_id: task_id.to_owned(), snippets_count },
            ),
        );
    }

    pub fn emit_url_status_updated(&mut self, url_id: u128, status: &str)
        ensures
            final(self)@ == old(self)@.push(
                EventView::UrlStatusUpdated { url_id: uuid_text(url_id), status: status@ },
            ),
    {
        self.emit(
            AppEvent::UrlStatusUpdated(
                UrlStatusUpdatedEvent { url_id: id_text(url_id), status: status.to_owned() },
            ),
        );
    }

    pub fn emit_app_notification(
        &mut self,
        title: &str,
        message: &str,
        notification_type: Option<&str>,
    )
        ensures
            final(self)@ == old(self)@.push(
                EventView::Notification {
                    title: title@,
                    message: message@,
                    notification_type: match notification_type {
                        Some(t) => Some(t@),
                        None => None,
                    },
                },
            ),
    {
        let kind = match notification_type {
            Some(t) => Some(t.to_owned()),
            None => None,
        };
        self.emit(
            AppEvent::Notification(
                AppNotificationEvent {
                    title: title.to_owned(),
                    message: message.to_owned(),
                    notification_type: kind,
                },
            ),
        );
    }
}

} // verus!

//! The task model: a server-side asynchronous job, identified by a numeric
//! uid, together with its status and the details of what the job did.

use vstd::prelude::*;
use crate::DateTime;

verus! {

/// Anything that can stand for a task when asking the server about it.
pub trait AsTaskUid {
    /// The uid this value stands for.
    spec fn spec_task_uid(&self) -> u64;

    /// Returns the uid this value stands for.
    fn as_task_uid(&self) -> (r: u64)
        ensures
            r == self.spec_task_uid(),
    ;
}

impl AsTaskUid for u64 {
    open spec fn spec_task_uid(&self) -> u64 {
        *self
    }

    fn as_task_uid(&self) -> (r: u64) {
        *self
    }
}

/// Status of a server-side task at the time it was observed.
#[derive(Debug, Clone, Copy, PartialEq, Eq, Structural)]
pub enum TaskStatus {
    Enqueued,
    Processing,
    Succeeded,
    Failed,
    Canceled,
}

impl TaskStatus {
    /// True exactly for the terminal statuses: once a task reaches one of
    /// them, its record never changes again.
    pub open spec fn spec_has_stopped(self) -> bool {
        self is Succeeded || self is Failed || self is Canceled
    }

    /// Whether the task has reached a terminal status.
    #[verifier::when_used_as_spec(spec_has_stopped)]
    pub fn has_stopped(self) -> (r: bool)
        ensures
            r == self.spec_has_stopped(),
    {
        matches!(self, TaskStatus::Succeeded | TaskStatus::Failed | TaskStatus::Canceled)
    }
}

/// Error details the server attaches to a failed task.
#[derive(Debug, PartialEq)]
pub struct TaskError {
    pub message: String,
    pub code: String,
    pub type_field: String,
    pub link: String,
}

impl Clone for TaskError {
    fn clone(&self) -> (r: Self)
        ensures
            r == *self,
    {
        TaskError {
            message: self.message.clone(),
            code: self.code.clone(),
            type_field: self.type_field.clone(),
            link: self.link.clone(),
        }
    }
}

impl Default for TaskError {
    fn default() -> (r: Self)
        ensures
            r.message@ == Seq::<char>::empty(),
            r.code@ == Seq::<char>::empty(),
            r.type_field@ == Seq::<char>::empty(),
            r.link@ == Seq::<char>::empty(),
    {
        TaskError {
            message: String::new(),
            code: String::new(),
            type_field: String::new(),
            link: String::new(),
        }
    }
}

/// What kind of work a task performed, with the details the server reports
/// for that kind. The swap list of an `IndexSwap` is carried verbatim as the
/// JSON text the server sent; nothing here reads into it.
#[derive(Debug, PartialEq)]
pub enum TaskKind {
    IndexCreation { primary_key: Option<String> },
    IndexUpdate { primary_key: Option<String> },
    IndexDeletion { deleted_documents: Option<i64> },
    IndexSwap { swaps: String },
    DocumentAdditionOrUpdate { received_documents: u64, indexed_documents: Option<u64> },
    DocumentDeletion { provided_ids: u64, original_filter: Option<String>, deleted_documents: u64 },
    SettingsUpdate(crate::index::IndexSettings),
    DumpCreation { dump_uid: i64 },
    TaskCancelation { matched_tasks: i64, canceled_tasks: i64, original_filter: Option<String> },
    TaskDeletion { matched_tasks: u64, deleted_tasks: u64, original_filter: Option<String> },
    SnapshotCreation,
}

fn clone_opt_string(s: &Option<String>) -> (r: Option<String>)
    ensures
        r == *s,
{
    match s {
        Some(v) => Some(v.clone()),
        None => None,
    }
}

impl TaskKind {
    /// Observational equality: the same variant with the same details. The
    /// settings payload is compared entry by entry.
    pub open spec fn equiv(self, other: Self) -> bool {
        match (self, other) {
            (TaskKind::SettingsUpdate(a), TaskKind::SettingsUpdate(b)) => a.equiv(b),
            _ => self == other,
        }
    }
}

impl Clone for TaskKind {
    fn clone(&self) -> (r: Self)
        ensures
            self.equiv(r),
    {
        match self {
            TaskKind::IndexCreation { primary_key } => TaskKind::IndexCreation {
                primary_key: clone_opt_string(primary_key),
            },
            TaskKind::IndexUpdate { primary_key } => TaskKind::IndexUpdate {
                primary_key: clone_opt_string(primary_key),
            },
            TaskKind::IndexDeletion { deleted_documents } => TaskKind::IndexDeletion {
                deleted_documents: *deleted_documents,
            },
            TaskKind::IndexSwap { swaps } => TaskKind::IndexSwap { swaps: swaps.clone() },
            TaskKind::DocumentAdditionOrUpdate { received_documents, indexed_documents } => {
                TaskKind::DocumentAdditionOrUpdate {
                    received_documents: *received_documents,
                    indexed_documents: *indexed_documents,
                }
            },
            TaskKind::DocumentDeletion { provided_ids, original_filter, deleted_documents } => {
                TaskKind::DocumentDeletion {
                    provided_ids: *provided_ids,
                    original_filter: clone_opt_string(original_filter),
                    deleted_documents: *deleted_documents,
                }
            },
            TaskKind::SettingsUpdate(settings) => TaskKind::SettingsUpdate(settings.clone()),
            TaskKind::DumpCreation { dump_uid } => TaskKind::DumpCreation { dump_uid: *dump_uid },
            TaskKind::TaskCancelation { matched_tasks, canceled_tasks, original_filter } => {
                TaskKind::TaskCancelation {
                    matched_tasks: *matched_tasks,
                    canceled_tasks: *canceled_tasks,
                    original_filter: clone_opt_string(original_filter),
                }
            },
            TaskKind::TaskDeletion { matched_tasks, deleted_tasks, original_filter } => {
                TaskKind::TaskDeletion {
                    matched_tasks: *matched_tasks,
                    deleted_tasks: *deleted_tasks,
                    original_filter: clone_opt_string(original_filter),
                }
            },
            TaskKind::SnapshotCreation => TaskKind::SnapshotCreation,
        }
    }
}

/// The kind tag alone, as reported in the short task references the server
/// returns when a job is enqueued.
#[derive(Debug, Clone, Copy, PartialEq, Eq, Structural)]
pub enum TaskKindRef {
    IndexCreation,
    IndexUpdate,
    IndexDeletion,
    IndexSwap,
    DocumentAdditionOrUpdate,
    DocumentDeletion,
    SettingsUpdate,
    DumpCreation,
    TaskCancelation,
    TaskDeletion,
    SnapshotCreation,
}

/// Short reference to a freshly enqueued task, as returned by the endpoints
/// that start a job.
#[derive(Debug)]
pub struct TaskRef {
    pub uid: u64,
    pub index_uid: String,
    pub status: TaskStatus,
    pub kind: TaskKindRef,
    pub enqueued_at: DateTime,
}

impl Clone for TaskRef {
    fn clone(&self) -> (r: Self)
        ensures
            r == *self,
    {
        TaskRef {
            uid: self.uid,
            index_uid: self.index_uid.clone(),
            status: self.status,
            kind: self.kind,
            enqueued_at: self.enqueued_at.clone(),
        }
    }
}

impl AsTaskUid for TaskRef {
    open spec fn spec_task_uid(&self) -> u64 {
        self.uid
    }

    fn as_task_uid(&self) -> (r: u64) {
        self.uid
    }
}

impl AsTaskUid for &TaskRef {
    open spec fn spec_task_uid(&self) -> u64 {
        self.uid
    }

    fn as_task_uid(&self) -> (r: u64) {
        self.uid
    }
}

/// Full record of a server-side task at a point in time. Identity is `uid`;
/// a record is immutable once constructed.
#[derive(Debug, PartialEq)]
pub struct Task {
    pub uid: u64,
    pub index_uid: String,
    pub status: TaskStatus,
    pub kind: TaskKind,
    pub canceled_by: Option<u64>,
    pub error: Option<TaskError>,
    pub duration: Option<String>,
    pub enqueued_at: DateTime,
    pub started_at: Option<DateTime>,
    pub finished_at: Option<DateTime>,
}

impl Task {
    /// Observational equality: every field equal; the kind is compared by
    /// its own observational equality.
    pub open spec fn equiv(self, other: Self) -> bool {
        &&& self.uid == other.uid
        &&& self.index_uid == other.index_uid
        &&& self.status == other.status
        &&& self.kind.equiv(other.kind)
        &&& self.canceled_by == other.canceled_by
        &&& self.error == other.error
        &&& self.duration == other.duration
        &&& self.enqueued_at == other.enqueued_at
        &&& self.started_at == other.started_at
        &&& self.finished_at == other.finished_at
    }
}

impl Clone for Task {
    fn clone(&self) -> (r: Self)
        ensures
            self.equiv(r),
    {
        Task {
            uid: self.uid,
            index_uid: self.index_uid.clone(),
            status: self.status,
            kind: self.kind.clone(),
            canceled_by: self.canceled_by,
            error: match &self.error {
                Some(e) => Some(e.clone()),
                None => None,
            },
            duration: clone_opt_string(&self.duration),
            enqueued_at: self.enqueued_at.clone(),
            started_at: clone_opt_string(&self.started_at),
            finished_at: clone_opt_string(&self.finished_at),
        }
    }
}

impl AsTaskUid for Task {
    open spec fn spec_task_uid(&self) -> u64 {
        self.uid
    }

    fn as_task_uid(&self) -> (r: u64) {
        self.uid
    }
}

impl AsTaskUid for &Task {
    open spec fn spec_task_uid(&self) -> u64 {
        self.uid
    }

    fn as_task_uid(&self) -> (r: u64) {
        self.uid
    }
}

} // verus!

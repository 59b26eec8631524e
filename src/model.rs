//! Persisted entities of the task store: task status codes and task log entries.
use vstd::prelude::*;

use crate::json::JsonValue;

verus! {

/// Stored code of a created task.
pub const TASK_STATUS_CREATED: i32 = 1;

/// Stored code of a deleted task.
pub const TASK_STATUS_DELETED: i32 = -1;

/// Stored code of a stopped task.
pub const TASK_STATUS_STOP: i32 = 10;

/// Stored code of a running task.
pub const TASK_STATUS_RUNNING: i32 = 12;

/// Stored code of a failed task.
pub const TASK_STATUS_ERROR: i32 = 16;

/// The status of a task.
#[derive(Debug, Clone, Copy, PartialEq, Eq, Structural)]
pub enum TaskStatus {
    Created,
    Deleted,
    Running,
    Stop,
    ERROR,
}

/// The stored code of a status.
pub open spec fn status_code(s: TaskStatus) -> i32 {
    match s {
        TaskStatus::Created => TASK_STATUS_CREATED,
        TaskStatus::Deleted => TASK_STATUS_DELETED,
        TaskStatus::Running => TASK_STATUS_RUNNING,
        TaskStatus::Stop => TASK_STATUS_STOP,
        TaskStatus::ERROR => TASK_STATUS_ERROR,
    }
}

impl TaskStatus {
    /// The stored code of the status.
    pub fn get_status(&self) -> (r: i32)
        ensures
            r == status_code(*self),
    {
        match self {
            TaskStatus::Created => TASK_STATUS_CREATED,
            TaskStatus::Deleted => TASK_STATUS_DELETED,
            TaskStatus::ERROR => TASK_STATUS_ERROR,
            TaskStatus::Running => TASK_STATUS_RUNNING,
            TaskStatus::Stop => TASK_STATUS_STOP,
        }
    }

    /// The status with the given stored code, if any.
    pub fn from_code(code: i32) -> (r: Option<TaskStatus>)
        ensures
            match r {
                Some(s) => status_code(s) == code,
                None => forall|s: TaskStatus| status_code(s) != code,
            },
    {
        if code == TASK_STATUS_CREATED {
            Some(TaskStatus::Created)
        } else if code == TASK_STATUS_DELETED {
            Some(TaskStatus::Deleted)
        } else if code == TASK_STATUS_RUNNING {
            Some(TaskStatus::Running)
        } else if code == TASK_STATUS_STOP {
            Some(TaskStatus::Stop)
        } else if code == TASK_STATUS_ERROR {
            Some(TaskStatus::ERROR)
        } else {
            None
        }
    }
}

/// A page of tasks with one status.
#[derive(Debug, Clone, Copy, PartialEq, Eq, Structural)]
pub struct FetchTaskRequest {
    pub status: i32,
    pub page: i32,
    pub page_size: i32,
}

/// Whether a log entry is live or deleted.
#[derive(Debug, Clone, Copy, PartialEq, Eq, Structural)]
pub enum TaskLogStatus {
    Normal,
    Deleted,
}

impl TaskLogStatus {
    /// The stored code: 1 for a live entry, 2 for a deleted one.
    pub fn status(&self) -> (r: i32)
        ensures
            r == (match *self {
                TaskLogStatus::Normal => 1i32,
                TaskLogStatus::Deleted => 2i32,
            }),
    {
        match self {
            TaskLogStatus::Normal => 1,
            TaskLogStatus::Deleted => 2,
        }
    }
}

/// One entry of a task's log.
#[derive(Debug, PartialEq)]
pub struct TaskLog {
    pub id: i64,
    pub task_id: i64,
    pub log_info: String,
    pub status: i32,
    pub created_at: i64,
    pub updated_at: i64,
}

impl TaskLog {
    /// A live entry for `task_id`, not yet stored, stamped with `now`.
    pub fn new(task_id: i64, log_info: &str, now: i64) -> (r: TaskLog)
        ensures
            r.id == 0,
            r.task_id == task_id,
            r.log_info@ == log_info@,
            r.status == 1,
            r.created_at == now,
            r.updated_at == now,
    {
        TaskLog {
            id: 0,
            task_id,
            log_info: log_info.to_owned(),
            status: TaskLogStatus::Normal.status(),
            created_at: now,
            updated_at: now,
        }
    }
}

/// A stored task: its name, status, configurations and progress.
#[derive(Debug)]
pub struct TaskInfo {
    pub id: i64,
    pub name: String,
    pub status: i32,
    pub parser_config: JsonValue,
    pub src_config: JsonValue,
    pub dst_config: JsonValue,
    pub debug_text: JsonValue,
    pub heartbeat: i64,
    pub created_at: i64,
    pub updated_at: i64,
    pub property_item: JsonValue,
    pub handle_num: i64,
    pub handle_err: i64,
}

impl Default for TaskInfo {
    /// A task with zero numbers, an empty name and null configurations.
    fn default() -> (r: TaskInfo)
        ensures
            r.id == 0,
            r.name@.len() == 0,
            r.status == 0,
            r.parser_config == JsonValue::Null,
            r.src_config == JsonValue::Null,
            r.dst_config == JsonValue::Null,
            r.debug_text == JsonValue::Null,
            r.heartbeat == 0,
            r.created_at == 0,
            r.updated_at == 0,
            r.property_item == JsonValue::Null,
            r.handle_num == 0,
            r.handle_err == 0,
    {
        TaskInfo {
            id: 0,
            name: String::new(),
            status: 0,
            parser_config: JsonValue::Null,
            src_config: JsonValue::Null,
            dst_config: JsonValue::Null,
            debug_text: JsonValue::Null,
            heartbeat: 0,
            created_at: 0,
            updated_at: 0,
            property_item: JsonValue::Null,
            handle_num: 0,
            handle_err: 0,
        }
    }
}

impl TaskInfo {
    /// The task with another name.
    pub fn with_name(self, name: String) -> (r: TaskInfo)
        ensures
            r == (TaskInfo { name, ..self }),
    {
        TaskInfo { name, ..self }
    }

    /// The task with another source configuration.
    pub fn with_src_config(self, src_config: JsonValue) -> (r: TaskInfo)
        ensures
            r == (TaskInfo { src_config, ..self }),
    {
        TaskInfo { src_config, ..self }
    }

    /// The task with another sink configuration.
    pub fn with_dst_config(self, dst_config: JsonValue) -> (r: TaskInfo)
        ensures
            r == (TaskInfo { dst_config, ..self }),
    {
        TaskInfo { dst_config, ..self }
    }

    /// The task with another status code.
    pub fn with_status(self, status: i32) -> (r: TaskInfo)
        ensures
            r == (TaskInfo { status, ..self }),
    {
        TaskInfo { status, ..self }
    }

    /// The task with another sample document.
    pub fn with_debug_text(self, debug_text: JsonValue) -> (r: TaskInfo)
        ensures
            r == (TaskInfo { debug_text, ..self }),
    {
        TaskInfo { debug_text, ..self }
    }

    /// The task with another flattening configuration.
    pub fn with_parser_config(self, parser_config: JsonValue) -> (r: TaskInfo)
        ensures
            r == (TaskInfo { parser_config, ..self }),
    {
        TaskInfo { parser_config, ..self }
    }

    /// The task with another property tree.
    pub fn with_property_item(self, property_item: JsonValue) -> (r: TaskInfo)
        ensures
            r == (TaskInfo { property_item, ..self }),
    {
        TaskInfo { property_item, ..self }
    }

    /// The task with another creation time.
    pub fn with_created_at(self, created_at: i64) -> (r: TaskInfo)
        ensures
            r == (TaskInfo { created_at, ..self }),
    {
        TaskInfo { created_at, ..self }
    }

    /// The task with another update time.
    pub fn with_updated_at(self, updated_at: i64) -> (r: TaskInfo)
        ensures
            r == (TaskInfo { updated_at, ..self }),
    {
        TaskInfo { updated_at, ..self }
    }

    /// The task with another id.
    pub fn with_id(self, id: i64) -> (r: TaskInfo)
        ensures
            r == (TaskInfo { id, ..self }),
    {
        TaskInfo { id, ..self }
    }

    /// The stored status code.
    pub fn get_status(&self) -> (r: i32)
        ensures
            r == self.status,
    {
        self.status
    }

    /// Sets the id.
    pub fn set_id(&mut self, id: i64)
        ensures
            *final(self) == (TaskInfo { id, ..*old(self) }),
    {
        self.id = id;
    }

    /// Sets the update time.
    pub fn set_updated(&mut self, updated_at: i64)
        ensures
            *final(self) == (TaskInfo { updated_at, ..*old(self) }),
    {
        self.updated_at = updated_at;
    }
}

} // verus!

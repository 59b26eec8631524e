//! The errors that task control reports, with their codes.
use vstd::prelude::*;

use crate::message::AppErr;

verus! {

/// Code of a task that could not be built from its configuration.
pub const TASKING_START_ERR: i64 = 30400;

/// Code of a start request for a task that is already running.
pub const TASKING_ALREADY_RUNNING: i64 = 30401;

/// Code of a stop request for a task that is not running.
pub const TASK_NOT_RUNNING: i64 = 30000;

/// Code of a health check on a task that is not running.
pub const TASK_HEALTH_ERR: i64 = 30500;

/// The error of a task whose source or sink could not be built.
pub fn tasking_start_err() -> (r: AppErr)
    ensures
        r.err_no == TASKING_START_ERR,
        r.err_msg@ == "build tasking"@,
{
    AppErr::new(TASKING_START_ERR, "build tasking")
}

/// The error of a start request for a running task.
pub fn tasking_already_running() -> (r: AppErr)
    ensures
        r.err_no == TASKING_ALREADY_RUNNING,
        r.err_msg@ == "task already running"@,
{
    AppErr::new(TASKING_ALREADY_RUNNING, "task already running")
}

/// The error of a stop request for a task that is not running.
pub fn task_not_running() -> (r: AppErr)
    ensures
        r.err_no == TASK_NOT_RUNNING,
        r.err_msg@ == "task not running"@,
{
    AppErr::new(TASK_NOT_RUNNING, "task not running")
}

/// The error of a health check on a task that is not running.
pub fn task_health_err() -> (r: AppErr)
    ensures
        r.err_no == TASK_HEALTH_ERR,
        r.err_msg@ == "task not running"@,
{
    AppErr::new(TASK_HEALTH_ERR, "task not running")
}

} // verus!

//! The decisions of a task run: whether it may start or stop, what the
//! transform stage does with each message, when the heartbeat gives up, and
//! what is recorded when the run ends. The caller performs the I/O.
use vstd::prelude::*;

use crate::counter::{CounterEvent, ProgressCounters};
use crate::errcode::{
    task_health_err,
    task_not_running,
    tasking_already_running,
    tasking_start_err,
    TASKING_ALREADY_RUNNING,
    TASKING_START_ERR,
    TASK_HEALTH_ERR,
    TASK_NOT_RUNNING,
};
use crate::flatten::{flatten, JsonParser};
use crate::json::JsonValue;
use crate::message::{AppErr, CoreMsg};
use crate::model::{TaskLog, TASK_STATUS_RUNNING, TASK_STATUS_STOP};
use crate::options::set_of;
use crate::registry::TaskManager;
use crate::row::{all_wf, rows_of};

verus! {

/// Seconds between two heartbeats.
pub const INTERVAL: u64 = 300;

/// Consecutive failed heartbeat writes after which the heartbeat ends.
pub const MAX_HEARTBEAT_FAILURES: u32 = 10;

/// Capacity of each of the two channels of a run.
pub const CHANNEL_CAPACITY: usize = 6;

/// A task may start only when it is not running already.
pub fn check_start<H>(manager: &TaskManager<H>, id: i64) -> (r: Result<(), AppErr>)
    ensures
        r is Ok <==> !manager@.contains_key(id),
        r is Err ==> r->Err_0.err_no == TASKING_ALREADY_RUNNING,
{
    if manager.contains_task(id) {
        Err(tasking_already_running())
    } else {
        Ok(())
    }
}

/// A task may be stopped only when it is stored as running and is registered.
pub fn check_stop<H>(manager: &TaskManager<H>, id: i64, stored_status: i32) -> (r: Result<
    (),
    AppErr,
>)
    ensures
        r is Ok <==> stored_status == TASK_STATUS_RUNNING && manager@.contains_key(id),
        r is Err ==> r->Err_0.err_no == TASK_NOT_RUNNING,
{
    if stored_status != TASK_STATUS_RUNNING {
        return Err(task_not_running());
    }
    if !manager.contains_task(id) {
        return Err(task_not_running());
    }
    Ok(())
}

/// A health check passes only for a registered task.
pub fn check_health<H>(manager: &TaskManager<H>, id: i64) -> (r: Result<(), AppErr>)
    ensures
        r is Ok <==> manager@.contains_key(id),
        r is Err ==> r->Err_0.err_no == TASK_HEALTH_ERR,
{
    if manager.contains_task(id) {
        Ok(())
    } else {
        Err(task_health_err())
    }
}

/// The text of a log entry: `prefix` followed by `detail`.
pub fn log_text(prefix: &str, detail: &str) -> (r: String)
    ensures
        r@ == prefix@ + detail@,
{
    let mut s = prefix.to_owned();
    s.append(detail);
    s
}

/// What is recorded when a run ends, or when its source or sink cannot be built.
pub struct RunEnd {
    /// The status stored for the task.
    pub status: i32,
    /// The entry appended to the task's log.
    pub log: TaskLog,
}

/// A task whose source or sink cannot be built is stored as stopped, with the
/// reason in its log, and the start request fails.
pub fn build_failed(task_id: i64, detail: &str, now: i64) -> (r: (RunEnd, AppErr))
    ensures
        r.0.status == TASK_STATUS_STOP,
        r.0.log.task_id == task_id,
        r.0.log.log_info@ == "error "@ + detail@,
        r.0.log.created_at == now,
        r.1.err_no == TASKING_START_ERR,
{
    let text = log_text("error ", detail);
    let log = TaskLog::new(task_id, text.as_str(), now);
    (RunEnd { status: TASK_STATUS_STOP, log }, tasking_start_err())
}

/// A finished run is stored as stopped; the log says it succeeded, or why it ended.
pub fn finish_run(task_id: i64, outcome: &Result<(), String>, now: i64) -> (r: RunEnd)
    ensures
        r.status == TASK_STATUS_STOP,
        r.log.task_id == task_id,
        r.log.created_at == now,
        match outcome {
            Ok(_) => r.log.log_info@ == "finished success"@,
            Err(e) => r.log.log_info@ == "error "@ + e@,
        },
{
    match outcome {
        Ok(_) => RunEnd { status: TASK_STATUS_STOP, log: TaskLog::new(task_id, "finished success", now) },
        Err(e) => {
            let text = log_text("error ", e.as_str());
            RunEnd { status: TASK_STATUS_STOP, log: TaskLog::new(task_id, text.as_str(), now) }
        },
    }
}

fn copy_strings(v: &Vec<String>) -> (r: Vec<String>)
    ensures
        r@ == v@,
{
    let mut out: Vec<String> = Vec::new();
    let mut i: usize = 0;
    while i < v.len()
        invariant
            i <= v@.len(),
            out@ == v@.subrange(0, i as int),
        decreases v@.len() - i,
    {
        out.push(v[i].clone());
        i += 1;
        assert(out@ =~= v@.subrange(0, i as int));
    }
    assert(out@ =~= v@);
    out
}

/// The transform stage's work on one message: it counts the message, and
/// either attaches the flattened rows and the allowed keys, or, where the
/// text was not JSON (`parsed` is `None`), counts an error and drops it.
pub fn handle_msg(
    parser: &JsonParser,
    counters: &mut ProgressCounters,
    msg: CoreMsg,
    parsed: Option<JsonValue>,
) -> (r: Option<CoreMsg>)
    requires
        old(counters).wf(),
        old(counters).handle_num@ < u64::MAX,
        old(counters).handle_err@ < u64::MAX,
    ensures
        final(counters).wf(),
        final(counters).handle_num@ == old(counters).handle_num@ + 1,
        final(counters).handle_num.history() == old(counters).handle_num.history().push(
            CounterEvent::Increment,
        ),
        match parsed {
            None => r is None && final(counters).handle_err@ == old(counters).handle_err@ + 1
                && final(counters).handle_err.history() == old(counters).handle_err.history().push(
                CounterEvent::Increment,
            ),
            Some(v) => r is Some && final(counters).handle_err@ == old(counters).handle_err@
                && final(counters).handle_err.history() == old(counters).handle_err.history()
                && r->Some_0.raw_msg == msg.raw_msg && set_of(r->Some_0.raw_keys@)
                == parser.0@.keys && all_wf(r->Some_0.result@) && flatten(parser.0@, v@) == Some(
                rows_of(r->Some_0.result@),
            ),
        },
{
    counters.handle_num.increment();
    match parsed {
        None => {
            counters.handle_err.increment();
            None
        },
        Some(v) => match parser.run(&v) {
            Ok(rows) => {
                let keys = copy_strings(parser.0.get_keys());
                Some(msg.with_result(rows).with_raw_keys(keys))
            },
            Err(_) => {
                counters.handle_err.increment();
                None
            },
        },
    }
}

/// The failure count of the heartbeat.
pub struct Heartbeat {
    failures: u32,
}

impl View for Heartbeat {
    type V = nat;

    closed spec fn view(&self) -> nat {
        self.failures as nat
    }
}

impl Heartbeat {
    /// A heartbeat with no failure yet.
    pub fn new() -> (r: Heartbeat)
        ensures
            r@ == 0,
    {
        Heartbeat { failures: 0 }
    }

    /// Records the outcome of one heartbeat write; true while the heartbeat
    /// goes on. A success clears the failure count; the heartbeat ends after
    /// consecutive failures reach the limit.
    pub fn record(&mut self, persisted: bool) -> (go_on: bool)
        requires
            old(self)@ < MAX_HEARTBEAT_FAILURES,
        ensures
            persisted ==> final(self)@ == 0,
            !persisted ==> final(self)@ == old(self)@ + 1,
            go_on == (final(self)@ < MAX_HEARTBEAT_FAILURES),
    {
        if persisted {
            self.failures = 0;
        } else {
            self.failures = self.failures + 1;
        }
        self.failures < MAX_HEARTBEAT_FAILURES
    }
}

/// The tasks stored as running that must be started again: those that are
/// not registered, in the stored order.
pub fn tasks_to_restart<H>(running: &Vec<i64>, manager: &TaskManager<H>) -> (r: Vec<i64>)
    ensures
        r@ == running@.filter(|id: i64| !manager@.contains_key(id)),
{
    let mut out: Vec<i64> = Vec::new();
    let mut i: usize = 0;
    while i < running.len()
        invariant
            i <= running@.len(),
            out@ == running@.subrange(0, i as int).filter(|id: i64| !manager@.contains_key(id)),
        decreases running@.len() - i,
    {
        let id = running[i];
        proof {
            let pre = running@.subrange(0, i as int);
            assert(running@.subrange(0, i as int + 1) =~= pre.push(id));
            assert(pre.push(id).drop_last() =~= pre);
            reveal(Seq::filter);
        }
        if !manager.contains_task(id) {
            out.push(id);
        }
        i += 1;
    }
    assert(running@.subrange(0, running@.len() as int) =~= running@);
    out
}

} // verus!

//! Decisions of the task worker.
//!
//! A worker claims a task instance (Pending to Running), runs it, records the
//! outcome and reports back to the node that dispatched it. Claiming, running
//! and storage are the caller's; the functions here say which terminal status
//! the task takes and which callback goes to the orchestrator.

use vstd::prelude::*;
use crate::jobs::{ExecuteTaskJob, ExecuteWorkflowJob, callback_job_is, node_callback_job, opt_chars};
use crate::status::{NodeExecutionStatus, TaskInstanceStatus};

verus! {

/// What running a task produced.
#[derive(Debug, Clone)]
pub struct TaskOutcome<P> {
    pub status: NodeExecutionStatus,
    pub output: Option<P>,
    pub input: Option<P>,
    pub error_message: Option<String>,
}

/// A task that ran to Success is Completed; any other outcome fails it.
pub open spec fn final_status_for(s: NodeExecutionStatus) -> TaskInstanceStatus {
    if s == NodeExecutionStatus::Success {
        TaskInstanceStatus::Completed
    } else {
        TaskInstanceStatus::Failed
    }
}

/// The terminal status a task instance takes after it ran.
pub fn final_task_status(status: NodeExecutionStatus) -> (r: TaskInstanceStatus)
    ensures
        r == final_status_for(status),
{
    match status {
        NodeExecutionStatus::Success => TaskInstanceStatus::Completed,
        _ => TaskInstanceStatus::Failed,
    }
}

/// The report of a task that could not run: when the job has a caller, the
/// caller's node learns that this child failed with `error`.
pub fn task_failure_callback<P>(job: &ExecuteTaskJob, error: String) -> (r: Option<ExecuteWorkflowJob<P>>)
    ensures
        match job.caller_context {
            None => r is None,
            Some(c) => r matches Some(cb) && callback_job_is(
                cb, c.workflow_instance_id@, job.tenant_id@, c.node_id@, job.task_instance_id@,
                NodeExecutionStatus::Failed, None, Some(error@), None,
            ),
        },
{
    match &job.caller_context {
        None => None,
        Some(c) => Some(node_callback_job(
            c.workflow_instance_id.as_str(),
            job.tenant_id.as_str(),
            c.node_id.as_str(),
            job.task_instance_id.as_str(),
            NodeExecutionStatus::Failed,
            None,
            Some(error),
            None,
        )),
    }
}

/// The report of a task that ran: when the job has a caller, the caller's node
/// learns this child's status, output, error and input.
pub fn task_result_callback<P>(job: &ExecuteTaskJob, outcome: TaskOutcome<P>) -> (r: Option<ExecuteWorkflowJob<P>>)
    ensures
        match job.caller_context {
            None => r is None,
            Some(c) => r matches Some(cb) && callback_job_is(
                cb, c.workflow_instance_id@, job.tenant_id@, c.node_id@, job.task_instance_id@,
                outcome.status, outcome.output, opt_chars(outcome.error_message), outcome.input,
            ),
        },
{
    match &job.caller_context {
        None => None,
        Some(c) => Some(node_callback_job(
            c.workflow_instance_id.as_str(),
            job.tenant_id.as_str(),
            c.node_id.as_str(),
            job.task_instance_id.as_str(),
            outcome.status,
            outcome.output,
            outcome.error_message,
            outcome.input,
        )),
    }
}

} // verus!

//! Queue messages exchanged between the orchestrator and the task workers,
//! and the result a node plugin hands back to the orchestrator.
//!
//! Payloads (node inputs and outputs) are JSON documents in the running
//! system; the library carries them as an opaque type parameter `P`.

use vstd::prelude::*;
use crate::status::NodeExecutionStatus;

verus! {

/// Where a dispatched task reports back to.
#[derive(Debug, Clone, PartialEq, Eq)]
pub struct WorkflowCallerContext {
    pub workflow_instance_id: String,
    pub node_id: String,
    pub parent_task_instance_id: Option<String>,
    pub item_index: Option<usize>,
}

/// A request to run one task instance.
#[derive(Debug, Clone)]
pub struct ExecuteTaskJob {
    pub task_instance_id: String,
    pub tenant_id: String,
    pub caller_context: Option<WorkflowCallerContext>,
}

/// What a workflow job asks the orchestrator to do.
#[derive(Debug, Clone)]
pub enum WorkflowEvent<P> {
    Start,
    NodeCallback {
        node_id: String,
        child_task_id: String,
        status: NodeExecutionStatus,
        output: Option<P>,
        error_message: Option<String>,
        input: Option<P>,
    },
}

impl<P> WorkflowEvent<P> {
    /// The default event is `Start`.
    pub fn default_event() -> (e: Self)
        ensures
            e is Start,
    {
        WorkflowEvent::Start
    }
}

/// A request to advance one workflow instance.
#[derive(Debug, Clone)]
pub struct ExecuteWorkflowJob<P> {
    pub workflow_instance_id: String,
    pub tenant_id: String,
    pub event: WorkflowEvent<P>,
}

/// What running (or calling back into) a node produced.
#[derive(Debug, Clone)]
pub struct ExecutionResult<P> {
    pub status: NodeExecutionStatus,
    pub dispatch_jobs: Vec<ExecuteTaskJob>,
    pub dispatch_workflow_jobs: Vec<ExecuteWorkflowJob<P>>,
    pub jump_to_node: Option<String>,
}

/// A result with the given status that dispatches nothing and does not jump.
pub open spec fn plain_result<P>(r: ExecutionResult<P>, status: NodeExecutionStatus) -> bool {
    &&& r.status == status
    &&& r.dispatch_jobs@.len() == 0
    &&& r.dispatch_workflow_jobs@.len() == 0
    &&& r.jump_to_node is None
}

impl<P> ExecutionResult<P> {
    /// The node succeeded; the graph continues at `jump_to_node` when given.
    pub fn success(jump_to_node: Option<String>) -> (r: Self)
        ensures
            r.status == NodeExecutionStatus::Success,
            r.dispatch_jobs@.len() == 0,
            r.dispatch_workflow_jobs@.len() == 0,
            r.jump_to_node == jump_to_node,
    {
        ExecutionResult {
            status: NodeExecutionStatus::Success,
            dispatch_jobs: Vec::new(),
            dispatch_workflow_jobs: Vec::new(),
            jump_to_node,
        }
    }

    /// The node was skipped; the graph continues at `jump_to_node` when given.
    pub fn skipped(jump_to_node: Option<String>) -> (r: Self)
        ensures
            r.status == NodeExecutionStatus::Skipped,
            r.dispatch_jobs@.len() == 0,
            r.dispatch_workflow_jobs@.len() == 0,
            r.jump_to_node == jump_to_node,
    {
        ExecutionResult {
            status: NodeExecutionStatus::Skipped,
            dispatch_jobs: Vec::new(),
            dispatch_workflow_jobs: Vec::new(),
            jump_to_node,
        }
    }

    /// The node failed.
    pub fn failed() -> (r: Self)
        ensures
            plain_result(r, NodeExecutionStatus::Failed),
    {
        ExecutionResult {
            status: NodeExecutionStatus::Failed,
            dispatch_jobs: Vec::new(),
            dispatch_workflow_jobs: Vec::new(),
            jump_to_node: None,
        }
    }

    /// The node waits for a human (approval, manual pause).
    pub fn suspended() -> (r: Self)
        ensures
            plain_result(r, NodeExecutionStatus::Suspended),
    {
        ExecutionResult {
            status: NodeExecutionStatus::Suspended,
            dispatch_jobs: Vec::new(),
            dispatch_workflow_jobs: Vec::new(),
            jump_to_node: None,
        }
    }

    /// The node is not finished yet.
    pub fn pending() -> (r: Self)
        ensures
            plain_result(r, NodeExecutionStatus::Pending),
    {
        ExecutionResult {
            status: NodeExecutionStatus::Pending,
            dispatch_jobs: Vec::new(),
            dispatch_workflow_jobs: Vec::new(),
            jump_to_node: None,
        }
    }

    /// The node suspends while its one dispatched task runs.
    pub fn async_dispatch(job: ExecuteTaskJob) -> (r: Self)
        ensures
            r.status == NodeExecutionStatus::Suspended,
            r.dispatch_jobs@ == seq![job],
            r.dispatch_workflow_jobs@.len() == 0,
            r.jump_to_node is None,
    {
        let mut jobs: Vec<ExecuteTaskJob> = Vec::new();
        jobs.push(job);
        ExecutionResult {
            status: NodeExecutionStatus::Suspended,
            dispatch_jobs: jobs,
            dispatch_workflow_jobs: Vec::new(),
            jump_to_node: None,
        }
    }

    /// The node waits for the dispatched tasks (possibly none).
    pub fn async_dispatch_multiple(jobs: Vec<ExecuteTaskJob>) -> (r: Self)
        ensures
            r.status == NodeExecutionStatus::Await,
            r.dispatch_jobs@ == jobs@,
            r.dispatch_workflow_jobs@.len() == 0,
            r.jump_to_node is None,
    {
        ExecutionResult {
            status: NodeExecutionStatus::Await,
            dispatch_jobs: jobs,
            dispatch_workflow_jobs: Vec::new(),
            jump_to_node: None,
        }
    }

    /// The node suspends while its dispatched child workflow runs.
    pub fn async_dispatch_workflow(job: ExecuteWorkflowJob<P>) -> (r: Self)
        ensures
            r.status == NodeExecutionStatus::Suspended,
            r.dispatch_jobs@.len() == 0,
            r.dispatch_workflow_jobs@ == seq![job],
            r.jump_to_node is None,
    {
        let mut jobs: Vec<ExecuteWorkflowJob<P>> = Vec::new();
        jobs.push(job);
        ExecutionResult {
            status: NodeExecutionStatus::Suspended,
            dispatch_jobs: Vec::new(),
            dispatch_workflow_jobs: jobs,
            jump_to_node: None,
        }
    }
}

/// `job` runs the child `task_id` for `node` of `wf` in `tenant`, reporting back
/// with the given parent task and item index.
pub open spec fn task_job_matches(
    job: ExecuteTaskJob,
    task_id: Seq<char>,
    tenant: Seq<char>,
    wf: Seq<char>,
    node: Seq<char>,
    parent: Option<Seq<char>>,
    item_index: Option<usize>,
) -> bool {
    &&& job.task_instance_id@ == task_id
    &&& job.tenant_id@ == tenant
    &&& job.caller_context matches Some(c) && {
        &&& c.workflow_instance_id@ == wf
        &&& c.node_id@ == node
        &&& match (c.parent_task_instance_id, parent) {
            (Some(a), Some(b)) => a@ == b,
            (None, None) => true,
            _ => false,
        }
        &&& c.item_index == item_index
    }
}

/// Build a task job from its parts.
pub fn make_task_job(
    task_id: String,
    tenant: &str,
    wf: &str,
    node: &str,
    parent: Option<&str>,
    item_index: Option<usize>,
) -> (job: ExecuteTaskJob)
    ensures
        task_job_matches(job, task_id@, tenant@, wf@, node@, match parent { Some(p) => Some(p@), None => None }, item_index),
{
    let parent_owned: Option<String> = match parent {
        Some(p) => Some(p.to_owned()),
        None => None,
    };
    ExecuteTaskJob {
        task_instance_id: task_id,
        tenant_id: tenant.to_owned(),
        caller_context: Some(WorkflowCallerContext {
            workflow_instance_id: wf.to_owned(),
            node_id: node.to_owned(),
            parent_task_instance_id: parent_owned,
            item_index,
        }),
    }
}

/// `job` reports to node `node` of `wf` (in `tenant`) that child `child`
/// ended with the given status, output, error and input.
pub open spec fn callback_job_is<P>(
    job: ExecuteWorkflowJob<P>,
    wf: Seq<char>,
    tenant: Seq<char>,
    node: Seq<char>,
    child: Seq<char>,
    status: NodeExecutionStatus,
    output: Option<P>,
    error: Option<Seq<char>>,
    input: Option<P>,
) -> bool {
    &&& job.workflow_instance_id@ == wf
    &&& job.tenant_id@ == tenant
    &&& job.event matches WorkflowEvent::NodeCallback { node_id, child_task_id, status: st, output: o, error_message: e, input: i }
        && node_id@ == node
        && child_task_id@ == child
        && st == status
        && o == output
        && i == input
        && match (e, error) {
            (Some(a), Some(b)) => a@ == b,
            (None, None) => true,
            _ => false,
        }
}

pub open spec fn opt_chars(o: Option<String>) -> Option<Seq<char>> {
    match o {
        Some(s) => Some(s@),
        None => None,
    }
}

/// A callback to node `node_id` of an instance about child `child_task_id`.
pub fn node_callback_job<P>(
    workflow_instance_id: &str,
    tenant_id: &str,
    node_id: &str,
    child_task_id: &str,
    status: NodeExecutionStatus,
    output: Option<P>,
    error_message: Option<String>,
    input: Option<P>,
) -> (job: ExecuteWorkflowJob<P>)
    ensures
        callback_job_is(job, workflow_instance_id@, tenant_id@, node_id@, child_task_id@, status, output, opt_chars(error_message), input),
{
    ExecuteWorkflowJob {
        workflow_instance_id: workflow_instance_id.to_owned(),
        tenant_id: tenant_id.to_owned(),
        event: WorkflowEvent::NodeCallback {
            node_id: node_id.to_owned(),
            child_task_id: child_task_id.to_owned(),
            status,
            output,
            error_message,
            input,
        },
    }
}

} // verus!

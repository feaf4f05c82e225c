//! Decisions of the recovery sweeper.
//!
//! Every cycle the sweeper scans instances whose lock went stale, clears the
//! lock, and brings each back: a Running instance is restarted; an Await
//! instance gets the callbacks of children that finished without reporting,
//! and its unfinished children are dispatched again. Expired approvals are
//! rejected and their node is told so. The scans, lock clearing and dispatch
//! are the caller's; the functions here decide what to send.

use vstd::prelude::*;
use crate::approval::ApprovalInstanceEntity;
use crate::container::{ContainerKind, ContainerScope, ContainerState, callback_spec, views as container_views};
use crate::engine::{TaskRecord, WorkflowInstance};
use crate::jobs::{
    ExecuteTaskJob, ExecutionResult, ExecuteWorkflowJob, WorkflowEvent, callback_job_is, make_task_job, node_callback_job,
    opt_chars, task_job_matches,
};
use crate::status::{NodeExecutionStatus, TaskInstanceStatus, WorkflowInstanceStatus};
use crate::template::{ParallelMode, TaskTemplate};
use crate::text::{
    indexed_child_id, indexed_child_task_id, push_str_chars, single_child_id,
    single_child_task_id, string_from_chars,
};

verus! {

/// How often the sweeper runs and how much it recovers per cycle.
#[derive(Debug, Clone)]
pub struct SweeperConfig {
    pub interval_secs: u64,
    pub max_recover_per_cycle: u32,
}

impl Default for SweeperConfig {
    /// Every 60 seconds, at most 10 instances per cycle.
    fn default() -> (c: Self)
        ensures
            c.interval_secs == 60,
            c.max_recover_per_cycle == 10,
    {
        SweeperConfig { interval_secs: 60, max_recover_per_cycle: 10 }
    }
}

/// What the sweeper does with a zombie instance once its lock is cleared.
#[derive(Debug, Clone, Copy, PartialEq, Eq, Structural)]
pub enum ZombieRecovery {
    /// Running: move it back to Pending, start it, dispatch a Start event.
    Restart,
    /// Await: look at the children of its current node.
    RecoverAwait,
    /// Any other status: nothing.
    Leave,
}

pub open spec fn zombie_recovery_for(s: WorkflowInstanceStatus) -> ZombieRecovery {
    match s {
        WorkflowInstanceStatus::Running => ZombieRecovery::Restart,
        WorkflowInstanceStatus::Await => ZombieRecovery::RecoverAwait,
        _ => ZombieRecovery::Leave,
    }
}

/// Route a zombie instance by its status.
pub fn zombie_recovery(status: WorkflowInstanceStatus) -> (r: ZombieRecovery)
    ensures
        r == zombie_recovery_for(status),
{
    match status {
        WorkflowInstanceStatus::Running => ZombieRecovery::Restart,
        WorkflowInstanceStatus::Await => ZombieRecovery::RecoverAwait,
        _ => ZombieRecovery::Leave,
    }
}

/// The job that starts an instance again.
pub fn restart_job<P>(workflow_instance_id: &str, tenant_id: &str) -> (job: ExecuteWorkflowJob<P>)
    ensures
        job.workflow_instance_id@ == workflow_instance_id@,
        job.tenant_id@ == tenant_id@,
        job.event is Start,
{
    ExecuteWorkflowJob {
        workflow_instance_id: workflow_instance_id.to_owned(),
        tenant_id: tenant_id.to_owned(),
        event: WorkflowEvent::Start,
    }
}

/// The job that runs a stale child task again, reporting to its node.
pub fn redispatch_job(workflow_instance_id: &str, tenant_id: &str, task_instance_id: &str, node_id: &str) -> (job: ExecuteTaskJob)
    ensures
        task_job_matches(job, task_instance_id@, tenant_id@, workflow_instance_id@, node_id@, None, None),
{
    make_task_job(task_instance_id.to_owned(), tenant_id, workflow_instance_id, node_id, None, None)
}

/// Which children of an Await node the sweeper inspects.
#[derive(Debug, Clone, Copy, PartialEq, Eq, Structural)]
pub enum AwaitTarget {
    /// A Parallel or ForkJoin node: its indexed children.
    Container,
    /// Any other node: its one child.
    Single,
}

pub open spec fn is_container_template(t: TaskTemplate) -> bool {
    t is Parallel || t is ForkJoin
}

/// "current node {id} not found"
pub open spec fn current_node_missing_message(id: Seq<char>) -> Seq<char> {
    "current node "@ + id + " not found"@
}

/// The current node of an Await instance (its first node with that id) and
/// whether it is a container; an error when no node has that id.
pub fn await_target<P>(instance: &WorkflowInstance<P>) -> (r: Result<(usize, AwaitTarget), String>)
    ensures
        match r {
            Ok((i, t)) => {
                &&& i < instance.nodes@.len()
                &&& instance.nodes@[i as int].node_id@ == instance.current_node@
                &&& forall|j: int| 0 <= j < i ==> instance.nodes@[j].node_id@ != instance.current_node@
                &&& (t == AwaitTarget::Container) == is_container_template(instance.nodes@[i as int].task.template)
            },
            Err(e) => {
                &&& e@ == current_node_missing_message(instance.current_node@)
                &&& forall|j: int| 0 <= j < instance.nodes@.len() ==> instance.nodes@[j].node_id@ != instance.current_node@
            },
        },
{
    let mut i: usize = 0;
    while i < instance.nodes.len()
        invariant
            i <= instance.nodes@.len(),
            forall|j: int| 0 <= j < i ==> instance.nodes@[j].node_id@ != instance.current_node@,
        decreases instance.nodes.len() - i,
    {
        if instance.nodes[i].node_id == instance.current_node {
            let t = match &instance.nodes[i].task.template {
                TaskTemplate::Parallel(_) | TaskTemplate::ForkJoin(_) => AwaitTarget::Container,
                _ => AwaitTarget::Single,
            };
            return Ok((i, t));
        }
        i = i + 1;
    }
    let mut v: Vec<char> = Vec::new();
    push_str_chars("current node ", &mut v);
    push_str_chars(instance.current_node.as_str(), &mut v);
    push_str_chars(" not found", &mut v);
    assert(v@ =~= current_node_missing_message(instance.current_node@));
    Err(string_from_chars(&v))
}

/// What the sweeper sends for one child of an Await node.
#[derive(Debug, Clone)]
pub enum ChildRecovery<P> {
    /// The child finished but its callback was lost: send it now.
    Callback(ExecuteWorkflowJob<P>),
    /// The child is still pending or running: dispatch it again.
    Redispatch(ExecuteTaskJob),
    /// The child of a plain node is gone: restart the whole instance.
    Restart,
    /// Nothing to do for this child.
    Leave,
}

/// The node status a finished child reports.
pub open spec fn finished_status(s: TaskInstanceStatus) -> NodeExecutionStatus {
    if s == TaskInstanceStatus::Completed {
        NodeExecutionStatus::Success
    } else {
        NodeExecutionStatus::Failed
    }
}

/// `r` is the callback for `child`, run as task `child_id`, or the re-dispatch of it.
pub open spec fn recovers_child<P>(
    r: ChildRecovery<P>,
    wf: Seq<char>,
    tenant: Seq<char>,
    node: Seq<char>,
    child_id: Seq<char>,
    child: TaskRecord<P>,
    report_finished: bool,
) -> bool {
    match child.status {
        TaskInstanceStatus::Completed | TaskInstanceStatus::Failed => if report_finished {
            r matches ChildRecovery::Callback(job) && callback_job_is(
                job, wf, tenant, node, child_id, finished_status(child.status),
                child.output, opt_chars(child.error_message), child.input,
            )
        } else {
            r is Leave
        },
        TaskInstanceStatus::Pending | TaskInstanceStatus::Running =>
            r matches ChildRecovery::Redispatch(job) && task_job_matches(job, child_id, tenant, wf, node, None, None),
        TaskInstanceStatus::Canceled => r is Leave,
    }
}

fn recover_child<P>(
    workflow_instance_id: &str,
    tenant_id: &str,
    node_id: &str,
    child_task_id: &str,
    child: TaskRecord<P>,
    report_finished: bool,
) -> (r: ChildRecovery<P>)
    ensures
        recovers_child(r, workflow_instance_id@, tenant_id@, node_id@, child_task_id@, child, report_finished),
{
    match child.status {
        TaskInstanceStatus::Completed | TaskInstanceStatus::Failed => {
            if report_finished {
                let status = if child.status == TaskInstanceStatus::Completed {
                    NodeExecutionStatus::Success
                } else {
                    NodeExecutionStatus::Failed
                };
                ChildRecovery::Callback(node_callback_job(
                    workflow_instance_id, tenant_id, node_id, child_task_id, status,
                    child.output, child.error_message, child.input,
                ))
            } else {
                ChildRecovery::Leave
            }
        },
        TaskInstanceStatus::Pending | TaskInstanceStatus::Running => {
            ChildRecovery::Redispatch(redispatch_job(workflow_instance_id, tenant_id, child_task_id, node_id))
        },
        TaskInstanceStatus::Canceled => ChildRecovery::Leave,
    }
}

/// Recovery of a plain Await node from the stored state of its one child
/// `{workflow}-{node}`: a finished child's callback is sent again, an
/// unfinished (or canceled) one is dispatched again, and a missing one
/// restarts the instance.
pub fn recover_await_single<P>(
    workflow_instance_id: &str,
    tenant_id: &str,
    node_id: &str,
    child: Option<TaskRecord<P>>,
) -> (r: ChildRecovery<P>)
    ensures
        match child {
            None => r is Restart,
            Some(c) => {
                let id = single_child_id(workflow_instance_id@, node_id@);
                if c.status == TaskInstanceStatus::Canceled {
                    r matches ChildRecovery::Redispatch(job) && task_job_matches(job, id, tenant_id@, workflow_instance_id@, node_id@, None, None)
                } else {
                    recovers_child(r, workflow_instance_id@, tenant_id@, node_id@, id, c, true)
                }
            },
        },
{
    match child {
        None => ChildRecovery::Restart,
        Some(c) => {
            let id = single_child_task_id(workflow_instance_id, node_id);
            if c.status == TaskInstanceStatus::Canceled {
                ChildRecovery::Redispatch(redispatch_job(workflow_instance_id, tenant_id, id.as_str(), node_id))
            } else {
                recover_child(workflow_instance_id, tenant_id, node_id, id.as_str(), c, true)
            }
        },
    }
}

/// Resending is safe: when the sweeper sends again the callback of a finished
/// child whose callback the container node already folded in, the node
/// ignores it (its state, its error and what it dispatches stay as they were).
pub proof fn lemma_resent_callback_is_ignored<P>(
    kind: ContainerKind,
    key: Option<Seq<char>>,
    concurrency: u32,
    mode: ParallelMode,
    max_failures: Option<u32>,
    scope: ContainerScope,
    old: ContainerState<P>,
    new: ContainerState<P>,
    old_error: Option<String>,
    new_error: Option<String>,
    r: ExecutionResult<P>,
    child: Seq<char>,
    task_status: TaskInstanceStatus,
    output: Option<P>,
    error: Option<String>,
)
    requires
        container_views(old.processed_callbacks@).contains(child),
        task_status == TaskInstanceStatus::Completed || task_status == TaskInstanceStatus::Failed,
        callback_spec(kind, key, concurrency, mode, max_failures, scope, old, new, old_error, new_error, r, child,
            finished_status(task_status), output, error),
    ensures
        new == old,
        new_error == old_error,
        r.status == NodeExecutionStatus::Await,
        r.dispatch_jobs@.len() == 0,
        r.dispatch_workflow_jobs@.len() == 0,
{
}

/// Fewer children have been counted as finished than were dispatched, so some
/// callback may have been lost.
pub open spec fn callbacks_missing(success_count: u64, failed_count: u64, dispatched_count: u64) -> bool {
    success_count + failed_count < dispatched_count
}

/// The sweeper suspects lost callbacks exactly when fewer children were
/// counted as finished than were dispatched: one uncounted child is enough,
/// and once every dispatched child is counted nothing is missing. More
/// dispatched children, or fewer counted ones, never make a missing callback
/// disappear.
pub proof fn lemma_callbacks_missing_exactly(success_count: u64, failed_count: u64, dispatched_count: u64)
    ensures
        callbacks_missing(success_count, failed_count, dispatched_count) <==> dispatched_count - success_count - failed_count >= 1,
        dispatched_count >= 1 ==> callbacks_missing(0, 0, dispatched_count),
        success_count + failed_count >= dispatched_count ==> !callbacks_missing(success_count, failed_count, dispatched_count),
        success_count + failed_count + 1 == dispatched_count ==> callbacks_missing(success_count, failed_count, dispatched_count),
        callbacks_missing(success_count, failed_count, dispatched_count) && dispatched_count < u64::MAX
            ==> callbacks_missing(success_count, failed_count, (dispatched_count + 1) as u64),
        callbacks_missing(success_count, failed_count, dispatched_count) && success_count > 0
            ==> callbacks_missing((success_count - 1) as u64, failed_count, dispatched_count),
{
}

/// Whether a container's counters say that callbacks may be missing.
pub fn container_callbacks_missing(success_count: u64, failed_count: u64, dispatched_count: u64) -> (b: bool)
    ensures
        b == callbacks_missing(success_count, failed_count, dispatched_count),
{
    success_count < dispatched_count && failed_count < dispatched_count - success_count
}

/// Recovery of child `index` (`{workflow}-{node}-{index}`) of a container
/// node: when callbacks may be missing, a finished child's callback is sent
/// again; an unfinished child is dispatched again; a canceled or missing child
/// is left alone.
pub fn recover_container_child<P>(
    workflow_instance_id: &str,
    tenant_id: &str,
    node_id: &str,
    index: usize,
    child: Option<TaskRecord<P>>,
    callbacks_may_be_missing: bool,
) -> (r: ChildRecovery<P>)
    ensures
        match child {
            None => r is Leave,
            Some(c) => recovers_child(
                r, workflow_instance_id@, tenant_id@, node_id@,
                indexed_child_id(workflow_instance_id@, node_id@, index as nat), c, callbacks_may_be_missing,
            ),
        },
{
    match child {
        None => ChildRecovery::Leave,
        Some(c) => {
            let id = indexed_child_task_id(workflow_instance_id, node_id, index);
            recover_child(workflow_instance_id, tenant_id, node_id, id.as_str(), c, callbacks_may_be_missing)
        },
    }
}

/// "approval expired"
pub open spec fn approval_expired_message() -> Seq<char> {
    "approval expired"@
}

/// The callback that tells an expired approval's node that it failed; `output`
/// is the record of the expiry that goes with it.
pub fn expired_approval_callback<P>(approval: &ApprovalInstanceEntity, output: P) -> (job: ExecuteWorkflowJob<P>)
    ensures
        callback_job_is(
            job, approval.workflow_instance_id@, approval.tenant_id@, approval.node_id@, approval.id@,
            NodeExecutionStatus::Failed, Some(output), Some(approval_expired_message()), None,
        ),
{
    let msg = "approval expired";
    proof {
        reveal_strlit("approval expired");
    }
    node_callback_job(
        approval.workflow_instance_id.as_str(),
        approval.tenant_id.as_str(),
        approval.node_id.as_str(),
        approval.id.as_str(),
        NodeExecutionStatus::Failed,
        Some(output),
        Some(msg.to_owned()),
        None,
    )
}

} // verus!

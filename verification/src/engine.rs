//! Decision steps of the workflow orchestrator.
//!
//! The orchestrator loop loads an instance, looks at its current node, runs or
//! calls back into the node's plugin, applies the outcome to the graph and
//! persists it. Storage and queue calls are the caller's; the functions here
//! decide, from the instance and the event, how the graph changes and which
//! storage transition or dispatch follows.

use vstd::prelude::*;
use crate::status::{NodeExecutionStatus, TaskInstanceStatus, TaskType, WorkflowInstanceStatus, instance_transition};
use crate::jobs::{ExecuteTaskJob, ExecuteWorkflowJob, ExecutionResult, WorkflowCallerContext, WorkflowEvent};
use crate::template::{copy_template, same_template, template_type, TaskTemplate};
use crate::text::{decimal, push_decimal, push_str_chars, string_from_chars};

verus! {

/// The task instance a node runs (payloads are opaque `P`).
#[derive(Debug, Clone)]
pub struct TaskRecord<P> {
    pub id: String,
    pub tenant_id: String,
    pub task_id: String,
    pub task_type: TaskType,
    pub template: TaskTemplate,
    pub status: TaskInstanceStatus,
    pub input: Option<P>,
    pub output: Option<P>,
    pub error_message: Option<String>,
    /// Where the task reports back to, when a node dispatched it.
    pub caller_context: Option<WorkflowCallerContext>,
}

/// One node of a running workflow graph.
#[derive(Debug, Clone)]
pub struct NodeInstance<P> {
    pub node_id: String,
    pub node_type: TaskType,
    pub status: NodeExecutionStatus,
    pub next_node: Option<String>,
    pub error_message: Option<String>,
    /// The node's output data, as its callback reported it.
    pub output: Option<P>,
    pub task: TaskRecord<P>,
}

/// A running workflow instance as the orchestrator sees it.
#[derive(Debug, Clone)]
pub struct WorkflowInstance<P> {
    pub workflow_instance_id: String,
    pub tenant_id: String,
    pub workflow_meta_id: String,
    pub status: WorkflowInstanceStatus,
    pub current_node: String,
    pub nodes: Vec<NodeInstance<P>>,
    pub parent_context: Option<WorkflowCallerContext>,
    pub depth: u32,
    pub epoch: u64,
    /// Unix seconds.
    pub updated_at: i64,
}

/// What the loop does after a node's result was applied.
#[derive(Debug, Clone, Copy, PartialEq, Eq, Structural)]
pub enum LoopAction {
    Advance,
    Retry,
    Done,
}

/// The storage transition an applied result calls for.
#[derive(Debug, Clone, Copy, PartialEq, Eq, Structural)]
pub enum InstanceTransition {
    Complete,
    Fail,
    Await,
    Suspend,
}

pub open spec fn opt_view(o: Option<String>) -> Option<Seq<char>> {
    match o {
        Some(s) => Some(s@),
        None => None,
    }
}

/// The instance status after a node's result (status `node_status`) was
/// applied to an instance in status `s`: a successful or skipped node
/// completes the instance when there is no node to move on to; a failed node
/// fails it; a pending or suspended node makes it wait (Await when jobs were
/// dispatched, Suspended otherwise); anything else leaves it as it was.
pub open spec fn applied_status(s: WorkflowInstanceStatus, node_status: NodeExecutionStatus, dispatched: bool, moves_on: bool)
    -> WorkflowInstanceStatus
{
    match node_status {
        NodeExecutionStatus::Success | NodeExecutionStatus::Skipped => if moves_on {
            s
        } else {
            WorkflowInstanceStatus::Completed
        },
        NodeExecutionStatus::Failed => WorkflowInstanceStatus::Failed,
        NodeExecutionStatus::Pending | NodeExecutionStatus::Suspended => if dispatched {
            WorkflowInstanceStatus::Await
        } else {
            WorkflowInstanceStatus::Suspended
        },
        _ => s,
    }
}

/// Applying a node's result to a running instance keeps it running or moves it
/// along an allowed transition of the instance lifecycle.
pub proof fn lemma_applied_result_follows_lifecycle(node_status: NodeExecutionStatus, dispatched: bool, moves_on: bool)
    ensures
        ({
            let t = applied_status(WorkflowInstanceStatus::Running, node_status, dispatched, moves_on);
            t == WorkflowInstanceStatus::Running || instance_transition(WorkflowInstanceStatus::Running, t)
        }),
{
}

/// Apply a node's execution result to the graph: the node takes the result's
/// status; on success (or skip) the graph moves to the jump target, else to the
/// node's successor, else the instance completes; on failure the instance
/// fails; a pending or suspended node makes the instance wait (Await when it
/// dispatched jobs, Suspended otherwise); any other status retries the loop.
pub fn apply_exec_result<P>(instance: &mut WorkflowInstance<P>, node_index: usize, exec: &ExecutionResult<P>)
    -> (r: (LoopAction, Option<InstanceTransition>))
    requires
        node_index < old(instance).nodes@.len(),
    ensures
        final(instance).status == applied_status(
            old(instance).status,
            exec.status,
            exec.dispatch_jobs@.len() > 0 || exec.dispatch_workflow_jobs@.len() > 0,
            exec.jump_to_node is Some || old(instance).nodes@[node_index as int].next_node is Some,
        ),
        final(instance).nodes@.len() == old(instance).nodes@.len(),
        final(instance).nodes@[node_index as int].status == exec.status,
        final(instance).nodes@[node_index as int].node_id == old(instance).nodes@[node_index as int].node_id,
        final(instance).nodes@[node_index as int].task == old(instance).nodes@[node_index as int].task,
        forall|j: int| 0 <= j < old(instance).nodes@.len() && j != node_index ==> final(instance).nodes@[j] == old(instance).nodes@[j],
        final(instance).workflow_instance_id == old(instance).workflow_instance_id,
        final(instance).epoch == old(instance).epoch,
        ({
            let old_node = old(instance).nodes@[node_index as int];
            let new_node = final(instance).nodes@[node_index as int];
            match exec.status {
                NodeExecutionStatus::Success | NodeExecutionStatus::Skipped => match exec.jump_to_node {
                    Some(j) => r == (LoopAction::Advance, None::<InstanceTransition>)
                        && final(instance).current_node@ == j@ && opt_view(new_node.next_node) == Some(j@)
                        && final(instance).status == old(instance).status,
                    None => match old_node.next_node {
                        Some(n) => r == (LoopAction::Advance, None::<InstanceTransition>)
                            && final(instance).current_node@ == n@ && new_node.next_node == old_node.next_node
                            && final(instance).status == old(instance).status,
                        None => r == (LoopAction::Done, Some(InstanceTransition::Complete))
                            && final(instance).status == WorkflowInstanceStatus::Completed
                            && final(instance).current_node == old(instance).current_node
                            && new_node.next_node == old_node.next_node,
                    },
                },
                NodeExecutionStatus::Failed => r == (LoopAction::Done, Some(InstanceTransition::Fail))
                    && final(instance).status == WorkflowInstanceStatus::Failed
                    && final(instance).current_node == old(instance).current_node
                    && new_node.next_node == old_node.next_node,
                NodeExecutionStatus::Pending | NodeExecutionStatus::Suspended => {
                    &&& final(instance).current_node == old(instance).current_node
                    &&& new_node.next_node == old_node.next_node
                    &&& if exec.dispatch_jobs@.len() > 0 || exec.dispatch_workflow_jobs@.len() > 0 {
                        r == (LoopAction::Done, Some(InstanceTransition::Await))
                            && final(instance).status == WorkflowInstanceStatus::Await
                    } else {
                        r == (LoopAction::Done, Some(InstanceTransition::Suspend))
                            && final(instance).status == WorkflowInstanceStatus::Suspended
                    }
                },
                _ => r == (LoopAction::Retry, None::<InstanceTransition>)
                    && final(instance).status == old(instance).status
                    && final(instance).current_node == old(instance).current_node
                    && new_node.next_node == old_node.next_node,
            }
        }),
{
    let node = &mut instance.nodes[node_index];
    node.status = exec.status;
    let r = match exec.status {
        NodeExecutionStatus::Success | NodeExecutionStatus::Skipped => {
            match &exec.jump_to_node {
                Some(j) => {
                    instance.current_node = j.clone();
                    node.next_node = Some(j.clone());
                    (LoopAction::Advance, None)
                },
                None => {
                    match &node.next_node {
                        Some(n) => {
                            instance.current_node = n.clone();
                            (LoopAction::Advance, None)
                        },
                        None => {
                            instance.status = WorkflowInstanceStatus::Completed;
                            (LoopAction::Done, Some(InstanceTransition::Complete))
                        },
                    }
                },
            }
        },
        NodeExecutionStatus::Failed => {
            instance.status = WorkflowInstanceStatus::Failed;
            (LoopAction::Done, Some(InstanceTransition::Fail))
        },
        NodeExecutionStatus::Pending | NodeExecutionStatus::Suspended => {
            if exec.dispatch_jobs.len() > 0 || exec.dispatch_workflow_jobs.len() > 0 {
                instance.status = WorkflowInstanceStatus::Await;
                (LoopAction::Done, Some(InstanceTransition::Await))
            } else {
                instance.status = WorkflowInstanceStatus::Suspended;
                (LoopAction::Done, Some(InstanceTransition::Suspend))
            }
        },
        _ => (LoopAction::Retry, None),
    };
    r
}

/// What one turn of the orchestrator loop does with the current node.
#[derive(Debug, Clone, Copy, PartialEq, Eq, Structural)]
pub enum TickAction {
    /// The graph moved to the next node: save and loop again.
    SaveAndContinue,
    /// The last node finished: complete the instance and stop.
    CompleteAndStop,
    /// The node failed: fail the instance and stop.
    FailAndStop,
    /// The node is waiting or already running: stop.
    Stop,
    /// The node was marked running: save, then run it.
    SaveAndRunNode,
}

/// One turn of the loop on the current node (at `node_index`).
pub fn workflow_loop_tick<P>(instance: &mut WorkflowInstance<P>, node_index: usize) -> (a: TickAction)
    requires
        node_index < old(instance).nodes@.len(),
    ensures
        ({
            let node = old(instance).nodes@[node_index as int];
            match node.status {
                NodeExecutionStatus::Success | NodeExecutionStatus::Skipped => match node.next_node {
                    Some(n) => a == TickAction::SaveAndContinue && final(instance).current_node@ == n@
                        && final(instance).nodes == old(instance).nodes,
                    None => a == TickAction::CompleteAndStop && *final(instance) == *old(instance),
                },
                NodeExecutionStatus::Failed => a == TickAction::FailAndStop && *final(instance) == *old(instance),
                NodeExecutionStatus::Pending => a == TickAction::SaveAndRunNode
                    && final(instance).nodes@ == old(instance).nodes@.update(
                        node_index as int,
                        NodeInstance { status: NodeExecutionStatus::Running, ..node },
                    )
                    && final(instance).current_node == old(instance).current_node,
                _ => a == TickAction::Stop && *final(instance) == *old(instance),
            }
        }),
        final(instance).status == old(instance).status,
        final(instance).workflow_instance_id == old(instance).workflow_instance_id,
        final(instance).epoch == old(instance).epoch,
{
    let status = instance.nodes[node_index].status;
    match status {
        NodeExecutionStatus::Success | NodeExecutionStatus::Skipped => {
            match &instance.nodes[node_index].next_node {
                Some(n) => {
                    let next = n.clone();
                    instance.current_node = next;
                    TickAction::SaveAndContinue
                },
                None => TickAction::CompleteAndStop,
            }
        },
        NodeExecutionStatus::Failed => TickAction::FailAndStop,
        NodeExecutionStatus::Pending => {
            instance.nodes[node_index].status = NodeExecutionStatus::Running;
            TickAction::SaveAndRunNode
        },
        _ => TickAction::Stop,
    }
}

/// Record a successful save: the epoch (the optimistic-lock version) moves on
/// by one and the instance is stamped with `now`.
pub fn bump_epoch<P>(instance: &mut WorkflowInstance<P>, now: i64)
    requires
        old(instance).epoch < u64::MAX,
    ensures
        *final(instance) == (WorkflowInstance { epoch: (old(instance).epoch + 1) as u64, updated_at: now, ..*old(instance) }),
{
    instance.epoch = instance.epoch + 1;
    instance.updated_at = now;
}

/// How a node callback prepares the instance before it is applied.
#[derive(Debug, Clone, Copy, PartialEq, Eq, Structural)]
pub enum CallbackPrep {
    /// Await: wake from await, start, reload.
    WakeStartReload,
    /// Suspended: resume, start, reload.
    ResumeStartReload,
    /// Pending: start, reload.
    StartReload,
    /// Running: apply as is.
    Ready,
    /// Any other status: the callback is ignored.
    Ignore,
}

pub open spec fn callback_prep_for(s: WorkflowInstanceStatus) -> CallbackPrep {
    match s {
        WorkflowInstanceStatus::Await => CallbackPrep::WakeStartReload,
        WorkflowInstanceStatus::Suspended => CallbackPrep::ResumeStartReload,
        WorkflowInstanceStatus::Pending => CallbackPrep::StartReload,
        WorkflowInstanceStatus::Running => CallbackPrep::Ready,
        _ => CallbackPrep::Ignore,
    }
}

/// The statuses an instance passes through while a callback prepares it.
pub open spec fn prep_path(p: CallbackPrep) -> Seq<WorkflowInstanceStatus> {
    match p {
        CallbackPrep::WakeStartReload => seq![WorkflowInstanceStatus::Pending, WorkflowInstanceStatus::Running],
        CallbackPrep::ResumeStartReload => seq![WorkflowInstanceStatus::Pending, WorkflowInstanceStatus::Running],
        CallbackPrep::StartReload => seq![WorkflowInstanceStatus::Running],
        CallbackPrep::Ready => seq![],
        CallbackPrep::Ignore => seq![],
    }
}

/// Each step of `path`, starting from `from`, is an allowed transition.
pub open spec fn path_allowed(from: WorkflowInstanceStatus, path: Seq<WorkflowInstanceStatus>) -> bool
    decreases path.len(),
{
    if path.len() == 0 {
        true
    } else {
        instance_transition(from, path[0]) && path_allowed(path[0], path.drop_first())
    }
}

/// A callback that is not ignored brings its instance to Running through
/// allowed transitions only; it is ignored exactly when the instance is in a
/// status from which no such path starts (Completed, Failed, Canceled).
pub proof fn lemma_callback_prep_follows_lifecycle(s: WorkflowInstanceStatus)
    ensures
        callback_prep_for(s) != CallbackPrep::Ignore ==> {
            let path = prep_path(callback_prep_for(s));
            &&& path_allowed(s, path)
            &&& (if path.len() == 0 { s } else { path.last() }) == WorkflowInstanceStatus::Running
        },
        callback_prep_for(s) == CallbackPrep::Ignore <==> (s == WorkflowInstanceStatus::Completed
            || s == WorkflowInstanceStatus::Failed || s == WorkflowInstanceStatus::Canceled),
{
    let path = prep_path(callback_prep_for(s));
    reveal_with_fuel(path_allowed, 3);
    if path.len() == 2 {
        assert(path.drop_first() =~= seq![WorkflowInstanceStatus::Running]);
        assert(path.drop_first().drop_first() =~= Seq::<WorkflowInstanceStatus>::empty());
    } else if path.len() == 1 {
        assert(path.drop_first() =~= Seq::<WorkflowInstanceStatus>::empty());
    }
}

/// How a callback prepares an instance in the given status.
pub fn prepare_instance_for_node_callback(status: WorkflowInstanceStatus) -> (p: CallbackPrep)
    ensures
        p == callback_prep_for(status),
{
    match status {
        WorkflowInstanceStatus::Await => CallbackPrep::WakeStartReload,
        WorkflowInstanceStatus::Suspended => CallbackPrep::ResumeStartReload,
        WorkflowInstanceStatus::Pending => CallbackPrep::StartReload,
        WorkflowInstanceStatus::Running => CallbackPrep::Ready,
        _ => CallbackPrep::Ignore,
    }
}

/// How a Start event is handled against the freshly loaded status.
#[derive(Debug, Clone, Copy, PartialEq, Eq, Structural)]
pub enum StartAction {
    /// Pending: start the instance, then run the loop.
    StartThenLoop,
    /// Running (a retried Start): run the loop.
    Loop,
    Ignore,
}

/// A Start job only acts on a Pending or Running instance.
pub fn on_workflow_start(status: WorkflowInstanceStatus) -> (b: bool)
    ensures
        b == (status == WorkflowInstanceStatus::Pending || status == WorkflowInstanceStatus::Running),
{
    match status {
        WorkflowInstanceStatus::Pending | WorkflowInstanceStatus::Running => true,
        _ => false,
    }
}

/// How a Start event proceeds once the instance was reloaded.
pub fn execute_workflow(latest: WorkflowInstanceStatus) -> (a: StartAction)
    ensures
        a == (match latest {
            WorkflowInstanceStatus::Pending => StartAction::StartThenLoop,
            WorkflowInstanceStatus::Running => StartAction::Loop,
            _ => StartAction::Ignore,
        }),
{
    match latest {
        WorkflowInstanceStatus::Pending => StartAction::StartThenLoop,
        WorkflowInstanceStatus::Running => StartAction::Loop,
        _ => StartAction::Ignore,
    }
}

/// The loop keeps going only while the reloaded instance is Running.
pub fn reload_workflow_if_running(status: WorkflowInstanceStatus) -> (b: bool)
    ensures
        b == (status == WorkflowInstanceStatus::Running),
{
    status == WorkflowInstanceStatus::Running
}

/// Fields of a node callback.
#[derive(Debug, Clone)]
pub struct CallbackPayload<P> {
    pub status: NodeExecutionStatus,
    pub output: Option<P>,
    pub error_message: Option<String>,
    pub input: Option<P>,
}

/// Node status a stored task status stands for, if any.
pub open spec fn task_to_node_status(s: TaskInstanceStatus) -> Option<NodeExecutionStatus> {
    match s {
        TaskInstanceStatus::Completed => Some(NodeExecutionStatus::Success),
        TaskInstanceStatus::Failed => Some(NodeExecutionStatus::Failed),
        TaskInstanceStatus::Running => Some(NodeExecutionStatus::Running),
        TaskInstanceStatus::Canceled => Some(NodeExecutionStatus::Failed),
        TaskInstanceStatus::Pending => None,
    }
}

/// What a stored child task says of its node: a completed child succeeded
/// and only a completed one; a failed or canceled child failed, and only
/// those; a running child is still running; a pending child says nothing
/// (the callback's own status stands).
pub proof fn lemma_stored_status_meaning(s: TaskInstanceStatus)
    ensures
        task_to_node_status(s) == Some(NodeExecutionStatus::Success) <==> s == TaskInstanceStatus::Completed,
        task_to_node_status(s) == Some(NodeExecutionStatus::Failed) <==> (s == TaskInstanceStatus::Failed || s == TaskInstanceStatus::Canceled),
        task_to_node_status(s) == Some(NodeExecutionStatus::Running) <==> s == TaskInstanceStatus::Running,
        task_to_node_status(s) is None <==> s == TaskInstanceStatus::Pending,
{
}

/// After enrichment from a stored child task, a callback that is not a skip
/// reports success exactly when the stored task completed, failure whenever
/// it failed or was canceled, and keeps its own status only while the stored
/// task is pending; a skip stays a skip.
pub proof fn lemma_enriched_status(payload_status: NodeExecutionStatus, stored: TaskInstanceStatus, enriched: NodeExecutionStatus)
    requires
        enriched == (if payload_status == NodeExecutionStatus::Skipped {
            payload_status
        } else {
            match task_to_node_status(stored) { Some(s) => s, None => payload_status }
        }),
    ensures
        payload_status == NodeExecutionStatus::Skipped ==> enriched == NodeExecutionStatus::Skipped,
        payload_status != NodeExecutionStatus::Skipped && stored == TaskInstanceStatus::Completed ==> enriched == NodeExecutionStatus::Success,
        payload_status != NodeExecutionStatus::Skipped && (stored == TaskInstanceStatus::Failed || stored == TaskInstanceStatus::Canceled)
            ==> enriched == NodeExecutionStatus::Failed,
        payload_status != NodeExecutionStatus::Skipped && stored == TaskInstanceStatus::Running ==> enriched == NodeExecutionStatus::Running,
        payload_status != NodeExecutionStatus::Skipped && stored == TaskInstanceStatus::Pending ==> enriched == payload_status,
        payload_status != NodeExecutionStatus::Skipped && enriched == NodeExecutionStatus::Success
            ==> (stored == TaskInstanceStatus::Completed || (stored == TaskInstanceStatus::Pending && payload_status == NodeExecutionStatus::Success)),
{
}

/// Fill a callback from the stored child task (the source of truth for its
/// terminal state): missing input, output and error come from the store, and
/// the status follows the stored task's status unless the callback is a skip.
pub fn enrich_callback_from_task_store<P>(payload: CallbackPayload<P>, stored: Option<TaskRecord<P>>) -> (r: CallbackPayload<P>)
    ensures
        match stored {
            None => r == payload,
            Some(t) => {
                &&& r.input == (if payload.input is None { t.input } else { payload.input })
                &&& r.output == (if payload.output is None { t.output } else { payload.output })
                &&& r.error_message == (if payload.error_message is None { t.error_message } else { payload.error_message })
                &&& r.status == (if payload.status == NodeExecutionStatus::Skipped {
                    payload.status
                } else {
                    match task_to_node_status(t.status) { Some(s) => s, None => payload.status }
                })
            },
        },
{
    match stored {
        None => payload,
        Some(t) => {
            let mut p = payload;
            if p.input.is_none() {
                p.input = t.input;
            }
            if p.output.is_none() {
                p.output = t.output;
            }
            if p.error_message.is_none() {
                p.error_message = t.error_message;
            }
            if p.status != NodeExecutionStatus::Skipped {
                p.status = match t.status {
                    TaskInstanceStatus::Completed => NodeExecutionStatus::Success,
                    TaskInstanceStatus::Failed => NodeExecutionStatus::Failed,
                    TaskInstanceStatus::Running => NodeExecutionStatus::Running,
                    TaskInstanceStatus::Canceled => NodeExecutionStatus::Failed,
                    TaskInstanceStatus::Pending => p.status,
                };
            }
            p
        },
    }
}

pub open spec fn node_ids<P>(nodes: Seq<NodeInstance<P>>) -> Seq<Seq<char>> {
    nodes.map_values(|n: NodeInstance<P>| n.node_id@)
}

/// "node not found: {id}"
pub open spec fn node_not_found_message(id: Seq<char>) -> Seq<char> {
    "node not found: "@ + id
}

/// Position of the first node with id `node_id`.
pub fn node_index_for_id<P>(nodes: &Vec<NodeInstance<P>>, node_id: &str) -> (r: Result<usize, String>)
    ensures
        match r {
            Ok(i) => i < nodes@.len() && nodes@[i as int].node_id@ == node_id@
                && forall|j: int| 0 <= j < i ==> nodes@[j].node_id@ != node_id@,
            Err(e) => e@ == node_not_found_message(node_id@)
                && forall|j: int| 0 <= j < nodes@.len() ==> nodes@[j].node_id@ != node_id@,
        },
{
    let target: String = node_id.to_owned();
    let mut i: usize = 0;
    while i < nodes.len()
        invariant
            i <= nodes.len(),
            target@ == node_id@,
            forall|j: int| 0 <= j < i ==> nodes@[j].node_id@ != node_id@,
        decreases nodes.len() - i,
    {
        if nodes[i].node_id == target {
            return Ok(i);
        }
        i = i + 1;
    }
    let mut v: Vec<char> = Vec::new();
    push_str_chars("node not found: ", &mut v);
    push_str_chars(node_id, &mut v);
    assert(v@ =~= node_not_found_message(node_id@));
    Err(string_from_chars(&v))
}

/// A callback applies to the first node with its node id, which becomes the
/// current node; a callback for a node the instance does not have is dropped
/// and leaves the instance as it was.
pub fn callback_target<P>(instance: &mut WorkflowInstance<P>, node_id: &str) -> (r: Option<usize>)
    ensures
        match r {
            Some(i) => {
                &&& i < old(instance).nodes@.len()
                &&& old(instance).nodes@[i as int].node_id@ == node_id@
                &&& forall|j: int| 0 <= j < i ==> old(instance).nodes@[j].node_id@ != node_id@
                &&& *final(instance) == (WorkflowInstance { current_node: final(instance).current_node, ..*old(instance) })
                &&& final(instance).current_node@ == node_id@
            },
            None => {
                &&& forall|j: int| 0 <= j < old(instance).nodes@.len() ==> old(instance).nodes@[j].node_id@ != node_id@
                &&& *final(instance) == *old(instance)
            },
        },
{
    match node_index_for_id(&instance.nodes, node_id) {
        Ok(i) => {
            instance.current_node = node_id.to_owned();
            Some(i)
        },
        Err(_) => None,
    }
}

/// After a callback was applied, the loop runs on when the graph advanced or
/// the node asked to be retried, and stops when it is done.
pub fn continue_after_callback(action: LoopAction) -> (b: bool)
    ensures
        b == (action == LoopAction::Advance || action == LoopAction::Retry),
{
    match action {
        LoopAction::Advance | LoopAction::Retry => true,
        LoopAction::Done => false,
    }
}

/// "failed to acquire lock for instance {id}: {error}"
pub open spec fn lock_failed_message(id: Seq<char>, error: Seq<char>) -> Seq<char> {
    "failed to acquire lock for instance "@ + id + ": "@ + error
}

/// The error of a workflow job whose instance lock could not be taken.
pub fn lock_failed_error(workflow_instance_id: &str, error: &str) -> (s: String)
    ensures
        s@ == lock_failed_message(workflow_instance_id@, error@),
{
    let mut v: Vec<char> = Vec::new();
    push_str_chars("failed to acquire lock for instance ", &mut v);
    push_str_chars(workflow_instance_id, &mut v);
    push_str_chars(": ", &mut v);
    push_str_chars(error, &mut v);
    assert(v@ =~= lock_failed_message(workflow_instance_id@, error@));
    string_from_chars(&v)
}

/// A finished child workflow (Completed or Failed) with a parent reports to the
/// parent's node: Success when completed, Failed otherwise, with its context
/// as output.
pub fn notify_parent_if_needed<P>(
    status: WorkflowInstanceStatus,
    parent: Option<&WorkflowCallerContext>,
    workflow_instance_id: &str,
    tenant_id: &str,
    context: P,
) -> (r: Option<ExecuteWorkflowJob<P>>)
    ensures
        (status == WorkflowInstanceStatus::Completed || status == WorkflowInstanceStatus::Failed) && parent is Some
            ==> (r matches Some(job) && {
            &&& job.workflow_instance_id@ == parent->0.workflow_instance_id@
            &&& job.tenant_id@ == tenant_id@
            &&& job.event matches WorkflowEvent::NodeCallback { node_id, child_task_id, status: st, output, error_message, input }
                && node_id@ == parent->0.node_id@
                && child_task_id@ == workflow_instance_id@
                && st == (if status == WorkflowInstanceStatus::Completed { NodeExecutionStatus::Success } else { NodeExecutionStatus::Failed })
                && output == Some(context)
                && error_message is None
                && input is None
        }),
        !((status == WorkflowInstanceStatus::Completed || status == WorkflowInstanceStatus::Failed) && parent is Some)
            ==> r is None,
{
    let terminal = status == WorkflowInstanceStatus::Completed || status == WorkflowInstanceStatus::Failed;
    if !terminal {
        return None;
    }
    match parent {
        Some(p) => {
            let st = if status == WorkflowInstanceStatus::Completed {
                NodeExecutionStatus::Success
            } else {
                NodeExecutionStatus::Failed
            };
            Some(ExecuteWorkflowJob {
                workflow_instance_id: p.workflow_instance_id.clone(),
                tenant_id: tenant_id.to_owned(),
                event: WorkflowEvent::NodeCallback {
                    node_id: p.node_id.clone(),
                    child_task_id: workflow_instance_id.to_owned(),
                    status: st,
                    output: Some(context),
                    error_message: None,
                    input: None,
                },
            })
        },
        None => None,
    }
}

/// A plugin that failed to run fails its node, keeping the error on the node.
pub fn plugin_error_result<P>(node: &mut NodeInstance<P>, message: String) -> (r: ExecutionResult<P>)
    ensures
        *final(node) == (NodeInstance { error_message: Some(message), ..*old(node) }),
        crate::jobs::plain_result(r, NodeExecutionStatus::Failed),
{
    node.error_message = Some(message);
    ExecutionResult::failed()
}

fn clone_opt_string(o: &Option<String>) -> (r: Option<String>)
    ensures
        r == *o,
{
    match o {
        Some(s) => Some(s.clone()),
        None => None,
    }
}

/// The callback of a plain node: the child's outcome becomes the node's. The
/// node keeps the output (a clone of it) and the error, its task keeps input,
/// output and error; Success completes the node, Failed fails it, anything
/// else leaves it pending.
pub fn default_handle_callback<P: Clone>(
    node: &mut NodeInstance<P>,
    status: NodeExecutionStatus,
    output: Option<P>,
    error_message: Option<String>,
    input: Option<P>,
) -> (r: ExecutionResult<P>)
    ensures
        final(node).output is Some == output is Some,
        output is Some ==> cloned::<P>(output->0, final(node).output->0),
        final(node).error_message == error_message,
        final(node).task.input == input,
        final(node).task.output == output,
        final(node).task.error_message == error_message,
        final(node).status == old(node).status,
        final(node).node_id == old(node).node_id,
        final(node).next_node == old(node).next_node,
        crate::jobs::plain_result(r, match status {
            NodeExecutionStatus::Success => NodeExecutionStatus::Success,
            NodeExecutionStatus::Failed => NodeExecutionStatus::Failed,
            _ => NodeExecutionStatus::Pending,
        }),
{
    node.output = output.clone();
    node.error_message = clone_opt_string(&error_message);
    node.task.input = input;
    node.task.output = output;
    node.task.error_message = error_message;
    match status {
        NodeExecutionStatus::Success => ExecutionResult::success(None),
        NodeExecutionStatus::Failed => ExecutionResult::failed(),
        _ => ExecutionResult::pending(),
    }
}

/// "ForkJoin item_index {index} out of range (len {len})"
pub open spec fn index_out_of_range_message(index: nat, len: nat) -> Seq<char> {
    "ForkJoin item_index "@ + decimal(index) + " out of range (len "@ + decimal(len) + ")"@
}

/// The template a child a job runs is given, with its task type and (for
/// fork-join branches) the task id that overrides the parent's, or the
/// refusal of a fork-join job that names no branch or one out of range.
pub open spec fn child_template_of(parent_template: TaskTemplate, parent_task_type: TaskType, job: ExecuteTaskJob)
    -> Result<(TaskTemplate, TaskType, Option<String>), Seq<char>>
{
    match parent_template {
        TaskTemplate::Parallel(t) => Ok((*t.task_template, template_type(*t.task_template), None)),
        TaskTemplate::ForkJoin(t) => match job.caller_context {
            Some(c) => match c.item_index {
                Some(i) => if i < t.tasks@.len() {
                    Ok((t.tasks@[i as int].task_template, template_type(t.tasks@[i as int].task_template), t.tasks@[i as int].task_id))
                } else {
                    Err(index_out_of_range_message(i as nat, t.tasks@.len()))
                },
                None => Err("ForkJoin dispatch job missing item_index in caller_context"@),
            },
            None => Err("ForkJoin dispatch job missing item_index in caller_context"@),
        },
        _ => Ok((parent_template, parent_task_type, None)),
    }
}

/// The child's template, task type and task id override: Parallel children
/// run the per-item template, a fork-join child the template of the branch at
/// the job's item index (under that branch's task id, when it names one), and
/// any other node's job runs the node's own template.
pub fn derive_child_template(parent_template: &TaskTemplate, parent_task_type: TaskType, job: &ExecuteTaskJob)
    -> (r: Result<(TaskTemplate, TaskType, Option<String>), String>)
    ensures
        match child_template_of(*parent_template, parent_task_type, *job) {
            Ok((t, ty, id)) => r matches Ok((rt, rty, rid)) && same_template(rt, t) && rty == ty && rid == id,
            Err(m) => r matches Err(e) && e@ == m,
        },
{
    match parent_template {
        TaskTemplate::Parallel(t) => {
            let inner = copy_template(&*t.task_template);
            let tt = inner.task_type();
            Ok((inner, tt, None))
        },
        TaskTemplate::ForkJoin(t) => {
            let idx: Option<usize> = match &job.caller_context {
                Some(c) => c.item_index,
                None => None,
            };
            match idx {
                Some(i) => {
                    if i < t.tasks.len() {
                        let inner = copy_template(&t.tasks[i].task_template);
                        let tt = inner.task_type();
                        Ok((inner, tt, clone_opt_string(&t.tasks[i].task_id)))
                    } else {
                        let mut v: Vec<char> = Vec::new();
                        push_str_chars("ForkJoin item_index ", &mut v);
                        push_decimal(i, &mut v);
                        push_str_chars(" out of range (len ", &mut v);
                        push_decimal(t.tasks.len(), &mut v);
                        push_str_chars(")", &mut v);
                        assert(v@ =~= index_out_of_range_message(i as nat, t.tasks@.len()));
                        Err(string_from_chars(&v))
                    }
                },
                None => {
                    let m = "ForkJoin dispatch job missing item_index in caller_context";
                    proof {
                        reveal_strlit("ForkJoin dispatch job missing item_index in caller_context");
                    }
                    Err(m.to_owned())
                },
            }
        },
        _ => Ok((copy_template(parent_template), parent_task_type, None)),
    }
}

/// What to do with the task row of a dispatched job before dispatching it.
#[derive(Debug, Clone, Copy, PartialEq, Eq, Structural)]
pub enum EnsureTaskAction {
    /// No row yet: create one.
    Create,
    /// The row is terminal: never overwrite it.
    LeaveTerminal,
    /// The row has another task type: correct its type, template and task id.
    CorrectType,
    /// The row is fine as it is.
    Keep,
}

/// What to do with the stored task row of a job about to run, given the row
/// (its status and task type) when there is one.
pub fn ensure_task_instance_for_job(existing: Option<(TaskInstanceStatus, TaskType)>, expected_type: TaskType) -> (a: EnsureTaskAction)
    ensures
        a == (match existing {
            None => EnsureTaskAction::Create,
            Some((s, t)) => if crate::status::task_terminal(s) {
                EnsureTaskAction::LeaveTerminal
            } else if t != expected_type {
                EnsureTaskAction::CorrectType
            } else {
                EnsureTaskAction::Keep
            },
        }),
{
    match existing {
        None => EnsureTaskAction::Create,
        Some((s, t)) => {
            if s.is_terminal() {
                EnsureTaskAction::LeaveTerminal
            } else if t != expected_type {
                EnsureTaskAction::CorrectType
            } else {
                EnsureTaskAction::Keep
            }
        },
    }
}

/// The task types that have a plugin registered.
pub struct PluginRegistry {
    types: Vec<TaskType>,
}

impl PluginRegistry {
    /// The registered types, as a set.
    pub closed spec fn registered(&self) -> Set<TaskType> {
        self.types@.to_set()
    }

    /// No plugin registered yet.
    pub fn new() -> (r: Self)
        ensures
            r.registered() == Set::<TaskType>::empty(),
    {
        let r = PluginRegistry { types: Vec::new() };
        assert(r.types@.to_set() =~= Set::<TaskType>::empty());
        r
    }

    /// Register the plugin of a task type (a later registration of the same
    /// type takes its place).
    pub fn register(&mut self, t: TaskType)
        ensures
            final(self).registered() == old(self).registered().insert(t),
    {
        let mut i: usize = 0;
        while i < self.types.len()
            invariant
                i <= self.types@.len(),
                forall|j: int| 0 <= j < i ==> self.types@[j] != t,
            decreases self.types.len() - i,
        {
            if self.types[i] == t {
                proof {
                    assert(self.types@.to_set().contains(t));
                    assert(self.types@.to_set().insert(t) =~= self.types@.to_set());
                }
                return;
            }
            i = i + 1;
        }
        let ghost before = self.types@;
        self.types.push(t);
        proof {
            assert forall|x: TaskType| self.types@.to_set().contains(x) <==> before.to_set().insert(t).contains(x) by {
                if x != t && self.types@.to_set().contains(x) {
                    let k = choose|k: int| 0 <= k < self.types@.len() && self.types@[k] == x;
                    assert(before[k] == x);
                }
                if before.to_set().contains(x) {
                    let k = choose|k: int| 0 <= k < before.len() && before[k] == x;
                    assert(self.types@[k] == x);
                }
                if x == t {
                    assert(self.types@[before.len() as int] == t);
                }
            }
            assert(self.types@.to_set() =~= before.to_set().insert(t));
        }
    }

    /// Whether a node of this type can run: an error naming the type when no
    /// plugin is registered for it.
    pub fn lookup(&self, t: TaskType) -> (r: Result<(), String>)
        ensures
            r is Ok <==> self.registered().contains(t),
            r matches Err(e) ==> e@ == "no plugin registered for task type: "@ + crate::plugins::task_type_name(t),
    {
        let mut i: usize = 0;
        while i < self.types.len()
            invariant
                i <= self.types@.len(),
                forall|j: int| 0 <= j < i ==> self.types@[j] != t,
            decreases self.types.len() - i,
        {
            if self.types[i] == t {
                assert(self.types@.to_set().contains(t));
                return Ok(());
            }
            i = i + 1;
        }
        assert(!self.types@.to_set().contains(t));
        let mut v: Vec<char> = Vec::new();
        push_str_chars("no plugin registered for task type: ", &mut v);
        push_str_chars(crate::plugins::task_type_label(t), &mut v);
        Err(string_from_chars(&v))
    }
}

/// A registered plugin is found: once a type was registered (`after` is
/// `before` with `t` registered), looking `t` up succeeds, and any other type
/// is found exactly when it was found before.
pub proof fn lemma_registered_plugin_is_found(before: PluginRegistry, after: PluginRegistry, t: TaskType, u: TaskType)
    requires
        after.registered() == before.registered().insert(t),
    ensures
        after.registered().contains(t),
        u != t ==> (after.registered().contains(u) <==> before.registered().contains(u)),
{
}

/// Where the input of a new child task row comes from.
#[derive(Debug, Clone, Copy, PartialEq, Eq, Structural)]
pub enum ChildInput {
    /// No input is prepared: the child is neither an Http nor an Llm task.
    NoInput,
    /// The parent task's input, which the node already resolved.
    ParentInput,
    /// The child's request resolved against the parent node's context, with
    /// Parallel item `index` bound to the item alias.
    ResolveWithItem(usize),
    /// The child's request resolved against the parent node's context.
    ResolveWithNodeContext,
}

/// Which input a new child row gets: for an Http child, the item of a Parallel
/// parent (item 0 when the job names none), the parent's own input when the
/// parent is an Http task whose input holds a non-empty url, else the parent
/// node's context; for an Llm child, the item of a Parallel parent, the
/// parent's input when the parent is an Llm task that has one, else the node's
/// context; no input for any other child.
pub open spec fn child_input_for(
    child_type: TaskType,
    parent_template: TaskTemplate,
    parent_has_input: bool,
    parent_input_has_url: bool,
    item_index: Option<usize>,
) -> ChildInput {
    let item = match item_index { Some(i) => i, None => 0usize };
    if child_type == TaskType::Http {
        match parent_template {
            TaskTemplate::Parallel(_) => ChildInput::ResolveWithItem(item),
            TaskTemplate::Http => if parent_input_has_url {
                ChildInput::ParentInput
            } else {
                ChildInput::ResolveWithNodeContext
            },
            _ => ChildInput::ResolveWithNodeContext,
        }
    } else if child_type == TaskType::Llm {
        match parent_template {
            TaskTemplate::Parallel(_) => ChildInput::ResolveWithItem(item),
            TaskTemplate::Llm => if parent_has_input {
                ChildInput::ParentInput
            } else {
                ChildInput::ResolveWithNodeContext
            },
            _ => ChildInput::ResolveWithNodeContext,
        }
    } else {
        ChildInput::NoInput
    }
}

fn clone_caller_context(c: &WorkflowCallerContext) -> (r: WorkflowCallerContext)
    ensures
        r == *c,
{
    WorkflowCallerContext {
        workflow_instance_id: c.workflow_instance_id.clone(),
        node_id: c.node_id.clone(),
        parent_task_instance_id: clone_opt_string(&c.parent_task_instance_id),
        item_index: c.item_index,
    }
}

/// The row of a child task the node at `node_index` dispatches with `job`,
/// for a job that has no row yet: it is `job`'s task instance, in `job`'s
/// tenant and reporting to `job`'s caller, Pending, running the template the
/// parent gives its child (`child_template_of`: the per-item template of a
/// Parallel node, the branch's template of a ForkJoin node, the node's own
/// template otherwise) with that template's task type, under the task id of
/// its fork-join branch when the branch names one and the parent task's id
/// otherwise, with no output or error yet. Its input is returned as the plan
/// of where it comes from (`parent_input_has_url`: whether the parent task's
/// input holds a non-empty url). A fork-join job that names no branch, or one
/// out of range, is refused as `derive_child_template` refuses it.
pub fn child_task_row<P>(
    parent: &WorkflowInstance<P>,
    node_index: usize,
    job: &ExecuteTaskJob,
    parent_input_has_url: bool,
) -> (r: Result<(TaskRecord<P>, ChildInput), String>)
    requires
        node_index < parent.nodes@.len(),
    ensures
        ({
            let pt = parent.nodes@[node_index as int].task;
            match child_template_of(pt.template, pt.task_type, *job) {
                Ok((template, task_type, task_id)) => r matches Ok((row, plan)) && {
                    &&& row.id == job.task_instance_id
                    &&& row.tenant_id == job.tenant_id
                    &&& row.caller_context == job.caller_context
                    &&& row.status == TaskInstanceStatus::Pending
                    &&& same_template(row.template, template)
                    &&& row.task_type == task_type
                    &&& row.task_id == match task_id { Some(t) => t, None => pt.task_id }
                    &&& row.input is None
                    &&& row.output is None
                    &&& row.error_message is None
                    &&& plan == child_input_for(
                        task_type, pt.template, pt.input is Some,
                        parent_input_has_url, match job.caller_context { Some(c) => c.item_index, None => None },
                    )
                },
                Err(m) => r matches Err(e) && e@ == m,
            }
        }),
{
    let pt = &parent.nodes[node_index].task;
    let derived = derive_child_template(&pt.template, pt.task_type, job);
    let (template, child_type, task_id_override) = match derived {
        Ok(x) => x,
        Err(e) => {
            return Err(e);
        },
    };
    let task_id = match task_id_override {
        Some(t) => t,
        None => pt.task_id.clone(),
    };
    let item_index: Option<usize> = match &job.caller_context {
        Some(c) => c.item_index,
        None => None,
    };
    let item: usize = match item_index {
        Some(i) => i,
        None => 0,
    };
    let parent_has_input = pt.input.is_some();
    let plan = if child_type == TaskType::Http {
        match &pt.template {
            TaskTemplate::Parallel(_) => ChildInput::ResolveWithItem(item),
            TaskTemplate::Http => if parent_input_has_url {
                ChildInput::ParentInput
            } else {
                ChildInput::ResolveWithNodeContext
            },
            _ => ChildInput::ResolveWithNodeContext,
        }
    } else if child_type == TaskType::Llm {
        match &pt.template {
            TaskTemplate::Parallel(_) => ChildInput::ResolveWithItem(item),
            TaskTemplate::Llm => if parent_has_input {
                ChildInput::ParentInput
            } else {
                ChildInput::ResolveWithNodeContext
            },
            _ => ChildInput::ResolveWithNodeContext,
        }
    } else {
        ChildInput::NoInput
    };
    let caller_context = match &job.caller_context {
        Some(c) => Some(clone_caller_context(c)),
        None => None,
    };
    let row = TaskRecord {
        id: job.task_instance_id.clone(),
        tenant_id: job.tenant_id.clone(),
        task_id,
        task_type: child_type,
        template,
        status: TaskInstanceStatus::Pending,
        input: None,
        output: None,
        error_message: None,
        caller_context,
    };
    Ok((row, plan))
}

/// One storage or queue step that follows an applied node result.
#[derive(Debug, Clone, Copy, PartialEq, Eq, Structural)]
pub enum ApplyEffect {
    /// Move the instance in storage: complete, fail, await or suspend it.
    Transition(InstanceTransition),
    /// Save the instance; once saved its epoch moves on by one (`bump_epoch`).
    SaveAndBumpEpoch,
    /// Make sure task job `i` has its task row (`ensure_task_instance_for_job`,
    /// `child_task_row`).
    EnsureTaskRow(usize),
    /// Dispatch task job `i`.
    DispatchTask(usize),
    /// Dispatch workflow job `i`.
    DispatchWorkflow(usize),
}

/// The steps after a result was applied, in the order they run: the storage
/// transition the result calls for (if any), then saving the instance, then
/// the task rows of all task jobs, then the task jobs in order, then the
/// workflow jobs in order.
pub open spec fn effects_plan(t: Option<InstanceTransition>, n_tasks: nat, n_workflows: nat) -> Seq<ApplyEffect> {
    (match t { Some(x) => seq![ApplyEffect::Transition(x)], None => Seq::empty() })
        + seq![ApplyEffect::SaveAndBumpEpoch]
        + Seq::new(n_tasks, |i: int| ApplyEffect::EnsureTaskRow(i as usize))
        + Seq::new(n_tasks, |i: int| ApplyEffect::DispatchTask(i as usize))
        + Seq::new(n_workflows, |i: int| ApplyEffect::DispatchWorkflow(i as usize))
}

/// Append `make(0), ..., make(n - 1)` for one kind of indexed step.
fn push_indexed(out: &mut Vec<ApplyEffect>, n: usize, kind: u8)
    requires
        kind < 3,
    ensures
        final(out)@ == old(out)@ + Seq::new(n as nat, |i: int| indexed_effect(kind, i as usize)),
{
    let ghost start = out@;
    let mut i: usize = 0;
    while i < n
        invariant
            i <= n,
            kind < 3,
            out@ == start + Seq::new(i as nat, |k: int| indexed_effect(kind, k as usize)),
        decreases n - i,
    {
        let e = if kind == 0 {
            ApplyEffect::EnsureTaskRow(i)
        } else if kind == 1 {
            ApplyEffect::DispatchTask(i)
        } else {
            ApplyEffect::DispatchWorkflow(i)
        };
        out.push(e);
        i = i + 1;
        assert(out@ =~= start + Seq::new(i as nat, |k: int| indexed_effect(kind, k as usize)));
    }
}

pub open spec fn indexed_effect(kind: u8, i: usize) -> ApplyEffect {
    if kind == 0 {
        ApplyEffect::EnsureTaskRow(i)
    } else if kind == 1 {
        ApplyEffect::DispatchTask(i)
    } else {
        ApplyEffect::DispatchWorkflow(i)
    }
}

/// The steps that follow applying `exec` with the storage transition
/// `transition` (what `apply_exec_result` returned), in the order they run.
pub fn apply_exec_effects<P>(exec: &ExecutionResult<P>, transition: Option<InstanceTransition>) -> (r: Vec<ApplyEffect>)
    ensures
        r@ == effects_plan(transition, exec.dispatch_jobs@.len(), exec.dispatch_workflow_jobs@.len()),
{
    let mut out: Vec<ApplyEffect> = Vec::new();
    match transition {
        Some(t) => out.push(ApplyEffect::Transition(t)),
        None => {},
    }
    out.push(ApplyEffect::SaveAndBumpEpoch);
    let n = exec.dispatch_jobs.len();
    let m = exec.dispatch_workflow_jobs.len();
    push_indexed(&mut out, n, 0);
    push_indexed(&mut out, n, 1);
    push_indexed(&mut out, m, 2);
    assert(Seq::new(n as nat, |i: int| indexed_effect(0, i as usize))
        =~= Seq::new(n as nat, |i: int| ApplyEffect::EnsureTaskRow(i as usize)));
    assert(Seq::new(n as nat, |i: int| indexed_effect(1, i as usize))
        =~= Seq::new(n as nat, |i: int| ApplyEffect::DispatchTask(i as usize)));
    assert(Seq::new(m as nat, |i: int| indexed_effect(2, i as usize))
        =~= Seq::new(m as nat, |i: int| ApplyEffect::DispatchWorkflow(i as usize)));
    assert(out@ =~= effects_plan(transition, n as nat, m as nat));
    out
}

/// Where running the steps of a plan stands after step `index` ran.
#[derive(Debug, Clone, Copy, PartialEq, Eq, Structural)]
pub enum EffectProgress {
    /// Run step `i` next.
    Next(usize),
    /// Every step ran.
    Done,
    /// Step `i` failed: the job fails and no later step runs.
    Stopped(usize),
}

/// After step `index` of a plan of `len` steps ran (`ok`: it succeeded): go on
/// with the next step, finish after the last, and stop at the first failure.
pub fn effect_step(len: usize, index: usize, ok: bool) -> (p: EffectProgress)
    requires
        index < len,
    ensures
        !ok ==> p == EffectProgress::Stopped(index),
        ok && index + 1 < len ==> p == EffectProgress::Next((index + 1) as usize),
        ok && index + 1 == len ==> p == EffectProgress::Done,
{
    if !ok {
        EffectProgress::Stopped(index)
    } else if index + 1 < len {
        EffectProgress::Next(index + 1)
    } else {
        EffectProgress::Done
    }
}

/// Where an effect stands in a plan whose transition takes `k` places and
/// which has `n_tasks` task jobs.
pub open spec fn effect_rank(e: ApplyEffect, k: int, n_tasks: nat) -> int {
    match e {
        ApplyEffect::Transition(_) => 0,
        ApplyEffect::SaveAndBumpEpoch => k,
        ApplyEffect::EnsureTaskRow(a) => k + 1 + a,
        ApplyEffect::DispatchTask(a) => k + 1 + n_tasks + a,
        ApplyEffect::DispatchWorkflow(a) => k + 1 + 2 * n_tasks + a,
    }
}

proof fn lemma_effect_rank(t: Option<InstanceTransition>, n_tasks: nat, n_workflows: nat, q: int)
    requires
        n_tasks <= usize::MAX,
        n_workflows <= usize::MAX,
        0 <= q < effects_plan(t, n_tasks, n_workflows).len(),
    ensures
        effect_rank(effects_plan(t, n_tasks, n_workflows)[q], if t is Some { 1int } else { 0int }, n_tasks) == q,
        effects_plan(t, n_tasks, n_workflows).len() == (if t is Some { 1int } else { 0int }) + 1 + 2 * n_tasks + n_workflows,
{
    let p = effects_plan(t, n_tasks, n_workflows);
    let k: int = if t is Some { 1 } else { 0 };
    let a = (match t { Some(x) => seq![ApplyEffect::Transition(x)], None => Seq::<ApplyEffect>::empty() });
    let rows = Seq::new(n_tasks, |i: int| ApplyEffect::EnsureTaskRow(i as usize));
    let tasks = Seq::new(n_tasks, |i: int| ApplyEffect::DispatchTask(i as usize));
    let wfs = Seq::new(n_workflows, |i: int| ApplyEffect::DispatchWorkflow(i as usize));
    let s = seq![ApplyEffect::SaveAndBumpEpoch];
    assert(a.len() == k);
    assert(p == a + s + rows + tasks + wfs);
    if q < k {
        assert(p[q] == a[q]);
    } else if q == k {
        assert(p[q] == s[0]);
    } else if q <= k + n_tasks {
        assert(p[q] == rows[q - k - 1]);
    } else if q <= k + 2 * n_tasks {
        assert(p[q] == tasks[q - k - 1 - n_tasks]);
    } else {
        assert(p[q] == wfs[q - k - 1 - 2 * n_tasks]);
    }
}

/// The order of the steps after an applied result: the instance is saved
/// (and its epoch moved on) before any task row is written or any job is
/// dispatched, every task row is written before the first task job is
/// dispatched, task jobs go before workflow jobs, and jobs of one kind go in
/// their order.
pub proof fn lemma_effects_order(t: Option<InstanceTransition>, n_tasks: nat, n_workflows: nat, i: int, j: int)
    requires
        n_tasks <= usize::MAX,
        n_workflows <= usize::MAX,
        0 <= i < effects_plan(t, n_tasks, n_workflows).len(),
        0 <= j < effects_plan(t, n_tasks, n_workflows).len(),
    ensures
        ({
            let p = effects_plan(t, n_tasks, n_workflows);
            &&& (p[i] is SaveAndBumpEpoch && (p[j] is EnsureTaskRow || p[j] is DispatchTask || p[j] is DispatchWorkflow)) ==> i < j
            &&& (p[i] is EnsureTaskRow && p[j] is DispatchTask) ==> i < j
            &&& (p[i] is DispatchTask && p[j] is DispatchWorkflow) ==> i < j
            &&& (p[i] matches ApplyEffect::DispatchTask(a) && p[j] matches ApplyEffect::DispatchTask(b) && a < b) ==> i < j
            &&& (p[i] matches ApplyEffect::DispatchWorkflow(a) && p[j] matches ApplyEffect::DispatchWorkflow(b) && a < b) ==> i < j
            &&& (p[i] is Transition && !(p[j] is Transition)) ==> i < j
        }),
{
    let p = effects_plan(t, n_tasks, n_workflows);
    lemma_effect_rank(t, n_tasks, n_workflows, i);
    lemma_effect_rank(t, n_tasks, n_workflows, j);
    let k: int = if t is Some { 1 } else { 0 };
    assert(p[i] is EnsureTaskRow ==> p[i]->EnsureTaskRow_0 < n_tasks);
    assert(p[j] is EnsureTaskRow ==> p[j]->EnsureTaskRow_0 < n_tasks);
    assert(p[i] is DispatchTask ==> p[i]->DispatchTask_0 < n_tasks);
    assert(p[j] is DispatchTask ==> p[j]->DispatchTask_0 < n_tasks);
}

} // verus!

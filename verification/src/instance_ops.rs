//! Operator actions on workflow instances: creating an instance of a
//! template, retrying and skipping a node, resuming a manual pause, and
//! passing an approval's decision on to its node.
//!
//! Loading and saving instances and dispatching jobs are the caller's; the
//! functions here check the request against the instance and build the job
//! that follows.

use vstd::prelude::*;
use crate::approval::{
    ApprovalInstanceEntity, ApprovalStatus, Decision, already_decided_message, approval_node_status,
    approval_status_to_node_status, decide, decided_by, decision_recorded, not_approver_message,
    repeated_decision_message, views as approval_views,
};
use crate::engine::{NodeInstance, WorkflowInstance};
use crate::jobs::{
    ExecuteTaskJob, ExecuteWorkflowJob, WorkflowEvent, callback_job_is, make_task_job, node_callback_job,
    task_job_matches,
};
use crate::outside::{UtcInstant, instant_before, is_before, parse_rfc3339, rfc3339_parse};
use crate::permission::{AuthContext, RequireDraftInstanceCreate};
use crate::response::ApiError;
use crate::status::{NodeExecutionStatus, TaskType, WorkflowStatus};
use crate::template::{PauseMode, TaskTemplate};
use crate::text::{contains_run, last_dash_segment, push_str_chars, string_from_chars, trailing_index, usize_parse};

verus! {

/// An instance may be created of a Published template, or of a Draft one by a
/// caller who may write templates (`role_grants`: whether the caller's role
/// grants TemplateWrite); any other template is refused with a 400.
pub fn instance_creation_check(status: WorkflowStatus, auth: &AuthContext, role_grants: bool) -> (r: Result<(), ApiError>)
    ensures
        match status {
            WorkflowStatus::Published => r is Ok,
            WorkflowStatus::Draft => {
                &&& r is Ok <==> (auth.is_super_admin || (auth.role is Some && role_grants))
                &&& r matches Err(e) ==> e.status == 403 && e.message@ == "insufficient permissions"@
            },
            _ => r matches Err(e) && e.status == 400 && e.message@ == "workflow is not a draft or published"@,
        },
{
    match status {
        WorkflowStatus::Draft => RequireDraftInstanceCreate::check(auth, role_grants),
        WorkflowStatus::Published => Ok(()),
        _ => Err(ApiError::bad_request("workflow is not a draft or published".to_owned())),
    }
}

/// `i` is the first node of `nodes` with id `id`.
pub open spec fn is_first_node<P>(nodes: Seq<NodeInstance<P>>, id: Seq<char>, i: int) -> bool {
    &&& 0 <= i < nodes.len()
    &&& nodes[i].node_id@ == id
    &&& forall|j: int| 0 <= j < i ==> nodes[j].node_id@ != id
}

pub open spec fn is_container_type(t: TaskType) -> bool {
    t == TaskType::Parallel || t == TaskType::ForkJoin
}

/// First node with the given id.
fn find_node<P>(nodes: &Vec<NodeInstance<P>>, id: &str) -> (r: Option<usize>)
    ensures
        match r {
            Some(i) => is_first_node(nodes@, id@, i as int),
            None => forall|j: int| 0 <= j < nodes@.len() ==> nodes@[j].node_id@ != id@,
        },
{
    let mut i: usize = 0;
    while i < nodes.len()
        invariant
            i <= nodes@.len(),
            forall|j: int| 0 <= j < i ==> nodes@[j].node_id@ != id@,
        decreases nodes.len() - i,
    {
        let target: String = id.to_owned();
        if nodes[i].node_id == target {
            return Some(i);
        }
        i = i + 1;
    }
    None
}

/// What a retried node dispatches.
#[derive(Debug, Clone)]
pub enum RetryDispatch<P> {
    /// A container node runs the retried child again.
    Child(ExecuteTaskJob),
    /// Any other node: the instance starts again from it.
    Restart(ExecuteWorkflowJob<P>),
}

/// After a node was reset for a retry and the instance saved: a container node
/// dispatches the retried child (whose index is the number its id ends in)
/// reporting to the node's task; any other node restarts the instance. The
/// node missing from the saved instance is a 500.
pub fn retry_dispatch<P>(updated: &WorkflowInstance<P>, node_id: &str, child_task_id: Option<String>, tenant_id: &str)
    -> (r: Result<RetryDispatch<P>, ApiError>)
    requires
        forall|i: int| is_first_node(updated.nodes@, node_id@, i) && is_container_type(updated.nodes@[i].node_type)
            ==> child_task_id is Some,
    ensures
        (forall|j: int| 0 <= j < updated.nodes@.len() ==> updated.nodes@[j].node_id@ != node_id@)
            ==> (r matches Err(e) && e.status == 500 && e.message@ == "retried node missing after save"@),
        forall|i: int| is_first_node(updated.nodes@, node_id@, i) ==> {
            let n = updated.nodes@[i];
            if is_container_type(n.node_type) {
                let cid = child_task_id->0@;
                r matches Ok(RetryDispatch::Child(job)) && task_job_matches(
                    job, cid, tenant_id@, updated.workflow_instance_id@, node_id@,
                    Some(n.task.id@), usize_parse(last_dash_segment(cid)),
                )
            } else {
                r matches Ok(RetryDispatch::Restart(job))
                    && job.workflow_instance_id@ == updated.workflow_instance_id@
                    && job.tenant_id@ == tenant_id@
                    && job.event is Start
            }
        },
{
    let i = match find_node(&updated.nodes, node_id) {
        Some(i) => i,
        None => {
            return Err(ApiError::internal("retried node missing after save".to_owned()));
        },
    };
    let node = &updated.nodes[i];
    if node.node_type == TaskType::Parallel || node.node_type == TaskType::ForkJoin {
        let cid = match child_task_id {
            Some(c) => c,
            None => {
                assert(false);
                return Err(ApiError::internal("retried node missing after save".to_owned()));
            },
        };
        let item_index = trailing_index(cid.as_str());
        let job = make_task_job(
            cid,
            tenant_id,
            updated.workflow_instance_id.as_str(),
            node_id,
            Some(node.task.id.as_str()),
            item_index,
        );
        Ok(RetryDispatch::Child(job))
    } else {
        Ok(RetryDispatch::Restart(ExecuteWorkflowJob {
            workflow_instance_id: updated.workflow_instance_id.clone(),
            tenant_id: tenant_id.to_owned(),
            event: WorkflowEvent::Start,
        }))
    }
}

/// After a node was marked skipped and the instance saved, its node is told
/// that the child (`child_task_id` when given, else the node's own callback
/// id `default_child_task_id`) was skipped, with the output recorded on the
/// node's task when there is one and the request's output otherwise. The node
/// missing from the saved instance is a 500.
pub fn skip_callback<P>(
    updated: WorkflowInstance<P>,
    node_id: &str,
    child_task_id: Option<String>,
    default_child_task_id: String,
    request_output: P,
    tenant_id: &str,
) -> (r: Result<ExecuteWorkflowJob<P>, ApiError>)
    ensures
        (forall|j: int| 0 <= j < updated.nodes@.len() ==> updated.nodes@[j].node_id@ != node_id@)
            ==> (r matches Err(e) && e.status == 500 && e.message@ == "skipped node missing after save"@),
        forall|i: int| is_first_node(updated.nodes@, node_id@, i) ==> (r matches Ok(job) && callback_job_is(
            job, updated.workflow_instance_id@, tenant_id@, node_id@,
            match child_task_id { Some(c) => c@, None => default_child_task_id@ },
            NodeExecutionStatus::Skipped,
            Some(match updated.nodes@[i].task.output { Some(o) => o, None => request_output }),
            None, None,
        )),
{
    let i = match find_node(&updated.nodes, node_id) {
        Some(i) => i,
        None => {
            return Err(ApiError::internal("skipped node missing after save".to_owned()));
        },
    };
    let ghost before = updated;
    let wf = updated.workflow_instance_id;
    let mut nodes = updated.nodes;
    let node = nodes.remove(i);
    assert(node == before.nodes@[i as int]);
    let child = match child_task_id {
        Some(c) => c,
        None => default_child_task_id,
    };
    let out = match node.task.output {
        Some(o) => o,
        None => request_output,
    };
    Ok(node_callback_job(wf.as_str(), tenant_id, node_id, child.as_str(), NodeExecutionStatus::Skipped, Some(out), None, None))
}

/// The Debug name of a node status.
pub open spec fn node_status_name(s: NodeExecutionStatus) -> Seq<char> {
    match s {
        NodeExecutionStatus::Pending => "Pending"@,
        NodeExecutionStatus::Running => "Running"@,
        NodeExecutionStatus::Success => "Success"@,
        NodeExecutionStatus::Failed => "Failed"@,
        NodeExecutionStatus::Suspended => "Suspended"@,
        NodeExecutionStatus::Await => "Await"@,
        NodeExecutionStatus::Skipped => "Skipped"@,
    }
}

/// The Debug name of a node status, as text.
pub fn node_status_label(s: NodeExecutionStatus) -> (l: &'static str)
    ensures
        l@ == node_status_name(s),
{
    match s {
        NodeExecutionStatus::Pending => "Pending",
        NodeExecutionStatus::Running => "Running",
        NodeExecutionStatus::Success => "Success",
        NodeExecutionStatus::Failed => "Failed",
        NodeExecutionStatus::Suspended => "Suspended",
        NodeExecutionStatus::Await => "Await",
        NodeExecutionStatus::Skipped => "Skipped",
    }
}

pub open spec fn is_manual_pause(t: TaskTemplate) -> bool {
    t matches TaskTemplate::Pause(p) && p.mode == PauseMode::Manual
}

/// Why resuming a node is refused (every refusal is a 400), or `None`.
/// `resume_at` is the `resume_at` text recorded in the node's output, if any;
/// `now` the current time.
pub open spec fn resume_refusal<P>(
    instance: WorkflowInstance<P>,
    node_id: Seq<char>,
    resume_at: Option<Seq<char>>,
    now: UtcInstant,
) -> Option<Seq<char>> {
    if forall|j: int| 0 <= j < instance.nodes.len() ==> instance.nodes[j].node_id@ != node_id {
        Some("Node not found: "@ + node_id)
    } else {
        let i = choose|i: int| is_first_node(instance.nodes@, node_id, i);
        let n = instance.nodes@[i];
        if n.status != NodeExecutionStatus::Suspended {
            Some("Node "@ + node_id + " is not suspended (current: "@ + node_status_name(n.status) + ")"@)
        } else if !is_manual_pause(n.task.template) {
            Some("resume-node only applies to Manual Pause nodes"@)
        } else {
            match resume_at {
                None => Some("Pause node missing valid resume_at in output"@),
                Some(text) => match rfc3339_parse(text) {
                    None => Some("Pause node missing valid resume_at in output"@),
                    Some((secs, nanos, normal)) => if instant_before(now, UtcInstant { secs, nanos }) {
                        Some("Pause timer not expired yet, please wait until "@ + normal)
                    } else {
                        None
                    },
                },
            }
        }
    }
}

/// Confirm a manual pause: the node must be suspended on a Manual Pause
/// template whose timer (`resume_at`) has run out. The node then gets a
/// Success callback carrying its recorded output, for the child
/// `child_task_id`.
pub fn resume_node<P>(
    instance: WorkflowInstance<P>,
    node_id: &str,
    resume_at: Option<&str>,
    now: UtcInstant,
    child_task_id: &str,
    tenant_id: &str,
) -> (r: Result<ExecuteWorkflowJob<P>, ApiError>)
    ensures
        match resume_refusal(instance, node_id@, match resume_at { Some(t) => Some(t@), None => None }, now) {
            Some(m) => r matches Err(e) && e.status == 400 && e.message@ == m,
            None => forall|i: int| is_first_node(instance.nodes@, node_id@, i) ==> (r matches Ok(job) && callback_job_is(
                job, instance.workflow_instance_id@, tenant_id@, node_id@, child_task_id@,
                NodeExecutionStatus::Success, instance.nodes@[i].task.output, None, None,
            )),
        },
{
    let ghost before = instance;
    let i = match find_node(&instance.nodes, node_id) {
        Some(i) => i,
        None => {
            let mut v: Vec<char> = Vec::new();
            push_str_chars("Node not found: ", &mut v);
            push_str_chars(node_id, &mut v);
            assert(v@ =~= "Node not found: "@ + node_id@);
            return Err(ApiError::bad_request(string_from_chars(&v)));
        },
    };
    proof {
        assert(is_first_node(before.nodes@, node_id@, i as int));
        let k = choose|k: int| is_first_node(before.nodes@, node_id@, k);
        if k < i {
            assert(before.nodes@[k].node_id@ != node_id@);
        } else if k > i {
            assert(before.nodes@[i as int].node_id@ != node_id@);
        }
        assert(k == i);
    }
    let status = instance.nodes[i].status;
    if status != NodeExecutionStatus::Suspended {
        let mut v: Vec<char> = Vec::new();
        push_str_chars("Node ", &mut v);
        push_str_chars(node_id, &mut v);
        push_str_chars(" is not suspended (current: ", &mut v);
        push_str_chars(node_status_label(status), &mut v);
        push_str_chars(")", &mut v);
        assert(v@ =~= "Node "@ + node_id@ + " is not suspended (current: "@ + node_status_name(status) + ")"@);
        return Err(ApiError::bad_request(string_from_chars(&v)));
    }
    let manual = match &instance.nodes[i].task.template {
        TaskTemplate::Pause(t) => t.mode == PauseMode::Manual,
        _ => false,
    };
    if !manual {
        return Err(ApiError::bad_request("resume-node only applies to Manual Pause nodes".to_owned()));
    }
    let parsed = match resume_at {
        None => None,
        Some(text) => parse_rfc3339(text),
    };
    let normal = match parsed {
        None => {
            return Err(ApiError::bad_request("Pause node missing valid resume_at in output".to_owned()));
        },
        Some((at, normal)) => {
            if is_before(now, at) {
                let mut v: Vec<char> = Vec::new();
                push_str_chars("Pause timer not expired yet, please wait until ", &mut v);
                push_str_chars(normal.as_str(), &mut v);
                return Err(ApiError::bad_request(string_from_chars(&v)));
            }
            normal
        },
    };
    let wf = instance.workflow_instance_id;
    let mut nodes = instance.nodes;
    let node = nodes.remove(i);
    assert(node == before.nodes@[i as int]);
    Ok(node_callback_job(wf.as_str(), tenant_id, node_id, child_task_id, NodeExecutionStatus::Success, node.task.output, None, None))
}

/// A decided approval (Approved or Rejected) reports to its node: Success or
/// Failed, with the record of the decision as output, and the error
/// "Approval rejected" when rejected. A pending approval reports nothing.
pub fn approval_decision_callback<P>(approval: &ApprovalInstanceEntity, output: P) -> (r: Option<ExecuteWorkflowJob<P>>)
    ensures
        approval.status == ApprovalStatus::Pending ==> r is None,
        approval.status != ApprovalStatus::Pending ==> (r matches Some(job) && callback_job_is(
            job, approval.workflow_instance_id@, approval.tenant_id@, approval.node_id@, approval.id@,
            approval_node_status(approval.status), Some(output),
            if approval.status == ApprovalStatus::Rejected { Some("Approval rejected"@) } else { None },
            None,
        )),
{
    if approval.status == ApprovalStatus::Pending {
        return None;
    }
    let node_status = approval_status_to_node_status(&approval.status);
    let error_message: Option<String> = if approval.status == ApprovalStatus::Rejected {
        Some("Approval rejected".to_owned())
    } else {
        None
    };
    Some(node_callback_job(
        approval.workflow_instance_id.as_str(),
        approval.tenant_id.as_str(),
        approval.node_id.as_str(),
        approval.id.as_str(),
        node_status,
        Some(output),
        error_message,
        None,
    ))
}

/// A decision submitted on an approval.
#[derive(Debug, Clone)]
pub struct DecideRequest {
    pub decision: Decision,
    pub comment: Option<String>,
}

/// The API error a refused decision is answered with: the refusal's message,
/// 404 when it mentions "not found" and 500 otherwise.
pub open spec fn refusal_error(e: ApiError, message: Seq<char>) -> bool {
    &&& e.message@ == message
    &&& e.status == (if contains_run(message, "not found"@) { 404u16 } else { 500u16 })
}

/// Decide on a loaded approval for the signed-in user at the current time:
/// refused when it is no longer pending, when the user is not one of its
/// approvers, or when the user decided already; otherwise the decision is
/// recorded as `decide_at` records it.
pub fn decide_approval(entity: ApprovalInstanceEntity, user_id: &str, req: DecideRequest) -> (r: Result<ApprovalInstanceEntity, ApiError>)
    ensures
        entity.status != ApprovalStatus::Pending ==> (r matches Err(e)
            && refusal_error(e, already_decided_message(entity.id@, entity.status))),
        entity.status == ApprovalStatus::Pending && !approval_views(entity.approvers@).contains(user_id@)
            ==> (r matches Err(e) && refusal_error(e, not_approver_message(user_id@, entity.id@))),
        entity.status == ApprovalStatus::Pending && approval_views(entity.approvers@).contains(user_id@)
            && decided_by(entity.decisions@, user_id@) ==> (r matches Err(e)
            && refusal_error(e, repeated_decision_message(user_id@, entity.id@))),
        entity.status == ApprovalStatus::Pending && approval_views(entity.approvers@).contains(user_id@)
            && !decided_by(entity.decisions@, user_id@) ==> (r matches Ok(n)
            && exists|now: i64| now >= 0 && decision_recorded(entity, n, user_id@, req.decision, req.comment, now)),
{
    match decide(entity, user_id, req.decision, req.comment) {
        Ok(n) => Ok(n),
        Err(m) => Err(ApiError::from_storage_error(m)),
    }
}

} // verus!

//! Status enums of templates, workflow instances, task instances and graph
//! nodes, with the transition rules of their state machines.

use vstd::prelude::*;

verus! {

/// Lifecycle of a workflow template.
#[derive(Debug, Clone, Copy, PartialEq, Eq, Structural)]
pub enum WorkflowStatus {
    Draft,
    Published,
    Deleted,
    Archived,
}

/// Allowed template transitions: Draft -> Published -> Archived -> Deleted.
pub open spec fn workflow_transition(from: WorkflowStatus, to: WorkflowStatus) -> bool {
    match (from, to) {
        (WorkflowStatus::Draft, WorkflowStatus::Published) => true,
        (WorkflowStatus::Published, WorkflowStatus::Archived) => true,
        (WorkflowStatus::Archived, WorkflowStatus::Deleted) => true,
        _ => false,
    }
}

impl WorkflowStatus {
    /// Whether the lifecycle allows moving to `target`.
    pub fn can_transition_to(&self, target: &WorkflowStatus) -> (r: bool)
        ensures
            r == workflow_transition(*self, *target),
    {
        match (self, target) {
            (WorkflowStatus::Draft, WorkflowStatus::Published) => true,
            (WorkflowStatus::Published, WorkflowStatus::Archived) => true,
            (WorkflowStatus::Archived, WorkflowStatus::Deleted) => true,
            _ => false,
        }
    }
}

/// Lifecycle of a workflow instance.
#[derive(Debug, Clone, Copy, PartialEq, Eq, Structural)]
pub enum WorkflowInstanceStatus {
    Pending,
    Running,
    Await,
    Completed,
    Failed,
    Canceled,
    Suspended,
}

/// Allowed instance transitions:
/// Pending -> Running; Running -> Completed | Failed | Suspended | Await;
/// Failed -> Pending | Canceled; Suspended -> Pending | Canceled; Await -> Pending.
pub open spec fn instance_transition(from: WorkflowInstanceStatus, to: WorkflowInstanceStatus) -> bool {
    match (from, to) {
        (WorkflowInstanceStatus::Pending, WorkflowInstanceStatus::Running) => true,
        (WorkflowInstanceStatus::Running, WorkflowInstanceStatus::Completed) => true,
        (WorkflowInstanceStatus::Running, WorkflowInstanceStatus::Failed) => true,
        (WorkflowInstanceStatus::Running, WorkflowInstanceStatus::Suspended) => true,
        (WorkflowInstanceStatus::Running, WorkflowInstanceStatus::Await) => true,
        (WorkflowInstanceStatus::Failed, WorkflowInstanceStatus::Pending) => true,
        (WorkflowInstanceStatus::Failed, WorkflowInstanceStatus::Canceled) => true,
        (WorkflowInstanceStatus::Suspended, WorkflowInstanceStatus::Pending) => true,
        (WorkflowInstanceStatus::Suspended, WorkflowInstanceStatus::Canceled) => true,
        (WorkflowInstanceStatus::Await, WorkflowInstanceStatus::Pending) => true,
        _ => false,
    }
}

/// Completed and Canceled instances are terminal.
pub open spec fn instance_terminal(s: WorkflowInstanceStatus) -> bool {
    s == WorkflowInstanceStatus::Completed || s == WorkflowInstanceStatus::Canceled
}

impl WorkflowInstanceStatus {
    /// Whether the lifecycle allows moving to `target`.
    pub fn can_transition_to(&self, target: &WorkflowInstanceStatus) -> (r: bool)
        ensures
            r == instance_transition(*self, *target),
    {
        match (self, target) {
            (WorkflowInstanceStatus::Pending, WorkflowInstanceStatus::Running) => true,
            (WorkflowInstanceStatus::Running, WorkflowInstanceStatus::Completed) => true,
            (WorkflowInstanceStatus::Running, WorkflowInstanceStatus::Failed) => true,
            (WorkflowInstanceStatus::Running, WorkflowInstanceStatus::Suspended) => true,
            (WorkflowInstanceStatus::Running, WorkflowInstanceStatus::Await) => true,
            (WorkflowInstanceStatus::Failed, WorkflowInstanceStatus::Pending) => true,
            (WorkflowInstanceStatus::Failed, WorkflowInstanceStatus::Canceled) => true,
            (WorkflowInstanceStatus::Suspended, WorkflowInstanceStatus::Pending) => true,
            (WorkflowInstanceStatus::Suspended, WorkflowInstanceStatus::Canceled) => true,
            (WorkflowInstanceStatus::Await, WorkflowInstanceStatus::Pending) => true,
            _ => false,
        }
    }

    /// Whether no transition leaves this status.
    pub fn is_terminal(&self) -> (r: bool)
        ensures
            r == instance_terminal(*self),
    {
        match self {
            WorkflowInstanceStatus::Completed | WorkflowInstanceStatus::Canceled => true,
            _ => false,
        }
    }
}

/// Lifecycle of a task template.
#[derive(Debug, Clone, Copy, PartialEq, Eq, Structural)]
pub enum TaskStatus {
    Draft,
    Published,
}

/// Lifecycle of a task instance.
#[derive(Debug, Clone, Copy, PartialEq, Eq, Structural)]
pub enum TaskInstanceStatus {
    Pending,
    Running,
    Completed,
    Failed,
    Canceled,
}

/// Allowed task-instance transitions:
/// Pending -> Running | Canceled; Running -> Completed | Failed; Failed -> Pending | Canceled.
pub open spec fn task_transition(from: TaskInstanceStatus, to: TaskInstanceStatus) -> bool {
    match (from, to) {
        (TaskInstanceStatus::Pending, TaskInstanceStatus::Running) => true,
        (TaskInstanceStatus::Pending, TaskInstanceStatus::Canceled) => true,
        (TaskInstanceStatus::Running, TaskInstanceStatus::Completed) => true,
        (TaskInstanceStatus::Running, TaskInstanceStatus::Failed) => true,
        (TaskInstanceStatus::Failed, TaskInstanceStatus::Pending) => true,
        (TaskInstanceStatus::Failed, TaskInstanceStatus::Canceled) => true,
        _ => false,
    }
}

/// Completed and Canceled task instances are terminal.
pub open spec fn task_terminal(s: TaskInstanceStatus) -> bool {
    s == TaskInstanceStatus::Completed || s == TaskInstanceStatus::Canceled
}

impl TaskInstanceStatus {
    /// Whether the lifecycle allows moving to `target`.
    pub fn can_transition_to(&self, target: &TaskInstanceStatus) -> (r: bool)
        ensures
            r == task_transition(*self, *target),
    {
        match (self, target) {
            (TaskInstanceStatus::Pending, TaskInstanceStatus::Running) => true,
            (TaskInstanceStatus::Pending, TaskInstanceStatus::Canceled) => true,
            (TaskInstanceStatus::Running, TaskInstanceStatus::Completed) => true,
            (TaskInstanceStatus::Running, TaskInstanceStatus::Failed) => true,
            (TaskInstanceStatus::Failed, TaskInstanceStatus::Pending) => true,
            (TaskInstanceStatus::Failed, TaskInstanceStatus::Canceled) => true,
            _ => false,
        }
    }

    /// Whether no transition leaves this status.
    pub fn is_terminal(&self) -> (r: bool)
        ensures
            r == task_terminal(*self),
    {
        match self {
            TaskInstanceStatus::Completed | TaskInstanceStatus::Canceled => true,
            _ => false,
        }
    }
}

/// Kinds of tasks a node may run.
#[derive(Debug, Clone, Copy, PartialEq, Eq, Hash, Structural)]
pub enum TaskType {
    Http,
    IfCondition,
    ContextRewrite,
    Parallel,
    ForkJoin,
    SubWorkflow,
    Grpc,
    Approval,
    Llm,
    Pause,
}

/// Execution status of one node of a running workflow graph.
#[derive(Debug, Clone, Copy, PartialEq, Eq, Structural)]
pub enum NodeExecutionStatus {
    Pending,
    Running,
    Success,
    Failed,
    Suspended,
    Await,
    Skipped,
}

/// Position of a template status along its one-way lifecycle.
pub open spec fn workflow_rank(s: WorkflowStatus) -> int {
    match s {
        WorkflowStatus::Draft => 0,
        WorkflowStatus::Published => 1,
        WorkflowStatus::Archived => 2,
        WorkflowStatus::Deleted => 3,
    }
}

/// A template status never transitions to itself, each status has at most one
/// successor, every transition moves strictly forward (so no status can be
/// reached again), and Deleted is final.
pub proof fn lemma_workflow_lifecycle_is_linear(a: WorkflowStatus, b: WorkflowStatus, c: WorkflowStatus)
    ensures
        !workflow_transition(a, a),
        workflow_transition(a, b) && workflow_transition(a, c) ==> b == c,
        workflow_transition(a, b) ==> workflow_rank(b) == workflow_rank(a) + 1,
        !workflow_transition(WorkflowStatus::Deleted, b),
{
}

/// Terminal instances (Completed, Canceled) have no outgoing transition, and no
/// status transitions to itself.
pub proof fn lemma_instance_terminal_is_final(a: WorkflowInstanceStatus, b: WorkflowInstanceStatus)
    ensures
        instance_terminal(a) ==> !instance_transition(a, b),
        !instance_transition(a, a),
{
}

/// Every non-terminal instance status has some allowed transition: a live
/// instance can always move on.
pub proof fn lemma_instance_nonterminal_can_move(a: WorkflowInstanceStatus)
    ensures
        !instance_terminal(a) ==> exists|b: WorkflowInstanceStatus| instance_transition(a, b),
{
    match a {
        WorkflowInstanceStatus::Pending => { assert(instance_transition(a, WorkflowInstanceStatus::Running)); },
        WorkflowInstanceStatus::Running => { assert(instance_transition(a, WorkflowInstanceStatus::Completed)); },
        WorkflowInstanceStatus::Await => { assert(instance_transition(a, WorkflowInstanceStatus::Pending)); },
        WorkflowInstanceStatus::Failed => { assert(instance_transition(a, WorkflowInstanceStatus::Pending)); },
        WorkflowInstanceStatus::Suspended => { assert(instance_transition(a, WorkflowInstanceStatus::Pending)); },
        _ => {},
    }
}

/// Terminal task instances (Completed, Canceled) have no outgoing transition,
/// and no task status transitions to itself.
pub proof fn lemma_task_terminal_is_final(a: TaskInstanceStatus, b: TaskInstanceStatus)
    ensures
        task_terminal(a) ==> !task_transition(a, b),
        !task_transition(a, a),
{
}

/// Every non-terminal task status has some allowed transition.
pub proof fn lemma_task_nonterminal_can_move(a: TaskInstanceStatus)
    ensures
        !task_terminal(a) ==> exists|b: TaskInstanceStatus| task_transition(a, b),
{
    match a {
        TaskInstanceStatus::Pending => { assert(task_transition(a, TaskInstanceStatus::Running)); },
        TaskInstanceStatus::Running => { assert(task_transition(a, TaskInstanceStatus::Completed)); },
        TaskInstanceStatus::Failed => { assert(task_transition(a, TaskInstanceStatus::Pending)); },
        _ => {},
    }
}

/// Where each instance status can be reached from: only a Pending instance
/// starts running; only a running one completes, fails, suspends or starts
/// to await; a failed, suspended or awaiting instance goes back to Pending
/// (retry, resume, wake); and exactly the failed and the suspended instances
/// can be canceled. Nothing leads back to Pending from anywhere else.
pub proof fn lemma_instance_transitions_into(a: WorkflowInstanceStatus)
    ensures
        instance_transition(a, WorkflowInstanceStatus::Running) <==> a == WorkflowInstanceStatus::Pending,
        instance_transition(a, WorkflowInstanceStatus::Completed) <==> a == WorkflowInstanceStatus::Running,
        instance_transition(a, WorkflowInstanceStatus::Failed) <==> a == WorkflowInstanceStatus::Running,
        instance_transition(a, WorkflowInstanceStatus::Suspended) <==> a == WorkflowInstanceStatus::Running,
        instance_transition(a, WorkflowInstanceStatus::Await) <==> a == WorkflowInstanceStatus::Running,
        instance_transition(a, WorkflowInstanceStatus::Pending) <==> (a == WorkflowInstanceStatus::Failed
            || a == WorkflowInstanceStatus::Suspended || a == WorkflowInstanceStatus::Await),
        instance_transition(a, WorkflowInstanceStatus::Canceled) <==> (a == WorkflowInstanceStatus::Failed
            || a == WorkflowInstanceStatus::Suspended),
{
}

/// Where each task status can be reached from: only a Pending task starts
/// running; only a running one completes or fails; only a failed one goes
/// back to Pending; a pending or failed task can be canceled.
pub proof fn lemma_task_transitions_into(a: TaskInstanceStatus)
    ensures
        task_transition(a, TaskInstanceStatus::Running) <==> a == TaskInstanceStatus::Pending,
        task_transition(a, TaskInstanceStatus::Completed) <==> a == TaskInstanceStatus::Running,
        task_transition(a, TaskInstanceStatus::Failed) <==> a == TaskInstanceStatus::Running,
        task_transition(a, TaskInstanceStatus::Pending) <==> a == TaskInstanceStatus::Failed,
        task_transition(a, TaskInstanceStatus::Canceled) <==> (a == TaskInstanceStatus::Pending || a == TaskInstanceStatus::Failed),
{
}

/// The template lifecycle is one step forward at a time: a transition is
/// allowed exactly when it moves to the next status along Draft, Published,
/// Archived, Deleted.
pub proof fn lemma_workflow_transition_is_next(a: WorkflowStatus, b: WorkflowStatus)
    ensures
        workflow_transition(a, b) <==> workflow_rank(b) == workflow_rank(a) + 1,
{
}

/// A status is terminal exactly when no transition leaves it, for instances
/// and for tasks alike.
pub proof fn lemma_terminal_iff_stuck(a: WorkflowInstanceStatus, t: TaskInstanceStatus)
    ensures
        instance_terminal(a) <==> forall|b: WorkflowInstanceStatus| !instance_transition(a, b),
        task_terminal(t) <==> forall|u: TaskInstanceStatus| !task_transition(t, u),
{
    lemma_instance_nonterminal_can_move(a);
    lemma_task_nonterminal_can_move(t);
}

} // verus!

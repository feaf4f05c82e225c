//! Task templates, as far as the orchestrator's decisions read them.

use vstd::prelude::*;
use crate::status::TaskType;

verus! {

/// How a container dispatches its children after the first batch.
#[derive(Debug, Clone, Copy, PartialEq, Eq, Structural)]
pub enum ParallelMode {
    /// Keep `concurrency` children in flight: one new child per callback.
    Rolling,
    /// Dispatch the next batch of `concurrency` children once a batch completes.
    Batch,
}

/// Runs one task template once per item of a context array.
#[derive(Debug)]
pub struct ParallelTemplate {
    pub items_path: String,
    pub item_alias: String,
    /// The template each item's child runs.
    pub task_template: Box<TaskTemplate>,
    pub concurrency: u32,
    pub mode: ParallelMode,
    pub max_failures: Option<u32>,
}

/// One branch of a fork-join node.
#[derive(Debug)]
pub struct ForkJoinTaskItem {
    pub task_key: String,
    pub task_id: Option<String>,
    pub name: String,
    /// The template this branch's child runs.
    pub task_template: TaskTemplate,
}

/// Runs several different task templates side by side.
#[derive(Debug)]
pub struct ForkJoinTemplate {
    pub tasks: Vec<ForkJoinTaskItem>,
    pub concurrency: u32,
    pub mode: ParallelMode,
    pub max_failures: Option<u32>,
}

/// Branch on a boolean script.
#[derive(Debug, Clone)]
pub struct IfConditionTemplate {
    pub name: String,
    pub condition: String,
    pub then_task: Option<String>,
    pub else_task: Option<String>,
}

/// How a context-rewrite script's result map is applied to the context.
#[derive(Debug, Clone, Copy, PartialEq, Eq, Structural)]
pub enum MergeMode {
    Merge,
    Replace,
}

/// Rewrite the workflow context with a script.
#[derive(Debug, Clone)]
pub struct ContextRewriteTemplate {
    pub name: String,
    pub script: String,
    pub merge_mode: MergeMode,
}

/// Run another workflow as a node.
#[derive(Debug, Clone)]
pub struct SubWorkflowTemplate {
    pub workflow_meta_id: String,
    pub workflow_version: u32,
}

/// Whether a pause ends by a person's confirmation or by its timer alone.
#[derive(Debug, Clone, Copy, PartialEq, Eq, Structural)]
pub enum PauseMode {
    Manual,
    Timer,
}

/// Suspend the workflow for a while.
#[derive(Debug, Clone)]
pub struct PauseTemplate {
    pub mode: PauseMode,
    pub wait_seconds: u64,
}

/// Who may decide an approval.
#[derive(Debug, Clone)]
pub enum ApproverRule {
    User(String),
    Role(String),
    ContextVariable(String),
}

/// How the decisions of several approvers combine.
#[derive(Debug, Clone, Copy, PartialEq, Eq, Structural)]
pub enum ApprovalMode {
    Any,
    All,
    Majority,
}

/// Ask people to approve before the workflow continues.
#[derive(Debug, Clone)]
pub struct ApprovalTemplate {
    pub name: String,
    pub title: String,
    pub description: Option<String>,
    pub approvers: Vec<ApproverRule>,
    pub approval_mode: ApprovalMode,
    /// Seconds until the approval expires.
    pub timeout: Option<u64>,
}

/// The template of a node's task, one variant per task type.
#[derive(Debug, Clone)]
pub enum TaskTemplate {
    Http,
    Grpc,
    Llm,
    IfCondition(IfConditionTemplate),
    ContextRewrite(ContextRewriteTemplate),
    Parallel(ParallelTemplate),
    ForkJoin(ForkJoinTemplate),
    SubWorkflow(SubWorkflowTemplate),
    Approval(ApprovalTemplate),
    Pause(PauseTemplate),
}

pub open spec fn template_type(t: TaskTemplate) -> TaskType {
    match t {
        TaskTemplate::Http => TaskType::Http,
        TaskTemplate::Grpc => TaskType::Grpc,
        TaskTemplate::Llm => TaskType::Llm,
        TaskTemplate::IfCondition(_) => TaskType::IfCondition,
        TaskTemplate::ContextRewrite(_) => TaskType::ContextRewrite,
        TaskTemplate::Parallel(_) => TaskType::Parallel,
        TaskTemplate::ForkJoin(_) => TaskType::ForkJoin,
        TaskTemplate::SubWorkflow(_) => TaskType::SubWorkflow,
        TaskTemplate::Approval(_) => TaskType::Approval,
        TaskTemplate::Pause(_) => TaskType::Pause,
    }
}

fn copy_string(s: &String) -> (r: String)
    ensures
        r == *s,
{
    s.clone()
}

fn copy_opt_string(s: &Option<String>) -> (r: Option<String>)
    ensures
        r == *s,
{
    match s {
        Some(x) => Some(x.clone()),
        None => None,
    }
}

fn copy_rules(v: &Vec<ApproverRule>) -> (r: Vec<ApproverRule>)
    ensures
        r@ == v@,
{
    let mut out: Vec<ApproverRule> = Vec::new();
    let mut i: usize = 0;
    while i < v.len()
        invariant
            i <= v.len(),
            out@ == v@.take(i as int),
        decreases v.len() - i,
    {
        let rule = match &v[i] {
            ApproverRule::User(u) => ApproverRule::User(u.clone()),
            ApproverRule::Role(u) => ApproverRule::Role(u.clone()),
            ApproverRule::ContextVariable(u) => ApproverRule::ContextVariable(u.clone()),
        };
        out.push(rule);
        assert(out@ =~= v@.take(i + 1));
        i = i + 1;
    }
    assert(v@.take(v.len() as int) =~= v@);
    out
}

/// Two templates say the same: equal field by field, the branches of a
/// fork-join template compared item by item (a `Vec` is known by what it
/// holds).
pub open spec fn same_template(a: TaskTemplate, b: TaskTemplate) -> bool
    decreases a,
{
    match a {
        TaskTemplate::Parallel(x) => match b {
            TaskTemplate::Parallel(y) => {
                &&& x.items_path == y.items_path
                &&& x.item_alias == y.item_alias
                &&& x.concurrency == y.concurrency
                &&& x.mode == y.mode
                &&& x.max_failures == y.max_failures
                &&& same_template(*x.task_template, *y.task_template)
            },
            _ => false,
        },
        TaskTemplate::ForkJoin(x) => match b {
            TaskTemplate::ForkJoin(y) => {
                &&& x.concurrency == y.concurrency
                &&& x.mode == y.mode
                &&& x.max_failures == y.max_failures
                &&& x.tasks@.len() == y.tasks@.len()
                &&& forall|i: int| 0 <= i < x.tasks@.len() ==> {
                    &&& (#[trigger] x.tasks@[i]).task_key == y.tasks@[i].task_key
                    &&& x.tasks@[i].task_id == y.tasks@[i].task_id
                    &&& x.tasks@[i].name == y.tasks@[i].name
                    &&& same_template(x.tasks@[i].task_template, y.tasks@[i].task_template)
                }
            },
            _ => false,
        },
        TaskTemplate::Approval(x) => match b {
            TaskTemplate::Approval(y) => {
                &&& x.name == y.name
                &&& x.title == y.title
                &&& x.description == y.description
                &&& x.approvers@ == y.approvers@
                &&& x.approval_mode == y.approval_mode
                &&& x.timeout == y.timeout
            },
            _ => false,
        },
        _ => a == b,
    }
}

/// An equal copy of a Parallel template.
pub fn copy_parallel(p: &ParallelTemplate) -> (r: ParallelTemplate)
    ensures
        same_template(TaskTemplate::Parallel(r), TaskTemplate::Parallel(*p)),
    decreases *p,
{
    let inner = copy_template(&*p.task_template);
    ParallelTemplate {
        items_path: copy_string(&p.items_path),
        item_alias: copy_string(&p.item_alias),
        task_template: Box::new(inner),
        concurrency: p.concurrency,
        mode: p.mode,
        max_failures: p.max_failures,
    }
}

/// An equal copy of a fork-join branch.
pub fn copy_forkjoin_item(item: &ForkJoinTaskItem) -> (r: ForkJoinTaskItem)
    ensures
        r.task_key == item.task_key,
        r.task_id == item.task_id,
        r.name == item.name,
        same_template(r.task_template, item.task_template),
    decreases *item,
{
    ForkJoinTaskItem {
        task_key: copy_string(&item.task_key),
        task_id: copy_opt_string(&item.task_id),
        name: copy_string(&item.name),
        task_template: copy_template(&item.task_template),
    }
}

/// An equal copy of a ForkJoin template.
pub fn copy_forkjoin(f: &ForkJoinTemplate) -> (r: ForkJoinTemplate)
    ensures
        same_template(TaskTemplate::ForkJoin(r), TaskTemplate::ForkJoin(*f)),
    decreases *f,
{
    let mut tasks: Vec<ForkJoinTaskItem> = Vec::new();
    let mut i: usize = 0;
    while i < f.tasks.len()
        invariant
            i <= f.tasks.len(),
            tasks@.len() == i,
            forall|j: int| 0 <= j < i ==> {
                &&& (#[trigger] tasks@[j]).task_key == f.tasks@[j].task_key
                &&& tasks@[j].task_id == f.tasks@[j].task_id
                &&& tasks@[j].name == f.tasks@[j].name
                &&& same_template(tasks@[j].task_template, f.tasks@[j].task_template)
            },
        decreases f.tasks.len() - i,
    {
        proof {
            broadcast use vstd::std_specs::vec::axiom_vec_decreases_to_view;
            assert(decreases_to!(*f => f.tasks));
            assert(decreases_to!(f.tasks => f.tasks@));
            assert(decreases_to!(f.tasks@ => f.tasks@[i as int]));
        }
        let copied = copy_forkjoin_item(&f.tasks[i]);
        tasks.push(copied);
        i = i + 1;
    }
    ForkJoinTemplate { tasks, concurrency: f.concurrency, mode: f.mode, max_failures: f.max_failures }
}

/// An equal copy of a template (its nested templates included).
pub fn copy_template(t: &TaskTemplate) -> (r: TaskTemplate)
    ensures
        same_template(r, *t),
    decreases *t,
{
    match t {
        TaskTemplate::Http => TaskTemplate::Http,
        TaskTemplate::Grpc => TaskTemplate::Grpc,
        TaskTemplate::Llm => TaskTemplate::Llm,
        TaskTemplate::IfCondition(c) => TaskTemplate::IfCondition(IfConditionTemplate {
            name: copy_string(&c.name),
            condition: copy_string(&c.condition),
            then_task: copy_opt_string(&c.then_task),
            else_task: copy_opt_string(&c.else_task),
        }),
        TaskTemplate::ContextRewrite(c) => TaskTemplate::ContextRewrite(ContextRewriteTemplate {
            name: copy_string(&c.name),
            script: copy_string(&c.script),
            merge_mode: c.merge_mode,
        }),
        TaskTemplate::Parallel(p) => TaskTemplate::Parallel(copy_parallel(p)),
        TaskTemplate::ForkJoin(f) => TaskTemplate::ForkJoin(copy_forkjoin(f)),
        TaskTemplate::SubWorkflow(w) => TaskTemplate::SubWorkflow(SubWorkflowTemplate {
            workflow_meta_id: copy_string(&w.workflow_meta_id),
            workflow_version: w.workflow_version,
        }),
        TaskTemplate::Approval(a) => TaskTemplate::Approval(ApprovalTemplate {
            name: copy_string(&a.name),
            title: copy_string(&a.title),
            description: copy_opt_string(&a.description),
            approvers: copy_rules(&a.approvers),
            approval_mode: a.approval_mode,
            timeout: a.timeout,
        }),
        TaskTemplate::Pause(p) => TaskTemplate::Pause(PauseTemplate { mode: p.mode, wait_seconds: p.wait_seconds }),
    }
}

impl Clone for ParallelTemplate {
    fn clone(&self) -> (r: Self)
        ensures
            same_template(TaskTemplate::Parallel(r), TaskTemplate::Parallel(*self)),
    {
        copy_parallel(self)
    }
}

impl Clone for ForkJoinTaskItem {
    fn clone(&self) -> (r: Self)
        ensures
            r.task_key == self.task_key,
            r.task_id == self.task_id,
            r.name == self.name,
            same_template(r.task_template, self.task_template),
    {
        copy_forkjoin_item(self)
    }
}

impl Clone for ForkJoinTemplate {
    fn clone(&self) -> (r: Self)
        ensures
            same_template(TaskTemplate::ForkJoin(r), TaskTemplate::ForkJoin(*self)),
    {
        copy_forkjoin(self)
    }
}

impl TaskTemplate {
    /// The task type a template belongs to.
    pub fn task_type(&self) -> (t: TaskType)
        ensures
            t == template_type(*self),
    {
        match self {
            TaskTemplate::Http => TaskType::Http,
            TaskTemplate::Grpc => TaskType::Grpc,
            TaskTemplate::Llm => TaskType::Llm,
            TaskTemplate::IfCondition(_) => TaskType::IfCondition,
            TaskTemplate::ContextRewrite(_) => TaskType::ContextRewrite,
            TaskTemplate::Parallel(_) => TaskType::Parallel,
            TaskTemplate::ForkJoin(_) => TaskType::ForkJoin,
            TaskTemplate::SubWorkflow(_) => TaskType::SubWorkflow,
            TaskTemplate::Approval(_) => TaskType::Approval,
            TaskTemplate::Pause(_) => TaskType::Pause,
        }
    }
}

} // verus!

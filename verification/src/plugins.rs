//! The node plugins other than the containers: single-task nodes (Http, Llm),
//! branching (IfCondition), context rewriting, sub-workflows, pauses and
//! approvals.
//!
//! Script evaluation, storage and the creation of child instances and approval
//! records happen around these functions; each takes what that work produced
//! and decides the node's result.

use vstd::prelude::*;
use crate::jobs::{
    ExecuteTaskJob, ExecuteWorkflowJob, ExecutionResult, WorkflowCallerContext, WorkflowEvent,
    make_task_job, plain_result, task_job_matches,
};
use crate::engine::NodeInstance;
use crate::outside::now_unix_seconds;
use crate::status::{NodeExecutionStatus, TaskType};
use crate::template::{MergeMode, SubWorkflowTemplate, TaskTemplate};
use crate::text::{push_str_chars, single_child_id, single_child_task_id, string_from_chars};

verus! {

/// Runs an HTTP request as one child task.
pub struct HttpPlugin {}

impl HttpPlugin {
    pub fn new() -> (p: Self) {
        HttpPlugin {}
    }

    pub fn plugin_type(&self) -> (t: TaskType)
        ensures
            t == TaskType::Http,
    {
        TaskType::Http
    }

    /// Dispatch the child task `{workflow}-{node}` in the "default" tenant and wait.
    pub fn execute<P>(&self, workflow_instance_id: &str, node_id: &str) -> (r: ExecutionResult<P>)
        ensures
            r.status == NodeExecutionStatus::Suspended,
            r.dispatch_jobs@.len() == 1,
            task_job_matches(
                r.dispatch_jobs@[0], single_child_id(workflow_instance_id@, node_id@), "default"@,
                workflow_instance_id@, node_id@, None, None,
            ),
            r.dispatch_workflow_jobs@.len() == 0,
            r.jump_to_node is None,
    {
        let id = single_child_task_id(workflow_instance_id, node_id);
        let job = make_task_job(id, "default", workflow_instance_id, node_id, None, None);
        ExecutionResult::async_dispatch(job)
    }
}

/// Runs a language-model call as one child task.
pub struct LlmPlugin {}

impl LlmPlugin {
    pub fn new() -> (p: Self) {
        LlmPlugin {}
    }

    pub fn plugin_type(&self) -> (t: TaskType)
        ensures
            t == TaskType::Llm,
    {
        TaskType::Llm
    }

    /// Dispatch the child task `{workflow}-{node}` in the instance's tenant and wait.
    pub fn execute<P>(&self, workflow_instance_id: &str, tenant_id: &str, node_id: &str) -> (r: ExecutionResult<P>)
        ensures
            r.status == NodeExecutionStatus::Suspended,
            r.dispatch_jobs@.len() == 1,
            task_job_matches(
                r.dispatch_jobs@[0], single_child_id(workflow_instance_id@, node_id@), tenant_id@,
                workflow_instance_id@, node_id@, None, None,
            ),
            r.dispatch_workflow_jobs@.len() == 0,
            r.jump_to_node is None,
    {
        let id = single_child_task_id(workflow_instance_id, node_id);
        let job = make_task_job(id, tenant_id, workflow_instance_id, node_id, None, None);
        ExecutionResult::async_dispatch(job)
    }
}

/// "Invalid task template for {plugin}"
pub open spec fn invalid_template_message(plugin: Seq<char>) -> Seq<char> {
    "Invalid task template for "@ + plugin
}

fn invalid_template(plugin: &str) -> (s: String)
    ensures
        s@ == invalid_template_message(plugin@),
{
    let mut v: Vec<char> = Vec::new();
    push_str_chars("Invalid task template for ", &mut v);
    push_str_chars(plugin, &mut v);
    assert(v@ =~= invalid_template_message(plugin@));
    string_from_chars(&v)
}

/// `prefix` followed by `detail`.
fn prefixed(prefix: &str, detail: &str) -> (s: String)
    ensures
        s@ == prefix@ + detail@,
{
    let mut v: Vec<char> = Vec::new();
    push_str_chars(prefix, &mut v);
    push_str_chars(detail, &mut v);
    string_from_chars(&v)
}

/// Branches on a boolean condition.
pub struct IfConditionPlugin {}

impl IfConditionPlugin {
    pub fn new() -> (p: Self) {
        IfConditionPlugin {}
    }

    pub fn plugin_type(&self) -> (t: TaskType)
        ensures
            t == TaskType::IfCondition,
    {
        TaskType::IfCondition
    }

    /// The node succeeds and jumps to the then-branch when the condition held,
    /// to the else-branch otherwise (no jump when that branch is unset), and
    /// records the condition and the template's name as its input and the
    /// outcome (the condition's value, the chosen next node, both branches and
    /// the condition) as its output. A condition that could not be evaluated
    /// fails the call with its error, and nothing is recorded.
    pub fn execute<P>(&self, template: &TaskTemplate, condition: Result<bool, String>) -> (r: Result<IfConditionRun<P>, String>)
        ensures
            match *template {
                TaskTemplate::IfCondition(t) => match condition {
                    Ok(b) => r matches Ok(run) && {
                        let next = if b { t.then_task } else { t.else_task };
                        &&& run.result.status == NodeExecutionStatus::Success
                        &&& run.result.dispatch_jobs@.len() == 0
                        &&& run.result.dispatch_workflow_jobs@.len() == 0
                        &&& run.result.jump_to_node == next
                        &&& run.input.condition == t.condition
                        &&& run.input.name == t.name
                        &&& run.output.if_condition_result == b
                        &&& run.output.next_node == next
                        &&& run.output.then_task == t.then_task
                        &&& run.output.else_task == t.else_task
                        &&& run.output.condition == t.condition
                    },
                    Err(e) => r matches Err(m) && m@ == "Failed to evaluate IfCondition: "@ + e@,
                },
                _ => r matches Err(m) && m@ == invalid_template_message("IfConditionPlugin"@),
            },
    {
        match template {
            TaskTemplate::IfCondition(t) => match condition {
                Ok(b) => {
                    let next = if b { t.then_task.clone() } else { t.else_task.clone() };
                    let input = IfConditionInput { condition: t.condition.clone(), name: t.name.clone() };
                    let output = IfConditionOutput {
                        if_condition_result: b,
                        next_node: next.clone(),
                        then_task: t.then_task.clone(),
                        else_task: t.else_task.clone(),
                        condition: t.condition.clone(),
                    };
                    Ok(IfConditionRun { result: ExecutionResult::success(next), input, output })
                },
                Err(e) => Err(prefixed("Failed to evaluate IfCondition: ", e.as_str())),
            },
            _ => Err(invalid_template("IfConditionPlugin")),
        }
    }
}

/// What an evaluated IfCondition node records as its input.
#[derive(Debug, Clone)]
pub struct IfConditionInput {
    pub condition: String,
    pub name: String,
}

/// What an evaluated IfCondition node records as its output.
#[derive(Debug, Clone)]
pub struct IfConditionOutput {
    pub if_condition_result: bool,
    pub next_node: Option<String>,
    pub then_task: Option<String>,
    pub else_task: Option<String>,
    pub condition: String,
}

/// An evaluated IfCondition node: its result and the records it writes.
#[derive(Debug, Clone)]
pub struct IfConditionRun<P> {
    pub result: ExecutionResult<P>,
    pub input: IfConditionInput,
    pub output: IfConditionOutput,
}

/// One key of a JSON object context.
#[derive(Debug, Clone)]
pub struct ContextEntry<P> {
    pub key: String,
    pub value: P,
}

/// The object a list of entries stands for; a later entry overrides an earlier
/// one with the same key.
pub open spec fn entries_map<P>(s: Seq<ContextEntry<P>>) -> Map<Seq<char>, P>
    decreases s.len(),
{
    if s.len() == 0 {
        Map::empty()
    } else {
        entries_map(s.drop_last()).insert(s.last().key@, s.last().value)
    }
}

/// No key occurs twice.
pub open spec fn keys_unique<P>(s: Seq<ContextEntry<P>>) -> bool {
    forall|i: int, j: int| 0 <= i < j < s.len() ==> s[i].key@ != s[j].key@
}

/// Of entries with distinct keys, the object holds exactly their keys, each
/// with its value.
pub proof fn lemma_entries_map_unique<P>(s: Seq<ContextEntry<P>>)
    requires
        keys_unique(s),
    ensures
        forall|k: Seq<char>| #[trigger] entries_map(s).dom().contains(k) <==> exists|i: int| 0 <= i < s.len() && s[i].key@ == k,
        forall|i: int| 0 <= i < s.len() ==> #[trigger] entries_map(s)[s[i].key@] == s[i].value,
    decreases s.len(),
{
    if s.len() > 0 {
        let init = s.drop_last();
        assert(keys_unique(init)) by {
            assert forall|i: int, j: int| 0 <= i < j < init.len() implies init[i].key@ != init[j].key@ by {
                assert(init[i] == s[i]);
                assert(init[j] == s[j]);
            }
        }
        lemma_entries_map_unique(init);
        assert forall|k: Seq<char>| #[trigger] entries_map(s).dom().contains(k) implies exists|i: int| 0 <= i < s.len() && s[i].key@ == k by {
            if k != s.last().key@ {
                assert(entries_map(init).dom().contains(k));
                let i = choose|i: int| 0 <= i < init.len() && init[i].key@ == k;
                assert(init[i] == s[i]);
                assert(s[i].key@ == k);
            } else {
                assert(s[s.len() - 1].key@ == k);
            }
        }
        assert forall|k: Seq<char>| (exists|i: int| 0 <= i < s.len() && s[i].key@ == k) implies #[trigger] entries_map(s).dom().contains(k) by {
            let i = choose|i: int| 0 <= i < s.len() && s[i].key@ == k;
            if i < s.len() - 1 {
                assert(init[i] == s[i]);
                assert(init[i].key@ == k);
                assert(entries_map(init).dom().contains(k));
            }
        }
        assert forall|i: int| 0 <= i < s.len() implies #[trigger] entries_map(s)[s[i].key@] == s[i].value by {
            if i < s.len() - 1 {
                assert(init[i] == s[i]);
                assert(s[i].key@ != s.last().key@);
                assert(entries_map(init)[init[i].key@] == init[i].value);
            }
        }
    }
}

/// Set `key` to `value` in an object, keeping keys distinct.
pub fn context_insert<P>(ctx: &mut Vec<ContextEntry<P>>, key: String, value: P)
    requires
        keys_unique(old(ctx)@),
    ensures
        keys_unique(final(ctx)@),
        entries_map(final(ctx)@) == entries_map(old(ctx)@).insert(key@, value),
{
    proof {
        lemma_entries_map_unique(ctx@);
    }
    let ghost before = ctx@;
    let mut i: usize = 0;
    while i < ctx.len()
        invariant
            i <= ctx@.len(),
            ctx@ == before,
            before == old(ctx)@,
            keys_unique(before),
            forall|j: int| 0 <= j < i ==> ctx@[j].key@ != key@,
        decreases ctx.len() - i,
    {
        if ctx[i].key == key {
            ctx[i].value = value;
            proof {
                lemma_entries_map_unique(before);
                assert(keys_unique(ctx@)) by {
                    assert forall|a: int, b: int| 0 <= a < b < ctx@.len() implies ctx@[a].key@ != ctx@[b].key@ by {
                        assert(ctx@[a].key == before[a].key);
                        assert(ctx@[b].key == before[b].key);
                    }
                }
                lemma_entries_map_unique(ctx@);
                let m_new = entries_map(ctx@);
                let m_old = entries_map(before).insert(key@, value);
                assert forall|k: Seq<char>| m_new.dom().contains(k) <==> m_old.dom().contains(k) by {
                    if m_new.dom().contains(k) {
                        let j = choose|j: int| 0 <= j < ctx@.len() && ctx@[j].key@ == k;
                        assert(before[j].key@ == k);
                    }
                    if m_old.dom().contains(k) && k != key@ {
                        let j = choose|j: int| 0 <= j < before.len() && before[j].key@ == k;
                        assert(ctx@[j].key@ == k);
                    }
                    if k == key@ {
                        assert(ctx@[i as int].key@ == k);
                    }
                }
                assert forall|k: Seq<char>| m_new.dom().contains(k) implies m_new[k] == m_old[k] by {
                    let j = choose|j: int| 0 <= j < ctx@.len() && ctx@[j].key@ == k;
                    if j != i {
                        assert(before[j] == ctx@[j]);
                    }
                }
                assert(m_new =~= m_old);
            }
            return;
        }
        i = i + 1;
    }
    let ghost k = key@;
    ctx.push(ContextEntry { key, value });
    proof {
        assert(ctx@.drop_last() =~= before);
        assert forall|a: int, b: int| 0 <= a < b < ctx@.len() implies ctx@[a].key@ != ctx@[b].key@ by {
            if b == ctx@.len() - 1 {
                assert(ctx@[a] == before[a]);
            } else {
                assert(ctx@[a] == before[a]);
                assert(ctx@[b] == before[b]);
            }
        }
    }
}

/// Insert every entry of `entries`, in order, into `ctx`.
fn context_merge<P>(ctx: &mut Vec<ContextEntry<P>>, entries: Vec<ContextEntry<P>>)
    requires
        keys_unique(old(ctx)@),
    ensures
        keys_unique(final(ctx)@),
        entries_map(final(ctx)@) == entries_map(old(ctx)@).union_prefer_right(entries_map(entries@)),
{
    let ghost base = entries_map(ctx@);
    let ghost all = entries@;
    let mut rest = entries;
    let mut done: usize = 0;
    let n: usize = rest.len();
    assert(n == all.len());
    assert(all.take(0) =~= Seq::<ContextEntry<P>>::empty());
    assert(base.union_prefer_right(Map::empty()) =~= base);
    while rest.len() > 0
        invariant
            done + rest@.len() == all.len(),
            all.len() <= usize::MAX,
            rest@ == all.skip(done as int),
            keys_unique(ctx@),
            entries_map(ctx@) == base.union_prefer_right(entries_map(all.take(done as int))),
        decreases rest.len(),
    {
        let e = rest.remove(0);
        proof {
            assert(e == all[done as int]);
            assert(all.take(done as int + 1).drop_last() =~= all.take(done as int));
            assert(all.take(done as int + 1).last() == e);
        }
        let ghost prev = entries_map(all.take(done as int));
        context_insert(ctx, e.key, e.value);
        proof {
            assert(base.union_prefer_right(prev).insert(e.key@, e.value)
                =~= base.union_prefer_right(prev.insert(e.key@, e.value)));
            assert(rest@ =~= all.skip(done as int + 1));
        }
        done = done + 1;
    }
    assert(all.take(done as int) =~= all);
}

/// The context after a rewrite: under Merge, an object context takes every key
/// of the script's result (overriding existing ones); under Replace, or when
/// the context was not an object, the context becomes the result.
pub open spec fn rewritten_context<P>(mode: MergeMode, context: Option<Seq<ContextEntry<P>>>, result: Seq<ContextEntry<P>>) -> Map<Seq<char>, P> {
    match (mode, context) {
        (MergeMode::Merge, Some(c)) => entries_map(c).union_prefer_right(entries_map(result)),
        _ => entries_map(result),
    }
}

/// What a rewrite guarantees: every key of the script's result ends up with
/// the result's value; under Merge an object context keeps every other key as
/// it was, and merging the same result again changes nothing; under Replace
/// the previous context does not matter.
pub proof fn lemma_rewrite_laws<P>(c: Seq<ContextEntry<P>>, m: Seq<ContextEntry<P>>, other: Option<Seq<ContextEntry<P>>>)
    ensures
        forall|mode: MergeMode, ctx: Option<Seq<ContextEntry<P>>>, k: Seq<char>|
            #![trigger rewritten_context(mode, ctx, m)[k]]
            entries_map(m).dom().contains(k) ==> rewritten_context(mode, ctx, m).dom().contains(k)
                && rewritten_context(mode, ctx, m)[k] == entries_map(m)[k],
        forall|k: Seq<char>|
            #![trigger rewritten_context(MergeMode::Merge, Some(c), m)[k]]
            entries_map(c).dom().contains(k) && !entries_map(m).dom().contains(k)
                ==> rewritten_context(MergeMode::Merge, Some(c), m).dom().contains(k)
                && rewritten_context(MergeMode::Merge, Some(c), m)[k] == entries_map(c)[k],
        rewritten_context(MergeMode::Merge, Some(c), m).union_prefer_right(entries_map(m))
            == rewritten_context(MergeMode::Merge, Some(c), m),
        rewritten_context(MergeMode::Replace, other, m) == rewritten_context(MergeMode::Replace, Some(c), m),
{
    let once = entries_map(c).union_prefer_right(entries_map(m));
    assert(once.union_prefer_right(entries_map(m)) =~= once);
}

/// Apply a script's result map to the context.
pub fn apply_context_rewrite<P>(mode: MergeMode, context: Option<Vec<ContextEntry<P>>>, result: Vec<ContextEntry<P>>)
    -> (r: Vec<ContextEntry<P>>)
    requires
        context matches Some(c) ==> keys_unique(c@),
    ensures
        keys_unique(r@),
        entries_map(r@) == rewritten_context(mode, match context { Some(c) => Some(c@), None => None }, result@),
{
    let ghost res = result@;
    match (mode, context) {
        (MergeMode::Merge, Some(c)) => {
            let mut ctx = c;
            context_merge(&mut ctx, result);
            ctx
        },
        _ => {
            let mut ctx: Vec<ContextEntry<P>> = Vec::new();
            assert(entries_map(ctx@) =~= Map::empty());
            context_merge(&mut ctx, result);
            assert(Map::<Seq<char>, P>::empty().union_prefer_right(entries_map(res)) =~= entries_map(res));
            ctx
        },
    }
}

/// The keys of a context, in order.
pub fn context_keys<P>(ctx: &Vec<ContextEntry<P>>) -> (keys: Vec<String>)
    ensures
        keys@.len() == ctx@.len(),
        forall|i: int| 0 <= i < ctx@.len() ==> #[trigger] keys@[i]@ == ctx@[i].key@,
{
    let mut keys: Vec<String> = Vec::new();
    let mut i: usize = 0;
    while i < ctx.len()
        invariant
            i <= ctx@.len(),
            keys@.len() == i,
            forall|j: int| 0 <= j < i ==> #[trigger] keys@[j]@ == ctx@[j].key@,
        decreases ctx.len() - i,
    {
        keys.push(ctx[i].key.clone());
        i = i + 1;
    }
    keys
}

/// Why a rewrite script produced no result map.
#[derive(Debug, Clone)]
pub enum ScriptError {
    /// The script did not compile (the compiler's message).
    Compile(String),
    /// The script failed while running.
    Run(String),
    /// The script's value was not a map of JSON values.
    Convert(String),
}

pub open spec fn script_error_message(e: ScriptError) -> Seq<char> {
    match e {
        ScriptError::Compile(m) => m@,
        ScriptError::Run(m) => "ContextRewrite script error: "@ + m@,
        ScriptError::Convert(m) => m@,
    }
}

/// Rewrites the workflow context with a script.
pub struct ContextRewritePlugin {}

impl ContextRewritePlugin {
    pub fn new() -> (p: Self) {
        ContextRewritePlugin {}
    }

    pub fn plugin_type(&self) -> (t: TaskType)
        ensures
            t == TaskType::ContextRewrite,
    {
        TaskType::ContextRewrite
    }

    /// Apply the script's result to `context` (`None` when it is not a JSON
    /// object) as the template's merge mode says and succeed; the context is
    /// unchanged when the template or the script fails.
    pub fn execute<P>(
        &self,
        template: &TaskTemplate,
        context: &mut Option<Vec<ContextEntry<P>>>,
        script: Result<Vec<ContextEntry<P>>, ScriptError>,
    ) -> (r: Result<ExecutionResult<P>, String>)
        requires
            *old(context) matches Some(c) ==> keys_unique(c@),
        ensures
            match (*template, script) {
                (TaskTemplate::ContextRewrite(t), Ok(m)) => {
                    &&& r matches Ok(res) && res.status == NodeExecutionStatus::Success
                        && res.dispatch_jobs@.len() == 0 && res.dispatch_workflow_jobs@.len() == 0
                        && res.jump_to_node is None
                    &&& *final(context) matches Some(c) && keys_unique(c@)
                        && entries_map(c@) == rewritten_context(
                            t.merge_mode, match *old(context) { Some(c) => Some(c@), None => None }, m@)
                },
                (TaskTemplate::ContextRewrite(_), Err(e)) =>
                    r matches Err(msg) && msg@ == script_error_message(e) && *final(context) == *old(context),
                _ => r matches Err(msg) && msg@ == invalid_template_message("ContextRewritePlugin"@)
                    && *final(context) == *old(context),
            },
    {
        match template {
            TaskTemplate::ContextRewrite(t) => match script {
                Ok(m) => {
                    let old_ctx = context.take();
                    let new_ctx = apply_context_rewrite(t.merge_mode, old_ctx, m);
                    *context = Some(new_ctx);
                    Ok(ExecutionResult::success(None))
                },
                Err(ScriptError::Compile(e)) => Err(e),
                Err(ScriptError::Run(e)) => Err(prefixed("ContextRewrite script error: ", e.as_str())),
                Err(ScriptError::Convert(e)) => Err(e),
            },
            _ => Err(invalid_template("ContextRewritePlugin")),
        }
    }
}

/// The deepest a chain of sub-workflows may nest.
pub const MAX_SUB_WORKFLOW_DEPTH: u32 = 10;

/// "Sub-workflow nesting depth exceeded maximum (10), possible circular reference"
pub open spec fn depth_exceeded_message() -> Seq<char> {
    "Sub-workflow nesting depth exceeded maximum (10), possible circular reference"@
}

/// What creating the child instance of a sub-workflow node came to.
#[derive(Debug, Clone)]
pub enum SubWorkflowLaunch {
    /// The child's workflow definition could not be loaded.
    LoadFailed(String),
    /// The child instance could not be created.
    CreateFailed(String),
    /// The child instance was created with this id.
    Created(String),
}

/// Runs another workflow as a node.
pub struct SubWorkflowPlugin {}

impl SubWorkflowPlugin {
    pub fn new() -> (p: Self) {
        SubWorkflowPlugin {}
    }

    pub fn plugin_type(&self) -> (t: TaskType)
        ensures
            t == TaskType::SubWorkflow,
    {
        TaskType::SubWorkflow
    }

    /// The depth of the child instance of a node in an instance at `depth`,
    /// refused when it would exceed the maximum nesting.
    pub fn child_depth(template: &TaskTemplate, depth: u32) -> (r: Result<u32, String>)
        ensures
            !(template is SubWorkflow) ==> (r matches Err(m) && m@ == invalid_template_message("SubWorkflowPlugin"@)),
            template is SubWorkflow && depth + 1 > MAX_SUB_WORKFLOW_DEPTH ==> (r matches Err(m) && m@ == depth_exceeded_message()),
            template is SubWorkflow && depth + 1 <= MAX_SUB_WORKFLOW_DEPTH ==> r == Ok::<u32, String>((depth + 1) as u32),
    {
        match template {
            TaskTemplate::SubWorkflow(_) => {
                if depth >= MAX_SUB_WORKFLOW_DEPTH {
                    let m = "Sub-workflow nesting depth exceeded maximum (10), possible circular reference";
                    proof {
                        reveal_strlit("Sub-workflow nesting depth exceeded maximum (10), possible circular reference");
                    }
                    Err(m.to_owned())
                } else {
                    Ok(depth + 1)
                }
            },
            _ => Err(invalid_template("SubWorkflowPlugin")),
        }
    }

    /// The context a child instance starts with: the parent's context with
    /// the node's form fields set on it (each field's key to its value, later
    /// fields winning). A context that is not an object (`None`) is passed on
    /// as it is.
    pub fn child_context<P>(parent: Option<Vec<ContextEntry<P>>>, form: Vec<ContextEntry<P>>) -> (r: Option<Vec<ContextEntry<P>>>)
        requires
            parent matches Some(c) ==> keys_unique(c@),
        ensures
            match parent {
                None => r is None,
                Some(c) => r matches Some(n) && keys_unique(n@)
                    && entries_map(n@) == entries_map(c@).union_prefer_right(entries_map(form@)),
            },
    {
        match parent {
            None => None,
            Some(c) => {
                let mut ctx = c;
                context_merge(&mut ctx, form);
                Some(ctx)
            },
        }
    }

    /// The caller context a child instance reports back to.
    pub fn parent_context(workflow_instance_id: &str, node_id: &str) -> (c: WorkflowCallerContext)
        ensures
            c.workflow_instance_id@ == workflow_instance_id@,
            c.node_id@ == node_id@,
            c.parent_task_instance_id is None,
            c.item_index is None,
    {
        WorkflowCallerContext {
            workflow_instance_id: workflow_instance_id.to_owned(),
            node_id: node_id.to_owned(),
            parent_task_instance_id: None,
            item_index: None,
        }
    }

    /// Once the child exists, start it and wait for it, and record what the
    /// child was made from (the template's workflow and version, and the
    /// child's starting context) as the node's input and the child's id as
    /// its output; the failures of loading and creating become the node's
    /// errors.
    pub fn launch<P>(
        launch: SubWorkflowLaunch,
        tenant_id: &str,
        template: &SubWorkflowTemplate,
        child_context: Option<Vec<ContextEntry<P>>>,
    ) -> (r: Result<SubWorkflowRun<P>, String>)
        ensures
            match launch {
                SubWorkflowLaunch::LoadFailed(e) => r matches Err(m) && m@ == "Failed to load sub-workflow template: "@ + e@,
                SubWorkflowLaunch::CreateFailed(e) => r matches Err(m) && m@ == "Failed to create sub-workflow instance: "@ + e@,
                SubWorkflowLaunch::Created(child) => r matches Ok(run) && {
                    &&& run.result.status == NodeExecutionStatus::Suspended
                    &&& run.result.dispatch_jobs@.len() == 0
                    &&& run.result.dispatch_workflow_jobs@.len() == 1
                    &&& run.result.dispatch_workflow_jobs@[0].workflow_instance_id@ == child@
                    &&& run.result.dispatch_workflow_jobs@[0].tenant_id@ == tenant_id@
                    &&& run.result.dispatch_workflow_jobs@[0].event is Start
                    &&& run.result.jump_to_node is None
                    &&& run.input.workflow_meta_id == template.workflow_meta_id
                    &&& run.input.workflow_version == template.workflow_version
                    &&& run.input.child_context == child_context
                    &&& run.output.child_workflow_instance_id == child
                },
            },
    {
        match launch {
            SubWorkflowLaunch::LoadFailed(e) => Err(prefixed("Failed to load sub-workflow template: ", e.as_str())),
            SubWorkflowLaunch::CreateFailed(e) => Err(prefixed("Failed to create sub-workflow instance: ", e.as_str())),
            SubWorkflowLaunch::Created(child) => {
                let output = SubWorkflowOutput { child_workflow_instance_id: child.clone() };
                let job = ExecuteWorkflowJob {
                    workflow_instance_id: child,
                    tenant_id: tenant_id.to_owned(),
                    event: WorkflowEvent::Start,
                };
                let input = SubWorkflowInput {
                    workflow_meta_id: template.workflow_meta_id.clone(),
                    workflow_version: template.workflow_version,
                    child_context,
                };
                Ok(SubWorkflowRun { result: ExecutionResult::async_dispatch_workflow(job), input, output })
            },
        }
    }
}

/// What a SubWorkflow node records as its input once its child exists.
#[derive(Debug, Clone)]
pub struct SubWorkflowInput<P> {
    pub workflow_meta_id: String,
    pub workflow_version: u32,
    /// The context the child started with (`None`: not an object).
    pub child_context: Option<Vec<ContextEntry<P>>>,
}

/// What a SubWorkflow node records as its output once its child exists.
#[derive(Debug, Clone)]
pub struct SubWorkflowOutput {
    pub child_workflow_instance_id: String,
}

/// A launched SubWorkflow node: its result and the records it writes.
#[derive(Debug, Clone)]
pub struct SubWorkflowRun<P> {
    pub result: ExecutionResult<P>,
    pub input: SubWorkflowInput<P>,
    pub output: SubWorkflowOutput,
}

/// The name of a task type.
pub open spec fn task_type_name(t: TaskType) -> Seq<char> {
    match t {
        TaskType::Http => "Http"@,
        TaskType::IfCondition => "IfCondition"@,
        TaskType::ContextRewrite => "ContextRewrite"@,
        TaskType::Parallel => "Parallel"@,
        TaskType::ForkJoin => "ForkJoin"@,
        TaskType::SubWorkflow => "SubWorkflow"@,
        TaskType::Grpc => "Grpc"@,
        TaskType::Approval => "Approval"@,
        TaskType::Llm => "Llm"@,
        TaskType::Pause => "Pause"@,
    }
}

/// The name of a task type, as text.
pub fn task_type_label(t: TaskType) -> (s: &'static str)
    ensures
        s@ == task_type_name(t),
{
    match t {
        TaskType::Http => "Http",
        TaskType::IfCondition => "IfCondition",
        TaskType::ContextRewrite => "ContextRewrite",
        TaskType::Parallel => "Parallel",
        TaskType::ForkJoin => "ForkJoin",
        TaskType::SubWorkflow => "SubWorkflow",
        TaskType::Grpc => "Grpc",
        TaskType::Approval => "Approval",
        TaskType::Llm => "Llm",
        TaskType::Pause => "Pause",
    }
}

/// Suspends the workflow until a timer runs out (and, in manual mode, a person
/// confirms).
pub struct PausePlugin {}

impl PausePlugin {
    pub fn new() -> (p: Self) {
        PausePlugin {}
    }

    pub fn plugin_type(&self) -> (t: TaskType)
        ensures
            t == TaskType::Pause,
    {
        TaskType::Pause
    }

    /// Suspend the node; it may resume `wait_seconds` after `now` (Unix
    /// seconds), which is returned with the result.
    pub fn execute_at<P>(&self, template: &TaskTemplate, now: i64) -> (r: Result<(ExecutionResult<P>, i64), String>)
        requires
            template matches TaskTemplate::Pause(t) ==> t.wait_seconds <= i64::MAX / 1000 && now + t.wait_seconds <= i64::MAX,
        ensures
            match *template {
                TaskTemplate::Pause(t) => r matches Ok((res, resume_at))
                    && plain_result(res, NodeExecutionStatus::Suspended)
                    && resume_at == now + t.wait_seconds,
                _ => r matches Err(m) && m@ == "Invalid template for PausePlugin: "@ + task_type_name(crate::template::template_type(*template)),
            },
    {
        match template {
            TaskTemplate::Pause(t) => {
                let resume_at = now + t.wait_seconds as i64;
                Ok((ExecutionResult::suspended(), resume_at))
            },
            _ => {
                let name = task_type_label(template.task_type());
                Err(prefixed("Invalid template for PausePlugin: ", name))
            },
        }
    }

    /// Suspend the node from now on: as `execute_at`, for the time the clock
    /// gave (which time that was is not known here; it is one the clock can
    /// give).
    pub fn execute<P>(&self, template: &TaskTemplate) -> (r: Result<(ExecutionResult<P>, i64), String>)
        requires
            template matches TaskTemplate::Pause(t) ==> t.wait_seconds <= i64::MAX / 1000,
        ensures
            match *template {
                TaskTemplate::Pause(t) => r matches Ok((res, resume_at))
                    && plain_result(res, NodeExecutionStatus::Suspended)
                    && exists|now: i64| #[trigger] clock_reading(now) && resume_at == now + t.wait_seconds,
                _ => r matches Err(m) && m@ == "Invalid template for PausePlugin: "@ + task_type_name(crate::template::template_type(*template)),
            },
    {
        let now = now_unix_seconds();
        let r = self.execute_at(template, now);
        assert(clock_reading(now));
        assert(template matches TaskTemplate::Pause(t) ==> (r matches Ok((_, resume_at)) && resume_at == now + t.wait_seconds));
        r
    }
}

/// A time in Unix seconds that the clock can give (`now_unix_seconds`).
pub open spec fn clock_reading(now: i64) -> bool {
    0 <= now < 10_000_000_000_000
}

/// Asks people to approve before the workflow continues.
pub struct ApprovalPlugin {}

impl ApprovalPlugin {
    pub fn new() -> (p: Self) {
        ApprovalPlugin {}
    }

    pub fn plugin_type(&self) -> (t: TaskType)
        ensures
            t == TaskType::Approval,
    {
        TaskType::Approval
    }

    /// Once the approval record was created (`Ok`) the node is suspended until
    /// its decision arrives; a template of another kind, or a failure to
    /// create the record, is an error.
    pub fn execute<P>(&self, template: &TaskTemplate, created: Result<(), String>) -> (r: Result<ExecutionResult<P>, String>)
        ensures
            match *template {
                TaskTemplate::Approval(_) => match created {
                    Ok(()) => r matches Ok(res) && plain_result(res, NodeExecutionStatus::Suspended),
                    Err(e) => r matches Err(m) && m@ == "Failed to create approval instance: "@ + e@,
                },
                _ => r matches Err(m) && m@ == invalid_template_message("ApprovalPlugin"@),
            },
    {
        match template {
            TaskTemplate::Approval(_) => match created {
                Ok(()) => Ok(ExecutionResult::suspended()),
                Err(e) => Err(prefixed("Failed to create approval instance: ", e.as_str())),
            },
            _ => Err(invalid_template("ApprovalPlugin")),
        }
    }

    /// The decision on an approval arrives: the node keeps the error, its task
    /// keeps input, output and error; Success completes the node, Skipped
    /// skips it, Failed fails it, anything else leaves it pending.
    pub fn handle_callback<P>(
        &self,
        node: &mut NodeInstance<P>,
        status: NodeExecutionStatus,
        output: Option<P>,
        error_message: Option<String>,
        input: Option<P>,
    ) -> (r: ExecutionResult<P>)
        ensures
            final(node).error_message == error_message,
            final(node).task.input == input,
            final(node).task.output == output,
            final(node).task.error_message == error_message,
            final(node).status == old(node).status,
            final(node).node_id == old(node).node_id,
            final(node).next_node == old(node).next_node,
            plain_result(r, match status {
                NodeExecutionStatus::Success => NodeExecutionStatus::Success,
                NodeExecutionStatus::Skipped => NodeExecutionStatus::Skipped,
                NodeExecutionStatus::Failed => NodeExecutionStatus::Failed,
                _ => NodeExecutionStatus::Pending,
            }),
    {
        node.error_message = match &error_message {
            Some(s) => Some(s.clone()),
            None => None,
        };
        node.task.input = input;
        node.task.output = output;
        node.task.error_message = error_message;
        match status {
            NodeExecutionStatus::Success => ExecutionResult::success(None),
            NodeExecutionStatus::Skipped => ExecutionResult::skipped(None),
            NodeExecutionStatus::Failed => ExecutionResult::failed(),
            _ => ExecutionResult::pending(),
        }
    }
}

} // verus!

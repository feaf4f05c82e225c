use workflow::engine::{
    default_handle_callback, child_task_row, ChildInput, apply_exec_effects, effect_step, ApplyEffect, EffectProgress,
    apply_exec_result, bump_epoch, callback_target, continue_after_callback, enrich_callback_from_task_store,
    ensure_task_instance_for_job, lock_failed_error, node_index_for_id, notify_parent_if_needed,
    prepare_instance_for_node_callback, workflow_loop_tick, CallbackPayload, CallbackPrep, EnsureTaskAction,
    InstanceTransition, LoopAction, NodeInstance, PluginRegistry, TaskRecord, TickAction, WorkflowInstance,
};
use workflow::jobs::{ExecuteTaskJob, ExecutionResult, WorkflowCallerContext, WorkflowEvent};
use workflow::status::{NodeExecutionStatus, TaskInstanceStatus, TaskType, WorkflowInstanceStatus};
use workflow::template::{ForkJoinTaskItem, ForkJoinTemplate, ParallelMode, ParallelTemplate, TaskTemplate};

fn task(id: &str) -> TaskRecord<String> {
    TaskRecord {
        id: id.to_string(),
        tenant_id: "t1".to_string(),
        caller_context: None,
        task_id: String::new(),
        task_type: TaskType::Http,
        template: TaskTemplate::Http,
        status: TaskInstanceStatus::Pending,
        input: None,
        output: None,
        error_message: None,
    }
}

fn node(id: &str, status: NodeExecutionStatus, next: Option<&str>) -> NodeInstance<String> {
    NodeInstance {
        node_id: id.to_string(),
        node_type: TaskType::Http,
        status,
        next_node: next.map(|s| s.to_string()),
        error_message: None,
        output: None,
        task: task(&format!("ti-{}", id)),
    }
}

fn instance(nodes: Vec<NodeInstance<String>>) -> WorkflowInstance<String> {
    WorkflowInstance {
        workflow_instance_id: "wf1".to_string(),
        tenant_id: "t1".to_string(),
        workflow_meta_id: "m1".to_string(),
        status: WorkflowInstanceStatus::Running,
        current_node: "a".to_string(),
        nodes,
        parent_context: None,
        depth: 0,
        epoch: 7,
        updated_at: 0,
    }
}

#[test]
fn success_moves_to_next_node() {
    let mut wf = instance(vec![node("a", NodeExecutionStatus::Running, Some("b")), node("b", NodeExecutionStatus::Pending, None)]);
    let r = apply_exec_result(&mut wf, 0, &ExecutionResult::success(None));
    assert_eq!(r, (LoopAction::Advance, None));
    assert_eq!(wf.current_node, "b");
    assert_eq!(wf.nodes[0].status, NodeExecutionStatus::Success);
    assert_eq!(wf.status, WorkflowInstanceStatus::Running);
}

#[test]
fn jump_overrides_next_node() {
    let mut wf = instance(vec![node("a", NodeExecutionStatus::Running, Some("b")), node("c", NodeExecutionStatus::Pending, None)]);
    let r = apply_exec_result(&mut wf, 0, &ExecutionResult::success(Some("c".to_string())));
    assert_eq!(r, (LoopAction::Advance, None));
    assert_eq!(wf.current_node, "c");
    assert_eq!(wf.nodes[0].next_node.as_deref(), Some("c"));
}

#[test]
fn last_node_success_completes_instance() {
    let mut wf = instance(vec![node("a", NodeExecutionStatus::Running, None)]);
    let r = apply_exec_result(&mut wf, 0, &ExecutionResult::skipped(None));
    assert_eq!(r, (LoopAction::Done, Some(InstanceTransition::Complete)));
    assert_eq!(wf.status, WorkflowInstanceStatus::Completed);
}

#[test]
fn failed_node_fails_instance() {
    let mut wf = instance(vec![node("a", NodeExecutionStatus::Running, Some("b"))]);
    let r = apply_exec_result(&mut wf, 0, &ExecutionResult::failed());
    assert_eq!(r, (LoopAction::Done, Some(InstanceTransition::Fail)));
    assert_eq!(wf.status, WorkflowInstanceStatus::Failed);
    assert_eq!(wf.current_node, "a");
}

#[test]
fn suspended_without_jobs_suspends_instance() {
    let mut wf = instance(vec![node("a", NodeExecutionStatus::Running, None)]);
    let r = apply_exec_result(&mut wf, 0, &ExecutionResult::suspended());
    assert_eq!(r, (LoopAction::Done, Some(InstanceTransition::Suspend)));
    assert_eq!(wf.status, WorkflowInstanceStatus::Suspended);
}

#[test]
fn dispatching_node_makes_instance_await() {
    let mut wf = instance(vec![node("a", NodeExecutionStatus::Running, None)]);
    let job = ExecuteTaskJob { task_instance_id: "wf1-a".to_string(), tenant_id: "t1".to_string(), caller_context: None };
    let r = apply_exec_result(&mut wf, 0, &ExecutionResult::async_dispatch(job));
    assert_eq!(r, (LoopAction::Done, Some(InstanceTransition::Await)));
    assert_eq!(wf.nodes[0].status, NodeExecutionStatus::Suspended);
    assert_eq!(wf.status, WorkflowInstanceStatus::Await);
}

#[test]
fn await_status_retries_loop() {
    let mut wf = instance(vec![node("a", NodeExecutionStatus::Running, None)]);
    let r = apply_exec_result(&mut wf, 0, &ExecutionResult::async_dispatch_multiple(Vec::new()));
    assert_eq!(r, (LoopAction::Retry, None));
    assert_eq!(wf.status, WorkflowInstanceStatus::Running);
}

#[test]
fn pending_with_jobs_awaits() {
    let mut wf = instance(vec![node("a", NodeExecutionStatus::Running, None)]);
    let mut res: ExecutionResult<String> = ExecutionResult::pending();
    res.dispatch_jobs.push(ExecuteTaskJob { task_instance_id: "x".to_string(), tenant_id: "t1".to_string(), caller_context: None });
    let r = apply_exec_result(&mut wf, 0, &res);
    assert_eq!(r, (LoopAction::Done, Some(InstanceTransition::Await)));
    assert_eq!(wf.status, WorkflowInstanceStatus::Await);
}

#[test]
fn tick_runs_pending_node() {
    let mut wf = instance(vec![node("a", NodeExecutionStatus::Pending, None)]);
    assert_eq!(workflow_loop_tick(&mut wf, 0), TickAction::SaveAndRunNode);
    assert_eq!(wf.nodes[0].status, NodeExecutionStatus::Running);
}

#[test]
fn tick_outcomes() {
    let mut wf = instance(vec![node("a", NodeExecutionStatus::Success, Some("b"))]);
    assert_eq!(workflow_loop_tick(&mut wf, 0), TickAction::SaveAndContinue);
    assert_eq!(wf.current_node, "b");
    let mut wf = instance(vec![node("a", NodeExecutionStatus::Success, None)]);
    assert_eq!(workflow_loop_tick(&mut wf, 0), TickAction::CompleteAndStop);
    let mut wf = instance(vec![node("a", NodeExecutionStatus::Failed, None)]);
    assert_eq!(workflow_loop_tick(&mut wf, 0), TickAction::FailAndStop);
    let mut wf = instance(vec![node("a", NodeExecutionStatus::Await, None)]);
    assert_eq!(workflow_loop_tick(&mut wf, 0), TickAction::Stop);
}

#[test]
fn epoch_moves_on_by_one() {
    let mut wf = instance(vec![]);
    bump_epoch(&mut wf, 1234);
    assert_eq!(wf.epoch, 8);
    assert_eq!(wf.updated_at, 1234);
}

#[test]
fn callback_preparation_by_status() {
    assert_eq!(prepare_instance_for_node_callback(WorkflowInstanceStatus::Await), CallbackPrep::WakeStartReload);
    assert_eq!(prepare_instance_for_node_callback(WorkflowInstanceStatus::Suspended), CallbackPrep::ResumeStartReload);
    assert_eq!(prepare_instance_for_node_callback(WorkflowInstanceStatus::Pending), CallbackPrep::StartReload);
    assert_eq!(prepare_instance_for_node_callback(WorkflowInstanceStatus::Running), CallbackPrep::Ready);
    assert_eq!(prepare_instance_for_node_callback(WorkflowInstanceStatus::Completed), CallbackPrep::Ignore);
}

#[test]
fn callback_target_sets_current_node() {
    let mut wf = instance(vec![node("a", NodeExecutionStatus::Await, None), node("b", NodeExecutionStatus::Await, None)]);
    assert_eq!(callback_target(&mut wf, "b"), Some(1));
    assert_eq!(wf.current_node, "b");
    assert_eq!(callback_target(&mut wf, "zz"), None);
    assert_eq!(wf.current_node, "b");
    assert!(continue_after_callback(LoopAction::Retry));
    assert!(!continue_after_callback(LoopAction::Done));
}

#[test]
fn missing_node_is_reported() {
    let wf = instance(vec![node("a", NodeExecutionStatus::Await, None)]);
    assert_eq!(node_index_for_id(&wf.nodes, "a"), Ok(0));
    assert_eq!(node_index_for_id(&wf.nodes, "q"), Err("node not found: q".to_string()));
    assert_eq!(lock_failed_error("wf1", "busy"), "failed to acquire lock for instance wf1: busy");
}

#[test]
fn enrichment_prefers_store_status() {
    let payload = CallbackPayload { status: NodeExecutionStatus::Success, output: None, error_message: Some("e".to_string()), input: None };
    let mut stored = task("c1");
    stored.status = TaskInstanceStatus::Failed;
    stored.output = Some("out".to_string());
    stored.error_message = Some("stored".to_string());
    let r = enrich_callback_from_task_store(payload, Some(stored));
    assert_eq!(r.status, NodeExecutionStatus::Failed);
    assert_eq!(r.output.as_deref(), Some("out"));
    assert_eq!(r.error_message.as_deref(), Some("e"));
}

#[test]
fn enrichment_keeps_skip() {
    let payload: CallbackPayload<String> = CallbackPayload { status: NodeExecutionStatus::Skipped, output: None, error_message: None, input: None };
    let mut stored = task("c1");
    stored.status = TaskInstanceStatus::Completed;
    let r = enrich_callback_from_task_store(payload, Some(stored));
    assert_eq!(r.status, NodeExecutionStatus::Skipped);
}

#[test]
fn finished_child_notifies_parent() {
    let parent = WorkflowCallerContext {
        workflow_instance_id: "parent".to_string(),
        node_id: "sub".to_string(),
        parent_task_instance_id: None,
        item_index: None,
    };
    let job = notify_parent_if_needed(WorkflowInstanceStatus::Completed, Some(&parent), "child", "t1", "ctx".to_string()).unwrap();
    assert_eq!(job.workflow_instance_id, "parent");
    match job.event {
        WorkflowEvent::NodeCallback { node_id, child_task_id, status, output, .. } => {
            assert_eq!(node_id, "sub");
            assert_eq!(child_task_id, "child");
            assert_eq!(status, NodeExecutionStatus::Success);
            assert_eq!(output.as_deref(), Some("ctx"));
        }
        WorkflowEvent::Start => panic!("expected a callback"),
    }
    assert!(notify_parent_if_needed(WorkflowInstanceStatus::Running, Some(&parent), "child", "t1", "ctx".to_string()).is_none());
    assert!(notify_parent_if_needed::<String>(WorkflowInstanceStatus::Failed, None, "child", "t1", "ctx".to_string()).is_none());
}

#[test]
fn task_row_handling() {
    assert_eq!(ensure_task_instance_for_job(None, TaskType::Http), EnsureTaskAction::Create);
    assert_eq!(ensure_task_instance_for_job(Some((TaskInstanceStatus::Completed, TaskType::Llm)), TaskType::Http), EnsureTaskAction::LeaveTerminal);
    assert_eq!(ensure_task_instance_for_job(Some((TaskInstanceStatus::Pending, TaskType::Llm)), TaskType::Http), EnsureTaskAction::CorrectType);
    assert_eq!(ensure_task_instance_for_job(Some((TaskInstanceStatus::Failed, TaskType::Http)), TaskType::Http), EnsureTaskAction::Keep);
}

#[test]
fn registered_plugin_is_found() {
    let mut reg = PluginRegistry::new();
    assert_eq!(reg.lookup(TaskType::Http), Err("no plugin registered for task type: Http".to_string()));
    reg.register(TaskType::Http);
    reg.register(TaskType::Http);
    assert_eq!(reg.lookup(TaskType::Http), Ok(()));
    assert!(reg.lookup(TaskType::Pause).is_err());
}

fn fork_instance() -> WorkflowInstance<String> {
    let mut n = node("fj", NodeExecutionStatus::Running, None);
    n.task.task_id = "parent-task".to_string();
    n.task.template = TaskTemplate::ForkJoin(ForkJoinTemplate {
        tasks: vec![
            ForkJoinTaskItem { task_key: "a".to_string(), task_id: Some("task-a".to_string()), name: "a".to_string(), task_template: TaskTemplate::Llm },
            ForkJoinTaskItem { task_key: "b".to_string(), task_id: None, name: "b".to_string(), task_template: TaskTemplate::Http },
        ],
        concurrency: 2,
        mode: ParallelMode::Rolling,
        max_failures: None,
    });
    instance(vec![n])
}

fn child_job(index: Option<usize>) -> ExecuteTaskJob {
    ExecuteTaskJob {
        task_instance_id: "wf1-fj-1".to_string(),
        tenant_id: "t7".to_string(),
        caller_context: Some(WorkflowCallerContext {
            workflow_instance_id: "wf1".to_string(),
            node_id: "fj".to_string(),
            parent_task_instance_id: Some("ti-fj".to_string()),
            item_index: index,
        }),
    }
}

#[test]
fn child_rows_of_a_fork_join() {
    let wf = fork_instance();
    let (row, plan) = child_task_row(&wf, 0, &child_job(Some(1)), false).unwrap();
    assert_eq!(row.id, "wf1-fj-1");
    assert_eq!(row.tenant_id, "t7");
    assert_eq!(row.status, TaskInstanceStatus::Pending);
    assert_eq!(row.task_type, TaskType::Http);
    assert!(matches!(row.template, TaskTemplate::Http));
    assert_eq!(row.task_id, "parent-task");
    assert_eq!(row.caller_context.as_ref().unwrap().item_index, Some(1));
    assert!(row.input.is_none());
    assert_eq!(plan, ChildInput::ResolveWithNodeContext);
    let (row, plan) = child_task_row(&wf, 0, &child_job(Some(0)), false).unwrap();
    assert_eq!(row.task_id, "task-a");
    assert_eq!(row.task_type, TaskType::Llm);
    assert!(matches!(row.template, TaskTemplate::Llm));
    assert_eq!(plan, ChildInput::ResolveWithNodeContext);
    assert_eq!(
        child_task_row(&wf, 0, &child_job(Some(5)), false).unwrap_err(),
        "ForkJoin item_index 5 out of range (len 2)"
    );
    assert_eq!(
        child_task_row(&wf, 0, &child_job(None), false).unwrap_err(),
        "ForkJoin dispatch job missing item_index in caller_context"
    );
}

fn parallel_over(inner: TaskTemplate) -> TaskTemplate {
    TaskTemplate::Parallel(ParallelTemplate {
        items_path: "items".to_string(),
        item_alias: "item".to_string(),
        task_template: Box::new(inner),
        concurrency: 1,
        mode: ParallelMode::Batch,
        max_failures: None,
    })
}

#[test]
fn child_row_input_plans() {
    let mut wf = instance(vec![node("h", NodeExecutionStatus::Running, None)]);
    let (row, plan) = child_task_row(&wf, 0, &child_job(None), true).unwrap();
    assert_eq!(plan, ChildInput::ParentInput);
    assert!(matches!(row.template, TaskTemplate::Http));
    assert_eq!(row.task_type, TaskType::Http);
    let (_, plan) = child_task_row(&wf, 0, &child_job(None), false).unwrap();
    assert_eq!(plan, ChildInput::ResolveWithNodeContext);
    wf.nodes[0].task.template = parallel_over(TaskTemplate::Llm);
    let (row, plan) = child_task_row(&wf, 0, &child_job(Some(3)), false).unwrap();
    assert_eq!(plan, ChildInput::ResolveWithItem(3));
    assert_eq!(row.task_type, TaskType::Llm);
    assert!(matches!(row.template, TaskTemplate::Llm));
    wf.nodes[0].task.template = parallel_over(TaskTemplate::Grpc);
    let (row, plan) = child_task_row(&wf, 0, &child_job(None), false).unwrap();
    assert_eq!(plan, ChildInput::NoInput);
    assert_eq!(row.task_type, TaskType::Grpc);
    wf.nodes[0].task.template = TaskTemplate::Llm;
    wf.nodes[0].task.task_type = TaskType::Llm;
    wf.nodes[0].task.input = Some("resolved".to_string());
    let (_, plan) = child_task_row(&wf, 0, &child_job(None), false).unwrap();
    assert_eq!(plan, ChildInput::ParentInput);
}

#[test]
fn effects_save_before_rows_and_dispatch() {
    let mut res: ExecutionResult<String> = ExecutionResult::pending();
    res.dispatch_jobs.push(ExecuteTaskJob { task_instance_id: "x".to_string(), tenant_id: "t1".to_string(), caller_context: None });
    res.dispatch_jobs.push(ExecuteTaskJob { task_instance_id: "y".to_string(), tenant_id: "t1".to_string(), caller_context: None });
    let plan = apply_exec_effects(&res, Some(InstanceTransition::Await));
    assert_eq!(
        plan,
        vec![
            ApplyEffect::Transition(InstanceTransition::Await),
            ApplyEffect::SaveAndBumpEpoch,
            ApplyEffect::EnsureTaskRow(0),
            ApplyEffect::EnsureTaskRow(1),
            ApplyEffect::DispatchTask(0),
            ApplyEffect::DispatchTask(1),
        ]
    );
}

#[test]
fn effects_of_plain_advance_only_save() {
    let res: ExecutionResult<String> = ExecutionResult::success(None);
    assert_eq!(apply_exec_effects(&res, None), vec![ApplyEffect::SaveAndBumpEpoch]);
}

#[test]
fn effects_stop_at_first_failure() {
    assert_eq!(effect_step(4, 0, true), EffectProgress::Next(1));
    assert_eq!(effect_step(4, 2, false), EffectProgress::Stopped(2));
    assert_eq!(effect_step(4, 3, true), EffectProgress::Done);
}

#[test]
fn plain_callback_records_output() {
    let mut n = node("a", NodeExecutionStatus::Await, None);
    let r = default_handle_callback(&mut n, NodeExecutionStatus::Success, Some("out".to_string()), None, Some("in".to_string()));
    assert_eq!(r.status, NodeExecutionStatus::Success);
    assert_eq!(n.output.as_deref(), Some("out"));
    assert_eq!(n.task.output.as_deref(), Some("out"));
    assert_eq!(n.task.input.as_deref(), Some("in"));
    let r = default_handle_callback(&mut n, NodeExecutionStatus::Failed, None, Some("boom".to_string()), None);
    assert_eq!(r.status, NodeExecutionStatus::Failed);
    assert!(n.output.is_none());
    assert_eq!(n.error_message.as_deref(), Some("boom"));
    let r = default_handle_callback(&mut n, NodeExecutionStatus::Running, None, None, None);
    assert_eq!(r.status, NodeExecutionStatus::Pending);
}

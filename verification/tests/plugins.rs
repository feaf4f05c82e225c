use workflow::engine::{NodeInstance, TaskRecord};
use workflow::jobs::WorkflowEvent;
use workflow::plugins::{
    apply_context_rewrite, context_keys, ApprovalPlugin, ContextEntry, ContextRewritePlugin, HttpPlugin,
    IfConditionPlugin, LlmPlugin, PausePlugin, ScriptError, SubWorkflowLaunch, SubWorkflowPlugin,
};
use workflow::status::{NodeExecutionStatus, TaskInstanceStatus, TaskType};
use workflow::template::{
    ApprovalMode, ApprovalTemplate, ContextRewriteTemplate, IfConditionTemplate, MergeMode, PauseMode,
    PauseTemplate, SubWorkflowTemplate, TaskTemplate,
};

fn entry(k: &str, v: i32) -> ContextEntry<i32> {
    ContextEntry { key: k.to_string(), value: v }
}

fn value_of(ctx: &[ContextEntry<i32>], k: &str) -> Option<i32> {
    ctx.iter().find(|e| e.key == k).map(|e| e.value)
}

#[test]
fn http_and_llm_dispatch_one_child() {
    assert_eq!(HttpPlugin::new().plugin_type(), TaskType::Http);
    let r = HttpPlugin::new().execute::<String>("wf1", "n1");
    assert_eq!(r.status, NodeExecutionStatus::Suspended);
    assert_eq!(r.dispatch_jobs.len(), 1);
    assert_eq!(r.dispatch_jobs[0].task_instance_id, "wf1-n1");
    assert_eq!(r.dispatch_jobs[0].tenant_id, "default");
    let r = LlmPlugin::new().execute::<String>("wf1", "t9", "n2");
    assert_eq!(r.dispatch_jobs[0].task_instance_id, "wf1-n2");
    assert_eq!(r.dispatch_jobs[0].tenant_id, "t9");
    assert_eq!(r.dispatch_jobs[0].caller_context.as_ref().unwrap().node_id, "n2");
}

#[test]
fn if_condition_picks_branch() {
    let t = TaskTemplate::IfCondition(IfConditionTemplate {
        name: "check".to_string(),
        condition: "x > 1".to_string(),
        then_task: Some("yes".to_string()),
        else_task: None,
    });
    let p = IfConditionPlugin::new();
    let run = p.execute::<String>(&t, Ok(true)).unwrap();
    assert_eq!(run.result.status, NodeExecutionStatus::Success);
    assert_eq!(run.result.jump_to_node.as_deref(), Some("yes"));
    assert_eq!(run.input.condition, "x > 1");
    assert_eq!(run.input.name, "check");
    assert!(run.output.if_condition_result);
    assert_eq!(run.output.next_node.as_deref(), Some("yes"));
    assert_eq!(run.output.then_task.as_deref(), Some("yes"));
    assert_eq!(run.output.else_task, None);
    assert_eq!(run.output.condition, "x > 1");
    let run = p.execute::<String>(&t, Ok(false)).unwrap();
    assert_eq!(run.result.jump_to_node, None);
    assert!(!run.output.if_condition_result);
    assert_eq!(run.output.next_node, None);
    let e = p.execute::<String>(&t, Err("bad token".to_string())).unwrap_err();
    assert_eq!(e, "Failed to evaluate IfCondition: bad token");
    let e = p.execute::<String>(&TaskTemplate::Http, Ok(true)).unwrap_err();
    assert_eq!(e, "Invalid task template for IfConditionPlugin");
}

#[test]
fn merge_keeps_other_keys_and_overrides() {
    let ctx = vec![entry("a", 1), entry("b", 2)];
    let out = apply_context_rewrite(MergeMode::Merge, Some(ctx), vec![entry("b", 20), entry("c", 3)]);
    assert_eq!(out.len(), 3);
    assert_eq!(value_of(&out, "a"), Some(1));
    assert_eq!(value_of(&out, "b"), Some(20));
    assert_eq!(value_of(&out, "c"), Some(3));
    let keys = context_keys(&out);
    assert_eq!(keys, vec!["a".to_string(), "b".to_string(), "c".to_string()]);
}

#[test]
fn replace_drops_previous_context() {
    let ctx = vec![entry("a", 1)];
    let out = apply_context_rewrite(MergeMode::Replace, Some(ctx), vec![entry("z", 9), entry("z", 10)]);
    assert_eq!(out.len(), 1);
    assert_eq!(value_of(&out, "z"), Some(10));
    let out = apply_context_rewrite(MergeMode::Merge, None, vec![entry("q", 5)]);
    assert_eq!(value_of(&out, "q"), Some(5));
}

#[test]
fn merging_twice_changes_nothing() {
    let once = apply_context_rewrite(MergeMode::Merge, Some(vec![entry("a", 1)]), vec![entry("a", 2), entry("b", 3)]);
    let twice = apply_context_rewrite(MergeMode::Merge, Some(once.clone()), vec![entry("a", 2), entry("b", 3)]);
    assert_eq!(twice.len(), once.len());
    for e in &once {
        assert_eq!(value_of(&twice, &e.key), Some(e.value));
    }
}

#[test]
fn context_rewrite_plugin_results() {
    let t = TaskTemplate::ContextRewrite(ContextRewriteTemplate {
        name: "rw".to_string(),
        script: "#{}".to_string(),
        merge_mode: MergeMode::Merge,
    });
    let p = ContextRewritePlugin::new();
    let mut ctx = Some(vec![entry("a", 1)]);
    let r = p.execute(&t, &mut ctx, Ok(vec![entry("b", 2)])).unwrap();
    assert_eq!(r.status, NodeExecutionStatus::Success);
    assert_eq!(value_of(ctx.as_ref().unwrap(), "b"), Some(2));
    let e = p.execute(&t, &mut ctx, Err(ScriptError::Run("oops".to_string()))).unwrap_err();
    assert_eq!(e, "ContextRewrite script error: oops");
    let e = p.execute(&t, &mut ctx, Err(ScriptError::Compile("syntax".to_string()))).unwrap_err();
    assert_eq!(e, "syntax");
    assert_eq!(ctx.as_ref().unwrap().len(), 2);
    let e = p.execute(&TaskTemplate::Llm, &mut ctx, Ok(vec![])).unwrap_err();
    assert_eq!(e, "Invalid task template for ContextRewritePlugin");
}

#[test]
fn sub_workflow_depth_limit() {
    let t = TaskTemplate::SubWorkflow(SubWorkflowTemplate { workflow_meta_id: "m2".to_string(), workflow_version: 1 });
    assert_eq!(SubWorkflowPlugin::child_depth(&t, 0), Ok(1));
    assert_eq!(SubWorkflowPlugin::child_depth(&t, 9), Ok(10));
    assert_eq!(
        SubWorkflowPlugin::child_depth(&t, 10),
        Err("Sub-workflow nesting depth exceeded maximum (10), possible circular reference".to_string())
    );
    assert_eq!(
        SubWorkflowPlugin::child_depth(&TaskTemplate::Http, 0),
        Err("Invalid task template for SubWorkflowPlugin".to_string())
    );
    let ctx = SubWorkflowPlugin::parent_context("wf1", "sub");
    assert_eq!(ctx.workflow_instance_id, "wf1");
    assert_eq!(ctx.node_id, "sub");
}

#[test]
fn sub_workflow_launch() {
    let t = SubWorkflowTemplate { workflow_meta_id: "m2".to_string(), workflow_version: 3 };
    let ctx = Some(vec![entry("a", 1)]);
    let run = SubWorkflowPlugin::launch(SubWorkflowLaunch::Created("child".to_string()), "t1", &t, ctx).unwrap();
    assert_eq!(run.result.status, NodeExecutionStatus::Suspended);
    assert_eq!(run.result.dispatch_workflow_jobs[0].workflow_instance_id, "child");
    assert_eq!(run.result.dispatch_workflow_jobs[0].tenant_id, "t1");
    assert!(matches!(run.result.dispatch_workflow_jobs[0].event, WorkflowEvent::Start));
    assert_eq!(run.input.workflow_meta_id, "m2");
    assert_eq!(run.input.workflow_version, 3);
    let recorded = run.input.child_context.unwrap();
    assert_eq!(recorded.len(), 1);
    assert_eq!(recorded[0].key, "a");
    assert_eq!(recorded[0].value, 1);
    assert_eq!(run.output.child_workflow_instance_id, "child");
    let e = SubWorkflowPlugin::launch::<i32>(SubWorkflowLaunch::LoadFailed("gone".to_string()), "t1", &t, None).unwrap_err();
    assert_eq!(e, "Failed to load sub-workflow template: gone");
    let e = SubWorkflowPlugin::launch::<i32>(SubWorkflowLaunch::CreateFailed("db".to_string()), "t1", &t, None).unwrap_err();
    assert_eq!(e, "Failed to create sub-workflow instance: db");
}

#[test]
fn pause_sets_resume_time() {
    let t = TaskTemplate::Pause(PauseTemplate { mode: PauseMode::Manual, wait_seconds: 30 });
    let (r, at) = PausePlugin::new().execute_at::<String>(&t, 1000).unwrap();
    assert_eq!(r.status, NodeExecutionStatus::Suspended);
    assert_eq!(at, 1030);
    let (_, at) = PausePlugin::new().execute::<String>(&t).unwrap();
    assert!(at >= 30);
    let e = PausePlugin::new().execute_at::<String>(&TaskTemplate::Grpc, 0).unwrap_err();
    assert_eq!(e, "Invalid template for PausePlugin: Grpc");
}

fn approval_template() -> TaskTemplate {
    TaskTemplate::Approval(ApprovalTemplate {
        name: "a".to_string(),
        title: "t".to_string(),
        description: None,
        approvers: vec![],
        approval_mode: ApprovalMode::All,
        timeout: None,
    })
}

#[test]
fn approval_plugin_suspends_until_decision() {
    let p = ApprovalPlugin::new();
    assert_eq!(p.execute::<String>(&approval_template(), Ok(())).unwrap().status, NodeExecutionStatus::Suspended);
    assert_eq!(
        p.execute::<String>(&approval_template(), Err("no approvers".to_string())).unwrap_err(),
        "Failed to create approval instance: no approvers"
    );
    assert_eq!(p.execute::<String>(&TaskTemplate::Http, Ok(())).unwrap_err(), "Invalid task template for ApprovalPlugin");
}

#[test]
fn approval_callback_maps_status() {
    let p = ApprovalPlugin::new();
    let mut node = NodeInstance {
        node_id: "ap".to_string(),
        node_type: TaskType::Approval,
        status: NodeExecutionStatus::Suspended,
        next_node: None,
        error_message: None,
        output: None,
        task: TaskRecord {
            id: "ti".to_string(),
            tenant_id: "t1".to_string(),
            caller_context: None,
            task_id: String::new(),
            task_type: TaskType::Approval,
            template: approval_template(),
            status: TaskInstanceStatus::Running,
            input: None,
            output: None,
            error_message: None,
        },
    };
    let r = p.handle_callback(&mut node, NodeExecutionStatus::Skipped, Some("o".to_string()), None, None);
    assert_eq!(r.status, NodeExecutionStatus::Skipped);
    assert_eq!(node.task.output.as_deref(), Some("o"));
    let r = p.handle_callback(&mut node, NodeExecutionStatus::Failed, None, Some("Approval rejected".to_string()), None);
    assert_eq!(r.status, NodeExecutionStatus::Failed);
    assert_eq!(node.error_message.as_deref(), Some("Approval rejected"));
    let r = p.handle_callback::<String>(&mut node, NodeExecutionStatus::Running, None, None, None);
    assert_eq!(r.status, NodeExecutionStatus::Pending);
}

#[test]
fn child_context_takes_form_fields() {
    let parent = Some(vec![entry("a", 1), entry("b", 2)]);
    let child = SubWorkflowPlugin::child_context(parent, vec![entry("b", 20), entry("c", 30)]).unwrap();
    assert_eq!(value_of(&child, "a"), Some(1));
    assert_eq!(value_of(&child, "b"), Some(20));
    assert_eq!(value_of(&child, "c"), Some(30));
    assert!(SubWorkflowPlugin::child_context::<i32>(None, vec![entry("x", 1)]).is_none());
    let same = SubWorkflowPlugin::child_context(Some(vec![entry("a", 1)]), vec![]).unwrap();
    assert_eq!(same.len(), 1);
}

use serde_json::Value;
use workflow::container::{ContainerScope, ContainerState, ForkJoinPlugin, ResultEntry, ResultSlot};
use workflow::status::NodeExecutionStatus;
use workflow::template::{ForkJoinTaskItem, ForkJoinTemplate, ParallelMode, TaskTemplate};

fn empty_object() -> Value {
    Value::Object(serde_json::Map::new())
}

fn object_with(key: &str, value: Value) -> Value {
    let mut m = serde_json::Map::new();
    m.insert(key.to_string(), value);
    Value::Object(m)
}

fn forkjoin_template(keys: &[&str], max_failures: Option<u32>) -> TaskTemplate {
    TaskTemplate::ForkJoin(ForkJoinTemplate {
        tasks: keys
            .iter()
            .map(|k| ForkJoinTaskItem {
                task_key: k.to_string(),
                task_id: None,
                name: k.to_string(),
                task_template: TaskTemplate::Http,
            })
            .collect(),
        concurrency: keys.len() as u32,
        mode: ParallelMode::Rolling,
        max_failures,
    })
}

fn scope() -> ContainerScope {
    ContainerScope {
        workflow_instance_id: "wf1".to_string(),
        tenant_id: "t1".to_string(),
        node_id: "fj".to_string(),
        task_instance_id: "ti-fj".to_string(),
    }
}

fn make_state(
    keys: &[&str],
    dispatched: usize,
    success: u64,
    failed: u64,
    skipped: u64,
    processed: Vec<String>,
    results: Vec<ResultSlot<Value>>,
) -> ContainerState<Value> {
    ContainerState {
        total: keys.len() as u64,
        dispatched_count: dispatched as u64,
        success_count: success,
        failed_count: failed,
        skipped_count: skipped,
        processed_callbacks: processed,
        results,
    }
}

fn slot(key: &str, entry: Option<ResultEntry<Value>>) -> ResultSlot<Value> {
    ResultSlot { key: key.to_string(), entry }
}

fn entry(status: NodeExecutionStatus, output: Option<Value>, error: Option<&str>) -> Option<ResultEntry<Value>> {
    Some(ResultEntry { status, output, error: error.map(|e| e.to_string()) })
}

#[test]
fn skipped_callback_counts_as_success_and_records_in_results() {
    let plugin = ForkJoinPlugin::new();
    let keys = &["create_user", "send_email", "log_audit"];
    let results = vec![
        slot("create_user", entry(NodeExecutionStatus::Success, Some(object_with("id", Value::from(1))), None)),
        slot("send_email", None),
        slot("log_audit", None),
    ];
    let mut state = make_state(keys, 3, 1, 0, 0, vec!["wf1-fj-0".into()], results);
    let mut node_error = None;
    let result = plugin
        .handle_callback(&forkjoin_template(keys, None), &scope(), &mut state, &mut node_error, "wf1-fj-1",
            NodeExecutionStatus::Skipped, Some(empty_object()), None)
        .unwrap();
    assert_eq!(state.success_count, 2);
    assert_eq!(state.skipped_count, 1);
    assert_eq!(state.failed_count, 0);
    assert_eq!(result.status, NodeExecutionStatus::Await);
    let e = state.results.iter().find(|s| s.key == "send_email").unwrap().entry.as_ref().unwrap();
    assert_eq!(e.status, NodeExecutionStatus::Skipped);
}

#[test]
fn all_tasks_done_with_skip_completes_forkjoin() {
    let plugin = ForkJoinPlugin::new();
    let keys = &["a", "b"];
    let results = vec![
        slot("a", entry(NodeExecutionStatus::Success, Some(empty_object()), None)),
        slot("b", None),
    ];
    let mut state = make_state(keys, 2, 1, 0, 0, vec!["wf1-fj-0".into()], results);
    let mut node_error = None;
    let result = plugin
        .handle_callback(&forkjoin_template(keys, None), &scope(), &mut state, &mut node_error, "wf1-fj-1",
            NodeExecutionStatus::Skipped, Some(empty_object()), None)
        .unwrap();
    assert_eq!(result.status, NodeExecutionStatus::Success);
    assert_eq!(state.success_count, 2);
    assert_eq!(state.skipped_count, 1);
}

#[test]
fn forkjoin_all_failed_no_max_failures_returns_failed() {
    let plugin = ForkJoinPlugin::new();
    let keys = &["a", "b"];
    let results = vec![
        slot("a", entry(NodeExecutionStatus::Failed, None, Some("err"))),
        slot("b", None),
    ];
    let mut state = make_state(keys, 2, 0, 1, 0, vec!["wf1-fj-0".into()], results);
    let mut node_error = None;
    let result = plugin
        .handle_callback(&forkjoin_template(keys, None), &scope(), &mut state, &mut node_error, "wf1-fj-1",
            NodeExecutionStatus::Failed, None, Some("err".into()))
        .unwrap();
    assert_eq!(result.status, NodeExecutionStatus::Failed);
}

#[test]
fn forkjoin_start_records_task_keys() {
    let plugin = ForkJoinPlugin::new();
    let template = forkjoin_template(&["a", "b", "c"], Some(2));
    let (result, started) = plugin.execute::<Value>(&template, &scope()).unwrap();
    assert_eq!(result.status, NodeExecutionStatus::Await);
    assert_eq!(result.dispatch_jobs.len(), 3);
    let (input, state) = started.unwrap();
    assert_eq!(input.task_keys, vec!["a".to_string(), "b".to_string(), "c".to_string()]);
    assert_eq!(input.concurrency, 3);
    assert_eq!(input.mode, ParallelMode::Rolling);
    assert_eq!(input.max_failures, Some(2));
    assert_eq!(state.total, 3);
    let empty = forkjoin_template(&[], None);
    let (result, started) = plugin.execute::<Value>(&empty, &scope()).unwrap();
    assert_eq!(result.status, NodeExecutionStatus::Success);
    assert!(started.is_none());
}

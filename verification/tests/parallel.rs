use serde_json::Value;
use workflow::container::{items_len_from_lookups, resolve_items_len, ContainerScope, ContainerState, ParallelPlugin, ResultEntry, ResultSlot};
use workflow::outside::PointerHit;
use workflow::status::NodeExecutionStatus;
use workflow::template::{ParallelMode, ParallelTemplate, TaskTemplate};

fn empty_object() -> Value {
    Value::Object(serde_json::Map::new())
}

fn parallel_template(total: usize, max_failures: Option<u32>) -> TaskTemplate {
    TaskTemplate::Parallel(ParallelTemplate {
        items_path: "items".to_string(),
        item_alias: "item".to_string(),
        task_template: Box::new(TaskTemplate::Http),
        concurrency: total as u32,
        mode: ParallelMode::Rolling,
        max_failures,
    })
}

fn scope(node_id: &str) -> ContainerScope {
    ContainerScope {
        workflow_instance_id: "wf1".to_string(),
        tenant_id: "t1".to_string(),
        node_id: node_id.to_string(),
        task_instance_id: format!("ti-{}", node_id),
    }
}

fn make_state(
    node_id: &str,
    total: usize,
    dispatched: usize,
    success: u64,
    failed: u64,
    skipped: u64,
    processed: Vec<String>,
) -> ContainerState<Value> {
    let mut results = Vec::new();
    for i in 0..total {
        results.push(ResultSlot { key: format!("wf1-{}-{}", node_id, i), entry: None });
    }
    ContainerState {
        total: total as u64,
        dispatched_count: dispatched as u64,
        success_count: success,
        failed_count: failed,
        skipped_count: skipped,
        processed_callbacks: processed,
        results,
    }
}

fn entry_of<'a>(state: &'a ContainerState<Value>, key: &str) -> Option<&'a ResultEntry<Value>> {
    state.results.iter().find(|s| s.key == key).and_then(|s| s.entry.as_ref())
}

#[test]
fn skipped_callback_counts_as_success() {
    let plugin = ParallelPlugin::new();
    let template = parallel_template(3, None);
    let mut state = make_state("p", 3, 3, 1, 0, 0, vec!["wf1-p-0".into()]);
    let mut node_error = None;
    let result = plugin
        .handle_callback(&template, &scope("p"), &mut state, &mut node_error, "wf1-p-1",
            NodeExecutionStatus::Skipped, Some(empty_object()), None)
        .unwrap();
    assert_eq!(state.success_count, 2);
    assert_eq!(state.skipped_count, 1);
    assert_eq!(state.failed_count, 0);
    assert_eq!(result.status, NodeExecutionStatus::Await);
}

#[test]
fn all_skipped_completes_parallel() {
    let plugin = ParallelPlugin::new();
    let template = parallel_template(2, None);
    let mut state = make_state("p", 2, 2, 0, 0, 1, vec!["wf1-p-0".into()]);
    state.success_count = 1;
    let mut node_error = None;
    let result = plugin
        .handle_callback(&template, &scope("p"), &mut state, &mut node_error, "wf1-p-1",
            NodeExecutionStatus::Skipped, Some(empty_object()), None)
        .unwrap();
    assert_eq!(result.status, NodeExecutionStatus::Success);
    assert_eq!(state.success_count, 2);
    assert_eq!(state.skipped_count, 2);
}

#[test]
fn duplicate_non_skip_callback_ignored() {
    let plugin = ParallelPlugin::new();
    let template = parallel_template(2, None);
    let mut state = make_state("p", 2, 2, 1, 0, 0, vec!["wf1-p-0".into()]);
    let mut node_error = None;
    let result = plugin
        .handle_callback(&template, &scope("p"), &mut state, &mut node_error, "wf1-p-0",
            NodeExecutionStatus::Success, Some(empty_object()), None)
        .unwrap();
    assert_eq!(result.status, NodeExecutionStatus::Await);
    assert_eq!(state.success_count, 1);
}

#[test]
fn skip_overrides_previous_failed_callback() {
    let plugin = ParallelPlugin::new();
    let template = parallel_template(2, None);
    let mut state = make_state("p", 2, 2, 1, 1, 0, vec!["wf1-p-0".into(), "wf1-p-1".into()]);
    state.results[0].entry = Some(ResultEntry {
        status: NodeExecutionStatus::Failed,
        output: None,
        error: Some("err".to_string()),
    });
    state.results[1].entry = Some(ResultEntry {
        status: NodeExecutionStatus::Success,
        output: Some(empty_object()),
        error: None,
    });
    let mut node_error = None;
    let result = plugin
        .handle_callback(&template, &scope("p"), &mut state, &mut node_error, "wf1-p-0",
            NodeExecutionStatus::Skipped, Some(empty_object()), None)
        .unwrap();
    assert_eq!(result.status, NodeExecutionStatus::Success);
    assert_eq!(state.success_count, 2);
    assert_eq!(state.failed_count, 0);
    assert_eq!(state.skipped_count, 1);
    assert_eq!(entry_of(&state, "wf1-p-0").unwrap().status, NodeExecutionStatus::Skipped);
}

#[test]
fn parallel_all_failed_no_max_failures_returns_failed() {
    let plugin = ParallelPlugin::new();
    let template = parallel_template(2, None);
    let mut state = make_state("p", 2, 2, 0, 1, 0, vec!["wf1-p-0".into()]);
    let mut node_error = None;
    let result = plugin
        .handle_callback(&template, &scope("p"), &mut state, &mut node_error, "wf1-p-1",
            NodeExecutionStatus::Failed, None, Some("error".into()))
        .unwrap();
    assert_eq!(result.status, NodeExecutionStatus::Failed);
}

#[test]
fn all_failed_with_max_failures_equal_returns_failed() {
    let plugin = ParallelPlugin::new();
    let template = parallel_template(2, Some(2));
    let mut state = make_state("p", 2, 2, 0, 1, 0, vec!["wf1-p-0".into()]);
    let mut node_error = None;
    let result = plugin
        .handle_callback(&template, &scope("p"), &mut state, &mut node_error, "wf1-p-1",
            NodeExecutionStatus::Failed, None, Some("error".into()))
        .unwrap();
    assert_eq!(result.status, NodeExecutionStatus::Failed);
}

#[test]
fn some_failures_at_completion_still_fails() {
    let plugin = ParallelPlugin::new();
    let template = parallel_template(3, None);
    let mut state = make_state("p", 3, 3, 2, 0, 0, vec!["wf1-p-0".into(), "wf1-p-1".into()]);
    let mut node_error = None;
    let result = plugin
        .handle_callback(&template, &scope("p"), &mut state, &mut node_error, "wf1-p-2",
            NodeExecutionStatus::Failed, None, Some("error".into()))
        .unwrap();
    assert_eq!(result.status, NodeExecutionStatus::Failed);
}

#[test]
fn failures_exceeding_max_triggers_early_abort() {
    let plugin = ParallelPlugin::new();
    let template = parallel_template(5, Some(1));
    let mut state = make_state("p", 5, 5, 1, 1, 0, vec!["wf1-p-0".into(), "wf1-p-1".into()]);
    let mut node_error = None;
    let result = plugin
        .handle_callback(&template, &scope("p"), &mut state, &mut node_error, "wf1-p-2",
            NodeExecutionStatus::Failed, None, Some("error".into()))
        .unwrap();
    assert_eq!(result.status, NodeExecutionStatus::Failed);
}

#[test]
fn parallel_start_records_input_and_state() {
    let plugin = ParallelPlugin::new();
    let mut template = parallel_template(2, Some(1));
    if let TaskTemplate::Parallel(t) = &mut template {
        t.mode = ParallelMode::Batch;
    }
    let (result, started) = plugin.execute::<Value>(&template, Some(5), &scope("p")).unwrap();
    assert_eq!(result.status, NodeExecutionStatus::Await);
    assert_eq!(result.dispatch_jobs.len(), 2);
    assert_eq!(result.dispatch_jobs[1].task_instance_id, "wf1-p-1");
    let (input, state) = started.unwrap();
    assert_eq!(input.items_path, "items");
    assert_eq!(input.item_alias, "item");
    assert_eq!(input.concurrency, 2);
    assert_eq!(input.mode, ParallelMode::Batch);
    assert_eq!(input.max_failures, Some(1));
    assert_eq!(state.total, 5);
    assert_eq!(state.dispatched_count, 2);
    assert_eq!(state.results.len(), 5);
    assert_eq!(state.results[4].key, "wf1-p-4");
}

#[test]
fn parallel_start_without_items() {
    let plugin = ParallelPlugin::new();
    let template = parallel_template(2, None);
    let (result, started) = plugin.execute::<Value>(&template, Some(0), &scope("p")).unwrap();
    assert_eq!(result.status, NodeExecutionStatus::Success);
    assert!(started.is_none());
    let e = plugin.execute::<Value>(&template, None, &scope("p")).unwrap_err();
    assert_eq!(e, "Items path 'items' did not resolve to a JSON array");
}

fn with_key(key: &str, value: Value) -> Value {
    let mut m = serde_json::Map::new();
    m.insert(key.to_string(), value);
    Value::Object(m)
}

fn numbers(n: i64) -> Value {
    Value::Array((0..n).map(|i| Value::from(i)).collect())
}

#[test]
fn items_found_in_workflow_context_first() {
    let wf = with_key("items", numbers(3));
    let node = with_key("items", numbers(5));
    assert_eq!(resolve_items_len(&wf, &node, "items"), Some(3));
    assert_eq!(resolve_items_len(&wf, &node, "/items"), Some(3));
}

#[test]
fn items_fall_back_to_node_context() {
    let wf = empty_object();
    let node = with_key("data", with_key("list", numbers(4)));
    assert_eq!(resolve_items_len(&wf, &node, "data.list"), Some(4));
    assert_eq!(resolve_items_len(&wf, &node, "missing"), None);
}

#[test]
fn items_that_are_no_array_are_refused() {
    let wf = with_key("items", Value::from(7));
    let node = with_key("items", numbers(2));
    assert_eq!(resolve_items_len(&wf, &node, "items"), None);
    assert_eq!(items_len_from_lookups(Some(PointerHit::NotArray), Some(PointerHit::Array(2))), None);
    assert_eq!(items_len_from_lookups(None, Some(PointerHit::Array(2))), Some(2));
    assert_eq!(items_len_from_lookups(Some(PointerHit::Array(0)), None), Some(0));
    assert_eq!(items_len_from_lookups(None, None), None);
}

#[test]
fn redelivered_callback_is_ignored_even_at_counter_limits() {
    let plugin = ParallelPlugin::new();
    let template = parallel_template(2, None);
    let mut state = make_state("p", 2, 2, u64::MAX, 0, 0, vec!["wf1-p-0".into()]);
    let mut node_error = None;
    let result = plugin
        .handle_callback(&template, &scope("p"), &mut state, &mut node_error, "wf1-p-0",
            NodeExecutionStatus::Success, Some(empty_object()), None)
        .unwrap();
    assert_eq!(result.status, NodeExecutionStatus::Await);
    assert!(result.dispatch_jobs.is_empty());
    assert_eq!(state.success_count, u64::MAX);
    assert!(node_error.is_none());
}

use workflow::approval::{ApprovalInstanceEntity, ApprovalStatus};
use workflow::engine::{NodeInstance, TaskRecord, WorkflowInstance};
use workflow::jobs::WorkflowEvent;
use workflow::status::{NodeExecutionStatus, TaskInstanceStatus, TaskType, WorkflowInstanceStatus};
use workflow::sweeper::{
    await_target, container_callbacks_missing, expired_approval_callback, recover_await_single,
    recover_container_child, restart_job, zombie_recovery, AwaitTarget, ChildRecovery, SweeperConfig,
    ZombieRecovery,
};
use workflow::template::{ApprovalMode, ParallelMode, ParallelTemplate, TaskTemplate};

fn record(status: TaskInstanceStatus) -> TaskRecord<String> {
    TaskRecord {
        id: "x".to_string(),
        tenant_id: "t1".to_string(),
        caller_context: None,
        task_id: String::new(),
        task_type: TaskType::Http,
        template: TaskTemplate::Http,
        status,
        input: Some("in".to_string()),
        output: Some("out".to_string()),
        error_message: Some("boom".to_string()),
    }
}

#[test]
fn sweeper_defaults() {
    let c = SweeperConfig::default();
    assert_eq!(c.interval_secs, 60);
    assert_eq!(c.max_recover_per_cycle, 10);
}

#[test]
fn zombies_are_routed_by_status() {
    assert_eq!(zombie_recovery(WorkflowInstanceStatus::Running), ZombieRecovery::Restart);
    assert_eq!(zombie_recovery(WorkflowInstanceStatus::Await), ZombieRecovery::RecoverAwait);
    assert_eq!(zombie_recovery(WorkflowInstanceStatus::Suspended), ZombieRecovery::Leave);
    let job = restart_job::<String>("wf1", "t1");
    assert_eq!(job.workflow_instance_id, "wf1");
    assert!(matches!(job.event, WorkflowEvent::Start));
}

#[test]
fn finished_single_child_gets_its_callback_again() {
    match recover_await_single("wf1", "t1", "n1", Some(record(TaskInstanceStatus::Failed))) {
        ChildRecovery::Callback(job) => {
            assert_eq!(job.workflow_instance_id, "wf1");
            match job.event {
                WorkflowEvent::NodeCallback { node_id, child_task_id, status, output, error_message, input } => {
                    assert_eq!(node_id, "n1");
                    assert_eq!(child_task_id, "wf1-n1");
                    assert_eq!(status, NodeExecutionStatus::Failed);
                    assert_eq!(output.as_deref(), Some("out"));
                    assert_eq!(error_message.as_deref(), Some("boom"));
                    assert_eq!(input.as_deref(), Some("in"));
                }
                WorkflowEvent::Start => panic!("expected a callback"),
            }
        }
        _ => panic!("expected a callback"),
    }
}

#[test]
fn unfinished_single_child_is_redispatched() {
    for s in [TaskInstanceStatus::Pending, TaskInstanceStatus::Running, TaskInstanceStatus::Canceled] {
        match recover_await_single::<String>("wf1", "t1", "n1", Some(record(s))) {
            ChildRecovery::Redispatch(job) => {
                assert_eq!(job.task_instance_id, "wf1-n1");
                let c = job.caller_context.unwrap();
                assert_eq!(c.node_id, "n1");
                assert_eq!(c.item_index, None);
            }
            _ => panic!("expected a redispatch"),
        }
    }
    assert!(matches!(recover_await_single::<String>("wf1", "t1", "n1", None), ChildRecovery::Restart));
}

#[test]
fn container_children_recovery() {
    assert!(container_callbacks_missing(1, 0, 3));
    assert!(!container_callbacks_missing(2, 1, 3));
    match recover_container_child("wf1", "t1", "p", 2, Some(record(TaskInstanceStatus::Completed)), true) {
        ChildRecovery::Callback(job) => match job.event {
            WorkflowEvent::NodeCallback { child_task_id, status, .. } => {
                assert_eq!(child_task_id, "wf1-p-2");
                assert_eq!(status, NodeExecutionStatus::Success);
            }
            WorkflowEvent::Start => panic!("expected a callback"),
        },
        _ => panic!("expected a callback"),
    }
    assert!(matches!(
        recover_container_child("wf1", "t1", "p", 2, Some(record(TaskInstanceStatus::Completed)), false),
        ChildRecovery::Leave
    ));
    assert!(matches!(recover_container_child::<String>("wf1", "t1", "p", 0, None, true), ChildRecovery::Leave));
    match recover_container_child("wf1", "t1", "p", 1, Some(record(TaskInstanceStatus::Running)), false) {
        ChildRecovery::Redispatch(job) => assert_eq!(job.task_instance_id, "wf1-p-1"),
        _ => panic!("expected a redispatch"),
    }
}

fn wf_with(template: TaskTemplate) -> WorkflowInstance<String> {
    WorkflowInstance {
        workflow_instance_id: "wf1".to_string(),
        tenant_id: "t1".to_string(),
        workflow_meta_id: "m".to_string(),
        status: WorkflowInstanceStatus::Await,
        current_node: "p".to_string(),
        nodes: vec![NodeInstance {
            node_id: "p".to_string(),
            node_type: TaskType::Parallel,
            status: NodeExecutionStatus::Await,
            next_node: None,
            error_message: None,
            output: None,
            task: TaskRecord {
                id: "ti-p".to_string(),
                tenant_id: "t1".to_string(),
                caller_context: None,
                task_id: String::new(),
                task_type: TaskType::Parallel,
                template,
                status: TaskInstanceStatus::Running,
                input: None,
                output: None,
                error_message: None,
            },
        }],
        parent_context: None,
        depth: 0,
        epoch: 0,
        updated_at: 0,
    }
}

#[test]
fn await_target_finds_current_node() {
    let t = TaskTemplate::Parallel(ParallelTemplate {
        items_path: "items".to_string(),
        item_alias: "item".to_string(),
        task_template: Box::new(TaskTemplate::Http),
        concurrency: 1,
        mode: ParallelMode::Batch,
        max_failures: None,
    });
    assert_eq!(await_target(&wf_with(t)).unwrap(), (0, AwaitTarget::Container));
    assert_eq!(await_target(&wf_with(TaskTemplate::Http)).unwrap(), (0, AwaitTarget::Single));
    let mut wf = wf_with(TaskTemplate::Http);
    wf.current_node = "zz".to_string();
    assert_eq!(await_target(&wf).unwrap_err(), "current node zz not found");
}

#[test]
fn expired_approval_reports_failure() {
    let a = ApprovalInstanceEntity {
        id: "ap1".to_string(),
        tenant_id: "t1".to_string(),
        workflow_instance_id: "wf1".to_string(),
        node_id: "n1".to_string(),
        title: "t".to_string(),
        description: None,
        approval_mode: ApprovalMode::Any,
        approvers: vec!["u1".to_string()],
        decisions: vec![],
        status: ApprovalStatus::Rejected,
        created_at: 0,
        updated_at: 0,
        expires_at: Some(10),
        applicant_id: None,
    };
    let job = expired_approval_callback(&a, "record".to_string());
    assert_eq!(job.workflow_instance_id, "wf1");
    match job.event {
        WorkflowEvent::NodeCallback { node_id, child_task_id, status, error_message, .. } => {
            assert_eq!(node_id, "n1");
            assert_eq!(child_task_id, "ap1");
            assert_eq!(status, NodeExecutionStatus::Failed);
            assert_eq!(error_message.as_deref(), Some("approval expired"));
        }
        WorkflowEvent::Start => panic!("expected a callback"),
    }
}

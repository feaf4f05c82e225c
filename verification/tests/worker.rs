use workflow::jobs::{ExecuteTaskJob, WorkflowCallerContext, WorkflowEvent};
use workflow::status::{NodeExecutionStatus, TaskInstanceStatus};
use workflow::worker::{final_task_status, task_failure_callback, task_result_callback, TaskOutcome};

fn job(with_caller: bool) -> ExecuteTaskJob {
    ExecuteTaskJob {
        task_instance_id: "wf1-n1".to_string(),
        tenant_id: "t1".to_string(),
        caller_context: if with_caller {
            Some(WorkflowCallerContext {
                workflow_instance_id: "wf1".to_string(),
                node_id: "n1".to_string(),
                parent_task_instance_id: None,
                item_index: None,
            })
        } else {
            None
        },
    }
}

#[test]
fn terminal_status_of_a_run() {
    assert_eq!(final_task_status(NodeExecutionStatus::Success), TaskInstanceStatus::Completed);
    assert_eq!(final_task_status(NodeExecutionStatus::Failed), TaskInstanceStatus::Failed);
    assert_eq!(final_task_status(NodeExecutionStatus::Pending), TaskInstanceStatus::Failed);
}

#[test]
fn run_error_reports_failure_to_caller() {
    let cb = task_failure_callback::<String>(&job(true), "timeout".to_string()).unwrap();
    assert_eq!(cb.workflow_instance_id, "wf1");
    assert_eq!(cb.tenant_id, "t1");
    match cb.event {
        WorkflowEvent::NodeCallback { node_id, child_task_id, status, error_message, output, .. } => {
            assert_eq!(node_id, "n1");
            assert_eq!(child_task_id, "wf1-n1");
            assert_eq!(status, NodeExecutionStatus::Failed);
            assert_eq!(error_message.as_deref(), Some("timeout"));
            assert!(output.is_none());
        }
        WorkflowEvent::Start => panic!("expected a callback"),
    }
    assert!(task_failure_callback::<String>(&job(false), "timeout".to_string()).is_none());
}

#[test]
fn run_outcome_reaches_caller() {
    let outcome = TaskOutcome {
        status: NodeExecutionStatus::Success,
        output: Some("body".to_string()),
        input: Some("req".to_string()),
        error_message: None,
    };
    let cb = task_result_callback(&job(true), outcome).unwrap();
    match cb.event {
        WorkflowEvent::NodeCallback { status, output, input, error_message, .. } => {
            assert_eq!(status, NodeExecutionStatus::Success);
            assert_eq!(output.as_deref(), Some("body"));
            assert_eq!(input.as_deref(), Some("req"));
            assert!(error_message.is_none());
        }
        WorkflowEvent::Start => panic!("expected a callback"),
    }
}

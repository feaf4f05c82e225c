use workflow::driver::{
    job_begin, job_step, loop_begin, loop_step, sub_workflow_begin, sub_workflow_step, SubWorkflowAction, SubWorkflowReply,
    SubWorkflowStage, sweep_begin, sweep_step, walk_begin, walk_step, JobAction, JobReply,
    JobStage, LoopReply, LoopStage, LoopStep, SweepReply, SweepStage, SweepStep, WalkReply, WalkStage, WalkStep,
};
use workflow::status::WorkflowInstanceStatus;
use workflow::engine::{LoopAction, TickAction};

#[test]
fn job_runs_notifies_and_releases() {
    let (stage, action) = job_begin();
    assert_eq!(action, JobAction::AcquireLock);
    let (stage, action) = job_step(stage, JobReply::LockAcquired);
    assert_eq!(action, JobAction::RunEvent);
    let (stage, action) = job_step(stage, JobReply::RunSucceeded);
    assert_eq!(action, JobAction::NotifyParent);
    let (stage, action) = job_step(stage, JobReply::StepEnded);
    assert_eq!(action, JobAction::ReleaseLock);
    let (stage, action) = job_step(stage, JobReply::StepEnded);
    assert_eq!((stage, action), (JobStage::Finished(JobAction::ReturnOk), JobAction::ReturnOk));
}

#[test]
fn failed_job_still_releases_lock() {
    let (stage, _) = job_step(JobStage::Locking, JobReply::LockAcquired);
    let (stage, action) = job_step(stage, JobReply::RunFailed);
    assert_eq!((stage, action), (JobStage::Releasing { run_ok: false }, JobAction::ReleaseLock));
    let (stage, action) = job_step(stage, JobReply::StepEnded);
    assert_eq!((stage, action), (JobStage::Finished(JobAction::ReturnRunError), JobAction::ReturnRunError));
}

#[test]
fn refused_lock_ends_job() {
    assert_eq!(job_step(JobStage::Locking, JobReply::LockRefused), (JobStage::Finished(JobAction::ReturnLockError), JobAction::ReturnLockError));
    assert_eq!(job_step(JobStage::Running, JobReply::LockAcquired), (JobStage::Running, JobAction::RunEvent));
}

#[test]
fn loop_saves_runs_and_reloads() {
    let (stage, step) = loop_begin();
    assert_eq!(step, LoopStep::ReloadInstance);
    let (stage, step) = loop_step(stage, LoopReply::Reloaded { running: true, node_found: true });
    assert_eq!(step, LoopStep::TickCurrentNode);
    let (stage, step) = loop_step(stage, LoopReply::Ticked(TickAction::SaveAndRunNode));
    assert_eq!(step, LoopStep::SaveAndBumpEpoch);
    let (stage, step) = loop_step(stage, LoopReply::Stored);
    assert_eq!((stage, step), (LoopStage::RunningNode, LoopStep::RunNode));
    let (stage, step) = loop_step(stage, LoopReply::NodeRan(LoopAction::Advance));
    assert_eq!(step, LoopStep::ReloadInstance);
    let (stage, step) = loop_step(stage, LoopReply::Reloaded { running: false, node_found: true });
    assert_eq!((stage, step), (LoopStage::Stopped { ok: true }, LoopStep::ReturnOk));
}

#[test]
fn loop_completes_fails_and_errors() {
    let (stage, step) = loop_step(LoopStage::Ticking, LoopReply::Ticked(TickAction::CompleteAndStop));
    assert_eq!(step, LoopStep::CompleteInstance);
    assert_eq!(loop_step(stage, LoopReply::Stored), (LoopStage::Stopped { ok: true }, LoopStep::ReturnOk));
    let (_, step) = loop_step(LoopStage::Ticking, LoopReply::Ticked(TickAction::FailAndStop));
    assert_eq!(step, LoopStep::FailInstance);
    assert_eq!(
        loop_step(LoopStage::Reloading, LoopReply::Reloaded { running: true, node_found: false }),
        (LoopStage::Stopped { ok: false }, LoopStep::ReturnError)
    );
    assert_eq!(loop_step(LoopStage::RunningNode, LoopReply::Failed), (LoopStage::Stopped { ok: false }, LoopStep::ReturnError));
    let (stage, _) = loop_step(LoopStage::Ticking, LoopReply::Ticked(TickAction::SaveAndContinue));
    assert_eq!(loop_step(stage, LoopReply::Stored), (LoopStage::Reloading, LoopStep::ReloadInstance));
    assert_eq!(loop_step(LoopStage::RunningNode, LoopReply::NodeRan(LoopAction::Done)), (LoopStage::Stopped { ok: true }, LoopStep::ReturnOk));
}

#[test]
fn sweep_cycle_counts_each_instance_once() {
    let (c, step) = sweep_begin();
    assert_eq!(step, SweepStep::ScanZombies);
    let (c, step) = sweep_step(c, SweepReply::Scanned(3));
    assert_eq!(step, SweepStep::ForceClearLock(0));
    let (c, step) = sweep_step(c, SweepReply::CasFailed);
    assert_eq!(step, SweepStep::ForceClearLock(1));
    let (c, step) = sweep_step(c, SweepReply::Cleared(WorkflowInstanceStatus::Running));
    assert_eq!(step, SweepStep::RecoverRunning(1));
    let (c, step) = sweep_step(c, SweepReply::Recovered(true));
    assert_eq!(step, SweepStep::ForceClearLock(2));
    let (c, step) = sweep_step(c, SweepReply::Cleared(WorkflowInstanceStatus::Await));
    assert_eq!(step, SweepStep::RecoverAwait(2));
    let (c, step) = sweep_step(c, SweepReply::Recovered(false));
    assert_eq!(step, SweepStep::SweepExpiredApprovals);
    let (c, step) = sweep_step(c, SweepReply::ApprovalsSwept);
    assert_eq!(step, SweepStep::Finish);
    assert_eq!(c.stage, SweepStage::Done);
    assert_eq!((c.zombies, c.skipped_cas, c.recovered_running, c.recovered_await), (3, 1, 1, 0));
}

#[test]
fn sweep_cycle_without_zombies_ends_at_once() {
    let (c, _) = sweep_begin();
    let (done, step) = sweep_step(c, SweepReply::Scanned(0));
    assert_eq!((done.stage, step), (SweepStage::Done, SweepStep::Finish));
    let (done, step) = sweep_step(c, SweepReply::ScanFailed);
    assert_eq!((done.stage, step), (SweepStage::Done, SweepStep::Finish));
    let (c, _) = sweep_step(c, SweepReply::Scanned(1));
    let (c, step) = sweep_step(c, SweepReply::Cleared(WorkflowInstanceStatus::Completed));
    assert_eq!(step, SweepStep::SweepExpiredApprovals);
    assert_eq!(c.recovered_running + c.recovered_await + c.skipped_cas, 0);
}

#[test]
fn container_walk_sends_in_order_and_stops_on_error() {
    let (w, step) = walk_begin(3);
    assert_eq!(step, WalkStep::LookUpChild(0));
    let (w, step) = walk_step(w, WalkReply::SendCallback);
    assert_eq!(step, WalkStep::SendCallback(0));
    let (w, step) = walk_step(w, WalkReply::Sent);
    assert_eq!(step, WalkStep::LookUpChild(1));
    let (w, step) = walk_step(w, WalkReply::Leave);
    assert_eq!(step, WalkStep::LookUpChild(2));
    let (w2, step) = walk_step(w, WalkReply::Redispatch);
    assert_eq!(step, WalkStep::RedispatchChild(2));
    let (done, step) = walk_step(w2, WalkReply::Sent);
    assert_eq!((done.stage, step), (WalkStage::Done, WalkStep::ReturnOk));
    assert_eq!((done.supplemented, done.redispatched), (1, 1));
    let (failed, step) = walk_step(w2, WalkReply::SendFailed);
    assert_eq!((failed.stage, step), (WalkStage::Failed, WalkStep::ReturnError));
    let (empty, step) = walk_begin(0);
    assert_eq!((empty.stage, step), (WalkStage::Done, WalkStep::ReturnOk));
}

#[test]
fn sub_workflow_checks_depth_before_loading() {
    let (stage, action) = sub_workflow_begin();
    assert_eq!(action, SubWorkflowAction::CheckDepth);
    let (refused, action) = sub_workflow_step(stage, SubWorkflowReply::DepthExceeded);
    assert_eq!((refused, action), (SubWorkflowStage::Finished(SubWorkflowAction::ReturnDepthError), SubWorkflowAction::ReturnDepthError));
    let (stage, action) = sub_workflow_step(stage, SubWorkflowReply::DepthOk);
    assert_eq!(action, SubWorkflowAction::LoadDefinition);
    let (failed, action) = sub_workflow_step(stage, SubWorkflowReply::LoadFailed);
    assert_eq!((failed, action), (SubWorkflowStage::Finished(SubWorkflowAction::ReturnLoadError), SubWorkflowAction::ReturnLoadError));
    let (stage, action) = sub_workflow_step(stage, SubWorkflowReply::Loaded);
    assert_eq!(action, SubWorkflowAction::CreateChild);
    assert_eq!(sub_workflow_step(stage, SubWorkflowReply::CreateFailed).1, SubWorkflowAction::ReturnCreateError);
    assert_eq!(sub_workflow_step(stage, SubWorkflowReply::Created).1, SubWorkflowAction::LaunchChild);
    assert_eq!(sub_workflow_step(SubWorkflowStage::Checking, SubWorkflowReply::Loaded), (SubWorkflowStage::Checking, SubWorkflowAction::CheckDepth));
}

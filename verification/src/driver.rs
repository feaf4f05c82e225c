//! The orchestrator's sequences as state machines: handling one workflow job
//! (take the instance's lock, run the event, notify the parent, release the
//! lock), the execution loop (reload, tick, save or finish, run the node)
//! and the sweeper's cycle over stale instances.
//! The caller performs each action and hands back what came of it.

use vstd::prelude::*;
use crate::engine::{LoopAction, TickAction};
use crate::status::WorkflowInstanceStatus;

verus! {

/// Where the handling of one workflow job stands.
#[derive(Debug, Clone, Copy, PartialEq, Eq, Structural)]
pub enum JobStage {
    /// Waiting for the instance's lock.
    Locking,
    /// Running the job's event (start or node callback) under the lock.
    Running,
    /// Telling the parent workflow about a finished child.
    Notifying,
    /// Releasing the lock; `run_ok` says whether the event ran without error.
    Releasing { run_ok: bool },
    /// The job is handled, with the action that returned its outcome.
    Finished(JobAction),
}

/// What came of the last action of a workflow job.
#[derive(Debug, Clone, Copy, PartialEq, Eq, Structural)]
pub enum JobReply {
    LockAcquired,
    LockRefused,
    RunSucceeded,
    RunFailed,
    /// Notifying the parent or releasing the lock ended, however it went:
    /// a failure there is only logged.
    StepEnded,
}

/// What the caller does next for a workflow job.
#[derive(Debug, Clone, Copy, PartialEq, Eq, Structural)]
pub enum JobAction {
    AcquireLock,
    RunEvent,
    NotifyParent,
    ReleaseLock,
    /// The job succeeded.
    ReturnOk,
    /// The event failed: the job fails with the event's error.
    ReturnRunError,
    /// The lock could not be taken: the job fails and is retried
    /// (`lock_failed_error`); the lock is not released.
    ReturnLockError,
}

/// The action a stage waits on.
pub open spec fn job_pending_action(stage: JobStage) -> JobAction {
    match stage {
        JobStage::Locking => JobAction::AcquireLock,
        JobStage::Running => JobAction::RunEvent,
        JobStage::Notifying => JobAction::NotifyParent,
        JobStage::Releasing { .. } => JobAction::ReleaseLock,
        JobStage::Finished(a) => a,
    }
}

/// One step of a workflow job: a refused lock ends the job at once; a taken
/// lock runs the event; a successful event notifies the parent; either way
/// the lock is then released and the job returns the event's outcome. A reply
/// that does not belong to the stage changes nothing and repeats the action.
pub open spec fn job_transition(stage: JobStage, reply: JobReply) -> (JobStage, JobAction) {
    match (stage, reply) {
        (JobStage::Locking, JobReply::LockAcquired) => (JobStage::Running, JobAction::RunEvent),
        (JobStage::Locking, JobReply::LockRefused) => (JobStage::Finished(JobAction::ReturnLockError), JobAction::ReturnLockError),
        (JobStage::Running, JobReply::RunSucceeded) => (JobStage::Notifying, JobAction::NotifyParent),
        (JobStage::Running, JobReply::RunFailed) => (JobStage::Releasing { run_ok: false }, JobAction::ReleaseLock),
        (JobStage::Notifying, JobReply::StepEnded) => (JobStage::Releasing { run_ok: true }, JobAction::ReleaseLock),
        (JobStage::Releasing { run_ok }, JobReply::StepEnded) => {
            let a = if run_ok { JobAction::ReturnOk } else { JobAction::ReturnRunError };
            (JobStage::Finished(a), a)
        },
        _ => (stage, job_pending_action(stage)),
    }
}

/// How a workflow job begins: by taking the instance's lock.
pub fn job_begin() -> (r: (JobStage, JobAction))
    ensures
        r == (JobStage::Locking, JobAction::AcquireLock),
{
    (JobStage::Locking, JobAction::AcquireLock)
}

/// The next stage and action of a workflow job after `reply`.
pub fn job_step(stage: JobStage, reply: JobReply) -> (r: (JobStage, JobAction))
    ensures
        r == job_transition(stage, reply),
{
    match (stage, reply) {
        (JobStage::Locking, JobReply::LockAcquired) => (JobStage::Running, JobAction::RunEvent),
        (JobStage::Locking, JobReply::LockRefused) => (JobStage::Finished(JobAction::ReturnLockError), JobAction::ReturnLockError),
        (JobStage::Running, JobReply::RunSucceeded) => (JobStage::Notifying, JobAction::NotifyParent),
        (JobStage::Running, JobReply::RunFailed) => (JobStage::Releasing { run_ok: false }, JobAction::ReleaseLock),
        (JobStage::Notifying, JobReply::StepEnded) => (JobStage::Releasing { run_ok: true }, JobAction::ReleaseLock),
        (JobStage::Releasing { run_ok }, JobReply::StepEnded) => {
            let a = if run_ok { JobAction::ReturnOk } else { JobAction::ReturnRunError };
            (JobStage::Finished(a), a)
        },
        _ => {
            let a = match stage {
                JobStage::Locking => JobAction::AcquireLock,
                JobStage::Running => JobAction::RunEvent,
                JobStage::Notifying => JobAction::NotifyParent,
                JobStage::Releasing { .. } => JobAction::ReleaseLock,
                JobStage::Finished(a) => a,
            };
            (stage, a)
        },
    }
}

/// Once the lock is taken, the job runs the event, notifies the parent exactly
/// when the event succeeded, then releases the lock and returns the event's
/// outcome: the lock is released on success and on failure alike.
pub proof fn lemma_job_releases_lock(run_ok: bool)
    ensures
        ({
            let s1 = job_transition(JobStage::Locking, JobReply::LockAcquired);
            let s2 = job_transition(s1.0, if run_ok { JobReply::RunSucceeded } else { JobReply::RunFailed });
            let s3 = if run_ok { job_transition(s2.0, JobReply::StepEnded) } else { s2 };
            let s4 = job_transition(s3.0, JobReply::StepEnded);
            &&& s1.1 == JobAction::RunEvent
            &&& (s2.1 == JobAction::NotifyParent) == run_ok
            &&& s3.1 == JobAction::ReleaseLock
            &&& s4.0 == JobStage::Finished(s4.1)
            &&& s4.1 == if run_ok { JobAction::ReturnOk } else { JobAction::ReturnRunError }
        }),
{
}

/// A refused lock ends the job at once: nothing runs and nothing is released.
pub proof fn lemma_refused_lock_ends_job()
    ensures
        job_transition(JobStage::Locking, JobReply::LockRefused) == (JobStage::Finished(JobAction::ReturnLockError), JobAction::ReturnLockError),
{
}

/// Where the execution loop stands.
#[derive(Debug, Clone, Copy, PartialEq, Eq, Structural)]
pub enum LoopStage {
    /// Reloading the instance from storage.
    Reloading,
    /// Running one tick on the current node.
    Ticking,
    /// Saving the instance (and moving its epoch on); then `run_node` says
    /// whether the node runs or the loop turns again.
    Saving { run_node: bool },
    /// Running the current node and applying its result.
    RunningNode,
    /// Completing (`complete`) or failing the instance in storage; then the
    /// loop stops.
    Ending { complete: bool },
    /// The loop is over, without error (`ok`) or with one.
    Stopped { ok: bool },
}

/// What came of the last action of the loop.
#[derive(Debug, Clone, Copy, PartialEq, Eq, Structural)]
pub enum LoopReply {
    /// The instance was reloaded: whether it is running, and whether its
    /// current node was found.
    Reloaded { running: bool, node_found: bool },
    /// The tick on the current node decided this.
    Ticked(TickAction),
    /// The node ran and its result was applied.
    NodeRan(LoopAction),
    /// A storage step (save, complete, fail) succeeded.
    Stored,
    /// A storage step, a reload, running the node or applying its result failed.
    Failed,
}

/// What the caller does next in the loop.
#[derive(Debug, Clone, Copy, PartialEq, Eq, Structural)]
pub enum LoopStep {
    ReloadInstance,
    /// Find the current node and run `workflow_loop_tick` on it.
    TickCurrentNode,
    SaveAndBumpEpoch,
    RunNode,
    CompleteInstance,
    FailInstance,
    /// The loop ends without error.
    ReturnOk,
    /// The loop ends with the error of the failed step ("node not found" when
    /// the current node is missing).
    ReturnError,
}

/// The step a loop stage waits on.
pub open spec fn loop_pending_step(stage: LoopStage) -> LoopStep {
    match stage {
        LoopStage::Reloading => LoopStep::ReloadInstance,
        LoopStage::Ticking => LoopStep::TickCurrentNode,
        LoopStage::Saving { .. } => LoopStep::SaveAndBumpEpoch,
        LoopStage::RunningNode => LoopStep::RunNode,
        LoopStage::Ending { complete } => if complete { LoopStep::CompleteInstance } else { LoopStep::FailInstance },
        LoopStage::Stopped { ok } => if ok { LoopStep::ReturnOk } else { LoopStep::ReturnError },
    }
}

/// One step of the loop: each turn reloads the instance and stops unless it
/// is running; a missing current node is an error; the tick's decision saves
/// and turns again, saves and runs the node, completes or fails the instance
/// and stops, or stops; a node whose result advanced or asked for a retry
/// turns the loop again, one that is done stops it; any failure ends the loop
/// with that error. A reply that does not belong to the stage changes nothing.
pub open spec fn loop_transition(stage: LoopStage, reply: LoopReply) -> (LoopStage, LoopStep) {
    match (stage, reply) {
        (LoopStage::Reloading, LoopReply::Reloaded { running, node_found }) => if !running {
            (LoopStage::Stopped { ok: true }, LoopStep::ReturnOk)
        } else if !node_found {
            (LoopStage::Stopped { ok: false }, LoopStep::ReturnError)
        } else {
            (LoopStage::Ticking, LoopStep::TickCurrentNode)
        },
        (LoopStage::Ticking, LoopReply::Ticked(t)) => match t {
            TickAction::SaveAndContinue => (LoopStage::Saving { run_node: false }, LoopStep::SaveAndBumpEpoch),
            TickAction::SaveAndRunNode => (LoopStage::Saving { run_node: true }, LoopStep::SaveAndBumpEpoch),
            TickAction::CompleteAndStop => (LoopStage::Ending { complete: true }, LoopStep::CompleteInstance),
            TickAction::FailAndStop => (LoopStage::Ending { complete: false }, LoopStep::FailInstance),
            TickAction::Stop => (LoopStage::Stopped { ok: true }, LoopStep::ReturnOk),
        },
        (LoopStage::Saving { run_node }, LoopReply::Stored) => if run_node {
            (LoopStage::RunningNode, LoopStep::RunNode)
        } else {
            (LoopStage::Reloading, LoopStep::ReloadInstance)
        },
        (LoopStage::RunningNode, LoopReply::NodeRan(a)) => match a {
            LoopAction::Done => (LoopStage::Stopped { ok: true }, LoopStep::ReturnOk),
            _ => (LoopStage::Reloading, LoopStep::ReloadInstance),
        },
        (LoopStage::Ending { .. }, LoopReply::Stored) => (LoopStage::Stopped { ok: true }, LoopStep::ReturnOk),
        (LoopStage::Stopped { .. }, _) => (stage, loop_pending_step(stage)),
        (_, LoopReply::Failed) => (LoopStage::Stopped { ok: false }, LoopStep::ReturnError),
        _ => (stage, loop_pending_step(stage)),
    }
}

/// How the loop begins: by reloading the instance.
pub fn loop_begin() -> (r: (LoopStage, LoopStep))
    ensures
        r == (LoopStage::Reloading, LoopStep::ReloadInstance),
{
    (LoopStage::Reloading, LoopStep::ReloadInstance)
}

fn loop_pending(stage: LoopStage) -> (s: LoopStep)
    ensures
        s == loop_pending_step(stage),
{
    match stage {
        LoopStage::Reloading => LoopStep::ReloadInstance,
        LoopStage::Ticking => LoopStep::TickCurrentNode,
        LoopStage::Saving { .. } => LoopStep::SaveAndBumpEpoch,
        LoopStage::RunningNode => LoopStep::RunNode,
        LoopStage::Ending { complete } => if complete { LoopStep::CompleteInstance } else { LoopStep::FailInstance },
        LoopStage::Stopped { ok } => if ok { LoopStep::ReturnOk } else { LoopStep::ReturnError },
    }
}

/// The next stage and step of the loop after `reply`.
pub fn loop_step(stage: LoopStage, reply: LoopReply) -> (r: (LoopStage, LoopStep))
    ensures
        r == loop_transition(stage, reply),
{
    match (stage, reply) {
        (LoopStage::Reloading, LoopReply::Reloaded { running, node_found }) => if !running {
            (LoopStage::Stopped { ok: true }, LoopStep::ReturnOk)
        } else if !node_found {
            (LoopStage::Stopped { ok: false }, LoopStep::ReturnError)
        } else {
            (LoopStage::Ticking, LoopStep::TickCurrentNode)
        },
        (LoopStage::Ticking, LoopReply::Ticked(t)) => match t {
            TickAction::SaveAndContinue => (LoopStage::Saving { run_node: false }, LoopStep::SaveAndBumpEpoch),
            TickAction::SaveAndRunNode => (LoopStage::Saving { run_node: true }, LoopStep::SaveAndBumpEpoch),
            TickAction::CompleteAndStop => (LoopStage::Ending { complete: true }, LoopStep::CompleteInstance),
            TickAction::FailAndStop => (LoopStage::Ending { complete: false }, LoopStep::FailInstance),
            TickAction::Stop => (LoopStage::Stopped { ok: true }, LoopStep::ReturnOk),
        },
        (LoopStage::Saving { run_node }, LoopReply::Stored) => if run_node {
            (LoopStage::RunningNode, LoopStep::RunNode)
        } else {
            (LoopStage::Reloading, LoopStep::ReloadInstance)
        },
        (LoopStage::RunningNode, LoopReply::NodeRan(a)) => match a {
            LoopAction::Done => (LoopStage::Stopped { ok: true }, LoopStep::ReturnOk),
            _ => (LoopStage::Reloading, LoopStep::ReloadInstance),
        },
        (LoopStage::Ending { .. }, LoopReply::Stored) => (LoopStage::Stopped { ok: true }, LoopStep::ReturnOk),
        (LoopStage::Stopped { .. }, _) => (stage, loop_pending(stage)),
        (_, LoopReply::Failed) => (LoopStage::Stopped { ok: false }, LoopStep::ReturnError),
        _ => (stage, loop_pending(stage)),
    }
}

/// A node runs only after the instance was saved with the node marked
/// running: the only way into `RunningNode` is a successful save that was
/// asked for by a `SaveAndRunNode` tick; and every turn that goes on starts
/// with a reload.
pub proof fn lemma_node_runs_after_save(stage: LoopStage, reply: LoopReply)
    ensures
        loop_transition(stage, reply).0 == LoopStage::RunningNode ==> (
            stage == LoopStage::RunningNode || (stage == (LoopStage::Saving { run_node: true }) && reply == LoopReply::Stored)
        ),
        loop_transition(stage, reply).1 == LoopStep::ReloadInstance ==> loop_transition(stage, reply).0 == LoopStage::Reloading,
        stage == (LoopStage::Saving { run_node: true }) && reply == LoopReply::Stored ==> loop_transition(stage, reply).1 == LoopStep::RunNode,
{
}

/// Once stopped, the loop stays stopped, and a failed step always stops it
/// with an error.
pub proof fn lemma_loop_stops_on_failure(stage: LoopStage, reply: LoopReply)
    ensures
        stage is Stopped ==> loop_transition(stage, reply).0 == stage,
        !(stage is Stopped) && reply == LoopReply::Failed ==> loop_transition(stage, reply) == (LoopStage::Stopped { ok: false }, LoopStep::ReturnError),
{
}

/// Where a sweeper cycle stands.
#[derive(Debug, Clone, Copy, PartialEq, Eq, Structural)]
pub enum SweepStage {
    /// Looking for stale instances.
    Scanning,
    /// Clearing the lock of stale instance `i` (compare-and-swap on its epoch).
    Clearing(usize),
    /// Recovering stale instance `index`: a running one (`running`) or an
    /// awaiting one.
    Recovering { index: usize, running: bool },
    /// Failing the approvals whose time ran out.
    SweepingApprovals,
    /// The cycle is over.
    Done,
}

/// A sweeper cycle: its stage, how many stale instances it found, and what
/// came of them so far.
#[derive(Debug, Clone, Copy, PartialEq, Eq, Structural)]
pub struct SweepCycle {
    pub stage: SweepStage,
    pub zombies: usize,
    pub recovered_running: u64,
    pub recovered_await: u64,
    pub skipped_cas: u64,
}

/// What came of the last step of a sweeper cycle.
#[derive(Debug, Clone, Copy, PartialEq, Eq, Structural)]
pub enum SweepReply {
    /// The scan found this many stale instances.
    Scanned(usize),
    ScanFailed,
    /// The lock was cleared; the instance has this status.
    Cleared(WorkflowInstanceStatus),
    /// The instance's epoch moved on meanwhile: someone else holds it.
    CasFailed,
    /// The recovery ran; whether it succeeded (a failure is only logged).
    Recovered(bool),
    ApprovalsSwept,
}

/// What the sweeper does next.
#[derive(Debug, Clone, Copy, PartialEq, Eq, Structural)]
pub enum SweepStep {
    ScanZombies,
    ForceClearLock(usize),
    RecoverRunning(usize),
    RecoverAwait(usize),
    SweepExpiredApprovals,
    /// The cycle ends (and reports its counts).
    Finish,
}

/// The stale instances a cycle has dealt with so far.
pub open spec fn sweep_processed(c: SweepCycle) -> int {
    match c.stage {
        SweepStage::Scanning => 0,
        SweepStage::Clearing(i) => i as int,
        SweepStage::Recovering { index, .. } => index as int,
        SweepStage::SweepingApprovals | SweepStage::Done => c.zombies as int,
    }
}

/// A cycle's counts never exceed the instances it dealt with, and the
/// instance it works on is one it found.
pub open spec fn sweep_wf(c: SweepCycle) -> bool {
    &&& c.recovered_running + c.recovered_await + c.skipped_cas <= sweep_processed(c)
    &&& match c.stage {
        SweepStage::Clearing(i) => i < c.zombies,
        SweepStage::Recovering { index, .. } => index < c.zombies,
        _ => true,
    }
}

/// Move on to stale instance `j`, or to the approvals once all were seen.
pub open spec fn sweep_advance(c: SweepCycle, j: int) -> (SweepCycle, SweepStep) {
    if j < c.zombies {
        (SweepCycle { stage: SweepStage::Clearing(j as usize), ..c }, SweepStep::ForceClearLock(j as usize))
    } else {
        (SweepCycle { stage: SweepStage::SweepingApprovals, ..c }, SweepStep::SweepExpiredApprovals)
    }
}

/// The step a sweeper stage waits on.
pub open spec fn sweep_pending_step(stage: SweepStage) -> SweepStep {
    match stage {
        SweepStage::Scanning => SweepStep::ScanZombies,
        SweepStage::Clearing(i) => SweepStep::ForceClearLock(i),
        SweepStage::Recovering { index, running } => if running {
            SweepStep::RecoverRunning(index)
        } else {
            SweepStep::RecoverAwait(index)
        },
        SweepStage::SweepingApprovals => SweepStep::SweepExpiredApprovals,
        SweepStage::Done => SweepStep::Finish,
    }
}

/// One step of a sweeper cycle: a failed or empty scan ends the cycle at
/// once (no approvals are swept then); each stale instance first has its lock
/// cleared, and is skipped (and counted) when that fails; a cleared running
/// instance is restarted and a cleared awaiting one recovered (each counted
/// when that succeeded), any other is left; after the last instance the
/// expired approvals are swept and the cycle ends. A reply that does not
/// belong to the stage changes nothing.
pub open spec fn sweep_transition(c: SweepCycle, reply: SweepReply) -> (SweepCycle, SweepStep) {
    match (c.stage, reply) {
        (SweepStage::Scanning, SweepReply::Scanned(n)) => if n == 0 {
            (SweepCycle { stage: SweepStage::Done, ..c }, SweepStep::Finish)
        } else {
            sweep_advance(SweepCycle { zombies: n, ..c }, 0)
        },
        (SweepStage::Scanning, SweepReply::ScanFailed) => (SweepCycle { stage: SweepStage::Done, ..c }, SweepStep::Finish),
        (SweepStage::Clearing(i), SweepReply::CasFailed) => sweep_advance(
            SweepCycle { skipped_cas: (c.skipped_cas + 1) as u64, ..c },
            i + 1,
        ),
        (SweepStage::Clearing(i), SweepReply::Cleared(status)) => match status {
            WorkflowInstanceStatus::Running => (
                SweepCycle { stage: SweepStage::Recovering { index: i, running: true }, ..c },
                SweepStep::RecoverRunning(i),
            ),
            WorkflowInstanceStatus::Await => (
                SweepCycle { stage: SweepStage::Recovering { index: i, running: false }, ..c },
                SweepStep::RecoverAwait(i),
            ),
            _ => sweep_advance(c, i + 1),
        },
        (SweepStage::Recovering { index, running }, SweepReply::Recovered(ok)) => sweep_advance(
            if !ok {
                c
            } else if running {
                SweepCycle { recovered_running: (c.recovered_running + 1) as u64, ..c }
            } else {
                SweepCycle { recovered_await: (c.recovered_await + 1) as u64, ..c }
            },
            index + 1,
        ),
        (SweepStage::SweepingApprovals, SweepReply::ApprovalsSwept) => (SweepCycle { stage: SweepStage::Done, ..c }, SweepStep::Finish),
        _ => (c, sweep_pending_step(c.stage)),
    }
}

/// A new sweeper cycle: nothing found or counted yet; it starts by scanning.
pub fn sweep_begin() -> (r: (SweepCycle, SweepStep))
    ensures
        r.0 == (SweepCycle { stage: SweepStage::Scanning, zombies: 0, recovered_running: 0, recovered_await: 0, skipped_cas: 0 }),
        r.1 == SweepStep::ScanZombies,
        sweep_wf(r.0),
{
    (SweepCycle { stage: SweepStage::Scanning, zombies: 0, recovered_running: 0, recovered_await: 0, skipped_cas: 0 }, SweepStep::ScanZombies)
}

fn sweep_next(c: SweepCycle, j: usize) -> (r: (SweepCycle, SweepStep))
    ensures
        r == sweep_advance(c, j as int),
{
    if j < c.zombies {
        (SweepCycle { stage: SweepStage::Clearing(j), ..c }, SweepStep::ForceClearLock(j))
    } else {
        (SweepCycle { stage: SweepStage::SweepingApprovals, ..c }, SweepStep::SweepExpiredApprovals)
    }
}

/// The next state and step of a sweeper cycle after `reply`; the counts stay
/// within the instances dealt with.
pub fn sweep_step(c: SweepCycle, reply: SweepReply) -> (r: (SweepCycle, SweepStep))
    requires
        sweep_wf(c),
    ensures
        r == sweep_transition(c, reply),
        sweep_wf(r.0),
{
    match (c.stage, reply) {
        (SweepStage::Scanning, SweepReply::Scanned(n)) => if n == 0 {
            (SweepCycle { stage: SweepStage::Done, ..c }, SweepStep::Finish)
        } else {
            sweep_next(SweepCycle { zombies: n, ..c }, 0)
        },
        (SweepStage::Scanning, SweepReply::ScanFailed) => (SweepCycle { stage: SweepStage::Done, ..c }, SweepStep::Finish),
        (SweepStage::Clearing(i), SweepReply::CasFailed) => sweep_next(SweepCycle { skipped_cas: c.skipped_cas + 1, ..c }, i + 1),
        (SweepStage::Clearing(i), SweepReply::Cleared(status)) => match status {
            WorkflowInstanceStatus::Running => (
                SweepCycle { stage: SweepStage::Recovering { index: i, running: true }, ..c },
                SweepStep::RecoverRunning(i),
            ),
            WorkflowInstanceStatus::Await => (
                SweepCycle { stage: SweepStage::Recovering { index: i, running: false }, ..c },
                SweepStep::RecoverAwait(i),
            ),
            _ => sweep_next(c, i + 1),
        },
        (SweepStage::Recovering { index, running }, SweepReply::Recovered(ok)) => {
            let counted = if !ok {
                c
            } else if running {
                SweepCycle { recovered_running: c.recovered_running + 1, ..c }
            } else {
                SweepCycle { recovered_await: c.recovered_await + 1, ..c }
            };
            sweep_next(counted, index + 1)
        },
        (SweepStage::SweepingApprovals, SweepReply::ApprovalsSwept) => (SweepCycle { stage: SweepStage::Done, ..c }, SweepStep::Finish),
        _ => {
            let step = match c.stage {
                SweepStage::Scanning => SweepStep::ScanZombies,
                SweepStage::Clearing(i) => SweepStep::ForceClearLock(i),
                SweepStage::Recovering { index, running } => if running {
                    SweepStep::RecoverRunning(index)
                } else {
                    SweepStep::RecoverAwait(index)
                },
                SweepStage::SweepingApprovals => SweepStep::SweepExpiredApprovals,
                SweepStage::Done => SweepStep::Finish,
            };
            (c, step)
        },
    }
}

/// Every step keeps a cycle well formed, so a finished cycle never reports
/// more recovered and skipped instances than it found.
pub proof fn lemma_sweep_counts_bounded(c: SweepCycle, reply: SweepReply)
    requires
        sweep_wf(c),
    ensures
        sweep_wf(sweep_transition(c, reply).0),
        sweep_transition(c, reply).0.stage == SweepStage::Done ==> ({
            let d = sweep_transition(c, reply).0;
            d.recovered_running + d.recovered_await + d.skipped_cas <= d.zombies
        }),
{
}

/// A stale instance is recovered only after its lock was cleared: the only
/// way into `Recovering` is a `Cleared` reply to the clearing of that very
/// instance.
pub proof fn lemma_recovery_after_cleared_lock(c: SweepCycle, reply: SweepReply)
    ensures
        (sweep_transition(c, reply).0.stage is Recovering && !(c.stage is Recovering)) ==> (
            c.stage == SweepStage::Clearing(sweep_transition(c, reply).0.stage->index) && reply is Cleared
        ),
{
}

/// Where the sweeper's walk over an awaiting container's children stands.
#[derive(Debug, Clone, Copy, PartialEq, Eq, Structural)]
pub enum WalkStage {
    /// Looking child `index` up and deciding on it (`recover_container_child`).
    Looking,
    /// Sending what was decided for child `index`: its callback, or its
    /// re-dispatch (`redispatch`).
    Sending { redispatch: bool },
    /// Every dispatched child was seen.
    Done,
    /// Sending failed: the walk ends with that error.
    Failed,
}

/// The walk over children `0 .. dispatched` of a container node, with what it
/// sent so far.
#[derive(Debug, Clone, Copy, PartialEq, Eq, Structural)]
pub struct ContainerWalk {
    pub stage: WalkStage,
    pub index: u64,
    pub dispatched: u64,
    pub supplemented: u64,
    pub redispatched: u64,
}

/// What came of the last step of the walk.
#[derive(Debug, Clone, Copy, PartialEq, Eq, Structural)]
pub enum WalkReply {
    /// The child was looked up and this was decided for it.
    SendCallback,
    Redispatch,
    /// Nothing to send: the child is missing, canceled, or finished while no
    /// callback is missing.
    Leave,
    Sent,
    SendFailed,
}

/// What the caller does next in the walk.
#[derive(Debug, Clone, Copy, PartialEq, Eq, Structural)]
pub enum WalkStep {
    LookUpChild(u64),
    SendCallback(u64),
    RedispatchChild(u64),
    ReturnOk,
    ReturnError,
}

/// Go on with child `j`, or finish after the last dispatched one.
pub open spec fn walk_advance(w: ContainerWalk, j: int) -> (ContainerWalk, WalkStep) {
    if j < w.dispatched {
        (ContainerWalk { stage: WalkStage::Looking, index: j as u64, ..w }, WalkStep::LookUpChild(j as u64))
    } else {
        (ContainerWalk { stage: WalkStage::Done, index: w.dispatched, ..w }, WalkStep::ReturnOk)
    }
}

/// The walk's counts stay within the children it has passed, and it works on
/// a dispatched child.
pub open spec fn walk_wf(w: ContainerWalk) -> bool {
    &&& w.supplemented + w.redispatched <= w.index
    &&& w.index <= w.dispatched
    &&& (w.stage is Looking || w.stage is Sending) ==> w.index < w.dispatched
}

/// The step a walk stage waits on.
pub open spec fn walk_pending_step(w: ContainerWalk) -> WalkStep {
    match w.stage {
        WalkStage::Looking => WalkStep::LookUpChild(w.index),
        WalkStage::Sending { redispatch } => if redispatch {
            WalkStep::RedispatchChild(w.index)
        } else {
            WalkStep::SendCallback(w.index)
        },
        WalkStage::Done => WalkStep::ReturnOk,
        WalkStage::Failed => WalkStep::ReturnError,
    }
}

/// One step of the walk: each child in turn is looked up; its callback is
/// sent again or it is dispatched again as decided, or it is left; a failed
/// send ends the walk with the error; after the last dispatched child the
/// walk ends. A reply that does not belong to the stage changes nothing.
pub open spec fn walk_transition(w: ContainerWalk, reply: WalkReply) -> (ContainerWalk, WalkStep) {
    match (w.stage, reply) {
        (WalkStage::Looking, WalkReply::SendCallback) => (
            ContainerWalk { stage: WalkStage::Sending { redispatch: false }, ..w },
            WalkStep::SendCallback(w.index),
        ),
        (WalkStage::Looking, WalkReply::Redispatch) => (
            ContainerWalk { stage: WalkStage::Sending { redispatch: true }, ..w },
            WalkStep::RedispatchChild(w.index),
        ),
        (WalkStage::Looking, WalkReply::Leave) => walk_advance(w, w.index + 1),
        (WalkStage::Sending { redispatch }, WalkReply::Sent) => walk_advance(
            if redispatch {
                ContainerWalk { redispatched: (w.redispatched + 1) as u64, ..w }
            } else {
                ContainerWalk { supplemented: (w.supplemented + 1) as u64, ..w }
            },
            w.index + 1,
        ),
        (WalkStage::Sending { .. }, WalkReply::SendFailed) => (ContainerWalk { stage: WalkStage::Failed, ..w }, WalkStep::ReturnError),
        _ => (w, walk_pending_step(w)),
    }
}

/// The walk over the first `dispatched` children of a container node.
pub fn walk_begin(dispatched: u64) -> (r: (ContainerWalk, WalkStep))
    ensures
        r == walk_advance(ContainerWalk { stage: WalkStage::Looking, index: 0, dispatched, supplemented: 0, redispatched: 0 }, 0),
        walk_wf(r.0),
{
    let w = ContainerWalk { stage: WalkStage::Looking, index: 0, dispatched, supplemented: 0, redispatched: 0 };
    walk_next(w, 0)
}

fn walk_next(w: ContainerWalk, j: u64) -> (r: (ContainerWalk, WalkStep))
    ensures
        r == walk_advance(w, j as int),
{
    if j < w.dispatched {
        (ContainerWalk { stage: WalkStage::Looking, index: j, ..w }, WalkStep::LookUpChild(j))
    } else {
        (ContainerWalk { stage: WalkStage::Done, index: w.dispatched, ..w }, WalkStep::ReturnOk)
    }
}

/// The next state and step of the walk after `reply`.
pub fn walk_step(w: ContainerWalk, reply: WalkReply) -> (r: (ContainerWalk, WalkStep))
    requires
        walk_wf(w),
    ensures
        r == walk_transition(w, reply),
        walk_wf(r.0),
{
    match (w.stage, reply) {
        (WalkStage::Looking, WalkReply::SendCallback) => (
            ContainerWalk { stage: WalkStage::Sending { redispatch: false }, ..w },
            WalkStep::SendCallback(w.index),
        ),
        (WalkStage::Looking, WalkReply::Redispatch) => (
            ContainerWalk { stage: WalkStage::Sending { redispatch: true }, ..w },
            WalkStep::RedispatchChild(w.index),
        ),
        (WalkStage::Looking, WalkReply::Leave) => walk_next(w, w.index + 1),
        (WalkStage::Sending { redispatch }, WalkReply::Sent) => {
            let counted = if redispatch {
                ContainerWalk { redispatched: w.redispatched + 1, ..w }
            } else {
                ContainerWalk { supplemented: w.supplemented + 1, ..w }
            };
            walk_next(counted, w.index + 1)
        },
        (WalkStage::Sending { .. }, WalkReply::SendFailed) => (ContainerWalk { stage: WalkStage::Failed, ..w }, WalkStep::ReturnError),
        _ => {
            let step = match w.stage {
                WalkStage::Looking => WalkStep::LookUpChild(w.index),
                WalkStage::Sending { redispatch } => if redispatch {
                    WalkStep::RedispatchChild(w.index)
                } else {
                    WalkStep::SendCallback(w.index)
                },
                WalkStage::Done => WalkStep::ReturnOk,
                WalkStage::Failed => WalkStep::ReturnError,
            };
            (w, step)
        },
    }
}

/// The walk visits the children in order, one at a time: a step either stays
/// on the same child or moves to the next one, and never sends more than one
/// thing per child passed.
pub proof fn lemma_walk_in_order(w: ContainerWalk, reply: WalkReply)
    requires
        walk_wf(w),
    ensures
        ({
            let n = walk_transition(w, reply).0;
            &&& walk_wf(n)
            &&& n.index == w.index || n.index == w.index + 1 || (n.stage is Done && n.index == w.dispatched)
            &&& n.supplemented + n.redispatched <= w.supplemented + w.redispatched + 1
        }),
{
}

/// Where starting a SubWorkflow node stands.
#[derive(Debug, Clone, Copy, PartialEq, Eq, Structural)]
pub enum SubWorkflowStage {
    /// Checking the child's depth (`SubWorkflowPlugin::child_depth`).
    Checking,
    /// Loading the child workflow's definition.
    Loading,
    /// Creating the child instance.
    Creating,
    /// Done, with the action that ended it.
    Finished(SubWorkflowAction),
}

/// What came of the last step of starting a SubWorkflow node.
#[derive(Debug, Clone, Copy, PartialEq, Eq, Structural)]
pub enum SubWorkflowReply {
    DepthOk,
    DepthExceeded,
    Loaded,
    LoadFailed,
    Created,
    CreateFailed,
}

/// What the caller does next for a SubWorkflow node.
#[derive(Debug, Clone, Copy, PartialEq, Eq, Structural)]
pub enum SubWorkflowAction {
    CheckDepth,
    LoadDefinition,
    CreateChild,
    /// Start the child and record the node (`SubWorkflowPlugin::launch`).
    LaunchChild,
    /// The node fails with the depth error; nothing was loaded or created.
    ReturnDepthError,
    /// The node fails with the load error; nothing was created.
    ReturnLoadError,
    ReturnCreateError,
}

/// The action a stage waits on.
pub open spec fn sub_workflow_pending(stage: SubWorkflowStage) -> SubWorkflowAction {
    match stage {
        SubWorkflowStage::Checking => SubWorkflowAction::CheckDepth,
        SubWorkflowStage::Loading => SubWorkflowAction::LoadDefinition,
        SubWorkflowStage::Creating => SubWorkflowAction::CreateChild,
        SubWorkflowStage::Finished(a) => a,
    }
}

/// One step of starting a SubWorkflow node: the depth is checked before
/// anything else, and a refused depth ends the node before any load or
/// create; the definition is loaded next, and only a loaded definition leads
/// to creating the child; a created child is launched. A reply that does not
/// belong to the stage changes nothing.
pub open spec fn sub_workflow_transition(stage: SubWorkflowStage, reply: SubWorkflowReply) -> (SubWorkflowStage, SubWorkflowAction) {
    match (stage, reply) {
        (SubWorkflowStage::Checking, SubWorkflowReply::DepthOk) => (SubWorkflowStage::Loading, SubWorkflowAction::LoadDefinition),
        (SubWorkflowStage::Checking, SubWorkflowReply::DepthExceeded) => (
            SubWorkflowStage::Finished(SubWorkflowAction::ReturnDepthError),
            SubWorkflowAction::ReturnDepthError,
        ),
        (SubWorkflowStage::Loading, SubWorkflowReply::Loaded) => (SubWorkflowStage::Creating, SubWorkflowAction::CreateChild),
        (SubWorkflowStage::Loading, SubWorkflowReply::LoadFailed) => (
            SubWorkflowStage::Finished(SubWorkflowAction::ReturnLoadError),
            SubWorkflowAction::ReturnLoadError,
        ),
        (SubWorkflowStage::Creating, SubWorkflowReply::Created) => (
            SubWorkflowStage::Finished(SubWorkflowAction::LaunchChild),
            SubWorkflowAction::LaunchChild,
        ),
        (SubWorkflowStage::Creating, SubWorkflowReply::CreateFailed) => (
            SubWorkflowStage::Finished(SubWorkflowAction::ReturnCreateError),
            SubWorkflowAction::ReturnCreateError,
        ),
        _ => (stage, sub_workflow_pending(stage)),
    }
}

/// Starting a SubWorkflow node begins with the depth check.
pub fn sub_workflow_begin() -> (r: (SubWorkflowStage, SubWorkflowAction))
    ensures
        r == (SubWorkflowStage::Checking, SubWorkflowAction::CheckDepth),
{
    (SubWorkflowStage::Checking, SubWorkflowAction::CheckDepth)
}

/// The next stage and action of starting a SubWorkflow node after `reply`.
pub fn sub_workflow_step(stage: SubWorkflowStage, reply: SubWorkflowReply) -> (r: (SubWorkflowStage, SubWorkflowAction))
    ensures
        r == sub_workflow_transition(stage, reply),
        sub_workflow_stage_valid(stage) ==> sub_workflow_stage_valid(r.0),
{
    match (stage, reply) {
        (SubWorkflowStage::Checking, SubWorkflowReply::DepthOk) => (SubWorkflowStage::Loading, SubWorkflowAction::LoadDefinition),
        (SubWorkflowStage::Checking, SubWorkflowReply::DepthExceeded) => (
            SubWorkflowStage::Finished(SubWorkflowAction::ReturnDepthError),
            SubWorkflowAction::ReturnDepthError,
        ),
        (SubWorkflowStage::Loading, SubWorkflowReply::Loaded) => (SubWorkflowStage::Creating, SubWorkflowAction::CreateChild),
        (SubWorkflowStage::Loading, SubWorkflowReply::LoadFailed) => (
            SubWorkflowStage::Finished(SubWorkflowAction::ReturnLoadError),
            SubWorkflowAction::ReturnLoadError,
        ),
        (SubWorkflowStage::Creating, SubWorkflowReply::Created) => (
            SubWorkflowStage::Finished(SubWorkflowAction::LaunchChild),
            SubWorkflowAction::LaunchChild,
        ),
        (SubWorkflowStage::Creating, SubWorkflowReply::CreateFailed) => (
            SubWorkflowStage::Finished(SubWorkflowAction::ReturnCreateError),
            SubWorkflowAction::ReturnCreateError,
        ),
        _ => {
            let a = match stage {
                SubWorkflowStage::Checking => SubWorkflowAction::CheckDepth,
                SubWorkflowStage::Loading => SubWorkflowAction::LoadDefinition,
                SubWorkflowStage::Creating => SubWorkflowAction::CreateChild,
                SubWorkflowStage::Finished(a) => a,
            };
            (stage, a)
        },
    }
}

/// A finished stage holds one of the actions that end the node.
pub open spec fn sub_workflow_stage_valid(stage: SubWorkflowStage) -> bool {
    stage matches SubWorkflowStage::Finished(a) ==> (a == SubWorkflowAction::LaunchChild
        || a == SubWorkflowAction::ReturnDepthError || a == SubWorkflowAction::ReturnLoadError
        || a == SubWorkflowAction::ReturnCreateError)
}

/// The depth refusal comes before any load or create: a definition is loaded
/// only right after the depth was accepted, a child is created only right
/// after its definition loaded, and a refused depth finishes the node.
pub proof fn lemma_depth_checked_first(stage: SubWorkflowStage, reply: SubWorkflowReply)
    requires
        sub_workflow_stage_valid(stage),
    ensures
        ({
            let (next, action) = sub_workflow_transition(stage, reply);
            &&& (action == SubWorkflowAction::LoadDefinition ==> next == SubWorkflowStage::Loading
                && (stage == SubWorkflowStage::Loading || (stage == SubWorkflowStage::Checking && reply == SubWorkflowReply::DepthOk)))
            &&& (action == SubWorkflowAction::CreateChild ==> next == SubWorkflowStage::Creating
                && (stage == SubWorkflowStage::Creating || (stage == SubWorkflowStage::Loading && reply == SubWorkflowReply::Loaded)))
            &&& (stage == SubWorkflowStage::Checking && reply == SubWorkflowReply::DepthExceeded ==> next is Finished)
        }),
{
}

} // verus!

//! Scatter-gather bookkeeping of container nodes (Parallel and ForkJoin).
//!
//! A container dispatches child tasks, then folds each child's callback into
//! its state: counts of successful, failed and skipped children, the callbacks
//! already processed, the per-child results, and how many children have been
//! dispatched. From that state it decides whether the node failed, succeeded,
//! or waits for more children (dispatching the next ones as its mode says).

use vstd::prelude::*;
use crate::status::{NodeExecutionStatus, TaskType};
use crate::jobs::{ExecuteTaskJob, ExecutionResult, make_task_job, task_job_matches};
use crate::template::{ForkJoinTaskItem, ParallelMode, TaskTemplate};
use crate::outside::{json_pointer, json_pointer_hit, PointerHit};
use crate::text::{
    decimal, indexed_child_id, indexed_child_task_id, last_dash_segment, push_decimal_u64,
    push_str_chars, str_chars, string_from_chars, trailing_index, usize_parse,
    lemma_indexed_child_id_index,
};

verus! {

/// The recorded outcome of one child.
#[derive(Debug, Clone)]
pub struct ResultEntry<P> {
    pub status: NodeExecutionStatus,
    pub output: Option<P>,
    pub error: Option<String>,
}

/// One key of the results table; `None` until the child reports.
#[derive(Debug, Clone)]
pub struct ResultSlot<P> {
    pub key: String,
    pub entry: Option<ResultEntry<P>>,
}

/// Progress of a container node.
#[derive(Debug, Clone)]
pub struct ContainerState<P> {
    /// Number of children (items or branches).
    pub total: u64,
    pub dispatched_count: u64,
    pub success_count: u64,
    pub failed_count: u64,
    pub skipped_count: u64,
    /// Child task ids whose callbacks have been folded in.
    pub processed_callbacks: Vec<String>,
    /// Results keyed by child task id (Parallel) or branch key (ForkJoin).
    pub results: Vec<ResultSlot<P>>,
}

/// The container node whose children are dispatched.
#[derive(Debug, Clone)]
pub struct ContainerScope {
    pub workflow_instance_id: String,
    pub tenant_id: String,
    pub node_id: String,
    /// Id of the container node's own task instance.
    pub task_instance_id: String,
}

#[derive(Debug, Clone, Copy, PartialEq, Eq, Structural)]
pub enum ContainerKind {
    Parallel,
    ForkJoin,
}

pub open spec fn views(v: Seq<String>) -> Seq<Seq<char>> {
    v.map_values(|s: String| s@)
}

pub open spec fn slot_keys<P>(r: Seq<ResultSlot<P>>) -> Seq<Seq<char>> {
    r.map_values(|s: ResultSlot<P>| s.key@)
}

/// Position of the first occurrence of `k` in `keys`, or -1.
pub open spec fn first_index(keys: Seq<Seq<char>>, k: Seq<char>) -> int {
    if keys.contains(k) {
        choose|i: int| 0 <= i < keys.len() && keys[i] == k && forall|j: int| 0 <= j < i ==> keys[j] != k
    } else {
        -1
    }
}

/// Status recorded for `key`, if the key is present and filled.
pub open spec fn recorded_status<P>(results: Seq<ResultSlot<P>>, key: Seq<char>) -> Option<NodeExecutionStatus> {
    let i = first_index(slot_keys(results), key);
    if 0 <= i {
        match results[i].entry {
            Some(e) => Some(e.status),
            None => None,
        }
    } else {
        None
    }
}

/// `new` is `old` with `key` set to `entry`: replaced in place when present,
/// appended otherwise.
pub open spec fn recorded<P>(old: Seq<ResultSlot<P>>, new: Seq<ResultSlot<P>>, key: Seq<char>, entry: ResultEntry<P>) -> bool {
    let i = first_index(slot_keys(old), key);
    if 0 <= i {
        &&& new.len() == old.len()
        &&& new[i].key@ == key
        &&& new[i].entry == Some(entry)
        &&& forall|j: int| 0 <= j < old.len() && j != i ==> new[j] == old[j]
    } else {
        &&& new.len() == old.len() + 1
        &&& new.last().key@ == key
        &&& new.last().entry == Some(entry)
        &&& forall|j: int| 0 <= j < old.len() ==> new[j] == old[j]
    }
}

pub open spec fn sat_dec(x: u64) -> int {
    if x > 0 { x - 1 } else { 0 }
}

/// Counters after folding in a callback. `redelivered` marks a Skipped
/// callback for a child already processed: the skip overrides the earlier
/// result `prev`.
pub open spec fn next_success(success: u64, status: NodeExecutionStatus, redelivered: bool, prev: Option<NodeExecutionStatus>) -> int {
    if redelivered {
        (if prev == Some(NodeExecutionStatus::Success) { sat_dec(success) } else { success as int }) + 1
    } else if status == NodeExecutionStatus::Success || status == NodeExecutionStatus::Skipped {
        success + 1
    } else {
        success as int
    }
}

pub open spec fn next_failed(failed: u64, status: NodeExecutionStatus, redelivered: bool, prev: Option<NodeExecutionStatus>) -> int {
    if redelivered {
        if prev == Some(NodeExecutionStatus::Failed) { sat_dec(failed) } else { failed as int }
    } else if status == NodeExecutionStatus::Failed {
        failed + 1
    } else {
        failed as int
    }
}

pub open spec fn next_skipped(skipped: u64, status: NodeExecutionStatus, redelivered: bool) -> int {
    if redelivered || status == NodeExecutionStatus::Skipped { skipped + 1 } else { skipped as int }
}

/// `max_failures` is an early-abort threshold.
pub open spec fn aborts(max_failures: Option<u32>, failed: int) -> bool {
    match max_failures {
        Some(m) => failed >= m,
        None => false,
    }
}

pub open spec fn min_int(a: int, b: int) -> int {
    if a <= b { a } else { b }
}

/// Dispatched count after a callback that leaves the container running.
pub open spec fn next_dispatched(mode: ParallelMode, success: int, failed: int, dispatched: int, total: int, concurrency: int) -> int {
    match mode {
        ParallelMode::Rolling => if dispatched < total { dispatched + 1 } else { dispatched },
        ParallelMode::Batch => if success + failed == dispatched { min_int(dispatched + concurrency, total) } else { dispatched },
    }
}

pub open spec fn kind_label(kind: ContainerKind) -> Seq<char> {
    match kind {
        ContainerKind::Parallel => "Parallel"@,
        ContainerKind::ForkJoin => "ForkJoin"@,
    }
}

pub open spec fn kind_unit(kind: ContainerKind) -> Seq<char> {
    match kind {
        ContainerKind::Parallel => " items"@,
        ContainerKind::ForkJoin => " tasks"@,
    }
}

/// "<Kind> aborted: {failed} failures reached max_failures={max}"
pub open spec fn abort_message(kind: ContainerKind, failed: nat, max: nat) -> Seq<char> {
    kind_label(kind) + " aborted: "@ + decimal(failed) + " failures reached max_failures="@ + decimal(max)
}

/// "<Kind> completed with {failed} failures out of {total} items|tasks"
pub open spec fn failures_message(kind: ContainerKind, failed: nat, total: nat) -> Seq<char> {
    kind_label(kind) + " completed with "@ + decimal(failed) + " failures out of "@ + decimal(total) + kind_unit(kind)
}

/// `jobs` dispatch the children `from .. to` of the scope's node, in order.
pub open spec fn dispatches_range(jobs: Seq<ExecuteTaskJob>, scope: ContainerScope, from: int, to: int) -> bool {
    &&& jobs.len() == (if to > from { to - from } else { 0 })
    &&& forall|j: int| 0 <= j < jobs.len() ==> task_job_matches(
        #[trigger] jobs[j],
        indexed_child_id(scope.workflow_instance_id@, scope.node_id@, (from + j) as nat),
        scope.tenant_id@,
        scope.workflow_instance_id@,
        scope.node_id@,
        Some(scope.task_instance_id@),
        Some((from + j) as usize),
    )
}

/// What folding one callback into a container does when the callback is not a
/// duplicate to be ignored.
pub open spec fn callback_step<P>(
    kind: ContainerKind,
    key: Option<Seq<char>>,
    concurrency: u32,
    mode: ParallelMode,
    max_failures: Option<u32>,
    scope: ContainerScope,
    old: ContainerState<P>,
    new: ContainerState<P>,
    old_error: Option<String>,
    new_error: Option<String>,
    r: ExecutionResult<P>,
    child: Seq<char>,
    status: NodeExecutionStatus,
    output: Option<P>,
    error: Option<String>,
) -> bool {
    let redelivered = views(old.processed_callbacks@).contains(child);
    let prev = match key { Some(k) => recorded_status(old.results@, k), None => None };
    let s = next_success(old.success_count, status, redelivered, prev);
    let f = next_failed(old.failed_count, status, redelivered, prev);
    let abort = aborts(max_failures, f);
    let done = s + f == old.total;
    let nd = next_dispatched(mode, s, f, old.dispatched_count as int, old.total as int, concurrency as int);
    &&& new.success_count == s
    &&& new.failed_count == f
    &&& new.skipped_count == next_skipped(old.skipped_count, status, redelivered)
    &&& new.total == old.total
    &&& views(new.processed_callbacks@) == views(old.processed_callbacks@).push(child)
    &&& match key {
        Some(k) => recorded(old.results@, new.results@, k, ResultEntry { status, output, error }),
        None => new.results == old.results,
    }
    &&& r.dispatch_workflow_jobs@.len() == 0
    &&& r.jump_to_node is None
    &&& if abort {
        &&& r.status == NodeExecutionStatus::Failed
        &&& r.dispatch_jobs@.len() == 0
        &&& new_error matches Some(e) && e@ == abort_message(kind, f as nat, max_failures->0 as nat)
        &&& new.dispatched_count == old.dispatched_count
    } else if done {
        &&& r.status == (if f > 0 { NodeExecutionStatus::Failed } else { NodeExecutionStatus::Success })
        &&& r.dispatch_jobs@.len() == 0
        &&& (if f > 0 {
            new_error matches Some(e) && e@ == failures_message(kind, f as nat, old.total as nat)
        } else {
            new_error == old_error
        })
        &&& new.dispatched_count == old.dispatched_count
    } else {
        &&& r.status == NodeExecutionStatus::Await
        &&& new_error == old_error
        &&& new.dispatched_count == nd
        &&& dispatches_range(r.dispatch_jobs@, scope, old.dispatched_count as int, nd)
    }
}

/// What folding one callback into a container does: a repeated callback that
/// is not a Skipped override is ignored (nothing changes and nothing is
/// dispatched); any other callback takes a `callback_step`.
pub open spec fn callback_spec<P>(
    kind: ContainerKind,
    key: Option<Seq<char>>,
    concurrency: u32,
    mode: ParallelMode,
    max_failures: Option<u32>,
    scope: ContainerScope,
    old: ContainerState<P>,
    new: ContainerState<P>,
    old_error: Option<String>,
    new_error: Option<String>,
    r: ExecutionResult<P>,
    child: Seq<char>,
    status: NodeExecutionStatus,
    output: Option<P>,
    error: Option<String>,
) -> bool {
    if views(old.processed_callbacks@).contains(child) && status != NodeExecutionStatus::Skipped {
        &&& new == old
        &&& new_error == old_error
        &&& r.status == NodeExecutionStatus::Await
        &&& r.dispatch_jobs@.len() == 0
        &&& r.dispatch_workflow_jobs@.len() == 0
        &&& r.jump_to_node is None
    } else {
        callback_step(kind, key, concurrency, mode, max_failures, scope, old, new, old_error, new_error, r, child, status, output, error)
    }
}

/// Overflow bounds the container arithmetic needs.
/// A callback the container already folded in, redelivered with another
/// status than Skipped: it is ignored and nothing is counted.
pub open spec fn callback_ignored<P>(state: ContainerState<P>, child: Seq<char>, status: NodeExecutionStatus) -> bool {
    views(state.processed_callbacks@).contains(child) && status != NodeExecutionStatus::Skipped
}

pub open spec fn counters_fit<P>(state: ContainerState<P>, concurrency: u32) -> bool {
    &&& state.success_count + state.failed_count + 1 <= u64::MAX
    &&& state.skipped_count < u64::MAX
    &&& state.dispatched_count + concurrency <= u64::MAX
    &&& state.total <= usize::MAX
}

fn contains_string(v: &Vec<String>, s: &String) -> (r: bool)
    ensures
        r == views(v@).contains(s@),
{
    let mut i: usize = 0;
    while i < v.len()
        invariant
            i <= v.len(),
            forall|j: int| 0 <= j < i ==> v@[j]@ != s@,
        decreases v.len() - i,
    {
        if v[i] == *s {
            assert(views(v@)[i as int] == s@);
            return true;
        }
        i = i + 1;
    }
    proof {
        if views(v@).contains(s@) {
            let j = choose|j: int| 0 <= j < views(v@).len() && views(v@)[j] == s@;
            assert(v@[j]@ == s@);
        }
    }
    false
}

fn find_slot<P>(results: &Vec<ResultSlot<P>>, key: &String) -> (r: Option<usize>)
    ensures
        match r {
            Some(i) => i < results.len() && i as int == first_index(slot_keys(results@), key@),
            None => first_index(slot_keys(results@), key@) == -1,
        },
{
    let ghost keys = slot_keys(results@);
    let mut i: usize = 0;
    while i < results.len()
        invariant
            i <= results.len(),
            keys == slot_keys(results@),
            forall|j: int| 0 <= j < i ==> keys[j] != key@,
        decreases results.len() - i,
    {
        if results[i].key == *key {
            proof {
                assert(keys[i as int] == key@);
                assert(keys.contains(key@));
                let c = choose|c: int| 0 <= c < keys.len() && keys[c] == key@ && forall|j: int| 0 <= j < c ==> keys[j] != key@;
                assert(c == i) by {
                    if c < i {
                        assert(keys[c] != key@);
                    } else if c > i {
                        assert(keys[i as int] != key@);
                    }
                }
            }
            return Some(i);
        }
        i = i + 1;
    }
    proof {
        if keys.contains(key@) {
            let j = choose|j: int| 0 <= j < keys.len() && keys[j] == key@;
            assert(keys[j] != key@);
        }
    }
    None
}

fn lookup_status<P>(results: &Vec<ResultSlot<P>>, key: &String) -> (r: Option<NodeExecutionStatus>)
    ensures
        r == recorded_status(results@, key@),
{
    match find_slot(results, key) {
        Some(i) => match &results[i].entry {
            Some(e) => Some(e.status),
            None => None,
        },
        None => None,
    }
}

fn record_result<P>(results: &mut Vec<ResultSlot<P>>, key: String, entry: ResultEntry<P>)
    ensures
        recorded(old(results)@, final(results)@, key@, entry),
{
    match find_slot(results, &key) {
        Some(i) => {
            results.set(i, ResultSlot { key, entry: Some(entry) });
        },
        None => {
            results.push(ResultSlot { key, entry: Some(entry) });
        },
    }
}

fn kind_message_start(kind: ContainerKind, out: &mut Vec<char>)
    ensures
        final(out)@ == old(out)@ + kind_label(kind),
{
    match kind {
        ContainerKind::Parallel => push_str_chars("Parallel", out),
        ContainerKind::ForkJoin => push_str_chars("ForkJoin", out),
    }
}

fn abort_text(kind: ContainerKind, failed: u64, max: u32) -> (s: String)
    ensures
        s@ == abort_message(kind, failed as nat, max as nat),
{
    let mut v: Vec<char> = Vec::new();
    kind_message_start(kind, &mut v);
    push_str_chars(" aborted: ", &mut v);
    push_decimal_u64(failed, &mut v);
    push_str_chars(" failures reached max_failures=", &mut v);
    push_decimal_u64(max as u64, &mut v);
    assert(v@ =~= abort_message(kind, failed as nat, max as nat));
    string_from_chars(&v)
}

fn failures_text(kind: ContainerKind, failed: u64, total: u64) -> (s: String)
    ensures
        s@ == failures_message(kind, failed as nat, total as nat),
{
    let mut v: Vec<char> = Vec::new();
    kind_message_start(kind, &mut v);
    push_str_chars(" completed with ", &mut v);
    push_decimal_u64(failed, &mut v);
    push_str_chars(" failures out of ", &mut v);
    push_decimal_u64(total, &mut v);
    match kind {
        ContainerKind::Parallel => push_str_chars(" items", &mut v),
        ContainerKind::ForkJoin => push_str_chars(" tasks", &mut v),
    }
    assert(v@ =~= failures_message(kind, failed as nat, total as nat));
    string_from_chars(&v)
}

/// The job that dispatches child `index` of the scope's container node.
pub fn child_job(scope: &ContainerScope, index: usize) -> (job: ExecuteTaskJob)
    ensures
        task_job_matches(
            job,
            indexed_child_id(scope.workflow_instance_id@, scope.node_id@, index as nat),
            scope.tenant_id@,
            scope.workflow_instance_id@,
            scope.node_id@,
            Some(scope.task_instance_id@),
            Some(index),
        ),
{
    let id = indexed_child_task_id(scope.workflow_instance_id.as_str(), scope.node_id.as_str(), index);
    make_task_job(
        id,
        scope.tenant_id.as_str(),
        scope.workflow_instance_id.as_str(),
        scope.node_id.as_str(),
        Some(scope.task_instance_id.as_str()),
        Some(index),
    )
}

/// Jobs for children `from .. to`.
pub fn child_jobs(scope: &ContainerScope, from: u64, to: u64) -> (jobs: Vec<ExecuteTaskJob>)
    requires
        to <= usize::MAX,
    ensures
        dispatches_range(jobs@, *scope, from as int, to as int),
{
    let mut jobs: Vec<ExecuteTaskJob> = Vec::new();
    if to <= from {
        return jobs;
    }
    let mut i: u64 = from;
    while i < to
        invariant
            to <= usize::MAX,
            from <= i <= to,
            jobs@.len() == i - from,
            forall|j: int| 0 <= j < jobs@.len() ==> task_job_matches(
                #[trigger] jobs@[j],
                indexed_child_id(scope.workflow_instance_id@, scope.node_id@, (from + j) as nat),
                scope.tenant_id@,
                scope.workflow_instance_id@,
                scope.node_id@,
                Some(scope.task_instance_id@),
                Some((from + j) as usize),
            ),
        decreases to - i,
    {
        let job = child_job(scope, i as usize);
        let ghost n = jobs@.len();
        jobs.push(job);
        assert(jobs@[n as int] == job);
        assert(from + n == i);
        i = i + 1;
    }
    jobs
}

/// Fold one child callback into a container's state.
fn container_callback<P>(
    kind: ContainerKind,
    key: Option<String>,
    concurrency: u32,
    mode: ParallelMode,
    max_failures: Option<u32>,
    scope: &ContainerScope,
    state: &mut ContainerState<P>,
    node_error: &mut Option<String>,
    child_task_id: &str,
    status: NodeExecutionStatus,
    output: Option<P>,
    error_message: Option<String>,
) -> (r: ExecutionResult<P>)
    requires
        !callback_ignored(*old(state), child_task_id@, status) ==> counters_fit(*old(state), concurrency),
    ensures
        callback_spec(
            kind,
            match key { Some(k) => Some(k@), None => None },
            concurrency,
            mode,
            max_failures,
            *scope,
            *old(state),
            *final(state),
            *old(node_error),
            *final(node_error),
            r,
            child_task_id@,
            status,
            output,
            error_message,
        ),
{
    let child: String = child_task_id.to_owned();
    let redelivered = contains_string(&state.processed_callbacks, &child);
    if redelivered && status != NodeExecutionStatus::Skipped {
        return ExecutionResult::async_dispatch_multiple(Vec::new());
    }
    let ghost old_state = *state;
    let ghost prev = match &key { Some(k) => recorded_status(old_state.results@, k@), None => None };
    let mut success: u64 = state.success_count;
    let mut failed: u64 = state.failed_count;
    let mut skipped: u64 = state.skipped_count;
    let total: u64 = state.total;
    let mut dispatched: u64 = state.dispatched_count;

    if redelivered && status == NodeExecutionStatus::Skipped {
        let prev_status = match &key {
            Some(k) => lookup_status(&state.results, k),
            None => None,
        };
        assert(prev_status == prev);
        match prev_status {
            Some(NodeExecutionStatus::Failed) => {
                failed = if failed > 0 { failed - 1 } else { 0 };
            },
            Some(NodeExecutionStatus::Success) => {
                success = if success > 0 { success - 1 } else { 0 };
            },
            _ => {},
        }
        success = success + 1;
        skipped = skipped + 1;
    } else if status == NodeExecutionStatus::Success {
        success = success + 1;
    } else if status == NodeExecutionStatus::Skipped {
        success = success + 1;
        skipped = skipped + 1;
    } else if status == NodeExecutionStatus::Failed {
        failed = failed + 1;
    }

    match key {
        Some(k) => {
            record_result(&mut state.results, k, ResultEntry { status, output, error: error_message });
        },
        None => {},
    }

    let early_abort: bool = match max_failures {
        Some(m) => failed >= m as u64,
        None => false,
    };
    let all_done: bool = success + failed == total;

    let r: ExecutionResult<P> = if early_abort {
        let m: u32 = match max_failures {
            Some(m) => m,
            None => 0,
        };
        *node_error = Some(abort_text(kind, failed, m));
        ExecutionResult::failed()
    } else if all_done && failed > 0 {
        *node_error = Some(failures_text(kind, failed, total));
        ExecutionResult::failed()
    } else if all_done {
        ExecutionResult::success(None)
    } else {
        let jobs: Vec<ExecuteTaskJob> = match mode {
            ParallelMode::Rolling => {
                if dispatched < total {
                    let jobs = child_jobs(scope, dispatched, dispatched + 1);
                    dispatched = dispatched + 1;
                    jobs
                } else {
                    Vec::new()
                }
            },
            ParallelMode::Batch => {
                if success + failed == dispatched {
                    let sum: u64 = dispatched + concurrency as u64;
                    let end: u64 = if sum <= total { sum } else { total };
                    let jobs = child_jobs(scope, dispatched, end);
                    dispatched = end;
                    jobs
                } else {
                    Vec::new()
                }
            },
        };
        ExecutionResult::async_dispatch_multiple(jobs)
    };

    state.success_count = success;
    state.failed_count = failed;
    state.skipped_count = skipped;
    state.dispatched_count = dispatched;
    state.processed_callbacks.push(child);
    assert(views(state.processed_callbacks@) =~= views(old_state.processed_callbacks@).push(child_task_id@));
    r
}


/// Results table of a fresh Parallel node: one empty slot per item id.
pub open spec fn fresh_parallel_results<P>(results: Seq<ResultSlot<P>>, scope: ContainerScope, total: nat) -> bool {
    &&& results.len() == total
    &&& forall|i: int| 0 <= i < total ==> (#[trigger] results[i]).key@ == indexed_child_id(scope.workflow_instance_id@, scope.node_id@, i as nat)
        && results[i].entry is None
}

/// State of a container that has just dispatched its first `dispatched`
/// children out of `total`.
pub open spec fn fresh_counters<P>(state: ContainerState<P>, total: nat, dispatched: nat) -> bool {
    &&& state.total == total
    &&& state.dispatched_count == dispatched
    &&& state.success_count == 0
    &&& state.failed_count == 0
    &&& state.skipped_count == 0
    &&& state.processed_callbacks@.len() == 0
}

/// JSON pointer for an items path: kept when it starts with '/', otherwise
/// '/' followed by the path with '.' turned into '/'.
pub open spec fn pointer_path(p: Seq<char>) -> Seq<char> {
    if p.len() > 0 && p[0] == '/' {
        p
    } else {
        seq!['/'] + p.map_values(|c: char| if c == '.' { '/' } else { c })
    }
}

/// The JSON pointer at which a Parallel node finds its items.
pub fn items_pointer_path(items_path: &str) -> (r: String)
    ensures
        r@ == pointer_path(items_path@),
{
    let cs = str_chars(items_path);
    if cs.len() > 0 && cs[0] == '/' {
        return items_path.to_owned();
    }
    let mut v: Vec<char> = Vec::new();
    v.push('/');
    let mut i: usize = 0;
    while i < cs.len()
        invariant
            cs@ == items_path@,
            i <= cs.len(),
            v@ == seq!['/'] + cs@.take(i as int).map_values(|c: char| if c == '.' { '/' } else { c }),
        decreases cs.len() - i,
    {
        let c = cs[i];
        v.push(if c == '.' { '/' } else { c });
        i = i + 1;
        assert(v@ =~= seq!['/'] + cs@.take(i as int).map_values(|c: char| if c == '.' { '/' } else { c }));
    }
    assert(cs@.take(cs.len() as int) =~= cs@);
    string_from_chars(&v)
}

/// The number of items a Parallel node runs over, from what its items pointer
/// reached in the workflow's context and, only when nothing was there, in the
/// node's context: the length of an array, or `None` for anything else.
pub open spec fn items_len_of(in_workflow: Option<PointerHit>, in_node: Option<PointerHit>) -> Option<usize> {
    let hit = match in_workflow {
        Some(h) => Some(h),
        None => in_node,
    };
    match hit {
        Some(PointerHit::Array(n)) => Some(n),
        _ => None,
    }
}

/// The item count from the two lookups: the workflow's context wins whenever
/// something is at the pointer there, even a value that is no array.
pub fn items_len_from_lookups(in_workflow: Option<PointerHit>, in_node: Option<PointerHit>) -> (r: Option<usize>)
    ensures
        r == items_len_of(in_workflow, in_node),
{
    let hit = match in_workflow {
        Some(h) => Some(h),
        None => in_node,
    };
    match hit {
        Some(PointerHit::Array(n)) => Some(n),
        _ => None,
    }
}

/// Look a Parallel node's items up: at the pointer for `items_path`, first in
/// the workflow's context and, only when nothing is there, in the node's
/// context. The count is `items_len_of` what the lookups (`json_pointer`)
/// found.
pub fn resolve_items_len(workflow_context: &serde_json::Value, node_context: &serde_json::Value, items_path: &str)
    -> (r: Option<usize>)
    ensures
        ({
            let p = pointer_path(items_path@);
            let a = json_pointer(*workflow_context, p);
            r == items_len_of(a, if a is Some { None } else { json_pointer(*node_context, p) })
        }),
{
    let pointer = items_pointer_path(items_path);
    let in_workflow = json_pointer_hit(workflow_context, pointer.as_str());
    let in_node = match in_workflow {
        Some(_) => None,
        None => json_pointer_hit(node_context, pointer.as_str()),
    };
    let r = items_len_from_lookups(in_workflow, in_node);
    r
}

/// "Items path '{path}' did not resolve to a JSON array"
pub open spec fn items_not_array_message(path: Seq<char>) -> Seq<char> {
    "Items path '"@ + path + "' did not resolve to a JSON array"@
}

fn items_not_array_text(path: &str) -> (s: String)
    ensures
        s@ == items_not_array_message(path@),
{
    let mut v: Vec<char> = Vec::new();
    push_str_chars("Items path '", &mut v);
    push_str_chars(path, &mut v);
    push_str_chars("' did not resolve to a JSON array", &mut v);
    assert(v@ =~= items_not_array_message(path@));
    string_from_chars(&v)
}

/// Initial bookkeeping shared by both container kinds.
fn fresh_state<P>(total: u64, dispatched: u64, results: Vec<ResultSlot<P>>) -> (s: ContainerState<P>)
    ensures
        fresh_counters(s, total as nat, dispatched as nat),
        s.results == results,
{
    ContainerState {
        total,
        dispatched_count: dispatched,
        success_count: 0,
        failed_count: 0,
        skipped_count: 0,
        processed_callbacks: Vec::new(),
        results,
    }
}

/// What a started Parallel node records as its input.
#[derive(Debug, Clone)]
pub struct ParallelInput {
    pub items_path: String,
    pub item_alias: String,
    pub concurrency: u32,
    pub mode: ParallelMode,
    pub max_failures: Option<u32>,
}

/// What a started ForkJoin node records as its input: its branches' keys, in
/// order, and its dispatch settings.
#[derive(Debug, Clone)]
pub struct ForkJoinInput {
    pub task_keys: Vec<String>,
    pub concurrency: u32,
    pub mode: ParallelMode,
    pub max_failures: Option<u32>,
}

/// Runs one task template per item of a context array.
pub struct ParallelPlugin {}

impl ParallelPlugin {
    pub fn new() -> (p: Self) {
        ParallelPlugin {}
    }

    pub fn plugin_type(&self) -> (t: TaskType)
        ensures
            t == TaskType::Parallel,
    {
        TaskType::Parallel
    }

    /// Start a Parallel node over `items_len` items (`None` when the items path
    /// did not resolve to an array). Returns the result and, when children were
    /// dispatched, the node's input record and new container state.
    pub fn execute<P>(&self, template: &TaskTemplate, items_len: Option<usize>, scope: &ContainerScope)
        -> (r: Result<(ExecutionResult<P>, Option<(ParallelInput, ContainerState<P>)>), String>)
        ensures
            match *template {
                TaskTemplate::Parallel(t) => match items_len {
                    None => r matches Err(e) && e@ == items_not_array_message(t.items_path@),
                    Some(n) => r matches Ok((res, st)) && if n == 0 {
                        &&& res.status == NodeExecutionStatus::Success
                        &&& res.dispatch_jobs@.len() == 0
                        &&& res.dispatch_workflow_jobs@.len() == 0
                        &&& res.jump_to_node is None
                        &&& st is None
                    } else {
                        let first = min_int(n as int, t.concurrency as int);
                        &&& res.status == NodeExecutionStatus::Await
                        &&& res.dispatch_workflow_jobs@.len() == 0
                        &&& res.jump_to_node is None
                        &&& dispatches_range(res.dispatch_jobs@, *scope, 0, first)
                        &&& st matches Some((inp, s)) && fresh_counters(s, n as nat, first as nat)
                            && fresh_parallel_results(s.results@, *scope, n as nat)
                            && inp.items_path == t.items_path && inp.item_alias == t.item_alias
                            && inp.concurrency == t.concurrency && inp.mode == t.mode
                            && inp.max_failures == t.max_failures
                    },
                },
                _ => r matches Err(e) && e@ == "Invalid task template for ParallelPlugin"@,
            },
    {
        let t = match template {
            TaskTemplate::Parallel(t) => t,
            _ => {
                return Err("Invalid task template for ParallelPlugin".to_owned());
            },
        };
        let n: usize = match items_len {
            Some(n) => n,
            None => {
                return Err(items_not_array_text(t.items_path.as_str()));
            },
        };
        if n == 0 {
            return Ok((ExecutionResult::success(None), None));
        }
        let first: usize = if n <= t.concurrency as usize { n } else { t.concurrency as usize };
        let mut results: Vec<ResultSlot<P>> = Vec::new();
        let mut i: usize = 0;
        while i < n
            invariant
                i <= n,
                results@.len() == i,
                forall|j: int| 0 <= j < i ==> (#[trigger] results@[j]).key@ == indexed_child_id(
                    scope.workflow_instance_id@,
                    scope.node_id@,
                    j as nat,
                ) && results@[j].entry is None,
            decreases n - i,
        {
            let key = indexed_child_task_id(scope.workflow_instance_id.as_str(), scope.node_id.as_str(), i);
            results.push(ResultSlot { key, entry: None });
            i = i + 1;
        }
        let jobs = child_jobs(scope, 0, first as u64);
        let state = fresh_state(n as u64, first as u64, results);
        let input = ParallelInput {
            items_path: t.items_path.clone(),
            item_alias: t.item_alias.clone(),
            concurrency: t.concurrency,
            mode: t.mode,
            max_failures: t.max_failures,
        };
        Ok((ExecutionResult::async_dispatch_multiple(jobs), Some((input, state))))
    }

    /// Fold a child's callback into a Parallel node; results are keyed by the
    /// child task id.
    pub fn handle_callback<P>(
        &self,
        template: &TaskTemplate,
        scope: &ContainerScope,
        state: &mut ContainerState<P>,
        node_error: &mut Option<String>,
        child_task_id: &str,
        status: NodeExecutionStatus,
        output: Option<P>,
        error_message: Option<String>,
    ) -> (r: Result<ExecutionResult<P>, String>)
        requires
            !callback_ignored(*old(state), child_task_id@, status) ==> (template matches TaskTemplate::Parallel(t)
                ==> counters_fit(*old(state), t.concurrency)),
        ensures
            match *template {
                TaskTemplate::Parallel(t) => r matches Ok(res) && callback_spec(
                    ContainerKind::Parallel,
                    Some(child_task_id@),
                    t.concurrency,
                    t.mode,
                    t.max_failures,
                    *scope,
                    *old(state),
                    *final(state),
                    *old(node_error),
                    *final(node_error),
                    res,
                    child_task_id@,
                    status,
                    output,
                    error_message,
                ),
                _ => r matches Err(e) && e@ == "Invalid task template for ParallelPlugin"@
                    && *final(state) == *old(state) && *final(node_error) == *old(node_error),
            },
    {
        let t = match template {
            TaskTemplate::Parallel(t) => t,
            _ => {
                return Err("Invalid task template for ParallelPlugin".to_owned());
            },
        };
        let key: String = child_task_id.to_owned();
        Ok(container_callback(
            ContainerKind::Parallel,
            Some(key),
            t.concurrency,
            t.mode,
            t.max_failures,
            scope,
            state,
            node_error,
            child_task_id,
            status,
            output,
            error_message,
        ))
    }
}

/// Branch key a fork-join child reports under: the task at the index its id ends with.
pub open spec fn fork_key(tasks: Seq<ForkJoinTaskItem>, child: Seq<char>) -> Option<Seq<char>> {
    match usize_parse(last_dash_segment(child)) {
        Some(i) => if i < tasks.len() { Some(tasks[i as int].task_key@) } else { None },
        None => None,
    }
}

/// Results table of a fresh ForkJoin node: one empty slot per distinct branch key.
pub open spec fn fresh_forkjoin_results<P>(results: Seq<ResultSlot<P>>, tasks: Seq<ForkJoinTaskItem>) -> bool {
    &&& forall|i: int| 0 <= i < results.len() ==> (#[trigger] results[i]).entry is None
    &&& slot_keys(results).no_duplicates()
    &&& forall|k: Seq<char>| slot_keys(results).contains(k) <==> exists|i: int| 0 <= i < tasks.len() && #[trigger] tasks[i].task_key@ == k
}

/// Runs several different branches side by side.
pub struct ForkJoinPlugin {}

impl ForkJoinPlugin {
    pub fn new() -> (p: Self) {
        ForkJoinPlugin {}
    }

    pub fn plugin_type(&self) -> (t: TaskType)
        ensures
            t == TaskType::ForkJoin,
    {
        TaskType::ForkJoin
    }

    /// The branch key of the task whose index `child_task_id` ends with.
    pub fn resolve_task_key_by_child_id(tasks: &Vec<ForkJoinTaskItem>, child_task_id: &str) -> (r: Option<String>)
        ensures
            match r {
                Some(k) => fork_key(tasks@, child_task_id@) == Some(k@),
                None => fork_key(tasks@, child_task_id@) is None,
            },
    {
        match trailing_index(child_task_id) {
            Some(i) => {
                if i < tasks.len() {
                    Some(tasks[i].task_key.clone())
                } else {
                    None
                }
            },
            None => None,
        }
    }

    /// Start a ForkJoin node: dispatch the first `min(tasks, concurrency)`
    /// branches, and record the branches' keys and the dispatch settings as the
    /// node's input.
    pub fn execute<P>(&self, template: &TaskTemplate, scope: &ContainerScope)
        -> (r: Result<(ExecutionResult<P>, Option<(ForkJoinInput, ContainerState<P>)>), String>)
        ensures
            match *template {
                TaskTemplate::ForkJoin(t) => r matches Ok((res, st)) && if t.tasks@.len() == 0 {
                    &&& res.status == NodeExecutionStatus::Success
                    &&& res.dispatch_jobs@.len() == 0
                    &&& res.dispatch_workflow_jobs@.len() == 0
                    &&& res.jump_to_node is None
                    &&& st is None
                } else {
                    let n = t.tasks@.len();
                    let first = min_int(n as int, t.concurrency as int);
                    &&& res.status == NodeExecutionStatus::Await
                    &&& res.dispatch_workflow_jobs@.len() == 0
                    &&& res.jump_to_node is None
                    &&& dispatches_range(res.dispatch_jobs@, *scope, 0, first)
                    &&& st matches Some((inp, s)) && fresh_counters(s, n, first as nat)
                        && fresh_forkjoin_results(s.results@, t.tasks@)
                        && inp.task_keys@.len() == n
                        && (forall|j: int| 0 <= j < n ==> #[trigger] inp.task_keys@[j] == t.tasks@[j].task_key)
                        && inp.concurrency == t.concurrency && inp.mode == t.mode
                        && inp.max_failures == t.max_failures
                },
                _ => r matches Err(e) && e@ == "Invalid task template for ForkJoinPlugin"@,
            },
    {
        let t = match template {
            TaskTemplate::ForkJoin(t) => t,
            _ => {
                return Err("Invalid task template for ForkJoinPlugin".to_owned());
            },
        };
        let n: usize = t.tasks.len();
        if n == 0 {
            return Ok((ExecutionResult::success(None), None));
        }
        let first: usize = if n <= t.concurrency as usize { n } else { t.concurrency as usize };
        let mut results: Vec<ResultSlot<P>> = Vec::new();
        let mut task_keys: Vec<String> = Vec::new();
        let mut i: usize = 0;
        while i < n
            invariant
                i <= n,
                n == t.tasks@.len(),
                task_keys@.len() == i,
                forall|j: int| 0 <= j < i ==> #[trigger] task_keys@[j] == t.tasks@[j].task_key,
                forall|j: int| 0 <= j < results@.len() ==> (#[trigger] results@[j]).entry is None,
                slot_keys(results@).no_duplicates(),
                forall|k: Seq<char>| slot_keys(results@).contains(k) <==> exists|j: int| 0 <= j < i && #[trigger] t.tasks@[j].task_key@ == k,
            decreases n - i,
        {
            let key: String = t.tasks[i].task_key.clone();
            task_keys.push(key.clone());
            let ghost before = results@;
            match find_slot(&results, &key) {
                Some(idx) => {
                    proof {
                        assert(slot_keys(results@).contains(key@)) by {
                            if !slot_keys(results@).contains(key@) {
                                assert(first_index(slot_keys(results@), key@) == -1);
                            }
                        }
                        assert(key@ == t.tasks@[i as int].task_key@);
                        assert forall|k: Seq<char>| slot_keys(results@).contains(k) <==> exists|j: int| 0 <= j < i + 1 && #[trigger] t.tasks@[j].task_key@ == k by {
                            if slot_keys(results@).contains(k) {
                                assert(exists|j: int| 0 <= j < i && #[trigger] t.tasks@[j].task_key@ == k);
                                let j = choose|j: int| 0 <= j < i && #[trigger] t.tasks@[j].task_key@ == k;
                                assert(0 <= j < i + 1 && t.tasks@[j].task_key@ == k);
                            }
                            if exists|j: int| 0 <= j < i + 1 && #[trigger] t.tasks@[j].task_key@ == k {
                                let j = choose|j: int| 0 <= j < i + 1 && #[trigger] t.tasks@[j].task_key@ == k;
                                if j == i {
                                    assert(k == key@);
                                } else {
                                    assert(exists|j: int| 0 <= j < i && #[trigger] t.tasks@[j].task_key@ == k);
                                }
                            }
                        }
                    }
                },
                None => {
                    results.push(ResultSlot { key, entry: None });
                    proof {
                        assert(slot_keys(results@) =~= slot_keys(before).push(t.tasks@[i as int].task_key@));
                        assert(!slot_keys(before).contains(t.tasks@[i as int].task_key@));
                        assert forall|k: Seq<char>| slot_keys(results@).contains(k) <==> exists|j: int| 0 <= j < i + 1 && #[trigger] t.tasks@[j].task_key@ == k by {
                            if slot_keys(results@).contains(k) {
                                if k != t.tasks@[i as int].task_key@ {
                                    let p = choose|p: int| 0 <= p < slot_keys(results@).len() && slot_keys(results@)[p] == k;
                                    assert(slot_keys(before)[p] == k);
                                    assert(slot_keys(before).contains(k));
                                    let j = choose|j: int| 0 <= j < i && #[trigger] t.tasks@[j].task_key@ == k;
                                    assert(0 <= j < i + 1 && t.tasks@[j].task_key@ == k);
                                } else {
                                    assert(t.tasks@[i as int].task_key@ == k);
                                }
                            }
                            if exists|j: int| 0 <= j < i + 1 && #[trigger] t.tasks@[j].task_key@ == k {
                                let j = choose|j: int| 0 <= j < i + 1 && #[trigger] t.tasks@[j].task_key@ == k;
                                if j < i {
                                    assert(slot_keys(before).contains(k));
                                    let p = choose|p: int| 0 <= p < slot_keys(before).len() && slot_keys(before)[p] == k;
                                    assert(slot_keys(results@)[p] == k);
                                } else {
                                    assert(slot_keys(results@)[before.len() as int] == k);
                                }
                            }
                        }
                    }
                },
            }
            i = i + 1;
        }
        let jobs = child_jobs(scope, 0, first as u64);
        let state = fresh_state(n as u64, first as u64, results);
        let input = ForkJoinInput { task_keys, concurrency: t.concurrency, mode: t.mode, max_failures: t.max_failures };
        Ok((ExecutionResult::async_dispatch_multiple(jobs), Some((input, state))))
    }

    /// Fold a child's callback into a ForkJoin node; results are keyed by the
    /// branch key the child id resolves to (not recorded when it resolves to none).
    pub fn handle_callback<P>(
        &self,
        template: &TaskTemplate,
        scope: &ContainerScope,
        state: &mut ContainerState<P>,
        node_error: &mut Option<String>,
        child_task_id: &str,
        status: NodeExecutionStatus,
        output: Option<P>,
        error_message: Option<String>,
    ) -> (r: Result<ExecutionResult<P>, String>)
        requires
            !callback_ignored(*old(state), child_task_id@, status) ==> (template matches TaskTemplate::ForkJoin(t)
                ==> counters_fit(*old(state), t.concurrency)),
        ensures
            match *template {
                TaskTemplate::ForkJoin(t) => r matches Ok(res) && callback_spec(
                    ContainerKind::ForkJoin,
                    fork_key(t.tasks@, child_task_id@),
                    t.concurrency,
                    t.mode,
                    t.max_failures,
                    *scope,
                    *old(state),
                    *final(state),
                    *old(node_error),
                    *final(node_error),
                    res,
                    child_task_id@,
                    status,
                    output,
                    error_message,
                ),
                _ => r matches Err(e) && e@ == "Invalid task template for ForkJoinPlugin"@
                    && *final(state) == *old(state) && *final(node_error) == *old(node_error),
            },
    {
        let t = match template {
            TaskTemplate::ForkJoin(t) => t,
            _ => {
                return Err("Invalid task template for ForkJoinPlugin".to_owned());
            },
        };
        let key = Self::resolve_task_key_by_child_id(&t.tasks, child_task_id);
        Ok(container_callback(
            ContainerKind::ForkJoin,
            key,
            t.concurrency,
            t.mode,
            t.max_failures,
            scope,
            state,
            node_error,
            child_task_id,
            status,
            output,
            error_message,
        ))
    }
}


/// Delivering the same non-Skipped callback a second time changes nothing and
/// dispatches nothing: each child is counted once however often its callback
/// is delivered.
pub proof fn lemma_redelivery_is_ignored<P>(
    kind: ContainerKind,
    key: Option<Seq<char>>,
    concurrency: u32,
    mode: ParallelMode,
    max_failures: Option<u32>,
    scope: ContainerScope,
    s0: ContainerState<P>,
    s1: ContainerState<P>,
    s2: ContainerState<P>,
    e0: Option<String>,
    e1: Option<String>,
    e2: Option<String>,
    r1: ExecutionResult<P>,
    r2: ExecutionResult<P>,
    child: Seq<char>,
    status: NodeExecutionStatus,
    output1: Option<P>,
    error1: Option<String>,
    output2: Option<P>,
    error2: Option<String>,
)
    requires
        status != NodeExecutionStatus::Skipped,
        callback_spec(kind, key, concurrency, mode, max_failures, scope, s0, s1, e0, e1, r1, child, status, output1, error1),
        callback_spec(kind, key, concurrency, mode, max_failures, scope, s1, s2, e1, e2, r2, child, status, output2, error2),
    ensures
        s2 == s1,
        e2 == e1,
        r2.status == NodeExecutionStatus::Await,
        r2.dispatch_jobs@.len() == 0,
        r2.dispatch_workflow_jobs@.len() == 0,
{
    if !views(s0.processed_callbacks@).contains(child) {
        let n = s0.processed_callbacks@.len();
        assert(views(s1.processed_callbacks@)[n as int] == child);
    }
    assert(views(s1.processed_callbacks@).contains(child));
}

/// A first callback that reports Success, Failed or Skipped completes exactly
/// one child: successes plus failures grow by one, and skips by one exactly
/// when the child was skipped.
pub proof fn lemma_fresh_callback_counts_once<P>(
    kind: ContainerKind,
    key: Option<Seq<char>>,
    concurrency: u32,
    mode: ParallelMode,
    max_failures: Option<u32>,
    scope: ContainerScope,
    old: ContainerState<P>,
    new: ContainerState<P>,
    old_error: Option<String>,
    new_error: Option<String>,
    r: ExecutionResult<P>,
    child: Seq<char>,
    status: NodeExecutionStatus,
    output: Option<P>,
    error: Option<String>,
)
    requires
        !views(old.processed_callbacks@).contains(child),
        status == NodeExecutionStatus::Success || status == NodeExecutionStatus::Failed
            || status == NodeExecutionStatus::Skipped,
        callback_spec(kind, key, concurrency, mode, max_failures, scope, old, new, old_error, new_error, r, child, status, output, error),
    ensures
        new.success_count + new.failed_count == old.success_count + old.failed_count + 1,
        new.skipped_count == old.skipped_count + (if status == NodeExecutionStatus::Skipped { 1int } else { 0int }),
        views(new.processed_callbacks@).contains(child),
{
    let n = old.processed_callbacks@.len();
    assert(views(new.processed_callbacks@)[n as int] == child);
}

/// A Skipped callback for a child whose result was recorded as Failed turns
/// that failure into a (skipped) success.
pub proof fn lemma_skip_overrides_failure<P>(
    kind: ContainerKind,
    key: Seq<char>,
    concurrency: u32,
    mode: ParallelMode,
    max_failures: Option<u32>,
    scope: ContainerScope,
    old: ContainerState<P>,
    new: ContainerState<P>,
    old_error: Option<String>,
    new_error: Option<String>,
    r: ExecutionResult<P>,
    child: Seq<char>,
    output: Option<P>,
    error: Option<String>,
)
    requires
        views(old.processed_callbacks@).contains(child),
        recorded_status(old.results@, key) == Some(NodeExecutionStatus::Failed),
        old.failed_count > 0,
        callback_spec(kind, Some(key), concurrency, mode, max_failures, scope, old, new, old_error, new_error, r, child, NodeExecutionStatus::Skipped, output, error),
    ensures
        new.failed_count == old.failed_count - 1,
        new.success_count == old.success_count + 1,
        new.skipped_count == old.skipped_count + 1,
        new.success_count + new.failed_count == old.success_count + old.failed_count,
{
}

/// Dispatching only moves forward and never past the number of children.
pub proof fn lemma_dispatch_progress<P>(
    kind: ContainerKind,
    key: Option<Seq<char>>,
    concurrency: u32,
    mode: ParallelMode,
    max_failures: Option<u32>,
    scope: ContainerScope,
    old: ContainerState<P>,
    new: ContainerState<P>,
    old_error: Option<String>,
    new_error: Option<String>,
    r: ExecutionResult<P>,
    child: Seq<char>,
    status: NodeExecutionStatus,
    output: Option<P>,
    error: Option<String>,
)
    requires
        old.dispatched_count <= old.total,
        callback_spec(kind, key, concurrency, mode, max_failures, scope, old, new, old_error, new_error, r, child, status, output, error),
    ensures
        old.dispatched_count <= new.dispatched_count <= new.total,
        new.total == old.total,
{
}

/// How a waiting container dispatches after a callback. In Batch mode the
/// next batch goes out only once every dispatched child has reported (the
/// counted successes and failures reach the dispatched count): then the next
/// `concurrency` children, or as many as are left, are dispatched; before
/// that nothing is dispatched and the dispatched count stays. In Rolling mode
/// each callback that leaves the node waiting dispatches one more child while
/// any is left.
pub proof fn lemma_waiting_dispatch<P>(
    kind: ContainerKind,
    key: Option<Seq<char>>,
    concurrency: u32,
    mode: ParallelMode,
    max_failures: Option<u32>,
    scope: ContainerScope,
    old: ContainerState<P>,
    new: ContainerState<P>,
    old_error: Option<String>,
    new_error: Option<String>,
    r: ExecutionResult<P>,
    child: Seq<char>,
    status: NodeExecutionStatus,
    output: Option<P>,
    error: Option<String>,
)
    requires
        old.dispatched_count <= old.total,
        callback_spec(kind, key, concurrency, mode, max_failures, scope, old, new, old_error, new_error, r, child, status, output, error),
        r.status == NodeExecutionStatus::Await,
    ensures
        mode == ParallelMode::Batch && new.success_count + new.failed_count != old.dispatched_count ==> {
            &&& new.dispatched_count == old.dispatched_count
            &&& r.dispatch_jobs@.len() == 0
        },
        mode == ParallelMode::Batch && new.success_count + new.failed_count == old.dispatched_count
            && !callback_ignored(old, child, status) ==> {
            &&& old.dispatched_count + concurrency <= old.total ==> new.dispatched_count == old.dispatched_count + concurrency
            &&& old.dispatched_count + concurrency > old.total ==> new.dispatched_count == old.total
            &&& r.dispatch_jobs@.len() == new.dispatched_count - old.dispatched_count
        },
        mode == ParallelMode::Rolling && !callback_ignored(old, child, status) ==> {
            &&& old.dispatched_count < old.total ==> new.dispatched_count == old.dispatched_count + 1
            &&& old.dispatched_count == old.total ==> new.dispatched_count == old.total
            &&& r.dispatch_jobs@.len() == new.dispatched_count - old.dispatched_count
        },
        callback_ignored(old, child, status) ==> new.dispatched_count == old.dispatched_count && r.dispatch_jobs@.len() == 0,
{
}

/// The outcome of a callback: the node succeeds only when every child has
/// completed and none failed; it fails only when the failure threshold is
/// reached or every child has completed with some failure; otherwise it keeps
/// waiting. Only a waiting node dispatches further children.
pub proof fn lemma_outcome<P>(
    kind: ContainerKind,
    key: Option<Seq<char>>,
    concurrency: u32,
    mode: ParallelMode,
    max_failures: Option<u32>,
    scope: ContainerScope,
    old: ContainerState<P>,
    new: ContainerState<P>,
    old_error: Option<String>,
    new_error: Option<String>,
    r: ExecutionResult<P>,
    child: Seq<char>,
    status: NodeExecutionStatus,
    output: Option<P>,
    error: Option<String>,
)
    requires
        callback_spec(kind, key, concurrency, mode, max_failures, scope, old, new, old_error, new_error, r, child, status, output, error),
    ensures
        r.status == NodeExecutionStatus::Success ==> new.failed_count == 0
            && new.success_count == new.total && !aborts(max_failures, new.failed_count as int),
        r.status == NodeExecutionStatus::Failed ==> aborts(max_failures, new.failed_count as int)
            || (new.success_count + new.failed_count == new.total && new.failed_count > 0),
        r.status == NodeExecutionStatus::Success || r.status == NodeExecutionStatus::Failed
            || r.status == NodeExecutionStatus::Await,
        r.status != NodeExecutionStatus::Await ==> r.dispatch_jobs@.len() == 0,
{
}

/// Every child a ForkJoin node dispatches reports back under its own branch key.
pub proof fn lemma_fork_child_resolves(tasks: Seq<ForkJoinTaskItem>, wf: Seq<char>, node: Seq<char>, index: usize)
    requires
        index < tasks.len(),
    ensures
        fork_key(tasks, indexed_child_id(wf, node, index as nat)) == Some(tasks[index as int].task_key@),
{
    lemma_indexed_child_id_index(wf, node, index);
}

} // verus!

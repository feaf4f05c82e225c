//! Human approval of a workflow step: who may decide, how decisions combine,
//! and the life of an approval instance.

use vstd::prelude::*;
use crate::status::NodeExecutionStatus;
use crate::template::{ApprovalMode, ApprovalTemplate, ApproverRule};
use crate::jobs::opt_chars;
use crate::outside::{json_get, json_member, new_uuid_v4, now_unix_seconds, JsonMember, JsonMemberView};
use crate::text::{push_str_chars, string_from_chars};

verus! {

#[derive(Debug, Clone, Copy, PartialEq, Eq, Structural)]
pub enum ApprovalStatus {
    Pending,
    Approved,
    Rejected,
}

#[derive(Debug, Clone, Copy, PartialEq, Eq, Structural)]
pub enum Decision {
    Approve,
    Reject,
}

/// One approver's decision. Times are Unix seconds.
#[derive(Debug, Clone)]
pub struct ApprovalDecision {
    pub user_id: String,
    pub decision: Decision,
    pub comment: Option<String>,
    pub decided_at: i64,
}

/// An approval waiting on (or decided by) its approvers. Times are Unix seconds.
#[derive(Debug, Clone)]
pub struct ApprovalInstanceEntity {
    pub id: String,
    pub tenant_id: String,
    pub workflow_instance_id: String,
    pub node_id: String,
    pub title: String,
    pub description: Option<String>,
    pub approval_mode: ApprovalMode,
    pub approvers: Vec<String>,
    pub decisions: Vec<ApprovalDecision>,
    pub status: ApprovalStatus,
    pub created_at: i64,
    pub updated_at: i64,
    pub expires_at: Option<i64>,
    pub applicant_id: Option<String>,
}

pub open spec fn views(v: Seq<String>) -> Seq<Seq<char>> {
    v.map_values(|s: String| s@)
}

/// Number of decisions equal to `d`.
pub open spec fn count_decisions(ds: Seq<ApprovalDecision>, d: Decision) -> nat
    decreases ds.len(),
{
    if ds.len() == 0 {
        0
    } else {
        count_decisions(ds.drop_last(), d) + (if ds.last().decision == d { 1nat } else { 0nat })
    }
}

/// Status an approval reaches with the given decisions, if any:
/// Any: one approval approves, else one rejection rejects;
/// All: one rejection rejects, else every approver approving approves;
/// Majority: more than half approving approves, else more than half rejecting rejects.
pub open spec fn mode_outcome(mode: ApprovalMode, total: nat, approves: nat, rejects: nat) -> Option<ApprovalStatus> {
    match mode {
        ApprovalMode::Any => if approves >= 1 {
            Some(ApprovalStatus::Approved)
        } else if rejects >= 1 {
            Some(ApprovalStatus::Rejected)
        } else {
            None
        },
        ApprovalMode::All => if rejects >= 1 {
            Some(ApprovalStatus::Rejected)
        } else if approves == total {
            Some(ApprovalStatus::Approved)
        } else {
            None
        },
        ApprovalMode::Majority => {
            let threshold = total / 2 + 1;
            if approves >= threshold {
                Some(ApprovalStatus::Approved)
            } else if rejects >= threshold {
                Some(ApprovalStatus::Rejected)
            } else {
                None
            }
        },
    }
}

pub open spec fn evaluate(e: ApprovalInstanceEntity) -> Option<ApprovalStatus> {
    mode_outcome(
        e.approval_mode,
        e.approvers@.len(),
        count_decisions(e.decisions@, Decision::Approve),
        count_decisions(e.decisions@, Decision::Reject),
    )
}

fn count_of(ds: &Vec<ApprovalDecision>, d: Decision) -> (n: usize)
    ensures
        n == count_decisions(ds@, d),
{
    let mut n: usize = 0;
    let mut i: usize = 0;
    while i < ds.len()
        invariant
            i <= ds.len(),
            n == count_decisions(ds@.take(i as int), d),
            n <= i,
        decreases ds.len() - i,
    {
        assert(ds@.take(i + 1).drop_last() =~= ds@.take(i as int));
        if ds[i].decision == d {
            n = n + 1;
        }
        i = i + 1;
    }
    assert(ds@.take(ds.len() as int) =~= ds@);
    n
}

/// The status the decisions so far settle the approval on, if any.
pub fn evaluate_mode(entity: &ApprovalInstanceEntity) -> (r: Option<ApprovalStatus>)
    ensures
        r == evaluate(*entity),
{
    let total: usize = entity.approvers.len();
    let approves: usize = count_of(&entity.decisions, Decision::Approve);
    let rejects: usize = count_of(&entity.decisions, Decision::Reject);
    match entity.approval_mode {
        ApprovalMode::Any => {
            if approves >= 1 {
                Some(ApprovalStatus::Approved)
            } else if rejects >= 1 {
                Some(ApprovalStatus::Rejected)
            } else {
                None
            }
        },
        ApprovalMode::All => {
            if rejects >= 1 {
                Some(ApprovalStatus::Rejected)
            } else if approves == total {
                Some(ApprovalStatus::Approved)
            } else {
                None
            }
        },
        ApprovalMode::Majority => {
            let threshold: usize = total / 2 + 1;
            if approves >= threshold {
                Some(ApprovalStatus::Approved)
            } else if rejects >= threshold {
                Some(ApprovalStatus::Rejected)
            } else {
                None
            }
        },
    }
}

pub open spec fn status_name(s: ApprovalStatus) -> Seq<char> {
    match s {
        ApprovalStatus::Pending => "Pending"@,
        ApprovalStatus::Approved => "Approved"@,
        ApprovalStatus::Rejected => "Rejected"@,
    }
}

/// "approval {id} is already {status}"
pub open spec fn already_decided_message(id: Seq<char>, s: ApprovalStatus) -> Seq<char> {
    "approval "@ + id + " is already "@ + status_name(s)
}

/// "user {user} is not an approver for {id}"
pub open spec fn not_approver_message(user: Seq<char>, id: Seq<char>) -> Seq<char> {
    "user "@ + user + " is not an approver for "@ + id
}

/// "user {user} has already decided on {id}"
pub open spec fn repeated_decision_message(user: Seq<char>, id: Seq<char>) -> Seq<char> {
    "user "@ + user + " has already decided on "@ + id
}

pub open spec fn decided_by(ds: Seq<ApprovalDecision>, user: Seq<char>) -> bool {
    exists|i: int| 0 <= i < ds.len() && (#[trigger] ds[i]).user_id@ == user
}

/// `n` is `e` with one more decision, by `user`, recorded at `now`, and with
/// the status the decisions now settle on.
pub open spec fn decision_recorded(
    e: ApprovalInstanceEntity,
    n: ApprovalInstanceEntity,
    user: Seq<char>,
    decision: Decision,
    comment: Option<String>,
    now: i64,
) -> bool {
    &&& n.decisions@.len() == e.decisions@.len() + 1
    &&& n.decisions@.drop_last() == e.decisions@
    &&& n.decisions@.last().user_id@ == user
    &&& n.decisions@.last().decision == decision
    &&& n.decisions@.last().comment == comment
    &&& n.decisions@.last().decided_at == now
    &&& n.status == (match evaluate(n) { Some(s) => s, None => e.status })
    &&& n.updated_at == now
    &&& n.id == e.id
    &&& n.tenant_id == e.tenant_id
    &&& n.workflow_instance_id == e.workflow_instance_id
    &&& n.node_id == e.node_id
    &&& n.title == e.title
    &&& n.description == e.description
    &&& n.approval_mode == e.approval_mode
    &&& n.approvers == e.approvers
    &&& n.created_at == e.created_at
    &&& n.expires_at == e.expires_at
    &&& n.applicant_id == e.applicant_id
}

fn push_status_name(s: ApprovalStatus, out: &mut Vec<char>)
    ensures
        final(out)@ == old(out)@ + status_name(s),
{
    match s {
        ApprovalStatus::Pending => push_str_chars("Pending", out),
        ApprovalStatus::Approved => push_str_chars("Approved", out),
        ApprovalStatus::Rejected => push_str_chars("Rejected", out),
    }
}

fn contains_view(v: &Vec<String>, s: &str) -> (r: bool)
    ensures
        r == views(v@).contains(s@),
{
    let target: String = s.to_owned();
    let mut i: usize = 0;
    while i < v.len()
        invariant
            i <= v.len(),
            target@ == s@,
            forall|j: int| 0 <= j < i ==> v@[j]@ != s@,
        decreases v.len() - i,
    {
        if v[i] == target {
            assert(views(v@)[i as int] == s@);
            return true;
        }
        i = i + 1;
    }
    proof {
        if views(v@).contains(s@) {
            let j = choose|j: int| 0 <= j < views(v@).len() && views(v@)[j] == s@;
            assert(v@[j]@ == s@);
        }
    }
    false
}

fn has_decided(ds: &Vec<ApprovalDecision>, user: &str) -> (r: bool)
    ensures
        r == decided_by(ds@, user@),
{
    let target: String = user.to_owned();
    let mut i: usize = 0;
    while i < ds.len()
        invariant
            i <= ds.len(),
            target@ == user@,
            forall|j: int| 0 <= j < i ==> ds@[j].user_id@ != user@,
        decreases ds.len() - i,
    {
        if ds[i].user_id == target {
            return true;
        }
        i = i + 1;
    }
    false
}

/// Record `user`'s decision on a loaded approval at time `now` (Unix seconds).
///
/// Refused when the approval is no longer pending, when `user` is not one of
/// its approvers, or when `user` has decided already. Otherwise the decision
/// is appended, the status becomes what the decisions settle on (unchanged
/// when they settle nothing), and `updated_at` becomes `now`.
pub fn decide_at(
    entity: ApprovalInstanceEntity,
    user_id: &str,
    decision: Decision,
    comment: Option<String>,
    now: i64,
) -> (r: Result<ApprovalInstanceEntity, String>)
    ensures
        entity.status != ApprovalStatus::Pending ==> (r matches Err(e)
            && e@ == already_decided_message(entity.id@, entity.status)),
        entity.status == ApprovalStatus::Pending && !views(entity.approvers@).contains(user_id@)
            ==> (r matches Err(e) && e@ == not_approver_message(user_id@, entity.id@)),
        entity.status == ApprovalStatus::Pending && views(entity.approvers@).contains(user_id@)
            && decided_by(entity.decisions@, user_id@) ==> (r matches Err(e)
            && e@ == repeated_decision_message(user_id@, entity.id@)),
        entity.status == ApprovalStatus::Pending && views(entity.approvers@).contains(user_id@)
            && !decided_by(entity.decisions@, user_id@) ==> (r matches Ok(n)
            && decision_recorded(entity, n, user_id@, decision, comment, now)),
{
    if entity.status != ApprovalStatus::Pending {
        let mut v: Vec<char> = Vec::new();
        push_str_chars("approval ", &mut v);
        push_str_chars(entity.id.as_str(), &mut v);
        push_str_chars(" is already ", &mut v);
        push_status_name(entity.status, &mut v);
        assert(v@ =~= already_decided_message(entity.id@, entity.status));
        return Err(string_from_chars(&v));
    }
    if !contains_view(&entity.approvers, user_id) {
        let mut v: Vec<char> = Vec::new();
        push_str_chars("user ", &mut v);
        push_str_chars(user_id, &mut v);
        push_str_chars(" is not an approver for ", &mut v);
        push_str_chars(entity.id.as_str(), &mut v);
        assert(v@ =~= not_approver_message(user_id@, entity.id@));
        return Err(string_from_chars(&v));
    }
    if has_decided(&entity.decisions, user_id) {
        let mut v: Vec<char> = Vec::new();
        push_str_chars("user ", &mut v);
        push_str_chars(user_id, &mut v);
        push_str_chars(" has already decided on ", &mut v);
        push_str_chars(entity.id.as_str(), &mut v);
        assert(v@ =~= repeated_decision_message(user_id@, entity.id@));
        return Err(string_from_chars(&v));
    }
    let mut e = entity;
    let ghost before = e.decisions@;
    e.decisions.push(ApprovalDecision { user_id: user_id.to_owned(), decision, comment, decided_at: now });
    assert(e.decisions@.drop_last() =~= before);
    match evaluate_mode(&e) {
        Some(s) => {
            e.status = s;
        },
        None => {},
    }
    e.updated_at = now;
    Ok(e)
}

/// Mark an expired approval as rejected at time `now`.
pub fn expire_approval_at(approval: ApprovalInstanceEntity, now: i64) -> (r: ApprovalInstanceEntity)
    ensures
        r.status == ApprovalStatus::Rejected,
        r.updated_at == now,
        r.id == approval.id,
        r.decisions == approval.decisions,
        r.approvers == approval.approvers,
        r.workflow_instance_id == approval.workflow_instance_id,
        r.node_id == approval.node_id,
        r.tenant_id == approval.tenant_id,
        r.expires_at == approval.expires_at,
{
    let mut e = approval;
    e.status = ApprovalStatus::Rejected;
    e.updated_at = now;
    e
}

/// Record `user`'s decision on a loaded approval at the current time: as
/// `decide_at`, for some time the clock gave.
pub fn decide(
    entity: ApprovalInstanceEntity,
    user_id: &str,
    decision: Decision,
    comment: Option<String>,
) -> (r: Result<ApprovalInstanceEntity, String>)
    ensures
        entity.status != ApprovalStatus::Pending ==> (r matches Err(e)
            && e@ == already_decided_message(entity.id@, entity.status)),
        entity.status == ApprovalStatus::Pending && !views(entity.approvers@).contains(user_id@)
            ==> (r matches Err(e) && e@ == not_approver_message(user_id@, entity.id@)),
        entity.status == ApprovalStatus::Pending && views(entity.approvers@).contains(user_id@)
            && decided_by(entity.decisions@, user_id@) ==> (r matches Err(e)
            && e@ == repeated_decision_message(user_id@, entity.id@)),
        entity.status == ApprovalStatus::Pending && views(entity.approvers@).contains(user_id@)
            && !decided_by(entity.decisions@, user_id@) ==> (r matches Ok(n)
            && exists|now: i64| now >= 0 && decision_recorded(entity, n, user_id@, decision, comment, now)),
{
    let now = now_unix_seconds();
    decide_at(entity, user_id, decision, comment, now)
}

/// Mark an expired approval as rejected at the current time.
pub fn expire_approval(approval: ApprovalInstanceEntity) -> (r: ApprovalInstanceEntity)
    ensures
        r.status == ApprovalStatus::Rejected,
        r.updated_at >= 0,
        r.id == approval.id,
        r.decisions == approval.decisions,
        r.approvers == approval.approvers,
        r.workflow_instance_id == approval.workflow_instance_id,
        r.node_id == approval.node_id,
        r.tenant_id == approval.tenant_id,
        r.expires_at == approval.expires_at,
{
    let now = now_unix_seconds();
    expire_approval_at(approval, now)
}

/// Node status a decided (or pending) approval maps to.
pub open spec fn approval_node_status(s: ApprovalStatus) -> NodeExecutionStatus {
    match s {
        ApprovalStatus::Approved => NodeExecutionStatus::Success,
        ApprovalStatus::Rejected => NodeExecutionStatus::Failed,
        ApprovalStatus::Pending => NodeExecutionStatus::Suspended,
    }
}

/// The node status of an Approval node whose approval has this status.
pub fn approval_status_to_node_status(status: &ApprovalStatus) -> (r: NodeExecutionStatus)
    ensures
        r == approval_node_status(*status),
{
    match status {
        ApprovalStatus::Approved => NodeExecutionStatus::Success,
        ApprovalStatus::Rejected => NodeExecutionStatus::Failed,
        ApprovalStatus::Pending => NodeExecutionStatus::Suspended,
    }
}

/// Users named by approver rules, in rule order. `candidates[i]` holds the
/// users found for rule `i` when it names a role (from the role store) or a
/// context variable (a string, or the strings of an array); a `User` rule
/// names its user directly.
pub open spec fn rule_users(rule: ApproverRule, candidates: Seq<String>) -> Seq<Seq<char>> {
    match rule {
        ApproverRule::User(u) => seq![u@],
        _ => views(candidates),
    }
}

pub open spec fn named_users(rules: Seq<ApproverRule>, candidates: Seq<Vec<String>>) -> Seq<Seq<char>>
    decreases rules.len(),
{
    if rules.len() == 0 {
        Seq::empty()
    } else {
        named_users(rules.drop_last(), candidates) + rule_users(rules.last(), candidates[rules.len() - 1]@)
    }
}

/// `s` without repeats, each element kept at its first occurrence.
pub open spec fn dedup(s: Seq<Seq<char>>) -> Seq<Seq<char>>
    decreases s.len(),
{
    if s.len() == 0 {
        Seq::empty()
    } else {
        let d = dedup(s.drop_last());
        if d.contains(s.last()) { d } else { d.push(s.last()) }
    }
}

fn push_unique(out: &mut Vec<String>, u: String)
    ensures
        views(final(out)@) == (if views(old(out)@).contains(u@) { views(old(out)@) } else { views(old(out)@).push(u@) }),
{
    if !contains_view(out, u.as_str()) {
        out.push(u);
        assert(views(out@) =~= views(old(out)@).push(u@));
    }
}

proof fn lemma_dedup_push(s: Seq<Seq<char>>, x: Seq<char>)
    ensures
        dedup(s.push(x)) == (if dedup(s).contains(x) { dedup(s) } else { dedup(s).push(x) }),
{
    assert(s.push(x).drop_last() =~= s);
}

proof fn lemma_dedup_append(s: Seq<Seq<char>>, t: Seq<Seq<char>>, k: int)
    requires
        0 <= k < t.len(),
    ensures
        dedup(s + t.take(k + 1)) == (if dedup(s + t.take(k)).contains(t[k]) { dedup(s + t.take(k)) } else { dedup(s + t.take(k)).push(t[k]) }),
{
    assert(s + t.take(k + 1) =~= (s + t.take(k)).push(t[k]));
    lemma_dedup_push(s + t.take(k), t[k]);
}

/// The approvers the rules name, without repeats, in first-named order.
pub fn resolve_approvers(rules: &Vec<ApproverRule>, candidates: &Vec<Vec<String>>) -> (r: Vec<String>)
    requires
        candidates.len() == rules.len(),
    ensures
        views(r@) == dedup(named_users(rules@, candidates@)),
{
    let mut out: Vec<String> = Vec::new();
    let mut i: usize = 0;
    while i < rules.len()
        invariant
            i <= rules.len(),
            candidates.len() == rules.len(),
            views(out@) == dedup(named_users(rules@.take(i as int), candidates@)),
        decreases rules.len() - i,
    {
        let ghost base = named_users(rules@.take(i as int), candidates@);
        let ghost these = rule_users(rules@[i as int], candidates@[i as int]@);
        assert(named_users(rules@.take(i + 1), candidates@) == base + these) by {
            assert(rules@.take(i + 1).drop_last() =~= rules@.take(i as int));
        }
        match &rules[i] {
            ApproverRule::User(uid) => {
                proof {
                    lemma_dedup_append(base, these, 0);
                    assert(these.take(1) =~= these);
                    assert(these.take(0) =~= Seq::<Seq<char>>::empty());
                    assert(base + these.take(0) =~= base);
                }
                push_unique(&mut out, uid.clone());
            },
            _ => {
                let cs = &candidates[i];
                let mut j: usize = 0;
                assert(base + these.take(0) =~= base);
                while j < cs.len()
                    invariant
                        j <= cs.len(),
                        these == views(cs@),
                        views(out@) == dedup(base + these.take(j as int)),
                    decreases cs.len() - j,
                {
                    proof {
                        lemma_dedup_append(base, these, j as int);
                    }
                    push_unique(&mut out, cs[j].clone());
                    j = j + 1;
                }
                assert(these.take(cs.len() as int) =~= these);
            },
        }
        i = i + 1;
    }
    assert(rules@.take(rules.len() as int) =~= rules@);
    out
}

/// The strings among a JSON array's items, in order.
pub open spec fn list_strings(items: Seq<Option<Seq<char>>>) -> Seq<Seq<char>>
    decreases items.len(),
{
    if items.len() == 0 {
        Seq::empty()
    } else {
        list_strings(items.drop_last()) + match items.last() {
            Some(s) => seq![s],
            None => Seq::empty(),
        }
    }
}

/// The users a context variable names: a string names one user, an array
/// names its string items; an absent variable or any other value names none.
pub open spec fn member_users(m: Option<JsonMemberView>) -> Seq<Seq<char>> {
    match m {
        Some(JsonMemberView::Text(s)) => seq![s],
        Some(JsonMemberView::List(items)) => list_strings(items),
        _ => Seq::empty(),
    }
}

/// The users that context variable `name` of `context` names.
pub fn context_variable_users(context: &serde_json::Value, name: &str) -> (r: Vec<String>)
    ensures
        views(r@) == member_users(json_get(*context, name@)),
{
    let mut out: Vec<String> = Vec::new();
    match json_member(context, name) {
        Some(JsonMember::Text(s)) => {
            out.push(s);
            assert(views(out@) =~= seq![s@]);
        },
        Some(JsonMember::List(items)) => {
            let ghost iv = items@.map_values(|o: Option<String>| opt_chars(o));
            let mut i: usize = 0;
            assert(iv.take(0) =~= Seq::<Option<Seq<char>>>::empty());
            assert(views(out@) =~= list_strings(iv.take(0)));
            while i < items.len()
                invariant
                    i <= items.len(),
                    iv == items@.map_values(|o: Option<String>| opt_chars(o)),
                    views(out@) == list_strings(iv.take(i as int)),
                decreases items.len() - i,
            {
                assert(iv.take(i + 1).drop_last() =~= iv.take(i as int));
                match &items[i] {
                    Some(t) => {
                        out.push(t.clone());
                        assert(views(out@) =~= list_strings(iv.take(i as int)).push(t@));
                        assert(views(out@) =~= list_strings(iv.take(i + 1)));
                    },
                    None => {
                        assert(list_strings(iv.take(i + 1)) =~= list_strings(iv.take(i as int)));
                    },
                }
                i = i + 1;
            }
            assert(iv.take(items.len() as int) =~= iv);
        },
        _ => {
            assert(views(out@) =~= Seq::<Seq<char>>::empty());
        },
    }
    out
}

/// The users one rule names: its user, the users found for its role
/// (`role_users`), or the users its context variable names.
pub open spec fn rule_users_in(rule: ApproverRule, role_users: Seq<String>, context: serde_json::Value) -> Seq<Seq<char>> {
    match rule {
        ApproverRule::User(u) => seq![u@],
        ApproverRule::Role(_) => views(role_users),
        ApproverRule::ContextVariable(n) => member_users(json_get(context, n@)),
    }
}

/// Users named by approver rules in rule order, with the users of role rule
/// `i` in `role_users[i]` and context variables read from `context`.
pub open spec fn context_named_users(rules: Seq<ApproverRule>, role_users: Seq<Vec<String>>, context: serde_json::Value) -> Seq<Seq<char>>
    decreases rules.len(),
{
    if rules.len() == 0 {
        Seq::empty()
    } else {
        context_named_users(rules.drop_last(), role_users, context)
            + rule_users_in(rules.last(), role_users[rules.len() - 1]@, context)
    }
}

proof fn lemma_named_users_agree(rules: Seq<ApproverRule>, candidates: Seq<Vec<String>>, role_users: Seq<Vec<String>>, context: serde_json::Value)
    requires
        forall|j: int| 0 <= j < rules.len() ==> #[trigger] rule_users(rules[j], candidates[j]@) == rule_users_in(rules[j], role_users[j]@, context),
    ensures
        named_users(rules, candidates) == context_named_users(rules, role_users, context),
    decreases rules.len(),
{
    if rules.len() > 0 {
        let init = rules.drop_last();
        assert forall|j: int| 0 <= j < init.len() implies #[trigger] rule_users(init[j], candidates[j]@) == rule_users_in(init[j], role_users[j]@, context) by {
            assert(init[j] == rules[j]);
        }
        lemma_named_users_agree(init, candidates, role_users, context);
        assert(rule_users(rules[rules.len() - 1], candidates[rules.len() - 1]@) == rule_users_in(rules[rules.len() - 1], role_users[rules.len() - 1]@, context));
    }
}

/// The approvers of an approval node, without repeats, in first-named order:
/// a user rule names its user, a role rule the users the role store holds for
/// it (`role_users[i]`, which the caller looks up for role rules only), and a
/// context-variable rule the string, or the string items, of that variable of
/// the workflow's context (nobody when it is absent or another value).
pub fn approvers_in_context(rules: &Vec<ApproverRule>, role_users: &Vec<Vec<String>>, context: &serde_json::Value) -> (r: Vec<String>)
    requires
        role_users.len() == rules.len(),
    ensures
        views(r@) == dedup(context_named_users(rules@, role_users@, *context)),
{
    let mut candidates: Vec<Vec<String>> = Vec::new();
    let mut i: usize = 0;
    while i < rules.len()
        invariant
            i <= rules.len(),
            role_users.len() == rules.len(),
            candidates.len() == i,
            forall|j: int| 0 <= j < i ==> #[trigger] rule_users(rules@[j], candidates@[j]@) == rule_users_in(rules@[j], role_users@[j]@, *context),
        decreases rules.len() - i,
    {
        let c: Vec<String> = match &rules[i] {
            ApproverRule::User(_) => Vec::new(),
            ApproverRule::Role(_) => {
                let src = &role_users[i];
                let mut copy: Vec<String> = Vec::new();
                let mut k: usize = 0;
                while k < src.len()
                    invariant
                        k <= src.len(),
                        views(copy@) == views(src@.take(k as int)),
                    decreases src.len() - k,
                {
                    let item = src[k].clone();
                    let ghost before = copy@;
                    copy.push(item);
                    assert(src@.take(k + 1) =~= src@.take(k as int).push(src@[k as int]));
                    assert(copy@ =~= before.push(item));
                    assert(views(copy@) =~= views(before).push(item@));
                    assert(views(src@.take(k + 1)) =~= views(src@.take(k as int)).push(src@[k as int]@));
                    k = k + 1;
                }
                assert(src@.take(src.len() as int) =~= src@);
                copy
            },
            ApproverRule::ContextVariable(n) => context_variable_users(context, n.as_str()),
        };
        candidates.push(c);
        proof {
            assert forall|j: int| 0 <= j < i + 1 implies #[trigger] rule_users(rules@[j], candidates@[j]@) == rule_users_in(rules@[j], role_users@[j]@, *context) by {
                if j == i {
                    assert(candidates@[j] == c);
                }
            }
        }
        i = i + 1;
    }
    proof {
        lemma_named_users_agree(rules@, candidates@, role_users@, *context);
    }
    resolve_approvers(rules, &candidates)
}

/// A resolved approver list has no repeats and names exactly the users the
/// rules name.
pub proof fn lemma_dedup_is_set(s: Seq<Seq<char>>)
    ensures
        dedup(s).no_duplicates(),
        forall|x: Seq<char>| dedup(s).contains(x) <==> s.contains(x),
    decreases s.len(),
{
    if s.len() > 0 {
        let t = s.drop_last();
        lemma_dedup_is_set(t);
        let d = dedup(t);
        assert(s =~= t.push(s.last()));
        assert forall|x: Seq<char>| s.contains(x) <==> (t.contains(x) || x == s.last()) by {
            if s.contains(x) && x != s.last() {
                let i = choose|i: int| 0 <= i < s.len() && s[i] == x;
                assert(i < t.len());
                assert(t[i] == x);
            }
            if t.contains(x) {
                let i = choose|i: int| 0 <= i < t.len() && t[i] == x;
                assert(s[i] == x);
            }
            if x == s.last() {
                assert(s[s.len() - 1] == x);
            }
        }
        if !d.contains(s.last()) {
            assert forall|x: Seq<char>| d.push(s.last()).contains(x) <==> (d.contains(x) || x == s.last()) by {
                if d.push(s.last()).contains(x) && x != s.last() {
                    let i = choose|i: int| 0 <= i < d.push(s.last()).len() && d.push(s.last())[i] == x;
                    assert(i < d.len());
                    assert(d[i] == x);
                }
                if d.contains(x) {
                    let i = choose|i: int| 0 <= i < d.len() && d[i] == x;
                    assert(d.push(s.last())[i] == x);
                }
                if x == s.last() {
                    assert(d.push(s.last())[d.len() as int] == x);
                }
            }
            assert(d.push(s.last()).no_duplicates()) by {
                assert forall|i: int, j: int| 0 <= i < d.len() + 1 && 0 <= j < d.len() + 1 && i != j
                    implies d.push(s.last())[i] != d.push(s.last())[j] by {
                    if i == d.len() {
                        assert(d[j] != s.last());
                    } else if j == d.len() {
                        assert(d[i] != s.last());
                    }
                }
            }
        }
    }
}

/// "no approvers resolved from rules"
pub open spec fn no_approvers_message() -> Seq<char> {
    "no approvers resolved from rules"@
}

/// Build a new pending approval for a node with the resolved approvers, the
/// given id, at time `now`; it expires `timeout` seconds later when the
/// template sets a timeout. Refused when no approver was resolved.
pub fn build_approval(
    id: String,
    now: i64,
    tenant_id: &str,
    workflow_instance_id: &str,
    node_id: &str,
    template: &ApprovalTemplate,
    approvers: Vec<String>,
    applicant_id: Option<String>,
) -> (r: Result<ApprovalInstanceEntity, String>)
    requires
        template.timeout matches Some(t) ==> t <= i64::MAX / 1000 && now + t <= i64::MAX,
    ensures
        approvers@.len() == 0 ==> (r matches Err(e) && e@ == no_approvers_message()),
        approvers@.len() > 0 ==> (r matches Ok(a) && {
            &&& a.id == id
            &&& a.tenant_id@ == tenant_id@
            &&& a.workflow_instance_id@ == workflow_instance_id@
            &&& a.node_id@ == node_id@
            &&& a.title == template.title
            &&& a.description == template.description
            &&& a.approval_mode == template.approval_mode
            &&& a.approvers == approvers
            &&& a.decisions@.len() == 0
            &&& a.status == ApprovalStatus::Pending
            &&& a.created_at == now
            &&& a.updated_at == now
            &&& a.expires_at == (match template.timeout { Some(t) => Some((now + t) as i64), None => None })
            &&& a.applicant_id == applicant_id
        }),
{
    if approvers.len() == 0 {
        return Err("no approvers resolved from rules".to_owned());
    }
    let expires_at: Option<i64> = match template.timeout {
        Some(t) => Some(now + t as i64),
        None => None,
    };
    let description: Option<String> = match &template.description {
        Some(d) => Some(d.clone()),
        None => None,
    };
    Ok(ApprovalInstanceEntity {
        id,
        tenant_id: tenant_id.to_owned(),
        workflow_instance_id: workflow_instance_id.to_owned(),
        node_id: node_id.to_owned(),
        title: template.title.clone(),
        description,
        approval_mode: template.approval_mode,
        approvers,
        decisions: Vec::new(),
        status: ApprovalStatus::Pending,
        created_at: now,
        updated_at: now,
        expires_at,
        applicant_id,
    })
}

/// Create the approval of an Approval node with a fresh id at the current
/// time: as `build_approval`, for some id and time the outside calls gave.
pub fn create_approval(
    tenant_id: &str,
    workflow_instance_id: &str,
    node_id: &str,
    template: &ApprovalTemplate,
    approvers: Vec<String>,
    applicant_id: Option<String>,
) -> (r: Result<ApprovalInstanceEntity, String>)
    requires
        template.timeout matches Some(t) ==> t <= i64::MAX / 1000,
    ensures
        approvers@.len() == 0 ==> (r matches Err(e) && e@ == no_approvers_message()),
        approvers@.len() > 0 ==> (r matches Ok(a) && {
            &&& a.id@.len() == 36
            &&& a.tenant_id@ == tenant_id@
            &&& a.workflow_instance_id@ == workflow_instance_id@
            &&& a.node_id@ == node_id@
            &&& a.title == template.title
            &&& a.description == template.description
            &&& a.approval_mode == template.approval_mode
            &&& a.approvers == approvers
            &&& a.decisions@.len() == 0
            &&& a.status == ApprovalStatus::Pending
            &&& a.created_at >= 0
            &&& a.updated_at == a.created_at
            &&& a.expires_at == (match template.timeout { Some(t) => Some((a.created_at + t) as i64), None => None })
            &&& a.applicant_id == applicant_id
        }),
{
    let id = new_uuid_v4();
    let now = now_unix_seconds();
    build_approval(id, now, tenant_id, workflow_instance_id, node_id, template, approvers, applicant_id)
}

/// A decided approval stays decided: every further decision is refused.
pub proof fn lemma_decided_is_final(e: ApprovalInstanceEntity)
    requires
        e.status != ApprovalStatus::Pending,
    ensures
        e.status == ApprovalStatus::Approved || e.status == ApprovalStatus::Rejected,
{
}

/// In Any mode a single approval approves, whatever else was decided.
pub proof fn lemma_any_mode_one_approval(total: nat, approves: nat, rejects: nat)
    requires
        approves >= 1,
    ensures
        mode_outcome(ApprovalMode::Any, total, approves, rejects) == Some(ApprovalStatus::Approved),
{
}

/// In All mode a single rejection rejects, whatever else was decided.
pub proof fn lemma_all_mode_one_rejection(total: nat, approves: nat, rejects: nat)
    requires
        rejects >= 1,
    ensures
        mode_outcome(ApprovalMode::All, total, approves, rejects) == Some(ApprovalStatus::Rejected),
{
}

/// In Majority mode, while no more decisions were made than there are
/// approvers, approval and rejection thresholds are never reached together.
pub proof fn lemma_majority_is_unambiguous(total: nat, approves: nat, rejects: nat)
    requires
        approves + rejects <= total,
    ensures
        !(approves >= total / 2 + 1 && rejects >= total / 2 + 1),
{
}


/// How each mode settles an approval with `total` approvers, `approves`
/// approvals and `rejects` rejections. Any: one approval approves; without
/// approvals one rejection rejects; otherwise it stays open. All: one
/// rejection rejects; without rejections it is approved once every approver
/// approved; otherwise it stays open. Majority: approved once more than half
/// of the approvers approved; otherwise rejected once more than half
/// rejected; otherwise it stays open, so a minority of rejections never
/// rejects.
pub proof fn lemma_mode_settles(total: nat, approves: nat, rejects: nat)
    ensures
        (mode_outcome(ApprovalMode::Any, total, approves, rejects) == Some(ApprovalStatus::Approved)) <==> approves > 0,
        (mode_outcome(ApprovalMode::Any, total, approves, rejects) == Some(ApprovalStatus::Rejected)) <==> (approves == 0 && rejects > 0),
        (mode_outcome(ApprovalMode::Any, total, approves, rejects) is None) <==> (approves == 0 && rejects == 0),
        (mode_outcome(ApprovalMode::All, total, approves, rejects) == Some(ApprovalStatus::Rejected)) <==> rejects > 0,
        (mode_outcome(ApprovalMode::All, total, approves, rejects) == Some(ApprovalStatus::Approved)) <==> (rejects == 0 && approves == total),
        (mode_outcome(ApprovalMode::All, total, approves, rejects) is None) <==> (rejects == 0 && approves != total),
        (mode_outcome(ApprovalMode::Majority, total, approves, rejects) == Some(ApprovalStatus::Approved)) <==> 2 * approves > total,
        (mode_outcome(ApprovalMode::Majority, total, approves, rejects) == Some(ApprovalStatus::Rejected)) <==> (2 * approves <= total && 2 * rejects > total),
        (mode_outcome(ApprovalMode::Majority, total, approves, rejects) is None) <==> (2 * approves <= total && 2 * rejects <= total),
{
}

/// A settled approval stays settled the same way when more decisions of the
/// winning kind come in: in every mode one more approval keeps an approved
/// outcome approved, and one more rejection keeps a rejected outcome
/// rejected.
pub proof fn lemma_mode_outcome_stable(mode: ApprovalMode, total: nat, approves: nat, rejects: nat)
    ensures
        mode_outcome(mode, total, approves, rejects) == Some(ApprovalStatus::Rejected)
            ==> mode_outcome(mode, total, approves, rejects + 1) == Some(ApprovalStatus::Rejected),
        mode != ApprovalMode::All && mode_outcome(mode, total, approves, rejects) == Some(ApprovalStatus::Approved)
            ==> mode_outcome(mode, total, approves + 1, rejects) == Some(ApprovalStatus::Approved),
{
}

pub open spec fn voters(ds: Seq<ApprovalDecision>) -> Seq<Seq<char>> {
    ds.map_values(|d: ApprovalDecision| d.user_id@)
}

/// Every decision comes from an approver, and no approver decided twice.
pub open spec fn ballot_valid(e: ApprovalInstanceEntity) -> bool {
    &&& voters(e.decisions@).no_duplicates()
    &&& forall|i: int| 0 <= i < e.decisions@.len() ==> views(e.approvers@).contains(#[trigger] e.decisions@[i].user_id@)
}

/// Recording an accepted decision keeps the ballot valid.
pub proof fn lemma_decide_keeps_ballot_valid(
    e: ApprovalInstanceEntity,
    n: ApprovalInstanceEntity,
    user: Seq<char>,
    decision: Decision,
    comment: Option<String>,
    now: i64,
)
    requires
        ballot_valid(e),
        views(e.approvers@).contains(user),
        !decided_by(e.decisions@, user),
        decision_recorded(e, n, user, decision, comment, now),
    ensures
        ballot_valid(n),
{
    let m = e.decisions@.len();
    assert(voters(n.decisions@) =~= voters(e.decisions@).push(user)) by {
        assert(n.decisions@ =~= e.decisions@.push(n.decisions@.last()));
    }
    assert forall|i: int, j: int| 0 <= i < m + 1 && 0 <= j < m + 1 && i != j
        implies voters(n.decisions@)[i] != voters(n.decisions@)[j] by {
        if i == m {
            assert(e.decisions@[j].user_id@ != user);
        } else if j == m {
            assert(e.decisions@[i].user_id@ != user);
        } else {
            assert(voters(e.decisions@)[i] != voters(e.decisions@)[j]);
        }
    }
    assert forall|i: int| 0 <= i < n.decisions@.len() implies views(n.approvers@).contains(#[trigger] n.decisions@[i].user_id@) by {
        if i < m {
            assert(n.decisions@[i] == e.decisions@[i]);
        }
    }
}

proof fn lemma_counts_partition(ds: Seq<ApprovalDecision>)
    ensures
        count_decisions(ds, Decision::Approve) + count_decisions(ds, Decision::Reject) == ds.len(),
    decreases ds.len(),
{
    if ds.len() > 0 {
        lemma_counts_partition(ds.drop_last());
    }
}

/// Under a valid ballot with distinct approvers, no more decisions are made
/// than there are approvers, so Majority never reaches the approval and the
/// rejection threshold together, and All approves only once every approver
/// has approved.
pub proof fn lemma_valid_ballot_is_bounded(e: ApprovalInstanceEntity)
    requires
        ballot_valid(e),
        views(e.approvers@).no_duplicates(),
    ensures
        count_decisions(e.decisions@, Decision::Approve) + count_decisions(e.decisions@, Decision::Reject)
            <= e.approvers@.len(),
        !(count_decisions(e.decisions@, Decision::Approve) >= e.approvers@.len() / 2 + 1
            && count_decisions(e.decisions@, Decision::Reject) >= e.approvers@.len() / 2 + 1),
{
    let v = voters(e.decisions@);
    let a = views(e.approvers@);
    lemma_counts_partition(e.decisions@);
    v.unique_seq_to_set();
    a.unique_seq_to_set();
    assert(v.to_set().subset_of(a.to_set())) by {
        assert forall|x: Seq<char>| v.to_set().contains(x) implies a.to_set().contains(x) by {
            let i = choose|i: int| 0 <= i < v.len() && v[i] == x;
            assert(a.contains(e.decisions@[i].user_id@));
        }
    }
    vstd::set_lib::lemma_len_subset(v.to_set(), a.to_set());
}

} // verus!

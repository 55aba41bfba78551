//! What operations leave behind beside their main effect: executions, policies,
//! grants that are taken back, and the journal.
use crate::approval::{ApprovalDecisionKind, ApprovalRequest};
use crate::approvals::{decision_steps, DecideFindings};
use crate::begin::{begin_target, BeginFindings};
use crate::binding::ProviderRunBinding;
use crate::cancel::{cancel_target, CancelFindings};
use crate::dispatch::{dispatch_target, fail_target, ClaimFindings, DispatchClaim, LookupFindings};
use crate::error::{ApprovalError, CatalogError, StoreError};
use crate::identity::Moment;
use crate::json::{fields, json_string, json_uid, json_uid_option, object};
use crate::launch::ProviderLaunchPlan;
use crate::policy::{current_launch_policy, LaunchPolicy};
use crate::promises::living::underway;
use crate::promises::changed_at;
use crate::protocol::{
    ApprovalReceipt, BeginGraphNodeRunCommand, BeginGraphNodeRunReceipt, DecideApprovalCommand,
    EventEnvelope, StagedLaunchState,
};
use crate::recovery::{active_count, restart_notes, GraphRecovery};
use crate::staged::StagedFindings;
use crate::staging::staged_begin_steps;
use crate::store::{Store, StoreView};
use crate::text::decimal;
use crate::uid::{find, lemma_find, Uid};
use vstd::prelude::*;

verus! {

/// This event says this.
pub open spec fn says(
    event: EventEnvelope,
    kind: Seq<char>,
    members: Seq<(Seq<char>, Seq<char>)>,
    now: Moment,
) -> bool {
    &&& event.protocol_version == 1
    &&& event.event_type@ == kind
    &&& event.payload_json@ == object(members)
    &&& event.occurred_at@ == now.text@
}

/// A dispatch puts the execution in the form that was found for it.
pub proof fn law_dispatch_activates_the_execution(
    store: &mut Store,
    request_id: Uid,
    f: &StagedFindings,
    m3_fault: &Option<String>,
    accepts: bool,
    findings: ClaimFindings,
    now: &Moment,
    r: Result<DispatchClaim, StoreError>,
)
    requires
        call_ensures(
            Store::claim_staged_dispatch,
            (store, request_id, f, m3_fault, accepts, findings, now),
            r,
        ),
        r is Ok,
    ensures
        findings.activated is Ok,
        findings.activated->Ok_0.fault is None,
        exists|g: int|
            {
                &&& changed_at(old(store).graphs@, final(store).graphs@, g)
                &&& (#[trigger] old(store).graphs@[g]).execution_id == r->Ok_0.receipt.execution_id
                &&& final(store).graphs@[g].execution_id == r->Ok_0.receipt.execution_id
                &&& final(store).graphs@[g].graph == findings.activated->Ok_0
                &&& final(store).graphs@[g].revision
                    == findings.activated->Ok_0.execution.revision
                &&& final(store).graphs@[g].updated_at@ == now.text@
            },
{
    let s = old(store)@;
    let t = dispatch_target(s, request_id, *f, *m3_fault, *now)->Ok_0;
    lemma_find(s.graphs, s.plans[t.plan].plan.execution_id);
    assert(old(store).graphs@[t.graph].execution_id == r->Ok_0.receipt.execution_id);
}

/// A failed lookup puts the execution in the form that was found for it, and
/// leaves the attempt, the plan, the request and the claim.
pub proof fn law_failed_lookup_finishes_the_execution(
    store: &mut Store,
    run_id: Uid,
    findings: LookupFindings,
    now: &Moment,
    r: Result<(), StoreError>,
)
    requires
        call_ensures(Store::fail_dispatch_claim, (store, run_id, findings, now), r),
        r is Ok,
    ensures
        findings.finished is Ok,
        exists|g: int, p: int|
            #![trigger old(store).graphs@[g], old(store).plans@[p]]
            {
                &&& changed_at(old(store).graphs@, final(store).graphs@, g)
                &&& 0 <= p < old(store).plans@.len()
                &&& old(store).plans@[p].run_id == run_id
                &&& old(store).graphs@[g].execution_id == old(store).plans@[p].plan.execution_id
                &&& final(store).graphs@[g].execution_id == old(store).graphs@[g].execution_id
                &&& final(store).graphs@[g].graph == findings.finished->Ok_0
                &&& final(store).graphs@[g].revision == findings.finished->Ok_0.execution.revision
                &&& final(store).graphs@[g].updated_at@ == now.text@
            },
        final(store).node_runs@ == old(store).node_runs@,
        final(store).plans@ == old(store).plans@,
        final(store).approvals@ == old(store).approvals@,
        final(store).claims@ == old(store).claims@,
        final(store).outputs@ == old(store).outputs@,
        final(store).m3@ == old(store).m3@,
{
    let s = old(store)@;
    lemma_find(s.plans, run_id);
    let p = find(s.plans, run_id)->0;
    lemma_find(s.graphs, s.plans[p].plan.execution_id);
    let t = fail_target(s, run_id)->Ok_0;
    assert(old(store).plans@[p].run_id == run_id);
    assert(old(store).graphs@[t.1].execution_id == old(store).plans@[p].plan.execution_id);
}

/// A start under a seen binding puts the execution in the form that was found for
/// it, and records what the policies allow at that time.
#[verifier::rlimit(30)]
pub proof fn law_seen_start_replaces_the_execution(
    store: &mut Store,
    id: Uid,
    c: BeginGraphNodeRunCommand,
    expected: &ProviderRunBinding,
    session_id: Uid,
    run_id: Uid,
    findings: BeginFindings,
    request: Result<ApprovalRequest, ApprovalError>,
    f: &StagedFindings,
    now: &Moment,
    r: Result<BeginGraphNodeRunReceipt, StoreError>,
    policy: Option<LaunchPolicy>,
)
    requires
        call_ensures(
            Store::begin_provider_graph_node_run,
            (store, id, c, expected, session_id, run_id, findings, request, f, now),
            r,
        ),
        r is Ok,
        call_ensures(
            current_launch_policy,
            (
                &old(store).identity,
                expected.launch_identity.project_id,
                final(store).plans@.last().plan.role_id,
            ),
            policy,
        ),
    ensures
        exists|g: int|
            {
                &&& changed_at(old(store).graphs@, final(store).graphs@, g)
                &&& (#[trigger] old(store).graphs@[g]).execution_id == id
                &&& old(store).graphs@[g].revision == c.expected_graph_revision
                &&& final(store).graphs@[g].execution_id == id
                &&& final(store).graphs@[g].graph == findings.begun->Ok_0
                &&& final(store).graphs@[g].revision == findings.begun->Ok_0.execution.revision
                &&& final(store).graphs@[g].updated_at@ == now.text@
            },
        final(store).plans@.last().plan.policy == policy,
{
    let s = old(store)@;
    lemma_find(s.graphs, id);
    let t = begin_target(s, id, c, Some(expected@))->Ok_0;
    assert(t.binding == expected@);
    assert(expected@.launch_identity == expected.launch_identity@);
    assert(old(store).graphs@[t.graph].execution_id == id);
    if crate::staging::needs_approval(t.binding) {
        let middle = choose|middle: StoreView| #[trigger]
            staged_begin_steps(
                r,
                s,
                middle,
                final(store)@,
                id,
                c,
                session_id,
                run_id,
                t,
                findings,
                request,
                *f,
                *now,
            );
        assert(final(store)@.graphs == middle.graphs);
        assert(final(store)@.plans == middle.plans);
    }
}

/// A start records what the policies allow at that time.
pub proof fn law_start_records_the_policy(
    store: &mut Store,
    id: Uid,
    c: BeginGraphNodeRunCommand,
    session_id: Uid,
    run_id: Uid,
    findings: BeginFindings,
    now: &Moment,
    r: Result<BeginGraphNodeRunReceipt, StoreError>,
    policy: Option<LaunchPolicy>,
)
    requires
        call_ensures(
            Store::begin_graph_node_run,
            (store, id, c, session_id, run_id, findings, now),
            r,
        ),
        r is Ok,
        call_ensures(
            current_launch_policy,
            (
                &old(store).identity,
                r->Ok_0.launch_identity->0.project_id,
                final(store).plans@.last().plan.role_id,
            ),
            policy,
        ),
    ensures
        final(store).plans@.last().plan.policy == policy,
{
    assert(r->Ok_0.launch_identity->0@.project_id == r->Ok_0.launch_identity->0.project_id);
}

/// Where a launch is withdrawn, its grant is taken back if it is unspent, by the
/// daemon and not before it was issued; and the journal says which launch it was.
pub proof fn law_withdrawn_launch_loses_its_grant(
    store: &mut Store,
    request_id: Uid,
    reason: &str,
    f: &StagedFindings,
    findings: CancelFindings,
    now: &Moment,
    r: Result<(), StoreError>,
    q: int,
)
    requires
        call_ensures(Store::cancel_for_request, (store, request_id, reason, f, findings, now), r),
        r is Ok,
        final(store).identity_revision != old(store).identity_revision,
        0 <= q < old(store).grants@.len(),
        old(store).grants@[q].request_id == request_id,
        forall|x: int| 0 <= x < q ==> (#[trigger] old(store).grants@[x]).request_id != request_id,
        old(store).grants@[q].consumed_at_ms is None,
        old(store).grants@[q].revoked_at_ms is None,
    ensures
        changed_at(old(store).grants@, final(store).grants@, q),
        final(store).grants@[q].request_id == request_id,
        final(store).grants@[q].issued_at_ms == old(store).grants@[q].issued_at_ms,
        final(store).grants@[q].consumed_at_ms is None,
        final(store).grants@[q].revoked_at_ms is Some,
        final(store).grants@[q].revoked_at_ms->0 >= old(store).grants@[q].issued_at_ms,
        final(store).grants@[q].revoked_at_ms->0 >= now.ms,
        final(store).grants@[q].revoked_by is Some,
        final(store).grants@[q].revoked_by->0@ == "daemon:staged_launch_cancelled"@,
        final(store).events@.len() == old(store).events@.len() + 2,
        says(
            final(store).events@[old(store).events@.len() as int],
            "credential.grant_revoked"@,
            fields().push(("request_id"@, json_uid(request_id))),
            *now,
        ),
{
    let s = old(store)@;
    lemma_find(s.grants, request_id);
    assert(s.grants == old(store).grants@);
    assert(find(s.grants, request_id) == Some(q)) by {
        let x = find(s.grants, request_id);
        assert(s.grants[q].request_id == request_id);
        if x is Some && x->0 < q {
            assert(old(store).grants@[x->0].request_id != request_id);
        }
    }
    assert(cancel_target(s, request_id, reason@, *f)->Ok_0 is Some);
    assert(final(store)@.events.drop_last().last()
        == final(store).events@[old(store).events@.len() as int]);
}

/// The journal says which launch was withdrawn, and at which revisions.
pub proof fn law_withdrawal_is_told(
    store: &mut Store,
    request_id: Uid,
    reason: &str,
    f: &StagedFindings,
    findings: CancelFindings,
    now: &Moment,
    r: Result<(), StoreError>,
)
    requires
        call_ensures(Store::cancel_for_request, (store, request_id, reason, f, findings, now), r),
        r is Ok,
        final(store).identity_revision != old(store).identity_revision,
    ensures
        exists|p: int|
            {
                &&& 0 <= p < old(store).plans@.len()
                &&& says(
                    final(store).events@.last(),
                    "provider_launch.cancelled"@,
                    fields().push(
                        (
                            "catalog_revision"@,
                            decimal((old(store).identity_revision + 1) as nat),
                        ),
                    ).push(
                        ("execution_id"@, json_uid(findings.cancelled->Ok_0.execution.id)),
                    ).push(
                        (
                            "graph_revision"@,
                            decimal(findings.cancelled->Ok_0.execution.revision as nat),
                        ),
                    ).push(
                        ("node_id"@, json_uid((#[trigger] old(store).plans@[p]).plan.node_id)),
                    ).push(("request_id"@, json_uid(request_id))).push(
                        ("run_id"@, json_uid(old(store).plans@[p].plan.run_id)),
                    ),
                    *now,
                )
            },
{
    let s = old(store)@;
    let t = cancel_target(s, request_id, reason@, *f)->Ok_0->0;
    lemma_find(s.plans, s.staged[t.staged].run_id);
    assert(old(store).plans@[t.plan].plan == s.plans[t.plan].plan);
}

/// An approval of a credential tells of the grant that it issues, and of the
/// launch that it makes ready, before it tells of itself.
#[verifier::rlimit(40)]
pub proof fn law_approval_is_told_step_by_step(
    store: &mut Store,
    command: DecideApprovalCommand,
    f: DecideFindings,
    now: &Moment,
    r: Result<ApprovalReceipt, StoreError>,
    a: int,
)
    requires
        call_ensures(Store::decide_approval, (store, command, f, now), r),
        r is Ok,
        command.decision.kind == ApprovalDecisionKind::Approve,
        0 <= a < old(store).approvals@.len(),
        old(store).approvals@[a].request.id == command.decision.request_id,
        forall|x: int|
            0 <= x < a ==> (#[trigger] old(store).approvals@[x]).request.id
                != command.decision.request_id,
        old(store).approvals@[a].request.action.scope.credential_binding is Some,
    ensures
        says(
            final(store).events@[old(store).events@.len() as int],
            "credential.grant_issued"@,
            fields().push(("request_id"@, json_uid(command.decision.request_id))).push(
                (
                    "run_id"@,
                    json_uid_option(old(store).approvals@[a].request.action.scope.run_id),
                ),
            ),
            *now,
        ),
        final(store).staged@ == old(store).staged@ ==> final(store).events@.len()
            == old(store).events@.len() + 2,
        final(store).staged@ != old(store).staged@ ==> final(store).events@.len()
            == old(store).events@.len() + 3 && final(store).events@[old(store).events@.len()
            + 1int].event_type@ == "provider_launch.ready"@,
{
    let s = old(store)@;
    let id = command.decision.request_id;
    lemma_find(s.approvals, id);
    assert(s.approvals == old(store).approvals@);
    assert(find(s.approvals, id) == Some(a)) by {
        let x = find(s.approvals, id);
        assert(s.approvals[a].request.id == id);
        if x is Some && x->0 < a {
            assert(old(store).approvals@[x->0].request.id != id);
        }
    }
    let (recorded, applied) = choose|recorded: StoreView, applied: StoreView| #[trigger]
        decision_steps(s, recorded, applied, final(store)@, command, f, *now);
    let n = s.events.len() as int;
    assert(recorded.events.len() == n + 1);
    assert(recorded.events.last() == recorded.events[n]);
    assert(final(store)@.events.drop_last() == applied.events);
    assert(final(store)@.staged == applied.staged);
    if applied.events.len() == recorded.events.len() + 1 {
        assert(applied.events.drop_last() == recorded.events);
        assert(applied.events[n] == recorded.events[n]);
        assert(final(store)@.events[n] == applied.events[n]);
        assert(final(store)@.events[n + 1] == applied.events.last());
    } else {
        assert(applied.events == recorded.events);
        assert(final(store)@.events[n] == applied.events[n]);
    }
    let effect = crate::approvals::decision_effect(
        s,
        s.approvals[a].request,
        command.decision.kind,
        f.staged,
    )->Ok_0;
    lemma_request_row(s.staged, id, 0);
    match effect {
        crate::approvals::DecisionEffect::Ready(t) => {
            assert(s.staged[t].state == StagedLaunchState::AwaitingApproval);
            assert(final(store)@.staged[t].state == StagedLaunchState::Ready);
            assert(final(store).staged@[t] != old(store).staged@[t]);
        },
        _ => {},
    }
}

proof fn lemma_request_row(rows: Seq<crate::store::StagedRow>, id: Uid, from: int)
    requires
        0 <= from,
    ensures
        match crate::cancel::find_request(rows, id, from) {
            Some(t) => from <= t < rows.len() && rows[t].request_id == id,
            None => true,
        },
    decreases rows.len() - from,
{
    if from < rows.len() && rows[from].request_id != id {
        lemma_request_row(rows, id, from + 1);
    }
}

/// A restart that finds runs underway tells how many there were, and at which
/// revision the catalog now is.
pub proof fn law_restart_tells_of_uncertain_runs(
    store: &mut Store,
    stored_fault: Option<CatalogError>,
    recovered_fault: Option<CatalogError>,
    recovered: Vec<GraphRecovery>,
    now: &Moment,
    r: Result<(), StoreError>,
    i: int,
)
    requires
        call_ensures(
            Store::recover,
            (store, stored_fault, recovered_fault, recovered, now),
            r,
        ),
        r is Ok,
        0 <= i < old(store).identity.runs@.len(),
        underway(old(store).identity.runs@[i]),
    ensures
        final(store).events@.len() >= old(store).events@.len() + 2,
        says(
            final(store).events@[old(store).events@.len() + 1int],
            "catalog.runs_marked_uncertain"@,
            fields().push(
                ("revision"@, decimal((old(store).identity_revision + 1) as nat)),
            ).push(
                ("runs"@, decimal(underway_count(old(store).identity.runs@))),
            ),
            *now,
        ),
        recovered_fault is None,
{
    let s = old(store)@;
    let runs = old(store).identity.runs@;
    assert(s.identity.runs == runs);
    lemma_counts(runs, runs.len());
    assert(runs.take(runs.len() as int) == runs);
    lemma_counted(runs, i);
    let notes = restart_notes(s) + crate::recovery::recovery_notes(
        recovered@,
        recovered@.len(),
    );
    assert(notes[1] == restart_notes(s)[1]);
    assert(final(store).events@[old(store).events@.len() + 1int].event_type@ == notes[1].0);
}

/// How many of these runs are underway.
pub open spec fn underway_count(runs: Seq<crate::identity::Run>) -> nat
    decreases runs.len(),
{
    if runs.len() == 0 {
        0
    } else {
        underway_count(runs.drop_last()) + (if underway(runs.last()) {
            1nat
        } else {
            0nat
        })
    }
}

proof fn lemma_counts(runs: Seq<crate::identity::Run>, n: nat)
    requires
        n <= runs.len(),
    ensures
        active_count(runs, n) == underway_count(runs.take(n as int)),
    decreases n,
{
    if n > 0 {
        lemma_counts(runs, (n - 1) as nat);
        assert(runs.take(n as int).drop_last() == runs.take(n - 1));
    }
}

proof fn lemma_counted(runs: Seq<crate::identity::Run>, i: int)
    requires
        0 <= i < runs.len(),
        underway(runs[i]),
    ensures
        underway_count(runs) > 0,
    decreases runs.len(),
{
    if i < runs.len() - 1 {
        lemma_counted(runs.drop_last(), i);
    }
}

/// A staged launch is told of with the hash of its plan.
pub proof fn law_staging_is_told_with_the_plan_hash(
    store: &mut Store,
    run_id: Uid,
    request: Result<ApprovalRequest, ApprovalError>,
    f: &StagedFindings,
    now: &Moment,
    r: Result<u64, StoreError>,
    p: int,
    hash: String,
)
    requires
        call_ensures(Store::stage, (store, run_id, request, f, now), r),
        r is Ok,
        0 <= p < old(store).plans@.len(),
        old(store).plans@[p].run_id == run_id,
        forall|x: int| 0 <= x < p ==> (#[trigger] old(store).plans@[x]).run_id != run_id,
        call_ensures(ProviderLaunchPlan::hash, (&old(store).plans@[p].plan,), hash),
    ensures
        says(
            final(store).events@.last(),
            "provider_launch.staged"@,
            fields().push(("execution_id"@, json_uid(old(store).plans@[p].plan.execution_id))).push(
                ("node_id"@, json_uid(old(store).plans@[p].plan.node_id)),
            ).push(("plan_hash"@, json_string(hash@))).push(
                ("request_id"@, json_uid(request->Ok_0.id)),
            ).push(("run_id"@, json_uid(old(store).plans@[p].plan.run_id))),
            *now,
        ),
{
    let s = old(store)@;
    lemma_find(s.plans, run_id);
    assert(s.plans == old(store).plans@);
    assert(find(s.plans, run_id) == Some(p)) by {
        let x = find(s.plans, run_id);
        assert(s.plans[p].run_id == run_id);
        if x is Some && x->0 < p {
            assert(old(store).plans@[x->0].run_id != run_id);
        }
    }
}

} // verus!

//! What holds across operations.
use crate::approval::{ActionView, ApprovalAction, ApprovalDecisionKind, ApprovalRequest};
use crate::approvals::{
    decide_refusal, decision_effect, decision_steps, decision_taken, issues_grant, DecideFindings,
    DecisionEffect,
};
use crate::attempts::{graph_refusal, lemma_all_sound};
use crate::begin::{
    begin_receipt, begin_refusal, begin_target, entered, BeginFindings, BeginTarget,
};
use crate::binding::{missing_need, quoted_needs, resolve, RunBindingView};
use crate::cancel::{
    cancel_refusal, cancel_target, find_request, launch_cancelled, CancelFindings, CancelTarget,
};
use crate::catalogs::{
    any_introduced, catalog_replaced, introduces_active, m3_replaced, replace_m3_refusal,
    replace_refusal, run_refusal, runs_refusal,
};
use crate::consistency::{
    advances, consistent, distinct_keys, grant_kept, law_new_attempt_is_current,
    lemma_cancel_target, lemma_dispatch_target, lemma_find_request, lemma_update_keeps_find,
    numbered, request_kept,
};
use crate::deliverables::new_graph_row;
use crate::dispatch::{
    dispatch_target, dispatched, fail_refusal, fail_target, lookup_failed, reconciled_row,
    DispatchTarget, LookupFindings,
};
use crate::error::{CatalogError, Refusal};
use crate::executions::{find_restart, graph_restarted, restart_refusal, restart_target};
use crate::expiry::expired;
use crate::finish::{
    finish_failure, finish_refusal, finish_target, finished, selection_sound, FinishFindings,
    FinishTarget,
};
use crate::grants::{
    consume_refusal, current_refusal, grant_consumed, request_open, revocation_done, revoke_refusal,
    GrantFindings,
};
use crate::graph::{CheckedGraph, GraphExecution, GraphNodeState};
use crate::identity::{CatalogView, Moment, NormalizedRunState, PermissionLevel, Run};
use crate::launch::LaunchIdentityView;
use crate::lifecycle::{
    any_active, checkpoint_refusal, checkpointed, later_events, reason_payload, resume_refusal,
    run_active, transitioned,
};
use crate::listing::{law_listing_is_in_order, lemma_place, listed, place};
use crate::m3::M3View;
use crate::policy::{launch_policy, names_credential, plan_allowed, policy_current};
use crate::preflight::{load_plan, preflight_refusal};
use crate::protocol::{
    BeginGraphNodeRunCommand, BeginGraphNodeRunReceipt, CheckpointCommand, CheckpointReceipt,
    DaemonLifecycle, DecideApprovalCommand, EventEnvelope, FinishGraphNodeRunCommand,
    StagedLaunchState,
};
use crate::recovery::{active_count, recovered_run, restarted, GraphRecovery};
use crate::runs::{
    cancel_accepted_refusal, cancel_recorded, preflight_cancel_refusal, run_ended, running_target,
};
use crate::staged::{plan_action, staged_refusal, StagedFindings, APPROVAL_TTL_MS};
use crate::staging::{stage_refusal, with_staged_rows};
use crate::store::{journal_room, GraphRow, StoreView, MAX_STORED};
use crate::text::blank;
use crate::uid::{find, lemma_find, Keyed, Uid};
use vstd::prelude::*;
use vstd::seq_lib::to_multiset_contains;

verus! {

/// Reading the journal after nothing gives all of it, and reading it after one
/// of its events gives exactly what follows.
pub proof fn law_events_read_on(events: Seq<EventEnvelope>, k: int)
    requires
        numbered(events),
        0 <= k <= events.len(),
    ensures
        later_events(
            events,
            if k == 0 {
                0
            } else {
                events[k - 1].sequence
            },
            events.len(),
        ) == events.skip(k),
{
    let after = if k == 0 {
        0
    } else {
        events[k - 1].sequence
    };
    lemma_later_events(events, k, after, events.len());
    assert(events.take(events.len() as int) =~= events);
}

proof fn lemma_later_events(events: Seq<EventEnvelope>, k: int, after: u64, n: nat)
    requires
        numbered(events),
        0 <= k <= events.len(),
        n <= events.len(),
        after == (if k == 0 {
            0
        } else {
            events[k - 1].sequence
        }),
    ensures
        later_events(events, after, n) == (if n <= k {
            Seq::empty()
        } else {
            events.subrange(k, n as int)
        }),
    decreases n,
{
    if n > 0 {
        lemma_later_events(events, k, after, (n - 1) as nat);
        if n <= k {
            assert(events[n - 1].sequence <= events[k - 1].sequence);
        } else {
            if k > 0 {
                assert(events[k - 1].sequence < events[n - 1].sequence);
            }
            assert(events.subrange(k, n as int) =~= later_events(
                events,
                after,
                (n - 1) as nat,
            ).push(events[n - 1]));
        }
    }
}

/// A command that was decided on a revision is refused once a checkpoint has
/// been made under it, whatever it asks for.
pub proof fn law_stale_checkpoint_is_refused(
    pre: StoreView,
    post: StoreView,
    c: CheckpointCommand,
    lifecycle: DaemonLifecycle,
    kind: Seq<char>,
    receipt: CheckpointReceipt,
    now: Moment,
    required: Option<Seq<char>>,
    stopping: bool,
)
    requires
        c.expected_revision == pre.revision,
        checkpointed(pre, post, c, lifecycle, kind, receipt, now),
    ensures
        checkpoint_refusal(post, c.expected_revision, required, stopping) == Some(
            Refusal::RevisionConflict { expected: c.expected_revision, actual: receipt.revision },
        ),
{
}

/// Of two replacements of the catalog that were decided on one revision, the
/// second is refused.
pub proof fn law_stale_replacement_is_refused(
    pre: StoreView,
    post: StoreView,
    expected: u64,
    first: CatalogView,
    second: CatalogView,
    m3_fault: Option<String>,
    now: Moment,
)
    requires
        replace_refusal(pre, expected, first, None, m3_fault) is None,
        catalog_replaced(pre, post, first, now),
    ensures
        replace_refusal(post, expected, second, None, m3_fault) == Some(
            Refusal::RevisionConflict { expected, actual: (expected + 1) as u64 },
        ),
{
}

/// Of two replacements of the office catalog that were decided on one revision,
/// the second is refused.
pub proof fn law_stale_office_replacement_is_refused(
    pre: StoreView,
    post: StoreView,
    expected: u64,
    first: M3View,
    now: Moment,
)
    requires
        replace_m3_refusal(pre, expected, None) is None,
        m3_replaced(pre, post, first, now),
    ensures
        replace_m3_refusal(post, expected, None) == Some(
            Refusal::RevisionConflict { expected, actual: (expected + 1) as u64 },
        ),
{
}

/// A suspended daemon resumes under the revision of its suspension. It is then
/// ready, two revisions on, and but for the journal and the checkpoint of the
/// suspension it is as it was.
pub proof fn law_suspension_is_undone(
    pre: StoreView,
    middle: StoreView,
    post: StoreView,
    suspend: CheckpointCommand,
    suspended: CheckpointReceipt,
    then: Moment,
    resume: CheckpointCommand,
    resumed: EventEnvelope,
    now: Moment,
)
    requires
        pre.revision + 2 <= MAX_STORED,
        journal_room(pre.events, 2),
        checkpointed(
            pre,
            middle,
            suspend,
            DaemonLifecycle::Suspended,
            "daemon.suspended"@,
            suspended,
            then,
        ),
        resume.expected_revision == suspended.revision,
        transitioned(
            middle,
            post,
            DaemonLifecycle::Ready,
            "daemon.resumed"@,
            reason_payload(resume.reason@),
            resumed,
            now,
        ),
    ensures
        resume_refusal(middle, resume.expected_revision) is None,
        post == (StoreView {
            revision: (pre.revision + 2) as u64,
            lifecycle: "ready"@,
            checkpoints: pre.checkpoints.push(middle.checkpoints.last()),
            events: pre.events.push(middle.events.last()).push(resumed),
            ..pre
        }),
{
    assert(middle.events =~= pre.events.push(middle.events.last()));
    assert(post.events =~= middle.events.push(post.events.last()));
}

/// A daemon is not stopped while a provider may be working, and a provider at
/// work is the only thing that a right and ready daemon lets stand in the way.
pub proof fn law_active_runs_keep_the_daemon_up(s: StoreView)
    ensures
        any_active(s.identity.runs) ==> checkpoint_refusal(s, s.revision, None, true) == Some(
            Refusal::ProviderRunsActive,
        ),
        !any_active(s.identity.runs) && s.revision < MAX_STORED && journal_room(s.events, 1)
            ==> checkpoint_refusal(s, s.revision, None, true) is None,
{
}

/// After a restart no run counts as being worked on, so that the daemon can be
/// stopped; a run that nobody worked on is as it was.
pub proof fn law_restart_leaves_nothing_active(
    pre: StoreView,
    post: StoreView,
    recovered: Seq<GraphRecovery>,
    now: Moment,
)
    requires
        restarted(pre, post, recovered, now),
    ensures
        !any_active(post.identity.runs),
        active_count(post.identity.runs, post.identity.runs.len()) == 0,
        forall|i: int|
            0 <= i < pre.identity.runs.len() && !run_active(#[trigger] pre.identity.runs[i])
                ==> post.identity.runs[i] == pre.identity.runs[i],
        forall|i: int|
            0 <= i < pre.identity.runs.len() && run_active(#[trigger] pre.identity.runs[i])
                ==> post.identity.runs[i].state == NormalizedRunState::Uncertain,
{
    assert forall|i: int| 0 <= i < post.identity.runs.len() implies !run_active(
        #[trigger] post.identity.runs[i],
    ) by {
        assert(post.identity.runs[i] == recovered_run(pre.identity.runs[i], now));
    }
    lemma_none_active(post.identity.runs, post.identity.runs.len());
}

proof fn lemma_none_active(runs: Seq<Run>, n: nat)
    requires
        n <= runs.len(),
        forall|i: int| 0 <= i < n ==> !run_active(#[trigger] runs[i]),
    ensures
        active_count(runs, n) == 0,
    decreases n,
{
    if n > 0 {
        lemma_none_active(runs, (n - 1) as nat);
    }
}

/// A second restart finds nothing more to mark: the runs, their revision and the
/// staged launches stay as the first left them.
pub proof fn law_second_restart_marks_nothing(
    pre: StoreView,
    middle: StoreView,
    post: StoreView,
    first: Seq<GraphRecovery>,
    second: Seq<GraphRecovery>,
    then: Moment,
    now: Moment,
)
    requires
        restarted(pre, middle, first, then),
        restarted(middle, post, second, now),
    ensures
        post.identity == middle.identity,
        post.identity_revision == middle.identity_revision,
        post.staged == middle.staged,
{
    law_restart_leaves_nothing_active(pre, middle, first, then);
    assert forall|i: int| 0 <= i < middle.identity.runs.len() implies #[trigger] post.identity.runs[i]
        == middle.identity.runs[i] by {
        assert(!run_active(middle.identity.runs[i]));
    }
    assert(post.identity.runs =~= middle.identity.runs);
    assert forall|i: int| 0 <= i < middle.staged.len() implies #[trigger] post.staged[i]
        == middle.staged[i] by {
        assert(middle.staged[i] == reconciled_row(pre.staged[i]));
    }
    assert(post.staged =~= middle.staged);
}

/// A launch that still waits for its approval waits on after a restart, with its
/// run as it was.
pub proof fn law_waiting_launch_survives_a_restart(
    pre: StoreView,
    post: StoreView,
    recovered: Seq<GraphRecovery>,
    now: Moment,
    t: int,
)
    requires
        restarted(pre, post, recovered, now),
        0 <= t < pre.staged.len(),
        pre.staged[t].state == StagedLaunchState::AwaitingApproval || pre.staged[t].state
            == StagedLaunchState::Ready,
    ensures
        post.staged[t] == pre.staged[t],
        post.grants == pre.grants,
        post.approvals == pre.approvals,
        forall|i: int|
            0 <= i < pre.identity.runs.len() && (#[trigger] pre.identity.runs[i]).state
                == NormalizedRunState::AwaitingApproval ==> post.identity.runs[i]
                == pre.identity.runs[i],
{
}

/// A run that has ended stays ended: no progress, no second end, no cancellation
/// and no failed lookup is recorded of it, no launch of it is taken up, a
/// restart leaves it, and an interrupt that comes too late changes no run.
pub proof fn law_ended_run_stays_ended(
    s: StoreView,
    after: StoreView,
    run_id: Uid,
    i: int,
    name: Option<Seq<char>>,
    id: Uid,
    c: FinishGraphNodeRunCommand,
    expected_revision: u64,
    catalog_fault: Option<CatalogError>,
    f: StagedFindings,
    now: Moment,
)
    requires
        find(s.identity.runs, run_id) == Some(i),
        run_ended(s.identity.runs[i].state),
        c.run_id == run_id,
    ensures
        running_target(s, run_id, name) is Err,
        finish_target(s, id, c) is Err,
        preflight_cancel_refusal(s, run_id, expected_revision) is Some,
        cancel_accepted_refusal(s, run_id, expected_revision, catalog_fault) is Some,
        fail_target(s, run_id) is Err,
        staged_refusal(s, s.identity.runs[i], true, true, f) is Some,
        recovered_run(s.identity.runs[i], now) == s.identity.runs[i],
        cancel_recorded(s, after, run_id, now) ==> after.identity == s.identity
            && after.identity_revision == s.identity_revision,
{
}

/// A finished run has ended, as was reported or, where its recorded selection
/// cannot be its own, with an uncertain end; success is never made of the
/// latter.
pub proof fn law_finish_ends_the_run(
    pre: StoreView,
    post: StoreView,
    id: Uid,
    c: FinishGraphNodeRunCommand,
    t: FinishTarget,
    cost_record_id: Uid,
    findings: FinishFindings,
    now: Moment,
)
    requires
        finish_target(pre, id, c) == Ok::<FinishTarget, Refusal>(t),
        finished(pre, post, id, c, t, cost_record_id, findings, now),
    ensures
        find(post.identity.runs, c.run_id) == Some(t.run),
        run_ended(post.identity.runs[t.run].state),
        post.identity.runs[t.run].state == (if t.malformed {
            NormalizedRunState::Uncertain
        } else {
            c.terminal_state
        }),
        t.malformed ==> post.outputs == pre.outputs,
{
    lemma_find(pre.identity.runs, c.run_id);
    lemma_update_keeps_find(
        pre.identity.runs,
        t.run,
        post.identity.runs[t.run],
        c.run_id,
    );
}

/// A finished node is in the state that its run's end comes to, and carries the
/// failure that the attempt ledger has.
pub proof fn law_finished_node_carries_the_recorded_failure(
    pre: StoreView,
    post: StoreView,
    id: Uid,
    c: FinishGraphNodeRunCommand,
    t: FinishTarget,
    cost_record_id: Uid,
    findings: FinishFindings,
    now: Moment,
)
    requires
        finish_target(pre, id, c) == Ok::<FinishTarget, Refusal>(t),
        finish_refusal(pre, id, c, t, findings) is None,
        finished(pre, post, id, c, t, cost_record_id, findings, now),
    ensures
        find(post.graphs[t.graph].graph.execution.nodes@, c.node_id) is Some,
        post.graphs[t.graph].graph.execution.nodes@[find(
            post.graphs[t.graph].graph.execution.nodes@,
            c.node_id,
        )->0].state == t.graph_state,
        post.graphs[t.graph].graph.execution.nodes@[find(
            post.graphs[t.graph].graph.execution.nodes@,
            c.node_id,
        )->0].failure == post.node_runs[t.attempt].failure,
        finish_failure(post.node_runs[t.attempt].failure, t.malformed, c.failure),
{
    let before = findings.finished->Ok_0.execution.nodes@;
    let after = post.graphs[t.graph].graph.execution.nodes@;
    lemma_find(before, c.node_id);
    let n = find(before, c.node_id)->0;
    lemma_update_keeps_find(before, n, after[n], c.node_id);
}

/// A run whose staged launch is cancelled has ended as cancelled, before any
/// provider had it, and its launch will not be dispatched.
pub proof fn law_cancelled_launch_never_runs(
    pre: StoreView,
    post: StoreView,
    request_id: Uid,
    reason: Seq<char>,
    f: StagedFindings,
    t: CancelTarget,
    graph: CheckedGraph,
    now: Moment,
    g: StagedFindings,
    m3_fault: Option<String>,
    later: Moment,
)
    requires
        consistent(pre),
        cancel_target(pre, request_id, reason, f) == Ok::<Option<CancelTarget>, Refusal>(Some(t)),
        launch_cancelled(pre, post, request_id, reason, t, graph, now),
    ensures
        find(post.identity.runs, pre.staged[t.staged].run_id) == Some(t.run),
        post.identity.runs[t.run].state == NormalizedRunState::Cancelled,
        post.identity.runs[t.run].started_at is None,
        dispatch_target(post, request_id, g, m3_fault, later) is Err,
        cancel_target(post, request_id, reason, g) == Ok::<Option<CancelTarget>, Refusal>(None),
{
    lemma_cancel_target(pre, request_id, reason, f, t);
    lemma_find(pre.identity.runs, pre.staged[t.staged].run_id);
    lemma_update_keeps_find(
        pre.identity.runs,
        t.run,
        post.identity.runs[t.run],
        pre.staged[t.staged].run_id,
    );
    lemma_find_request(pre.staged, request_id, 0);
    lemma_find_request(post.staged, request_id, 0);
    assert(post.staged[t.staged].request_id == request_id);
    assert forall|j: int| 0 <= j < post.staged.len() && j != t.staged implies (
    #[trigger] post.staged[j]).request_id != request_id by {
        assert(post.staged[j] == pre.staged[j]);
        assert(pre.staged[j].request_id != pre.staged[t.staged].request_id);
    }
    if dispatch_target(post, request_id, g, m3_fault, later) is Ok {
        let d = dispatch_target(post, request_id, g, m3_fault, later)->Ok_0;
        lemma_dispatch_target(post, request_id, g, m3_fault, d, later);
    }
}

/// Whether a grant has been spent or revoked.
pub open spec fn grant_closed(s: StoreView, id: Uid) -> bool {
    match find(s.grants, id) {
        None => false,
        Some(q) => s.grants[q].consumed_at_ms is Some || s.grants[q].revoked_at_ms is Some,
    }
}

/// A grant that has been spent or revoked is of no more use: it is neither spent
/// nor revoked again, and no launch is dispatched on it.
pub proof fn law_closed_grant_is_useless(
    s: StoreView,
    id: Uid,
    action: ApprovalAction,
    f: GrantFindings,
    actor: Seq<char>,
    g: StagedFindings,
    findings: CancelFindings,
    m3_fault: Option<String>,
    now: Moment,
)
    requires
        grant_closed(s, id),
    ensures
        consume_refusal(s, id, action, f, now) is Some,
        revoke_refusal(s, id, actor, g, findings, now) is Some,
        dispatch_target(s, id, g, m3_fault, now) is Err,
{
}

/// The spending of a grant closes it.
pub proof fn law_consumption_closes_the_grant(
    pre: StoreView,
    post: StoreView,
    id: Uid,
    action: ApprovalAction,
    f: GrantFindings,
    now: Moment,
)
    requires
        consume_refusal(pre, id, action, f, now) is None,
        grant_consumed(pre, post, id, action.scope.run_id, now),
    ensures
        grant_closed(post, id),
{
    lemma_find(pre.grants, id);
    let q = find(pre.grants, id)->0;
    lemma_update_keeps_find(pre.grants, q, post.grants[q], id);
}

/// The revocation of a grant closes it.
pub proof fn law_revocation_closes_the_grant(
    pre: StoreView,
    post: StoreView,
    id: Uid,
    actor: String,
    f: StagedFindings,
    findings: CancelFindings,
    now: Moment,
)
    requires
        revoke_refusal(pre, id, actor@, f, findings, now) is None,
        revocation_done(pre, post, id, actor, f, findings, now),
    ensures
        grant_closed(post, id),
{
    lemma_find(pre.grants, id);
    let q = find(pre.grants, id)->0;
    lemma_update_keeps_find(pre.grants, q, post.grants[q], id);
}

/// A dispatch closes the grant that it was made on, so that there is at most one
/// for each grant.
pub proof fn law_dispatch_closes_the_grant(
    pre: StoreView,
    post: StoreView,
    request_id: Uid,
    f: StagedFindings,
    m3_fault: Option<String>,
    t: DispatchTarget,
    graph: CheckedGraph,
    now: Moment,
)
    requires
        dispatch_target(pre, request_id, f, m3_fault, now) == Ok::<DispatchTarget, Refusal>(t),
        dispatched(pre, post, request_id, t, graph, now),
    ensures
        grant_closed(post, request_id),
        post.grants[t.grant].consumed_at_ms == Some(now.ms),
{
    lemma_dispatch_target(pre, request_id, f, m3_fault, t, now);
    lemma_update_keeps_find(pre.grants, t.grant, post.grants[t.grant], request_id);
}

/// Nothing reopens a grant: as long as the history is kept, a grant that was
/// spent or revoked stays so.
pub proof fn law_closed_grant_stays_closed(pre: StoreView, post: StoreView, id: Uid)
    requires
        consistent(post),
        advances(pre, post),
        grant_closed(pre, id),
    ensures
        grant_closed(post, id),
{
    lemma_find(pre.grants, id);
    lemma_find(post.grants, id);
    let q = find(pre.grants, id)->0;
    assert(grant_kept(pre.grants[q], post.grants[q]));
    let r = find(post.grants, id)->0;
    assert(r == q) by {
        if r < q {
            assert(post.grants[r].request_id != post.grants[q].request_id);
        }
    }
}

/// What a failed lookup leaves: an uncertain run, and the grant spent. There is
/// no refund.
pub proof fn law_failed_lookup_refunds_nothing(
    pre: StoreView,
    post: StoreView,
    run_id: Uid,
    findings: LookupFindings,
    now: Moment,
    request_id: Uid,
)
    requires
        fail_target(pre, run_id) is Ok,
        fail_refusal(pre, run_id, fail_target(pre, run_id)->Ok_0.0, findings) is None,
        lookup_failed(
            pre,
            post,
            run_id,
            fail_target(pre, run_id)->Ok_0.0,
            fail_target(pre, run_id)->Ok_0.1,
            findings.finished->Ok_0,
            now,
        ),
    ensures
        post.grants == pre.grants,
        grant_closed(pre, request_id) ==> grant_closed(post, request_id),
        find(post.identity.runs, run_id) is Some,
        post.identity.runs[find(post.identity.runs, run_id)->0].state
            == NormalizedRunState::Uncertain,
{
    let i = fail_target(pre, run_id)->Ok_0.0;
    lemma_find(pre.identity.runs, run_id);
    lemma_update_keeps_find(pre.identity.runs, i, post.identity.runs[i], run_id);
}

/// A request is decided at most once: whatever a later decision says, it
/// conflicts.
pub proof fn law_request_is_decided_once(
    pre: StoreView,
    post: StoreView,
    first: DecideApprovalCommand,
    f: DecideFindings,
    then: Moment,
    second: DecideApprovalCommand,
    g: DecideFindings,
    now: Moment,
)
    requires
        decide_refusal(pre, first, f, then) is None,
        decision_taken(pre, post, first, f, then),
        second.decision.request_id == first.decision.request_id,
    ensures
        decide_refusal(post, second, g, now) == Some(Refusal::ApprovalConflict),
{
    let (recorded, applied) = choose|recorded: StoreView, applied: StoreView|
        #[trigger] decision_steps(pre, recorded, applied, post, first, f, then);
    let a = find(pre.approvals, first.decision.request_id)->0;
    lemma_find(pre.approvals, first.decision.request_id);
    lemma_update_keeps_find(
        pre.approvals,
        a,
        recorded.approvals[a],
        first.decision.request_id,
    );
    assert(applied.approvals == recorded.approvals);
}

/// A decided request stays decided, as it was decided.
pub proof fn law_decision_stands(pre: StoreView, post: StoreView, id: Uid)
    requires
        consistent(post),
        advances(pre, post),
        find(pre.approvals, id) is Some,
        pre.approvals[find(pre.approvals, id)->0].decision is Some,
    ensures
        find(post.approvals, id) == find(pre.approvals, id),
        post.approvals[find(post.approvals, id)->0] == pre.approvals[find(pre.approvals, id)->0],
{
    lemma_find(pre.approvals, id);
    lemma_find(post.approvals, id);
    let a = find(pre.approvals, id)->0;
    assert(request_kept(pre.approvals[a], post.approvals[a]));
    let b = find(post.approvals, id)->0;
    if b < a {
        assert(request_kept(pre.approvals[b], post.approvals[b]));
    }
}

/// A request is open up to its expiry and not at it: at every time from its
/// creation on, a launch that waits undecided either has an open request or has
/// expired.
pub proof fn law_waiting_launch_is_open_or_expired(s: StoreView, t: int, a: int, now: u64)
    requires
        0 <= t < s.staged.len(),
        s.staged[t].state == StagedLaunchState::AwaitingApproval,
        find(s.approvals, s.staged[t].request_id) == Some(a),
        s.approvals[a].decision is None,
        s.approvals[a].request.created_at_ms <= now,
        s.approvals[a].request.expires_at_ms <= MAX_STORED,
    ensures
        expired(s.staged[t], s.approvals, now) <==> !request_open(s.approvals[a].request, now),
        !request_open(s.approvals[a].request, s.approvals[a].request.expires_at_ms),
{
}

/// A replacement of the catalog keeps every run that the daemon owns, and its
/// session, as they are.
pub proof fn law_replacement_keeps_the_runs(previous: CatalogView, next: CatalogView, i: int)
    requires
        runs_refusal(previous, next, 0) is None,
        0 <= i < previous.runs.len(),
    ensures
        run_refusal(previous, next, previous.runs[i]) is None,
        find(next.runs, previous.runs[i].metadata.id) is Some,
        next.runs[find(next.runs, previous.runs[i].metadata.id)->0]@ == previous.runs[i]@,
{
    lemma_runs_kept(previous, next, 0, i);
}

proof fn lemma_runs_kept(previous: CatalogView, next: CatalogView, from: int, i: int)
    requires
        0 <= from <= i < previous.runs.len(),
        runs_refusal(previous, next, from) is None,
    ensures
        run_refusal(previous, next, previous.runs[i]) is None,
    decreases i - from,
{
    if from < i {
        lemma_runs_kept(previous, next, from + 1, i);
    }
}

/// A replacement of the catalog starts nothing: where no provider worked before
/// it, none works after it.
pub proof fn law_replacement_starts_nothing(previous: CatalogView, next: CatalogView)
    requires
        distinct_keys(next.runs),
        runs_refusal(previous, next, 0) is None,
        !any_introduced(previous, next),
        !any_active(previous.runs),
    ensures
        !any_active(next.runs),
{
    assert forall|j: int| 0 <= j < next.runs.len() implies !run_active(#[trigger] next.runs[j]) by {
        let run = next.runs[j];
        assert(!introduces_active(previous, next.runs[j]));
        lemma_find(previous.runs, run.metadata.id);
        match find(previous.runs, run.metadata.id) {
            None => {},
            Some(i) => {
                law_replacement_keeps_the_runs(previous, next, i);
                lemma_find(next.runs, run.metadata.id);
                let k = find(next.runs, run.metadata.id)->0;
                assert(k == j) by {
                    if k < j {
                        assert(next.runs[k].metadata.id != next.runs[j].metadata.id);
                    }
                }
                assert(run@ == previous.runs[i]@);
                assert(!run_active(previous.runs[i]));
            },
        }
    }
}

/// The restart of an execution is not repeated: asked again, the daemon names
/// the execution that the first restart entered. That is the only one restarted
/// from it, nothing in it has been done, and the original stays as it was.
pub proof fn law_restart_is_found_again(
    pre: StoreView,
    post: StoreView,
    original: Uid,
    expected_revision: u64,
    graph: CheckedGraph,
    now: Moment,
)
    requires
        consistent(pre),
        restart_target(pre, original, expected_revision) == Ok::<Option<int>, Refusal>(None),
        graph_restarted(pre, post, original, graph, now),
        restart_refusal(pre, original, Ok(graph), now) is None,
    ensures
        restart_target(post, original, expected_revision) is Ok,
        restart_target(post, original, expected_revision)->Ok_0 is Some,
        listed(post.graphs)[restart_target(post, original, expected_revision)->Ok_0->0].graph
            == graph,
        forall|i: int|
            0 <= i < post.graphs.len() ==> ((
            #[trigger] post.graphs[i]).graph.execution.restarted_from_execution_id == Some(original)
                <==> i == pre.graphs.len()),
        post.graphs[pre.graphs.len() as int].graph == graph,
        forall|i: int|
            0 <= i < graph.execution.nodes@.len() ==> (
            #[trigger] graph.execution.nodes@[i]).state == GraphNodeState::Pending,
        find(post.graphs, original) == find(pre.graphs, original),
        post.graphs[find(pre.graphs, original)->0] == pre.graphs[find(pre.graphs, original)->0],
{
    let row = new_graph_row(graph, now);
    lemma_find(pre.graphs, original);
    lemma_find(post.graphs, original);
    let g = find(pre.graphs, original)->0;
    assert(post.graphs[g] == pre.graphs[g]);
    assert(find(post.graphs, original) == Some(g)) by {
        let h = find(post.graphs, original)->0;
        if h != g {
            assert(post.graphs[h] == pre.graphs[h]);
        }
    }
    let before = listed(pre.graphs);
    let after = listed(post.graphs);
    let p = place(before, row, 0);
    lemma_place(before, row, 0);
    assert(post.graphs.drop_last() =~= pre.graphs);
    assert(post.graphs.last() == row);
    assert(after == before.insert(p, row));
    lemma_all_sound(before, pre.outputs, 0);
    lemma_all_sound(after, pre.outputs, 0);
    assert forall|i: int| 0 <= i < after.len() implies graph_refusal(
        #[trigger] after[i],
        pre.outputs,
    ) is None by {
        if i < p {
            assert(after[i] == before[i]);
        } else if i > p {
            assert(after[i] == before[i - 1]);
        }
    }
    lemma_no_restart(before, original, 0);
    assert forall|i: int| 0 <= i < p implies (
    #[trigger] after[i]).graph.execution.restarted_from_execution_id != Some(original) by {
        assert(after[i] == before[i]);
    }
    lemma_restart_found(after, original, 0, p);
    law_listing_is_in_order(pre.graphs);
    assert forall|i: int| 0 <= i < pre.graphs.len() implies (
    #[trigger] pre.graphs[i]).graph.execution.restarted_from_execution_id != Some(original) by {
        to_multiset_contains(pre.graphs, pre.graphs[i]);
        to_multiset_contains(before, pre.graphs[i]);
        assert(pre.graphs.contains(pre.graphs[i]));
        let k = choose|k: int| 0 <= k < before.len() && before[k] == pre.graphs[i];
        assert(before[k].graph.execution.restarted_from_execution_id != Some(original));
    }
    assert forall|i: int| 0 <= i < post.graphs.len() implies ((
    #[trigger] post.graphs[i]).graph.execution.restarted_from_execution_id == Some(original) <==> i
        == pre.graphs.len()) by {
        if i < pre.graphs.len() {
            assert(post.graphs[i] == pre.graphs[i]);
        }
    }
}

/// The first restart of an execution in a list that holds one is one.
proof fn lemma_restart_found(rows: Seq<GraphRow>, original: Uid, from: int, p: int)
    requires
        0 <= from <= p < rows.len(),
        rows[p].graph.execution.restarted_from_execution_id == Some(original),
        forall|i: int|
            0 <= i < p ==> (#[trigger] rows[i]).graph.execution.restarted_from_execution_id
                != Some(original),
    ensures
        find_restart(rows, original, from) == Some(p),
    decreases p - from,
{
    if from < p {
        assert(rows[from].graph.execution.restarted_from_execution_id != Some(original));
        lemma_restart_found(rows, original, from + 1, p);
    }
}

/// Where no restart is found in a list, none is in it.
proof fn lemma_no_restart(rows: Seq<GraphRow>, original: Uid, from: int)
    requires
        0 <= from <= rows.len(),
        find_restart(rows, original, from) is None,
    ensures
        forall|i: int|
            from <= i < rows.len() ==> (
            #[trigger] rows[i]).graph.execution.restarted_from_execution_id != Some(original),
    decreases rows.len() - from,
{
    if from < rows.len() {
        lemma_no_restart(rows, original, from + 1);
    }
}

proof fn lemma_needs_agree(a: GraphExecution, b: GraphExecution, needs: Seq<Uid>, from: int)
    requires
        0 <= from <= needs.len(),
        a.selected_outputs == b.selected_outputs,
    ensures
        missing_need(a, needs, from) == missing_need(b, needs, from),
        quoted_needs(a, needs, (needs.len() - from) as nat) == quoted_needs(
            b,
            needs,
            (needs.len() - from) as nat,
        ),
    decreases needs.len() - from,
{
    if from < needs.len() {
        lemma_needs_agree(a, b, needs, from + 1);
    }
}

/// What a provider is told depends neither on the runs and sessions in the
/// catalog nor on how far the execution has come, but for the outputs.
pub proof fn law_binding_ignores_progress(
    identity: CatalogView,
    changed: CatalogView,
    m3: M3View,
    before: GraphExecution,
    after: GraphExecution,
    node_id: Uid,
)
    requires
        changed == (CatalogView {
            runs: changed.runs,
            sessions: changed.sessions,
            ..identity
        }),
        after.graph == before.graph,
        after.selected_outputs == before.selected_outputs,
    ensures
        resolve(changed, m3, after, node_id) == resolve(identity, m3, before, node_id),
{
    match find(before.graph.nodes@, node_id) {
        None => {},
        Some(d) => {
            let needs = before.graph.nodes@[d].needs@;
            lemma_needs_agree(before, after, needs, 0);
        },
    }
}

/// A run that has just been started passes the check before its launch, with
/// the receipt of its start.
pub proof fn law_started_run_passes_preflight(
    pre: StoreView,
    post: StoreView,
    id: Uid,
    c: BeginGraphNodeRunCommand,
    expected: Option<RunBindingView>,
    session_id: Uid,
    run_id: Uid,
    t: BeginTarget,
    findings: BeginFindings,
    receipt: BeginGraphNodeRunReceipt,
    now: Moment,
)
    requires
        consistent(pre),
        begin_target(pre, id, c, expected) == Ok::<BeginTarget, Refusal>(t),
        begin_refusal(pre, id, c, session_id, run_id, findings) is None,
        entered(pre, post, id, c, session_id, run_id, t, findings.begun->Ok_0, false, now),
        begin_receipt(receipt, pre, id, c, session_id, run_id, t, findings.begun->Ok_0),
    ensures
        preflight_refusal(post, receipt) is None,
{
    let graph = findings.begun->Ok_0;
    lemma_find(pre.graphs, id);
    lemma_update_keeps_find(pre.graphs, t.graph, post.graphs[t.graph], id);
    lemma_find_last(pre.node_runs, post.node_runs.last());
    lemma_find_last(pre.plans, post.plans.last());
    lemma_find_last(pre.identity.runs, post.identity.runs.last());
    lemma_find_last(pre.identity.sessions, post.identity.sessions.last());
    law_binding_ignores_progress(
        pre.identity,
        post.identity,
        pre.m3,
        graph.execution,
        graph.execution,
        c.node_id,
    );
}

proof fn lemma_find_last<T: Keyed>(rows: Seq<T>, row: T)
    requires
        find(rows, row.key()) is None,
    ensures
        find(rows.push(row), row.key()) == Some(rows.len() as int),
{
    lemma_find(rows, row.key());
    lemma_find(rows.push(row), row.key());
    let k = find(rows.push(row), row.key());
    assert(rows.push(row)[rows.len() as int] == row);
    if k is Some && k->0 < rows.len() {
        assert(rows.push(row)[k->0] == rows[k->0]);
    }
}

/// Findings without a fault.
pub open spec fn all_clear(f: StagedFindings) -> bool {
    &&& f.catalog_fault is None
    &&& f.request_fault is None
    &&& f.authority_fault is None
    &&& f.decision_fault is None
}

/// A staged launch that has been approved can be dispatched for as long as its
/// request is open, on the grant that the approval issued.
pub proof fn law_approved_launch_can_be_dispatched(
    pre: StoreView,
    post: StoreView,
    c: DecideApprovalCommand,
    f: DecideFindings,
    then: Moment,
    t: int,
    g: StagedFindings,
    now: Moment,
)
    requires
        consistent(pre),
        pre.lifecycle == "ready"@,
        decide_refusal(pre, c, f, then) is None,
        decision_effect(
            pre,
            pre.approvals[find(pre.approvals, c.decision.request_id)->0].request,
            c.decision.kind,
            f.staged,
        ) == Ok::<DecisionEffect, Refusal>(DecisionEffect::Ready(t)),
        decision_taken(pre, post, c, f, then),
        all_clear(g),
        then.ms <= now.ms,
        request_open(
            pre.approvals[find(pre.approvals, c.decision.request_id)->0].request,
            now.ms,
        ),
    ensures
        dispatch_target(post, c.decision.request_id, g, None, now) is Ok,
        dispatch_target(post, c.decision.request_id, g, None, now)->Ok_0.staged == t,
        dispatch_target(post, c.decision.request_id, g, None, now)->Ok_0.grant
            == pre.grants.len(),
{
    let (recorded, applied) = choose|recorded: StoreView, applied: StoreView|
        #[trigger] decision_steps(pre, recorded, applied, post, c, f, then);
    let id = c.decision.request_id;
    let a = find(pre.approvals, id)->0;
    let request = pre.approvals[a].request;
    lemma_find(pre.approvals, id);
    lemma_update_keeps_find(pre.approvals, a, recorded.approvals[a], id);
    lemma_find_request(pre.staged, id, 0);
    let run_id = pre.staged[t].run_id;
    lemma_find(pre.staged, run_id);
    assert(find(pre.staged, run_id) == Some(t)) by {
        let k = find(pre.staged, run_id)->0;
        if k < t {
            assert(pre.staged[k].run_id != pre.staged[t].run_id);
        }
    }
    lemma_update_keeps_find(pre.staged, t, post.staged[t], run_id);
    lemma_find(pre.identity.runs, run_id);
    let i = find(pre.identity.runs, run_id)->0;
    let run = pre.identity.runs[i];
    assert(staged_refusal(pre, run, false, true, f.staged) is None);
    assert(issues_grant(request, c.decision.kind));
    lemma_find_last(pre.grants, recorded.grants.last());
    assert(post.grants == recorded.grants);
    assert(post.approvals == recorded.approvals);
    assert(post.identity == pre.identity);
    assert(post.plans == pre.plans);
    assert(load_plan(post, run_id) == load_plan(pre, run_id));
    let p = load_plan(pre, run_id)->Ok_0;
    let plan = pre.plans[p].plan;
    assert(staged_refusal(post, run, true, true, g) is None);
    assert(request.action@.run_id == request.action.scope.run_id);
    assert(request.action.scope.run_id == Some(run_id));
    assert(current_refusal(post, request, true, None, None, None) is None);
}

/// What a staged launch asks to have approved is exactly what its plan needs,
/// for exactly as long as an approval stays open.
pub proof fn law_staged_request_fits_its_plan(
    s: StoreView,
    run_id: Uid,
    request: ApprovalRequest,
    f: StagedFindings,
    now: Moment,
)
    requires
        stage_refusal(s, run_id, Ok(request), f, now) is None,
    ensures
        find(s.plans, run_id) is Some,
        plan_action(s.plans[find(s.plans, run_id)->0].plan) == Ok::<ActionView, Refusal>(
            request.action@,
        ),
        request.expires_at_ms - request.created_at_ms == APPROVAL_TTL_MS,
{
    let staged = with_staged_rows(s, run_id, request, now);
    lemma_find(s.identity.runs, run_id);
    let run = s.identity.runs[find(s.identity.runs, run_id)->0];
    assert(staged_refusal(staged, run, false, true, f) is None);
    lemma_find_last(s.staged, staged.staged.last());
    lemma_find_last(s.approvals, staged.approvals.last());
    assert(load_plan(staged, run_id) is Ok);
}

/// A denial ends a launch that waits for it: its run is cancelled before any
/// provider had it, and no grant is issued.
pub proof fn law_denial_cancels_the_launch(
    pre: StoreView,
    post: StoreView,
    c: DecideApprovalCommand,
    f: DecideFindings,
    now: Moment,
    t: int,
)
    requires
        consistent(pre),
        decide_refusal(pre, c, f, now) is None,
        c.decision.kind == ApprovalDecisionKind::Deny,
        find_request(pre.staged, c.decision.request_id, 0) == Some(t),
        decision_taken(pre, post, c, f, now),
    ensures
        post.staged[t].state == StagedLaunchState::Cancelled,
        find(post.identity.runs, pre.staged[t].run_id) is Some,
        post.identity.runs[find(post.identity.runs, pre.staged[t].run_id)->0].state
            == NormalizedRunState::Cancelled,
        post.identity.runs[find(post.identity.runs, pre.staged[t].run_id)->0].started_at is None,
        post.grants.len() == pre.grants.len(),
{
    let (recorded, applied) = choose|recorded: StoreView, applied: StoreView|
        #[trigger] decision_steps(pre, recorded, applied, post, c, f, now);
    let id = c.decision.request_id;
    let a = find(pre.approvals, id)->0;
    lemma_find(pre.approvals, id);
    let request = pre.approvals[a].request;
    assert(request.id == id);
    let effect = decision_effect(pre, request, c.decision.kind, f.staged)->Ok_0;
    let target = effect->Cancel_0;
    assert(effect is Cancel);
    lemma_cancel_target(pre, id, "approval_denied"@, f.staged, target);
    assert(target.staged == t);
    lemma_find(pre.grants, id);
    lemma_find(pre.identity.runs, pre.staged[t].run_id);
    lemma_update_keeps_find(
        pre.identity.runs,
        target.run,
        applied.identity.runs[target.run],
        pre.staged[t].run_id,
    );
    assert(find(pre.identity.runs, pre.staged[t].run_id) == Some(target.run));
}

/// A role that is missing, or whose ceiling denies something that the launch of
/// an approved plan needs.
pub open spec fn role_denies(identity: CatalogView, role_id: Uid) -> bool {
    match find(identity.roles, role_id) {
        None => true,
        Some(i) => {
            let ceiling = identity.roles[i].policy.ceiling;
            ||| ceiling.credential == PermissionLevel::Deny
            ||| ceiling.network == PermissionLevel::Deny
            ||| ceiling.filesystem == PermissionLevel::Deny
        },
    }
}

/// A role that is in one catalog and, in another, missing or under a lower
/// ceiling for the credential, the network or the workspace.
pub open spec fn role_lowered(before: CatalogView, after: CatalogView, role_id: Uid) -> bool {
    match (find(before.roles, role_id), find(after.roles, role_id)) {
        (Some(i), Some(j)) => {
            let old_ceiling = before.roles[i].policy.ceiling;
            let new_ceiling = after.roles[j].policy.ceiling;
            ||| new_ceiling.credential.rank() < old_ceiling.credential.rank()
            ||| new_ceiling.network.rank() < old_ceiling.network.rank()
            ||| new_ceiling.filesystem.rank() < old_ceiling.filesystem.rank()
        },
        (Some(_), None) => true,
        _ => false,
    }
}

/// A launch can be approved only with an intact plan that selects a credential
/// and that the policies allow.
proof fn lemma_approved_plan_is_allowed(
    s: StoreView,
    c: DecideApprovalCommand,
    f: DecideFindings,
    now: Moment,
    t: int,
)
    requires
        c.decision.kind == ApprovalDecisionKind::Approve,
        find_request(s.staged, c.decision.request_id, 0) == Some(t),
        decide_refusal(s, c, f, now) is None,
    ensures
        find(s.plans, s.staged[t].run_id) is Some,
        plan_allowed(s.identity, s.plans[find(s.plans, s.staged[t].run_id)->0].plan),
        names_credential(s.plans[find(s.plans, s.staged[t].run_id)->0].plan),
{
    let id = c.decision.request_id;
    lemma_find(s.approvals, id);
    let request = s.approvals[find(s.approvals, id)->0].request;
    assert(request.id == id);
    assert(decision_effect(s, request, c.decision.kind, f.staged) is Ok);
    let run_id = s.staged[t].run_id;
    lemma_find(s.identity.runs, run_id);
    let run = s.identity.runs[find(s.identity.runs, run_id)->0];
    assert(run.metadata.id == run_id);
    assert(staged_refusal(s, run, false, true, f.staged) is None);
}

/// While the role of a staged launch is missing, or its ceiling for the
/// credential, the network or the workspace is a denial, the launch cannot be
/// approved.
pub proof fn law_denied_role_cannot_be_approved(
    s: StoreView,
    c: DecideApprovalCommand,
    f: DecideFindings,
    now: Moment,
    t: int,
    p: int,
)
    requires
        c.decision.kind == ApprovalDecisionKind::Approve,
        find_request(s.staged, c.decision.request_id, 0) == Some(t),
        find(s.plans, s.staged[t].run_id) == Some(p),
        role_denies(s.identity, s.plans[p].plan.role_id),
    ensures
        decide_refusal(s, c, f, now) is Some,
{
    if decide_refusal(s, c, f, now) is None {
        lemma_approved_plan_is_allowed(s, c, f, now, t);
    }
}

/// A launch whose role has been lowered since its plan was made cannot be
/// approved.
pub proof fn law_lowered_role_cannot_be_approved(
    before: CatalogView,
    s: StoreView,
    c: DecideApprovalCommand,
    f: DecideFindings,
    now: Moment,
    t: int,
    p: int,
)
    requires
        c.decision.kind == ApprovalDecisionKind::Approve,
        find_request(s.staged, c.decision.request_id, 0) == Some(t),
        find(s.plans, s.staged[t].run_id) == Some(p),
        s.plans[p].plan.policy == launch_policy(
            before,
            s.plans[p].plan.identity.project_id,
            s.plans[p].plan.role_id,
        ),
        role_lowered(before, s.identity, s.plans[p].plan.role_id),
    ensures
        decide_refusal(s, c, f, now) is Some,
{
    if decide_refusal(s, c, f, now) is None {
        lemma_approved_plan_is_allowed(s, c, f, now, t);
    }
}

/// A launch whose plan was made under no policy cannot be approved.
pub proof fn law_plan_without_policy_cannot_be_approved(
    s: StoreView,
    c: DecideApprovalCommand,
    f: DecideFindings,
    now: Moment,
    t: int,
    p: int,
)
    requires
        c.decision.kind == ApprovalDecisionKind::Approve,
        find_request(s.staged, c.decision.request_id, 0) == Some(t),
        find(s.plans, s.staged[t].run_id) == Some(p),
        s.plans[p].plan.policy is None,
    ensures
        decide_refusal(s, c, f, now) is Some,
{
    if decide_refusal(s, c, f, now) is None {
        lemma_approved_plan_is_allowed(s, c, f, now, t);
    }
}

/// An approved launch is dispatched only while the policies still allow its
/// plan.
pub proof fn law_dispatched_plan_is_allowed(
    s: StoreView,
    request_id: Uid,
    f: StagedFindings,
    m3_fault: Option<String>,
    now: Moment,
)
    requires
        dispatch_target(s, request_id, f, m3_fault, now) is Ok,
    ensures
        plan_allowed(
            s.identity,
            s.plans[dispatch_target(s, request_id, f, m3_fault, now)->Ok_0.plan].plan,
        ),
        !role_denies(
            s.identity,
            s.plans[dispatch_target(s, request_id, f, m3_fault, now)->Ok_0.plan].plan.role_id,
        ),
{
    let target = dispatch_target(s, request_id, f, m3_fault, now)->Ok_0;
    let a = find(s.approvals, request_id)->0;
    let run_id = s.approvals[a].request.action.scope.run_id->0;
    lemma_find(s.identity.runs, run_id);
    let run = s.identity.runs[target.run];
    assert(run.metadata.id == run_id);
    assert(staged_refusal(s, run, true, true, f) is None);
}

/// Whether a launch can be denied does not depend on the policies of roles and
/// projects, nor on whether its request is still authorized.
pub proof fn law_policies_cannot_block_a_denial(
    s: StoreView,
    after: StoreView,
    c: DecideApprovalCommand,
    f: DecideFindings,
    g: DecideFindings,
    now: Moment,
)
    requires
        c.decision.kind == ApprovalDecisionKind::Deny,
        after == (StoreView {
            identity: CatalogView {
                roles: after.identity.roles,
                projects: after.identity.projects,
                ..s.identity
            },
            ..s
        }),
        g == (DecideFindings {
            staged: StagedFindings {
                authority_fault: g.staged.authority_fault,
                ..f.staged
            },
            ..f
        }),
    ensures
        decide_refusal(after, c, g, now) == decide_refusal(s, c, f, now),
{
    let id = c.decision.request_id;
    if let Some(a) = find(s.approvals, id) {
        let request = s.approvals[a].request;
        if let Some(t) = find_request(s.staged, request.id, 0) {
            let run_id = s.staged[t].run_id;
            assert(load_plan(after, run_id) == load_plan(s, run_id));
            if let Some(i) = find(s.identity.runs, run_id) {
                let run = s.identity.runs[i];
                assert(load_plan(after, run.metadata.id) == load_plan(s, run.metadata.id));
                assert(staged_refusal(after, run, false, false, g.staged) == staged_refusal(
                    s,
                    run,
                    false,
                    false,
                    f.staged,
                ));
            }
        }
        assert(decision_effect(after, request, c.decision.kind, g.staged) == decision_effect(
            s,
            request,
            c.decision.kind,
            f.staged,
        ));
    }
}

/// A launch that waits for its approval and that can be cancelled can be denied,
/// whether or not its plan was made under a policy.
pub proof fn law_waiting_launch_can_be_denied(
    s: StoreView,
    c: DecideApprovalCommand,
    f: DecideFindings,
    now: Moment,
    a: int,
    t: CancelTarget,
)
    requires
        consistent(s),
        c.decision.kind == ApprovalDecisionKind::Deny,
        find(s.approvals, c.decision.request_id) == Some(a),
        s.approvals[a].decision is None,
        s.staged[t.staged].state == StagedLaunchState::AwaitingApproval,
        cancel_target(s, c.decision.request_id, "approval_denied"@, f.staged) == Ok::<
            Option<CancelTarget>,
            Refusal,
        >(Some(t)),
        cancel_refusal(s, c.decision.request_id, t, f.cancel, now) is None,
        f.staged.request_fault is None,
        f.decision_fault is None,
        request_open(s.approvals[a].request, now.ms),
        journal_room(s.events, 3),
    ensures
        decide_refusal(s, c, f, now) is None,
{
    let id = c.decision.request_id;
    lemma_find(s.approvals, id);
    let request = s.approvals[a].request;
    assert(request.id == id);
    lemma_find_request(s.staged, id, 0);
    let run_id = s.staged[t.staged].run_id;
    lemma_find(s.identity.runs, run_id);
    lemma_find(s.staged, run_id);
    assert(find(s.staged, run_id) == Some(t.staged)) by {
        let k = find(s.staged, run_id)->0;
        if k < t.staged {
            assert(s.staged[k].run_id != s.staged[t.staged].run_id);
        }
    }
    assert(staged_refusal(s, s.identity.runs[t.run], false, false, f.staged) is None);
    assert(decision_effect(s, request, c.decision.kind, f.staged) == Ok::<DecisionEffect, Refusal>(
        DecisionEffect::Cancel(t),
    ));
}

/// The plan of a run that has just been entered fits the policies of its role
/// and its project.
pub proof fn law_new_plan_fits_current_policy(
    pre: StoreView,
    post: StoreView,
    id: Uid,
    c: BeginGraphNodeRunCommand,
    session_id: Uid,
    run_id: Uid,
    t: BeginTarget,
    graph: CheckedGraph,
    staged: bool,
    now: Moment,
)
    requires
        entered(pre, post, id, c, session_id, run_id, t, graph, staged, now),
        find(pre.identity.projects, t.binding.launch_identity.project_id) is Some,
        find(pre.identity.roles, post.plans.last().plan.role_id) is Some,
    ensures
        policy_current(post.identity, post.plans.last().plan),
{
    let plan = post.plans.last().plan;
    assert(plan.identity@.project_id == plan.identity.project_id);
}

/// An identity in which nothing that names something is blank.
pub open spec fn fully_named(identity: LaunchIdentityView) -> bool {
    &&& !blank(identity.adapter_kind)
    &&& !blank(identity.model)
    &&& match identity.account {
        None => true,
        Some(account) => !blank(account.provider_identity) && match account.credential {
            None => true,
            Some(credential) => !blank(credential.service) && !blank(credential.account_label),
        },
    }
}

/// A run that has just been started can be finished under the revisions of its
/// receipt, and ends as it is reported to end.
pub proof fn law_started_run_can_be_finished(
    pre: StoreView,
    post: StoreView,
    id: Uid,
    c: BeginGraphNodeRunCommand,
    expected: Option<RunBindingView>,
    session_id: Uid,
    run_id: Uid,
    t: BeginTarget,
    findings: BeginFindings,
    receipt: BeginGraphNodeRunReceipt,
    now: Moment,
    end: FinishGraphNodeRunCommand,
)
    requires
        consistent(pre),
        begin_target(pre, id, c, expected) == Ok::<BeginTarget, Refusal>(t),
        begin_refusal(pre, id, c, session_id, run_id, findings) is None,
        entered(pre, post, id, c, session_id, run_id, t, findings.begun->Ok_0, false, now),
        begin_receipt(receipt, pre, id, c, session_id, run_id, t, findings.begun->Ok_0),
        graph_refusal(post.graphs[t.graph], post.outputs) is None,
        fully_named(t.binding.launch_identity),
        end.expected_catalog_revision == receipt.catalog_revision,
        end.expected_graph_revision == receipt.graph_revision,
        end.expected_m3_revision == post.m3_revision,
        end.node_id == c.node_id,
        end.run_id == run_id,
        run_ended(end.terminal_state),
        end.terminal_state == NormalizedRunState::Succeeded ==> end.output_markdown is Some,
    ensures
        finish_target(post, id, end) is Ok,
        !finish_target(post, id, end)->Ok_0.malformed,
        finish_target(post, id, end)->Ok_0.terminal_state == end.terminal_state,
{
    lemma_find(pre.graphs, id);
    lemma_update_keeps_find(pre.graphs, t.graph, post.graphs[t.graph], id);
    lemma_find_last(pre.node_runs, post.node_runs.last());
    lemma_find_last(pre.identity.runs, post.identity.runs.last());
    lemma_find_last(pre.identity.sessions, post.identity.sessions.last());
    law_new_attempt_is_current(
        pre,
        post,
        id,
        c,
        session_id,
        run_id,
        t,
        findings.begun->Ok_0,
        false,
        now,
    );
    let selected = post.node_runs.last().launch->Selected_0;
    assert(selected@ == t.binding.launch_identity);
    assert(selection_sound(
        selected,
        t.binding.agent_instance_id,
        t.binding.project_id,
        t.binding.model_id,
    )) by {
        if selected.account is Some {
            assert(selected@.account == Some(selected.account->0@));
            if selected.account->0.credential is Some {
                assert(selected.account->0@.credential == Some(
                    selected.account->0.credential->0@,
                ));
            }
        }
    }
}

} // verus!

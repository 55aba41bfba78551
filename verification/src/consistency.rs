//! What holds of the state at all times: keys are unique, the journal is numbered
//! in order, attempts count up, and grants and staged launches never contradict
//! themselves. Every operation keeps it.
use crate::approval::{ApprovalRequest, ApprovalRow};
use crate::approvals::{
    approval_requested, create_refusal, decide_refusal, decision_effect, decision_steps,
    decision_taken, issues_grant, ApprovalFindings, DecideFindings, DecisionEffect,
};
use crate::attempts::{attempts_at, current_attempt, highest_attempt, lemma_latest_attempt};
use crate::begin::{begin_payload, begin_refusal, begin_target, entered, BeginFindings, BeginTarget};
use crate::binding::RunBindingView;
use crate::cancel::{
    cancel_refusal, cancel_target, find_request, launch_cancelled, unspent_grant, CancelFindings,
    CancelTarget,
};
use crate::catalogs::{catalog_replaced, m3_replaced, mvp_prepared, MvpDraft};
use crate::deliverables::{
    accept_decision_refusal, cost_entered, decision_accepted, deliveries_changed,
    document_accepted, document_created, new_graph_row, AcceptedDecision,
};
use crate::dispatch::{
    claim_refusal, dispatch_target, dispatched, fail_refusal, fail_target, lookup_failed,
    ClaimFindings, DispatchTarget, LookupFindings,
};
use crate::error::{ApprovalError, StoreError};
use crate::executions::{
    create_graph_refusal, graph_created, graph_restarted, graph_target, graph_updated,
    restart_refusal,
};
use crate::finish::{
    finish_output, finish_refusal, finish_target, finished, output_row, FinishFindings,
    FinishTarget,
};
use crate::grants::{
    consume_refusal, grant_consumed, grant_revoked, revocation_done, revocation_reason,
    revoke_refusal, GrantFindings,
};
use crate::graph::{CheckedGraph, GraphError, GraphExecution, OutputRow};
use crate::identity::{CatalogView, Moment};
use crate::lifecycle::{checkpointed, transitioned};
use crate::m3::{CostLedgerRecord, DocumentVersion, KnowledgeDelivery, M3View};
use crate::protocol::{
    AcceptDecisionBaselineCommand, AcceptDocumentCommand, BeginGraphNodeRunCommand,
    BeginGraphNodeRunReceipt,
    CheckpointCommand, CheckpointReceipt, CreateDocumentCommand, DaemonLifecycle,
    DecideApprovalCommand, EventEnvelope, FinishGraphNodeRunCommand, StagedLaunchState,
};
use crate::recovery::{recovery_notes, restart_notes, restarted, GraphRecovery};
use crate::runs::{cancel_recorded, cancelling, progress_recorded};
use crate::staged::StagedFindings;
use crate::staging::{launch_staged, stage_refusal, staged_begin_outcome, staged_begin_steps};
use crate::store::{
    event_is, journaled, journaled_all, next_sequence, GrantRow, NodeRun, StagedRow, StoreView,
    MAX_STORED,
};
use crate::uid::{find, lemma_find, Keyed, Uid};
use vstd::prelude::*;

verus! {

/// No key occurs twice.
pub open spec fn distinct_keys<T: Keyed>(rows: Seq<T>) -> bool {
    forall|i: int, j: int|
        0 <= i < j < rows.len() ==> (#[trigger] rows[i]).key() != (#[trigger] rows[j]).key()
}

/// A journal in order: its numbers start above zero and grow.
pub open spec fn numbered(events: Seq<EventEnvelope>) -> bool {
    &&& forall|i: int| 0 <= i < events.len() ==> 0 < (#[trigger] events[i]).sequence
    &&& forall|i: int, j: int|
        0 <= i < j < events.len() ==> (#[trigger] events[i]).sequence < (
        #[trigger] events[j]).sequence
}

/// Attempts at a node are numbered from one, and no number is given twice.
pub open spec fn attempts_distinct(rows: Seq<NodeRun>) -> bool {
    &&& forall|i: int| 0 <= i < rows.len() ==> 1 <= (#[trigger] rows[i]).attempt
    &&& forall|i: int, j: int|
        0 <= i < j < rows.len() && (#[trigger] rows[i]).execution_id == (
        #[trigger] rows[j]).execution_id && rows[i].node_id == rows[j].node_id ==> rows[i].attempt
            != rows[j].attempt
}

/// A grant that does not contradict itself: it is spent or revoked at most once,
/// not both, and not before it was issued; and a revoked grant names its actor.
pub open spec fn grant_sound(grant: GrantRow) -> bool {
    &&& grant.consumed_at_ms is Some ==> grant.issued_at_ms <= grant.consumed_at_ms->0
    &&& grant.revoked_at_ms is Some ==> grant.issued_at_ms <= grant.revoked_at_ms->0
    &&& !(grant.consumed_at_ms is Some && grant.revoked_at_ms is Some)
    &&& grant.revoked_at_ms is Some <==> grant.revoked_by is Some
}

/// A staged launch that does not contradict itself: it has an end and a reason
/// exactly if it was cancelled, and its end does not lie before its staging.
pub open spec fn staged_sound(row: StagedRow) -> bool {
    &&& row.state == StagedLaunchState::Cancelled <==> row.finished_at_ms is Some
    &&& row.state == StagedLaunchState::Cancelled <==> row.cancel_reason is Some
    &&& row.finished_at_ms is Some ==> row.staged_at_ms <= row.finished_at_ms->0
}

/// No request has two staged launches.
pub open spec fn requests_distinct(rows: Seq<StagedRow>) -> bool {
    forall|i: int, j: int|
        0 <= i < j < rows.len() ==> (#[trigger] rows[i]).request_id != (
        #[trigger] rows[j]).request_id
}

/// Every output in the ledger belongs to a recorded attempt.
pub open spec fn outputs_recorded(outputs: Seq<OutputRow>, runs: Seq<NodeRun>) -> bool {
    forall|i: int| 0 <= i < outputs.len() ==> find(runs, (#[trigger] outputs[i]).run_id) is Some
}

pub open spec fn grants_sound(rows: Seq<GrantRow>) -> bool {
    forall|i: int| 0 <= i < rows.len() ==> grant_sound(#[trigger] rows[i])
}

pub open spec fn all_staged_sound(rows: Seq<StagedRow>) -> bool {
    forall|i: int| 0 <= i < rows.len() ==> staged_sound(#[trigger] rows[i])
}

/// What holds of the state at all times.
pub open spec fn consistent(s: StoreView) -> bool {
    &&& numbered(s.events)
    &&& distinct_keys(s.graphs)
    &&& distinct_keys(s.node_runs)
    &&& attempts_distinct(s.node_runs)
    &&& distinct_keys(s.outputs)
    &&& outputs_recorded(s.outputs, s.node_runs)
    &&& distinct_keys(s.approvals)
    &&& distinct_keys(s.grants)
    &&& grants_sound(s.grants)
    &&& distinct_keys(s.plans)
    &&& distinct_keys(s.staged)
    &&& requests_distinct(s.staged)
    &&& all_staged_sound(s.staged)
    &&& distinct_keys(s.claims)
}

/// Rows are only added at the end.
pub open spec fn extends<T>(pre: Seq<T>, post: Seq<T>) -> bool {
    &&& pre.len() <= post.len()
    &&& forall|i: int| 0 <= i < pre.len() ==> #[trigger] post[i] == pre[i]
}

/// A request keeps what it asks for, and a decision stands.
pub open spec fn request_kept(pre: ApprovalRow, post: ApprovalRow) -> bool {
    &&& post.request == pre.request
    &&& pre.decision is Some ==> post.decision == pre.decision
}

/// A grant keeps its request and its time of issue, and is never unspent or
/// unrevoked.
pub open spec fn grant_kept(pre: GrantRow, post: GrantRow) -> bool {
    &&& post.request_id == pre.request_id
    &&& post.issued_at_ms == pre.issued_at_ms
    &&& pre.consumed_at_ms is Some ==> post.consumed_at_ms == pre.consumed_at_ms
    &&& pre.revoked_at_ms is Some ==> post.revoked_at_ms == pre.revoked_at_ms && post.revoked_by
        == pre.revoked_by
}

/// An attempt keeps its run, its node, its number and the identity selected for
/// it.
pub open spec fn attempt_kept(pre: NodeRun, post: NodeRun) -> bool {
    &&& post.execution_id == pre.execution_id
    &&& post.node_id == pre.node_id
    &&& post.run_id == pre.run_id
    &&& post.attempt == pre.attempt
    &&& post.created_at == pre.created_at
    &&& post.launch == pre.launch
}

/// How far a staged launch has come.
pub open spec fn progress(state: StagedLaunchState) -> int {
    match state {
        StagedLaunchState::AwaitingApproval => 0,
        StagedLaunchState::Ready => 1,
        StagedLaunchState::Dispatching => 2,
        StagedLaunchState::Uncertain => 3,
        StagedLaunchState::Cancelled => 3,
    }
}

/// A staged launch keeps its run, its request and its time, and never goes back;
/// one that was dispatched is never cancelled, and one that was cancelled stays
/// as it is.
pub open spec fn launch_kept(pre: StagedRow, post: StagedRow) -> bool {
    &&& post.run_id == pre.run_id
    &&& post.request_id == pre.request_id
    &&& post.staged_at_ms == pre.staged_at_ms
    &&& progress(pre.state) <= progress(post.state)
    &&& progress(pre.state) == progress(post.state) ==> post == pre
    &&& pre.state == StagedLaunchState::Dispatching && post != pre ==> post.state
        == StagedLaunchState::Uncertain
}

/// No row is lost, and what is settled stays settled.
pub open spec fn history_kept(pre: StoreView, post: StoreView) -> bool {
    &&& extends(pre.outputs, post.outputs)
    &&& extends(pre.plans, post.plans)
    &&& extends(pre.claims, post.claims)
    &&& extends(pre.checkpoints, post.checkpoints)
    &&& pre.graphs.len() <= post.graphs.len()
    &&& forall|i: int|
        0 <= i < pre.graphs.len() ==> (#[trigger] post.graphs[i]).execution_id
            == pre.graphs[i].execution_id
    &&& pre.approvals.len() <= post.approvals.len()
    &&& forall|i: int|
        0 <= i < pre.approvals.len() ==> request_kept(
            pre.approvals[i],
            #[trigger] post.approvals[i],
        )
    &&& pre.grants.len() <= post.grants.len()
    &&& forall|i: int|
        0 <= i < pre.grants.len() ==> grant_kept(pre.grants[i], #[trigger] post.grants[i])
    &&& pre.node_runs.len() <= post.node_runs.len()
    &&& forall|i: int|
        0 <= i < pre.node_runs.len() ==> attempt_kept(
            pre.node_runs[i],
            #[trigger] post.node_runs[i],
        )
    &&& pre.staged.len() <= post.staged.len()
    &&& forall|i: int|
        0 <= i < pre.staged.len() ==> launch_kept(pre.staged[i], #[trigger] post.staged[i])
}

/// Nothing that was journaled is taken back, no revision goes back, and the
/// history is kept.
pub open spec fn advances(pre: StoreView, post: StoreView) -> bool {
    &&& pre.events.len() <= post.events.len()
    &&& post.events.take(pre.events.len() as int) == pre.events
    &&& pre.revision <= post.revision
    &&& pre.identity_revision <= post.identity_revision
    &&& pre.m3_revision <= post.m3_revision
    &&& post.daemon_id == pre.daemon_id
    &&& history_kept(pre, post)
}

/// What one operation and then another keep, both together keep.
pub proof fn law_history_is_kept_throughout(a: StoreView, b: StoreView, c: StoreView)
    requires
        advances(a, b),
        advances(b, c),
    ensures
        advances(a, c),
{
    assert(c.events.take(a.events.len() as int) =~= b.events.take(a.events.len() as int)) by {
        assert(c.events.take(b.events.len() as int) =~= b.events);
    }
    assert forall|i: int| 0 <= i < a.outputs.len() implies #[trigger] c.outputs[i]
        == a.outputs[i] by {
        assert(b.outputs[i] == a.outputs[i]);
    }
    assert forall|i: int| 0 <= i < a.plans.len() implies #[trigger] c.plans[i] == a.plans[i] by {
        assert(b.plans[i] == a.plans[i]);
    }
    assert forall|i: int| 0 <= i < a.claims.len() implies #[trigger] c.claims[i] == a.claims[i] by {
        assert(b.claims[i] == a.claims[i]);
    }
    assert forall|i: int| 0 <= i < a.checkpoints.len() implies #[trigger] c.checkpoints[i]
        == a.checkpoints[i] by {
        assert(b.checkpoints[i] == a.checkpoints[i]);
    }
    assert forall|i: int| 0 <= i < a.graphs.len() implies (#[trigger] c.graphs[i]).execution_id
        == a.graphs[i].execution_id by {
        assert(b.graphs[i].execution_id == a.graphs[i].execution_id);
    }
    assert forall|i: int| 0 <= i < a.approvals.len() implies request_kept(
        a.approvals[i],
        #[trigger] c.approvals[i],
    ) by {
        assert(request_kept(a.approvals[i], b.approvals[i]));
    }
    assert forall|i: int| 0 <= i < a.grants.len() implies grant_kept(
        a.grants[i],
        #[trigger] c.grants[i],
    ) by {
        assert(grant_kept(a.grants[i], b.grants[i]));
    }
    assert forall|i: int| 0 <= i < a.node_runs.len() implies attempt_kept(
        a.node_runs[i],
        #[trigger] c.node_runs[i],
    ) by {
        assert(attempt_kept(a.node_runs[i], b.node_runs[i]));
    }
    assert forall|i: int| 0 <= i < a.staged.len() implies launch_kept(
        a.staged[i],
        #[trigger] c.staged[i],
    ) by {
        assert(launch_kept(a.staged[i], b.staged[i]));
        assert(launch_kept(b.staged[i], c.staged[i]));
    }
}

/// The tables are the same, but for the journal, the catalogs and the daemon's
/// own entry.
pub open spec fn same_tables(pre: StoreView, post: StoreView) -> bool {
    &&& post.graphs == pre.graphs
    &&& post.node_runs == pre.node_runs
    &&& post.outputs == pre.outputs
    &&& post.approvals == pre.approvals
    &&& post.grants == pre.grants
    &&& post.plans == pre.plans
    &&& post.staged == pre.staged
    &&& post.claims == pre.claims
}

proof fn lemma_push_distinct<T: Keyed>(rows: Seq<T>, row: T)
    requires
        distinct_keys(rows),
        find(rows, row.key()) is None,
    ensures
        distinct_keys(rows.push(row)),
{
    lemma_find(rows, row.key());
}

proof fn lemma_update_distinct<T: Keyed>(rows: Seq<T>, i: int, row: T)
    requires
        distinct_keys(rows),
        0 <= i < rows.len(),
        row.key() == rows[i].key(),
    ensures
        distinct_keys(rows.update(i, row)),
{
    let after = rows.update(i, row);
    assert forall|a: int, b: int| 0 <= a < b < after.len() implies (#[trigger] after[a]).key() != (
    #[trigger] after[b]).key() by {
        assert(rows[a].key() != rows[b].key());
    }
}

/// One more event keeps a journal in order, and keeps what it holds.
pub proof fn law_journal_grows_in_order(
    pre: Seq<EventEnvelope>,
    post: Seq<EventEnvelope>,
    kind: Seq<char>,
    payload: Seq<char>,
    now: Moment,
)
    requires
        numbered(pre),
        journaled(pre, post, kind, payload, now),
    ensures
        numbered(post),
        post.take(pre.len() as int) == pre,
        post.len() == pre.len() + 1,
{
    assert(post.take(pre.len() as int) =~= post.drop_last());
    assert forall|i: int, j: int| 0 <= i < j < post.len() implies (#[trigger] post[i]).sequence < (
    #[trigger] post[j]).sequence by {
        assert(post[i] == pre[i]);
        if j < pre.len() {
            assert(post[j] == pre[j]);
        } else {
            assert(pre[i].sequence <= pre.last().sequence);
        }
    }
    assert forall|i: int| 0 <= i < post.len() implies 0 < (#[trigger] post[i]).sequence by {
        if i < pre.len() {
            assert(post[i] == pre[i]);
        }
    }
}

proof fn lemma_journal_all(
    pre: Seq<EventEnvelope>,
    post: Seq<EventEnvelope>,
    notes: Seq<(Seq<char>, Seq<char>)>,
    now: Moment,
)
    requires
        numbered(pre),
        journaled_all(pre, post, notes, now),
    ensures
        numbered(post),
        post.take(pre.len() as int) == pre,
        post.len() >= pre.len(),
{
    assert forall|i: int| 0 <= i < pre.len() implies post[i] == pre[i] by {
        assert(post.take(pre.len() as int)[i] == pre[i]);
    }
    assert forall|i: int| pre.len() <= i < post.len() implies (#[trigger] post[i]).sequence
        == next_sequence(pre) + (i - pre.len()) by {
        let k = i - pre.len();
        assert(event_is(
            post[pre.len() + k],
            (next_sequence(pre) + k) as nat,
            notes[k].0,
            notes[k].1,
            now,
        ));
    }
    assert forall|i: int, j: int| 0 <= i < j < post.len() implies (#[trigger] post[i]).sequence < (
    #[trigger] post[j]).sequence by {
        if i < pre.len() {
            assert(pre[i].sequence <= pre.last().sequence);
        }
    }
}

proof fn lemma_only_catalogs(pre: StoreView, post: StoreView, kind: Seq<char>, payload: Seq<char>, now: Moment)
    requires
        consistent(pre),
        same_tables(pre, post),
        journaled(pre.events, post.events, kind, payload, now),
        pre.revision <= post.revision,
        pre.identity_revision <= post.identity_revision,
        pre.m3_revision <= post.m3_revision,
        post.daemon_id == pre.daemon_id,
        extends(pre.checkpoints, post.checkpoints),
    ensures
        consistent(post),
        advances(pre, post),
{
    law_journal_grows_in_order(pre.events, post.events, kind, payload, now);
}

/// A change of lifecycle keeps the state consistent.
pub proof fn law_transition_is_consistent(
    pre: StoreView,
    post: StoreView,
    lifecycle: DaemonLifecycle,
    kind: Seq<char>,
    payload: Seq<char>,
    event: EventEnvelope,
    now: Moment,
)
    requires
        consistent(pre),
        pre.revision < MAX_STORED,
        transitioned(pre, post, lifecycle, kind, payload, event, now),
    ensures
        consistent(post),
        advances(pre, post),
{
    lemma_only_catalogs(pre, post, kind, payload, now);
}

/// A checkpoint keeps the state consistent.
pub proof fn law_checkpoint_is_consistent(
    pre: StoreView,
    post: StoreView,
    c: CheckpointCommand,
    lifecycle: DaemonLifecycle,
    kind: Seq<char>,
    receipt: CheckpointReceipt,
    now: Moment,
)
    requires
        consistent(pre),
        checkpointed(pre, post, c, lifecycle, kind, receipt, now),
    ensures
        consistent(post),
        advances(pre, post),
{
    lemma_only_catalogs(pre, post, kind, crate::lifecycle::reason_payload(c.reason@), now);
}

/// The replacement of a catalog keeps the state consistent.
pub proof fn law_catalog_replacement_is_consistent(pre: StoreView, post: StoreView, next: CatalogView, now: Moment)
    requires
        consistent(pre),
        pre.identity_revision < MAX_STORED,
        catalog_replaced(pre, post, next, now),
    ensures
        consistent(post),
        advances(pre, post),
{
    lemma_only_catalogs(
        pre,
        post,
        "catalog.replaced"@,
        crate::catalogs::replaced_payload(pre.identity_revision + 1, next),
        now,
    );
}

/// The replacement of the office catalog keeps the state consistent.
pub proof fn law_office_replacement_is_consistent(pre: StoreView, post: StoreView, next: M3View, now: Moment)
    requires
        consistent(pre),
        pre.m3_revision < MAX_STORED,
        m3_replaced(pre, post, next, now),
    ensures
        consistent(post),
        advances(pre, post),
{
    law_journal_grows_in_order(
        pre.events,
        post.events,
        post.events.last().event_type@,
        post.events.last().payload_json@,
        now,
    );
}

/// The setup of a first project keeps the state consistent.
pub proof fn law_setup_is_consistent(pre: StoreView, post: StoreView, draft: MvpDraft, now: Moment)
    requires
        consistent(pre),
        pre.identity_revision < MAX_STORED,
        pre.m3_revision < MAX_STORED,
        mvp_prepared(pre, post, draft, now),
    ensures
        consistent(post),
        advances(pre, post),
{
    law_journal_grows_in_order(
        pre.events,
        post.events,
        post.events.last().event_type@,
        post.events.last().payload_json@,
        now,
    );
}

/// A report of progress keeps the state consistent.
pub proof fn law_progress_is_consistent(
    pre: StoreView,
    post: StoreView,
    run_id: Uid,
    i: int,
    j: int,
    name: Option<Seq<char>>,
    now: Moment,
)
    requires
        consistent(pre),
        pre.identity_revision < MAX_STORED,
        progress_recorded(pre, post, run_id, i, j, name, now),
    ensures
        consistent(post),
        advances(pre, post),
{
    if post == pre {
        assert(post.events.take(pre.events.len() as int) =~= pre.events);
    } else {
        law_journal_grows_in_order(
            pre.events,
            post.events,
            "run.provider_running"@,
            crate::runs::run_payload(run_id),
            now,
        );
    }
}

/// The record of an interrupt keeps the state consistent.
pub proof fn law_interrupt_is_consistent(pre: StoreView, post: StoreView, run_id: Uid, now: Moment)
    requires
        consistent(pre),
        pre.identity_revision < MAX_STORED,
        cancel_recorded(pre, post, run_id, now) || cancelling(pre, post, run_id, now),
    ensures
        consistent(post),
        advances(pre, post),
{
    law_journal_grows_in_order(
        pre.events,
        post.events,
        post.events.last().event_type@,
        post.events.last().payload_json@,
        now,
    );
}

proof fn lemma_only_office(pre: StoreView, post: StoreView, kind: Seq<char>, payload: Seq<char>, now: Moment)
    requires
        consistent(pre),
        pre.m3_revision < MAX_STORED,
        journaled(pre.events, post.events, kind, payload, now),
        post == (StoreView {
            m3_revision: (pre.m3_revision + 1) as u64,
            m3: post.m3,
            events: post.events,
            ..pre
        }),
    ensures
        consistent(post),
        advances(pre, post),
{
    law_journal_grows_in_order(pre.events, post.events, kind, payload, now);
}

/// A new document keeps the state consistent.
pub proof fn law_new_document_is_consistent(
    pre: StoreView,
    post: StoreView,
    c: CreateDocumentCommand,
    artifact_id: Uid,
    version_id: Uid,
    version: DocumentVersion,
    project_id: Uid,
    now: Moment,
)
    requires
        consistent(pre),
        pre.m3_revision < MAX_STORED,
        document_created(pre, post, c, artifact_id, version_id, version, project_id, now),
    ensures
        consistent(post),
        advances(pre, post),
{
    let event = post.events.last();
    lemma_only_office(pre, post, event.event_type@, event.payload_json@, now);
}

/// The acceptance of a document keeps the state consistent.
pub proof fn law_document_acceptance_is_consistent(
    pre: StoreView,
    post: StoreView,
    c: AcceptDocumentCommand,
    d: int,
    v: int,
    accepted: DocumentVersion,
    now: Moment,
)
    requires
        consistent(pre),
        pre.m3_revision < MAX_STORED,
        document_accepted(pre, post, c, d, v, accepted, now),
    ensures
        consistent(post),
        advances(pre, post),
{
    let event = post.events.last();
    lemma_only_office(pre, post, event.event_type@, event.payload_json@, now);
}

/// A delivery of knowledge keeps the state consistent.
pub proof fn law_delivery_is_consistent(
    pre: StoreView,
    post: StoreView,
    deliveries: Seq<KnowledgeDelivery>,
    kind: Seq<char>,
    payload: Seq<char>,
    now: Moment,
)
    requires
        consistent(pre),
        pre.m3_revision < MAX_STORED,
        deliveries_changed(pre, post, deliveries, kind, payload, now),
    ensures
        consistent(post),
        advances(pre, post),
{
    lemma_only_office(pre, post, kind, payload, now);
}

/// A new cost record keeps the state consistent.
pub proof fn law_cost_is_consistent(
    pre: StoreView,
    post: StoreView,
    record: CostLedgerRecord,
    now: Moment,
)
    requires
        consistent(pre),
        pre.m3_revision < MAX_STORED,
        cost_entered(pre, post, record, now),
    ensures
        consistent(post),
        advances(pre, post),
{
    let event = post.events.last();
    lemma_only_office(pre, post, event.event_type@, event.payload_json@, now);
}

/// The acceptance of a decision keeps the state consistent.
pub proof fn law_decision_acceptance_is_consistent(
    pre: StoreView,
    post: StoreView,
    c: AcceptDecisionBaselineCommand,
    accepted: AcceptedDecision,
    m3_fault: Option<String>,
    now: Moment,
)
    requires
        consistent(pre),
        accept_decision_refusal(pre, c, Ok(accepted), m3_fault) is None,
        decision_accepted(pre, post, c, accepted, now),
    ensures
        consistent(post),
        advances(pre, post),
{
    law_journal_grows_in_order(
        pre.events,
        post.events,
        post.events.last().event_type@,
        post.events.last().payload_json@,
        now,
    );
    lemma_push_distinct(pre.graphs, new_graph_row(accepted.graph, now));
}

/// A new execution keeps the state consistent.
pub proof fn law_new_execution_is_consistent(
    pre: StoreView,
    post: StoreView,
    execution: GraphExecution,
    fault: Option<GraphError>,
    now: Moment,
)
    requires
        consistent(pre),
        create_graph_refusal(pre, execution, fault) is None,
        graph_created(pre, post, execution, now),
    ensures
        consistent(post),
        advances(pre, post),
{
    law_journal_grows_in_order(
        pre.events,
        post.events,
        post.events.last().event_type@,
        post.events.last().payload_json@,
        now,
    );
    lemma_push_distinct(pre.graphs, post.graphs.last());
}

/// A change of an execution keeps the state consistent.
pub proof fn law_execution_change_is_consistent(
    pre: StoreView,
    post: StoreView,
    id: Uid,
    expected_revision: u64,
    g: int,
    graph: CheckedGraph,
    kind: Seq<char>,
    payload: Seq<char>,
    now: Moment,
)
    requires
        consistent(pre),
        graph_target(pre, id, expected_revision) == Ok::<int, crate::error::Refusal>(g),
        graph_updated(pre, post, g, graph, kind, payload, now),
    ensures
        consistent(post),
        advances(pre, post),
{
    law_journal_grows_in_order(pre.events, post.events, kind, payload, now);
    lemma_find(pre.graphs, id);
    lemma_update_distinct(pre.graphs, g, post.graphs[g]);
}

/// The restart of an execution keeps the state consistent.
pub proof fn law_execution_restart_is_consistent(
    pre: StoreView,
    post: StoreView,
    original: Uid,
    graph: CheckedGraph,
    now: Moment,
)
    requires
        consistent(pre),
        restart_refusal(pre, original, Ok(graph), now) is None,
        graph_restarted(pre, post, original, graph, now),
    ensures
        consistent(post),
        advances(pre, post),
{
    law_journal_grows_in_order(
        pre.events,
        post.events,
        post.events.last().event_type@,
        post.events.last().payload_json@,
        now,
    );
    lemma_push_distinct(pre.graphs, new_graph_row(graph, now));
}

/// The tables after the entry of a run are consistent, whatever the journal says
/// of it.
proof fn lemma_entry_tables(
    pre: StoreView,
    post: StoreView,
    id: Uid,
    c: BeginGraphNodeRunCommand,
    session_id: Uid,
    run_id: Uid,
    t: BeginTarget,
    findings: BeginFindings,
    staged: bool,
    now: Moment,
)
    requires
        consistent(pre),
        0 <= t.graph < pre.graphs.len(),
        begin_refusal(pre, id, c, session_id, run_id, findings) is None,
        entered(pre, post, id, c, session_id, run_id, t, findings.begun->Ok_0, staged, now),
    ensures
        consistent(StoreView { events: pre.events, ..post }),
{
    let row = post.node_runs.last();
    lemma_push_distinct(pre.node_runs, row);
    lemma_push_distinct(pre.plans, post.plans.last());
    lemma_update_distinct(pre.graphs, t.graph, post.graphs[t.graph]);
    lemma_latest_attempt(pre.node_runs, id, c.node_id, pre.node_runs.len());
    assert forall|i: int, j: int|
        0 <= i < j < post.node_runs.len() && (#[trigger] post.node_runs[i]).execution_id == (
        #[trigger] post.node_runs[j]).execution_id && post.node_runs[i].node_id
            == post.node_runs[j].node_id implies post.node_runs[i].attempt
        != post.node_runs[j].attempt by {
        assert(post.node_runs[i] == pre.node_runs[i]);
        if j < pre.node_runs.len() {
            assert(post.node_runs[j] == pre.node_runs[j]);
        } else {
            assert(post.node_runs[j] == row);
            assert(attempts_at(pre.node_runs[i], id, c.node_id));
        }
    }
    lemma_outputs_stay_recorded(pre.outputs, pre.node_runs, row);
}

proof fn lemma_outputs_stay_recorded(outputs: Seq<OutputRow>, runs: Seq<NodeRun>, row: NodeRun)
    requires
        outputs_recorded(outputs, runs),
    ensures
        outputs_recorded(outputs, runs.push(row)),
{
    assert forall|i: int| 0 <= i < outputs.len() implies find(
        runs.push(row),
        (#[trigger] outputs[i]).run_id,
    ) is Some by {
        lemma_find(runs, outputs[i].run_id);
        lemma_find(runs.push(row), outputs[i].run_id);
        let k = find(runs, outputs[i].run_id)->0;
        assert(runs.push(row)[k] == runs[k]);
    }
}

/// The start of a run keeps the state consistent.
pub proof fn law_start_is_consistent(
    pre: StoreView,
    post: StoreView,
    id: Uid,
    c: BeginGraphNodeRunCommand,
    expected: Option<RunBindingView>,
    session_id: Uid,
    run_id: Uid,
    t: BeginTarget,
    findings: BeginFindings,
    now: Moment,
)
    requires
        consistent(pre),
        begin_target(pre, id, c, expected) == Ok::<BeginTarget, crate::error::Refusal>(t),
        begin_refusal(pre, id, c, session_id, run_id, findings) is None,
        entered(pre, post, id, c, session_id, run_id, t, findings.begun->Ok_0, false, now),
        journaled(
            pre.events,
            post.events,
            "graph.node_run_started"@,
            begin_payload(id, c, run_id),
            now,
        ),
    ensures
        consistent(post),
        advances(pre, post),
{
    lemma_find(pre.graphs, id);
    lemma_entry_tables(pre, post, id, c, session_id, run_id, t, findings, false, now);
    law_journal_grows_in_order(
        pre.events,
        post.events,
        "graph.node_run_started"@,
        begin_payload(id, c, run_id),
        now,
    );
}

/// A new attempt is the current one at its node, numbered one above the highest
/// before it.
pub proof fn law_new_attempt_is_current(
    pre: StoreView,
    post: StoreView,
    id: Uid,
    c: BeginGraphNodeRunCommand,
    session_id: Uid,
    run_id: Uid,
    t: BeginTarget,
    graph: CheckedGraph,
    staged: bool,
    now: Moment,
)
    requires
        entered(pre, post, id, c, session_id, run_id, t, graph, staged, now),
    ensures
        current_attempt(post.node_runs, id, c.node_id) == Some(pre.node_runs.len() as int),
        post.node_runs[current_attempt(post.node_runs, id, c.node_id)->0].run_id == run_id,
        highest_attempt(post.node_runs, id, c.node_id) == highest_attempt(
            pre.node_runs,
            id,
            c.node_id,
        ) + 1,
{
    let rows = pre.node_runs;
    let row = post.node_runs.last();
    lemma_latest_same_prefix(rows, rows.push(row), id, c.node_id, rows.len());
    lemma_latest_attempt(rows, id, c.node_id, rows.len());
}

proof fn lemma_latest_same_prefix(a: Seq<NodeRun>, b: Seq<NodeRun>, id: Uid, node: Uid, n: nat)
    requires
        n <= a.len(),
        n <= b.len(),
        forall|i: int| 0 <= i < n ==> a[i] == b[i],
    ensures
        crate::attempts::latest_attempt(a, id, node, n) == crate::attempts::latest_attempt(
            b,
            id,
            node,
            n,
        ),
    decreases n,
{
    if n > 0 {
        lemma_latest_same_prefix(a, b, id, node, (n - 1) as nat);
        lemma_latest_attempt(a, id, node, (n - 1) as nat);
        assert(a[n - 1] == b[n - 1]);
    }
}

/// Changing a row without its key leaves every search as it was.
pub proof fn lemma_update_keeps_find<T: Keyed>(rows: Seq<T>, i: int, row: T, key: Uid)
    requires
        0 <= i < rows.len(),
        row.key() == rows[i].key(),
    ensures
        find(rows.update(i, row), key) == find(rows, key),
{
    lemma_find(rows, key);
    lemma_find(rows.update(i, row), key);
    let a = find(rows, key);
    let b = find(rows.update(i, row), key);
    assert forall|j: int| 0 <= j < rows.len() implies (#[trigger] rows.update(i, row)[j]).key()
        == rows[j].key() by {}
    if a is Some {
        assert(rows.update(i, row)[a->0].key() == key);
    }
    if b is Some {
        assert(rows[b->0].key() == key);
    }
}

/// The end of a run keeps the state consistent.
pub proof fn law_finish_is_consistent(
    pre: StoreView,
    post: StoreView,
    id: Uid,
    c: FinishGraphNodeRunCommand,
    t: FinishTarget,
    cost_record_id: Uid,
    findings: FinishFindings,
    now: Moment,
)
    requires
        consistent(pre),
        finish_target(pre, id, c) == Ok::<FinishTarget, crate::error::Refusal>(t),
        finish_refusal(pre, id, c, t, findings) is None,
        finished(pre, post, id, c, t, cost_record_id, findings, now),
    ensures
        consistent(post),
        advances(pre, post),
{
    law_journal_grows_in_order(
        pre.events,
        post.events,
        "graph.node_run_finished"@,
        crate::finish::finish_payload(id, c, t, cost_record_id),
        now,
    );
    lemma_find(pre.graphs, id);
    lemma_find(pre.node_runs, c.run_id);
    lemma_update_distinct(pre.graphs, t.graph, post.graphs[t.graph]);
    let row = post.node_runs[t.attempt];
    lemma_update_distinct(pre.node_runs, t.attempt, row);
    assert forall|i: int| 0 <= i < pre.outputs.len() implies find(
        post.node_runs,
        (#[trigger] pre.outputs[i]).run_id,
    ) is Some by {
        lemma_update_keeps_find(pre.node_runs, t.attempt, row, pre.outputs[i].run_id);
    }
    match finish_output(t, c, findings) {
        None => {},
        Some(output) => {
            lemma_push_distinct(pre.outputs, output_row(id, output, now));
            lemma_update_keeps_find(pre.node_runs, t.attempt, row, output.run_id);
        },
    }
}

/// A new request keeps the state consistent.
pub proof fn law_request_is_consistent(
    pre: StoreView,
    post: StoreView,
    request: ApprovalRequest,
    f: ApprovalFindings,
    now: Moment,
)
    requires
        consistent(pre),
        create_refusal(pre, request, f, now) is None,
        approval_requested(pre, post, request, now),
    ensures
        consistent(post),
        advances(pre, post),
{
    law_journal_grows_in_order(
        pre.events,
        post.events,
        "approval.requested"@,
        crate::approvals::requested_payload(request),
        now,
    );
    lemma_push_distinct(pre.approvals, ApprovalRow { request, decision: None });
}

/// The spending of a grant keeps the state consistent.
pub proof fn law_consumption_is_consistent(
    pre: StoreView,
    post: StoreView,
    id: Uid,
    action: crate::approval::ApprovalAction,
    f: GrantFindings,
    now: Moment,
)
    requires
        consistent(pre),
        consume_refusal(pre, id, action, f, now) is None,
        grant_consumed(pre, post, id, action.scope.run_id, now),
    ensures
        consistent(post),
        advances(pre, post),
{
    law_journal_grows_in_order(
        pre.events,
        post.events,
        "credential.grant_consumed"@,
        crate::grants::grant_payload(id, action.scope.run_id),
        now,
    );
    lemma_find(pre.grants, id);
    let q = find(pre.grants, id)->0;
    assert(grant_sound(pre.grants[q]));
    lemma_update_distinct(pre.grants, q, post.grants[q]);
}

proof fn lemma_revoked_grant(pre: StoreView, post: StoreView, id: Uid, actor: String, now: Moment)
    requires
        consistent(pre),
        find(pre.grants, id) is Some,
        pre.grants[find(pre.grants, id)->0].issued_at_ms <= now.ms,
        pre.grants[find(pre.grants, id)->0].consumed_at_ms is None,
        pre.grants[find(pre.grants, id)->0].revoked_at_ms is None,
        grant_revoked(pre, post, id, actor, now),
    ensures
        consistent(post),
        advances(pre, post),
        find(post.grants, id) == find(pre.grants, id),
{
    law_journal_grows_in_order(
        pre.events,
        post.events,
        post.events.last().event_type@,
        post.events.last().payload_json@,
        now,
    );
    lemma_find(pre.grants, id);
    let q = find(pre.grants, id)->0;
    lemma_update_distinct(pre.grants, q, post.grants[q]);
    lemma_update_keeps_find(pre.grants, q, post.grants[q], id);
}

proof fn lemma_cancellation(
    pre: StoreView,
    post: StoreView,
    request_id: Uid,
    reason: Seq<char>,
    t: CancelTarget,
    graph: CheckedGraph,
    now: Moment,
)
    requires
        consistent(pre),
        pre.identity_revision < MAX_STORED,
        0 <= t.staged < pre.staged.len(),
        progress(pre.staged[t.staged].state) < progress(StagedLaunchState::Dispatching),
        0 <= t.graph < pre.graphs.len(),
        0 <= t.attempt < pre.node_runs.len(),
        0 <= t.run < pre.identity.runs.len(),
        launch_cancelled(pre, post, request_id, reason, t, graph, now),
    ensures
        consistent(post),
        advances(pre, post),
{
    let middle = if unspent_grant(pre, request_id) is Some {
        post.events.drop_last()
    } else {
        pre.events
    };
    if unspent_grant(pre, request_id) is Some {
        law_journal_grows_in_order(
            pre.events,
            middle,
            middle.last().event_type@,
            middle.last().payload_json@,
            now,
        );
    } else {
        assert(middle.take(pre.events.len() as int) =~= pre.events);
    }
    law_journal_grows_in_order(
        middle,
        post.events,
        post.events.last().event_type@,
        post.events.last().payload_json@,
        now,
    );
    assert(post.events.take(pre.events.len() as int) =~= middle.take(pre.events.len() as int));
    lemma_update_distinct(pre.graphs, t.graph, post.graphs[t.graph]);
    let row = post.node_runs[t.attempt];
    lemma_update_distinct(pre.node_runs, t.attempt, row);
    assert forall|i: int| 0 <= i < pre.outputs.len() implies find(
        post.node_runs,
        (#[trigger] pre.outputs[i]).run_id,
    ) is Some by {
        lemma_update_keeps_find(pre.node_runs, t.attempt, row, pre.outputs[i].run_id);
    }
    lemma_update_distinct(pre.staged, t.staged, post.staged[t.staged]);
    match unspent_grant(pre, request_id) {
        None => {},
        Some(q) => {
            lemma_find(pre.grants, request_id);
            lemma_update_distinct(pre.grants, q, post.grants[q]);
        },
    }
}

/// The rows that a cancellation concerns stand in their tables.
pub proof fn lemma_cancel_target(s: StoreView, request_id: Uid, reason: Seq<char>, f: StagedFindings, t: CancelTarget)
    requires
        cancel_target(s, request_id, reason, f) == Ok::<
            Option<CancelTarget>,
            crate::error::Refusal,
        >(Some(t)),
    ensures
        0 <= t.staged < s.staged.len(),
        s.staged[t.staged].request_id == request_id,
        0 <= t.run < s.identity.runs.len(),
        s.identity.runs[t.run].metadata.id == s.staged[t.staged].run_id,
        0 <= t.plan < s.plans.len(),
        0 <= t.graph < s.graphs.len(),
        0 <= t.attempt < s.node_runs.len(),
        s.node_runs[t.attempt].run_id == s.staged[t.staged].run_id,
        s.staged[t.staged].state == StagedLaunchState::AwaitingApproval || s.staged[t.staged].state
            == StagedLaunchState::Ready,
{
    lemma_find_request(s.staged, request_id, 0);
    lemma_find(s.identity.runs, s.staged[t.staged].run_id);
    lemma_find(s.plans, s.staged[t.staged].run_id);
    lemma_find(s.graphs, s.plans[t.plan].plan.execution_id);
    lemma_find(s.node_runs, s.staged[t.staged].run_id);
}

/// The cancellation of a staged launch keeps the state consistent.
pub proof fn law_cancellation_is_consistent(
    pre: StoreView,
    post: StoreView,
    request_id: Uid,
    reason: Seq<char>,
    f: StagedFindings,
    t: CancelTarget,
    findings: CancelFindings,
    now: Moment,
)
    requires
        consistent(pre),
        cancel_target(pre, request_id, reason, f) == Ok::<
            Option<CancelTarget>,
            crate::error::Refusal,
        >(Some(t)),
        cancel_refusal(pre, request_id, t, findings, now) is None,
        launch_cancelled(pre, post, request_id, reason, t, findings.cancelled->Ok_0, now),
    ensures
        consistent(post),
        advances(pre, post),
{
    lemma_cancel_target(pre, request_id, reason, f, t);
    lemma_cancellation(pre, post, request_id, reason, t, findings.cancelled->Ok_0, now);
}

pub proof fn lemma_find_request(rows: Seq<StagedRow>, id: Uid, from: int)
    requires
        from >= 0,
    ensures
        match find_request(rows, id, from) {
            Some(i) => from <= i < rows.len() && rows[i].request_id == id && forall|j: int|
                from <= j < i ==> (#[trigger] rows[j]).request_id != id,
            None => forall|j: int|
                from <= j < rows.len() ==> (#[trigger] rows[j]).request_id != id,
        },
    decreases rows.len() - from,
{
    if from < rows.len() && rows[from].request_id != id {
        lemma_find_request(rows, id, from + 1);
    }
}

/// The revocation of a grant keeps the state consistent.
pub proof fn law_revocation_is_consistent(
    pre: StoreView,
    post: StoreView,
    id: Uid,
    actor: String,
    f: StagedFindings,
    findings: CancelFindings,
    now: Moment,
)
    requires
        consistent(pre),
        revoke_refusal(pre, id, actor@, f, findings, now) is None,
        revocation_done(pre, post, id, actor, f, findings, now),
    ensures
        consistent(post),
        advances(pre, post),
{
    match cancel_target(pre, id, revocation_reason(), f) {
        Ok(Some(t)) => {
            let middle = StoreView {
                grants: post.grants,
                events: post.events.drop_last(),
                ..pre
            };
            lemma_revoked_grant(pre, middle, id, actor, now);
            lemma_cancel_target(pre, id, revocation_reason(), f, t);
            lemma_cancellation(
                middle,
                post,
                id,
                revocation_reason(),
                t,
                findings.cancelled->Ok_0,
                now,
            );
            law_history_is_kept_throughout(pre, middle, post);
        },
        _ => {
            lemma_revoked_grant(pre, post, id, actor, now);
        },
    }
}

/// The staging of a launch keeps the state consistent.
pub proof fn law_staging_is_consistent(
    pre: StoreView,
    post: StoreView,
    run_id: Uid,
    request: ApprovalRequest,
    f: StagedFindings,
    now: Moment,
)
    requires
        consistent(pre),
        stage_refusal(pre, run_id, Ok(request), f, now) is None,
        launch_staged(pre, post, run_id, request, now),
    ensures
        consistent(post),
        advances(pre, post),
{
    let middle = post.events.drop_last();
    law_journal_grows_in_order(
        pre.events,
        middle,
        middle.last().event_type@,
        middle.last().payload_json@,
        now,
    );
    law_journal_grows_in_order(
        middle,
        post.events,
        post.events.last().event_type@,
        post.events.last().payload_json@,
        now,
    );
    assert(post.events.take(pre.events.len() as int) =~= middle.take(pre.events.len() as int));
    lemma_push_distinct(pre.approvals, post.approvals.last());
    lemma_push_distinct(pre.staged, post.staged.last());
    lemma_find_request(pre.staged, request.id, 0);
}

/// The start of a run that has to be staged keeps the state consistent.
pub proof fn law_staged_start_is_consistent(
    r: Result<BeginGraphNodeRunReceipt, StoreError>,
    pre: StoreView,
    post: StoreView,
    id: Uid,
    c: BeginGraphNodeRunCommand,
    expected: Option<RunBindingView>,
    session_id: Uid,
    run_id: Uid,
    t: BeginTarget,
    findings: BeginFindings,
    request: Result<ApprovalRequest, ApprovalError>,
    f: StagedFindings,
    now: Moment,
)
    requires
        consistent(pre),
        begin_target(pre, id, c, expected) == Ok::<BeginTarget, crate::error::Refusal>(t),
        staged_begin_outcome(
            r,
            pre,
            post,
            id,
            c,
            session_id,
            run_id,
            t,
            findings,
            request,
            f,
            now,
        ),
    ensures
        consistent(post),
        advances(pre, post),
{
    lemma_find(pre.graphs, id);
    assert(pre.events.take(pre.events.len() as int) =~= pre.events);
    if begin_refusal(pre, id, c, session_id, run_id, findings) is None {
        let middle = choose|middle: StoreView| #[trigger]
            staged_begin_steps(
                r,
                pre,
                middle,
                post,
                id,
                c,
                session_id,
                run_id,
                t,
                findings,
                request,
                f,
                now,
            );
        lemma_entry_tables(pre, middle, id, c, session_id, run_id, t, findings, true, now);
        assert(StoreView { events: pre.events, ..middle } =~= middle);
        if stage_refusal(middle, run_id, request, f, now) is None {
            law_staging_is_consistent(middle, post, run_id, request->Ok_0, f, now);
            law_history_is_kept_throughout(pre, middle, post);
        }
    }
}

/// The dispatch of a launch keeps the state consistent.
pub proof fn law_dispatch_is_consistent(
    pre: StoreView,
    post: StoreView,
    request_id: Uid,
    f: StagedFindings,
    m3_fault: Option<String>,
    reader_accepts: bool,
    findings: ClaimFindings,
    t: DispatchTarget,
    now: Moment,
)
    requires
        consistent(pre),
        dispatch_target(pre, request_id, f, m3_fault, now) == Ok::<
            DispatchTarget,
            crate::error::Refusal,
        >(t),
        claim_refusal(pre, t, reader_accepts, findings) is None,
        dispatched(pre, post, request_id, t, findings.activated->Ok_0, now),
    ensures
        consistent(post),
        advances(pre, post),
{
    lemma_dispatch_target(pre, request_id, f, m3_fault, t, now);
    let middle = post.events.drop_last();
    law_journal_grows_in_order(
        pre.events,
        middle,
        middle.last().event_type@,
        middle.last().payload_json@,
        now,
    );
    law_journal_grows_in_order(
        middle,
        post.events,
        post.events.last().event_type@,
        post.events.last().payload_json@,
        now,
    );
    assert(post.events.take(pre.events.len() as int) =~= middle.take(pre.events.len() as int));
    lemma_update_distinct(pre.graphs, t.graph, post.graphs[t.graph]);
    lemma_update_distinct(pre.grants, t.grant, post.grants[t.grant]);
    lemma_update_distinct(pre.staged, t.staged, post.staged[t.staged]);
    lemma_push_distinct(pre.claims, post.claims.last());
}

/// The rows that a dispatch concerns stand in their tables, and are what they
/// have to be.
pub proof fn lemma_dispatch_target(
    s: StoreView,
    request_id: Uid,
    f: StagedFindings,
    m3_fault: Option<String>,
    t: DispatchTarget,
    now: Moment,
)
    requires
        dispatch_target(s, request_id, f, m3_fault, now) == Ok::<
            DispatchTarget,
            crate::error::Refusal,
        >(t),
    ensures
        find(s.grants, request_id) == Some(t.grant),
        0 <= t.grant < s.grants.len(),
        s.grants[t.grant].request_id == request_id,
        s.grants[t.grant].consumed_at_ms is None,
        s.grants[t.grant].revoked_at_ms is None,
        s.grants[t.grant].issued_at_ms <= now.ms,
        0 <= t.staged < s.staged.len(),
        s.staged[t.staged].request_id == request_id,
        s.staged[t.staged].state == StagedLaunchState::Ready,
        find(s.staged, s.staged[t.staged].run_id) == Some(t.staged),
        0 <= t.run < s.identity.runs.len(),
        s.identity.runs[t.run].metadata.id == s.staged[t.staged].run_id,
        find(s.identity.runs, s.staged[t.staged].run_id) == Some(t.run),
        0 <= t.plan < s.plans.len(),
        0 <= t.graph < s.graphs.len(),
{
    lemma_find(s.grants, request_id);
    let run_id = s.approvals[find(s.approvals, request_id)->0].request.action.scope.run_id->0;
    lemma_find(s.staged, run_id);
    lemma_find(s.identity.runs, run_id);
    lemma_find(s.plans, run_id);
    lemma_find(s.graphs, s.plans[t.plan].plan.execution_id);
}

/// The resolution of a failed lookup keeps the state consistent.
pub proof fn law_lookup_failure_is_consistent(
    pre: StoreView,
    post: StoreView,
    run_id: Uid,
    findings: LookupFindings,
    now: Moment,
)
    requires
        consistent(pre),
        fail_target(pre, run_id) is Ok,
        fail_refusal(pre, run_id, fail_target(pre, run_id)->Ok_0.0, findings) is None,
        lookup_failed(
            pre,
            post,
            run_id,
            fail_target(pre, run_id)->Ok_0.0,
            fail_target(pre, run_id)->Ok_0.1,
            findings.finished->Ok_0,
            now,
        ),
    ensures
        consistent(post),
        advances(pre, post),
{
    let (i, g, plan) = fail_target(pre, run_id)->Ok_0;
    law_journal_grows_in_order(
        pre.events,
        post.events,
        post.events.last().event_type@,
        post.events.last().payload_json@,
        now,
    );
    lemma_find(pre.graphs, plan.execution_id);
    lemma_find(pre.staged, run_id);
    let t = find(pre.staged, run_id)->0;
    assert(staged_sound(pre.staged[t]));
    lemma_update_distinct(pre.graphs, g, post.graphs[g]);
    lemma_update_distinct(pre.staged, t, post.staged[t]);
}

/// A decision keeps the state consistent.
pub proof fn law_decision_is_consistent(
    pre: StoreView,
    post: StoreView,
    c: DecideApprovalCommand,
    f: DecideFindings,
    now: Moment,
)
    requires
        consistent(pre),
        decide_refusal(pre, c, f, now) is None,
        decision_taken(pre, post, c, f, now),
    ensures
        consistent(post),
        advances(pre, post),
{
    let (recorded, applied) = choose|recorded: StoreView, applied: StoreView|
        #[trigger] decision_steps(pre, recorded, applied, post, c, f, now);
    let a = find(pre.approvals, c.decision.request_id)->0;
    lemma_find(pre.approvals, c.decision.request_id);
    let request = pre.approvals[a].request;
    let effect = decision_effect(pre, request, c.decision.kind, f.staged)->Ok_0;
    // The decision and its grant.
    lemma_update_distinct(pre.approvals, a, recorded.approvals[a]);
    if issues_grant(request, c.decision.kind) {
        law_journal_grows_in_order(
            pre.events,
            recorded.events,
            recorded.events.last().event_type@,
            recorded.events.last().payload_json@,
            now,
        );
        lemma_push_distinct(pre.grants, recorded.grants.last());
    } else {
        assert(recorded.events.take(pre.events.len() as int) =~= pre.events);
    }
    assert(consistent(recorded));
    // The launch that waits for it.
    match effect {
        DecisionEffect::Ordinary => {},
        DecisionEffect::Ready(t) => {
            lemma_find_request(pre.staged, request.id, 0);
            law_journal_grows_in_order(
                recorded.events,
                applied.events,
                applied.events.last().event_type@,
                applied.events.last().payload_json@,
                now,
            );
            assert(staged_sound(recorded.staged[t]));
            lemma_update_distinct(recorded.staged, t, applied.staged[t]);
        },
        DecisionEffect::Cancel(t) => {
            lemma_cancel_target(pre, request.id, "approval_denied"@, f.staged, t);
            lemma_cancellation(
                recorded,
                applied,
                request.id,
                "approval_denied"@,
                t,
                f.cancel.cancelled->Ok_0,
                now,
            );
        },
    }
    assert(consistent(applied));
    // The journal.
    law_journal_grows_in_order(
        applied.events,
        post.events,
        post.events.last().event_type@,
        post.events.last().payload_json@,
        now,
    );
    assert(applied.events.take(pre.events.len() as int) =~= recorded.events.take(
        pre.events.len() as int,
    )) by {
        assert(applied.events.take(recorded.events.len() as int) =~= recorded.events);
    }
    assert(post.events.take(pre.events.len() as int) =~= applied.events.take(
        pre.events.len() as int,
    ));
}

/// A restart keeps the state consistent.
pub proof fn law_restart_is_consistent(
    pre: StoreView,
    post: StoreView,
    recovered: Seq<GraphRecovery>,
    now: Moment,
)
    requires
        consistent(pre),
        pre.revision < MAX_STORED,
        pre.identity_revision < MAX_STORED,
        restarted(pre, post, recovered, now),
    ensures
        consistent(post),
        advances(pre, post),
{
    lemma_journal_all(
        pre.events,
        post.events,
        restart_notes(pre) + recovery_notes(recovered, recovered.len()),
        now,
    );
    assert forall|i: int, j: int| 0 <= i < j < post.graphs.len() implies (
    #[trigger] post.graphs[i]).key() != (#[trigger] post.graphs[j]).key() by {
        assert(pre.graphs[i].key() != pre.graphs[j].key());
    }
    assert forall|i: int, j: int| 0 <= i < j < post.staged.len() implies (
    #[trigger] post.staged[i]).key() != (#[trigger] post.staged[j]).key() by {
        assert(pre.staged[i].key() != pre.staged[j].key());
    }
    assert forall|i: int, j: int| 0 <= i < j < post.staged.len() implies (
    #[trigger] post.staged[i]).request_id != (#[trigger] post.staged[j]).request_id by {
        assert(pre.staged[i].request_id != pre.staged[j].request_id);
    }
    assert forall|i: int| 0 <= i < post.staged.len() implies staged_sound(
        #[trigger] post.staged[i],
    ) by {
        assert(staged_sound(pre.staged[i]));
    }
}

} // verus!

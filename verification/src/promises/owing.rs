//! When an operation is owed its success: nothing but what is named here can
//! stand in its way.
use crate::approval::{ApprovalAction, ApprovalDecisionKind};
use crate::approvals::DecideFindings;
use crate::attempts::{check_graphs, is_current_run};
use crate::begin::BeginFindings;
use crate::binding::{resolve_provider_run_binding, ProviderRunBinding};
use crate::deliverables::{AcceptedDecision, DocumentSources};
use crate::dispatch::{ClaimFindings, DispatchClaim, DispatchRows, LookupFindings};
use crate::error::{CatalogError, StoreError};
use crate::finish::{FinishFindings, FinishPlan};
use crate::graph::{CheckedGraph, GraphError, GraphExecution};
use crate::grants::GrantFindings;
use crate::identity::{Moment, NormalizedRunState};
use crate::launch::{ProviderCredentialSelection, ProviderLaunchPlan};
use crate::m3::{DocumentVersion, KnowledgeDelivery};
use crate::promises::progress::{run_at, session_at};
use crate::protocol::{
    AcceptDecisionBaselineCommand, AcceptDecisionBaselineReceipt, AcceptDocumentCommand,
    ApprovalReceipt, BeginGraphNodeRunCommand, BeginGraphNodeRunReceipt, CancelRunReceipt,
    CompleteKnowledgeDeliveryCommand, CostReceipt, CreateDocumentCommand, CredentialGrantRecord,
    DecideApprovalCommand, DocumentReceipt, FinishGraphNodeRunCommand, FinishGraphNodeRunReceipt,
    KnowledgeDeliveryReceipt, PrepareKnowledgeDeliveryCommand, RecordCostCommand, StagedLaunchState,
};
use crate::staged::StagedFindings;
use crate::store::Store;
use crate::text::blank;
use crate::uid::{find, lemma_find, Uid};
use vstd::prelude::*;
use vstd::utf8::encode_utf8;

verus! {

/// Revisions and events of this state can still be counted on.
pub open spec fn roomy(s: Store) -> bool {
    &&& s.identity_revision < 0x7fff_ffff_ffff_ffff
    &&& s.m3_revision < 0x7fff_ffff_ffff_ffff
    &&& s.events@.len() > 0 ==> s.events@.last().sequence < 0x7fff_ffff_ffff_fff0
    &&& forall|i: int|
        0 <= i < s.identity.runs@.len() ==> (#[trigger] s.identity.runs@[i]).metadata.revision
            < u64::MAX
    &&& forall|j: int|
        0 <= j < s.identity.sessions@.len() ==> (
        #[trigger] s.identity.sessions@[j]).metadata.revision < u64::MAX
}

/// A run whose end was planned, and for which nothing wrong was found, is
/// finished.
pub proof fn law_planned_end_is_owed(
    store: &mut Store,
    id: Uid,
    c: FinishGraphNodeRunCommand,
    cost_record_id: Uid,
    findings: FinishFindings,
    now: &Moment,
    r: Result<FinishGraphNodeRunReceipt, StoreError>,
    before: &Store,
    command: &FinishGraphNodeRunCommand,
    plan: Result<FinishPlan, StoreError>,
    sound: Result<(), StoreError>,
    n: int,
    e: int,
)
    requires
        call_ensures(
            Store::finish_graph_node_run,
            (store, id, c, cost_record_id, findings, now),
            r,
        ),
        *before == *old(store),
        *command == c,
        call_ensures(Store::plan_finish, (before, id, command), plan),
        plan is Ok,
        roomy(*before),
        call_ensures(check_graphs, (&before.graphs, &before.outputs), sound),
        sound is Ok,
        0 <= e < before.graphs@.len(),
        before.graphs@[e].graph.execution.id == id,
        findings.finished is Ok,
        findings.finished->Ok_0.execution.revision <= 0x7fff_ffff_ffff_ffff,
        0 <= n < findings.finished->Ok_0.execution.nodes@.len(),
        findings.finished->Ok_0.execution.nodes@[n].node_id == c.node_id,
        findings.finished->Ok_0.execution.nodes@[n].state == plan->Ok_0.graph_state,
        forall|x: int|
            0 <= x < n ==> (#[trigger] findings.finished->Ok_0.execution.nodes@[x]).node_id
                != c.node_id,
        findings.catalog_fault is None,
        findings.m3_fault is None,
        plan->Ok_0.terminal_state == NormalizedRunState::Succeeded ==> c.failure is None,
        c.provider_session_id is Some ==> !blank(c.provider_session_id->0@),
        c.output_markdown is Some ==> {
            &&& findings.output is Ok
            &&& findings.output->Ok_0.run_id == c.run_id
            &&& encode_utf8(findings.output->Ok_0.markdown@).len() > 0
            &&& encode_utf8(findings.output->Ok_0.markdown@).len() <= 262144
        },
        forall|o: int|
            0 <= o < before.outputs@.len() ==> (#[trigger] before.outputs@[o]).run_id != c.run_id,
    ensures
        r is Ok,
{
    let s = before@;
    lemma_find(s.outputs, c.run_id);
    lemma_find(s.node_runs, c.run_id);
    lemma_find(s.graphs, id);
    lemma_find(s.identity.runs, c.run_id);
    let nodes = findings.finished->Ok_0.execution.nodes@;
    lemma_find(nodes, c.node_id);
    assert(find(nodes, c.node_id) == Some(n)) by {
        let x = find(nodes, c.node_id);
        assert(nodes[n].node_id == c.node_id);
        if x is Some && x->0 < n {
            assert(nodes[x->0].node_id != c.node_id);
        }
    }
    assert(s.outputs == before.outputs@);
    assert(s.identity.runs == before.identity.runs@);
    assert(s.identity.sessions == before.identity.sessions@);
    lemma_execution_there(s.graphs, id, 0, e);
    let t = crate::finish::finish_target(s, id, c)->Ok_0;
    assert(t.run == plan->Ok_0.run);
    assert(before.identity.runs@[t.run].metadata.revision < u64::MAX);
    assert(before.identity.sessions@[t.session].metadata.revision < u64::MAX);
}

proof fn lemma_execution_there(rows: Seq<crate::store::GraphRow>, id: Uid, from: int, e: int)
    requires
        0 <= from <= e < rows.len(),
        rows[e].graph.execution.id == id,
    ensures
        crate::attempts::find_execution(rows, id, from) is Some,
    decreases e - from,
{
    if from < e && rows[from].graph.execution.id != id {
        lemma_execution_there(rows, id, from + 1, e);
    }
}

/// A run whose start was planned, and for which nothing wrong was found, is
/// started: the execution that was begun binds the node to the run and resolves
/// as before, and the identifiers are new.
pub proof fn law_planned_start_is_owed(
    store: &mut Store,
    id: Uid,
    c: BeginGraphNodeRunCommand,
    session_id: Uid,
    run_id: Uid,
    findings: BeginFindings,
    now: &Moment,
    r: Result<BeginGraphNodeRunReceipt, StoreError>,
    before: &Store,
    command: &BeginGraphNodeRunCommand,
    plan: Result<(usize, ProviderRunBinding), StoreError>,
    begun: &GraphExecution,
    bound: Option<Uid>,
    resolved: Result<ProviderRunBinding, StoreError>,
)
    requires
        call_ensures(
            Store::begin_graph_node_run,
            (store, id, c, session_id, run_id, findings, now),
            r,
        ),
        *before == *old(store),
        *command == c,
        call_ensures(Store::plan_begin, (before, id, command, None), plan),
        plan is Ok,
        findings.begun is Ok,
        *begun == findings.begun->Ok_0.execution,
        begun.revision <= 0x7fff_ffff_ffff_ffff,
        findings.catalog_fault is None,
        call_ensures(GraphExecution::bound_run, (begun, c.node_id), bound),
        bound == Some(run_id),
        call_ensures(
            resolve_provider_run_binding,
            (&before.identity, &before.m3, begun, c.node_id),
            resolved,
        ),
        resolved is Ok,
        resolved->Ok_0@ == (plan->Ok_0).1@,
        roomy(*before),
        forall|k: int|
            0 <= k < before.node_runs@.len() ==> (#[trigger] before.node_runs@[k]).run_id != run_id
                && before.node_runs@[k].attempt < 0x7fff_ffff_ffff_ffff,
        forall|p: int|
            0 <= p < before.plans@.len() ==> (#[trigger] before.plans@[p]).run_id != run_id,
        forall|i: int|
            0 <= i < before.identity.runs@.len() ==> (
            #[trigger] before.identity.runs@[i]).metadata.id != run_id,
        forall|j: int|
            0 <= j < before.identity.sessions@.len() ==> (
            #[trigger] before.identity.sessions@[j]).metadata.id != session_id,
    ensures
        r is Ok,
{
    let s = before@;
    lemma_find(s.node_runs, run_id);
    lemma_find(s.plans, run_id);
    lemma_find(s.identity.runs, run_id);
    lemma_find(s.identity.sessions, session_id);
    assert(s.node_runs == before.node_runs@);
    assert(s.plans == before.plans@);
    assert(s.identity.runs == before.identity.runs@);
    assert(s.identity.sessions == before.identity.sessions@);
    crate::attempts::lemma_latest_attempt(s.node_runs, id, c.node_id, s.node_runs.len());
    let latest = crate::attempts::current_attempt(s.node_runs, id, c.node_id);
    if latest is Some {
        assert(before.node_runs@[latest->0].attempt < 0x7fff_ffff_ffff_ffff);
    }
}

/// A dispatch that was planned is made, where the reader takes the selection and
/// nothing wrong was found.
pub proof fn law_planned_dispatch_is_owed(
    store: &mut Store,
    request_id: Uid,
    f: &StagedFindings,
    m3_fault: &Option<String>,
    findings: ClaimFindings,
    now: &Moment,
    r: Result<DispatchClaim, StoreError>,
    before: &Store,
    plan: Result<(DispatchRows, ProviderCredentialSelection), StoreError>,
)
    requires
        call_ensures(
            Store::claim_staged_dispatch,
            (store, request_id, f, m3_fault, true, findings, now),
            r,
        ),
        *before == *old(store),
        call_ensures(Store::plan_dispatch, (before, request_id, f, m3_fault, now), plan),
        plan is Ok,
        findings.activated is Ok,
        findings.activated->Ok_0.fault is None,
        findings.activated->Ok_0.execution.revision <= 0x7fff_ffff_ffff_ffff,
        findings.catalog_fault is None,
        roomy(*before),
        forall|k: int|
            0 <= k < before.claims@.len() ==> (#[trigger] before.claims@[k]).run_id
                != before.staged@[(plan->Ok_0).0.staged as int].run_id,
    ensures
        r is Ok,
        r is Ok ==> r->Ok_0.selection == (plan->Ok_0).1,
{
    let s = before@;
    let rows = (plan->Ok_0).0;
    lemma_find(s.claims, s.staged[rows.staged as int].run_id);
    assert(s.claims == before.claims@);
    assert(s.identity.runs == before.identity.runs@);
    assert(before.identity.runs@[rows.run as int].metadata.revision < u64::MAX);
}

/// A failed lookup of a launch that is being dispatched is recorded.
pub proof fn law_failed_lookup_is_owed(
    store: &mut Store,
    run_id: Uid,
    findings: LookupFindings,
    now: &Moment,
    r: Result<(), StoreError>,
    before: &Store,
    plan: Result<(usize, usize, &ProviderLaunchPlan), StoreError>,
    t: int,
)
    requires
        call_ensures(Store::fail_dispatch_claim, (store, run_id, findings, now), r),
        *before == *old(store),
        call_ensures(Store::plan_lookup_failure, (before, run_id), plan),
        plan is Ok,
        findings.finished is Ok,
        findings.finished->Ok_0.execution.revision <= 0x7fff_ffff_ffff_ffff,
        findings.catalog_fault is None,
        roomy(*before),
        0 <= t < before.staged@.len(),
        before.staged@[t].run_id == run_id,
        before.staged@[t].state == StagedLaunchState::Dispatching,
        forall|x: int| 0 <= x < t ==> (#[trigger] before.staged@[x]).run_id != run_id,
    ensures
        r is Ok,
{
    let s = before@;
    lemma_find(s.staged, run_id);
    assert(s.staged == before.staged@);
    assert(find(s.staged, run_id) == Some(t)) by {
        let x = find(s.staged, run_id);
        assert(s.staged[t].run_id == run_id);
        if x is Some && x->0 < t {
            assert(before.staged@[x->0].run_id != run_id);
        }
    }
    assert(s.identity.runs == before.identity.runs@);
    assert(before.identity.runs@[(plan->Ok_0).0 as int].metadata.revision < u64::MAX);
}

/// Progress of a run that has not ended is recorded, if it is the current attempt
/// at its node.
pub proof fn law_progress_is_owed(
    store: &mut Store,
    run_id: Uid,
    session: Option<String>,
    fault: Option<CatalogError>,
    now: &Moment,
    r: Result<u64, StoreError>,
    i: int,
    j: int,
    current: bool,
)
    requires
        call_ensures(Store::record_provider_running, (store, run_id, session, fault, now), r),
        run_at(*old(store), run_id, i),
        session_at(*old(store), old(store).identity.runs@[i].session_id, j),
        old(store).identity.runs@[i].state == NormalizedRunState::Starting
            || old(store).identity.runs@[i].state == NormalizedRunState::Running
            || old(store).identity.runs@[i].state == NormalizedRunState::Cancelling,
        session is Some ==> !blank(session->0@),
        fault is None,
        roomy(*old(store)),
        call_ensures(is_current_run, (&old(store).node_runs, run_id), current),
    ensures
        r is Ok <==> current,
        r is Err ==> r->Err_0 is InvalidRunState,
{
    let s = old(store)@;
    lemma_find(s.identity.runs, run_id);
    lemma_find(s.identity.sessions, s.identity.runs[i].session_id);
    assert(old(store).identity.runs@[i].metadata.revision < u64::MAX);
    assert(old(store).identity.sessions@[j].metadata.revision < u64::MAX);
}

/// An accepted interrupt of a run that a provider works on is recorded.
pub proof fn law_accepted_interrupt_is_owed(
    store: &mut Store,
    run_id: Uid,
    fault: Option<CatalogError>,
    now: &Moment,
    r: Result<CancelRunReceipt, StoreError>,
    i: int,
)
    requires
        call_ensures(Store::record_provider_cancel_after_preflight, (store, run_id, fault, now), r),
        run_at(*old(store), run_id, i),
        old(store).identity.runs@[i].state != NormalizedRunState::AwaitingApproval,
        fault is None,
        roomy(*old(store)),
    ensures
        r is Ok,
{
    lemma_find(old(store)@.identity.runs, run_id);
    assert(old(store).identity.runs@[i].metadata.revision < u64::MAX);
}

/// A document whose sources are found and whose version is sound is created.
pub proof fn law_sound_document_is_owed(
    store: &mut Store,
    command: CreateDocumentCommand,
    artifact_id: Uid,
    version_id: Uid,
    version: Result<DocumentVersion, String>,
    now: &Moment,
    r: Result<DocumentReceipt, StoreError>,
    before: &Store,
    asked: &CreateDocumentCommand,
    sources: Result<DocumentSources, StoreError>,
)
    requires
        call_ensures(
            Store::create_mvp_document,
            (store, command, artifact_id, version_id, version, None, now),
            r,
        ),
        *before == *old(store),
        *asked == command,
        call_ensures(Store::find_document_sources, (before, asked), sources),
        version is Ok,
        roomy(*before),
    ensures
        r is Ok <==> sources is Ok,
        sources is Err ==> r->Err_0@ == sources->Err_0@,
        sources is Ok ==> final(store).m3.deliverables.documents@.last().project_id
            == sources->Ok_0.project_id,
{
    assert(final(store)@.m3 == final(store).m3@);
}

/// A version that was read as it is can be accepted.
pub proof fn law_sound_acceptance_is_owed(
    store: &mut Store,
    command: AcceptDocumentCommand,
    accepted: Result<DocumentVersion, String>,
    now: &Moment,
    r: Result<DocumentReceipt, StoreError>,
    sound: Result<(), StoreError>,
    d: int,
    v: int,
)
    requires
        call_ensures(Store::accept_mvp_document, (store, command, accepted, None, now), r),
        call_ensures(check_graphs, (&old(store).graphs, &old(store).outputs), sound),
        sound is Ok,
        accepted is Ok,
        roomy(*old(store)),
        old(store).m3_revision == command.expected_m3_revision,
        0 <= d < old(store).m3.deliverables.documents@.len(),
        old(store).m3.deliverables.documents@[d].metadata.id == command.artifact_id,
        forall|x: int|
            0 <= x < d ==> (#[trigger] old(store).m3.deliverables.documents@[x]).metadata.id
                != command.artifact_id,
        0 <= v < old(store).m3.deliverables.documents@[d].versions@.len(),
        old(store).m3.deliverables.documents@[d].versions@[v].id == command.version_id,
        forall|x: int|
            0 <= x < v ==> (
            #[trigger] old(store).m3.deliverables.documents@[d].versions@[x]).id
                != command.version_id,
    ensures
        r is Ok <==> old(store).m3.deliverables.documents@[d].versions@[v].content_hash@
            == command.content_hash@,
{
    let s = old(store)@;
    let documents = old(store).m3.deliverables.documents@;
    assert(s.m3.documents == documents);
    lemma_find(documents, command.artifact_id);
    assert(find(documents, command.artifact_id) == Some(d)) by {
        let x = find(documents, command.artifact_id);
        assert(documents[d].metadata.id == command.artifact_id);
        if x is Some && x->0 < d {
            assert(documents[x->0].metadata.id != command.artifact_id);
        }
    }
    let versions = documents[d].versions@;
    lemma_find(versions, command.version_id);
    assert(find(versions, command.version_id) == Some(v)) by {
        let x = find(versions, command.version_id);
        assert(versions[v].id == command.version_id);
        if x is Some && x->0 < v {
            assert(versions[x->0].id != command.version_id);
        }
    }
}

/// A cost is entered exactly if its identifier is new and the caller knows the
/// revision.
pub proof fn law_sound_cost_is_owed(
    store: &mut Store,
    command: RecordCostCommand,
    now: &Moment,
    r: Result<CostReceipt, StoreError>,
    sound: Result<(), StoreError>,
)
    requires
        call_ensures(Store::record_cost, (store, command, None, now), r),
        call_ensures(check_graphs, (&old(store).graphs, &old(store).outputs), sound),
        sound is Ok,
        roomy(*old(store)),
    ensures
        r is Ok <==> old(store).m3_revision == command.expected_m3_revision && forall|k: int|
            0 <= k < old(store).m3.deliverables.costs@.len() ==> (
            #[trigger] old(store).m3.deliverables.costs@[k]).metadata.id
                != command.record.metadata.id,
{
    let s = old(store)@;
    lemma_find(s.m3.costs, command.record.metadata.id);
    assert(s.m3.costs == old(store).m3.deliverables.costs@);
    if find(s.m3.costs, command.record.metadata.id) is Some {
        let k = find(s.m3.costs, command.record.metadata.id)->0;
        assert(old(store).m3.deliverables.costs@[k].metadata.id == command.record.metadata.id);
    }
}

/// A delivery of an accepted version is prepared.
pub proof fn law_sound_delivery_is_owed(
    store: &mut Store,
    command: PrepareKnowledgeDeliveryCommand,
    delivery_id: Uid,
    delivery: Result<KnowledgeDelivery, String>,
    now: &Moment,
    r: Result<KnowledgeDeliveryReceipt, StoreError>,
    sound: Result<(), StoreError>,
    d: int,
    v: int,
)
    requires
        call_ensures(
            Store::prepare_knowledge_delivery,
            (store, command, delivery_id, delivery, None, now),
            r,
        ),
        call_ensures(check_graphs, (&old(store).graphs, &old(store).outputs), sound),
        sound is Ok,
        delivery is Ok,
        roomy(*old(store)),
        old(store).m3_revision == command.expected_m3_revision,
        0 <= d < old(store).m3.deliverables.documents@.len(),
        old(store).m3.deliverables.documents@[d].project_id == command.project_id,
        0 <= v < old(store).m3.deliverables.documents@[d].versions@.len(),
        old(store).m3.deliverables.documents@[d].versions@[v].id == command.artifact_version_id,
        old(store).m3.deliverables.documents@[d].versions@[v].accepted_by is Some,
    ensures
        r is Ok,
{
    let s = old(store)@;
    assert(s.m3.documents == old(store).m3.deliverables.documents@);
    assert(s.m3.documents[d].versions@[v].id == command.artifact_version_id);
}

/// A delivery that was prepared is completed.
pub proof fn law_sound_completion_is_owed(
    store: &mut Store,
    command: CompleteKnowledgeDeliveryCommand,
    delivered: Result<KnowledgeDelivery, String>,
    now: &Moment,
    r: Result<KnowledgeDeliveryReceipt, StoreError>,
    sound: Result<(), StoreError>,
)
    requires
        call_ensures(Store::complete_knowledge_delivery, (store, command, delivered, None, now), r),
        call_ensures(check_graphs, (&old(store).graphs, &old(store).outputs), sound),
        sound is Ok,
        delivered is Ok,
        roomy(*old(store)),
    ensures
        r is Ok <==> old(store).m3_revision == command.expected_m3_revision && exists|k: int|
            0 <= k < old(store).m3.deliverables.knowledge_deliveries@.len() && (
            #[trigger] old(store).m3.deliverables.knowledge_deliveries@[k]).metadata.id
                == command.delivery_id,
{
    let s = old(store)@;
    let rows = old(store).m3.deliverables.knowledge_deliveries@;
    assert(s.m3.knowledge_deliveries == rows);
    lemma_find(rows, command.delivery_id);
    if find(rows, command.delivery_id) is Some {
        let k = find(rows, command.delivery_id)->0;
        assert(rows[k].metadata.id == command.delivery_id);
    }
}

/// A decision that was accepted enters its graph, where that is a new one.
pub proof fn law_sound_decision_is_owed(
    store: &mut Store,
    command: AcceptDecisionBaselineCommand,
    accepted: Result<AcceptedDecision, String>,
    now: &Moment,
    r: Result<AcceptDecisionBaselineReceipt, StoreError>,
    sound: Result<(), StoreError>,
)
    requires
        call_ensures(Store::accept_mvp_decision, (store, command, accepted, None, now), r),
        call_ensures(check_graphs, (&old(store).graphs, &old(store).outputs), sound),
        sound is Ok,
        accepted is Ok,
        accepted->Ok_0.catalog.meetings.decision_baselines@.len() > 0,
        accepted->Ok_0.graph.execution.revision <= 0x7fff_ffff_ffff_ffff,
        roomy(*old(store)),
        forall|g: int|
            0 <= g < old(store).graphs@.len() ==> (#[trigger] old(store).graphs@[g]).execution_id
                != accepted->Ok_0.graph.execution.id,
    ensures
        r is Ok <==> old(store).m3_revision == command.expected_m3_revision,
{
    let s = old(store)@;
    lemma_find(s.graphs, accepted->Ok_0.graph.execution.id);
    assert(s.graphs == old(store).graphs@);
    assert(accepted->Ok_0.catalog@.decision_baselines
        == accepted->Ok_0.catalog.meetings.decision_baselines@);
}

/// A request that binds no credential and that no launch waits for is decided by
/// whoever decides it.
pub proof fn law_ordinary_decision_is_owed(
    store: &mut Store,
    command: DecideApprovalCommand,
    f: DecideFindings,
    now: &Moment,
    r: Result<ApprovalReceipt, StoreError>,
    a: int,
)
    requires
        call_ensures(Store::decide_approval, (store, command, f, now), r),
        0 <= a < old(store).approvals@.len(),
        old(store).approvals@[a].request.id == command.decision.request_id,
        forall|x: int|
            0 <= x < a ==> (#[trigger] old(store).approvals@[x]).request.id
                != command.decision.request_id,
        old(store).approvals@[a].request.action.scope.credential_binding is None,
        forall|t: int|
            0 <= t < old(store).staged@.len() ==> (#[trigger] old(store).staged@[t]).request_id
                != command.decision.request_id,
        f.staged.request_fault is None,
        f.decision_fault is None,
        roomy(*old(store)),
    ensures
        r is Ok <==> old(store).approvals@[a].decision is None,
        old(store).approvals@[a].decision is Some ==> r->Err_0 is ApprovalConflict,
{
    let s = old(store)@;
    let id = command.decision.request_id;
    lemma_find(s.approvals, id);
    assert(s.approvals == old(store).approvals@);
    assert(find(s.approvals, id) == Some(a)) by {
        let x = find(s.approvals, id);
        assert(s.approvals[a].request.id == id);
        if x is Some && x->0 < a {
            assert(old(store).approvals@[x->0].request.id != id);
        }
    }
    assert(s.staged == old(store).staged@);
    lemma_no_request(s.staged, id, 0);
}

proof fn lemma_no_request(rows: Seq<crate::store::StagedRow>, id: Uid, from: int)
    requires
        0 <= from,
        forall|t: int| 0 <= t < rows.len() ==> (#[trigger] rows[t]).request_id != id,
    ensures
        crate::cancel::find_request(rows, id, from) is None,
    decreases rows.len() - from,
{
    if from < rows.len() {
        lemma_no_request(rows, id, from + 1);
    }
}

/// The use of a credential that no launch waits for is approved while the request
/// is open, if its scope was acknowledged and it fits the catalogs.
pub proof fn law_credential_approval_is_owed(
    store: &mut Store,
    command: DecideApprovalCommand,
    f: DecideFindings,
    now: &Moment,
    r: Result<ApprovalReceipt, StoreError>,
    a: int,
    fits: Result<(), StoreError>,
)
    requires
        call_ensures(Store::decide_approval, (store, command, f, now), r),
        0 <= a < old(store).approvals@.len(),
        old(store).approvals@[a].request.id == command.decision.request_id,
        forall|x: int|
            0 <= x < a ==> (#[trigger] old(store).approvals@[x]).request.id
                != command.decision.request_id,
        old(store).approvals@[a].request.action.scope.credential_binding is Some,
        old(store).approvals@[a].decision is None,
        command.decision.kind == ApprovalDecisionKind::Approve,
        forall|t: int|
            0 <= t < old(store).staged@.len() ==> (#[trigger] old(store).staged@[t]).request_id
                != command.decision.request_id,
        forall|q: int|
            0 <= q < old(store).grants@.len() ==> (#[trigger] old(store).grants@[q]).request_id
                != command.decision.request_id,
        call_ensures(
            Store::validate_current_catalog,
            (
                &*old(store),
                &old(store).approvals@[a].request,
                false,
                &f.staged.catalog_fault,
                &f.staged.authority_fault,
                &f.m3_fault,
            ),
            fits,
        ),
        fits is Ok,
        f.staged.request_fault is None,
        f.decision_fault is None,
        now.ms <= 0x7fff_ffff_ffff_ffff,
        old(store).approvals@[a].request.expires_at_ms <= 0x7fff_ffff_ffff_ffff,
        roomy(*old(store)),
    ensures
        r is Ok <==> command.credential_scope_acknowledged
            && old(store).approvals@[a].request.created_at_ms <= now.ms && now.ms
            < old(store).approvals@[a].request.expires_at_ms,
        r is Err ==> r->Err_0 is CredentialGrantRejected,
{
    let s = old(store)@;
    let id = command.decision.request_id;
    lemma_find(s.approvals, id);
    lemma_find(s.grants, id);
    assert(s.approvals == old(store).approvals@);
    assert(s.grants == old(store).grants@);
    assert(find(s.approvals, id) == Some(a)) by {
        let x = find(s.approvals, id);
        assert(s.approvals[a].request.id == id);
        if x is Some && x->0 < a {
            assert(old(store).approvals@[x->0].request.id != id);
        }
    }
    assert(s.staged == old(store).staged@);
    lemma_no_request(s.staged, id, 0);
}

/// A grant that is unspent and open is spent on the action that was approved,
/// while the daemon is ready and the request fits the catalogs.
pub proof fn law_grant_is_owed_to_its_action(
    store: &mut Store,
    id: Uid,
    action: &ApprovalAction,
    f: &GrantFindings,
    now: &Moment,
    r: Result<CredentialGrantRecord<'_>, StoreError>,
    before: &Store,
    shown: Result<CredentialGrantRecord<'_>, StoreError>,
    same: bool,
    fits: Result<(), StoreError>,
)
    requires
        call_ensures(Store::consume_credential_grant, (store, id, action, f, now), r),
        *before == *old(store),
        call_ensures(
            Store::credential_grant,
            (before, id, &f.request_fault, &f.decision_fault),
            shown,
        ),
        shown is Ok,
        call_ensures(ApprovalAction::same, (&shown->Ok_0.request.action, action), same),
        call_ensures(
            Store::validate_current_catalog,
            (
                before,
                shown->Ok_0.request,
                false,
                &f.catalog_fault,
                &f.authority_fault,
                &f.m3_fault,
            ),
            fits,
        ),
        fits is Ok,
        now.ms <= 0x7fff_ffff_ffff_ffff,
        shown->Ok_0.request.expires_at_ms <= 0x7fff_ffff_ffff_ffff,
        roomy(*before),
    ensures
        r is Ok <==> same && before.lifecycle@ == "ready"@ && shown->Ok_0.consumed_at_ms is None
            && shown->Ok_0.revoked_at_ms is None && shown->Ok_0.issued_at_ms <= now.ms
            && shown->Ok_0.request.created_at_ms <= now.ms && now.ms
            < shown->Ok_0.request.expires_at_ms,
        r is Err ==> r->Err_0 is CredentialGrantRejected,
{
}

/// A change of an execution that is sound is made, at the revision that the
/// caller knows.
pub proof fn law_sound_change_is_owed(
    store: &mut Store,
    id: Uid,
    expected_revision: u64,
    change: Result<CheckedGraph, GraphError>,
    now: &Moment,
    r: Result<(), StoreError>,
    before: &Store,
    read: Result<&GraphExecution, StoreError>,
    g: int,
)
    requires
        call_ensures(Store::complete_graph_node, (store, id, expected_revision, change, now), r),
        *before == *old(store),
        call_ensures(Store::graph_execution, (before, id), read),
        read is Ok,
        0 <= g < before.graphs@.len(),
        before.graphs@[g].execution_id == id,
        forall|x: int| 0 <= x < g ==> (#[trigger] before.graphs@[x]).execution_id != id,
        change is Ok,
        change->Ok_0.fault is None,
        change->Ok_0.execution.revision <= 0x7fff_ffff_ffff_ffff,
        roomy(*before),
    ensures
        r is Ok <==> before.graphs@[g].revision == expected_revision,
        r is Err ==> r->Err_0 is RevisionConflict,
{
    let s = before@;
    lemma_find(s.graphs, id);
    assert(s.graphs == before.graphs@);
    assert(find(s.graphs, id) == Some(g)) by {
        let x = find(s.graphs, id);
        assert(s.graphs[g].execution_id == id);
        if x is Some && x->0 < g {
            assert(before.graphs@[x->0].execution_id != id);
        }
    }
}

/// A run starts only in an execution that binds its node to it and that resolves
/// as before, and under identifiers that are new.
pub proof fn law_start_binds_the_node_to_the_run(
    store: &mut Store,
    id: Uid,
    c: BeginGraphNodeRunCommand,
    session_id: Uid,
    run_id: Uid,
    findings: BeginFindings,
    now: &Moment,
    r: Result<BeginGraphNodeRunReceipt, StoreError>,
    begun: &GraphExecution,
    bound: Option<Uid>,
    resolved: Result<ProviderRunBinding, StoreError>,
)
    requires
        call_ensures(
            Store::begin_graph_node_run,
            (store, id, c, session_id, run_id, findings, now),
            r,
        ),
        r is Ok,
        *begun == findings.begun->Ok_0.execution,
        call_ensures(GraphExecution::bound_run, (begun, c.node_id), bound),
        call_ensures(
            resolve_provider_run_binding,
            (&old(store).identity, &old(store).m3, begun, c.node_id),
            resolved,
        ),
    ensures
        bound == Some(run_id),
        resolved is Ok,
        resolved->Ok_0.prompt@ == r->Ok_0.prompt@,
        resolved->Ok_0.workspace_root@ == r->Ok_0.workspace_root@,
        resolved->Ok_0.launch_identity@ == r->Ok_0.launch_identity->0@,
        forall|i: int|
            0 <= i < old(store).identity.runs@.len() ==> (
            #[trigger] old(store).identity.runs@[i]).metadata.id != run_id,
        forall|j: int|
            0 <= j < old(store).identity.sessions@.len() ==> (
            #[trigger] old(store).identity.sessions@[j]).metadata.id != session_id,
{
    let s = old(store)@;
    lemma_find(s.graphs, id);
    lemma_find(s.identity.runs, run_id);
    lemma_find(s.identity.sessions, session_id);
    assert(s.identity.runs == old(store).identity.runs@);
    assert(s.identity.sessions == old(store).identity.sessions@);
}

/// A run is finished only with a session name that is not blank, an output that
/// is neither empty nor longer than 256 KiB and that is the run's first, and an
/// execution whose node is in the state of the run's end.
pub proof fn law_end_is_held_to_its_evidence(
    store: &mut Store,
    id: Uid,
    c: FinishGraphNodeRunCommand,
    cost_record_id: Uid,
    findings: FinishFindings,
    now: &Moment,
    r: Result<FinishGraphNodeRunReceipt, StoreError>,
    before: &Store,
    command: &FinishGraphNodeRunCommand,
    plan: Result<FinishPlan, StoreError>,
)
    requires
        call_ensures(
            Store::finish_graph_node_run,
            (store, id, c, cost_record_id, findings, now),
            r,
        ),
        r is Ok,
        *before == *old(store),
        *command == c,
        call_ensures(Store::plan_finish, (before, id, command), plan),
    ensures
        plan is Ok,
        !plan->Ok_0.malformed && c.provider_session_id is Some ==> !blank(
            c.provider_session_id->0@,
        ),
        !plan->Ok_0.malformed && c.output_markdown is Some ==> {
            &&& findings.output is Ok
            &&& encode_utf8(findings.output->Ok_0.markdown@).len() > 0
            &&& encode_utf8(findings.output->Ok_0.markdown@).len() <= 262144
            &&& forall|o: int|
                0 <= o < before.outputs@.len() ==> (#[trigger] before.outputs@[o]).run_id
                    != findings.output->Ok_0.run_id
        },
        plan->Ok_0.terminal_state == NormalizedRunState::Succeeded ==> c.failure is None,
        exists|n: int|
            0 <= n < findings.finished->Ok_0.execution.nodes@.len() && (
            #[trigger] findings.finished->Ok_0.execution.nodes@[n]).node_id == c.node_id
                && findings.finished->Ok_0.execution.nodes@[n].state == plan->Ok_0.graph_state,
{
    let s = before@;
    assert(s.outputs == before.outputs@);
    if findings.output is Ok {
        lemma_find(s.outputs, findings.output->Ok_0.run_id);
    }
    let nodes = findings.finished->Ok_0.execution.nodes@;
    lemma_find(nodes, c.node_id);
    let n = find(nodes, c.node_id)->0;
    assert(findings.finished->Ok_0.execution.nodes@[n].node_id == c.node_id);
}

} // verus!

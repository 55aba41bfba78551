//! What an operation that succeeded has made sure of.
use crate::approval::{ApprovalAction, ApprovalDecisionKind};
use crate::approvals::{ApprovalFindings, DecideFindings};
use crate::attempts::{attempts_at, lemma_latest_attempt};
use crate::cancel::{cancel_target, find_request, CancelRows};
use crate::catalogs::MvpDraft;
use crate::dispatch::fail_target;
use crate::error::StoreError;
use crate::executions::find_restart;
use crate::grants::GrantFindings;
use crate::graph::{CheckedGraph, GraphError, GraphExecution};
use crate::identity::{Moment, Run};
use crate::launch::ProviderLaunchPlan;
use crate::listing::listed;
use crate::m3::PetProfile;
use crate::protocol::{
    ApprovalReceipt, CreateApprovalCommand, CredentialGrantRecord, DecideApprovalCommand,
    FinishGraphNodeRunCommand, GraphExecutionReceipt, PrepareMvpCommand, PrepareMvpReceipt,
};
use crate::finish::FinishPlan;
use crate::staged::StagedFindings;
use crate::store::{NodeRun, Store};
use crate::text::blank;
use crate::uid::{find, lemma_find, Uid};
use vstd::prelude::*;

verus! {

/// The latest attempt at a node: one of this execution and node, and none is
/// higher.
pub open spec fn latest(rows: Seq<NodeRun>, execution_id: Uid, node_id: Uid, k: int) -> bool {
    &&& 0 <= k < rows.len()
    &&& rows[k].execution_id == execution_id
    &&& rows[k].node_id == node_id
    &&& forall|x: int|
        0 <= x < rows.len() && (#[trigger] rows[x]).execution_id == execution_id && rows[x].node_id
            == node_id ==> rows[x].attempt <= rows[k].attempt
}

proof fn lemma_latest(rows: Seq<NodeRun>, execution_id: Uid, node_id: Uid)
    ensures
        match crate::attempts::current_attempt(rows, execution_id, node_id) {
            Some(k) => latest(rows, execution_id, node_id, k),
            None => true,
        },
{
    lemma_latest_attempt(rows, execution_id, node_id, rows.len());
    let current = crate::attempts::current_attempt(rows, execution_id, node_id);
    if current is Some {
        let k = current->0;
        assert forall|x: int|
            0 <= x < rows.len() && (#[trigger] rows[x]).execution_id == execution_id
                && rows[x].node_id == node_id implies rows[x].attempt <= rows[k].attempt by {
            assert(attempts_at(rows[x], execution_id, node_id));
        }
    }
}

/// A staged launch is that of the latest attempt at its node, which has not
/// ended; its node has the plan's role, and its session is that of the agent and
/// the project that the plan names.
pub proof fn law_staged_launches_are_of_the_latest_attempt(
    store: &Store,
    run: &Run,
    decision_state: bool,
    live_authority: bool,
    f: &StagedFindings,
    r: Result<(), StoreError>,
    p: int,
    g: int,
)
    requires
        call_ensures(
            Store::validate_staged_context,
            (store, run, decision_state, live_authority, f),
            r,
        ),
        r is Ok,
        0 <= p < store.plans@.len(),
        store.plans@[p].run_id == run.metadata.id,
        forall|x: int| 0 <= x < p ==> (#[trigger] store.plans@[x]).run_id != run.metadata.id,
        0 <= g < store.graphs@.len(),
        store.graphs@[g].execution_id == store.plans@[p].plan.execution_id,
        forall|x: int|
            0 <= x < g ==> (#[trigger] store.graphs@[x]).execution_id
                != store.plans@[p].plan.execution_id,
    ensures
        exists|k: int|
            {
                &&& #[trigger] latest(
                    store.node_runs@,
                    store.plans@[p].plan.execution_id,
                    store.plans@[p].plan.node_id,
                    k,
                )
                &&& store.node_runs@[k].run_id == run.metadata.id
                &&& store.node_runs@[k].attempt == store.plans@[p].plan.attempt
                &&& store.node_runs@[k].finished_at is None
                &&& store.node_runs@[k].terminal_state is None
                &&& store.node_runs@[k].failure is None
            },
        exists|d: int|
            {
                &&& 0 <= d < store.graphs@[g].graph.execution.graph.nodes@.len()
                &&& (#[trigger] store.graphs@[g].graph.execution.graph.nodes@[d]).id
                    == store.plans@[p].plan.node_id
                &&& store.graphs@[g].graph.execution.graph.nodes@[d].role_id
                    == store.plans@[p].plan.role_id
            },
        exists|j: int|
            {
                &&& 0 <= j < store.identity.sessions@.len()
                &&& (#[trigger] store.identity.sessions@[j]).metadata.id == run.session_id
                &&& store.identity.sessions@[j].agent_instance_id
                    == store.plans@[p].plan.identity.agent_instance_id
                &&& store.identity.sessions@[j].project_id
                    == store.plans@[p].plan.identity.project_id
            },
        exists|i: int|
            {
                &&& 0 <= i < store.identity.runs@.len()
                &&& (#[trigger] store.identity.runs@[i]).metadata.id == run.metadata.id
                &&& store.identity.runs@[i]@ == run@
            },
{
    let s = store@;
    lemma_find(s.plans, run.metadata.id);
    assert(s.plans == store.plans@);
    assert(find(s.plans, run.metadata.id) == Some(p)) by {
        let x = find(s.plans, run.metadata.id);
        assert(s.plans[p].run_id == run.metadata.id);
        if x is Some && x->0 < p {
            assert(store.plans@[x->0].run_id != run.metadata.id);
        }
    }
    let plan = s.plans[p].plan;
    lemma_find(s.graphs, plan.execution_id);
    assert(s.graphs == store.graphs@);
    assert(find(s.graphs, plan.execution_id) == Some(g)) by {
        let x = find(s.graphs, plan.execution_id);
        assert(s.graphs[g].execution_id == plan.execution_id);
        if x is Some && x->0 < g {
            assert(store.graphs@[x->0].execution_id != plan.execution_id);
        }
    }
    lemma_latest(s.node_runs, plan.execution_id, plan.node_id);
    let k = crate::attempts::current_attempt(s.node_runs, plan.execution_id, plan.node_id)->0;
    assert(latest(store.node_runs@, plan.execution_id, plan.node_id, k));
    let nodes = s.graphs[g].graph.execution.graph.nodes@;
    lemma_find(nodes, plan.node_id);
    let d = find(nodes, plan.node_id)->0;
    assert(store.graphs@[g].graph.execution.graph.nodes@[d].id == plan.node_id);
    lemma_find(s.identity.sessions, run.session_id);
    let j = find(s.identity.sessions, run.session_id)->0;
    assert(store.identity.sessions@[j].metadata.id == run.session_id);
    lemma_find(s.identity.runs, run.metadata.id);
    let i = find(s.identity.runs, run.metadata.id)->0;
    assert(store.identity.runs@[i].metadata.id == run.metadata.id);
}

/// A run is finished only as the latest attempt at its node.
pub proof fn law_only_the_latest_attempt_is_finished(
    store: &Store,
    id: Uid,
    command: &FinishGraphNodeRunCommand,
    r: Result<FinishPlan, StoreError>,
    execution: &GraphExecution,
    bound: Option<Uid>,
)
    requires
        call_ensures(Store::plan_finish, (store, id, command), r),
        r is Ok,
        *execution == store.graphs@[r->Ok_0.graph as int].graph.execution,
        call_ensures(GraphExecution::bound_run, (execution, command.node_id), bound),
    ensures
        bound == Some(command.run_id),
        exists|k: int|
            #[trigger] latest(store.node_runs@, id, command.node_id, k)
                && store.node_runs@[k].run_id == command.run_id,
{
    let s = store@;
    lemma_latest(s.node_runs, id, command.node_id);
    let k = crate::attempts::current_attempt(s.node_runs, id, command.node_id)->0;
    assert(latest(store.node_runs@, id, command.node_id, k));
}

/// A failed lookup concerns the run that its node is bound to.
pub proof fn law_failed_lookup_is_of_the_bound_run(
    store: &Store,
    run_id: Uid,
    r: Result<(usize, usize, &ProviderLaunchPlan), StoreError>,
    execution: &GraphExecution,
    bound: Option<Uid>,
)
    requires
        call_ensures(Store::plan_lookup_failure, (store, run_id), r),
        r is Ok,
        *execution == store.graphs@[(r->Ok_0).1 as int].graph.execution,
        call_ensures(GraphExecution::bound_run, (execution, (r->Ok_0).2.node_id), bound),
    ensures
        bound == Some(run_id),
{
    let t = fail_target(store@, run_id)->Ok_0;
    assert(t.1 == (r->Ok_0).1);
}

/// A launch is withdrawn only from an execution whose row is at its revision, and
/// with its run as it is staged.
pub proof fn law_withdrawal_needs_a_consistent_row(
    store: &Store,
    request_id: Uid,
    reason: &str,
    f: &StagedFindings,
    r: Result<Option<CancelRows>, StoreError>,
    context: Result<(), StoreError>,
)
    requires
        call_ensures(Store::find_cancellation, (store, request_id, reason, f), r),
        r is Ok,
        r->Ok_0 is Some,
        call_ensures(
            Store::validate_staged_context,
            (store, &store.identity.runs@[r->Ok_0->0.run as int], false, false, f),
            context,
        ),
    ensures
        context is Ok,
        store.graphs@[r->Ok_0->0.graph as int].revision
            == store.graphs@[r->Ok_0->0.graph as int].graph.execution.revision,
        f.catalog_fault is None,
{
    let s = store@;
    let t = cancel_target(s, request_id, reason@, *f)->Ok_0->0;
    assert(t.run == r->Ok_0->0.run);
    assert(s.identity.runs[t.run] == store.identity.runs@[r->Ok_0->0.run as int]);
}

/// The use of a credential is asked for only by a request that fits the catalogs.
pub proof fn law_credential_requests_fit_when_entered(
    store: &mut Store,
    command: CreateApprovalCommand,
    f: &ApprovalFindings,
    now: &Moment,
    r: Result<ApprovalReceipt, StoreError>,
    fits: Result<(), StoreError>,
)
    requires
        call_ensures(Store::create_approval, (store, command, f, now), r),
        r is Ok,
        command.request.action.scope.credential_binding is Some,
        call_ensures(
            Store::validate_current_catalog,
            (
                &*old(store),
                &command.request,
                false,
                &f.catalog_fault,
                &f.authority_fault,
                &f.m3_fault,
            ),
            fits,
        ),
    ensures
        fits is Ok,
{
}

/// The use of a credential is approved only while the request still fits the
/// catalogs.
pub proof fn law_credential_requests_fit_when_approved(
    store: &mut Store,
    command: DecideApprovalCommand,
    f: DecideFindings,
    now: &Moment,
    r: Result<ApprovalReceipt, StoreError>,
    a: int,
    staged: bool,
    fits: Result<(), StoreError>,
)
    requires
        call_ensures(Store::decide_approval, (store, command, f, now), r),
        r is Ok,
        command.decision.kind == ApprovalDecisionKind::Approve,
        0 <= a < old(store).approvals@.len(),
        old(store).approvals@[a].request.id == command.decision.request_id,
        forall|x: int|
            0 <= x < a ==> (#[trigger] old(store).approvals@[x]).request.id
                != command.decision.request_id,
        old(store).approvals@[a].request.action.scope.credential_binding is Some,
        staged <==> exists|t: int|
            0 <= t < old(store).staged@.len() && (#[trigger] old(store).staged@[t]).request_id
                == command.decision.request_id,
        call_ensures(
            Store::validate_current_catalog,
            (
                &*old(store),
                &old(store).approvals@[a].request,
                staged,
                &f.staged.catalog_fault,
                &f.staged.authority_fault,
                &f.m3_fault,
            ),
            fits,
        ),
    ensures
        fits is Ok,
{
    let s = old(store)@;
    let id = command.decision.request_id;
    lemma_find(s.approvals, id);
    assert(s.approvals == old(store).approvals@);
    assert(find(s.approvals, id) == Some(a)) by {
        let x = find(s.approvals, id);
        assert(s.approvals[a].request.id == id);
        if x is Some && x->0 < a {
            assert(old(store).approvals@[x->0].request.id != id);
        }
    }
    assert(s.staged == old(store).staged@);
    lemma_request(s.staged, id, 0);
    if find_request(s.staged, id, 0) is Some {
        let t = find_request(s.staged, id, 0)->0;
        assert(old(store).staged@[t].request_id == id);
    }
}

proof fn lemma_request(rows: Seq<crate::store::StagedRow>, id: Uid, from: int)
    requires
        0 <= from,
    ensures
        match find_request(rows, id, from) {
            Some(t) => from <= t < rows.len() && rows[t].request_id == id,
            None => forall|t: int|
                from <= t < rows.len() ==> (#[trigger] rows[t]).request_id != id,
        },
    decreases rows.len() - from,
{
    if from < rows.len() && rows[from].request_id != id {
        lemma_request(rows, id, from + 1);
    }
}

/// A grant is spent only while its request still fits the catalogs, and on the
/// action that was approved.
pub proof fn law_spent_grants_still_fit(
    store: &mut Store,
    id: Uid,
    action: &ApprovalAction,
    f: &GrantFindings,
    now: &Moment,
    r: Result<CredentialGrantRecord<'_>, StoreError>,
    before: &Store,
    shown: Result<CredentialGrantRecord<'_>, StoreError>,
    same: bool,
    fits: Result<(), StoreError>,
)
    requires
        call_ensures(Store::consume_credential_grant, (store, id, action, f, now), r),
        r is Ok,
        *before == *old(store),
        call_ensures(
            Store::credential_grant,
            (before, id, &f.request_fault, &f.decision_fault),
            shown,
        ),
        shown is Ok ==> call_ensures(
            ApprovalAction::same,
            (&shown->Ok_0.request.action, action),
            same,
        ),
        shown is Ok ==> call_ensures(
            Store::validate_current_catalog,
            (
                before,
                shown->Ok_0.request,
                false,
                &f.catalog_fault,
                &f.authority_fault,
                &f.m3_fault,
            ),
            fits,
        ),
    ensures
        shown is Ok,
        same,
        fits is Ok,
{
}

/// An execution is restarted only under a decision that somebody has accepted.
pub proof fn law_restart_needs_an_accepted_decision(
    store: &mut Store,
    original_id: Uid,
    expected_revision: u64,
    restarted: Result<CheckedGraph, GraphError>,
    now: &Moment,
    r: Result<GraphExecutionReceipt, StoreError>,
    g: int,
)
    requires
        call_ensures(
            Store::restart_missing_output_graph,
            (store, original_id, expected_revision, restarted, now),
            r,
        ),
        r is Ok,
        final(store).graphs@.len() != old(store).graphs@.len(),
        0 <= g < old(store).graphs@.len(),
        old(store).graphs@[g].execution_id == original_id,
        forall|x: int|
            0 <= x < g ==> (#[trigger] old(store).graphs@[x]).execution_id != original_id,
    ensures
        exists|b: int|
            {
                &&& 0 <= b < old(store).m3.meetings.decision_baselines@.len()
                &&& (#[trigger] old(store).m3.meetings.decision_baselines@[b]).metadata.id
                    == old(store).graphs@[g].graph.execution.graph.decision_baseline_id
                &&& !blank(old(store).m3.meetings.decision_baselines@[b].accepted_by@)
                &&& !blank(old(store).m3.meetings.decision_baselines@[b].accepted_at@)
            },
{
    let s = old(store)@;
    lemma_find(s.graphs, original_id);
    assert(s.graphs == old(store).graphs@);
    assert(find(s.graphs, original_id) == Some(g)) by {
        let x = find(s.graphs, original_id);
        assert(s.graphs[g].execution_id == original_id);
        if x is Some && x->0 < g {
            assert(old(store).graphs@[x->0].execution_id != original_id);
        }
    }
    assert(find_restart(listed(s.graphs), original_id, 0) is None);
    let id = s.graphs[g].graph.execution.graph.decision_baseline_id;
    lemma_find(s.m3.decision_baselines, id);
    let b = find(s.m3.decision_baselines, id)->0;
    assert(old(store).m3.meetings.decision_baselines@[b].metadata.id == id);
}

/// A project is set up only where no identity and no work of any kind is.
pub proof fn law_set_up_finds_nothing(
    store: &mut Store,
    command: PrepareMvpCommand,
    draft: Result<MvpDraft, String>,
    builtin: &PetProfile,
    now: &Moment,
    r: Result<PrepareMvpReceipt, StoreError>,
)
    requires
        call_ensures(Store::prepare_mvp, (store, command, draft, builtin, now), r),
        r is Ok,
    ensures
        old(store).identity.credential_references@.len() == 0,
        old(store).identity.agent_providers@.len() == 0,
        old(store).identity.model_providers@.len() == 0,
        old(store).identity.accounts@.len() == 0,
        old(store).identity.models@.len() == 0,
        old(store).identity.roles@.len() == 0,
        old(store).m3.office.rooms@.len() == 0,
        old(store).m3.deliverables.knowledge_deliveries@.len() == 0,
        old(store).m3.office.pet_profiles@.len() == 1
            ==> old(store).m3.office.pet_profiles@[0].metadata.id == builtin.metadata.id
            && old(store).m3.office.pet_profiles@[0].rest@ == builtin.rest@,
{
    assert(old(store)@.identity == old(store).identity@);
    assert(old(store)@.m3 == old(store).m3@);
}

} // verus!

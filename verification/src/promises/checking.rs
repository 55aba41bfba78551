//! The checks that operations rest on, and what each of them finds.
use crate::approval::{ApprovalAction, ApprovalDecision, ApprovalDecisionKind, ApprovalRequest};
use crate::attempts::{check_graph, check_graphs, execution_position};
use crate::begin::begin_target;
use crate::binding::{graph_node_prompt, resolve_provider_run_binding, ProviderRunBinding};
use crate::cancel::{find_request, request_position, CancelRows};
use crate::error::{invalid_run, ApprovalError, CatalogError, StoreError};
use crate::executions::sanitize_execution;
use crate::executor::{ready_bindings, ReadyFindings};
use crate::finish::{finish_target, FinishPlan};
use crate::graph::{GraphExecution, GraphNode, GraphNodeOutput, GraphNodeState, OutputRow};
use crate::identity::{EntityLifecycle, NormalizedRunState, Run, ScopedPolicy};
use crate::launch::ProviderLaunchPlan;
use crate::policy::online_launch_allowed;
use crate::promises::executing::cleaned;
use crate::protocol::{
    BeginGraphNodeRunCommand, ExecuteReadyGraphCommand, FinishGraphNodeRunCommand,
    StagedLaunchState,
};
use crate::runs::has_run_ended;
use crate::sandbox::{LaunchPlan, SandboxError, SandboxHost, SandboxLauncher, SandboxProfile};
use crate::staged::{
    approval_action, parse_approval_request_id, parse_run_id, plan_action,
    validate_decision_and_grant_state, validate_request_for_plan, StagedFindings,
};
use crate::store::{
    constraint_failed, next_revision, out_of_range, GrantRow, GraphRow, StagedRow, Store,
};
use crate::uid::{find, lemma_find, Uid};
use vstd::prelude::*;

verus! {

/// A request is one for a plan exactly if it asks for what the plan has to have
/// approved, is open for five minutes, and nothing is wrong with it.
pub proof fn law_request_is_held_to_its_plan(
    plan: &ProviderLaunchPlan,
    request: &ApprovalRequest,
    fault: &Option<ApprovalError>,
    r: Result<(), StoreError>,
    wanted: Result<ApprovalAction, StoreError>,
    asked: &ApprovalAction,
    action: &ApprovalAction,
    same: bool,
)
    requires
        call_ensures(validate_request_for_plan, (plan, request, fault), r),
        call_ensures(approval_action, (plan,), wanted),
        *asked == request.action,
        wanted is Ok ==> *action == wanted->Ok_0,
        call_ensures(ApprovalAction::same, (asked, action), same),
    ensures
        r is Ok <==> wanted is Ok && same && *fault is None && request.expires_at_ms
            == request.created_at_ms + 300_000,
{
}

/// A launch that waits for approval has neither decision nor grant; one that is
/// ready has an approval and the unspent grant that was issued with it.
pub proof fn law_launch_state_agrees_with_its_grant(
    state: StagedLaunchState,
    decision: &Option<ApprovalDecision>,
    grant: Option<&GrantRow>,
    fault: &Option<ApprovalError>,
    r: Result<(), StoreError>,
)
    requires
        call_ensures(validate_decision_and_grant_state, (state, decision, grant, fault), r),
    ensures
        r is Ok <==> (state == StagedLaunchState::AwaitingApproval && *decision is None
            && grant is None) || (state == StagedLaunchState::Ready && *decision is Some
            && grant is Some && decision->0.kind == ApprovalDecisionKind::Approve
            && grant->0.consumed_at_ms is None && grant->0.revoked_at_ms is None
            && grant->0.issued_at_ms == decision->0.decided_at_ms && *fault is None),
{
}

/// A role's policy is given for a plan only while the role is active and the plan
/// is allowed online.
pub proof fn law_role_policy_is_that_of_an_active_role(
    store: &Store,
    plan: &ProviderLaunchPlan,
    r: Result<ScopedPolicy, StoreError>,
    allowed: bool,
)
    requires
        call_ensures(Store::current_role_policy, (store, plan), r),
        call_ensures(online_launch_allowed, (plan, &store.identity), allowed),
    ensures
        r is Ok ==> allowed && exists|i: int|
            0 <= i < store.identity.roles@.len() && (
            #[trigger] store.identity.roles@[i]).metadata.id == plan.role_id
                && store.identity.roles@[i].metadata.lifecycle == EntityLifecycle::Active
                && store.identity.roles@[i].policy == r->Ok_0,
        r is Err ==> r->Err_0 is CredentialGrantRejected,
{
    lemma_find(store@.identity.roles, plan.role_id);
    if r is Ok {
        let i = find(store@.identity.roles, plan.role_id)->0;
        assert(store.identity.roles@[i].metadata.id == plan.role_id);
    }
}

/// What holds of a launch that is staged as it should be: its run waits and has
/// not begun, it is open, its plan is that of the run, its node waits for
/// approval under the plan's owner, and its request asks for what the plan has to
/// have approved.
pub open spec fn well_staged(s: Store, run: Run, t: int, p: int, g: int, n: int, a: int) -> bool {
    &&& run.state == NormalizedRunState::AwaitingApproval
    &&& run.started_at is None
    &&& run.finished_at is None
    &&& 0 <= t < s.staged@.len()
    &&& s.staged@[t].run_id == run.metadata.id
    &&& s.staged@[t].state == StagedLaunchState::AwaitingApproval || s.staged@[t].state
        == StagedLaunchState::Ready
    &&& s.staged@[t].finished_at_ms is None
    &&& s.staged@[t].cancel_reason is None
    &&& 0 <= p < s.plans@.len()
    &&& s.plans@[p].run_id == run.metadata.id
    &&& s.plans@[p].plan.run_id == run.metadata.id
    &&& s.plans@[p].plan.session_id == run.session_id
    &&& s.plans@[p].plan.identity.model_id == run.model_id
    &&& 0 <= g < s.graphs@.len()
    &&& s.graphs@[g].execution_id == s.plans@[p].plan.execution_id
    &&& s.graphs@[g].revision == s.graphs@[g].graph.execution.revision
    &&& s.graphs@[g].graph.fault is None
    &&& 0 <= n < s.graphs@[g].graph.execution.nodes@.len()
    &&& s.graphs@[g].graph.execution.nodes@[n].node_id == s.plans@[p].plan.node_id
    &&& s.graphs@[g].graph.execution.nodes@[n].state == GraphNodeState::AwaitingApproval
    &&& s.graphs@[g].graph.execution.nodes@[n].run_id == Some(run.metadata.id)
    &&& s.graphs@[g].graph.execution.nodes@[n].owner is Some
    &&& s.graphs@[g].graph.execution.nodes@[n].owner->0@ == s.plans@[p].plan.owner@
    &&& 0 <= a < s.approvals@.len()
    &&& s.approvals@[a].request.id == s.staged@[t].request_id
    &&& s.approvals@[a].request.expires_at_ms == s.approvals@[a].request.created_at_ms + 300_000
    &&& plan_action(s.plans@[p].plan) == Ok::<_, crate::error::Refusal>(
        s.approvals@[a].request.action@,
    )
}

/// A staged launch passes only where it is staged as it should be; where its
/// decision counts, that agrees with its grant; and where it has to be live,
/// nobody has lost the authority for it.
pub proof fn law_staged_launches_are_held_to_their_records(
    store: &Store,
    run: &Run,
    decision_state: bool,
    live_authority: bool,
    f: &StagedFindings,
    r: Result<(), StoreError>,
)
    requires
        call_ensures(
            Store::validate_staged_context,
            (store, run, decision_state, live_authority, f),
            r,
        ),
        r is Ok,
    ensures
        f.catalog_fault is None,
        f.request_fault is None,
        live_authority ==> f.authority_fault is None,
        exists|t: int, p: int, g: int, n: int, a: int|
            {
                &&& #[trigger] well_staged(*store, *run, t, p, g, n, a)
                &&& decision_state && store.staged@[t].state == StagedLaunchState::AwaitingApproval
                    ==> store.approvals@[a].decision is None
                &&& decision_state && store.staged@[t].state == StagedLaunchState::Ready
                    ==> store.approvals@[a].decision is Some
                    && store.approvals@[a].decision->0.kind == ApprovalDecisionKind::Approve
            },
{
    let s = store@;
    let id = run.metadata.id;
    lemma_find(s.staged, id);
    lemma_find(s.plans, id);
    let t = find(s.staged, id)->0;
    let p = find(s.plans, id)->0;
    let plan = s.plans[p].plan;
    lemma_find(s.graphs, plan.execution_id);
    let g = find(s.graphs, plan.execution_id)->0;
    let execution = s.graphs[g].graph.execution;
    lemma_find(execution.nodes@, plan.node_id);
    let n = find(execution.nodes@, plan.node_id)->0;
    lemma_find(s.approvals, s.staged[t].request_id);
    let a = find(s.approvals, s.staged[t].request_id)->0;
    assert(well_staged(*store, *run, t, p, g, n, a));
}

/// Checking a staged run checks its decision, and not whether it is live.
pub proof fn law_staged_run_is_checked_in_context(
    store: &Store,
    run: &Run,
    f: &StagedFindings,
    r: Result<(), StoreError>,
    context: Result<(), StoreError>,
)
    requires
        call_ensures(Store::validate_staged_run, (store, run, f), r),
        call_ensures(Store::validate_staged_context, (store, run, true, false, f), context),
    ensures
        r is Ok <==> context is Ok,
        r is Err ==> r->Err_0@ == context->Err_0@,
{
}

/// A request for a credential fits what is now in the catalogs only if its run is
/// there and waits in the state it should, and its agent has the role it claims.
pub proof fn law_credential_requests_fit_the_catalogs(
    store: &Store,
    request: &ApprovalRequest,
    staged: bool,
    catalog_fault: &Option<CatalogError>,
    authority_fault: &Option<ApprovalError>,
    m3_fault: &Option<String>,
    r: Result<(), StoreError>,
)
    requires
        call_ensures(
            Store::validate_current_catalog,
            (store, request, staged, catalog_fault, authority_fault, m3_fault),
            r,
        ),
        r is Ok,
    ensures
        *catalog_fault is None,
        *authority_fault is None,
        *m3_fault is None,
        request.action.scope.run_id is Some,
        request.action.role_id is Some,
        exists|i: int|
            {
                &&& 0 <= i < store.identity.runs@.len()
                &&& (#[trigger] store.identity.runs@[i]).metadata.id
                    == request.action.scope.run_id->0
                &&& store.identity.runs@[i].finished_at is None
                &&& store.identity.runs@[i].state == (if staged {
                    NormalizedRunState::AwaitingApproval
                } else {
                    NormalizedRunState::Starting
                })
            },
        exists|k: int|
            {
                &&& 0 <= k < store.m3.office.pet_assignments@.len()
                &&& (#[trigger] store.m3.office.pet_assignments@[k]).metadata.lifecycle
                    == EntityLifecycle::Active
                &&& store.m3.office.pet_assignments@[k].project_id
                    == request.action.scope.project_id
                &&& store.m3.office.pet_assignments@[k].agent_instance_id
                    == request.action.agent_instance_id
                &&& store.m3.office.pet_assignments@[k].role_id == request.action.role_id->0
            },
{
    let s = store@;
    let id = request.action.scope.run_id->0;
    lemma_find(s.identity.runs, id);
    let i = find(s.identity.runs, id)->0;
    assert(store.identity.runs@[i].metadata.id == id);
    let rows = s.m3.pet_assignments;
    assert(rows == store.m3.office.pet_assignments@);
    let k = choose|k: int|
        0 <= k < rows.len() && #[trigger] crate::grants::assigned(
            rows[k],
            request.action.scope.project_id,
            request.action.agent_instance_id,
        ) && rows[k].role_id == request.action.role_id->0;
    assert(store.m3.office.pet_assignments@[k].role_id == request.action.role_id->0);
}

/// Identifiers of runs and requests are read as identifiers, and each has its own
/// refusal where they are none.
pub proof fn law_recorded_identifiers_are_read(
    value: &str,
    run: Result<Uid, StoreError>,
    request: Result<Uid, StoreError>,
    parsed: Option<Uid>,
)
    requires
        call_ensures(parse_run_id, (value,), run),
        call_ensures(parse_approval_request_id, (value,), request),
        call_ensures(Uid::parse, (value,), parsed),
    ensures
        run is Ok <==> parsed is Some,
        run is Ok ==> run->Ok_0 == parsed->0,
        request is Ok <==> parsed is Some,
        request is Ok ==> request->Ok_0 == parsed->0,
        run is Err ==> run->Err_0 is InvalidRunState,
        request is Err ==> request->Err_0 is CredentialGrantRejected,
{
}

/// The launch that waits for a request is the first that names it.
pub proof fn law_launch_is_found_by_its_request(
    rows: &Vec<StagedRow>,
    request_id: Uid,
    r: Option<usize>,
)
    requires
        call_ensures(request_position, (rows, request_id), r),
    ensures
        r is Some ==> r->0 < rows@.len() && rows@[r->0 as int].request_id == request_id,
        r is None ==> forall|t: int|
            0 <= t < rows@.len() ==> (#[trigger] rows@[t]).request_id != request_id,
{
    lemma_first_request(rows@, request_id, 0);
}

proof fn lemma_first_request(rows: Seq<StagedRow>, id: Uid, from: int)
    requires
        0 <= from,
    ensures
        match find_request(rows, id, from) {
            Some(t) => from <= t < rows.len() && rows[t].request_id == id,
            None => forall|t: int|
                from <= t < rows.len() ==> (#[trigger] rows[t]).request_id != id,
        },
    decreases rows.len() - from,
{
    if from < rows.len() && rows[from].request_id != id {
        lemma_first_request(rows, id, from + 1);
    }
}

/// What a cancellation would change are the rows of the launch that waits for the
/// request: the launch, its run, its plan, its execution and its attempt.
pub proof fn law_cancellation_finds_the_rows_of_the_launch(
    store: &Store,
    request_id: Uid,
    reason: &str,
    f: &StagedFindings,
    r: Result<Option<CancelRows>, StoreError>,
)
    requires
        call_ensures(Store::find_cancellation, (store, request_id, reason, f), r),
    ensures
        r is Ok && r->Ok_0 is Some ==> {
            let rows = r->Ok_0->0;
            &&& rows.staged < store.staged@.len()
            &&& store.staged@[rows.staged as int].request_id == request_id
            &&& store.staged@[rows.staged as int].state == StagedLaunchState::AwaitingApproval
                || store.staged@[rows.staged as int].state == StagedLaunchState::Ready
            &&& rows.run < store.identity.runs@.len()
            &&& store.identity.runs@[rows.run as int].metadata.id
                == store.staged@[rows.staged as int].run_id
            &&& rows.plan < store.plans@.len()
            &&& store.plans@[rows.plan as int].run_id == store.staged@[rows.staged as int].run_id
            &&& rows.graph < store.graphs@.len()
            &&& store.graphs@[rows.graph as int].execution_id
                == store.plans@[rows.plan as int].plan.execution_id
            &&& rows.attempt < store.node_runs@.len()
            &&& store.node_runs@[rows.attempt as int].run_id
                == store.staged@[rows.staged as int].run_id
        },
        (forall|t: int|
            0 <= t < store.staged@.len() ==> (#[trigger] store.staged@[t]).request_id != request_id)
            && !crate::text::blank(reason@) && vstd::utf8::encode_utf8(reason@).len() <= 200
            ==> r is Ok && r->Ok_0 is None,
        crate::text::blank(reason@) || vstd::utf8::encode_utf8(reason@).len() > 200 ==> r is Err,
{
    let s = store@;
    lemma_first_request(s.staged, request_id, 0);
    assert(s.staged == store.staged@);
    if r is Ok && r->Ok_0 is Some {
        let rows = r->Ok_0->0;
        let run_id = s.staged[rows.staged as int].run_id;
        lemma_find(s.identity.runs, run_id);
        lemma_find(s.plans, run_id);
        lemma_find(s.graphs, s.plans[rows.plan as int].plan.execution_id);
        lemma_find(s.node_runs, run_id);
    }
}

/// A failed lookup concerns a run that is starting, under its recorded plan, and
/// the execution whose node it runs.
pub proof fn law_failed_lookup_concerns_a_starting_run(
    store: &Store,
    run_id: Uid,
    r: Result<(usize, usize, &ProviderLaunchPlan), StoreError>,
)
    requires
        call_ensures(Store::plan_lookup_failure, (store, run_id), r),
        r is Ok,
    ensures
        (r->Ok_0).0 < store.identity.runs@.len(),
        store.identity.runs@[(r->Ok_0).0 as int].metadata.id == run_id,
        store.identity.runs@[(r->Ok_0).0 as int].state == NormalizedRunState::Starting,
        (r->Ok_0).1 < store.graphs@.len(),
        store.graphs@[(r->Ok_0).1 as int].execution_id == (r->Ok_0).2.execution_id,
        (r->Ok_0).2.run_id == run_id,
        exists|p: int|
            0 <= p < store.plans@.len() && (#[trigger] store.plans@[p]).run_id == run_id
                && store.plans@[p].plan == *(r->Ok_0).2,
{
    let s = store@;
    lemma_find(s.plans, run_id);
    lemma_find(s.identity.runs, run_id);
    let p = find(s.plans, run_id)->0;
    lemma_find(s.graphs, s.plans[p].plan.execution_id);
    assert(store.plans@[p].run_id == run_id);
}

/// What a run ends as is what was reported, unless the record of its selection
/// cannot be its own: then it is uncertain, without an output and with an unknown
/// failure.
pub proof fn law_end_is_planned_as_reported(
    store: &Store,
    id: Uid,
    command: &FinishGraphNodeRunCommand,
    r: Result<FinishPlan, StoreError>,
)
    requires
        call_ensures(Store::plan_finish, (store, id, command), r),
        r is Ok,
    ensures
        store.identity_revision == command.expected_catalog_revision,
        store.m3_revision == command.expected_m3_revision,
        r->Ok_0.graph < store.graphs@.len(),
        store.graphs@[r->Ok_0.graph as int].execution_id == id,
        store.graphs@[r->Ok_0.graph as int].revision == command.expected_graph_revision,
        r->Ok_0.run < store.identity.runs@.len(),
        store.identity.runs@[r->Ok_0.run as int].metadata.id == command.run_id,
        store.identity.runs@[r->Ok_0.run as int].state == NormalizedRunState::Starting
            || store.identity.runs@[r->Ok_0.run as int].state == NormalizedRunState::Running
            || store.identity.runs@[r->Ok_0.run as int].state == NormalizedRunState::Cancelling,
        r->Ok_0.session < store.identity.sessions@.len(),
        store.identity.sessions@[r->Ok_0.session as int].metadata.id
            == store.identity.runs@[r->Ok_0.run as int].session_id,
        r->Ok_0.attempt < store.node_runs@.len(),
        store.node_runs@[r->Ok_0.attempt as int].run_id == command.run_id,
        !r->Ok_0.malformed ==> r->Ok_0.terminal_state == command.terminal_state
            && r->Ok_0.output_markdown == command.output_markdown && (r->Ok_0.failure is Some
            <==> command.failure is Some) && (r->Ok_0.failure is Some ==> cleaned(
            r->Ok_0.failure->0,
            command.failure->0,
        )),
        r->Ok_0.malformed ==> r->Ok_0.terminal_state == NormalizedRunState::Uncertain
            && r->Ok_0.output_markdown is None && r->Ok_0.failure is Some
            && !r->Ok_0.failure->0.retryable,
        r->Ok_0.terminal_state == NormalizedRunState::Succeeded
            ==> command.output_markdown is Some,
        r->Ok_0.terminal_state == NormalizedRunState::Succeeded <==> r->Ok_0.graph_state
            == GraphNodeState::Succeeded,
        r->Ok_0.terminal_state == NormalizedRunState::Failed <==> r->Ok_0.graph_state
            == GraphNodeState::Failed,
        r->Ok_0.terminal_state == NormalizedRunState::Cancelled <==> r->Ok_0.graph_state
            == GraphNodeState::Cancelled,
        r->Ok_0.terminal_state == NormalizedRunState::Blocked <==> r->Ok_0.graph_state
            == GraphNodeState::Blocked,
        r->Ok_0.terminal_state == NormalizedRunState::Uncertain <==> r->Ok_0.graph_state
            == GraphNodeState::Uncertain,
{
    let s = store@;
    lemma_find(s.graphs, id);
    lemma_find(s.identity.runs, command.run_id);
    lemma_find(s.node_runs, command.run_id);
    let t = finish_target(s, id, *command)->Ok_0;
    lemma_find(s.identity.sessions, s.identity.runs[t.run].session_id);
}

/// A start is planned under the revisions that the caller knows, and under the
/// binding that the node resolves to; where the caller expects one, it is that.
pub proof fn law_start_is_planned_under_its_binding(
    store: &Store,
    id: Uid,
    command: &BeginGraphNodeRunCommand,
    expected: Option<&ProviderRunBinding>,
    r: Result<(usize, ProviderRunBinding), StoreError>,
    execution: &GraphExecution,
    resolved: Result<ProviderRunBinding, StoreError>,
)
    requires
        call_ensures(Store::plan_begin, (store, id, command, expected), r),
        r is Ok,
        *execution == store.graphs@[(r->Ok_0).0 as int].graph.execution,
        call_ensures(
            resolve_provider_run_binding,
            (&store.identity, &store.m3, execution, command.node_id),
            resolved,
        ),
    ensures
        store.identity_revision == command.expected_catalog_revision,
        (r->Ok_0).0 < store.graphs@.len(),
        store.graphs@[(r->Ok_0).0 as int].execution_id == id,
        store.graphs@[(r->Ok_0).0 as int].revision == command.expected_graph_revision,
        resolved is Ok,
        (r->Ok_0).1@ == resolved->Ok_0@,
        expected is Some ==> store.lifecycle@ == "ready"@ && (r->Ok_0).1@ == expected->0@,
{
    lemma_find(store@.graphs, id);
    let t = begin_target(store@, id, *command, crate::begin::binding_view(expected))->Ok_0;
    assert(t.binding == (r->Ok_0).1@);
}

/// The ready nodes are to be started each under the binding that it resolves to,
/// in their order, and only while the daemon is ready and has an executor.
pub proof fn law_ready_nodes_start_under_their_bindings(
    store: &Store,
    id: Uid,
    command: &ExecuteReadyGraphCommand,
    executor_present: bool,
    f: &ReadyFindings,
    r: Result<Vec<ProviderRunBinding>, StoreError>,
    g: int,
    n: int,
    execution: &GraphExecution,
    resolved: Result<ProviderRunBinding, StoreError>,
)
    requires
        call_ensures(Store::plan_execute_ready, (store, id, command, executor_present, f), r),
        0 <= g < store.graphs@.len(),
        store.graphs@[g].execution_id == id,
        forall|k: int| 0 <= k < g ==> (#[trigger] store.graphs@[k]).execution_id != id,
        *execution == store.graphs@[g].graph.execution,
        f.ready is Ok && 0 <= n < f.ready->Ok_0@.len() ==> call_ensures(
            resolve_provider_run_binding,
            (&store.identity, &store.m3, execution, f.ready->Ok_0@[n]),
            resolved,
        ),
    ensures
        r is Ok ==> executor_present && store.lifecycle@ == "ready"@,
        r is Ok ==> store.identity_revision == command.expected_catalog_revision
            && execution.revision == command.expected_graph_revision,
        r is Ok ==> f.ready is Ok && f.catalog_fault is None && f.m3_fault is None,
        r is Ok ==> r->Ok_0@.len() == f.ready->Ok_0@.len() && r->Ok_0@.len() > 0,
        r is Ok && 0 <= n < f.ready->Ok_0@.len() ==> resolved is Ok && r->Ok_0@[n]@
            == resolved->Ok_0@,
        !executor_present && store.lifecycle@ == "ready"@ ==> r is Err
            && r->Err_0 is RunControlRejected,
{
    let s = store@;
    lemma_find(s.graphs, id);
    assert(find(s.graphs, id) == Some(g)) by {
        let x = find(s.graphs, id);
        assert(s.graphs[g].execution_id == id);
        if x is Some && x->0 < g {
            assert(store.graphs@[x->0].execution_id != id);
        }
    }
    if r is Ok {
        let ready = f.ready->Ok_0@;
        lemma_ready(s, g, ready, ready.len(), n);
        let views = crate::executor::binding_views(r->Ok_0@);
        assert(views.len() == r->Ok_0@.len());
        assert(views == ready_bindings(s, g, ready, ready.len())->Ok_0);
        if 0 <= n < ready.len() {
            assert(views[n] == r->Ok_0@[n]@);
        }
    }
}

proof fn lemma_ready(s: crate::store::StoreView, g: int, ready: Seq<Uid>, m: nat, n: int)
    requires
        m <= ready.len(),
        ready_bindings(s, g, ready, m) is Ok,
    ensures
        ready_bindings(s, g, ready, m)->Ok_0.len() == m,
        0 <= n < m ==> crate::binding::resolve(
            s.identity,
            s.m3,
            s.graphs[g].graph.execution,
            ready[n],
        ) == Ok::<_, crate::error::Refusal>(ready_bindings(s, g, ready, m)->Ok_0[n]),
    decreases m,
{
    if m > 0 {
        lemma_ready(s, g, ready, (m - 1) as nat, n);
    }
}

/// The prompt of a node starts with the decision and the task.
pub proof fn law_node_prompt_starts_with_decision_and_task(
    execution: &GraphExecution,
    definition: &GraphNode,
    baseline: &str,
    r: Result<String, StoreError>,
)
    requires
        call_ensures(graph_node_prompt, (execution, definition, baseline), r),
    ensures
        definition.needs@.len() == 0 ==> r is Ok,
        r is Ok ==> ("Decision baseline:\n"@ + baseline@ + "\n\nAssigned task:\n"@
            + definition.title@).is_prefix_of(r->Ok_0@),
        r is Err ==> r->Err_0 is InvalidMvp,
{
    if r is Ok {
        let start = "Decision baseline:\n"@ + baseline@ + "\n\nAssigned task:\n"@
            + definition.title@;
        let head = crate::binding::prompt_head(baseline@, definition.title@);
        assert(head.take(start.len() as int) == start);
        if definition.needs@.len() > 0 {
            let tail = crate::binding::prompt_notice() + crate::binding::quoted_needs(
                *execution,
                definition.needs@,
                definition.needs@.len(),
            );
            assert(r->Ok_0@ == head + crate::binding::prompt_notice()
                + crate::binding::quoted_needs(
                *execution,
                definition.needs@,
                definition.needs@.len(),
            ));
            assert(r->Ok_0@ == head + tail);
        }
        assert(r->Ok_0@.take(start.len() as int) == start);
    }
}

/// An execution with a fault is refused for it, and all are sound only if each
/// is.
pub proof fn law_faulty_executions_are_refused(
    row: &GraphRow,
    rows: &Vec<GraphRow>,
    outputs: &Vec<OutputRow>,
    one: Result<(), StoreError>,
    all: Result<(), StoreError>,
    g: int,
)
    requires
        0 <= g < rows@.len(),
        *row == rows@[g],
        call_ensures(check_graph, (row, outputs), one),
        call_ensures(check_graphs, (rows, outputs), all),
    ensures
        row.graph.fault is Some ==> one is Err && one->Err_0 is InvalidGraph
            && one->Err_0->InvalidGraph_0 == row.graph.fault->0,
        one is Err ==> all is Err,
        one is Err ==> one->Err_0 is InvalidGraph,
{
    if all is Ok {
        let listing = crate::listing::listed(rows@);
        crate::listing::law_listing_is_in_order(rows@);
        broadcast use vstd::seq_lib::group_to_multiset_ensures;
        assert(rows@.contains(*row));
        assert(rows@.to_multiset().count(*row) > 0);
        assert(listing.contains(*row));
        let i = choose|i: int| 0 <= i < listing.len() && listing[i] == *row;
        lemma_none_refused(listing, outputs@, 0, i);
    }
}

proof fn lemma_none_refused(rows: Seq<GraphRow>, outputs: Seq<OutputRow>, from: int, i: int)
    requires
        0 <= from <= i < rows.len(),
        crate::attempts::first_refusal(rows, outputs, from) is None,
    ensures
        crate::attempts::graph_refusal(rows[i], outputs) is None,
    decreases i - from,
{
    if from < i {
        lemma_none_refused(rows, outputs, from + 1, i);
    }
}

/// An execution is found under its own identifier.
pub proof fn law_executions_are_found(rows: &Vec<GraphRow>, id: Uid, r: Option<usize>)
    requires
        call_ensures(execution_position, (rows, id), r),
    ensures
        r is Some ==> r->0 < rows@.len() && rows@[r->0 as int].graph.execution.id == id,
        r is None ==> forall|g: int|
            0 <= g < rows@.len() ==> (#[trigger] rows@[g]).graph.execution.id != id,
{
    lemma_found(rows@, id, 0);
}

proof fn lemma_found(rows: Seq<GraphRow>, id: Uid, from: int)
    requires
        0 <= from,
    ensures
        match crate::attempts::find_execution(rows, id, from) {
            Some(g) => from <= g < rows.len() && rows[g].graph.execution.id == id,
            None => forall|g: int|
                from <= g < rows.len() ==> (#[trigger] rows[g]).graph.execution.id != id,
        },
    decreases rows.len() - from,
{
    if from < rows.len() && rows[from].graph.execution.id != id {
        lemma_found(rows, id, from + 1);
    }
}

/// A run has ended once it has succeeded or failed, was cancelled or blocked, or
/// is uncertain; and not before.
pub proof fn law_runs_end_in_five_ways(state: NormalizedRunState, r: bool)
    requires
        call_ensures(has_run_ended, (state,), r),
    ensures
        !r <==> state == NormalizedRunState::Starting || state == NormalizedRunState::Running
            || state == NormalizedRunState::AwaitingApproval || state
            == NormalizedRunState::Cancelling || state == NormalizedRunState::Recovering,
{
}

/// A sanitized execution is the same but for what its failures quote.
pub proof fn law_sanitizing_keeps_the_execution(execution: GraphExecution, r: GraphExecution, i: int)
    requires
        call_ensures(sanitize_execution, (execution,), r),
    ensures
        r.id == execution.id,
        r.revision == execution.revision,
        r.restarted_from_execution_id == execution.restarted_from_execution_id,
        r.graph == execution.graph,
        r.outputs@ == execution.outputs@,
        r.selected_outputs@ == execution.selected_outputs@,
        r.nodes@.len() == execution.nodes@.len(),
        0 <= i < execution.nodes@.len() ==> {
            &&& r.nodes@[i].node_id == execution.nodes@[i].node_id
            &&& r.nodes@[i].state == execution.nodes@[i].state
            &&& r.nodes@[i].owner == execution.nodes@[i].owner
            &&& r.nodes@[i].run_id == execution.nodes@[i].run_id
            &&& r.nodes@[i].failure is Some <==> execution.nodes@[i].failure is Some
            &&& r.nodes@[i].failure is Some ==> cleaned(
                r.nodes@[i].failure->0,
                execution.nodes@[i].failure->0,
            )
        },
{
    if 0 <= i < execution.nodes@.len() {
        assert(crate::executions::sanitized_node(r.nodes@[i], execution.nodes@[i]));
    }
}

/// The output and the run of a node are those recorded under it.
pub proof fn law_nodes_have_their_output_and_run(
    execution: &GraphExecution,
    node_id: Uid,
    output: Option<&GraphNodeOutput>,
    run: Option<Uid>,
)
    requires
        call_ensures(GraphExecution::output, (execution, node_id), output),
        call_ensures(GraphExecution::bound_run, (execution, node_id), run),
    ensures
        output is Some ==> exists|i: int|
            0 <= i < execution.selected_outputs@.len() && (
            #[trigger] execution.selected_outputs@[i]).node_id == node_id
                && execution.selected_outputs@[i].output == *output->0,
        output is None ==> forall|i: int|
            0 <= i < execution.selected_outputs@.len() ==> (
            #[trigger] execution.selected_outputs@[i]).node_id != node_id,
        run is Some ==> exists|i: int|
            0 <= i < execution.nodes@.len() && (#[trigger] execution.nodes@[i]).node_id == node_id
                && execution.nodes@[i].run_id == run,
{
    lemma_find(execution.selected_outputs@, node_id);
    lemma_find(execution.nodes@, node_id);
    if output is Some {
        let i = find(execution.selected_outputs@, node_id)->0;
        assert(execution.selected_outputs@[i].node_id == node_id);
    }
    if run is Some {
        let i = find(execution.nodes@, node_id)->0;
        assert(execution.nodes@[i].node_id == node_id);
    }
}

/// A revision is followed by the next, as long as it can be stored.
pub proof fn law_revisions_count_up(actual: u64, r: Result<u64, StoreError>)
    requires
        call_ensures(next_revision, (actual,), r),
    ensures
        r is Ok <==> actual < 0x7fff_ffff_ffff_ffff,
        r is Ok ==> r->Ok_0 == actual + 1,
        actual == u64::MAX ==> r->Err_0 is RevisionOverflow,
        r is Err && actual != u64::MAX ==> r->Err_0 is Database,
{
}

/// Faults of the database are reported as such, and a run's state by its text.
pub proof fn law_faults_are_reported(
    range: StoreError,
    constraint: StoreError,
    text: &str,
    invalid: StoreError,
)
    requires
        call_ensures(out_of_range, (), range),
        call_ensures(constraint_failed, (), constraint),
        call_ensures(invalid_run, (text,), invalid),
    ensures
        range is Database,
        range->Database_0@ == "out of range integral type conversion attempted"@,
        constraint is Database,
        constraint->Database_0@ == "constraint failed"@,
        invalid is InvalidRunState,
        invalid->InvalidRunState_0@ == text@,
{
}

/// A new daemon has nothing in it but its identifier.
pub proof fn law_new_daemon_is_empty(daemon_id: Uid, r: Store)
    requires
        call_ensures(Store::create, (daemon_id,), r),
    ensures
        r.daemon_id == daemon_id,
        r.revision == 0,
        r.lifecycle@ == "starting"@,
        r.identity_revision == 0,
        r.m3_revision == 0,
        r.identity.runs@.len() == 0,
        r.identity.sessions@.len() == 0,
        r.identity.projects@.len() == 0,
        r.m3.meetings.meetings@.len() == 0,
        r.m3.deliverables.documents@.len() == 0,
        r.graphs@.len() == 0,
        r.node_runs@.len() == 0,
        r.outputs@.len() == 0,
        r.approvals@.len() == 0,
        r.grants@.len() == 0,
        r.plans@.len() == 0,
        r.staged@.len() == 0,
        r.claims@.len() == 0,
        r.events@.len() == 0,
        r.checkpoints@.len() == 0,
{
    assert(r@.identity == r.identity@);
    assert(r@.m3 == r.m3@);
}

/// An adapter is launched under its profile and without arguments; a refusal
/// gives nothing away.
pub proof fn law_adapters_are_launched_without_arguments(
    launcher: &SandboxLauncher,
    executable: &str,
    resolved: &Vec<bool>,
    host: SandboxHost,
    r: Result<LaunchPlan, &'static str>,
    profile: &SandboxProfile,
    arguments: &Vec<String>,
    direct: Result<LaunchPlan, SandboxError>,
)
    requires
        call_ensures(SandboxLauncher::command, (launcher, executable, resolved, host), r),
        *profile == launcher.profile,
        arguments@.len() == 0,
        call_ensures(
            SandboxProfile::launch_command,
            (profile, launcher.platform, executable, arguments, resolved, host),
            direct,
        ),
    ensures
        r is Ok <==> direct is Ok,
        r is Ok ==> r->Ok_0@ == direct->Ok_0@,
        r is Err ==> r->Err_0@ == "sandbox command rejected"@,
{
    assert(crate::approval::texts(arguments@) =~= Seq::empty());
}

/// A request of a run without an attempt fits only if it is not staged and its
/// agent has no other role in the project.
pub proof fn law_runs_without_attempts_have_one_role(
    store: &Store,
    request: &ApprovalRequest,
    staged: bool,
    catalog_fault: &Option<CatalogError>,
    authority_fault: &Option<ApprovalError>,
    m3_fault: &Option<String>,
    r: Result<(), StoreError>,
    k: int,
    m: int,
)
    requires
        call_ensures(
            Store::validate_current_catalog,
            (store, request, staged, catalog_fault, authority_fault, m3_fault),
            r,
        ),
        r is Ok,
        forall|x: int|
            0 <= x < store.node_runs@.len() ==> Some((#[trigger] store.node_runs@[x]).run_id)
                != request.action.scope.run_id,
        0 <= k < m < store.m3.office.pet_assignments@.len(),
    ensures
        !staged,
        !(holds_role(store.m3.office.pet_assignments@[k], *request) && holds_role(
            store.m3.office.pet_assignments@[m],
            *request,
        )),
{
    let s = store@;
    lemma_find(s.node_runs, request.action.scope.run_id->0);
    assert(s.node_runs == store.node_runs@);
    let rows = store.m3.office.pet_assignments@;
    assert(s.m3.pet_assignments == rows);
    lemma_two_counted(
        rows,
        request.action.scope.project_id,
        request.action.agent_instance_id,
        rows.len(),
        k,
        m,
    );
}

/// An active assignment of the request's agent in its project.
pub open spec fn holds_role(assignment: crate::m3::PetAssignment, request: ApprovalRequest) -> bool {
    &&& assignment.metadata.lifecycle == EntityLifecycle::Active
    &&& assignment.project_id == request.action.scope.project_id
    &&& assignment.agent_instance_id == request.action.agent_instance_id
}

proof fn lemma_two_counted(
    rows: Seq<crate::m3::PetAssignment>,
    project: Uid,
    agent: Uid,
    n: nat,
    k: int,
    m: int,
)
    requires
        n <= rows.len(),
        0 <= k < m < rows.len(),
    ensures
        m < n && crate::grants::assigned(rows[k], project, agent) && crate::grants::assigned(
            rows[m],
            project,
            agent,
        ) ==> crate::grants::assigned_count(rows, project, agent, n) >= 2,
        k < n && crate::grants::assigned(rows[k], project, agent)
            ==> crate::grants::assigned_count(rows, project, agent, n) >= 1,
    decreases n,
{
    if n > 0 {
        lemma_two_counted(rows, project, agent, (n - 1) as nat, k, m);
    }
}

/// A request of a run with an attempt fits only while the attempt is unfinished
/// and its node, under the request's role, is bound to the run and waits or runs
/// as it should.
pub proof fn law_attempts_of_requests_are_unfinished(
    store: &Store,
    request: &ApprovalRequest,
    staged: bool,
    catalog_fault: &Option<CatalogError>,
    authority_fault: &Option<ApprovalError>,
    m3_fault: &Option<String>,
    r: Result<(), StoreError>,
    k: int,
)
    requires
        call_ensures(
            Store::validate_current_catalog,
            (store, request, staged, catalog_fault, authority_fault, m3_fault),
            r,
        ),
        r is Ok,
        0 <= k < store.node_runs@.len(),
        Some(store.node_runs@[k].run_id) == request.action.scope.run_id,
        forall|x: int|
            0 <= x < k ==> Some((#[trigger] store.node_runs@[x]).run_id)
                != request.action.scope.run_id,
    ensures
        store.node_runs@[k].finished_at is None,
        exists|g: int, n: int|
            #![trigger store.graphs@[g].graph.execution.nodes@[n]]
            {
                &&& 0 <= g < store.graphs@.len()
                &&& store.graphs@[g].execution_id == store.node_runs@[k].execution_id
                &&& store.graphs@[g].graph.fault is None
                &&& 0 <= n < store.graphs@[g].graph.execution.nodes@.len()
                &&& store.graphs@[g].graph.execution.nodes@[n].node_id
                    == store.node_runs@[k].node_id
                &&& store.graphs@[g].graph.execution.nodes@[n].run_id
                    == request.action.scope.run_id
                &&& store.graphs@[g].graph.execution.nodes@[n].state == (if staged {
                    GraphNodeState::AwaitingApproval
                } else {
                    GraphNodeState::Running
                })
            },
{
    let s = store@;
    let id = request.action.scope.run_id->0;
    lemma_find(s.node_runs, id);
    assert(s.node_runs == store.node_runs@);
    assert(find(s.node_runs, id) == Some(k)) by {
        let x = find(s.node_runs, id);
        assert(s.node_runs[k].run_id == id);
        if x is Some && x->0 < k {
            assert(Some(store.node_runs@[x->0].run_id) != request.action.scope.run_id);
        }
    }
    lemma_find(s.graphs, s.node_runs[k].execution_id);
    let g = find(s.graphs, s.node_runs[k].execution_id)->0;
    let nodes = s.graphs[g].graph.execution.nodes@;
    lemma_find(nodes, s.node_runs[k].node_id);
    let n = find(nodes, s.node_runs[k].node_id)->0;
    assert(store.graphs@[g].graph.execution.nodes@[n].node_id == store.node_runs@[k].node_id);
}

/// A staged launch that has to be live is one whose node still resolves to what
/// its plan says: the same identity, workspace and prompt.
pub proof fn law_live_launches_still_resolve_as_planned(
    store: &Store,
    run: &Run,
    decision_state: bool,
    f: &StagedFindings,
    r: Result<(), StoreError>,
    p: int,
    g: int,
    execution: &GraphExecution,
    resolved: Result<ProviderRunBinding, StoreError>,
    allowed: bool,
)
    requires
        call_ensures(Store::validate_staged_context, (store, run, decision_state, true, f), r),
        r is Ok,
        0 <= p < store.plans@.len(),
        store.plans@[p].run_id == run.metadata.id,
        forall|x: int| 0 <= x < p ==> (#[trigger] store.plans@[x]).run_id != run.metadata.id,
        0 <= g < store.graphs@.len(),
        store.graphs@[g].execution_id == store.plans@[p].plan.execution_id,
        forall|x: int|
            0 <= x < g ==> (#[trigger] store.graphs@[x]).execution_id
                != store.plans@[p].plan.execution_id,
        *execution == store.graphs@[g].graph.execution,
        call_ensures(
            resolve_provider_run_binding,
            (&store.identity, &store.m3, execution, store.plans@[p].plan.node_id),
            resolved,
        ),
        call_ensures(online_launch_allowed, (&store.plans@[p].plan, &store.identity), allowed),
    ensures
        resolved is Ok,
        resolved->Ok_0.launch_identity@ == store.plans@[p].plan.identity@,
        resolved->Ok_0.workspace_root@ == store.plans@[p].plan.workspace_root@,
        resolved->Ok_0.prompt@ == store.plans@[p].plan.prompt@,
        allowed,
{
    let s = store@;
    lemma_find(s.plans, run.metadata.id);
    assert(s.plans == store.plans@);
    assert(find(s.plans, run.metadata.id) == Some(p)) by {
        let x = find(s.plans, run.metadata.id);
        assert(s.plans[p].run_id == run.metadata.id);
        if x is Some && x->0 < p {
            assert(store.plans@[x->0].run_id != run.metadata.id);
        }
    }
    let id = s.plans[p].plan.execution_id;
    lemma_find(s.graphs, id);
    assert(s.graphs == store.graphs@);
    assert(find(s.graphs, id) == Some(g)) by {
        let x = find(s.graphs, id);
        assert(s.graphs[g].execution_id == id);
        if x is Some && x->0 < g {
            assert(store.graphs@[x->0].execution_id != id);
        }
    }
}

} // verus!

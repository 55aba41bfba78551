//! Launches that need a credential: how they are staged, approved and dispatched.
use crate::approval::{ApprovalAction, ApprovalDecisionKind, ApprovalRequest};
use crate::broker::{BrokerError, PreparedLaunch};
use crate::dispatch::{dispatch_target, ClaimFindings, DispatchClaim, DispatchRows, LookupFindings};
use crate::error::{ApprovalError, StoreError};
use crate::identity::{Moment, NormalizedRunState, PermissionLevel, PolicyLayer};
use crate::launch::{ProviderCredentialSelection, ProviderLaunchPlan};
use crate::native_credentials::{CredentialReadError, SecretBytes};
use crate::json::{fields, json_string, json_uid, object};
use crate::promises::{changed_at, moved, one_more, told};
use crate::protocol::StagedLaunchState;
use crate::staged::{approval_action, plan_action, staged_refusal, StagedFindings};
use crate::staging::StagingDraft;
use crate::store::Store;
use crate::uid::{find, lemma_find, Uid};
use vstd::prelude::*;

verus! {

/// The credential that a plan selects, if it selects one.
pub open spec fn selected_by(plan: ProviderLaunchPlan) -> Option<ProviderCredentialSelection> {
    if plan.identity.account is Some {
        plan.identity.account->0.credential
    } else {
        None
    }
}

/// An action that asks for exactly this credential.
pub open spec fn asks_for(action: ApprovalAction, selection: ProviderCredentialSelection) -> bool {
    &&& action.scope.credential_binding is Some
    &&& action.scope.credential_binding->0.credential_reference_id == selection.reference_id
    &&& action.scope.credential_binding->0.backend == selection.backend
    &&& action.scope.credential_binding->0.service@ == selection.service@
    &&& action.scope.credential_binding->0.account_label@ == selection.account_label@
}

/// What a plan has to have approved: the use of the credential that it selects,
/// by its agent in its role, for its run and in its workspace, and nothing else.
pub proof fn law_plan_asks_for_its_own_credential(
    plan: &ProviderLaunchPlan,
    r: Result<ApprovalAction, StoreError>,
    hash: String,
)
    requires
        call_ensures(approval_action, (plan,), r),
        call_ensures(ProviderLaunchPlan::hash, (plan,), hash),
    ensures
        r is Ok <==> selected_by(*plan) is Some,
        r is Err ==> r->Err_0 is CredentialGrantRejected,
        r is Ok ==> {
            let action = r->Ok_0;
            &&& asks_for(action, selected_by(*plan)->0)
            &&& action.scope.credential_binding->0.agent_provider_id
                == plan.identity.agent_provider_id
            &&& action.scope.credential_binding->0.account_id
                == plan.identity.account->0.account_id
            &&& action.scope.credential_binding->0.adapter_kind@ == plan.identity.adapter_kind@
            &&& action.scope.credential_binding->0.provider_identity@
                == plan.identity.account->0.provider_identity@
            &&& action.scope.credential_binding->0.capability_key@ == "provider.authenticate"@
            &&& action.agent_instance_id == plan.identity.agent_instance_id
            &&& action.role_id == Some(plan.role_id)
            &&& action.action_key@ == "credential.use"@
            &&& action.reason_key@ == "provider.authentication"@
            &&& action.consequence_key@ == "credential.single_run"@
            &&& action.risk@ == "high"@
            &&& action.scope.project_id == plan.identity.project_id
            &&& action.scope.run_id == Some(plan.run_id)
            &&& action.scope.filesystem_roots@.len() == 1
            &&& action.scope.filesystem_roots@[0]@ == plan.workspace_root@
            &&& action.scope.data_scopes@.len() == 1
            &&& action.scope.data_scopes@[0]@ == "provider_launch_plan:"@ + hash@
            &&& action.scope.network_destinations@.len() == 0
            &&& action.scope.credential_reference_ids@ == seq![selected_by(*plan)->0.reference_id]
            &&& action.scope.destination is None
            &&& action.requested_policy.layer == PolicyLayer::SingleRun
            &&& action.requested_policy.ceiling.credential == PermissionLevel::Use
            &&& action.requested_policy.ceiling.filesystem == PermissionLevel::Deny
            &&& action.requested_policy.ceiling.network == PermissionLevel::Deny
            &&& action.requested_policy.ceiling.process == PermissionLevel::Deny
            &&& action.requested_policy.ceiling.device == PermissionLevel::Deny
            &&& !action.requested_policy.ceiling.persistent_approval
        },
{
    if r is Ok {
        let action = r->Ok_0;
        let view = action@;
        assert(plan_action(*plan) == Ok::<_, crate::error::Refusal>(view));
        assert(view.credential_binding == Some(action.scope.credential_binding->0@));
        assert(crate::approval::texts(action.scope.filesystem_roots@) == view.filesystem_roots);
        assert(crate::approval::texts(action.scope.filesystem_roots@).len()
            == action.scope.filesystem_roots@.len());
        assert(crate::approval::texts(action.scope.filesystem_roots@)[0]
            == action.scope.filesystem_roots@[0]@);
        assert(crate::approval::texts(action.scope.data_scopes@) == view.data_scopes);
        assert(crate::approval::texts(action.scope.data_scopes@)[0]
            == action.scope.data_scopes@[0]@);
        assert(crate::approval::texts(action.scope.network_destinations@)
            == view.network_destinations);
        assert(crate::approval::texts(action.scope.network_destinations@).len()
            == action.scope.network_destinations@.len());
    }
}

/// Where a dispatch is planned: its grant, request, plan, launch and run.
pub open spec fn dispatchable(
    s: Store,
    request_id: Uid,
    now: Moment,
    q: int,
    a: int,
    p: int,
    t: int,
    i: int,
) -> bool {
    &&& 0 <= q < s.grants@.len()
    &&& s.grants@[q].request_id == request_id
    &&& s.grants@[q].consumed_at_ms is None
    &&& s.grants@[q].revoked_at_ms is None
    &&& s.grants@[q].issued_at_ms <= now.ms
    &&& 0 <= a < s.approvals@.len()
    &&& s.approvals@[a].request.id == request_id
    &&& s.approvals@[a].decision is Some
    &&& s.approvals@[a].decision->0.kind == ApprovalDecisionKind::Approve
    &&& s.approvals@[a].request.created_at_ms <= now.ms
    &&& now.ms < s.approvals@[a].request.expires_at_ms
    &&& 0 <= p < s.plans@.len()
    &&& s.approvals@[a].request.action.scope.run_id == Some(s.plans@[p].run_id)
    &&& s.plans@[p].plan.run_id == s.plans@[p].run_id
    &&& 0 <= t < s.staged@.len()
    &&& s.staged@[t].run_id == s.plans@[p].run_id
    &&& s.staged@[t].request_id == request_id
    &&& s.staged@[t].state == StagedLaunchState::Ready
    &&& 0 <= i < s.identity.runs@.len()
    &&& s.identity.runs@[i].metadata.id == s.plans@[p].run_id
    &&& s.identity.runs@[i].state == NormalizedRunState::AwaitingApproval
    &&& s.identity.runs@[i].started_at is None
    &&& s.lifecycle@ == "ready"@
}

/// A launch is dispatched only on its open, approved and unspent grant, while it
/// waits; and the credential that is then looked up is the one that its recorded
/// plan selects and that its request had approved.
#[verifier::rlimit(40)]
pub proof fn law_dispatch_hands_out_the_approved_credential(
    store: &Store,
    request_id: Uid,
    f: &StagedFindings,
    m3_fault: &Option<String>,
    now: &Moment,
    r: Result<(DispatchRows, ProviderCredentialSelection), StoreError>,
)
    requires
        call_ensures(Store::plan_dispatch, (store, request_id, f, m3_fault, now), r),
        r is Ok,
    ensures
        exists|q: int, a: int, p: int, t: int, i: int|
            #![trigger store.grants@[q], store.approvals@[a], store.plans@[p], store.staged@[t], store.identity.runs@[i]]
            {
                &&& dispatchable(*store, request_id, *now, q, a, p, t, i)
                &&& selected_by(store.plans@[p].plan) is Some
                &&& (r->Ok_0).1.reference_id == selected_by(store.plans@[p].plan)->0.reference_id
                &&& (r->Ok_0).1.backend == selected_by(store.plans@[p].plan)->0.backend
                &&& (r->Ok_0).1.service@ == selected_by(store.plans@[p].plan)->0.service@
                &&& (r->Ok_0).1.account_label@
                    == selected_by(store.plans@[p].plan)->0.account_label@
                &&& asks_for(store.approvals@[a].request.action, (r->Ok_0).1)
            },
        f.catalog_fault is None && f.authority_fault is None && f.request_fault is None
            && f.decision_fault is None && *m3_fault is None,
{
    let s = store@;
    lemma_dispatch_rows(*store, request_id, *f, *m3_fault, *now);
    let target = dispatch_target(s, request_id, *f, *m3_fault, *now)->Ok_0;
    let a = find(s.approvals, request_id)->0;
    assert(dispatchable(
        *store,
        request_id,
        *now,
        target.grant,
        a,
        target.plan,
        target.staged,
        target.run,
    ));
    assert(store.grants@[target.grant].request_id == request_id);
    assert(store.approvals@[a].request.id == request_id);
    assert(store.plans@[target.plan].plan.run_id == store.plans@[target.plan].run_id);
    assert(store.staged@[target.staged].request_id == request_id);
    assert(store.identity.runs@[target.run].started_at is None);
}

#[verifier::rlimit(40)]
proof fn lemma_dispatch_rows(
    store: Store,
    request_id: Uid,
    f: StagedFindings,
    m3_fault: Option<String>,
    now: Moment,
)
    requires
        dispatch_target(store@, request_id, f, m3_fault, now) is Ok,
    ensures
        ({
            let target = dispatch_target(store@, request_id, f, m3_fault, now)->Ok_0;
            let a = find(store@.approvals, request_id)->0;
            let plan = store.plans@[target.plan].plan;
            &&& dispatchable(
                store,
                request_id,
                now,
                target.grant,
                a,
                target.plan,
                target.staged,
                target.run,
            )
            &&& 0 <= target.graph < store.graphs@.len()
            &&& store.graphs@[target.graph].execution_id == plan.execution_id
            &&& selected_by(plan) is Some
            &&& asks_for(store.approvals@[a].request.action, selected_by(plan)->0)
            &&& find(store@.grants, request_id) == Some(target.grant)
            &&& find(store@.staged, store.plans@[target.plan].run_id) == Some(target.staged)
            &&& find(store@.identity.runs, store.plans@[target.plan].run_id) == Some(target.run)
        }),
        f.catalog_fault is None,
        f.authority_fault is None,
        f.request_fault is None,
        f.decision_fault is None,
        m3_fault is None,
{
    let s = store@;
    let target = dispatch_target(s, request_id, f, m3_fault, now)->Ok_0;
    lemma_find(s.grants, request_id);
    lemma_find(s.approvals, request_id);
    let a = find(s.approvals, request_id)->0;
    let request = s.approvals[a].request;
    let run_id = request.action.scope.run_id->0;
    lemma_find(s.staged, run_id);
    lemma_find(s.identity.runs, run_id);
    lemma_find(s.plans, run_id);
    let run = s.identity.runs[target.run];
    assert(run.metadata.id == run_id);
    assert(staged_refusal(s, run, true, true, f) is None);
    let plan = s.plans[target.plan].plan;
    lemma_find(s.graphs, plan.execution_id);
    assert(plan_action(plan) == Ok::<_, crate::error::Refusal>(request.action@));
    assert(request.action@.credential_binding == Some(
        request.action.scope.credential_binding->0@,
    ));
}

/// A dispatch spends the grant, claims the launch and starts the run, each once
/// and at this time; and it hands out the approved credential with the receipt
/// that the recorded plan gives.
#[verifier::rlimit(40)]
pub proof fn law_dispatch_spends_claims_and_starts(
    store: &mut Store,
    request_id: Uid,
    f: &StagedFindings,
    m3_fault: &Option<String>,
    accepts: bool,
    findings: ClaimFindings,
    now: &Moment,
    r: Result<DispatchClaim, StoreError>,
)
    requires
        call_ensures(
            Store::claim_staged_dispatch,
            (store, request_id, f, m3_fault, accepts, findings, now),
            r,
        ),
    ensures
        r is Err ==> *final(store) == *old(store),
        !accepts ==> r is Err,
        findings.activated is Err ==> r is Err,
        r is Ok ==> exists|q: int, a: int, p: int, t: int, i: int|
            #![trigger old(store).grants@[q], old(store).approvals@[a], old(store).plans@[p], old(store).staged@[t], old(store).identity.runs@[i]]
            {
                let plan = old(store).plans@[p].plan;
                let claim = r->Ok_0;
                &&& dispatchable(*old(store), request_id, *now, q, a, p, t, i)
                &&& selected_by(plan) == Some(claim.selection)
                &&& asks_for(old(store).approvals@[a].request.action, claim.selection)
                &&& changed_at(old(store).grants@, final(store).grants@, q)
                &&& final(store).grants@[q].consumed_at_ms == Some(now.ms)
                &&& final(store).grants@[q].revoked_at_ms is None
                &&& final(store).grants@[q].request_id == request_id
                &&& final(store).grants@[q].issued_at_ms == old(store).grants@[q].issued_at_ms
                &&& changed_at(old(store).staged@, final(store).staged@, t)
                &&& final(store).staged@[t].state == StagedLaunchState::Dispatching
                &&& final(store).staged@[t].run_id == plan.run_id
                &&& final(store).staged@[t].request_id == request_id
                &&& changed_at(old(store).identity.runs@, final(store).identity.runs@, i)
                &&& moved(
                    old(store).identity.runs@[i],
                    final(store).identity.runs@[i],
                    NormalizedRunState::Starting,
                    *now,
                )
                &&& final(store).identity.runs@[i].started_at is Some
                &&& final(store).identity.runs@[i].started_at->0@ == now.text@
                &&& final(store).identity.runs@[i].finished_at
                    == old(store).identity.runs@[i].finished_at
                &&& one_more(old(store).claims@, final(store).claims@)
                &&& final(store).claims@.last().run_id == plan.run_id
                &&& final(store).claims@.last().request_id == request_id
                &&& final(store).claims@.last().claimed_at_ms == now.ms
                &&& final(store).identity_revision == old(store).identity_revision + 1
                &&& claim.receipt.protocol_version == 1
                &&& claim.receipt.execution_id == plan.execution_id
                &&& claim.receipt.node_id == plan.node_id
                &&& claim.receipt.session_id == plan.session_id
                &&& claim.receipt.run_id == plan.run_id
                &&& claim.receipt.launch_identity == Some(plan.identity)
                &&& claim.receipt.adapter_kind@ == plan.identity.adapter_kind@
                &&& claim.receipt.model@ == plan.identity.model@
                &&& claim.receipt.workspace_root@ == plan.workspace_root@
                &&& claim.receipt.prompt@ == plan.prompt@
                &&& claim.receipt.catalog_revision == final(store).identity_revision
                &&& claim.receipt.graph_revision == findings.activated->Ok_0.execution.revision
                &&& claim.receipt.event_sequence == final(store).events@.last().sequence
            },
        r is Ok ==> {
            &&& final(store).events@.len() == old(store).events@.len() + 2
            &&& final(store).events@[old(store).events@.len() as int].event_type@
                == "credential.grant_consumed"@
            &&& final(store).events@.last().event_type@ == "provider_launch.dispatch_claimed"@
            &&& final(store).events@.last().occurred_at@ == now.text@
            &&& final(store).events@.last().payload_json@ == object(
                fields().push(("request_id"@, json_uid(request_id))).push(
                    ("run_id"@, json_uid(r->Ok_0.receipt.run_id)),
                ),
            )
            &&& final(store).events@[old(store).events@.len() as int].payload_json@
                == final(store).events@.last().payload_json@
            &&& final(store).approvals@ == old(store).approvals@
            &&& final(store).plans@ == old(store).plans@
            &&& final(store).node_runs@ == old(store).node_runs@
            &&& final(store).outputs@ == old(store).outputs@
            &&& final(store).m3@ == old(store).m3@
        },
{
    if r is Ok {
        let s = old(store)@;
        lemma_dispatch_rows(*old(store), request_id, *f, *m3_fault, *now);
        let target = dispatch_target(s, request_id, *f, *m3_fault, *now)->Ok_0;
        let a = find(s.approvals, request_id)->0;
        assert(final(store)@.identity.runs == final(store).identity.runs@);
        assert(old(store).grants@[target.grant].request_id == request_id);
        assert(old(store).approvals@[a].request.id == request_id);
        assert(old(store).plans@[target.plan].plan.run_id == old(store).plans@[target.plan].run_id);
        assert(old(store).staged@[target.staged].request_id == request_id);
        assert(old(store).identity.runs@[target.run].started_at is None);
    }
}

/// What is read on a claim goes with the claim's receipt to the launch; a lookup
/// that fails is not repaid, and leaves the launch and its run uncertain.
pub proof fn law_credential_goes_with_its_claim(
    store: &mut Store,
    claim: DispatchClaim,
    read: Result<SecretBytes, CredentialReadError>,
    findings: LookupFindings,
    now: &Moment,
    r: Result<PreparedLaunch, BrokerError>,
)
    requires
        call_ensures(Store::prepare_staged_credentials, (store, claim, read, findings, now), r),
    ensures
        r is Ok <==> read is Ok,
        r is Ok ==> r->Ok_0.receipt == claim.receipt && r->Ok_0.credential == read->Ok_0
            && *final(store) == *old(store),
        final(store).grants@ == old(store).grants@,
        r is Err && r->Err_0 == BrokerError::Recovery ==> *final(store) == *old(store),
        r is Err ==> r->Err_0 == BrokerError::Recovery || r->Err_0 == BrokerError::Credential,
        r is Err && r->Err_0 == BrokerError::Credential ==> exists|i: int, t: int|
            #![trigger final(store).identity.runs@[i], final(store).staged@[t]]
            {
                &&& 0 <= i < final(store).identity.runs@.len()
                &&& final(store).identity.runs@[i].metadata.id == claim.receipt.run_id
                &&& old(store).identity.runs@[i].state == NormalizedRunState::Starting
                &&& moved(
                    old(store).identity.runs@[i],
                    final(store).identity.runs@[i],
                    NormalizedRunState::Uncertain,
                    *now,
                )
                &&& final(store).identity.runs@[i].started_at
                    == old(store).identity.runs@[i].started_at
                &&& changed_at(old(store).identity.runs@, final(store).identity.runs@, i)
                &&& 0 <= t < final(store).staged@.len()
                &&& final(store).staged@[t].run_id == claim.receipt.run_id
                &&& old(store).staged@[t].state == StagedLaunchState::Dispatching
                &&& final(store).staged@[t].state == StagedLaunchState::Uncertain
                &&& changed_at(old(store).staged@, final(store).staged@, t)
                &&& told(
                    old(store).events@,
                    final(store).events@,
                    "provider_launch.credential_lookup_failed"@,
                    fields().push(("run_id"@, json_uid(claim.receipt.run_id))),
                    *now,
                )
            },
{
    let s = old(store)@;
    lemma_find(s.identity.runs, claim.receipt.run_id);
    lemma_find(s.staged, claim.receipt.run_id);
    if r is Err && r->Err_0 == BrokerError::Credential {
        let i = find(s.identity.runs, claim.receipt.run_id)->0;
        let t = find(s.staged, claim.receipt.run_id)->0;
        assert(final(store)@.identity.runs == final(store).identity.runs@);
        assert(final(store).identity.runs@[i].metadata.id == claim.receipt.run_id);
        assert(final(store).staged@[t].run_id == claim.receipt.run_id);
    }
}

/// The same failure, recorded by itself.
pub proof fn law_failed_lookup_is_recorded(
    store: &mut Store,
    run_id: Uid,
    findings: LookupFindings,
    now: &Moment,
    r: Result<(), StoreError>,
)
    requires
        call_ensures(Store::fail_dispatch_claim, (store, run_id, findings, now), r),
    ensures
        r is Err ==> *final(store) == *old(store),
        final(store).grants@ == old(store).grants@,
        r is Ok ==> exists|i: int, t: int|
            #![trigger final(store).identity.runs@[i], final(store).staged@[t]]
            {
                &&& 0 <= i < final(store).identity.runs@.len()
                &&& final(store).identity.runs@[i].metadata.id == run_id
                &&& old(store).identity.runs@[i].state == NormalizedRunState::Starting
                &&& moved(
                    old(store).identity.runs@[i],
                    final(store).identity.runs@[i],
                    NormalizedRunState::Uncertain,
                    *now,
                )
                &&& final(store).identity.runs@[i].started_at
                    == old(store).identity.runs@[i].started_at
                &&& changed_at(old(store).identity.runs@, final(store).identity.runs@, i)
                &&& 0 <= t < final(store).staged@.len()
                &&& final(store).staged@[t].run_id == run_id
                &&& old(store).staged@[t].state == StagedLaunchState::Dispatching
                &&& final(store).staged@[t].state == StagedLaunchState::Uncertain
                &&& changed_at(old(store).staged@, final(store).staged@, t)
            },
        r is Ok ==> final(store).identity_revision == old(store).identity_revision + 1
            && findings.finished is Ok && told(
            old(store).events@,
            final(store).events@,
            "provider_launch.credential_lookup_failed"@,
            fields().push(("run_id"@, json_uid(run_id))),
            *now,
        ),
{
    let s = old(store)@;
    lemma_find(s.identity.runs, run_id);
    lemma_find(s.staged, run_id);
    if r is Ok {
        let i = find(s.identity.runs, run_id)->0;
        let t = find(s.staged, run_id)->0;
        assert(final(store)@.identity.runs == final(store).identity.runs@);
        assert(final(store).identity.runs@[i].metadata.id == run_id);
        assert(final(store).staged@[t].run_id == run_id);
    }
}

/// The request that a staged launch calls for is that of its plan, under the
/// policy of its role, and open for five minutes.
pub proof fn law_staged_launch_asks_for_five_minutes(
    store: &Store,
    run_id: Uid,
    f: &StagedFindings,
    now: &Moment,
    r: Result<StagingDraft, StoreError>,
)
    requires
        call_ensures(Store::draft_staging, (store, run_id, f, now), r),
        r is Ok,
    ensures
        r->Ok_0.expires_at_ms == now.ms + 300_000,
        exists|p: int, i: int|
            #![trigger store.plans@[p], store.identity.roles@[i]]
            {
                &&& 0 <= p < store.plans@.len()
                &&& store.plans@[p].run_id == run_id
                &&& selected_by(store.plans@[p].plan) is Some
                &&& asks_for(r->Ok_0.action, selected_by(store.plans@[p].plan)->0)
                &&& r->Ok_0.action.scope.run_id == Some(store.plans@[p].plan.run_id)
                &&& 0 <= i < store.identity.roles@.len()
                &&& store.identity.roles@[i].metadata.id == store.plans@[p].plan.role_id
                &&& store.identity.roles@[i].policy == r->Ok_0.policy
            },
        f.catalog_fault is None,
{
    let s = store@;
    lemma_find(s.plans, run_id);
    let p = find(s.plans, run_id)->0;
    let plan = s.plans[p].plan;
    lemma_find(s.identity.roles, plan.role_id);
    let i = find(s.identity.roles, plan.role_id)->0;
    assert(r->Ok_0.action@.credential_binding == Some(
        r->Ok_0.action.scope.credential_binding->0@,
    ));
    assert(store.plans@[p].run_id == run_id);
    assert(store.identity.roles@[i].metadata.id == plan.role_id);
}

/// A staged launch has its request recorded, undecided, and waits for it.
pub proof fn law_staged_launch_waits_for_its_request(
    store: &mut Store,
    run_id: Uid,
    request: Result<ApprovalRequest, ApprovalError>,
    f: &StagedFindings,
    now: &Moment,
    r: Result<u64, StoreError>,
)
    requires
        call_ensures(Store::stage, (store, run_id, request, f, now), r),
    ensures
        r is Err ==> final(store)@ == old(store)@,
        request is Err ==> r is Err,
        r is Ok ==> {
            &&& one_more(old(store).approvals@, final(store).approvals@)
            &&& final(store).approvals@.last().request == request->Ok_0
            &&& final(store).approvals@.last().decision is None
            &&& one_more(old(store).staged@, final(store).staged@)
            &&& final(store).staged@.last().run_id == run_id
            &&& final(store).staged@.last().request_id == request->Ok_0.id
            &&& final(store).staged@.last().state == StagedLaunchState::AwaitingApproval
            &&& final(store).staged@.last().staged_at_ms == now.ms
            &&& final(store).staged@.last().finished_at_ms is None
            &&& final(store).staged@.last().cancel_reason is None
            &&& final(store).events@.len() == old(store).events@.len() + 2
            &&& final(store).events@[old(store).events@.len() as int].event_type@
                == "approval.requested"@
            &&& final(store).events@.last().event_type@ == "provider_launch.staged"@
            &&& final(store).events@[old(store).events@.len() as int].payload_json@ == object(
                fields().push(("request_id"@, json_uid(request->Ok_0.id))).push(
                    ("risk"@, json_string(request->Ok_0.action.risk@)),
                ),
            )
            &&& r->Ok_0 == final(store).events@.last().sequence
            &&& final(store).grants@ == old(store).grants@
            &&& final(store).claims@ == old(store).claims@
            &&& final(store).identity@ == old(store).identity@
            &&& final(store).graphs@ == old(store).graphs@
            &&& final(store).plans@ == old(store).plans@
        },
{
}

} // verus!

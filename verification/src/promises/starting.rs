//! The start of a run under a provider whose inputs the caller has seen.
use crate::approval::ApprovalRequest;
use crate::begin::{begin_target, BeginFindings};
use crate::binding::ProviderRunBinding;
use crate::error::{ApprovalError, StoreError};
use crate::identity::{Moment, NormalizedRunState};
use crate::promises::{entered_now, one_more};
use crate::protocol::{BeginGraphNodeRunCommand, BeginGraphNodeRunReceipt, StagedLaunchState};
use crate::staged::StagedFindings;
use crate::staging::staged_begin_steps;
use crate::store::{Store, StoreView};
use crate::uid::Uid;
use vstd::prelude::*;

verus! {

/// A binding selects a credential, so that its launch has to be approved.
pub open spec fn has_credential(binding: ProviderRunBinding) -> bool {
    binding.launch_identity.account is Some && binding.launch_identity.account->0.credential is Some
}

/// A launch has to be approved exactly when a credential is selected for it.
pub proof fn law_credentials_need_approval(binding: &ProviderRunBinding, r: bool)
    requires
        call_ensures(ProviderRunBinding::needs_approval, (binding,), r),
    ensures
        r <==> has_credential(*binding),
{
    let view = binding@;
    assert(view.launch_identity == binding.launch_identity@);
}

/// A run starts under what the caller has seen and nothing else: the receipt and
/// the recorded plan carry the prompt, workspace and identity that were expected.
#[verifier::rlimit(30)]
pub proof fn law_run_starts_under_what_was_seen(
    store: &mut Store,
    id: Uid,
    c: BeginGraphNodeRunCommand,
    expected: &ProviderRunBinding,
    session_id: Uid,
    run_id: Uid,
    findings: BeginFindings,
    request: Result<ApprovalRequest, ApprovalError>,
    f: &StagedFindings,
    now: &Moment,
    r: Result<BeginGraphNodeRunReceipt, StoreError>,
)
    requires
        call_ensures(
            Store::begin_provider_graph_node_run,
            (store, id, c, expected, session_id, run_id, findings, request, f, now),
            r,
        ),
    ensures
        r is Err ==> final(store)@ == old(store)@,
        r is Ok ==> {
            let plan = final(store).plans@.last();
            &&& old(store).lifecycle@ == "ready"@
            &&& old(store).identity_revision == c.expected_catalog_revision
            &&& final(store).identity_revision == old(store).identity_revision + 1
            &&& r->Ok_0.protocol_version == 1
            &&& r->Ok_0.execution_id == id
            &&& r->Ok_0.node_id == c.node_id
            &&& r->Ok_0.session_id == session_id
            &&& r->Ok_0.run_id == run_id
            &&& r->Ok_0.catalog_revision == final(store).identity_revision
            &&& r->Ok_0.graph_revision == findings.begun->Ok_0.execution.revision
            &&& r->Ok_0.event_sequence == final(store).events@.last().sequence
            &&& r->Ok_0.prompt@ == expected.prompt@
            &&& r->Ok_0.workspace_root@ == expected.workspace_root@
            &&& r->Ok_0.adapter_kind@ == expected.adapter_kind@
            &&& r->Ok_0.model@ == expected.provider_model@
            &&& r->Ok_0.launch_identity is Some
            &&& r->Ok_0.launch_identity->0@ == expected.launch_identity@
            &&& one_more(old(store).plans@, final(store).plans@)
            &&& plan.run_id == run_id
            &&& plan.plan.version == 1
            &&& plan.plan.execution_id == id
            &&& plan.plan.node_id == c.node_id
            &&& plan.plan.session_id == session_id
            &&& plan.plan.run_id == run_id
            &&& plan.plan.owner@ == c.owner@
            &&& plan.plan.prompt@ == expected.prompt@
            &&& plan.plan.workspace_root@ == expected.workspace_root@
            &&& plan.plan.identity@ == expected.launch_identity@
            &&& one_more(old(store).node_runs@, final(store).node_runs@)
            &&& final(store).node_runs@.last().run_id == run_id
            &&& final(store).node_runs@.last().execution_id == id
            &&& final(store).node_runs@.last().node_id == c.node_id
            &&& final(store).node_runs@.last().attempt == plan.plan.attempt
            &&& one_more(old(store).identity.sessions@, final(store).identity.sessions@)
            &&& entered_now(
                final(store).identity.sessions@.last().metadata,
                session_id,
                "graph_node_run"@,
                *now,
            )
            &&& final(store).identity.sessions@.last().agent_instance_id
                == expected.agent_instance_id
            &&& final(store).identity.sessions@.last().project_id == expected.project_id
            &&& final(store).grants@ == old(store).grants@
            &&& final(store).claims@ == old(store).claims@
            &&& final(store).outputs@ == old(store).outputs@
            &&& final(store).m3@ == old(store).m3@
        },
        findings.begun is Err ==> r is Err,
{
    let s = old(store)@;
    if r is Ok {
        let t = begin_target(s, id, c, Some(expected@))->Ok_0;
        assert(t.binding == expected@);
        assert(final(store)@.identity.sessions == final(store).identity.sessions@);
        if crate::staging::needs_approval(t.binding) {
            let middle = choose|middle: StoreView| #[trigger]
                staged_begin_steps(
                    r,
                    s,
                    middle,
                    final(store)@,
                    id,
                    c,
                    session_id,
                    run_id,
                    t,
                    findings,
                    request,
                    *f,
                    *now,
                );
            assert(final(store)@.plans == middle.plans);
        }
    }
}

/// A run whose launch selects a credential waits for approval and has not begun:
/// its request is recorded undecided and its launch is staged. Any other run
/// begins at once, and no launch is staged for it.
#[verifier::rlimit(30)]
pub proof fn law_credential_runs_wait_for_approval(
    store: &mut Store,
    id: Uid,
    c: BeginGraphNodeRunCommand,
    expected: &ProviderRunBinding,
    session_id: Uid,
    run_id: Uid,
    findings: BeginFindings,
    request: Result<ApprovalRequest, ApprovalError>,
    f: &StagedFindings,
    now: &Moment,
    r: Result<BeginGraphNodeRunReceipt, StoreError>,
)
    requires
        call_ensures(
            Store::begin_provider_graph_node_run,
            (store, id, c, expected, session_id, run_id, findings, request, f, now),
            r,
        ),
        r is Ok,
    ensures
        one_more(old(store).identity.runs@, final(store).identity.runs@),
        ({
            let run = final(store).identity.runs@.last();
            &&& entered_now(run.metadata, run_id, "graph_node_run"@, *now)
            &&& run.session_id == session_id
            &&& run.model_id == expected.model_id
            &&& run.finished_at is None
            &&& has_credential(*expected) ==> run.state == NormalizedRunState::AwaitingApproval
                && run.started_at is None
            &&& !has_credential(*expected) ==> run.state == NormalizedRunState::Starting
                && run.started_at is Some && run.started_at->0@ == now.text@
        }),
        has_credential(*expected) ==> {
            &&& request is Ok
            &&& one_more(old(store).approvals@, final(store).approvals@)
            &&& final(store).approvals@.last().request == request->Ok_0
            &&& final(store).approvals@.last().decision is None
            &&& one_more(old(store).staged@, final(store).staged@)
            &&& final(store).staged@.last().run_id == run_id
            &&& final(store).staged@.last().request_id == request->Ok_0.id
            &&& final(store).staged@.last().state == StagedLaunchState::AwaitingApproval
            &&& final(store).staged@.last().staged_at_ms == now.ms
            &&& final(store).events@.len() == old(store).events@.len() + 2
            &&& final(store).events@.last().event_type@ == "provider_launch.staged"@
        },
        !has_credential(*expected) ==> {
            &&& final(store).approvals@ == old(store).approvals@
            &&& final(store).staged@ == old(store).staged@
            &&& final(store).events@.len() == old(store).events@.len() + 1
            &&& final(store).events@.last().event_type@ == "graph.node_run_started"@
        },
{
    let s = old(store)@;
    let t = begin_target(s, id, c, Some(expected@))->Ok_0;
    assert(t.binding == expected@);
    assert(final(store)@.identity.runs == final(store).identity.runs@);
    assert(expected@.launch_identity == expected.launch_identity@);
    if crate::staging::needs_approval(t.binding) {
        let middle = choose|middle: StoreView| #[trigger]
            staged_begin_steps(
                r,
                s,
                middle,
                final(store)@,
                id,
                c,
                session_id,
                run_id,
                t,
                findings,
                request,
                *f,
                *now,
            );
        assert(final(store)@.identity == middle.identity);
        assert(final(store)@.staged.drop_last() == s.staged);
        assert(final(store)@.approvals.drop_last() == s.approvals);
    }
}

} // verus!

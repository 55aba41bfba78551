use crate::approval::{ActionView, ApprovalAction, ApprovalRequest, ApprovalRow};
use crate::approvals::{hash_known, is_hash_known, requested_payload};
use crate::begin::{
    begin_outcome, begin_receipt, begin_refusal, begin_target, entered, BeginFindings, BeginTarget,
};
use crate::binding::{ProviderRunBinding, RunBindingView};
use crate::cancel::{find_request, request_position};
use crate::error::{ApprovalError, Refusal, StoreError};
use crate::identity::{Moment, ScopedPolicy};
use crate::json::{fields, json_string, json_uid, object, Payload};
use crate::launch::{plan_hash, ProviderLaunchPlan};
use crate::protocol::{BeginGraphNodeRunCommand, BeginGraphNodeRunReceipt, StagedLaunchState};
use crate::staged::{
    approval_action, plan_action, role_policy, staged_refusal, StagedFindings, APPROVAL_TTL_MS,
};
use crate::store::{
    constraint_failed, journal_room, journaled, next_sequence, out_of_range, StagedRow, Store,
    StoreView, MAX_STORED,
};
use crate::uid::{find, position, ApprovalRequestId, GraphRunId, RunId, SessionId};
use vstd::prelude::*;

verus! {

/// What the approval rules are to be asked when a launch is staged: for a
/// request with this action, under this policy, that expires at this time.
#[derive(Debug)]
pub struct StagingDraft {
    pub action: ApprovalAction,
    pub policy: ScopedPolicy,
    pub expires_at_ms: u64,
}

pub ghost struct DraftView {
    pub action: ActionView,
    pub policy: ScopedPolicy,
    pub expires_at_ms: u64,
}

impl View for StagingDraft {
    type V = DraftView;

    open spec fn view(&self) -> DraftView {
        DraftView {
            action: self.action@,
            policy: self.policy,
            expires_at_ms: self.expires_at_ms,
        }
    }
}

/// The request that a staged launch calls for; or why there can be none.
pub open spec fn staging_draft(s: StoreView, run_id: RunId, f: StagedFindings, now: Moment) -> Result<
    DraftView,
    Refusal,
> {
    if f.catalog_fault is Some {
        Err(Refusal::InvalidCatalog(f.catalog_fault->0))
    } else if find(s.identity.runs, run_id) is None {
        Err(Refusal::RunNotFound)
    } else {
        match find(s.plans, run_id) {
            None => Err(Refusal::InvalidRunState("launch plan unavailable"@)),
            Some(p) => match plan_action(s.plans[p].plan) {
                Err(refusal) => Err(refusal),
                Ok(action) => match role_policy(s.identity, s.plans[p].plan) {
                    Err(refusal) => Err(refusal),
                    Ok(policy) => if now.ms + APPROVAL_TTL_MS > MAX_STORED {
                        Err(Refusal::CredentialGrantRejected)
                    } else {
                        Ok(
                            DraftView {
                                action,
                                policy,
                                expires_at_ms: (now.ms + APPROVAL_TTL_MS) as u64,
                            },
                        )
                    },
                },
            },
        }
    }
}

/// The tables with the request and the ledger row of a staged launch added.
pub open spec fn with_staged_rows(s: StoreView, run_id: RunId, request: ApprovalRequest, now: Moment) -> StoreView {
    StoreView {
        approvals: s.approvals.push(ApprovalRow { request, decision: None }),
        staged: s.staged.push(
            StagedRow {
                run_id,
                request_id: request.id,
                state: StagedLaunchState::AwaitingApproval,
                staged_at_ms: now.ms,
                finished_at_ms: None,
                cancel_reason: None,
            },
        ),
        ..s
    }
}

/// Why a launch cannot be staged.
pub open spec fn stage_refusal(
    s: StoreView,
    run_id: RunId,
    request: Result<ApprovalRequest, ApprovalError>,
    f: StagedFindings,
    now: Moment,
) -> Option<Refusal> {
    match staging_draft(s, run_id, f, now) {
        Err(refusal) => Some(refusal),
        Ok(_) => match request {
            Err(error) => Some(Refusal::InvalidApproval(error)),
            Ok(request) => {
                let run = s.identity.runs[find(s.identity.runs, run_id)->0];
                let context = staged_refusal(
                    with_staged_rows(s, run_id, request, now),
                    run,
                    false,
                    true,
                    f,
                );
                if f.authority_fault is Some {
                    Some(Refusal::InvalidApproval(f.authority_fault->0))
                } else if request.expires_at_ms > MAX_STORED || find(s.approvals, request.id)
                    is Some || hash_known(s.approvals, request.request_hash@) || find(
                    s.staged,
                    run_id,
                ) is Some || find_request(s.staged, request.id, 0) is Some {
                    Some(Refusal::Database)
                } else if context is Some {
                    context
                } else if !journal_room(s.events, 2) {
                    Some(Refusal::Database)
                } else {
                    None
                }
            },
        },
    }
}

pub open spec fn staged_payload(plan: ProviderLaunchPlan, request_id: ApprovalRequestId) -> Seq<char> {
    object(
        fields().push(("execution_id"@, json_uid(plan.execution_id))).push(
            ("node_id"@, json_uid(plan.node_id)),
        ).push(("plan_hash"@, json_string(plan_hash(plan)))).push(
            ("request_id"@, json_uid(request_id)),
        ).push(("run_id"@, json_uid(plan.run_id))),
    )
}

/// What the staging of a launch changes, and nothing else.
pub open spec fn launch_staged(
    pre: StoreView,
    post: StoreView,
    run_id: RunId,
    request: ApprovalRequest,
    now: Moment,
) -> bool {
    let middle = post.events.drop_last();
    let plan = pre.plans[find(pre.plans, run_id)->0].plan;
    &&& journaled(pre.events, middle, "approval.requested"@, requested_payload(request), now)
    &&& journaled(
        middle,
        post.events,
        "provider_launch.staged"@,
        staged_payload(plan, request.id),
        now,
    )
    &&& post =~= StoreView {
        events: post.events,
        ..with_staged_rows(pre, run_id, request, now)
    }
}

/// A launch that uses a credential, and so has to be staged.
pub open spec fn needs_approval(binding: RunBindingView) -> bool {
    binding.launch_identity.account is Some && binding.launch_identity.account->0.credential
        is Some
}

impl ProviderRunBinding {
    pub fn needs_approval(&self) -> (r: bool)
        ensures
            r == needs_approval(self@),
    {
        match &self.launch_identity.account {
            Some(account) => account.credential.is_some(),
            None => false,
        }
    }
}

/// The outcome of a provider launch that has to be staged: a refusal, with the
/// state as it was; or the run entered as waiting, and its launch staged.
pub open spec fn staged_begin_outcome(
    r: Result<BeginGraphNodeRunReceipt, StoreError>,
    before: StoreView,
    after: StoreView,
    id: GraphRunId,
    c: BeginGraphNodeRunCommand,
    session_id: SessionId,
    run_id: RunId,
    t: BeginTarget,
    findings: BeginFindings,
    request: Result<ApprovalRequest, ApprovalError>,
    f: StagedFindings,
    now: Moment,
) -> bool {
    match begin_refusal(before, id, c, session_id, run_id, findings) {
        Some(refusal) => r is Err && r->Err_0@ == refusal && after == before,
        None => exists|middle: StoreView| #[trigger]
            staged_begin_steps(
                r,
                before,
                middle,
                after,
                id,
                c,
                session_id,
                run_id,
                t,
                findings,
                request,
                f,
                now,
            ),
    }
}

/// The two steps of a staged provider launch. Where the second is refused, the
/// first is undone.
pub open spec fn staged_begin_steps(
    r: Result<BeginGraphNodeRunReceipt, StoreError>,
    before: StoreView,
    middle: StoreView,
    after: StoreView,
    id: GraphRunId,
    c: BeginGraphNodeRunCommand,
    session_id: SessionId,
    run_id: RunId,
    t: BeginTarget,
    findings: BeginFindings,
    request: Result<ApprovalRequest, ApprovalError>,
    f: StagedFindings,
    now: Moment,
) -> bool {
    let graph = findings.begun->Ok_0;
    &&& entered(before, middle, id, c, session_id, run_id, t, graph, true, now)
    &&& middle.events == before.events
    &&& match stage_refusal(middle, run_id, request, f, now) {
        Some(refusal) => r is Err && r->Err_0@ == refusal && after == before,
        None => {
            &&& r is Ok
            &&& begin_receipt(r->Ok_0, before, id, c, session_id, run_id, t, graph)
            &&& r->Ok_0.event_sequence == next_sequence(before.events) + 1
            &&& launch_staged(middle, after, run_id, request->Ok_0, now)
        },
    }
}

impl Store {
    /// Works out the request that a staged launch calls for.
    pub fn draft_staging(&self, run_id: RunId, f: &StagedFindings, now: &Moment) -> (r: Result<
        StagingDraft,
        StoreError,
    >)
        ensures
            match r {
                Ok(draft) => staging_draft(self@, run_id, *f, *now) == Ok::<_, Refusal>(draft@),
                Err(error) => staging_draft(self@, run_id, *f, *now) == Err::<DraftView, _>(
                    error@,
                ),
            },
    {
        if let Some(fault) = &f.catalog_fault {
            return Err(StoreError::InvalidCatalog(fault.copy()));
        }
        if position(&self.identity.runs, run_id).is_none() {
            return Err(StoreError::RunNotFound);
        }
        let plan = match position(&self.plans, run_id) {
            None => {
                return Err(StoreError::InvalidRunState("launch plan unavailable".to_owned()));
            },
            Some(p) => &self.plans[p].plan,
        };
        let action = match approval_action(plan) {
            Ok(action) => action,
            Err(error) => {
                return Err(error);
            },
        };
        let policy = match self.current_role_policy(plan) {
            Ok(policy) => policy,
            Err(error) => {
                return Err(error);
            },
        };
        if now.ms > MAX_STORED - APPROVAL_TTL_MS {
            return Err(StoreError::CredentialGrantRejected);
        }
        Ok(StagingDraft { action, policy, expires_at_ms: now.ms + APPROVAL_TTL_MS })
    }

    /// Creates the daemon-owned credential approval for a launch whose run,
    /// graph state, attempt and plan have been entered.
    pub fn stage(
        &mut self,
        run_id: RunId,
        request: Result<ApprovalRequest, ApprovalError>,
        f: &StagedFindings,
        now: &Moment,
    ) -> (r: Result<u64, StoreError>)
        ensures
            match stage_refusal(old(self)@, run_id, request, *f, *now) {
                Some(refusal) => r is Err && r->Err_0@ == refusal && final(self)@ == old(self)@,
                None => {
                    &&& r == Ok::<_, StoreError>((next_sequence(old(self)@.events) + 1) as u64)
                    &&& launch_staged(
                        old(self)@,
                        final(self)@,
                        run_id,
                        request->Ok_0,
                        *now,
                    )
                },
            },
    {
        match self.draft_staging(run_id, f, now) {
            Ok(_) => {},
            Err(error) => {
                return Err(error);
            },
        }
        let request = match request {
            Ok(request) => request,
            Err(error) => {
                return Err(StoreError::InvalidApproval(error));
            },
        };
        if let Some(fault) = &f.authority_fault {
            return Err(StoreError::InvalidApproval(fault.copy()));
        }
        if request.expires_at_ms > MAX_STORED || position(&self.approvals, request.id).is_some()
            || is_hash_known(&self.approvals, &request.request_hash) || position(
            &self.staged,
            run_id,
        ).is_some() || request_position(&self.staged, request.id).is_some() {
            return Err(constraint_failed());
        }
        let run = match position(&self.identity.runs, run_id) {
            None => {
                return Err(StoreError::RunNotFound);
            },
            Some(i) => i,
        };
        let p = match position(&self.plans, run_id) {
            None => {
                return Err(StoreError::InvalidRunState("launch plan unavailable".to_owned()));
            },
            Some(p) => p,
        };
        let request_id = request.id;
        let requested = Payload::new().uid("request_id", request_id).string(
            "risk",
            request.action.risk.as_str(),
        ).finish();
        let plan = &self.plans[p].plan;
        let staged = Payload::new().uid("execution_id", plan.execution_id).uid(
            "node_id",
            plan.node_id,
        ).string("plan_hash", plan.hash().as_str()).uid("request_id", request_id).uid(
            "run_id",
            plan.run_id,
        ).finish();
        let ghost entered_request = request;
        self.approvals.push(ApprovalRow { request, decision: None });
        self.staged.push(
            StagedRow {
                run_id,
                request_id,
                state: StagedLaunchState::AwaitingApproval,
                staged_at_ms: now.ms,
                finished_at_ms: None,
                cancel_reason: None,
            },
        );
        assert(self@ =~= with_staged_rows(old(self)@, run_id, entered_request, *now));
        let sound = self.validate_staged_context(&self.identity.runs[run], false, true, f);
        let room = self.has_journal_room(2);
        if sound.is_err() || !room {
            self.approvals.pop();
            self.staged.pop();
            assert(self@ =~= old(self)@);
            return match sound {
                Err(error) => Err(error),
                Ok(_) => Err(out_of_range()),
            };
        }
        self.insert_event("approval.requested", requested, now);
        let ghost middle = self@.events;
        let sequence = self.insert_event("provider_launch.staged", staged, now);
        assert(self@.events.drop_last() == middle);
        Ok(sequence)
    }

    /// Starts a run that a provider is to work on, on the binding that the launch
    /// was decided on. A run that needs a credential is entered as waiting, and
    /// its launch is staged for approval.
    #[verifier::rlimit(60)]
    pub fn begin_provider_graph_node_run(
        &mut self,
        id: GraphRunId,
        command: BeginGraphNodeRunCommand,
        expected: &ProviderRunBinding,
        session_id: SessionId,
        run_id: RunId,
        findings: BeginFindings,
        request: Result<ApprovalRequest, ApprovalError>,
        f: &StagedFindings,
        now: &Moment,
    ) -> (r: Result<BeginGraphNodeRunReceipt, StoreError>)
        ensures
            match begin_target(old(self)@, id, command, Some(expected@)) {
                Err(refusal) => r is Err && r->Err_0@ == refusal && *final(self) == *old(self),
                Ok(t) => if needs_approval(t.binding) {
                    staged_begin_outcome(
                        r,
                        old(self)@,
                        final(self)@,
                        id,
                        command,
                        session_id,
                        run_id,
                        t,
                        findings,
                        request,
                        *f,
                        *now,
                    )
                } else {
                    begin_outcome(
                        r,
                        *old(self),
                        *final(self),
                        id,
                        command,
                        Some(expected@),
                        session_id,
                        run_id,
                        findings,
                        *now,
                    )
                },
            },
    {
        let (graph, binding) = match self.plan_begin(id, &command, Some(expected)) {
            Ok(found) => found,
            Err(error) => {
                return Err(error);
            },
        };
        if !binding.needs_approval() {
            return self.begin_graph_node_run_inner(
                id,
                command,
                Some(expected),
                session_id,
                run_id,
                findings,
                now,
            );
        }
        let ghost t = BeginTarget { graph: graph as int, binding: binding@ };
        let ghost before = self@;
        let revision = self.identity_revision;
        let (mut receipt, mut row) = match self.enter_run(
            id,
            &command,
            session_id,
            run_id,
            graph,
            binding,
            findings,
            true,
            now,
        ) {
            Ok(entry) => entry,
            Err(error) => {
                return Err(error);
            },
        };
        let ghost middle = self@;
        match self.stage(run_id, request, f, now) {
            Ok(sequence) => {
                receipt.event_sequence = sequence;
                assert(staged_begin_steps(
                    Ok::<_, StoreError>(receipt),
                    before,
                    middle,
                    self@,
                    id,
                    command,
                    session_id,
                    run_id,
                    t,
                    findings,
                    request,
                    *f,
                    *now,
                ));
                Ok(receipt)
            },
            Err(error) => {
                self.identity_revision = revision;
                self.identity.sessions.pop();
                self.identity.runs.pop();
                core::mem::swap(&mut self.graphs[graph], &mut row);
                self.node_runs.pop();
                self.plans.pop();
                proof {
                    assert(self@ =~= before);
                    assert(staged_begin_steps(
                        Err::<BeginGraphNodeRunReceipt, _>(error),
                        before,
                        middle,
                        self@,
                        id,
                        command,
                        session_id,
                        run_id,
                        t,
                        findings,
                        request,
                        *f,
                        *now,
                    ));
                }
                Err(error)
            },
        }
    }
}

} // verus!

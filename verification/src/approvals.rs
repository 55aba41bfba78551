use crate::approval::{
    ApprovalDecision, ApprovalDecisionKind, ApprovalRequest, ApprovalRow,
};
use crate::cancel::{
    cancel_events, cancel_refusal, cancel_target, find_request, launch_cancelled,
    request_position, CancelFindings, CancelRows, CancelTarget,
};
use crate::error::{ApprovalError, CatalogError, Refusal, StoreError};
use crate::grants::{current_refusal, grant_payload, request_open, validate_time};
use crate::identity::Moment;
use crate::json::{fields, json_string, json_uid, object, Payload};
use crate::preflight::load_plan;
use crate::protocol::{
    ApprovalList, ApprovalReceipt, ApprovalRecord, CreateApprovalCommand, DecideApprovalCommand,
    StagedLaunchState, PROTOCOL_VERSION,
};
use crate::staged::{request_refusal, staged_refusal, validate_request_for_plan, StagedFindings};
use crate::store::{
    constraint_failed, journal_room, journaled, next_sequence, out_of_range, GrantRow, StagedRow,
    Store, StoreView, MAX_STORED,
};
use crate::uid::{find, position, ApprovalRequestId};
use vstd::prelude::*;

verus! {

/// Whether a request with this hash is recorded.
pub open spec fn hash_known(rows: Seq<ApprovalRow>, hash: Seq<char>) -> bool {
    exists|i: int| 0 <= i < rows.len() && #[trigger] rows[i].request.request_hash@ == hash
}

pub fn is_hash_known(rows: &Vec<ApprovalRow>, hash: &String) -> (r: bool)
    ensures
        r == hash_known(rows@, hash@),
{
    let mut i: usize = 0;
    while i < rows.len()
        invariant
            i <= rows@.len(),
            forall|j: int| 0 <= j < i ==> #[trigger] rows@[j].request.request_hash@ != hash@,
        decreases rows@.len() - i,
    {
        if rows[i].request.request_hash == *hash {
            assert(rows@[i as int].request.request_hash@ == hash@);
            return true;
        }
        i += 1;
    }
    false
}

/// What the domain rules find in the catalogs as they stand, and in a new
/// request against them.
#[derive(Debug)]
pub struct ApprovalFindings {
    pub catalog_fault: Option<CatalogError>,
    pub authority_fault: Option<ApprovalError>,
    pub m3_fault: Option<String>,
}

/// Why a request for approval is not taken.
pub open spec fn create_refusal(s: StoreView, request: ApprovalRequest, f: ApprovalFindings, now: Moment) -> Option<
    Refusal,
> {
    let current = current_refusal(
        s,
        request,
        false,
        f.catalog_fault,
        f.authority_fault,
        f.m3_fault,
    );
    let bound = request.action.scope.credential_binding is Some;
    if f.catalog_fault is Some {
        Some(Refusal::InvalidCatalog(f.catalog_fault->0))
    } else if f.authority_fault is Some {
        Some(Refusal::InvalidApproval(f.authority_fault->0))
    } else if bound && (now.ms > MAX_STORED || !request_open(request, now.ms)) {
        Some(Refusal::CredentialGrantRejected)
    } else if bound && current is Some {
        current
    } else if request.expires_at_ms > MAX_STORED {
        Some(Refusal::Database)
    } else if find(s.approvals, request.id) is Some || hash_known(
        s.approvals,
        request.request_hash@,
    ) {
        Some(Refusal::ApprovalConflict)
    } else if !journal_room(s.events, 1) {
        Some(Refusal::Database)
    } else {
        None
    }
}

pub open spec fn requested_payload(request: ApprovalRequest) -> Seq<char> {
    object(
        fields().push(("request_id"@, json_uid(request.id))).push(
            ("risk"@, json_string(request.action.risk@)),
        ),
    )
}

/// What a new request changes, and nothing else.
pub open spec fn approval_requested(pre: StoreView, post: StoreView, request: ApprovalRequest, now: Moment) -> bool {
    &&& journaled(
        pre.events,
        post.events,
        "approval.requested"@,
        requested_payload(request),
        now,
    )
    &&& post =~= StoreView {
        approvals: pre.approvals.push(ApprovalRow { request, decision: None }),
        events: post.events,
        ..pre
    }
}

/// A request as it is shown: with its decision, and with the state of the launch
/// that waits for it.
pub open spec fn shown(record: ApprovalRecord<'_>, row: ApprovalRow, staged: Seq<StagedRow>) -> bool {
    &&& record.protocol_version == PROTOCOL_VERSION
    &&& *record.request == row.request
    &&& match record.decision {
        Some(decision) => row.decision == Some(*decision),
        None => row.decision is None,
    }
    &&& record.staged_launch_state == (match find_request(staged, row.request.id, 0) {
        Some(t) => Some(staged[t].state),
        None => None,
    })
}

/// What a decision does to the launch that waits for it.
pub ghost enum DecisionEffect {
    Ordinary,
    Ready(int),
    Cancel(CancelTarget),
}

/// What a decision does to the launch that waits for it, if one does; or why
/// the decision cannot be taken.
pub open spec fn decision_effect(
    s: StoreView,
    request: ApprovalRequest,
    kind: ApprovalDecisionKind,
    f: StagedFindings,
) -> Result<DecisionEffect, Refusal> {
    match find_request(s.staged, request.id, 0) {
        None => Ok(DecisionEffect::Ordinary),
        Some(t) => if s.staged[t].state != StagedLaunchState::AwaitingApproval {
            Err(Refusal::ApprovalConflict)
        } else if f.catalog_fault is Some {
            Err(Refusal::InvalidCatalog(f.catalog_fault->0))
        } else {
            match find(s.identity.runs, s.staged[t].run_id) {
                None => Err(Refusal::RunNotFound),
                Some(i) => {
                    let context = staged_refusal(s, s.identity.runs[i], false, true, f);
                    if kind == ApprovalDecisionKind::Approve && context is Some {
                        Err(context->0)
                    } else {
                        match load_plan(s, s.staged[t].run_id) {
                            Err(refusal) => Err(refusal),
                            Ok(p) => if request_refusal(
                                s.plans[p].plan,
                                request,
                                f.request_fault,
                            ) is Some {
                                Err(
                                    request_refusal(s.plans[p].plan, request, f.request_fault)->0,
                                )
                            } else if kind == ApprovalDecisionKind::Approve {
                                Ok(DecisionEffect::Ready(t))
                            } else {
                                match cancel_target(s, request.id, "approval_denied"@, f) {
                                    Err(refusal) => Err(refusal),
                                    Ok(None) => Ok(DecisionEffect::Ordinary),
                                    Ok(Some(target)) => Ok(DecisionEffect::Cancel(target)),
                                }
                            },
                        }
                    }
                },
            }
        },
    }
}

/// What the domain rules find in a decision, in its request, in the catalogs,
/// and in the cancellation of a launch that it may deny.
#[derive(Debug)]
pub struct DecideFindings {
    pub decision_fault: Option<ApprovalError>,
    pub m3_fault: Option<String>,
    pub staged: StagedFindings,
    pub cancel: CancelFindings,
}

/// The time of a decision: for a request that binds a credential, the daemon's
/// own, since a client timestamp cannot extend or resurrect a grant.
pub open spec fn decided_at(request: ApprovalRequest, decision: ApprovalDecision, now: Moment) -> u64 {
    if request.action.scope.credential_binding is Some {
        now.ms
    } else {
        decision.decided_at_ms
    }
}

pub fn decision_time(request: &ApprovalRequest, decision: &ApprovalDecision, now: &Moment) -> (r: u64)
    ensures
        r == decided_at(*request, *decision, *now),
{
    if request.action.scope.credential_binding.is_some() {
        now.ms
    } else {
        decision.decided_at_ms
    }
}

pub open spec fn issues_grant(request: ApprovalRequest, kind: ApprovalDecisionKind) -> bool {
    request.action.scope.credential_binding is Some && kind == ApprovalDecisionKind::Approve
}

/// How many events a decision adds to the journal.
pub open spec fn decision_events(
    s: StoreView,
    request: ApprovalRequest,
    kind: ApprovalDecisionKind,
    effect: DecisionEffect,
) -> nat {
    1 + (if issues_grant(request, kind) {
        1nat
    } else {
        0nat
    }) + (match effect {
        DecisionEffect::Ordinary => 0nat,
        DecisionEffect::Ready(_) => 1nat,
        DecisionEffect::Cancel(_) => cancel_events(s, request.id),
    })
}

/// Why a decision is not taken.
pub open spec fn decide_refusal(s: StoreView, c: DecideApprovalCommand, f: DecideFindings, now: Moment) -> Option<
    Refusal,
> {
    match find(s.approvals, c.decision.request_id) {
        None => Some(Refusal::ApprovalNotFound),
        Some(a) => if s.approvals[a].decision is Some {
            Some(Refusal::ApprovalConflict)
        } else if f.staged.request_fault is Some {
            Some(Refusal::InvalidApproval(f.staged.request_fault->0))
        } else {
            let request = s.approvals[a].request;
            let bound = request.action.scope.credential_binding is Some;
            let approve = c.decision.kind == ApprovalDecisionKind::Approve;
            let current = current_refusal(
                s,
                request,
                find_request(s.staged, request.id, 0) is Some,
                f.staged.catalog_fault,
                f.staged.authority_fault,
                f.m3_fault,
            );
            if bound && approve && !c.credential_scope_acknowledged {
                Some(Refusal::CredentialGrantRejected)
            } else if bound && (now.ms > MAX_STORED || !request_open(request, now.ms)) {
                Some(Refusal::CredentialGrantRejected)
            } else if bound && approve && current is Some {
                current
            } else if f.decision_fault is Some {
                Some(Refusal::InvalidApproval(f.decision_fault->0))
            } else if issues_grant(request, c.decision.kind) && find(s.grants, request.id)
                is Some {
                Some(Refusal::Database)
            } else {
                match decision_effect(s, request, c.decision.kind, f.staged) {
                    Err(refusal) => Some(refusal),
                    Ok(effect) => decide_effect_refusal(s, c, request, effect, f, now),
                }
            }
        },
    }
}

/// Why a decision is not taken once its effect is known.
pub open spec fn decide_effect_refusal(
    s: StoreView,
    c: DecideApprovalCommand,
    request: ApprovalRequest,
    effect: DecisionEffect,
    f: DecideFindings,
    now: Moment,
) -> Option<Refusal> {
    let cancellation = match effect {
        DecisionEffect::Cancel(t) => cancel_refusal(s, request.id, t, f.cancel, now),
        _ => None,
    };
    if cancellation is Some {
        cancellation
    } else if !journal_room(s.events, decision_events(s, request, c.decision.kind, effect)) {
        Some(Refusal::Database)
    } else {
        None
    }
}

/// The state after the decision was recorded and, where it issues one, the
/// grant was issued.
pub open spec fn decision_recorded(pre: StoreView, post: StoreView, c: DecideApprovalCommand, now: Moment) -> bool {
    let a = find(pre.approvals, c.decision.request_id)->0;
    let request = pre.approvals[a].request;
    let issues = issues_grant(request, c.decision.kind);
    let decision = ApprovalDecision { decided_at_ms: decided_at(request, c.decision, now), ..c.decision };
    &&& issues ==> journaled(
        pre.events,
        post.events,
        "credential.grant_issued"@,
        grant_payload(request.id, request.action.scope.run_id),
        now,
    )
    &&& !issues ==> post.events == pre.events
    &&& post =~= StoreView {
        approvals: pre.approvals.update(
            a,
            ApprovalRow { decision: Some(decision), ..pre.approvals[a] },
        ),
        grants: if issues {
            pre.grants.push(
                GrantRow {
                    request_id: request.id,
                    issued_at_ms: decision.decided_at_ms,
                    consumed_at_ms: None,
                    revoked_at_ms: None,
                    revoked_by: None,
                },
            )
        } else {
            pre.grants
        },
        events: post.events,
        ..pre
    }
}

/// What a decision then does to the launch that waits for it, and nothing else.
pub open spec fn effect_applied(
    pre: StoreView,
    post: StoreView,
    request_id: ApprovalRequestId,
    effect: DecisionEffect,
    f: DecideFindings,
    now: Moment,
) -> bool {
    match effect {
        DecisionEffect::Ordinary => post == pre,
        DecisionEffect::Ready(t) => {
            &&& journaled(
                pre.events,
                post.events,
                "provider_launch.ready"@,
                grant_payload(request_id, Some(pre.staged[t].run_id)),
                now,
            )
            &&& post =~= StoreView {
                staged: pre.staged.update(
                    t,
                    StagedRow { state: StagedLaunchState::Ready, ..pre.staged[t] },
                ),
                events: post.events,
                ..pre
            }
        },
        DecisionEffect::Cancel(t) => launch_cancelled(
            pre,
            post,
            request_id,
            "approval_denied"@,
            t,
            f.cancel.cancelled->Ok_0,
            now,
        ),
    }
}

/// The journal entry of the decision itself.
pub open spec fn decision_journaled(pre: StoreView, post: StoreView, c: DecideApprovalCommand, now: Moment) -> bool {
    &&& journaled(
        pre.events,
        post.events,
        match c.decision.kind {
            ApprovalDecisionKind::Approve => "approval.approved"@,
            ApprovalDecisionKind::Deny => "approval.denied"@,
        },
        object(
            fields().push(("actor"@, json_string(c.decision.actor@))).push(
                ("request_id"@, json_uid(c.decision.request_id)),
            ),
        ),
        now,
    )
    &&& post =~= StoreView { events: post.events, ..pre }
}

/// The three steps of a decision, one after the other.
pub open spec fn decision_steps(
    pre: StoreView,
    recorded: StoreView,
    applied: StoreView,
    post: StoreView,
    c: DecideApprovalCommand,
    f: DecideFindings,
    now: Moment,
) -> bool {
    let request = pre.approvals[find(pre.approvals, c.decision.request_id)->0].request;
    let effect = decision_effect(pre, request, c.decision.kind, f.staged)->Ok_0;
    &&& decision_recorded(pre, recorded, c, now)
    &&& effect_applied(recorded, applied, request.id, effect, f, now)
    &&& decision_journaled(applied, post, c, now)
}

/// What a decision changes, and nothing else.
pub open spec fn decision_taken(
    pre: StoreView,
    post: StoreView,
    c: DecideApprovalCommand,
    f: DecideFindings,
    now: Moment,
) -> bool {
    exists|recorded: StoreView, applied: StoreView|
        #[trigger] decision_steps(pre, recorded, applied, post, c, f, now)
}

enum DecisionRows {
    Ordinary,
    Ready(usize),
    Cancel(CancelRows),
}

impl Store {
    pub fn create_approval(&mut self, command: CreateApprovalCommand, f: &ApprovalFindings, now: &Moment) -> (r:
        Result<ApprovalReceipt, StoreError>)
        ensures
            match create_refusal(old(self)@, command.request, *f, *now) {
                Some(refusal) => r is Err && r->Err_0@ == refusal && *final(self) == *old(self),
                None => {
                    &&& r == Ok::<_, StoreError>(
                        (ApprovalReceipt {
                            protocol_version: PROTOCOL_VERSION,
                            request_id: command.request.id,
                            event_sequence: next_sequence(old(self)@.events) as u64,
                        }),
                    )
                    &&& approval_requested(old(self)@, final(self)@, command.request, *now)
                },
            },
    {
        let request = command.request;
        if let Some(fault) = &f.catalog_fault {
            return Err(StoreError::InvalidCatalog(fault.copy()));
        }
        if let Some(fault) = &f.authority_fault {
            return Err(StoreError::InvalidApproval(fault.copy()));
        }
        if request.action.scope.credential_binding.is_some() {
            if now.ms > MAX_STORED {
                return Err(StoreError::CredentialGrantRejected);
            }
            match validate_time(&request, now.ms) {
                Ok(_) => {},
                Err(error) => {
                    return Err(error);
                },
            }
            match self.validate_current_catalog(
                &request,
                false,
                &f.catalog_fault,
                &f.authority_fault,
                &f.m3_fault,
            ) {
                Ok(_) => {},
                Err(error) => {
                    return Err(error);
                },
            }
        }
        if request.expires_at_ms > MAX_STORED {
            return Err(out_of_range());
        }
        if position(&self.approvals, request.id).is_some() || is_hash_known(
            &self.approvals,
            &request.request_hash,
        ) {
            return Err(StoreError::ApprovalConflict);
        }
        if !self.has_journal_room(1) {
            return Err(out_of_range());
        }
        let request_id = request.id;
        let payload = Payload::new().uid("request_id", request_id).string(
            "risk",
            request.action.risk.as_str(),
        ).finish();
        let event_sequence = self.insert_event("approval.requested", payload, now);
        self.approvals.push(ApprovalRow { request, decision: None });
        Ok(ApprovalReceipt { protocol_version: PROTOCOL_VERSION, request_id, event_sequence })
    }

    fn show(&self, a: usize) -> (r: ApprovalRecord<'_>)
        requires
            a < self.approvals.len(),
        ensures
            shown(r, self@.approvals[a as int], self@.staged),
    {
        let row = &self.approvals[a];
        ApprovalRecord {
            protocol_version: PROTOCOL_VERSION,
            request: &row.request,
            decision: match &row.decision {
                Some(decision) => Some(decision),
                None => None,
            },
            staged_launch_state: match request_position(&self.staged, row.request.id) {
                Some(t) => Some(self.staged[t].state),
                None => None,
            },
        }
    }

    pub fn approval(&self, request_id: ApprovalRequestId) -> (r: Result<
        ApprovalRecord<'_>,
        StoreError,
    >)
        ensures
            match find(self@.approvals, request_id) {
                None => r is Err && r->Err_0@ == Refusal::ApprovalNotFound,
                Some(a) => r is Ok && shown(r->Ok_0, self@.approvals[a], self@.staged),
            },
    {
        match position(&self.approvals, request_id) {
            None => Err(StoreError::ApprovalNotFound),
            Some(a) => Ok(self.show(a)),
        }
    }

    /// All requests, the latest first.
    pub fn approvals(&self) -> (r: ApprovalList<'_>)
        ensures
            r.protocol_version == PROTOCOL_VERSION,
            r.records@.len() == self@.approvals.len(),
            forall|i: int|
                0 <= i < r.records@.len() ==> shown(
                    #[trigger] r.records@[i],
                    self@.approvals[self@.approvals.len() - 1 - i],
                    self@.staged,
                ),
    {
        let mut records: Vec<ApprovalRecord<'_>> = Vec::new();
        let mut left: usize = self.approvals.len();
        while left > 0
            invariant
                left <= self@.approvals.len(),
                records@.len() == self@.approvals.len() - left,
                forall|i: int|
                    0 <= i < records@.len() ==> shown(
                        #[trigger] records@[i],
                        self@.approvals[self@.approvals.len() - 1 - i],
                        self@.staged,
                    ),
            decreases left,
        {
            left -= 1;
            records.push(self.show(left));
        }
        ApprovalList { protocol_version: PROTOCOL_VERSION, records }
    }

    fn on_decision(&self, request: &ApprovalRequest, kind: ApprovalDecisionKind, f: &StagedFindings) -> (r:
        Result<DecisionRows, StoreError>)
        ensures
            match r {
                Err(error) => decision_effect(self@, *request, kind, *f) == Err::<
                    DecisionEffect,
                    _,
                >(error@),
                Ok(rows) => decision_rows(rows, *self, *request, kind, *f),
            },
    {
        let t = match request_position(&self.staged, request.id) {
            None => {
                return Ok(DecisionRows::Ordinary);
            },
            Some(t) => t,
        };
        if self.staged[t].state != StagedLaunchState::AwaitingApproval {
            return Err(StoreError::ApprovalConflict);
        }
        if let Some(fault) = &f.catalog_fault {
            return Err(StoreError::InvalidCatalog(fault.copy()));
        }
        let run_id = self.staged[t].run_id;
        let run = match position(&self.identity.runs, run_id) {
            None => {
                return Err(StoreError::RunNotFound);
            },
            Some(i) => &self.identity.runs[i],
        };
        if kind == ApprovalDecisionKind::Approve {
            match self.validate_staged_context(run, false, true, f) {
                Ok(_) => {},
                Err(error) => {
                    return Err(error);
                },
            }
        }
        let plan = match self.load_launch_plan(run_id) {
            Ok(plan) => plan,
            Err(error) => {
                return Err(error);
            },
        };
        match validate_request_for_plan(plan, request, &f.request_fault) {
            Ok(_) => {},
            Err(error) => {
                return Err(error);
            },
        }
        if kind == ApprovalDecisionKind::Approve {
            return Ok(DecisionRows::Ready(t));
        }
        match self.find_cancellation(request.id, "approval_denied", f) {
            Err(error) => Err(error),
            Ok(None) => Ok(DecisionRows::Ordinary),
            Ok(Some(rows)) => Ok(DecisionRows::Cancel(rows)),
        }
    }

    /// Checks everything that a decision depends on, against the state as it
    /// stands.
    fn check_decision(&self, command: &DecideApprovalCommand, f: &DecideFindings, now: &Moment) -> (r:
        Result<(usize, DecisionRows), StoreError>)
        ensures
            match r {
                Err(error) => decide_refusal(self@, *command, *f, *now) == Some(error@),
                Ok((a, rows)) => {
                    let request = self@.approvals[a as int].request;
                    &&& find(self@.approvals, command.decision.request_id) == Some(a as int)
                    &&& a < self.approvals.len()
                    &&& request.id == command.decision.request_id
                    &&& issues_grant(request, command.decision.kind) ==> now.ms <= MAX_STORED
                    &&& decision_rows(rows, *self, request, command.decision.kind, f.staged)
                    &&& decide_refusal(self@, *command, *f, *now) == decide_effect_refusal(
                        self@,
                        *command,
                        request,
                        decision_effect(self@, request, command.decision.kind, f.staged)->Ok_0,
                        *f,
                        *now,
                    )
                },
            },
    {
        let a = match position(&self.approvals, command.decision.request_id) {
            None => {
                return Err(StoreError::ApprovalNotFound);
            },
            Some(a) => a,
        };
        if self.approvals[a].decision.is_some() {
            return Err(StoreError::ApprovalConflict);
        }
        if let Some(fault) = &f.staged.request_fault {
            return Err(StoreError::InvalidApproval(fault.copy()));
        }
        let request = &self.approvals[a].request;
        let approve = command.decision.kind == ApprovalDecisionKind::Approve;
        if request.action.scope.credential_binding.is_some() {
            if approve && !command.credential_scope_acknowledged {
                return Err(StoreError::CredentialGrantRejected);
            }
            if now.ms > MAX_STORED {
                return Err(StoreError::CredentialGrantRejected);
            }
            match validate_time(request, now.ms) {
                Ok(_) => {},
                Err(error) => {
                    return Err(error);
                },
            }
            if approve {
                let staged = request_position(&self.staged, request.id).is_some();
                match self.validate_current_catalog(
                    request,
                    staged,
                    &f.staged.catalog_fault,
                    &f.staged.authority_fault,
                    &f.m3_fault,
                ) {
                    Ok(_) => {},
                    Err(error) => {
                        return Err(error);
                    },
                }
            }
        }
        if let Some(fault) = &f.decision_fault {
            return Err(StoreError::InvalidApproval(fault.copy()));
        }
        if request.action.scope.credential_binding.is_some() && approve && position(
            &self.grants,
            request.id,
        ).is_some() {
            return Err(constraint_failed());
        }
        match self.on_decision(request, command.decision.kind, &f.staged) {
            Ok(rows) => Ok((a, rows)),
            Err(error) => Err(error),
        }
    }

    /// Takes a decision on a request: records it, issues the grant that it may
    /// give, and lets the launch that waits for it go ahead or cancels it.
    #[verifier::rlimit(80)]
    pub fn decide_approval(&mut self, command: DecideApprovalCommand, f: DecideFindings, now: &Moment) -> (r:
        Result<ApprovalReceipt, StoreError>)
        ensures
            match decide_refusal(old(self)@, command, f, *now) {
                Some(refusal) => r is Err && r->Err_0@ == refusal && *final(self) == *old(self),
                None => {
                    &&& r is Ok
                    &&& r->Ok_0.protocol_version == PROTOCOL_VERSION
                    &&& r->Ok_0.request_id == command.decision.request_id
                    &&& final(self)@.events.len() > 0
                    &&& r->Ok_0.event_sequence == final(self)@.events.last().sequence
                    &&& decision_taken(old(self)@, final(self)@, command, f, *now)
                },
            },
    {
        let (a, rows) = match self.check_decision(&command, &f, now) {
            Ok(found) => found,
            Err(error) => {
                return Err(error);
            },
        };
        let ghost pre = self@;
        let ghost request = pre.approvals[a as int].request;
        let ghost effect = decision_effect(pre, request, command.decision.kind, f.staged)->Ok_0;
        let request_id = command.decision.request_id;
        let kind = command.decision.kind;
        let bound = self.approvals[a].request.action.scope.credential_binding.is_some();
        let run_id = self.approvals[a].request.action.scope.run_id;
        let issues = bound && kind == ApprovalDecisionKind::Approve;
        let mut events: u64 = if issues {
            2
        } else {
            1
        };
        let mut cancelled = None;
        match &rows {
            DecisionRows::Ordinary => {},
            DecisionRows::Ready(_) => {
                events = events + 1;
            },
            DecisionRows::Cancel(rows) => {
                events = events + if self.unspent_grant_position(request_id).is_some() {
                    2
                } else {
                    1
                };
                match self.check_cancellation(request_id, rows, f.cancel, now) {
                    Ok(graph) => {
                        cancelled = Some(graph);
                    },
                    Err(error) => {
                        return Err(error);
                    },
                }
            },
        }
        assert(events == decision_events(pre, request, kind, effect));
        if !self.has_journal_room(events) {
            return Err(out_of_range());
        }
        let mut decision = command.decision;
        let payload = Payload::new().string("actor", decision.actor.as_str()).uid(
            "request_id",
            request_id,
        ).finish();
        if bound {
            decision.decided_at_ms = now.ms;
        }
        if issues {
            let payload = Payload::new().uid("request_id", request_id).uid_option(
                "run_id",
                run_id,
            ).finish();
            self.insert_event("credential.grant_issued", payload, now);
            self.grants.push(
                GrantRow {
                    request_id,
                    issued_at_ms: decision.decided_at_ms,
                    consumed_at_ms: None,
                    revoked_at_ms: None,
                    revoked_by: None,
                },
            );
        }
        self.approvals[a].decision = Some(decision);
        let ghost recorded = self@;
        assert(decision_recorded(pre, recorded, command, *now));
        match &rows {
            DecisionRows::Ordinary => {},
            DecisionRows::Ready(t) => {
                let payload = Payload::new().uid("request_id", request_id).uid_option(
                    "run_id",
                    Some(self.staged[*t].run_id),
                ).finish();
                self.insert_event("provider_launch.ready", payload, now);
                self.staged[*t].state = StagedLaunchState::Ready;
            },
            DecisionRows::Cancel(rows) => {
                if let Some(graph) = cancelled {
                    self.apply_cancellation(request_id, "approval_denied", rows, graph, now);
                }
            },
        }
        let ghost applied = self@;
        assert(effect_applied(recorded, applied, request_id, effect, f, *now));
        let event_sequence = self.insert_event(
            match kind {
                ApprovalDecisionKind::Approve => "approval.approved",
                ApprovalDecisionKind::Deny => "approval.denied",
            },
            payload,
            now,
        );
        assert(decision_steps(pre, recorded, applied, self@, command, f, *now));
        Ok(ApprovalReceipt { protocol_version: PROTOCOL_VERSION, request_id, event_sequence })
    }
}

spec fn decision_rows(
    rows: DecisionRows,
    s: Store,
    request: ApprovalRequest,
    kind: ApprovalDecisionKind,
    f: StagedFindings,
) -> bool {
    let effect = decision_effect(s@, request, kind, f);
    &&& effect is Ok
    &&& match rows {
        DecisionRows::Ordinary => effect->Ok_0 == DecisionEffect::Ordinary,
        DecisionRows::Ready(t) => t < s.staged.len() && effect->Ok_0 == DecisionEffect::Ready(
            t as int,
        ),
        DecisionRows::Cancel(rows) => {
            &&& effect->Ok_0 == DecisionEffect::Cancel(rows@)
            &&& rows.staged < s.staged.len()
            &&& rows.run < s.identity.runs.len()
            &&& rows.plan < s.plans.len()
            &&& rows.graph < s.graphs.len()
            &&& rows.attempt < s.node_runs.len()
        },
    }
}

} // verus!

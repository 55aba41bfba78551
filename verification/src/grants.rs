//! Durable metadata-only authorization. Native secret access must happen only
//! after successful consumption inside a trusted broker, never from an HTTP
//! caller. Nothing here authenticates a provider or enables execution on a
//! selected account by itself.
use crate::approval::{ApprovalAction, ApprovalDecisionKind, ApprovalRequest, ApprovalRow};
use crate::cancel::{cancel_refusal, cancel_target, launch_cancelled, CancelFindings};
use crate::error::{ApprovalError, CatalogError, Refusal, StoreError};
use crate::graph::GraphNodeState;
use crate::identity::{EntityLifecycle, Moment, NormalizedRunState};
use crate::json::{fields, json_uid, json_uid_option, object, Payload};
use crate::m3::PetAssignment;
use crate::protocol::{CredentialGrantRecord, RevokeCredentialGrantCommand, PROTOCOL_VERSION};
use crate::staged::StagedFindings;
use crate::store::{
    constraint_failed, journal_room, journaled, out_of_range, GrantRow, Store, StoreView,
    MAX_STORED,
};
use crate::text::{blank, is_blank, same_text};
use crate::uid::{find, position, AgentInstanceId, ApprovalRequestId, ProjectId, RoleId, RunId};
use vstd::prelude::*;
use vstd::string::*;
use vstd::utf8::encode_utf8;

verus! {

/// The time that a clock reading stands for, in milliseconds since the epoch;
/// nothing is granted by a clock that stands before the epoch or beyond what
/// the store can hold.
pub fn now_ms(reading: Option<u128>) -> (r: Result<u64, StoreError>)
    ensures
        match r {
            Ok(ms) => reading == Some(ms as u128) && ms <= MAX_STORED,
            Err(error) => error@ == Refusal::CredentialGrantRejected && (reading is None
                || reading->0 > MAX_STORED),
        },
{
    match reading {
        None => Err(StoreError::CredentialGrantRejected),
        Some(ms) => if ms <= MAX_STORED as u128 {
            Ok(ms as u64)
        } else {
            Err(StoreError::CredentialGrantRejected)
        },
    }
}

/// A request that is open at `now`: from its creation on, and before its expiry.
pub open spec fn request_open(request: ApprovalRequest, now: u64) -> bool {
    request.created_at_ms <= now < request.expires_at_ms <= MAX_STORED
}

pub fn validate_time(request: &ApprovalRequest, now: u64) -> (r: Result<(), StoreError>)
    ensures
        match r {
            Ok(_) => request_open(*request, now),
            Err(error) => !request_open(*request, now) && error@
                == Refusal::CredentialGrantRejected,
        },
{
    if now < request.created_at_ms || now >= request.expires_at_ms || request.expires_at_ms
        > MAX_STORED {
        return Err(StoreError::CredentialGrantRejected);
    }
    Ok(())
}

/// An active assignment of an agent in a project.
pub open spec fn assigned(assignment: PetAssignment, project: ProjectId, agent: AgentInstanceId) -> bool {
    &&& assignment.metadata.lifecycle == EntityLifecycle::Active
    &&& assignment.project_id == project
    &&& assignment.agent_instance_id == agent
}

/// How many of the first `n` assignments are active ones of an agent in a
/// project.
pub open spec fn assigned_count(
    assignments: Seq<PetAssignment>,
    project: ProjectId,
    agent: AgentInstanceId,
    n: nat,
) -> nat
    decreases n,
{
    if n == 0 {
        0
    } else {
        assigned_count(assignments, project, agent, (n - 1) as nat) + (if assigned(
            assignments[n - 1],
            project,
            agent,
        ) {
            1nat
        } else {
            0nat
        })
    }
}

/// Whether an agent is actively assigned a role in a project.
pub open spec fn has_role(
    assignments: Seq<PetAssignment>,
    project: ProjectId,
    agent: AgentInstanceId,
    role: RoleId,
) -> bool {
    exists|i: int|
        0 <= i < assignments.len() && #[trigger] assigned(assignments[i], project, agent)
            && assignments[i].role_id == role
}

fn count_assigned(
    assignments: &Vec<PetAssignment>,
    project: ProjectId,
    agent: AgentInstanceId,
    role: RoleId,
) -> (r: (usize, bool))
    ensures
        r.0 == assigned_count(assignments@, project, agent, assignments@.len()),
        r.1 == has_role(assignments@, project, agent, role),
{
    let mut count: usize = 0;
    let mut found = false;
    let mut i: usize = 0;
    while i < assignments.len()
        invariant
            i <= assignments@.len(),
            count <= i,
            count == assigned_count(assignments@, project, agent, i as nat),
            found == (exists|j: int|
                0 <= j < i && #[trigger] assigned(assignments@[j], project, agent)
                    && assignments@[j].role_id == role),
        decreases assignments@.len() - i,
    {
        let assignment = &assignments[i];
        let ghost before = found;
        if assignment.metadata.lifecycle == EntityLifecycle::Active && assignment.project_id
            == project && assignment.agent_instance_id == agent {
            assert(assigned(assignments@[i as int], project, agent));
            count += 1;
            if assignment.role_id == role {
                found = true;
            }
        } else {
            assert(!assigned(assignments@[i as int], project, agent));
        }
        i += 1;
    }
    (count, found)
}

/// The state that a run is in when its credential use is up for approval: an
/// ordinary run has been entered as starting, a staged one waits.
pub open spec fn run_state_for(staged: bool) -> NormalizedRunState {
    if staged {
        NormalizedRunState::AwaitingApproval
    } else {
        NormalizedRunState::Starting
    }
}

/// The state of the graph node that such a run works on.
pub open spec fn node_state_for(staged: bool) -> GraphNodeState {
    if staged {
        GraphNodeState::AwaitingApproval
    } else {
        GraphNodeState::Running
    }
}

/// Why the catalogs and the graph as they stand do not bear out a request for
/// the use of a credential.
pub open spec fn current_refusal(
    s: StoreView,
    request: ApprovalRequest,
    staged: bool,
    catalog_fault: Option<CatalogError>,
    authority_fault: Option<ApprovalError>,
    m3_fault: Option<String>,
) -> Option<Refusal> {
    let scope = request.action.scope;
    if catalog_fault is Some {
        Some(Refusal::InvalidCatalog(catalog_fault->0))
    } else if authority_fault is Some {
        Some(Refusal::InvalidApproval(authority_fault->0))
    } else if scope.run_id is None || find(s.identity.runs, scope.run_id->0) is None {
        Some(Refusal::CredentialGrantRejected)
    } else {
        let run = s.identity.runs[find(s.identity.runs, scope.run_id->0)->0];
        let agent = request.action.agent_instance_id;
        if run.state != run_state_for(staged) || run.finished_at is Some || request.action.role_id
            is None {
            Some(Refusal::CredentialGrantRejected)
        } else if m3_fault is Some {
            Some(Refusal::InvalidM3(m3_fault->0@))
        } else if !has_role(
            s.m3.pet_assignments,
            scope.project_id,
            agent,
            request.action.role_id->0,
        ) {
            Some(Refusal::CredentialGrantRejected)
        } else {
            match find(s.node_runs, scope.run_id->0) {
                Some(k) => node_refusal(
                    s,
                    k,
                    scope.run_id->0,
                    request.action.role_id->0,
                    staged,
                ),
                None => if staged || assigned_count(
                    s.m3.pet_assignments,
                    scope.project_id,
                    agent,
                    s.m3.pet_assignments.len(),
                ) != 1 {
                    Some(Refusal::CredentialGrantRejected)
                } else {
                    None
                },
            }
        }
    }
}

/// Why the graph node of a run does not bear out a request.
pub open spec fn node_refusal(s: StoreView, k: int, run_id: RunId, role_id: RoleId, staged: bool) -> Option<
    Refusal,
> {
    let row = s.node_runs[k];
    if row.finished_at is Some {
        Some(Refusal::CredentialGrantRejected)
    } else {
        match find(s.graphs, row.execution_id) {
            None => Some(Refusal::Database),
            Some(g) => {
                let execution = s.graphs[g].graph.execution;
                let definition = find(execution.graph.nodes@, row.node_id);
                let node = find(execution.nodes@, row.node_id);
                if s.graphs[g].graph.fault is Some {
                    Some(Refusal::InvalidGraph(s.graphs[g].graph.fault->0))
                } else if definition is None || node is None
                    || execution.graph.nodes@[definition->0].role_id != role_id
                    || execution.nodes@[node->0].run_id != Some(run_id)
                    || execution.nodes@[node->0].state != node_state_for(staged) {
                    Some(Refusal::CredentialGrantRejected)
                } else {
                    None
                }
            },
        }
    }
}

/// The grant on a request and the row of the request, where the grant is what
/// its request and decision say; or what is wrong with it.
pub open spec fn load_grant(
    s: StoreView,
    id: ApprovalRequestId,
    request_fault: Option<ApprovalError>,
    decision_fault: Option<ApprovalError>,
) -> Result<(int, int), Refusal> {
    match (find(s.grants, id), find(s.approvals, id)) {
        (Some(q), Some(a)) => {
            let request = s.approvals[a].request;
            match s.approvals[a].decision {
                None => Err(Refusal::CredentialGrantRejected),
                Some(decision) => if request_fault is Some {
                    Err(Refusal::InvalidApproval(request_fault->0))
                } else if decision_fault is Some {
                    Err(Refusal::InvalidApproval(decision_fault->0))
                } else if decision.kind != ApprovalDecisionKind::Approve
                    || request.action.scope.credential_binding is None || s.grants[q].issued_at_ms
                    != decision.decided_at_ms {
                    Err(Refusal::CredentialGrantRejected)
                } else {
                    Ok((q, a))
                },
            }
        },
        _ => Err(Refusal::CredentialGrantNotFound),
    }
}

/// A grant as it is shown: with its request and the decision that issued it.
pub open spec fn grant_shown(record: CredentialGrantRecord<'_>, grant: GrantRow, row: ApprovalRow) -> bool {
    &&& record.protocol_version == PROTOCOL_VERSION
    &&& *record.request == row.request
    &&& Some(*record.decision) == row.decision
    &&& record.issued_at_ms == grant.issued_at_ms
    &&& record.consumed_at_ms == grant.consumed_at_ms
    &&& record.revoked_at_ms == grant.revoked_at_ms
    &&& match record.revoked_by {
        Some(actor) => grant.revoked_by == Some(*actor),
        None => grant.revoked_by is None,
    }
}

/// A grant that can still be spent or revoked at `now`.
pub open spec fn grant_usable(grant: GrantRow, request: ApprovalRequest, now: u64) -> bool {
    &&& now <= MAX_STORED
    &&& request_open(request, now)
    &&& grant.issued_at_ms <= now
    &&& grant.consumed_at_ms is None
    &&& grant.revoked_at_ms is None
}

/// What the domain rules find in a grant's request and decision, and in the
/// catalogs as they stand.
#[derive(Debug)]
pub struct GrantFindings {
    pub request_fault: Option<ApprovalError>,
    pub decision_fault: Option<ApprovalError>,
    pub catalog_fault: Option<CatalogError>,
    pub authority_fault: Option<ApprovalError>,
    pub m3_fault: Option<String>,
}

/// Why a grant cannot be spent on an action now.
pub open spec fn consume_refusal(
    s: StoreView,
    id: ApprovalRequestId,
    action: ApprovalAction,
    f: GrantFindings,
    now: Moment,
) -> Option<Refusal> {
    match load_grant(s, id, f.request_fault, f.decision_fault) {
        Err(refusal) => Some(refusal),
        Ok((q, a)) => if !grant_usable(s.grants[q], s.approvals[a].request, now.ms)
            || s.approvals[a].request.action@ != action@ || s.lifecycle != "ready"@ {
            Some(Refusal::CredentialGrantRejected)
        } else if current_refusal(
            s,
            s.approvals[a].request,
            false,
            f.catalog_fault,
            f.authority_fault,
            f.m3_fault,
        ) is Some {
            current_refusal(
                s,
                s.approvals[a].request,
                false,
                f.catalog_fault,
                f.authority_fault,
                f.m3_fault,
            )
        } else if !journal_room(s.events, 1) {
            Some(Refusal::Database)
        } else {
            None
        },
    }
}

pub open spec fn grant_payload(id: ApprovalRequestId, run_id: Option<RunId>) -> Seq<char> {
    object(
        fields().push(("request_id"@, json_uid(id))).push(("run_id"@, json_uid_option(run_id))),
    )
}

/// What the spending of a grant changes, and nothing else.
pub open spec fn grant_consumed(pre: StoreView, post: StoreView, id: ApprovalRequestId, run_id: Option<RunId>, now: Moment) -> bool {
    let q = find(pre.grants, id)->0;
    &&& journaled(
        pre.events,
        post.events,
        "credential.grant_consumed"@,
        grant_payload(id, run_id),
        now,
    )
    &&& post =~= StoreView {
        grants: pre.grants.update(q, GrantRow { consumed_at_ms: Some(now.ms), ..pre.grants[q] }),
        events: post.events,
        ..pre
    }
}

/// The reason recorded when the revocation of its grant cancels a staged launch.
pub open spec fn revocation_reason() -> Seq<char> {
    "credential_grant_revoked"@
}

/// Why a grant cannot be revoked now.
pub open spec fn revoke_refusal(
    s: StoreView,
    id: ApprovalRequestId,
    actor: Seq<char>,
    f: StagedFindings,
    findings: CancelFindings,
    now: Moment,
) -> Option<Refusal> {
    if blank(actor) || encode_utf8(actor).len() > 200 {
        Some(Refusal::CredentialGrantRejected)
    } else {
        match load_grant(s, id, f.request_fault, f.decision_fault) {
            Err(refusal) => Some(refusal),
            Ok((q, a)) => if !grant_usable(s.grants[q], s.approvals[a].request, now.ms) {
                Some(Refusal::CredentialGrantRejected)
            } else {
                match cancel_target(s, id, revocation_reason(), f) {
                    Err(refusal) => Some(refusal),
                    Ok(None) => if journal_room(s.events, 1) {
                        None
                    } else {
                        Some(Refusal::Database)
                    },
                    Ok(Some(t)) => cancel_refusal(s, id, t, findings, now),
                }
            },
        }
    }
}

/// The state after the grant was marked as revoked and the revocation journaled.
pub open spec fn grant_revoked(pre: StoreView, post: StoreView, id: ApprovalRequestId, actor: String, now: Moment) -> bool {
    let q = find(pre.grants, id)->0;
    &&& journaled(
        pre.events,
        post.events,
        "credential.grant_revoked"@,
        object(fields().push(("request_id"@, json_uid(id)))),
        now,
    )
    &&& post =~= StoreView {
        grants: pre.grants.update(
            q,
            GrantRow { revoked_at_ms: Some(now.ms), revoked_by: Some(actor), ..pre.grants[q] },
        ),
        events: post.events,
        ..pre
    }
}

/// What the revocation of a grant changes, and nothing else: the grant, and the
/// staged launch that waited for it, where one did.
pub open spec fn revocation_done(
    pre: StoreView,
    post: StoreView,
    id: ApprovalRequestId,
    actor: String,
    f: StagedFindings,
    findings: CancelFindings,
    now: Moment,
) -> bool {
    match cancel_target(pre, id, revocation_reason(), f) {
        Ok(Some(t)) => {
            let middle = StoreView {
                grants: post.grants,
                events: post.events.drop_last(),
                ..pre
            };
            &&& grant_revoked(pre, middle, id, actor, now)
            &&& launch_cancelled(
                middle,
                post,
                id,
                revocation_reason(),
                t,
                findings.cancelled->Ok_0,
                now,
            )
        },
        _ => grant_revoked(pre, post, id, actor, now),
    }
}

impl Store {
    /// Holds a request for the use of a credential against the catalogs and the
    /// graph as they stand.
    pub fn validate_current_catalog(
        &self,
        request: &ApprovalRequest,
        staged: bool,
        catalog_fault: &Option<CatalogError>,
        authority_fault: &Option<ApprovalError>,
        m3_fault: &Option<String>,
    ) -> (r: Result<(), StoreError>)
        ensures
            match r {
                Ok(_) => current_refusal(
                    self@,
                    *request,
                    staged,
                    *catalog_fault,
                    *authority_fault,
                    *m3_fault,
                ) is None,
                Err(error) => current_refusal(
                    self@,
                    *request,
                    staged,
                    *catalog_fault,
                    *authority_fault,
                    *m3_fault,
                ) == Some(error@),
            },
    {
        if let Some(fault) = catalog_fault {
            return Err(StoreError::InvalidCatalog(fault.copy()));
        }
        if let Some(fault) = authority_fault {
            return Err(StoreError::InvalidApproval(fault.copy()));
        }
        let run_id = match request.action.scope.run_id {
            None => {
                return Err(StoreError::CredentialGrantRejected);
            },
            Some(id) => id,
        };
        let run = match position(&self.identity.runs, run_id) {
            None => {
                return Err(StoreError::CredentialGrantRejected);
            },
            Some(i) => &self.identity.runs[i],
        };
        let run_state = if staged {
            NormalizedRunState::AwaitingApproval
        } else {
            NormalizedRunState::Starting
        };
        if run.state != run_state || run.finished_at.is_some() {
            return Err(StoreError::CredentialGrantRejected);
        }
        let role_id = match request.action.role_id {
            None => {
                return Err(StoreError::CredentialGrantRejected);
            },
            Some(id) => id,
        };
        if let Some(fault) = m3_fault {
            return Err(StoreError::InvalidM3(fault.clone()));
        }
        let (count, holds_role) = count_assigned(
            &self.m3.office.pet_assignments,
            request.action.scope.project_id,
            request.action.agent_instance_id,
            role_id,
        );
        if !holds_role {
            return Err(StoreError::CredentialGrantRejected);
        }
        let attempt = match position(&self.node_runs, run_id) {
            None => {
                // A run outside a graph has no persisted role slot: several
                // available roles are ambiguous rather than the caller's choice.
                if staged || count != 1 {
                    return Err(StoreError::CredentialGrantRejected);
                }
                return Ok(());
            },
            Some(k) => &self.node_runs[k],
        };
        if attempt.finished_at.is_some() {
            return Err(StoreError::CredentialGrantRejected);
        }
        let graph = match position(&self.graphs, attempt.execution_id) {
            None => {
                return Err(constraint_failed());
            },
            Some(g) => &self.graphs[g].graph,
        };
        if let Some(fault) = &graph.fault {
            return Err(StoreError::InvalidGraph(fault.copy()));
        }
        let definition = match position(&graph.execution.graph.nodes, attempt.node_id) {
            None => {
                return Err(StoreError::CredentialGrantRejected);
            },
            Some(d) => &graph.execution.graph.nodes[d],
        };
        let node = match position(&graph.execution.nodes, attempt.node_id) {
            None => {
                return Err(StoreError::CredentialGrantRejected);
            },
            Some(n) => &graph.execution.nodes[n],
        };
        let node_state = if staged {
            GraphNodeState::AwaitingApproval
        } else {
            GraphNodeState::Running
        };
        let bound = match node.run_id {
            Some(id) => id == run_id,
            None => false,
        };
        if definition.role_id != role_id || !bound || node.state != node_state {
            return Err(StoreError::CredentialGrantRejected);
        }
        Ok(())
    }

    pub(crate) fn find_grant(
        &self,
        id: ApprovalRequestId,
        request_fault: &Option<ApprovalError>,
        decision_fault: &Option<ApprovalError>,
    ) -> (r: Result<(usize, usize), StoreError>)
        ensures
            match r {
                Ok((q, a)) => load_grant(self@, id, *request_fault, *decision_fault) == Ok::<
                    _,
                    Refusal,
                >((q as int, a as int)) && q < self.grants.len() && a < self.approvals.len()
                    && self.approvals@[a as int].decision is Some,
                Err(error) => load_grant(self@, id, *request_fault, *decision_fault) == Err::<
                    (int, int),
                    _,
                >(error@),
            },
    {
        let (q, a) = match (position(&self.grants, id), position(&self.approvals, id)) {
            (Some(q), Some(a)) => (q, a),
            _ => {
                return Err(StoreError::CredentialGrantNotFound);
            },
        };
        let decision = match &self.approvals[a].decision {
            None => {
                return Err(StoreError::CredentialGrantRejected);
            },
            Some(decision) => decision,
        };
        if let Some(fault) = request_fault {
            return Err(StoreError::InvalidApproval(fault.copy()));
        }
        if let Some(fault) = decision_fault {
            return Err(StoreError::InvalidApproval(fault.copy()));
        }
        if decision.kind != ApprovalDecisionKind::Approve
            || self.approvals[a].request.action.scope.credential_binding.is_none()
            || self.grants[q].issued_at_ms != decision.decided_at_ms {
            return Err(StoreError::CredentialGrantRejected);
        }
        Ok((q, a))
    }

    /// Read-only audit metadata; presence is not a promise of current usability.
    pub fn credential_grant(
        &self,
        id: ApprovalRequestId,
        request_fault: &Option<ApprovalError>,
        decision_fault: &Option<ApprovalError>,
    ) -> (r: Result<CredentialGrantRecord<'_>, StoreError>)
        ensures
            match load_grant(self@, id, *request_fault, *decision_fault) {
                Err(refusal) => r is Err && r->Err_0@ == refusal,
                Ok((q, a)) => r is Ok && grant_shown(
                    r->Ok_0,
                    self@.grants[q],
                    self@.approvals[a],
                ),
            },
    {
        let (q, a) = match self.find_grant(id, request_fault, decision_fault) {
            Ok(found) => found,
            Err(error) => {
                return Err(error);
            },
        };
        self.grant_record(q, a)
    }

    fn grant_record(&self, q: usize, a: usize) -> (r: Result<
        CredentialGrantRecord<'_>,
        StoreError,
    >)
        requires
            q < self.grants.len(),
            a < self.approvals.len(),
            self@.approvals[a as int].decision is Some,
        ensures
            r is Ok,
            grant_shown(r->Ok_0, self@.grants[q as int], self@.approvals[a as int]),
    {
        let decision = match &self.approvals[a].decision {
            None => {
                return Err(StoreError::CredentialGrantRejected);
            },
            Some(decision) => decision,
        };
        let row = &self.grants[q];
        Ok(
            CredentialGrantRecord {
                protocol_version: PROTOCOL_VERSION,
                request: &self.approvals[a].request,
                decision,
                issued_at_ms: row.issued_at_ms,
                consumed_at_ms: row.consumed_at_ms,
                revoked_at_ms: row.revoked_at_ms,
                revoked_by: match &row.revoked_by {
                    Some(actor) => Some(actor),
                    None => None,
                },
            },
        )
    }

    pub(crate) fn is_grant_usable(&self, q: usize, a: usize, now: u64) -> (r: bool)
        requires
            q < self.grants.len(),
            a < self.approvals.len(),
        ensures
            r == grant_usable(
                self@.grants[q as int],
                self@.approvals[a as int].request,
                now,
            ),
    {
        let row = &self.grants[q];
        now <= MAX_STORED && validate_time(&self.approvals[a].request, now).is_ok()
            && row.issued_at_ms <= now && row.consumed_at_ms.is_none()
            && row.revoked_at_ms.is_none()
    }

    /// Permanently spends an exact grant before any native credential read. The
    /// trusted caller must construct `action` from its execution context. A
    /// failed credential lookup afterwards does not refund the grant.
    pub fn consume_credential_grant(
        &mut self,
        id: ApprovalRequestId,
        action: &ApprovalAction,
        f: &GrantFindings,
        now: &Moment,
    ) -> (r: Result<CredentialGrantRecord<'_>, StoreError>)
        ensures
            match consume_refusal(old(self)@, id, *action, *f, *now) {
                Some(refusal) => r is Err && r->Err_0@ == refusal && *final(self) == *old(self),
                None => {
                    &&& r is Ok
                    &&& grant_shown(
                        r->Ok_0,
                        final(self)@.grants[find(old(self)@.grants, id)->0],
                        old(self)@.approvals[find(old(self)@.approvals, id)->0],
                    )
                    &&& grant_consumed(
                        old(self)@,
                        final(self)@,
                        id,
                        action.scope.run_id,
                        *now,
                    )
                },
            },
    {
        let (q, a) = match self.find_grant(id, &f.request_fault, &f.decision_fault) {
            Ok(found) => found,
            Err(error) => {
                return Err(error);
            },
        };
        if !self.is_grant_usable(q, a, now.ms) || !self.approvals[a].request.action.same(action)
            || !same_text(self.lifecycle.as_str(), "ready") {
            return Err(StoreError::CredentialGrantRejected);
        }
        match self.validate_current_catalog(
            &self.approvals[a].request,
            false,
            &f.catalog_fault,
            &f.authority_fault,
            &f.m3_fault,
        ) {
            Ok(_) => {},
            Err(error) => {
                return Err(error);
            },
        }
        if !self.has_journal_room(1) {
            return Err(out_of_range());
        }
        let payload = Payload::new().uid("request_id", id).uid_option(
            "run_id",
            action.scope.run_id,
        ).finish();
        self.insert_event("credential.grant_consumed", payload, now);
        self.grants[q].consumed_at_ms = Some(now.ms);
        self.grant_record(q, a)
    }

    fn mark_revoked(&mut self, id: ApprovalRequestId, q: usize, actor: String, now: &Moment)
        requires
            find(old(self)@.grants, id) == Some(q as int),
            q < old(self)@.grants.len(),
            journal_room(old(self)@.events, 1),
        ensures
            grant_revoked(old(self)@, final(self)@, id, actor, *now),
    {
        let payload = Payload::new().uid("request_id", id).finish();
        self.insert_event("credential.grant_revoked", payload, now);
        let row = &mut self.grants[q];
        row.revoked_at_ms = Some(now.ms);
        row.revoked_by = Some(actor);
    }

    /// Revokes a grant. Revocation is terminal and does not imply that of a
    /// provider token. The actor is kept with the grant, not in the journal. A
    /// staged launch that waited for the grant is cancelled with it.
    #[verifier::spinoff_prover]
    pub fn revoke_credential_grant(
        &mut self,
        id: ApprovalRequestId,
        command: RevokeCredentialGrantCommand,
        f: &StagedFindings,
        findings: CancelFindings,
        now: &Moment,
    ) -> (r: Result<CredentialGrantRecord<'_>, StoreError>)
        ensures
            match revoke_refusal(old(self)@, id, command.actor@, *f, findings, *now) {
                Some(refusal) => r is Err && r->Err_0@ == refusal && *final(self) == *old(self),
                None => {
                    &&& r is Ok
                    &&& grant_shown(
                        r->Ok_0,
                        final(self)@.grants[find(old(self)@.grants, id)->0],
                        old(self)@.approvals[find(old(self)@.approvals, id)->0],
                    )
                    &&& revocation_done(
                        old(self)@,
                        final(self)@,
                        id,
                        command.actor,
                        *f,
                        findings,
                        *now,
                    )
                },
            },
    {
        if is_blank(command.actor.as_str()) || command.actor.as_str().as_bytes().len() > 200 {
            return Err(StoreError::CredentialGrantRejected);
        }
        let (q, a) = match self.find_grant(id, &f.request_fault, &f.decision_fault) {
            Ok(found) => found,
            Err(error) => {
                return Err(error);
            },
        };
        if !self.is_grant_usable(q, a, now.ms) {
            return Err(StoreError::CredentialGrantRejected);
        }
        match self.find_cancellation(id, "credential_grant_revoked", f) {
            Err(error) => {
                return Err(error);
            },
            Ok(None) => {
                if !self.has_journal_room(1) {
                    return Err(out_of_range());
                }
                self.mark_revoked(id, q, command.actor, now);
            },
            Ok(Some(rows)) => {
                let graph = match self.check_cancellation(id, &rows, findings, now) {
                    Ok(graph) => graph,
                    Err(error) => {
                        return Err(error);
                    },
                };
                self.mark_revoked(id, q, command.actor, now);
                let ghost middle = self@;
                proof {
                    lemma_revoked_is_not_unspent(old(self)@.grants, middle.grants, id, q as int);
                }
                self.apply_cancellation(id, "credential_grant_revoked", &rows, graph, now);
                proof {
                    assert(self@.grants == middle.grants);
                    assert(self@.events.drop_last() == middle.events);
                    assert(middle =~= StoreView {
                        grants: self@.grants,
                        events: self@.events.drop_last(),
                        ..old(self)@
                    });
                }
            },
        }
        self.grant_record(q, a)
    }
}

/// Updating a row without changing its key leaves every search as it was.
proof fn lemma_find_same_keys(pre: Seq<GrantRow>, post: Seq<GrantRow>, id: ApprovalRequestId, from: int)
    requires
        pre.len() == post.len(),
        from >= 0,
        forall|i: int| 0 <= i < pre.len() ==> (#[trigger] pre[i]).request_id == post[i].request_id,
    ensures
        crate::uid::find_from(pre, id, from) == crate::uid::find_from(post, id, from),
    decreases pre.len() - from,
{
    if from < pre.len() {
        assert(pre[from].request_id == post[from].request_id);
        lemma_find_same_keys(pre, post, id, from + 1);
    }
}

proof fn lemma_revoked_is_not_unspent(pre: Seq<GrantRow>, post: Seq<GrantRow>, id: ApprovalRequestId, q: int)
    requires
        find(pre, id) == Some(q),
        0 <= q < pre.len(),
        post.len() == pre.len(),
        post[q].revoked_at_ms is Some,
        forall|i: int| 0 <= i < pre.len() ==> (#[trigger] pre[i]).request_id == post[i].request_id,
    ensures
        find(post, id) == Some(q),
{
    lemma_find_same_keys(pre, post, id, 0);
}

} // verus!

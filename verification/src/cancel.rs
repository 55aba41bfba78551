use crate::attempts::{check_graphs, execution_position, find_execution, graphs_refusal};
use crate::error::{invalid_run, CatalogError, Refusal, StoreError};
use crate::graph::{CheckedGraph, GraphError};
use crate::identity::{text_of, CatalogView, EntityMetadata, Moment, NormalizedRunState, Run};
use crate::json::{fields, json_uid, object, Payload};
use crate::preflight::load_plan;
use crate::protocol::StagedLaunchState;
use crate::staged::{staged_refusal, StagedFindings};
use crate::store::{
    bump_refusal, journal_room, journaled, next_revision, out_of_range, GrantRow, GraphRow,
    NodeRun, StagedRow, Store, StoreView, MAX_STORED,
};
use crate::text::{blank, decimal, decimal_text, is_blank};
use crate::uid::{find, position, ApprovalRequestId};
use vstd::prelude::*;
use vstd::string::*;
use vstd::utf8::encode_utf8;

verus! {

/// What the domain rules make of the cancellation of a staged launch: the
/// execution after it, and what is wrong with the catalogs after it.
#[derive(Debug)]
pub struct CancelFindings {
    pub cancelled: Result<CheckedGraph, GraphError>,
    pub catalog_fault: Option<CatalogError>,
    pub m3_fault: Option<String>,
}

/// The index, from the `from`-th on, of the first staged launch that waits for a
/// request.
pub open spec fn find_request(rows: Seq<StagedRow>, request_id: ApprovalRequestId, from: int) -> Option<int>
    decreases rows.len() - from,
{
    if from < 0 || from >= rows.len() {
        None
    } else if rows[from].request_id == request_id {
        Some(from)
    } else {
        find_request(rows, request_id, from + 1)
    }
}

pub fn request_position(rows: &Vec<StagedRow>, request_id: ApprovalRequestId) -> (r: Option<usize>)
    ensures
        match r {
            Some(i) => find_request(rows@, request_id, 0) == Some(i as int) && i < rows@.len()
                && rows@[i as int].request_id == request_id,
            None => find_request(rows@, request_id, 0) is None,
        },
{
    let mut i: usize = 0;
    while i < rows.len()
        invariant
            i <= rows@.len(),
            find_request(rows@, request_id, 0) == find_request(rows@, request_id, i as int),
        decreases rows@.len() - i,
    {
        if rows[i].request_id == request_id {
            return Some(i);
        }
        i += 1;
    }
    None
}

/// The rows that the cancellation of a staged launch concerns.
pub ghost struct CancelTarget {
    pub staged: int,
    pub run: int,
    pub plan: int,
    pub graph: int,
    pub attempt: int,
}

/// Which rows the cancellation of a staged launch concerns; nothing, where the
/// request belongs to no staged launch or the launch is cancelled already; or
/// why it cannot be cancelled.
pub open spec fn cancel_target(
    s: StoreView,
    request_id: ApprovalRequestId,
    reason: Seq<char>,
    f: StagedFindings,
) -> Result<Option<CancelTarget>, Refusal> {
    if blank(reason) || encode_utf8(reason).len() > 200 {
        Err(Refusal::InvalidRunState("invalid staged launch cancellation reason"@))
    } else {
        match find_request(s.staged, request_id, 0) {
            None => Ok(None),
            Some(t) => if s.staged[t].state == StagedLaunchState::Cancelled {
                Ok(None)
            } else if s.staged[t].state != StagedLaunchState::AwaitingApproval && s.staged[t].state
                != StagedLaunchState::Ready {
                Err(Refusal::InvalidRunState("invalid staged launch ledger state"@))
            } else if f.catalog_fault is Some {
                Err(Refusal::InvalidCatalog(f.catalog_fault->0))
            } else {
                match find(s.identity.runs, s.staged[t].run_id) {
                    None => Err(Refusal::RunNotFound),
                    Some(i) => match staged_refusal(s, s.identity.runs[i], false, false, f) {
                        Some(refusal) => Err(refusal),
                        None => cancel_plan_target(s, t, i),
                    },
                }
            },
        }
    }
}

/// The part of the search that starts from the run.
pub open spec fn cancel_plan_target(s: StoreView, t: int, i: int) -> Result<
    Option<CancelTarget>,
    Refusal,
> {
    match load_plan(s, s.staged[t].run_id) {
        Err(refusal) => Err(refusal),
        Ok(p) => match find(s.graphs, s.plans[p].plan.execution_id) {
            None => Err(Refusal::GraphNotFound),
            Some(g) => if s.graphs[g].revision != s.graphs[g].graph.execution.revision {
                Err(Refusal::InvalidGraph(GraphError::InvalidExecution))
            } else {
                match find(s.node_runs, s.staged[t].run_id) {
                    None => Err(
                        Refusal::InvalidRunState("staged run attempt is already terminal"@),
                    ),
                    Some(k) => Ok(
                        Some(
                            CancelTarget { staged: t, run: i, plan: p, graph: g, attempt: k },
                        ),
                    ),
                }
            },
        },
    }
}

/// The grant of a staged launch, where one was issued that is still unspent and
/// unrevoked.
pub open spec fn unspent_grant(s: StoreView, request_id: ApprovalRequestId) -> Option<int> {
    match find(s.grants, request_id) {
        None => None,
        Some(q) => if s.grants[q].consumed_at_ms is None && s.grants[q].revoked_at_ms is None {
            Some(q)
        } else {
            None
        },
    }
}

/// How many events a cancellation adds to the journal.
pub open spec fn cancel_events(s: StoreView, request_id: ApprovalRequestId) -> nat {
    if unspent_grant(s, request_id) is Some {
        2
    } else {
        1
    }
}

/// Why the cancellation of a staged launch is refused once it is known which
/// rows it concerns.
pub open spec fn cancel_refusal(
    s: StoreView,
    request_id: ApprovalRequestId,
    t: CancelTarget,
    findings: CancelFindings,
    now: Moment,
) -> Option<Refusal> {
    let row = s.node_runs[t.attempt];
    if findings.cancelled is Err {
        Some(Refusal::InvalidGraph(findings.cancelled->Err_0))
    } else if findings.cancelled->Ok_0.fault is Some {
        Some(Refusal::InvalidGraph(findings.cancelled->Ok_0.fault->0))
    } else if now.ms > MAX_STORED {
        Some(Refusal::CredentialGrantRejected)
    } else if s.identity.runs[t.run].metadata.revision == u64::MAX {
        Some(Refusal::RevisionOverflow)
    } else if findings.catalog_fault is Some {
        Some(Refusal::InvalidCatalog(findings.catalog_fault->0))
    } else if graphs_refusal(s.graphs, s.outputs) is Some {
        graphs_refusal(s.graphs, s.outputs)
    } else if find_execution(s.graphs, findings.cancelled->Ok_0.execution.id, 0) is None {
        Some(Refusal::GraphNotFound)
    } else if findings.m3_fault is Some {
        Some(Refusal::InvalidM3(findings.m3_fault->0@))
    } else if bump_refusal(s.identity_revision) is Some {
        bump_refusal(s.identity_revision)
    } else if findings.cancelled->Ok_0.execution.revision > MAX_STORED {
        Some(Refusal::Database)
    } else if row.finished_at is Some || row.terminal_state is Some {
        Some(Refusal::InvalidRunState("staged run attempt is already terminal"@))
    } else if !journal_room(s.events, cancel_events(s, request_id)) {
        Some(Refusal::Database)
    } else {
        None
    }
}

/// The later of two times.
pub open spec fn later(a: u64, b: u64) -> u64 {
    if a >= b {
        a
    } else {
        b
    }
}

pub open spec fn cancelled_run(run: Run, at: String) -> Run {
    Run {
        state: NormalizedRunState::Cancelled,
        finished_at: Some(at),
        metadata: EntityMetadata {
            revision: (run.metadata.revision + 1) as u64,
            updated_at: at,
            ..run.metadata
        },
        ..run
    }
}

/// The journal after a cancellation: the revocation of an unspent grant, where
/// there was one, and the cancellation itself.
pub open spec fn cancel_journaled(
    pre: StoreView,
    post: StoreView,
    request_id: ApprovalRequestId,
    t: CancelTarget,
    graph: CheckedGraph,
    now: Moment,
) -> bool {
    let revocation = object(fields().push(("request_id"@, json_uid(request_id))));
    let plan = pre.plans[t.plan].plan;
    let cancellation = object(
        fields().push(("catalog_revision"@, decimal((pre.identity_revision + 1) as nat))).push(
            ("execution_id"@, json_uid(graph.execution.id)),
        ).push(("graph_revision"@, decimal(graph.execution.revision as nat))).push(
            ("node_id"@, json_uid(plan.node_id)),
        ).push(("request_id"@, json_uid(request_id))).push(("run_id"@, json_uid(plan.run_id))),
    );
    let middle = if unspent_grant(pre, request_id) is Some {
        post.events.drop_last()
    } else {
        pre.events
    };
    &&& unspent_grant(pre, request_id) is Some ==> journaled(
        pre.events,
        middle,
        "credential.grant_revoked"@,
        revocation,
        now,
    )
    &&& journaled(middle, post.events, "provider_launch.cancelled"@, cancellation, now)
}

/// What the cancellation of a staged launch changes, and nothing else. The time
/// that it records never lies before that of the staging, even when the clock
/// has been set back.
pub open spec fn launch_cancelled(
    pre: StoreView,
    post: StoreView,
    request_id: ApprovalRequestId,
    reason: Seq<char>,
    t: CancelTarget,
    graph: CheckedGraph,
    now: Moment,
) -> bool {
    let at_ms = later(now.ms, pre.staged[t.staged].staged_at_ms);
    let at = post.identity.runs[t.run].metadata.updated_at;
    let staged = post.staged[t.staged];
    &&& at@ == decimal(at_ms as nat)
    &&& text_of(staged.cancel_reason) == Some(reason)
    &&& cancel_journaled(pre, post, request_id, t, graph, now)
    &&& match unspent_grant(pre, request_id) {
        None => post.grants == pre.grants,
        Some(q) => {
            &&& text_of(post.grants[q].revoked_by) == Some("daemon:staged_launch_cancelled"@)
            &&& post.grants =~= pre.grants.update(
                q,
                GrantRow {
                    revoked_at_ms: Some(later(pre.grants[q].issued_at_ms, at_ms)),
                    revoked_by: post.grants[q].revoked_by,
                    ..pre.grants[q]
                },
            )
        },
    }
    &&& post =~= StoreView {
        identity_revision: (pre.identity_revision + 1) as u64,
        identity: CatalogView {
            runs: pre.identity.runs.update(t.run, cancelled_run(pre.identity.runs[t.run], at)),
            ..pre.identity
        },
        graphs: pre.graphs.update(
            t.graph,
            GraphRow {
                revision: graph.execution.revision,
                graph,
                updated_at: at,
                ..pre.graphs[t.graph]
            },
        ),
        node_runs: pre.node_runs.update(
            t.attempt,
            NodeRun {
                finished_at: Some(at),
                terminal_state: Some(NormalizedRunState::Cancelled),
                failure: None,
                ..pre.node_runs[t.attempt]
            },
        ),
        staged: pre.staged.update(
            t.staged,
            StagedRow {
                state: StagedLaunchState::Cancelled,
                finished_at_ms: Some(at_ms),
                cancel_reason: staged.cancel_reason,
                ..pre.staged[t.staged]
            },
        ),
        grants: post.grants,
        events: post.events,
        ..pre
    }
}

/// The outcome of the cancellation of a staged launch.
pub open spec fn cancel_outcome(
    r: Result<(), StoreError>,
    before: Store,
    after: Store,
    request_id: ApprovalRequestId,
    reason: Seq<char>,
    f: StagedFindings,
    findings: CancelFindings,
    now: Moment,
) -> bool {
    match cancel_target(before@, request_id, reason, f) {
        Err(refusal) => r is Err && r->Err_0@ == refusal && after == before,
        Ok(None) => r is Ok && after == before,
        Ok(Some(t)) => match cancel_refusal(before@, request_id, t, findings, now) {
            Some(refusal) => r is Err && r->Err_0@ == refusal && after == before,
            None => r is Ok && launch_cancelled(
                before@,
                after@,
                request_id,
                reason,
                t,
                findings.cancelled->Ok_0,
                now,
            ),
        },
    }
}

/// Where the rows stand that a cancellation concerns.
pub struct CancelRows {
    pub staged: usize,
    pub run: usize,
    pub plan: usize,
    pub graph: usize,
    pub attempt: usize,
}

impl View for CancelRows {
    type V = CancelTarget;

    open spec fn view(&self) -> CancelTarget {
        CancelTarget {
            staged: self.staged as int,
            run: self.run as int,
            plan: self.plan as int,
            graph: self.graph as int,
            attempt: self.attempt as int,
        }
    }
}

impl Store {
    pub(crate) fn unspent_grant_position(&self, request_id: ApprovalRequestId) -> (r: Option<usize>)
        ensures
            match r {
                Some(q) => unspent_grant(self@, request_id) == Some(q as int) && q
                    < self.grants.len(),
                None => unspent_grant(self@, request_id) is None,
            },
    {
        match position(&self.grants, request_id) {
            None => None,
            Some(q) => if self.grants[q].consumed_at_ms.is_none()
                && self.grants[q].revoked_at_ms.is_none() {
                Some(q)
            } else {
                None
            },
        }
    }

    /// Finds the rows that a cancellation concerns, so that the graph rules can
    /// be asked for the execution after it.
    pub fn find_cancellation(
        &self,
        request_id: ApprovalRequestId,
        reason: &str,
        f: &StagedFindings,
    ) -> (r: Result<Option<CancelRows>, StoreError>)
        ensures
            match r {
                Err(error) => cancel_target(self@, request_id, reason@, *f) == Err::<
                    Option<CancelTarget>,
                    _,
                >(error@),
                Ok(None) => cancel_target(self@, request_id, reason@, *f) == Ok::<
                    Option<CancelTarget>,
                    Refusal,
                >(None),
                Ok(Some(rows)) => {
                    &&& cancel_target(self@, request_id, reason@, *f) == Ok::<
                        Option<CancelTarget>,
                        Refusal,
                    >(Some(rows@))
                    &&& rows.staged < self.staged.len()
                    &&& rows.run < self.identity.runs.len()
                    &&& rows.plan < self.plans.len()
                    &&& rows.graph < self.graphs.len()
                    &&& rows.attempt < self.node_runs.len()
                },
            },
    {
        if is_blank(reason) || reason.as_bytes().len() > 200 {
            return Err(invalid_run("invalid staged launch cancellation reason"));
        }
        let staged = match request_position(&self.staged, request_id) {
            None => {
                return Ok(None);
            },
            Some(t) => t,
        };
        let state = self.staged[staged].state;
        if state == StagedLaunchState::Cancelled {
            return Ok(None);
        }
        if state != StagedLaunchState::AwaitingApproval && state != StagedLaunchState::Ready {
            return Err(invalid_run("invalid staged launch ledger state"));
        }
        if let Some(fault) = &f.catalog_fault {
            return Err(StoreError::InvalidCatalog(fault.copy()));
        }
        let run_id = self.staged[staged].run_id;
        let run = match position(&self.identity.runs, run_id) {
            None => {
                return Err(StoreError::RunNotFound);
            },
            Some(i) => i,
        };
        match self.validate_staged_context(&self.identity.runs[run], false, false, f) {
            Ok(_) => {},
            Err(error) => {
                return Err(error);
            },
        }
        let execution_id = match self.load_launch_plan(run_id) {
            Ok(plan) => plan.execution_id,
            Err(error) => {
                return Err(error);
            },
        };
        let plan = match position(&self.plans, run_id) {
            None => {
                return Err(invalid_run("launch plan unavailable"));
            },
            Some(p) => p,
        };
        let graph = match position(&self.graphs, execution_id) {
            None => {
                return Err(StoreError::GraphNotFound);
            },
            Some(g) => g,
        };
        if self.graphs[graph].revision != self.graphs[graph].graph.execution.revision {
            return Err(StoreError::InvalidGraph(GraphError::InvalidExecution));
        }
        let attempt = match position(&self.node_runs, run_id) {
            None => {
                return Err(invalid_run("staged run attempt is already terminal"));
            },
            Some(k) => k,
        };
        Ok(Some(CancelRows { staged, run, plan, graph, attempt }))
    }

    pub(crate) fn check_cancellation(
        &self,
        request_id: ApprovalRequestId,
        rows: &CancelRows,
        findings: CancelFindings,
        now: &Moment,
    ) -> (r: Result<CheckedGraph, StoreError>)
        requires
            rows.run < self.identity.runs.len(),
            rows.attempt < self.node_runs.len(),
        ensures
            match r {
                Ok(graph) => cancel_refusal(self@, request_id, rows@, findings, *now) is None
                    && findings.cancelled == Ok::<_, GraphError>(graph),
                Err(error) => cancel_refusal(self@, request_id, rows@, findings, *now) == Some(
                    error@,
                ),
            },
    {
        let graph = match findings.cancelled {
            Ok(graph) => graph,
            Err(error) => {
                return Err(StoreError::InvalidGraph(error));
            },
        };
        if let Some(fault) = &graph.fault {
            return Err(StoreError::InvalidGraph(fault.copy()));
        }
        if now.ms > MAX_STORED {
            return Err(StoreError::CredentialGrantRejected);
        }
        if self.identity.runs[rows.run].metadata.revision == u64::MAX {
            return Err(StoreError::RevisionOverflow);
        }
        if let Some(fault) = findings.catalog_fault {
            return Err(StoreError::InvalidCatalog(fault));
        }
        match check_graphs(&self.graphs, &self.outputs) {
            Ok(_) => {},
            Err(error) => {
                return Err(error);
            },
        }
        if execution_position(&self.graphs, graph.execution.id).is_none() {
            return Err(StoreError::GraphNotFound);
        }
        if let Some(fault) = findings.m3_fault {
            return Err(StoreError::InvalidM3(fault));
        }
        match next_revision(self.identity_revision) {
            Ok(_) => {},
            Err(error) => {
                return Err(error);
            },
        }
        if graph.execution.revision > MAX_STORED {
            return Err(out_of_range());
        }
        if self.node_runs[rows.attempt].finished_at.is_some()
            || self.node_runs[rows.attempt].terminal_state.is_some() {
            return Err(invalid_run("staged run attempt is already terminal"));
        }
        let events: u64 = if self.unspent_grant_position(request_id).is_some() {
            2
        } else {
            1
        };
        if !self.has_journal_room(events) {
            return Err(out_of_range());
        }
        Ok(graph)
    }

    #[verifier::rlimit(60)]
    pub(crate) fn apply_cancellation(
        &mut self,
        request_id: ApprovalRequestId,
        reason: &str,
        rows: &CancelRows,
        graph: CheckedGraph,
        now: &Moment,
    )
        requires
            rows.staged < old(self).staged.len(),
            rows.run < old(self).identity.runs.len(),
            rows.plan < old(self).plans.len(),
            rows.graph < old(self).graphs.len(),
            rows.attempt < old(self).node_runs.len(),
            old(self).identity.runs@[rows.run as int].metadata.revision < u64::MAX,
            old(self).identity_revision < u64::MAX,
            journal_room(old(self)@.events, cancel_events(old(self)@, request_id)),
        ensures
            launch_cancelled(old(self)@, final(self)@, request_id, reason@, rows@, graph, *now),
    {
        let staged_at_ms = self.staged[rows.staged].staged_at_ms;
        let at_ms: u64 = if now.ms >= staged_at_ms {
            now.ms
        } else {
            staged_at_ms
        };
        let at = decimal_text(at_ms);
        let identity_revision = self.identity_revision + 1;
        let graph_revision = graph.execution.revision;
        let revocation = Payload::new().uid("request_id", request_id).finish();
        let cancellation = Payload::new().number("catalog_revision", identity_revision).uid(
            "execution_id",
            graph.execution.id,
        ).number("graph_revision", graph_revision).uid(
            "node_id",
            self.plans[rows.plan].plan.node_id,
        ).uid("request_id", request_id).uid("run_id", self.plans[rows.plan].plan.run_id).finish();
        if let Some(q) = self.unspent_grant_position(request_id) {
            self.insert_event("credential.grant_revoked", revocation, now);
            let row = &mut self.grants[q];
            row.revoked_at_ms = Some(
                if row.issued_at_ms >= at_ms {
                    row.issued_at_ms
                } else {
                    at_ms
                },
            );
            row.revoked_by = Some("daemon:staged_launch_cancelled".to_owned());
        }
        let ghost middle = self@.events;
        self.insert_event("provider_launch.cancelled", cancellation, now);
        assert(self@.events.drop_last() == middle);
        self.identity_revision = identity_revision;
        let run = &mut self.identity.runs[rows.run];
        run.state = NormalizedRunState::Cancelled;
        run.finished_at = Some(at.clone());
        run.metadata.revision = run.metadata.revision + 1;
        run.metadata.updated_at = at.clone();
        let row = &mut self.graphs[rows.graph];
        row.revision = graph_revision;
        row.graph = graph;
        row.updated_at = at.clone();
        let attempt = &mut self.node_runs[rows.attempt];
        attempt.finished_at = Some(at);
        attempt.terminal_state = Some(NormalizedRunState::Cancelled);
        attempt.failure = None;
        let staged = &mut self.staged[rows.staged];
        staged.state = StagedLaunchState::Cancelled;
        staged.finished_at_ms = Some(at_ms);
        staged.cancel_reason = Some(reason.to_owned());
    }

    /// Terminates an unlaunched staged run. A request that no staged launch
    /// waits for is left alone, so ordinary approvals stay independent.
    pub fn cancel_for_request(
        &mut self,
        request_id: ApprovalRequestId,
        reason: &str,
        f: &StagedFindings,
        findings: CancelFindings,
        now: &Moment,
    ) -> (r: Result<(), StoreError>)
        ensures
            cancel_outcome(
                r,
                *old(self),
                *final(self),
                request_id,
                reason@,
                *f,
                findings,
                *now,
            ),
    {
        let rows = match self.find_cancellation(request_id, reason, f) {
            Err(error) => {
                return Err(error);
            },
            Ok(None) => {
                return Ok(());
            },
            Ok(Some(rows)) => rows,
        };
        let graph = match self.check_cancellation(request_id, &rows, findings, now) {
            Ok(graph) => graph,
            Err(error) => {
                return Err(error);
            },
        };
        self.apply_cancellation(request_id, reason, &rows, graph, now);
        Ok(())
    }
}

} // verus!

//! The trusted broker boundary. Consumption of a grant is durable before any
//! native credential read is possible, and is never refunded.
use crate::error::{CatalogError, Refusal, StoreError};
use crate::grants::{current_refusal, grant_payload, grant_usable, load_grant};
use crate::graph::{CheckedGraph, GraphError};
use crate::identity::{CatalogView, EntityMetadata, Moment, NormalizedRunState, Run};
use crate::json::{fields, json_uid, object, Payload};
use crate::launch::{ProviderCredentialSelection, ProviderLaunchPlan};
use crate::preflight::load_plan;
use crate::protocol::{BeginGraphNodeRunReceipt, StagedLaunchState, PROTOCOL_VERSION};
use crate::staged::{staged_refusal, StagedFindings};
use crate::store::{
    bump_refusal, constraint_failed, journal_room, journaled, next_revision, next_sequence,
    out_of_range, ClaimRow, GrantRow, GraphRow, StagedRow, Store, StoreView, MAX_STORED,
};
use crate::text::same_text;
use crate::uid::{find, position, ApprovalRequestId, RunId};
use vstd::prelude::*;

verus! {

/// What the domain rules make of a dispatch: the execution after the staged node
/// was activated, and what is wrong with the catalog after it.
#[derive(Debug)]
pub struct ClaimFindings {
    pub activated: Result<CheckedGraph, GraphError>,
    pub catalog_fault: Option<CatalogError>,
}

/// One opportunity, within this process, to look a credential up. It is not a
/// bearer token.
#[derive(Debug)]
pub struct DispatchClaim {
    pub receipt: BeginGraphNodeRunReceipt,
    pub selection: ProviderCredentialSelection,
}

/// The rows that a dispatch concerns.
pub ghost struct DispatchTarget {
    pub grant: int,
    pub staged: int,
    pub run: int,
    pub plan: int,
    pub graph: int,
}

/// Which rows a dispatch concerns; or why the launch may not be dispatched.
pub open spec fn dispatch_target(
    s: StoreView,
    request_id: ApprovalRequestId,
    f: StagedFindings,
    m3_fault: Option<String>,
    now: Moment,
) -> Result<DispatchTarget, Refusal> {
    if s.lifecycle != "ready"@ {
        Err(Refusal::CredentialGrantRejected)
    } else {
        match load_grant(s, request_id, f.request_fault, f.decision_fault) {
            Err(refusal) => Err(refusal),
            Ok((q, a)) => {
                let request = s.approvals[a].request;
                let run_id = request.action.scope.run_id;
                if !grant_usable(s.grants[q], request, now.ms) || run_id is None {
                    Err(Refusal::CredentialGrantRejected)
                } else {
                    let t = find(s.staged, run_id->0);
                    let i = find(s.identity.runs, run_id->0);
                    let current = current_refusal(
                        s,
                        request,
                        true,
                        f.catalog_fault,
                        f.authority_fault,
                        m3_fault,
                    );
                    if t is None || s.staged[t->0].request_id != request_id || s.staged[t->0].state
                        != StagedLaunchState::Ready {
                        Err(Refusal::CredentialGrantRejected)
                    } else if i is None {
                        Err(Refusal::RunNotFound)
                    } else if staged_refusal(s, s.identity.runs[i->0], true, true, f) is Some {
                        Err(staged_refusal(s, s.identity.runs[i->0], true, true, f)->0)
                    } else if current is Some {
                        Err(current->0)
                    } else {
                        dispatch_plan_target(s, q, t->0, i->0, run_id->0)
                    }
                }
            },
        }
    }
}

/// The part of the search that starts from the run.
pub open spec fn dispatch_plan_target(s: StoreView, q: int, t: int, i: int, run_id: RunId) -> Result<
    DispatchTarget,
    Refusal,
> {
    match load_plan(s, run_id) {
        Err(refusal) => Err(refusal),
        Ok(p) => if plan_selection(s.plans[p].plan) is None {
            Err(Refusal::CredentialGrantRejected)
        } else {
            match find(s.graphs, s.plans[p].plan.execution_id) {
                None => Err(Refusal::Database),
                Some(g) => Ok(
                    DispatchTarget { grant: q, staged: t, run: i, plan: p, graph: g },
                ),
            }
        },
    }
}

/// The credential that a plan selects.
pub open spec fn plan_selection(plan: ProviderLaunchPlan) -> Option<ProviderCredentialSelection> {
    match plan.identity.account {
        None => None,
        Some(account) => account.credential,
    }
}

/// Why a launch is not dispatched once it is known which rows it concerns.
pub open spec fn claim_refusal(
    s: StoreView,
    t: DispatchTarget,
    reader_accepts: bool,
    findings: ClaimFindings,
) -> Option<Refusal> {
    if !reader_accepts {
        Some(Refusal::CredentialGrantRejected)
    } else if findings.activated is Err {
        Some(Refusal::InvalidGraph(findings.activated->Err_0))
    } else if findings.activated->Ok_0.fault is Some {
        Some(Refusal::InvalidGraph(findings.activated->Ok_0.fault->0))
    } else if s.identity.runs[t.run].metadata.revision == u64::MAX {
        Some(Refusal::RevisionOverflow)
    } else if findings.catalog_fault is Some {
        Some(Refusal::InvalidCatalog(findings.catalog_fault->0))
    } else if bump_refusal(s.identity_revision) is Some {
        bump_refusal(s.identity_revision)
    } else if find(s.claims, s.staged[t.staged].run_id) is Some
        || findings.activated->Ok_0.execution.revision > MAX_STORED || !journal_room(s.events, 2) {
        Some(Refusal::Database)
    } else {
        None
    }
}

/// A staged run that starts now.
pub open spec fn started_run(run: Run, now: Moment) -> Run {
    Run {
        state: NormalizedRunState::Starting,
        started_at: Some(now.text),
        metadata: EntityMetadata {
            revision: (run.metadata.revision + 1) as u64,
            updated_at: now.text,
            ..run.metadata
        },
        ..run
    }
}

/// What a dispatch changes, and nothing else: the grant is spent, the launch is
/// claimed, and the run starts.
pub open spec fn dispatched(
    pre: StoreView,
    post: StoreView,
    request_id: ApprovalRequestId,
    t: DispatchTarget,
    graph: CheckedGraph,
    now: Moment,
) -> bool {
    let run_id = pre.staged[t.staged].run_id;
    let payload = grant_payload(request_id, Some(run_id));
    let middle = post.events.drop_last();
    &&& journaled(pre.events, middle, "credential.grant_consumed"@, payload, now)
    &&& journaled(middle, post.events, "provider_launch.dispatch_claimed"@, payload, now)
    &&& post =~= StoreView {
        identity_revision: (pre.identity_revision + 1) as u64,
        identity: CatalogView {
            runs: pre.identity.runs.update(t.run, started_run(pre.identity.runs[t.run], now)),
            ..pre.identity
        },
        graphs: pre.graphs.update(
            t.graph,
            GraphRow {
                revision: graph.execution.revision,
                graph,
                updated_at: now.text,
                ..pre.graphs[t.graph]
            },
        ),
        grants: pre.grants.update(
            t.grant,
            GrantRow { consumed_at_ms: Some(now.ms), ..pre.grants[t.grant] },
        ),
        staged: pre.staged.update(
            t.staged,
            StagedRow { state: StagedLaunchState::Dispatching, ..pre.staged[t.staged] },
        ),
        claims: pre.claims.push(ClaimRow { run_id, request_id, claimed_at_ms: now.ms }),
        events: post.events,
        ..pre
    }
}

/// The claim that a dispatch hands out: what the plan says, and nothing of the
/// current catalog.
pub open spec fn claim_is(
    claim: DispatchClaim,
    pre: StoreView,
    t: DispatchTarget,
    graph: CheckedGraph,
) -> bool {
    let plan = pre.plans[t.plan].plan;
    let receipt = claim.receipt;
    &&& plan_selection(plan) == Some(claim.selection)
    &&& receipt.protocol_version == PROTOCOL_VERSION
    &&& receipt.execution_id == plan.execution_id
    &&& receipt.node_id == plan.node_id
    &&& receipt.session_id == plan.session_id
    &&& receipt.run_id == pre.staged[t.staged].run_id
    &&& receipt.launch_identity == Some(plan.identity)
    &&& receipt.adapter_kind == plan.identity.adapter_kind
    &&& receipt.model == plan.identity.model
    &&& receipt.workspace_root == plan.workspace_root
    &&& receipt.prompt == plan.prompt
    &&& receipt.catalog_revision == pre.identity_revision + 1
    &&& receipt.graph_revision == graph.execution.revision
    &&& receipt.event_sequence == next_sequence(pre.events) + 1
}

/// Where the rows stand that a dispatch concerns.
#[derive(Debug)]
pub struct DispatchRows {
    pub grant: usize,
    pub staged: usize,
    pub run: usize,
    pub plan: usize,
    pub graph: usize,
}

impl View for DispatchRows {
    type V = DispatchTarget;

    open spec fn view(&self) -> DispatchTarget {
        DispatchTarget {
            grant: self.grant as int,
            staged: self.staged as int,
            run: self.run as int,
            plan: self.plan as int,
            graph: self.graph as int,
        }
    }
}

/// Which rows a failed lookup concerns; or why there is nothing to resolve.
pub open spec fn fail_target(s: StoreView, run_id: RunId) -> Result<(int, int, ProviderLaunchPlan), Refusal> {
    match load_plan(s, run_id) {
        Err(refusal) => Err(refusal),
        Ok(p) => match find(s.identity.runs, run_id) {
            None => Err(Refusal::RunNotFound),
            Some(i) => if s.identity.runs[i].state != NormalizedRunState::Starting {
                Err(Refusal::CredentialGrantRejected)
            } else {
                match find(s.graphs, s.plans[p].plan.execution_id) {
                    None => Err(Refusal::Database),
                    Some(g) => if s.graphs[g].graph.execution.spec_bound_run(
                        s.plans[p].plan.node_id,
                    ) != Some(run_id) {
                        Err(Refusal::CredentialGrantRejected)
                    } else {
                        Ok((i, g, s.plans[p].plan))
                    },
                }
            },
        },
    }
}

/// What the domain rules make of a failed lookup: the execution after the node
/// ended uncertain, and what is wrong with the catalog after it.
#[derive(Debug)]
pub struct LookupFindings {
    pub finished: Result<CheckedGraph, GraphError>,
    pub catalog_fault: Option<CatalogError>,
}

/// Why a failed lookup cannot be resolved.
pub open spec fn fail_refusal(s: StoreView, run_id: RunId, i: int, findings: LookupFindings) -> Option<Refusal> {
    let t = find(s.staged, run_id);
    if findings.finished is Err {
        Some(Refusal::InvalidGraph(findings.finished->Err_0))
    } else if s.identity.runs[i].metadata.revision == u64::MAX {
        Some(Refusal::RevisionOverflow)
    } else if findings.catalog_fault is Some {
        Some(Refusal::InvalidCatalog(findings.catalog_fault->0))
    } else if t is None || s.staged[t->0].state != StagedLaunchState::Dispatching {
        Some(Refusal::CredentialGrantRejected)
    } else if bump_refusal(s.identity_revision) is Some {
        bump_refusal(s.identity_revision)
    } else if findings.finished->Ok_0.execution.revision > MAX_STORED || !journal_room(
        s.events,
        1,
    ) {
        Some(Refusal::Database)
    } else {
        None
    }
}

pub open spec fn uncertain_run(run: Run, now: Moment) -> Run {
    Run {
        state: NormalizedRunState::Uncertain,
        metadata: EntityMetadata {
            revision: (run.metadata.revision + 1) as u64,
            updated_at: now.text,
            ..run.metadata
        },
        ..run
    }
}

/// What the resolution of a failed lookup changes, and nothing else. The grant
/// stays spent.
pub open spec fn lookup_failed(
    pre: StoreView,
    post: StoreView,
    run_id: RunId,
    i: int,
    g: int,
    graph: CheckedGraph,
    now: Moment,
) -> bool {
    let t = find(pre.staged, run_id)->0;
    &&& journaled(
        pre.events,
        post.events,
        "provider_launch.credential_lookup_failed"@,
        object(fields().push(("run_id"@, json_uid(run_id)))),
        now,
    )
    &&& post =~= StoreView {
        identity_revision: (pre.identity_revision + 1) as u64,
        identity: CatalogView {
            runs: pre.identity.runs.update(i, uncertain_run(pre.identity.runs[i], now)),
            ..pre.identity
        },
        graphs: pre.graphs.update(
            g,
            GraphRow {
                revision: graph.execution.revision,
                graph,
                updated_at: now.text,
                ..pre.graphs[g]
            },
        ),
        staged: pre.staged.update(
            t,
            StagedRow { state: StagedLaunchState::Uncertain, ..pre.staged[t] },
        ),
        events: post.events,
        ..pre
    }
}

/// A ledger row after a restart: a claim whose outcome nobody knows is
/// uncertain.
pub open spec fn reconciled_row(row: StagedRow) -> StagedRow {
    if row.state == StagedLaunchState::Dispatching {
        StagedRow { state: StagedLaunchState::Uncertain, ..row }
    } else {
        row
    }
}

/// How many of the first `n` launches are being dispatched.
pub open spec fn dispatching_count(rows: Seq<StagedRow>, n: nat) -> nat
    decreases n,
{
    if n == 0 {
        0
    } else {
        dispatching_count(rows, (n - 1) as nat) + (if rows[n - 1].state
            == StagedLaunchState::Dispatching {
            1nat
        } else {
            0nat
        })
    }
}

impl Store {
    /// Finds the rows that a dispatch concerns, and the credential that its plan
    /// selects, so that the reader can say whether it can read it.
    pub fn plan_dispatch(
        &self,
        request_id: ApprovalRequestId,
        f: &StagedFindings,
        m3_fault: &Option<String>,
        now: &Moment,
    ) -> (r: Result<(DispatchRows, ProviderCredentialSelection), StoreError>)
        ensures
            match r {
                Ok((rows, selection)) => {
                    &&& dispatch_target(self@, request_id, *f, *m3_fault, *now) == Ok::<_, Refusal>(
                        rows@,
                    )
                    &&& rows.grant < self.grants.len()
                    &&& rows.staged < self.staged.len()
                    &&& rows.run < self.identity.runs.len()
                    &&& rows.plan < self.plans.len()
                    &&& rows.graph < self.graphs.len()
                    &&& plan_selection(self.plans@[rows.plan as int].plan) == Some(selection)
                },
                Err(error) => dispatch_target(self@, request_id, *f, *m3_fault, *now) == Err::<
                    DispatchTarget,
                    _,
                >(error@),
            },
    {
        if !same_text(self.lifecycle.as_str(), "ready") {
            return Err(StoreError::CredentialGrantRejected);
        }
        let (grant, a) = match self.find_grant(request_id, &f.request_fault, &f.decision_fault) {
            Ok(found) => found,
            Err(error) => {
                return Err(error);
            },
        };
        let request = &self.approvals[a].request;
        if !self.is_grant_usable(grant, a, now.ms) {
            return Err(StoreError::CredentialGrantRejected);
        }
        let run_id = match request.action.scope.run_id {
            None => {
                return Err(StoreError::CredentialGrantRejected);
            },
            Some(id) => id,
        };
        let staged = match position(&self.staged, run_id) {
            None => {
                return Err(StoreError::CredentialGrantRejected);
            },
            Some(t) => t,
        };
        if self.staged[staged].request_id != request_id || self.staged[staged].state
            != StagedLaunchState::Ready {
            return Err(StoreError::CredentialGrantRejected);
        }
        let run = match position(&self.identity.runs, run_id) {
            None => {
                return Err(StoreError::RunNotFound);
            },
            Some(i) => i,
        };
        match self.validate_staged_context(&self.identity.runs[run], true, true, f) {
            Ok(_) => {},
            Err(error) => {
                return Err(error);
            },
        }
        match self.validate_current_catalog(
            request,
            true,
            &f.catalog_fault,
            &f.authority_fault,
            m3_fault,
        ) {
            Ok(_) => {},
            Err(error) => {
                return Err(error);
            },
        }
        match self.load_launch_plan(run_id) {
            Ok(_) => {},
            Err(error) => {
                return Err(error);
            },
        }
        let plan = match position(&self.plans, run_id) {
            None => {
                return Err(StoreError::InvalidRunState("launch plan unavailable".to_owned()));
            },
            Some(p) => p,
        };
        let selection = match &self.plans[plan].plan.identity.account {
            None => {
                return Err(StoreError::CredentialGrantRejected);
            },
            Some(account) => match &account.credential {
                None => {
                    return Err(StoreError::CredentialGrantRejected);
                },
                Some(credential) => credential.copy(),
            },
        };
        let graph = match position(&self.graphs, self.plans[plan].plan.execution_id) {
            None => {
                return Err(constraint_failed());
            },
            Some(g) => g,
        };
        Ok((DispatchRows { grant, staged, run, plan, graph }, selection))
    }

    /// Spends the grant of an approved launch and claims the launch, in one step
    /// and once.
    #[verifier::rlimit(60)]
    pub fn claim_staged_dispatch(
        &mut self,
        request_id: ApprovalRequestId,
        f: &StagedFindings,
        m3_fault: &Option<String>,
        reader_accepts: bool,
        findings: ClaimFindings,
        now: &Moment,
    ) -> (r: Result<DispatchClaim, StoreError>)
        ensures
            match dispatch_target(old(self)@, request_id, *f, *m3_fault, *now) {
                Err(refusal) => r is Err && r->Err_0@ == refusal && *final(self) == *old(self),
                Ok(t) => match claim_refusal(old(self)@, t, reader_accepts, findings) {
                    Some(refusal) => r is Err && r->Err_0@ == refusal && *final(self) == *old(self),
                    None => {
                        &&& r is Ok
                        &&& claim_is(r->Ok_0, old(self)@, t, findings.activated->Ok_0)
                        &&& dispatched(
                            old(self)@,
                            final(self)@,
                            request_id,
                            t,
                            findings.activated->Ok_0,
                            *now,
                        )
                    },
                },
            },
    {
        let (rows, selection) = match self.plan_dispatch(request_id, f, m3_fault, now) {
            Ok(found) => found,
            Err(error) => {
                return Err(error);
            },
        };
        if !reader_accepts {
            return Err(StoreError::CredentialGrantRejected);
        }
        let graph = match findings.activated {
            Ok(graph) => graph,
            Err(error) => {
                return Err(StoreError::InvalidGraph(error));
            },
        };
        if let Some(fault) = &graph.fault {
            return Err(StoreError::InvalidGraph(fault.copy()));
        }
        if self.identity.runs[rows.run].metadata.revision == u64::MAX {
            return Err(StoreError::RevisionOverflow);
        }
        if let Some(fault) = findings.catalog_fault {
            return Err(StoreError::InvalidCatalog(fault));
        }
        let identity_revision = match next_revision(self.identity_revision) {
            Ok(revision) => revision,
            Err(error) => {
                return Err(error);
            },
        };
        let run_id = self.staged[rows.staged].run_id;
        let graph_revision = graph.execution.revision;
        if position(&self.claims, run_id).is_some() || graph_revision > MAX_STORED
            || !self.has_journal_room(2) {
            return Err(constraint_failed());
        }
        let consumed = Payload::new().uid("request_id", request_id).uid_option(
            "run_id",
            Some(run_id),
        ).finish();
        let claimed = Payload::new().uid("request_id", request_id).uid_option(
            "run_id",
            Some(run_id),
        ).finish();
        let plan = &self.plans[rows.plan].plan;
        let mut receipt = BeginGraphNodeRunReceipt {
            protocol_version: PROTOCOL_VERSION,
            execution_id: plan.execution_id,
            node_id: plan.node_id,
            session_id: plan.session_id,
            run_id,
            launch_identity: Some(plan.identity.copy()),
            adapter_kind: plan.identity.adapter_kind.clone(),
            model: plan.identity.model.clone(),
            workspace_root: plan.workspace_root.clone(),
            prompt: plan.prompt.clone(),
            catalog_revision: identity_revision,
            graph_revision,
            event_sequence: 0,
        };
        self.insert_event("credential.grant_consumed", consumed, now);
        let ghost middle = self@.events;
        receipt.event_sequence =
        self.insert_event("provider_launch.dispatch_claimed", claimed, now);
        assert(self@.events.drop_last() == middle);
        self.identity_revision = identity_revision;
        let run = &mut self.identity.runs[rows.run];
        run.state = NormalizedRunState::Starting;
        run.started_at = Some(now.text.clone());
        run.metadata.revision = run.metadata.revision + 1;
        run.metadata.updated_at = now.text.clone();
        let row = &mut self.graphs[rows.graph];
        row.revision = graph_revision;
        row.graph = graph;
        row.updated_at = now.text.clone();
        self.grants[rows.grant].consumed_at_ms = Some(now.ms);
        self.staged[rows.staged].state = StagedLaunchState::Dispatching;
        self.claims.push(ClaimRow { run_id, request_id, claimed_at_ms: now.ms });
        Ok(DispatchClaim { receipt, selection })
    }

    /// Finds the rows that a failed lookup concerns, so that the graph rules can
    /// be asked for the execution after it.
    pub fn plan_lookup_failure(&self, run_id: RunId) -> (r: Result<
        (usize, usize, &ProviderLaunchPlan),
        StoreError,
    >)
        ensures
            match r {
                Ok((i, g, plan)) => fail_target(self@, run_id) == Ok::<_, Refusal>(
                    (i as int, g as int, *plan),
                ) && i < self.identity.runs.len() && g < self.graphs.len(),
                Err(error) => fail_target(self@, run_id) == Err::<
                    (int, int, ProviderLaunchPlan),
                    _,
                >(error@),
            },
    {
        let plan = match self.load_launch_plan(run_id) {
            Ok(plan) => plan,
            Err(error) => {
                return Err(error);
            },
        };
        let i = match position(&self.identity.runs, run_id) {
            None => {
                return Err(StoreError::RunNotFound);
            },
            Some(i) => i,
        };
        if self.identity.runs[i].state != NormalizedRunState::Starting {
            return Err(StoreError::CredentialGrantRejected);
        }
        let g = match position(&self.graphs, plan.execution_id) {
            None => {
                return Err(constraint_failed());
            },
            Some(g) => g,
        };
        let bound = match self.graphs[g].graph.execution.bound_run(plan.node_id) {
            Some(id) => id == run_id,
            None => false,
        };
        if !bound {
            return Err(StoreError::CredentialGrantRejected);
        }
        Ok((i, g, plan))
    }

    /// Resolves a claim whose credential could not be read: the run ends
    /// uncertain, without provider evidence and without a refund.
    #[verifier::rlimit(40)]
    pub fn fail_dispatch_claim(&mut self, run_id: RunId, findings: LookupFindings, now: &Moment) -> (r:
        Result<(), StoreError>)
        ensures
            match fail_target(old(self)@, run_id) {
                Err(refusal) => r is Err && r->Err_0@ == refusal && *final(self) == *old(self),
                Ok((i, g, _)) => match fail_refusal(old(self)@, run_id, i, findings) {
                    Some(refusal) => r is Err && r->Err_0@ == refusal && *final(self) == *old(self),
                    None => r is Ok && lookup_failed(
                        old(self)@,
                        final(self)@,
                        run_id,
                        i,
                        g,
                        findings.finished->Ok_0,
                        *now,
                    ),
                },
            },
    {
        let (i, g) = match self.plan_lookup_failure(run_id) {
            Ok((i, g, _)) => (i, g),
            Err(error) => {
                return Err(error);
            },
        };
        let graph = match findings.finished {
            Ok(graph) => graph,
            Err(error) => {
                return Err(StoreError::InvalidGraph(error));
            },
        };
        if self.identity.runs[i].metadata.revision == u64::MAX {
            return Err(StoreError::RevisionOverflow);
        }
        if let Some(fault) = findings.catalog_fault {
            return Err(StoreError::InvalidCatalog(fault));
        }
        let t = match position(&self.staged, run_id) {
            None => {
                return Err(StoreError::CredentialGrantRejected);
            },
            Some(t) => t,
        };
        if self.staged[t].state != StagedLaunchState::Dispatching {
            return Err(StoreError::CredentialGrantRejected);
        }
        let identity_revision = match next_revision(self.identity_revision) {
            Ok(revision) => revision,
            Err(error) => {
                return Err(error);
            },
        };
        let graph_revision = graph.execution.revision;
        if graph_revision > MAX_STORED || !self.has_journal_room(1) {
            return Err(out_of_range());
        }
        let payload = Payload::new().uid("run_id", run_id).finish();
        self.insert_event("provider_launch.credential_lookup_failed", payload, now);
        self.identity_revision = identity_revision;
        let run = &mut self.identity.runs[i];
        run.state = NormalizedRunState::Uncertain;
        run.metadata.revision = run.metadata.revision + 1;
        run.metadata.updated_at = now.text.clone();
        let row = &mut self.graphs[g];
        row.revision = graph_revision;
        row.graph = graph;
        row.updated_at = now.text.clone();
        self.staged[t].state = StagedLaunchState::Uncertain;
        Ok(())
    }
}

} // verus!

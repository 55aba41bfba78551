use crate::attempts::{check_graph, current_position, graph_refusal, highest_attempt};
use crate::binding::{resolve, resolve_provider_run_binding, ProviderRunBinding, RunBindingView};
use crate::error::{CatalogError, Refusal, StoreError};
use crate::graph::{CheckedGraph, GraphError, GraphExecution};
use crate::identity::{
    entity_metadata, local_metadata, CatalogView, Moment, NormalizedRunState, Run, Session,
};
use crate::json::{fields, json_uid, object, Payload};
use crate::launch::{plan_hash, PlanRow, ProviderLaunchPlan};
use crate::policy::{current_launch_policy, launch_policy};
use crate::protocol::{BeginGraphNodeRunCommand, BeginGraphNodeRunReceipt, PROTOCOL_VERSION};
use crate::store::{
    bump_refusal, constraint_failed, journal_room, journaled, next_revision, next_sequence,
    out_of_range, GraphRow, LaunchRecord, NodeRun, Store, StoreView, MAX_STORED,
};
use crate::text::same_text;
use crate::uid::{find, position, GraphNodeId, GraphRunId, RunId, SessionId};
use vstd::prelude::*;

verus! {

/// What the domain rules make of the start of a run: the execution after the
/// node was claimed and bound to the run, and what is wrong with the catalog
/// after it.
#[derive(Debug)]
pub struct BeginFindings {
    pub begun: Result<CheckedGraph, GraphError>,
    pub catalog_fault: Option<CatalogError>,
}

/// The execution that a run starts in, and what its provider is told.
pub ghost struct BeginTarget {
    pub graph: int,
    pub binding: RunBindingView,
}

/// Where a run starts and what its provider is told; or why it cannot start. A
/// provider launch names the binding that it was decided on and needs a daemon
/// that is ready.
pub open spec fn begin_target(
    s: StoreView,
    id: GraphRunId,
    c: BeginGraphNodeRunCommand,
    expected: Option<RunBindingView>,
) -> Result<BeginTarget, Refusal> {
    if expected is Some && s.lifecycle != "ready"@ {
        Err(Refusal::InvalidLifecycle { expected: "ready"@, actual: s.lifecycle })
    } else if s.identity_revision != c.expected_catalog_revision {
        Err(
            Refusal::RevisionConflict {
                expected: c.expected_catalog_revision,
                actual: s.identity_revision,
            },
        )
    } else {
        match find(s.graphs, id) {
            None => Err(Refusal::GraphNotFound),
            Some(g) => if s.graphs[g].revision != c.expected_graph_revision {
                Err(
                    Refusal::RevisionConflict {
                        expected: c.expected_graph_revision,
                        actual: s.graphs[g].revision,
                    },
                )
            } else {
                match graph_refusal(s.graphs[g], s.outputs) {
                    Some(refusal) => Err(refusal),
                    None => match resolve(
                        s.identity,
                        s.m3,
                        s.graphs[g].graph.execution,
                        c.node_id,
                    ) {
                        Err(refusal) => Err(refusal),
                        Ok(binding) => if expected is Some && expected != Some(binding) {
                            Err(Refusal::InvalidRunState("provider launch inputs changed"@))
                        } else {
                            Ok(BeginTarget { graph: g, binding })
                        },
                    },
                }
            },
        }
    }
}

/// Why an execution is not one in which a node was bound to a run and nothing
/// changed in what the run is to do.
pub open spec fn begun_refusal(
    s: StoreView,
    id: GraphRunId,
    c: BeginGraphNodeRunCommand,
    run_id: RunId,
    begun: GraphExecution,
) -> Option<Refusal> {
    let before = s.graphs[find(s.graphs, id)->0].graph.execution;
    if begun.spec_bound_run(c.node_id) != Some(run_id) {
        Some(Refusal::InvalidGraph(GraphError::InvalidExecution))
    } else {
        match resolve(s.identity, s.m3, begun, c.node_id) {
            Err(refusal) => Some(refusal),
            Ok(binding) => if Ok::<_, Refusal>(binding) == resolve(
                s.identity,
                s.m3,
                before,
                c.node_id,
            ) {
                None
            } else {
                Some(Refusal::InvalidRunState("provider launch inputs changed"@))
            },
        }
    }
}

/// Why the start of a run is refused once it is known where it starts.
pub open spec fn begin_refusal(
    s: StoreView,
    id: GraphRunId,
    c: BeginGraphNodeRunCommand,
    session_id: SessionId,
    run_id: RunId,
    findings: BeginFindings,
) -> Option<Refusal> {
    if findings.begun is Err {
        Some(Refusal::InvalidGraph(findings.begun->Err_0))
    } else if begun_refusal(s, id, c, run_id, findings.begun->Ok_0.execution) is Some {
        begun_refusal(s, id, c, run_id, findings.begun->Ok_0.execution)
    } else if highest_attempt(s.node_runs, id, c.node_id) >= MAX_STORED {
        Some(Refusal::Database)
    } else if findings.catalog_fault is Some {
        Some(Refusal::InvalidCatalog(findings.catalog_fault->0))
    } else if bump_refusal(s.identity_revision) is Some {
        bump_refusal(s.identity_revision)
    } else if findings.begun->Ok_0.execution.revision > MAX_STORED || find(s.node_runs, run_id)
        is Some || find(s.plans, run_id) is Some || find(s.identity.runs, run_id) is Some || find(
        s.identity.sessions,
        session_id,
    ) is Some || !journal_room(s.events, 1) {
        Some(Refusal::Database)
    } else {
        None
    }
}

/// A session that the daemon opens for a run.
pub open spec fn opened_session(session: Session, id: SessionId, binding: RunBindingView, now: Moment) -> bool {
    &&& local_metadata(session.metadata, id, "graph_node_run"@, now)
    &&& session.agent_instance_id == binding.agent_instance_id
    &&& session.project_id == binding.project_id
    &&& session.provider_session_id is None
}

/// A run as it is entered in the catalog: started, or waiting for the approval
/// of its credential use.
pub open spec fn opened_run(
    run: Run,
    id: RunId,
    session_id: SessionId,
    binding: RunBindingView,
    staged: bool,
    now: Moment,
) -> bool {
    &&& local_metadata(run.metadata, id, "graph_node_run"@, now)
    &&& run.session_id == session_id
    &&& run.model_id == binding.model_id
    &&& run.finished_at is None
    &&& if staged {
        run.state == NormalizedRunState::AwaitingApproval && run.started_at is None
    } else {
        run.state == NormalizedRunState::Starting && run.started_at == Some(now.text)
    }
}

/// A new attempt, with the identity selected for it.
pub open spec fn opened_attempt(
    row: NodeRun,
    id: GraphRunId,
    c: BeginGraphNodeRunCommand,
    run_id: RunId,
    attempt: int,
    binding: RunBindingView,
    now: Moment,
) -> bool {
    &&& row.execution_id == id
    &&& row.node_id == c.node_id
    &&& row.run_id == run_id
    &&& row.attempt == attempt
    &&& row.created_at == now.text
    &&& row.finished_at is None
    &&& row.terminal_state is None
    &&& row.failure is None
    &&& row.launch is Selected
    &&& row.launch->Selected_0@ == binding.launch_identity
}

/// The immutable plan of a run.
pub open spec fn opened_plan(
    row: PlanRow,
    s: StoreView,
    id: GraphRunId,
    c: BeginGraphNodeRunCommand,
    session_id: SessionId,
    run_id: RunId,
    t: BeginTarget,
) -> bool {
    let nodes = s.graphs[t.graph].graph.execution.graph.nodes@;
    &&& row.run_id == run_id
    &&& row.plan_hash@ == plan_hash(row.plan)
    &&& row.plan.version == 1
    &&& row.plan.execution_id == id
    &&& row.plan.node_id == c.node_id
    &&& row.plan.session_id == session_id
    &&& row.plan.run_id == run_id
    &&& row.plan.attempt == highest_attempt(s.node_runs, id, c.node_id) + 1
    &&& row.plan.role_id == nodes[find(nodes, c.node_id)->0].role_id
    &&& row.plan.owner == c.owner
    &&& row.plan.identity@ == t.binding.launch_identity
    &&& row.plan.workspace_root@ == t.binding.workspace_root
    &&& row.plan.prompt@ == t.binding.prompt
    &&& row.plan.policy == launch_policy(
        s.identity,
        t.binding.launch_identity.project_id,
        row.plan.role_id,
    )
}

pub open spec fn begin_payload(id: GraphRunId, c: BeginGraphNodeRunCommand, run_id: RunId) -> Seq<char> {
    object(
        fields().push(("execution_id"@, json_uid(id))).push(("node_id"@, json_uid(c.node_id))).push(
            ("run_id"@, json_uid(run_id)),
        ),
    )
}

/// What the entry of a run changes in the tables, and nothing else. The journal
/// is left to the caller.
pub open spec fn entered(
    pre: StoreView,
    post: StoreView,
    id: GraphRunId,
    c: BeginGraphNodeRunCommand,
    session_id: SessionId,
    run_id: RunId,
    t: BeginTarget,
    graph: CheckedGraph,
    staged: bool,
    now: Moment,
) -> bool {
    &&& opened_session(post.identity.sessions.last(), session_id, t.binding, now)
    &&& opened_run(post.identity.runs.last(), run_id, session_id, t.binding, staged, now)
    &&& opened_attempt(
        post.node_runs.last(),
        id,
        c,
        run_id,
        highest_attempt(pre.node_runs, id, c.node_id) + 1,
        t.binding,
        now,
    )
    &&& opened_plan(post.plans.last(), pre, id, c, session_id, run_id, t)
    &&& post =~= StoreView {
        identity_revision: (pre.identity_revision + 1) as u64,
        identity: CatalogView {
            sessions: pre.identity.sessions.push(post.identity.sessions.last()),
            runs: pre.identity.runs.push(post.identity.runs.last()),
            ..pre.identity
        },
        graphs: pre.graphs.update(
            t.graph,
            GraphRow {
                revision: graph.execution.revision,
                graph,
                updated_at: now.text,
                ..pre.graphs[t.graph]
            },
        ),
        node_runs: pre.node_runs.push(post.node_runs.last()),
        plans: pre.plans.push(post.plans.last()),
        events: post.events,
        ..pre
    }
}

/// The receipt for the start of a run.
pub open spec fn begin_receipt(
    receipt: BeginGraphNodeRunReceipt,
    pre: StoreView,
    id: GraphRunId,
    c: BeginGraphNodeRunCommand,
    session_id: SessionId,
    run_id: RunId,
    t: BeginTarget,
    graph: CheckedGraph,
) -> bool {
    &&& receipt.protocol_version == PROTOCOL_VERSION
    &&& receipt.execution_id == id
    &&& receipt.node_id == c.node_id
    &&& receipt.session_id == session_id
    &&& receipt.run_id == run_id
    &&& receipt.launch_identity is Some
    &&& receipt.launch_identity->0@ == t.binding.launch_identity
    &&& receipt.adapter_kind@ == t.binding.adapter_kind
    &&& receipt.model@ == t.binding.provider_model
    &&& receipt.workspace_root@ == t.binding.workspace_root
    &&& receipt.prompt@ == t.binding.prompt
    &&& receipt.catalog_revision == pre.identity_revision + 1
    &&& receipt.graph_revision == graph.execution.revision
}

pub open spec fn binding_view(binding: Option<&ProviderRunBinding>) -> Option<RunBindingView> {
    match binding {
        Some(binding) => Some(binding@),
        None => None,
    }
}

impl Store {
    /// Finds where a run starts and what its provider is told.
    pub fn plan_begin(
        &self,
        id: GraphRunId,
        command: &BeginGraphNodeRunCommand,
        expected: Option<&ProviderRunBinding>,
    ) -> (r: Result<(usize, ProviderRunBinding), StoreError>)
        ensures
            match r {
                Ok((graph, binding)) => graph < self.graphs.len() && begin_target(
                    self@,
                    id,
                    *command,
                    binding_view(expected),
                ) == Ok::<_, Refusal>(
                    (BeginTarget { graph: graph as int, binding: binding@ }),
                ) && self.graphs@[graph as int].execution_id == id && find(
                    self.graphs@[graph as int].graph.execution.graph.nodes@,
                    command.node_id,
                ) is Some,
                Err(error) => begin_target(self@, id, *command, binding_view(expected)) == Err::<
                    BeginTarget,
                    _,
                >(error@),
            },
    {
        if expected.is_some() && !same_text(self.lifecycle.as_str(), "ready") {
            return Err(
                StoreError::InvalidLifecycle { expected: "ready", actual: self.lifecycle.clone() },
            );
        }
        if self.identity_revision != command.expected_catalog_revision {
            return Err(
                StoreError::RevisionConflict {
                    expected: command.expected_catalog_revision,
                    actual: self.identity_revision,
                },
            );
        }
        let graph = match position(&self.graphs, id) {
            None => {
                return Err(StoreError::GraphNotFound);
            },
            Some(g) => g,
        };
        if self.graphs[graph].revision != command.expected_graph_revision {
            return Err(
                StoreError::RevisionConflict {
                    expected: command.expected_graph_revision,
                    actual: self.graphs[graph].revision,
                },
            );
        }
        match check_graph(&self.graphs[graph], &self.outputs) {
            Ok(_) => {},
            Err(error) => {
                return Err(error);
            },
        }
        let binding = match resolve_provider_run_binding(
            &self.identity,
            &self.m3,
            &self.graphs[graph].graph.execution,
            command.node_id,
        ) {
            Ok(binding) => binding,
            Err(error) => {
                return Err(error);
            },
        };
        if let Some(expected) = expected {
            if !expected.same(&binding) {
                return Err(
                    StoreError::InvalidRunState("provider launch inputs changed".to_owned()),
                );
            }
        }
        Ok((graph, binding))
    }

    fn check_begun(
        &self,
        begun: &GraphExecution,
        node_id: GraphNodeId,
        run_id: RunId,
        binding: &ProviderRunBinding,
    ) -> (r: Result<(), StoreError>)
        ensures
            match r {
                Ok(_) => begun.spec_bound_run(node_id) == Some(run_id) && resolve(
                    self@.identity,
                    self@.m3,
                    *begun,
                    node_id,
                ) == Ok::<_, Refusal>(binding@),
                Err(error) => if begun.spec_bound_run(node_id) != Some(run_id) {
                    error@ == Refusal::InvalidGraph(GraphError::InvalidExecution)
                } else {
                    match resolve(self@.identity, self@.m3, *begun, node_id) {
                        Err(refusal) => error@ == refusal,
                        Ok(other) => other != binding@ && error@ == Refusal::InvalidRunState(
                            "provider launch inputs changed"@,
                        ),
                    }
                },
            },
    {
        let bound = match begun.bound_run(node_id) {
            Some(bound) => bound == run_id,
            None => false,
        };
        if !bound {
            return Err(StoreError::InvalidGraph(GraphError::InvalidExecution));
        }
        match resolve_provider_run_binding(&self.identity, &self.m3, begun, node_id) {
            Err(error) => Err(error),
            Ok(other) => if other.same(binding) {
                Ok(())
            } else {
                Err(StoreError::InvalidRunState("provider launch inputs changed".to_owned()))
            },
        }
    }

    /// Enters a run in all tables but the journal, and hands back the row of the
    /// execution as it was.
    #[verifier::rlimit(40)]
    pub(crate) fn enter_run(
        &mut self,
        id: GraphRunId,
        command: &BeginGraphNodeRunCommand,
        session_id: SessionId,
        run_id: RunId,
        graph_index: usize,
        binding: ProviderRunBinding,
        findings: BeginFindings,
        staged: bool,
        now: &Moment,
    ) -> (r: Result<(BeginGraphNodeRunReceipt, GraphRow), StoreError>)
        requires
            graph_index < old(self).graphs.len(),
            find(old(self)@.graphs, id) == Some(graph_index as int),
            resolve(
                old(self)@.identity,
                old(self)@.m3,
                old(self)@.graphs[graph_index as int].graph.execution,
                command.node_id,
            ) == Ok::<_, Refusal>(binding@),
            find(
                old(self).graphs@[graph_index as int].graph.execution.graph.nodes@,
                command.node_id,
            ) is Some,
        ensures
            match begin_refusal(old(self)@, id, *command, session_id, run_id, findings) {
                Some(refusal) => r is Err && r->Err_0@ == refusal && *final(self) == *old(self),
                None => {
                    let t = BeginTarget { graph: graph_index as int, binding: binding@ };
                    &&& r is Ok
                    &&& r->Ok_0.1 == old(self)@.graphs[graph_index as int]
                    &&& begin_receipt(
                        r->Ok_0.0,
                        old(self)@,
                        id,
                        *command,
                        session_id,
                        run_id,
                        t,
                        findings.begun->Ok_0,
                    )
                    &&& entered(
                        old(self)@,
                        final(self)@,
                        id,
                        *command,
                        session_id,
                        run_id,
                        t,
                        findings.begun->Ok_0,
                        staged,
                        *now,
                    )
                    &&& final(self)@.events == old(self)@.events
                },
            },
    {
        let graph = match findings.begun {
            Ok(graph) => graph,
            Err(error) => {
                return Err(StoreError::InvalidGraph(error));
            },
        };
        match self.check_begun(&graph.execution, command.node_id, run_id, &binding) {
            Ok(_) => {},
            Err(error) => {
                return Err(error);
            },
        }
        let highest: u64 = match current_position(&self.node_runs, id, command.node_id) {
            Some(k) => self.node_runs[k].attempt,
            None => 0,
        };
        if highest >= MAX_STORED {
            return Err(out_of_range());
        }
        if let Some(fault) = findings.catalog_fault {
            return Err(StoreError::InvalidCatalog(fault));
        }
        let identity_revision = match next_revision(self.identity_revision) {
            Ok(revision) => revision,
            Err(error) => {
                return Err(error);
            },
        };
        let graph_revision = graph.execution.revision;
        if graph_revision > MAX_STORED {
            return Err(out_of_range());
        }
        if position(&self.node_runs, run_id).is_some() || position(&self.plans, run_id).is_some()
            || position(&self.identity.runs, run_id).is_some() || position(
            &self.identity.sessions,
            session_id,
        ).is_some() || !self.has_journal_room(1) {
            return Err(constraint_failed());
        }
        let nodes = &self.graphs[graph_index].graph.execution.graph.nodes;
        let role_id = match position(nodes, command.node_id) {
            Some(d) => nodes[d].role_id,
            None => {
                return Err(StoreError::InvalidGraph(GraphError::InvalidExecution));
            },
        };
        let plan = ProviderLaunchPlan {
            version: 1,
            execution_id: id,
            node_id: command.node_id,
            session_id,
            run_id,
            attempt: highest + 1,
            role_id,
            owner: command.owner.clone(),
            identity: binding.launch_identity.copy(),
            workspace_root: binding.workspace_root.clone(),
            prompt: binding.prompt.clone(),
            policy: current_launch_policy(
                &self.identity,
                binding.launch_identity.project_id,
                role_id,
            ),
        };
        let plan_hash = plan.hash();
        let session = Session {
            metadata: entity_metadata(session_id, "graph_node_run", now),
            agent_instance_id: binding.agent_instance_id,
            project_id: binding.project_id,
            provider_session_id: None,
        };
        let run = Run {
            metadata: entity_metadata(run_id, "graph_node_run", now),
            session_id,
            model_id: binding.model_id,
            state: if staged {
                NormalizedRunState::AwaitingApproval
            } else {
                NormalizedRunState::Starting
            },
            started_at: if staged {
                None
            } else {
                Some(now.text.clone())
            },
            finished_at: None,
        };
        let attempt = NodeRun {
            execution_id: id,
            node_id: command.node_id,
            run_id,
            attempt: highest + 1,
            created_at: now.text.clone(),
            finished_at: None,
            terminal_state: None,
            failure: None,
            launch: LaunchRecord::Selected(binding.launch_identity.copy()),
        };
        self.identity_revision = identity_revision;
        self.identity.sessions.push(session);
        self.identity.runs.push(run);
        let mut row = GraphRow {
            execution_id: self.graphs[graph_index].execution_id,
            revision: graph_revision,
            graph,
            updated_at: now.text.clone(),
        };
        core::mem::swap(&mut self.graphs[graph_index], &mut row);
        self.node_runs.push(attempt);
        self.plans.push(PlanRow { run_id, plan, plan_hash });
        let receipt = BeginGraphNodeRunReceipt {
            protocol_version: PROTOCOL_VERSION,
            execution_id: id,
            node_id: command.node_id,
            session_id,
            run_id,
            launch_identity: Some(binding.launch_identity),
            adapter_kind: binding.adapter_kind,
            model: binding.provider_model,
            workspace_root: binding.workspace_root,
            prompt: binding.prompt,
            catalog_revision: identity_revision,
            graph_revision,
            event_sequence: 0,
        };
        Ok((receipt, row))
    }

    pub(crate) fn begin_graph_node_run_inner(
        &mut self,
        id: GraphRunId,
        command: BeginGraphNodeRunCommand,
        expected: Option<&ProviderRunBinding>,
        session_id: SessionId,
        run_id: RunId,
        findings: BeginFindings,
        now: &Moment,
    ) -> (r: Result<BeginGraphNodeRunReceipt, StoreError>)
        ensures
            begin_outcome(
                r,
                *old(self),
                *final(self),
                id,
                command,
                binding_view(expected),
                session_id,
                run_id,
                findings,
                *now,
            ),
    {
        let (graph, binding) = match self.plan_begin(id, &command, expected) {
            Ok(found) => found,
            Err(error) => {
                return Err(error);
            },
        };
        let mut receipt = match self.enter_run(
            id,
            &command,
            session_id,
            run_id,
            graph,
            binding,
            findings,
            false,
            now,
        ) {
            Ok((receipt, _)) => receipt,
            Err(error) => {
                return Err(error);
            },
        };
        let payload = Payload::new().uid("execution_id", id).uid("node_id", command.node_id).uid(
            "run_id",
            run_id,
        ).finish();
        receipt.event_sequence = self.insert_event("graph.node_run_started", payload, now);
        Ok(receipt)
    }

    /// Starts a run of a graph node.
    pub fn begin_graph_node_run(
        &mut self,
        id: GraphRunId,
        command: BeginGraphNodeRunCommand,
        session_id: SessionId,
        run_id: RunId,
        findings: BeginFindings,
        now: &Moment,
    ) -> (r: Result<BeginGraphNodeRunReceipt, StoreError>)
        ensures
            begin_outcome(
                r,
                *old(self),
                *final(self),
                id,
                command,
                None,
                session_id,
                run_id,
                findings,
                *now,
            ),
    {
        self.begin_graph_node_run_inner(id, command, None, session_id, run_id, findings, now)
    }
}

/// The outcome of the start of a run: the first refusal that applies, with the
/// state as it was; or the run entered and journaled.
pub open spec fn begin_outcome(
    r: Result<BeginGraphNodeRunReceipt, StoreError>,
    before: Store,
    after: Store,
    id: GraphRunId,
    c: BeginGraphNodeRunCommand,
    expected: Option<RunBindingView>,
    session_id: SessionId,
    run_id: RunId,
    findings: BeginFindings,
    now: Moment,
) -> bool {
    match begin_target(before@, id, c, expected) {
        Err(refusal) => r is Err && r->Err_0@ == refusal && after == before,
        Ok(t) => match begin_refusal(before@, id, c, session_id, run_id, findings) {
            Some(refusal) => r is Err && r->Err_0@ == refusal && after == before,
            None => {
                let graph = findings.begun->Ok_0;
                &&& r is Ok
                &&& begin_receipt(r->Ok_0, before@, id, c, session_id, run_id, t, graph)
                &&& r->Ok_0.event_sequence == next_sequence(before@.events)
                &&& entered(before@, after@, id, c, session_id, run_id, t, graph, false, now)
                &&& journaled(
                    before@.events,
                    after@.events,
                    "graph.node_run_started"@,
                    begin_payload(id, c, run_id),
                    now,
                )
            },
        },
    }
}

} // verus!

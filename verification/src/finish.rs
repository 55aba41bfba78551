use crate::attempts::{
    check_graph, check_graphs, current_attempt, current_position, execution_position,
    find_execution, graph_refusal, graphs_refusal,
};
use crate::error::{CatalogError, Refusal, StoreError};
use crate::graph::{
    message_keys, failure_key, sanitize_optional_failure, sanitized_option,
    spec_terminal_node_state, terminal_node_state, AdapterFailure, AdapterFailureKind, CheckedGraph,
    GraphError, GraphExecution, GraphNodeOutput, GraphNodeState, NodeExecution, OutputRow,
};
use crate::identity::{
    copy_optional_text, entity_metadata, local_metadata, CatalogView, EntityMetadata, Moment,
    NormalizedRunState, Run, Session,
};
use crate::json::{fields, json_string, json_uid, object, Payload};
use crate::launch::ProviderLaunchIdentity;
use crate::m3::{unknown_cost, CostEvidence, CostLedgerRecord, M3View};
use crate::protocol::{FinishGraphNodeRunCommand, FinishGraphNodeRunReceipt, PROTOCOL_VERSION};
use crate::store::{
    bump_refusal, constraint_failed, journal_room, journaled, next_revision, next_sequence,
    out_of_range, GraphRow, LaunchRecord, NodeRun, Store, StoreView, MAX_STORED,
};
use crate::text::{blank, is_blank};
use crate::uid::{
    find, position, AgentInstanceId, CostRecordId, GraphNodeId, GraphRunId, ModelId, ProjectId,
};
use vstd::prelude::*;
use vstd::string::*;
use vstd::utf8::encode_utf8;

verus! {

/// The largest output, in bytes, that the ledger takes.
pub const MAX_OUTPUT_BYTES: usize = 262144;

/// What the domain rules make of the end of a run: the output they accepted,
/// the execution after it, and what is wrong with the catalogs after it.
#[derive(Debug)]
pub struct FinishFindings {
    pub output: Result<GraphNodeOutput, GraphError>,
    pub finished: Result<CheckedGraph, GraphError>,
    pub catalog_fault: Option<CatalogError>,
    pub m3_fault: Option<String>,
}

/// The rows that the end of a run concerns, and how it ends.
pub ghost struct FinishTarget {
    pub graph: int,
    pub run: int,
    pub session: int,
    pub attempt: int,
    pub malformed: bool,
    pub terminal_state: NormalizedRunState,
    pub graph_state: GraphNodeState,
}

/// The end of a run as it will be recorded, before the graph rules have had
/// their say: what they are to be asked is its state, failure and output.
#[derive(Debug)]
pub struct FinishPlan {
    pub graph: usize,
    pub run: usize,
    pub session: usize,
    pub attempt: usize,
    pub malformed: bool,
    pub terminal_state: NormalizedRunState,
    pub graph_state: GraphNodeState,
    pub failure: Option<AdapterFailure>,
    pub output_markdown: Option<String>,
}

impl View for FinishPlan {
    type V = FinishTarget;

    open spec fn view(&self) -> FinishTarget {
        FinishTarget {
            graph: self.graph as int,
            run: self.run as int,
            session: self.session as int,
            attempt: self.attempt as int,
            malformed: self.malformed,
            terminal_state: self.terminal_state,
            graph_state: self.graph_state,
        }
    }
}

/// A recorded selection that can belong to the run that it is recorded for.
pub open spec fn selection_sound(
    selected: ProviderLaunchIdentity,
    agent: AgentInstanceId,
    project: ProjectId,
    model: ModelId,
) -> bool {
    &&& selected.agent_instance_id == agent
    &&& selected.project_id == project
    &&& selected.model_id == model
    &&& !blank(selected.adapter_kind@)
    &&& !blank(selected.model@)
    &&& match selected.account {
        None => true,
        Some(account) => !blank(account.provider_identity@) && match account.credential {
            None => true,
            Some(reference) => !blank(reference.service@) && !blank(reference.account_label@),
        },
    }
}

pub open spec fn selection_malformed(
    record: LaunchRecord,
    agent: AgentInstanceId,
    project: ProjectId,
    model: ModelId,
) -> bool {
    match record {
        LaunchRecord::Absent => false,
        LaunchRecord::Malformed(_) => true,
        LaunchRecord::Selected(selected) => !selection_sound(selected, agent, project, model),
    }
}

fn is_selection_sound(
    selected: &ProviderLaunchIdentity,
    agent: AgentInstanceId,
    project: ProjectId,
    model: ModelId,
) -> (r: bool)
    ensures
        r == selection_sound(*selected, agent, project, model),
{
    selected.agent_instance_id == agent && selected.project_id == project && selected.model_id
        == model && !is_blank(selected.adapter_kind.as_str()) && !is_blank(selected.model.as_str())
        && match &selected.account {
        None => true,
        Some(account) => !is_blank(account.provider_identity.as_str())
            && match &account.credential {
            None => true,
            Some(reference) => !is_blank(reference.service.as_str()) && !is_blank(
                reference.account_label.as_str(),
            ),
        },
    }
}

/// The states of a run that has not ended and can end.
pub open spec fn can_finish(state: NormalizedRunState) -> bool {
    state == NormalizedRunState::Starting || state == NormalizedRunState::Running || state
        == NormalizedRunState::Cancelling
}

/// Which rows the end of a run concerns, and how it ends; or why it cannot.
pub open spec fn finish_target(s: StoreView, id: GraphRunId, c: FinishGraphNodeRunCommand) -> Result<
    FinishTarget,
    Refusal,
> {
    if s.identity_revision != c.expected_catalog_revision {
        Err(
            Refusal::RevisionConflict {
                expected: c.expected_catalog_revision,
                actual: s.identity_revision,
            },
        )
    } else if s.m3_revision != c.expected_m3_revision {
        Err(
            Refusal::RevisionConflict { expected: c.expected_m3_revision, actual: s.m3_revision },
        )
    } else {
        match find(s.graphs, id) {
            None => Err(Refusal::GraphNotFound),
            Some(g) => if s.graphs[g].revision != c.expected_graph_revision {
                Err(
                    Refusal::RevisionConflict {
                        expected: c.expected_graph_revision,
                        actual: s.graphs[g].revision,
                    },
                )
            } else {
                match graph_refusal(s.graphs[g], s.outputs) {
                    Some(refusal) => Err(refusal),
                    None => finish_attempt(s, id, c, g),
                }
            },
        }
    }
}

/// The part of the search that starts from the execution.
pub open spec fn finish_attempt(s: StoreView, id: GraphRunId, c: FinishGraphNodeRunCommand, g: int) -> Result<
    FinishTarget,
    Refusal,
> {
    let current = current_attempt(s.node_runs, id, c.node_id);
    if s.graphs[g].graph.execution.spec_bound_run(c.node_id) != Some(c.run_id) {
        Err(Refusal::InvalidRunState("run is not the active graph node attempt"@))
    } else if current is None || s.node_runs[current->0].run_id != c.run_id {
        Err(
            Refusal::InvalidRunState(
                "run is not the current attempt for this graph execution and node"@,
            ),
        )
    } else {
        match find(s.identity.runs, c.run_id) {
            None => Err(Refusal::RunNotFound),
            Some(i) => if !can_finish(s.identity.runs[i].state) {
                Err(Refusal::InvalidRunState(s.identity.runs[i].state.spec_label()))
            } else {
                match find(s.identity.sessions, s.identity.runs[i].session_id) {
                    None => Err(Refusal::RunNotFound),
                    Some(j) => match find(s.node_runs, c.run_id) {
                        None => Err(Refusal::Database),
                        Some(k) => finish_outcome(s, c, g, i, j, k),
                    },
                }
            },
        }
    }
}

/// How a run ends. A selection that cannot be its own makes the end uncertain
/// whatever was reported, so that corrupt metadata can neither strand a worker
/// nor authorize a successful result.
pub open spec fn finish_outcome(
    s: StoreView,
    c: FinishGraphNodeRunCommand,
    g: int,
    i: int,
    j: int,
    k: int,
) -> Result<FinishTarget, Refusal> {
    let malformed = selection_malformed(
        s.node_runs[k].launch,
        s.identity.sessions[j].agent_instance_id,
        s.identity.sessions[j].project_id,
        s.identity.runs[i].model_id,
    );
    let terminal_state = if malformed {
        NormalizedRunState::Uncertain
    } else {
        c.terminal_state
    };
    match spec_terminal_node_state(terminal_state) {
        None => Err(Refusal::InvalidRunState(terminal_state.spec_label())),
        Some(graph_state) => if graph_state == GraphNodeState::Succeeded && c.output_markdown
            is None {
            Err(Refusal::InvalidGraph(GraphError::InvalidOutput))
        } else {
            Ok(
                FinishTarget {
                    graph: g,
                    run: i,
                    session: j,
                    attempt: k,
                    malformed,
                    terminal_state,
                    graph_state,
                },
            )
        },
    }
}

/// What is recorded of the failure of a run: that reported, sanitized; for a
/// malformed selection, an unknown failure.
pub open spec fn finish_failure(
    clean: Option<AdapterFailure>,
    malformed: bool,
    reported: Option<AdapterFailure>,
) -> bool {
    if malformed {
        match clean {
            None => false,
            Some(failure) => {
                &&& failure.kind == AdapterFailureKind::Unknown
                &&& failure.message_key@ == failure_key(AdapterFailureKind::Unknown)
                &&& !failure.retryable
                &&& failure.provider_code is None
                &&& failure.redacted_detail is None
            },
        }
    } else {
        sanitized_option(clean, reported)
    }
}

proof fn lemma_unknown_key_is_not_reported()
    ensures
        !message_keys().contains("mvp.failure.unknown"@),
{
    reveal_strlit("mvp.failure.unknown");
    reveal_strlit("adapter.agy.cancelled");
    reveal_strlit("adapter.agy.crashed");
    reveal_strlit("adapter.agy.failed");
    reveal_strlit("adapter.agy.invalid_state");
    reveal_strlit("adapter.agy.timed_out");
    reveal_strlit("codex.failure.bad_request");
    reveal_strlit("codex.failure.context_window_exceeded");
    reveal_strlit("codex.failure.http_connection_failed");
    reveal_strlit("codex.failure.internal_server_error");
    reveal_strlit("codex.failure.response_stream_connection_failed");
    reveal_strlit("codex.failure.response_stream_disconnected");
    reveal_strlit("codex.failure.response_too_many_failed_attempts");
    reveal_strlit("codex.failure.sandbox_error");
    reveal_strlit("codex.failure.timeout");
    reveal_strlit("codex.failure.transport_lost");
    reveal_strlit("codex.failure.unauthorized");
    reveal_strlit("codex.failure.unknown");
    reveal_strlit("codex.failure.usage_limit_exceeded");
    assert("mvp.failure.unknown"@[0] == 'm');
    assert forall|i: int| 0 <= i < message_keys().len() implies #[trigger] message_keys()[i][0]
        != 'm' by {}
}

/// To whom the cost of a run is attributed, and on what ground.
pub ghost struct Attribution {
    pub provider: Seq<char>,
    pub account: Seq<char>,
    pub model: Seq<char>,
    pub source: Seq<char>,
}

/// The attribution of a run's cost: to the identity selected before the run.
/// Where none was recorded, or none that can be its own, it stays unknown; it is
/// never made up from the current catalog.
pub open spec fn attribution(record: LaunchRecord, malformed: bool) -> Attribution {
    if malformed {
        Attribution {
            provider: "unknown"@,
            account: "unknown"@,
            model: "unknown"@,
            source: "local recovery; malformed launch selection; attribution unavailable"@,
        }
    } else {
        match record {
            LaunchRecord::Selected(selected) => Attribution {
                provider: selected.adapter_kind@,
                account: match selected.account {
                    Some(account) => account.provider_identity@,
                    None => "unknown"@,
                },
                model: selected.model@,
                source:
                    "adapter normalized cost event; selected account is not provider-authenticated"@,
            },
            _ => Attribution {
                provider: "unknown"@,
                account: "unknown"@,
                model: "unknown"@,
                source: "adapter normalized cost event; legacy launch attribution unavailable"@,
            },
        }
    }
}

/// The ledger record of what a run cost.
pub open spec fn cost_recorded(
    record: CostLedgerRecord,
    s: StoreView,
    t: FinishTarget,
    c: FinishGraphNodeRunCommand,
    id: CostRecordId,
    now: Moment,
) -> bool {
    let a = attribution(s.node_runs[t.attempt].launch, t.malformed);
    &&& local_metadata(record.metadata, id, "provider_cost_event"@, now)
    &&& record.project_id == s.identity.sessions[t.session].project_id
    &&& record.node_id == c.node_id
    &&& record.run_id == c.run_id
    &&& record.provider@ == a.provider
    &&& record.account@ == a.account
    &&& record.model@ == a.model
    &&& record.source@ == a.source
    &&& record.formula_version is None
    &&& record.reconciliation_state@ == (if t.graph_state == GraphNodeState::Uncertain {
        "uncertain"@
    } else {
        "observed"@
    })
    &&& if t.malformed {
        &&& record.evidence_class == crate::m3::EvidenceClass::Unknown
        &&& record.currency is None
        &&& record.amount_bits is None
        &&& record.input_tokens is None
        &&& record.output_tokens is None
        &&& record.confidence_bits == 0
    } else {
        &&& record.evidence_class == c.cost.evidence_class
        &&& record.currency == c.cost.currency
        &&& record.amount_bits == c.cost.amount_bits
        &&& record.input_tokens == c.cost.input_tokens
        &&& record.output_tokens == c.cost.output_tokens
        &&& record.confidence_bits == c.cost.confidence_bits
    }
}

/// The output that a run leaves, if it leaves one.
pub open spec fn finish_output(
    t: FinishTarget,
    c: FinishGraphNodeRunCommand,
    findings: FinishFindings,
) -> Option<GraphNodeOutput> {
    if t.malformed || c.output_markdown is None {
        None
    } else {
        match findings.output {
            Ok(output) => Some(output),
            Err(_) => None,
        }
    }
}

/// The provider's name for the session, where one was reported that counts.
pub open spec fn finish_session(t: FinishTarget, c: FinishGraphNodeRunCommand) -> Option<String> {
    if t.malformed {
        None
    } else {
        c.provider_session_id
    }
}

/// Why the ledger of outputs cannot take an output.
pub open spec fn output_refusal(s: StoreView, output: Option<GraphNodeOutput>) -> Option<Refusal> {
    match output {
        None => None,
        Some(output) => if find(s.node_runs, output.run_id) is None || find(
            s.outputs,
            output.run_id,
        ) is Some || encode_utf8(output.markdown@).len() == 0 || encode_utf8(
            output.markdown@,
        ).len() > MAX_OUTPUT_BYTES {
            Some(Refusal::Database)
        } else {
            None
        },
    }
}

/// Whether a node of an execution is in a state.
pub open spec fn node_in_state(execution: GraphExecution, node_id: GraphNodeId, state: GraphNodeState) -> bool {
    match find(execution.nodes@, node_id) {
        None => false,
        Some(n) => execution.nodes@[n].state == state,
    }
}

/// An execution with this failure recorded at a node, and nothing else changed.
pub open spec fn failure_recorded(
    stored: GraphExecution,
    finished: GraphExecution,
    node_id: GraphNodeId,
    failure: Option<AdapterFailure>,
) -> bool {
    let n = find(finished.nodes@, node_id)->0;
    &&& stored.nodes@ == finished.nodes@.update(
        n,
        NodeExecution { failure, ..finished.nodes@[n] },
    )
    &&& stored == (GraphExecution { nodes: stored.nodes, ..finished })
}

/// Why the end of a run is refused once it is known which rows it concerns.
pub open spec fn finish_refusal(
    s: StoreView,
    id: GraphRunId,
    c: FinishGraphNodeRunCommand,
    t: FinishTarget,
    findings: FinishFindings,
) -> Option<Refusal> {
    let session = finish_session(t, c);
    if !t.malformed && c.output_markdown is Some && findings.output is Err {
        Some(Refusal::InvalidGraph(findings.output->Err_0))
    } else if t.graph_state == GraphNodeState::Succeeded && c.failure is Some {
        Some(Refusal::InvalidRunState("successful run cannot include failure evidence"@))
    } else if findings.finished is Err {
        Some(Refusal::InvalidGraph(findings.finished->Err_0))
    } else if !node_in_state(findings.finished->Ok_0.execution, c.node_id, t.graph_state) {
        Some(Refusal::InvalidGraph(GraphError::InvalidExecution))
    } else if s.identity.runs[t.run].metadata.revision == u64::MAX {
        Some(Refusal::RevisionOverflow)
    } else if session is Some && blank(session->0@) {
        Some(Refusal::InvalidRunState("empty provider session id"@))
    } else if session is Some && s.identity.sessions[t.session].metadata.revision == u64::MAX {
        Some(Refusal::RevisionOverflow)
    } else if findings.catalog_fault is Some {
        Some(Refusal::InvalidCatalog(findings.catalog_fault->0))
    } else if graphs_refusal(s.graphs, s.outputs) is Some {
        graphs_refusal(s.graphs, s.outputs)
    } else if find_execution(s.graphs, id, 0) is None {
        Some(Refusal::GraphNotFound)
    } else if findings.m3_fault is Some {
        Some(Refusal::InvalidM3(findings.m3_fault->0@))
    } else if bump_refusal(s.identity_revision) is Some {
        bump_refusal(s.identity_revision)
    } else if bump_refusal(s.m3_revision) is Some {
        bump_refusal(s.m3_revision)
    } else if findings.finished->Ok_0.execution.revision > MAX_STORED {
        Some(Refusal::Database)
    } else if output_refusal(s, finish_output(t, c, findings)) is Some {
        output_refusal(s, finish_output(t, c, findings))
    } else if !journal_room(s.events, 1) {
        Some(Refusal::Database)
    } else {
        None
    }
}

/// A run that ended at `now`.
pub open spec fn finished_run(run: Run, state: NormalizedRunState, now: Moment) -> Run {
    Run {
        state,
        finished_at: Some(now.text),
        metadata: EntityMetadata {
            revision: (run.metadata.revision + 1) as u64,
            updated_at: now.text,
            ..run.metadata
        },
        ..run
    }
}

/// A session whose provider has named it, at `now`.
pub open spec fn named_session(session: Session, name: Option<String>, now: Moment) -> Session {
    match name {
        None => session,
        Some(_) => Session {
            provider_session_id: name,
            metadata: EntityMetadata {
                revision: (session.metadata.revision + 1) as u64,
                updated_at: now.text,
                ..session.metadata
            },
            ..session
        },
    }
}

/// The ledger row of an output.
pub open spec fn output_row(id: GraphRunId, output: GraphNodeOutput, now: Moment) -> OutputRow {
    OutputRow {
        execution_id: id,
        node_id: output.node_id,
        run_id: output.run_id,
        content_hash: output.content_hash,
        markdown: output.markdown,
        created_at: now.text,
    }
}

pub open spec fn finish_payload(
    id: GraphRunId,
    c: FinishGraphNodeRunCommand,
    t: FinishTarget,
    cost_record_id: CostRecordId,
) -> Seq<char> {
    object(
        fields().push(("cost_record_id"@, json_uid(cost_record_id))).push(
            ("execution_id"@, json_uid(id)),
        ).push(("node_id"@, json_uid(c.node_id))).push(("run_id"@, json_uid(c.run_id))).push(
            ("terminal_state"@, json_string(t.terminal_state.spec_name())),
        ),
    )
}

/// What the end of a run changes, and nothing else.
pub open spec fn finished(
    pre: StoreView,
    post: StoreView,
    id: GraphRunId,
    c: FinishGraphNodeRunCommand,
    t: FinishTarget,
    cost_record_id: CostRecordId,
    findings: FinishFindings,
    now: Moment,
) -> bool {
    let graph = post.graphs[t.graph].graph;
    let output = finish_output(t, c, findings);
    let failure = post.node_runs[t.attempt].failure;
    &&& finish_failure(failure, t.malformed, c.failure)
    &&& graph.fault == findings.finished->Ok_0.fault
    &&& failure_recorded(graph.execution, findings.finished->Ok_0.execution, c.node_id, failure)
    &&& cost_recorded(post.m3.costs.last(), pre, t, c, cost_record_id, now)
    &&& journaled(
        pre.events,
        post.events,
        "graph.node_run_finished"@,
        finish_payload(id, c, t, cost_record_id),
        now,
    )
    &&& post =~= StoreView {
        identity_revision: (pre.identity_revision + 1) as u64,
        identity: CatalogView {
            runs: pre.identity.runs.update(
                t.run,
                finished_run(pre.identity.runs[t.run], t.terminal_state, now),
            ),
            sessions: pre.identity.sessions.update(
                t.session,
                named_session(pre.identity.sessions[t.session], finish_session(t, c), now),
            ),
            ..pre.identity
        },
        m3_revision: (pre.m3_revision + 1) as u64,
        m3: M3View { costs: pre.m3.costs.push(post.m3.costs.last()), ..pre.m3 },
        graphs: pre.graphs.update(
            t.graph,
            GraphRow {
                revision: graph.execution.revision,
                graph,
                updated_at: now.text,
                ..pre.graphs[t.graph]
            },
        ),
        node_runs: pre.node_runs.update(
            t.attempt,
            NodeRun {
                finished_at: Some(now.text),
                terminal_state: Some(t.terminal_state),
                failure,
                ..pre.node_runs[t.attempt]
            },
        ),
        outputs: match output {
            Some(output) => pre.outputs.push(output_row(id, output, now)),
            None => pre.outputs,
        },
        events: post.events,
        ..pre
    }
}

/// The receipt for the end of a run.
pub open spec fn finish_receipt(
    receipt: FinishGraphNodeRunReceipt,
    pre: StoreView,
    id: GraphRunId,
    c: FinishGraphNodeRunCommand,
    t: FinishTarget,
    cost_record_id: CostRecordId,
    findings: FinishFindings,
) -> bool {
    &&& receipt.protocol_version == PROTOCOL_VERSION
    &&& receipt.execution_id == id
    &&& receipt.node_id == c.node_id
    &&& receipt.run_id == c.run_id
    &&& receipt.cost_record_id == cost_record_id
    &&& receipt.output_content_hash == (match finish_output(t, c, findings) {
        Some(output) => Some(output.content_hash),
        None => None,
    })
    &&& receipt.catalog_revision == pre.identity_revision + 1
    &&& receipt.graph_revision == findings.finished->Ok_0.execution.revision
    &&& receipt.m3_revision == pre.m3_revision + 1
    &&& receipt.event_sequence == next_sequence(pre.events)
}

impl Store {
    /// Finds what the end of a run concerns and how it is to be recorded, so
    /// that the graph rules can be asked for the execution after it.
    pub fn plan_finish(&self, id: GraphRunId, command: &FinishGraphNodeRunCommand) -> (r: Result<
        FinishPlan,
        StoreError,
    >)
        ensures
            match r {
                Ok(plan) => {
                    &&& finish_target(self@, id, *command) == Ok::<_, Refusal>(plan@)
                    &&& finish_failure(plan.failure, plan.malformed, command.failure)
                    &&& plan.output_markdown == (if plan.malformed {
                        None
                    } else {
                        command.output_markdown
                    })
                    &&& plan.graph < self.graphs.len()
                    &&& plan.run < self.identity.runs.len()
                    &&& plan.session < self.identity.sessions.len()
                    &&& plan.attempt < self.node_runs.len()
                },
                Err(error) => finish_target(self@, id, *command) == Err::<FinishTarget, _>(error@),
            },
    {
        if self.identity_revision != command.expected_catalog_revision {
            return Err(
                StoreError::RevisionConflict {
                    expected: command.expected_catalog_revision,
                    actual: self.identity_revision,
                },
            );
        }
        if self.m3_revision != command.expected_m3_revision {
            return Err(
                StoreError::RevisionConflict {
                    expected: command.expected_m3_revision,
                    actual: self.m3_revision,
                },
            );
        }
        let graph = match position(&self.graphs, id) {
            None => {
                return Err(StoreError::GraphNotFound);
            },
            Some(g) => g,
        };
        if self.graphs[graph].revision != command.expected_graph_revision {
            return Err(
                StoreError::RevisionConflict {
                    expected: command.expected_graph_revision,
                    actual: self.graphs[graph].revision,
                },
            );
        }
        match check_graph(&self.graphs[graph], &self.outputs) {
            Ok(_) => {},
            Err(error) => {
                return Err(error);
            },
        }
        let bound = match self.graphs[graph].graph.execution.bound_run(command.node_id) {
            None => false,
            Some(run_id) => run_id == command.run_id,
        };
        if !bound {
            return Err(
                StoreError::InvalidRunState("run is not the active graph node attempt".to_owned()),
            );
        }
        let current = match current_position(&self.node_runs, id, command.node_id) {
            None => false,
            Some(k) => self.node_runs[k].run_id == command.run_id,
        };
        if !current {
            return Err(
                StoreError::InvalidRunState(
                    "run is not the current attempt for this graph execution and node".to_owned(),
                ),
            );
        }
        let run = match position(&self.identity.runs, command.run_id) {
            None => {
                return Err(StoreError::RunNotFound);
            },
            Some(i) => i,
        };
        let state = self.identity.runs[run].state;
        if state != NormalizedRunState::Starting && state != NormalizedRunState::Running && state
            != NormalizedRunState::Cancelling {
            return Err(StoreError::InvalidRunState(state.label()));
        }
        let session = match position(&self.identity.sessions, self.identity.runs[run].session_id) {
            None => {
                return Err(StoreError::RunNotFound);
            },
            Some(j) => j,
        };
        let attempt = match position(&self.node_runs, command.run_id) {
            None => {
                return Err(constraint_failed());
            },
            Some(k) => k,
        };
        let malformed = match &self.node_runs[attempt].launch {
            LaunchRecord::Absent => false,
            LaunchRecord::Malformed(_) => true,
            LaunchRecord::Selected(selected) => !is_selection_sound(
                selected,
                self.identity.sessions[session].agent_instance_id,
                self.identity.sessions[session].project_id,
                self.identity.runs[run].model_id,
            ),
        };
        let terminal_state = if malformed {
            NormalizedRunState::Uncertain
        } else {
            command.terminal_state
        };
        let graph_state = match terminal_node_state(terminal_state) {
            None => {
                return Err(StoreError::InvalidRunState(terminal_state.label()));
            },
            Some(graph_state) => graph_state,
        };
        if graph_state == GraphNodeState::Succeeded && command.output_markdown.is_none() {
            return Err(StoreError::InvalidGraph(GraphError::InvalidOutput));
        }
        let failure = if malformed {
            proof {
                lemma_unknown_key_is_not_reported();
            }
            sanitize_optional_failure(
                &Some(
                    AdapterFailure {
                        kind: AdapterFailureKind::Unknown,
                        message_key: "mvp.failure.unknown".to_owned(),
                        retryable: false,
                        provider_code: None,
                        redacted_detail: None,
                    },
                ),
            )
        } else {
            sanitize_optional_failure(&command.failure)
        };
        let output_markdown = if malformed {
            None
        } else {
            copy_optional_text(&command.output_markdown)
        };
        Ok(
            FinishPlan {
                graph,
                run,
                session,
                attempt,
                malformed,
                terminal_state,
                graph_state,
                failure,
                output_markdown,
            },
        )
    }

    /// Records the end of a run: in the catalog, in the execution, in the attempt
    /// ledger, in the cost ledger, and, where it left an output, in the output
    /// ledger.
    #[verifier::rlimit(60)]
    pub fn finish_graph_node_run(
        &mut self,
        id: GraphRunId,
        command: FinishGraphNodeRunCommand,
        cost_record_id: CostRecordId,
        findings: FinishFindings,
        now: &Moment,
    ) -> (r: Result<FinishGraphNodeRunReceipt, StoreError>)
        ensures
            match finish_target(old(self)@, id, command) {
                Err(refusal) => r is Err && r->Err_0@ == refusal && *final(self) == *old(self),
                Ok(t) => match finish_refusal(old(self)@, id, command, t, findings) {
                    Some(refusal) => r is Err && r->Err_0@ == refusal && *final(self) == *old(self),
                    None => {
                        &&& r is Ok
                        &&& finish_receipt(
                            r->Ok_0,
                            old(self)@,
                            id,
                            command,
                            t,
                            cost_record_id,
                            findings,
                        )
                        &&& finished(
                            old(self)@,
                            final(self)@,
                            id,
                            command,
                            t,
                            cost_record_id,
                            findings,
                            *now,
                        )
                    },
                },
            },
    {
        let plan = match self.plan_finish(id, &command) {
            Ok(plan) => plan,
            Err(error) => {
                return Err(error);
            },
        };
        let ghost t = plan@;
        let output: Option<GraphNodeOutput> = if plan.output_markdown.is_some() {
            match findings.output {
                Ok(output) => Some(output),
                Err(error) => {
                    return Err(StoreError::InvalidGraph(error));
                },
            }
        } else {
            None
        };
        if plan.graph_state == GraphNodeState::Succeeded && command.failure.is_some() {
            return Err(
                StoreError::InvalidRunState(
                    "successful run cannot include failure evidence".to_owned(),
                ),
            );
        }
        let mut graph = match findings.finished {
            Ok(graph) => graph,
            Err(error) => {
                return Err(StoreError::InvalidGraph(error));
            },
        };
        let node = match position(&graph.execution.nodes, command.node_id) {
            None => {
                return Err(StoreError::InvalidGraph(GraphError::InvalidExecution));
            },
            Some(n) => n,
        };
        if graph.execution.nodes[node].state != plan.graph_state {
            return Err(StoreError::InvalidGraph(GraphError::InvalidExecution));
        }
        if self.identity.runs[plan.run].metadata.revision == u64::MAX {
            return Err(StoreError::RevisionOverflow);
        }
        let provider_session_id = if plan.malformed {
            None
        } else {
            command.provider_session_id
        };
        if let Some(name) = &provider_session_id {
            if is_blank(name.as_str()) {
                return Err(StoreError::InvalidRunState("empty provider session id".to_owned()));
            }
            if self.identity.sessions[plan.session].metadata.revision == u64::MAX {
                return Err(StoreError::RevisionOverflow);
            }
        }
        if let Some(fault) = findings.catalog_fault {
            return Err(StoreError::InvalidCatalog(fault));
        }
        match check_graphs(&self.graphs, &self.outputs) {
            Ok(_) => {},
            Err(error) => {
                return Err(error);
            },
        }
        if execution_position(&self.graphs, id).is_none() {
            return Err(StoreError::GraphNotFound);
        }
        if let Some(fault) = findings.m3_fault {
            return Err(StoreError::InvalidM3(fault));
        }
        let identity_revision = match next_revision(self.identity_revision) {
            Ok(revision) => revision,
            Err(error) => {
                return Err(error);
            },
        };
        let m3_revision = match next_revision(self.m3_revision) {
            Ok(revision) => revision,
            Err(error) => {
                return Err(error);
            },
        };
        let graph_revision = graph.execution.revision;
        if graph_revision > MAX_STORED {
            return Err(out_of_range());
        }
        if let Some(output) = &output {
            let size: usize = output.markdown.as_str().as_bytes().len();
            if position(&self.node_runs, output.run_id).is_none() || position(
                &self.outputs,
                output.run_id,
            ).is_some() || size == 0 || size > MAX_OUTPUT_BYTES {
                return Err(constraint_failed());
            }
        }
        if !self.has_journal_room(1) {
            return Err(out_of_range());
        }
        let record = cost_record(
            &self.node_runs[plan.attempt].launch,
            &plan,
            self.identity.sessions[plan.session].project_id,
            command.node_id,
            command.run_id,
            cost_record_id,
            command.cost,
            now,
        );
        let payload = Payload::new().uid("cost_record_id", cost_record_id).uid(
            "execution_id",
            id,
        ).uid("node_id", command.node_id).uid("run_id", command.run_id).string(
            "terminal_state",
            plan.terminal_state.name(),
        ).finish();
        let sequence = self.insert_event("graph.node_run_finished", payload, now);
        let output_content_hash = match &output {
            Some(output) => Some(output.content_hash.clone()),
            None => None,
        };
        self.identity_revision = identity_revision;
        self.m3_revision = m3_revision;
        finish_run(&mut self.identity.runs[plan.run], plan.terminal_state, now);
        if let Some(name) = provider_session_id {
            name_session(&mut self.identity.sessions[plan.session], name, now);
        }
        self.m3.deliverables.costs.push(record);
        record_failure(&mut graph.execution, node, &plan.failure);
        let row = &mut self.graphs[plan.graph];
        row.revision = graph_revision;
        row.graph = graph;
        row.updated_at = now.text.clone();
        let attempt = &mut self.node_runs[plan.attempt];
        attempt.finished_at = Some(now.text.clone());
        attempt.terminal_state = Some(plan.terminal_state);
        attempt.failure = plan.failure;
        if let Some(output) = output {
            self.outputs.push(
                OutputRow {
                    execution_id: id,
                    node_id: output.node_id,
                    run_id: output.run_id,
                    content_hash: output.content_hash,
                    markdown: output.markdown,
                    created_at: now.text.clone(),
                },
            );
        }
        Ok(
            FinishGraphNodeRunReceipt {
                protocol_version: PROTOCOL_VERSION,
                execution_id: id,
                node_id: command.node_id,
                run_id: command.run_id,
                cost_record_id,
                output_content_hash,
                catalog_revision: identity_revision,
                graph_revision,
                m3_revision,
                event_sequence: sequence,
            },
        )
    }
}

fn record_failure(execution: &mut GraphExecution, node: usize, failure: &Option<AdapterFailure>)
    requires
        node < old(execution).nodes.len(),
    ensures
        final(execution).nodes@ == old(execution).nodes@.update(
            node as int,
            NodeExecution { failure: *failure, ..old(execution).nodes@[node as int] },
        ),
        *final(execution) == (GraphExecution { nodes: final(execution).nodes, ..*old(execution) }),
{
    execution.nodes[node].failure = match failure {
        None => None,
        Some(failure) => Some(failure.copy()),
    };
}

fn finish_run(run: &mut Run, state: NormalizedRunState, now: &Moment)
    requires
        old(run).metadata.revision < u64::MAX,
    ensures
        *final(run) == finished_run(*old(run), state, *now),
{
    run.state = state;
    run.finished_at = Some(now.text.clone());
    run.metadata.revision = run.metadata.revision + 1;
    run.metadata.updated_at = now.text.clone();
}

fn name_session(session: &mut Session, name: String, now: &Moment)
    requires
        old(session).metadata.revision < u64::MAX,
    ensures
        *final(session) == named_session(*old(session), Some(name), *now),
{
    session.provider_session_id = Some(name);
    session.metadata.revision = session.metadata.revision + 1;
    session.metadata.updated_at = now.text.clone();
}

fn cost_record(
    launch: &LaunchRecord,
    plan: &FinishPlan,
    project_id: ProjectId,
    node_id: GraphNodeId,
    run_id: crate::uid::RunId,
    cost_record_id: CostRecordId,
    cost: CostEvidence,
    now: &Moment,
) -> (r: CostLedgerRecord)
    ensures
        ({
            let a = attribution(*launch, plan.malformed);
            &&& local_metadata(r.metadata, cost_record_id, "provider_cost_event"@, *now)
            &&& r.project_id == project_id
            &&& r.node_id == node_id
            &&& r.run_id == run_id
            &&& r.provider@ == a.provider
            &&& r.account@ == a.account
            &&& r.model@ == a.model
            &&& r.source@ == a.source
            &&& r.formula_version is None
            &&& r.reconciliation_state@ == (if plan.graph_state == GraphNodeState::Uncertain {
                "uncertain"@
            } else {
                "observed"@
            })
            &&& if plan.malformed {
                &&& r.evidence_class == crate::m3::EvidenceClass::Unknown
                &&& r.currency is None
                &&& r.amount_bits is None
                &&& r.input_tokens is None
                &&& r.output_tokens is None
                &&& r.confidence_bits == 0
            } else {
                &&& r.evidence_class == cost.evidence_class
                &&& r.currency == cost.currency
                &&& r.amount_bits == cost.amount_bits
                &&& r.input_tokens == cost.input_tokens
                &&& r.output_tokens == cost.output_tokens
                &&& r.confidence_bits == cost.confidence_bits
            }
        }),
{
    let cost = if plan.malformed {
        unknown_cost()
    } else {
        cost
    };
    let (provider, account, model, source) = if plan.malformed {
        (
            "unknown".to_owned(),
            "unknown".to_owned(),
            "unknown".to_owned(),
            "local recovery; malformed launch selection; attribution unavailable".to_owned(),
        )
    } else {
        match launch {
            LaunchRecord::Selected(selected) => (
                selected.adapter_kind.clone(),
                match &selected.account {
                    Some(account) => account.provider_identity.clone(),
                    None => "unknown".to_owned(),
                },
                selected.model.clone(),
                "adapter normalized cost event; selected account is not provider-authenticated".to_owned(),
            ),
            _ => (
                "unknown".to_owned(),
                "unknown".to_owned(),
                "unknown".to_owned(),
                "adapter normalized cost event; legacy launch attribution unavailable".to_owned(),
            ),
        }
    };
    CostLedgerRecord {
        metadata: entity_metadata(cost_record_id, "provider_cost_event", now),
        project_id,
        node_id,
        run_id,
        provider,
        account,
        model,
        currency: cost.currency,
        amount_bits: cost.amount_bits,
        input_tokens: cost.input_tokens,
        output_tokens: cost.output_tokens,
        evidence_class: cost.evidence_class,
        source,
        formula_version: None,
        confidence_bits: cost.confidence_bits,
        reconciliation_state: if plan.graph_state == GraphNodeState::Uncertain {
            "uncertain".to_owned()
        } else {
            "observed".to_owned()
        },
    }
}

} // verus!

use crate::attempts::{check_graph, check_graphs, graph_refusal, graphs_refusal};
use crate::deliverables::new_graph_row;
use crate::error::{Refusal, StoreError};
use crate::graph::{
    sanitize_optional_failure, sanitized_option, CheckedGraph, GraphError, GraphExecution,
    GraphNodeState, NodeExecution,
};
use crate::identity::Moment;
use crate::json::{fields, json_uid, object, Payload};
use crate::listing::{law_listing_is_in_order, list_graphs, listed, rows_of};
use crate::protocol::{
    GraphExecutionList, GraphExecutionReceipt, RetryFailedGraphNodeCommand, PROTOCOL_VERSION,
};
use crate::store::{
    constraint_failed, journal_room, journaled, next_sequence, out_of_range, GraphRow, Store,
    StoreView, MAX_STORED,
};
use crate::text::{blank, decimal, is_blank};
use crate::uid::{find, position, GraphNodeId, GraphRunId};
use vstd::prelude::*;

verus! {

/// A node with a durable form of its failure in place of that reported.
pub open spec fn sanitized_node(clean: NodeExecution, node: NodeExecution) -> bool {
    &&& sanitized_option(clean.failure, node.failure)
    &&& clean == (NodeExecution { failure: clean.failure, ..node })
}

/// An execution with the failures of all its nodes sanitized, and nothing else
/// changed.
pub open spec fn sanitized_execution(clean: GraphExecution, execution: GraphExecution) -> bool {
    &&& clean.nodes@.len() == execution.nodes@.len()
    &&& forall|i: int|
        0 <= i < clean.nodes@.len() ==> sanitized_node(
            #[trigger] clean.nodes@[i],
            execution.nodes@[i],
        )
    &&& clean == (GraphExecution { nodes: clean.nodes, ..execution })
}

/// Sanitizes the failures in an execution, so that the graph rules can be asked
/// what they find in it.
pub fn sanitize_execution(execution: GraphExecution) -> (r: GraphExecution)
    ensures
        sanitized_execution(r, execution),
{
    let ghost before = execution;
    let mut execution = execution;
    let mut i: usize = 0;
    while i < execution.nodes.len()
        invariant
            i <= execution.nodes@.len(),
            execution.nodes@.len() == before.nodes@.len(),
            execution == (GraphExecution { nodes: execution.nodes, ..before }),
            forall|j: int|
                0 <= j < i ==> sanitized_node(
                    #[trigger] execution.nodes@[j],
                    before.nodes@[j],
                ),
            forall|j: int|
                i <= j < before.nodes@.len() ==> #[trigger] execution.nodes@[j]
                    == before.nodes@[j],
        decreases execution.nodes@.len() - i,
    {
        assert(execution.nodes@[i as int] == before.nodes@[i as int]);
        let clean = sanitize_optional_failure(&execution.nodes[i].failure);
        execution.nodes[i].failure = clean;
        i += 1;
    }
    execution
}

/// Why an execution is not entered.
pub open spec fn create_graph_refusal(s: StoreView, execution: GraphExecution, fault: Option<GraphError>) -> Option<
    Refusal,
> {
    if fault is Some {
        Some(Refusal::InvalidGraph(fault->0))
    } else if execution.revision > MAX_STORED {
        Some(Refusal::Database)
    } else if find(s.graphs, execution.id) is Some {
        Some(Refusal::GraphConflict)
    } else if !journal_room(s.events, 1) {
        Some(Refusal::Database)
    } else {
        None
    }
}

/// What the entry of an execution changes, and nothing else.
pub open spec fn graph_created(pre: StoreView, post: StoreView, execution: GraphExecution, now: Moment) -> bool {
    let row = post.graphs.last();
    &&& row.execution_id == execution.id
    &&& row.revision == execution.revision
    &&& row.updated_at == now.text
    &&& row.graph.fault is None
    &&& sanitized_execution(row.graph.execution, execution)
    &&& journaled(
        pre.events,
        post.events,
        "graph.execution_created"@,
        object(
            fields().push(("execution_id"@, json_uid(execution.id))).push(
                ("nodes"@, decimal(execution.nodes@.len())),
            ),
        ),
        now,
    )
    &&& post =~= StoreView { graphs: pre.graphs.push(row), events: post.events, ..pre }
}

pub open spec fn graph_receipt(s: StoreView, id: GraphRunId, revision: u64) -> GraphExecutionReceipt {
    GraphExecutionReceipt {
        protocol_version: PROTOCOL_VERSION,
        execution_id: id,
        revision,
        event_sequence: next_sequence(s.events) as u64,
    }
}

/// The row of an execution under a given revision, where it is sound; or why it
/// cannot be worked on.
pub open spec fn graph_target(s: StoreView, id: GraphRunId, expected_revision: u64) -> Result<int, Refusal> {
    match find(s.graphs, id) {
        None => Err(Refusal::GraphNotFound),
        Some(g) => if s.graphs[g].revision != expected_revision {
            Err(
                Refusal::RevisionConflict {
                    expected: expected_revision,
                    actual: s.graphs[g].revision,
                },
            )
        } else {
            match graph_refusal(s.graphs[g], s.outputs) {
                Some(refusal) => Err(refusal),
                None => Ok(g),
            }
        },
    }
}

/// Why a change of an execution is not entered.
pub open spec fn update_refusal(s: StoreView, change: Result<CheckedGraph, GraphError>) -> Option<Refusal> {
    if change is Err {
        Some(Refusal::InvalidGraph(change->Err_0))
    } else if change->Ok_0.fault is Some {
        Some(Refusal::InvalidGraph(change->Ok_0.fault->0))
    } else if change->Ok_0.execution.revision > MAX_STORED || !journal_room(s.events, 1) {
        Some(Refusal::Database)
    } else {
        None
    }
}

/// What a change of an execution changes, and nothing else.
pub open spec fn graph_updated(
    pre: StoreView,
    post: StoreView,
    g: int,
    graph: CheckedGraph,
    kind: Seq<char>,
    payload: Seq<char>,
    now: Moment,
) -> bool {
    &&& journaled(pre.events, post.events, kind, payload, now)
    &&& post =~= StoreView {
        graphs: pre.graphs.update(
            g,
            GraphRow {
                revision: graph.execution.revision,
                graph,
                updated_at: now.text,
                ..pre.graphs[g]
            },
        ),
        events: post.events,
        ..pre
    }
}

pub open spec fn update_payload(id: GraphRunId, revision: u64) -> Seq<char> {
    object(
        fields().push(("execution_id"@, json_uid(id))).push(("revision"@, decimal(revision as nat))),
    )
}

pub open spec fn retry_payload(id: GraphRunId, node_id: GraphNodeId, revision: u64) -> Seq<char> {
    object(
        fields().push(("execution_id"@, json_uid(id))).push(("node_id"@, json_uid(node_id))).push(
            ("revision"@, decimal(revision as nat)),
        ),
    )
}

/// The outcome of a change of an execution.
pub open spec fn update_outcome<T>(
    r: Result<T, StoreError>,
    value: T,
    before: Store,
    after: Store,
    id: GraphRunId,
    expected_revision: u64,
    change: Result<CheckedGraph, GraphError>,
    kind: Seq<char>,
    payload: Seq<char>,
    now: Moment,
) -> bool {
    match graph_target(before@, id, expected_revision) {
        Err(refusal) => r is Err && r->Err_0@ == refusal && after == before,
        Ok(g) => match update_refusal(before@, change) {
            Some(refusal) => r is Err && r->Err_0@ == refusal && after == before,
            None => {
                &&& r == Ok::<_, StoreError>(value)
                &&& graph_updated(before@, after@, g, change->Ok_0, kind, payload, now)
            },
        },
    }
}

/// The index, from the `from`-th on, of the first execution that was restarted
/// from another.
pub open spec fn find_restart(rows: Seq<GraphRow>, original: GraphRunId, from: int) -> Option<int>
    decreases rows.len() - from,
{
    if from < 0 || from >= rows.len() {
        None
    } else if rows[from].graph.execution.restarted_from_execution_id == Some(original) {
        Some(from)
    } else {
        find_restart(rows, original, from + 1)
    }
}

fn restart_position(rows: &Vec<&GraphRow>, original: GraphRunId) -> (r: Option<usize>)
    ensures
        match r {
            Some(i) => find_restart(rows_of(rows@), original, 0) == Some(i as int) && i
                < rows@.len(),
            None => find_restart(rows_of(rows@), original, 0) is None,
        },
{
    let ghost all = rows_of(rows@);
    let mut i: usize = 0;
    while i < rows.len()
        invariant
            i <= rows@.len(),
            all == rows_of(rows@),
            find_restart(all, original, 0) == find_restart(all, original, i as int),
        decreases rows@.len() - i,
    {
        assert(all[i as int] == *rows@[i as int]);
        let restarted = match rows[i].graph.execution.restarted_from_execution_id {
            Some(id) => id == original,
            None => false,
        };
        if restarted {
            return Some(i);
        }
        i += 1;
    }
    None
}

/// How a restart of an execution goes: it has been restarted already, or it is
/// to be restarted now; or why it cannot be.
pub open spec fn restart_target(s: StoreView, original: GraphRunId, expected_revision: u64) -> Result<
    Option<int>,
    Refusal,
> {
    match graph_target(s, original, expected_revision) {
        Err(refusal) => Err(refusal),
        Ok(g) => if graphs_refusal(s.graphs, s.outputs) is Some {
            Err(graphs_refusal(s.graphs, s.outputs)->0)
        } else {
            match find_restart(listed(s.graphs), original, 0) {
                Some(e) => Ok(Some(e)),
                None => match find(
                    s.m3.decision_baselines,
                    s.graphs[g].graph.execution.graph.decision_baseline_id,
                ) {
                    None => Err(Refusal::InvalidMvp("graph DecisionBaseline not found"@)),
                    Some(b) => if blank(s.m3.decision_baselines[b].accepted_by@) || blank(
                        s.m3.decision_baselines[b].accepted_at@,
                    ) {
                        Err(Refusal::InvalidMvp("graph DecisionBaseline is not accepted"@))
                    } else {
                        Ok(None)
                    },
                },
            }
        },
    }
}

/// A restart of an execution in which nothing has been done yet.
pub open spec fn fresh_restart(execution: GraphExecution, original: GraphRunId) -> bool {
    &&& execution.restarted_from_execution_id == Some(original)
    &&& forall|i: int|
        0 <= i < execution.nodes@.len() ==> (#[trigger] execution.nodes@[i]).state
            == GraphNodeState::Pending
}

fn is_fresh_restart(execution: &GraphExecution, original: GraphRunId) -> (r: bool)
    ensures
        r == fresh_restart(*execution, original),
{
    let named = match execution.restarted_from_execution_id {
        Some(id) => id == original,
        None => false,
    };
    if !named {
        return false;
    }
    let mut i: usize = 0;
    while i < execution.nodes.len()
        invariant
            i <= execution.nodes@.len(),
            forall|j: int|
                0 <= j < i ==> (#[trigger] execution.nodes@[j]).state == GraphNodeState::Pending,
        decreases execution.nodes@.len() - i,
    {
        if execution.nodes[i].state != GraphNodeState::Pending {
            assert(execution.nodes@[i as int].state != GraphNodeState::Pending);
            return false;
        }
        i += 1;
    }
    true
}

/// Why a restarted execution is not entered.
pub open spec fn restart_refusal(
    s: StoreView,
    original: GraphRunId,
    restarted: Result<CheckedGraph, GraphError>,
    now: Moment,
) -> Option<Refusal> {
    if restarted is Err {
        Some(Refusal::InvalidGraph(restarted->Err_0))
    } else if !fresh_restart(restarted->Ok_0.execution, original) {
        Some(Refusal::InvalidGraph(GraphError::InvalidExecution))
    } else if graph_refusal(new_graph_row(restarted->Ok_0, now), s.outputs) is Some {
        graph_refusal(new_graph_row(restarted->Ok_0, now), s.outputs)
    } else if restarted->Ok_0.execution.revision > MAX_STORED || find(
        s.graphs,
        restarted->Ok_0.execution.id,
    ) is Some || !journal_room(s.events, 1) {
        Some(Refusal::Database)
    } else {
        None
    }
}

/// What the restart of an execution changes, and nothing else.
pub open spec fn graph_restarted(
    pre: StoreView,
    post: StoreView,
    original: GraphRunId,
    graph: CheckedGraph,
    now: Moment,
) -> bool {
    &&& journaled(
        pre.events,
        post.events,
        "graph.execution_restarted_for_missing_output"@,
        object(
            fields().push(("execution_id"@, json_uid(graph.execution.id))).push(
                ("restarted_from_execution_id"@, json_uid(original)),
            ),
        ),
        now,
    )
    &&& post =~= StoreView {
        graphs: pre.graphs.push(new_graph_row(graph, now)),
        events: post.events,
        ..pre
    }
}

impl Store {
    /// Enters an execution. Failures in it are sanitized first; `fault` is what
    /// the graph rules find in it then.
    pub fn create_graph_execution(
        &mut self,
        execution: GraphExecution,
        fault: Option<GraphError>,
        now: &Moment,
    ) -> (r: Result<GraphExecutionReceipt, StoreError>)
        ensures
            match create_graph_refusal(old(self)@, execution, fault) {
                Some(refusal) => r is Err && r->Err_0@ == refusal && *final(self) == *old(self),
                None => {
                    &&& r == Ok::<_, StoreError>(
                        graph_receipt(old(self)@, execution.id, execution.revision),
                    )
                    &&& graph_created(old(self)@, final(self)@, execution, *now)
                },
            },
    {
        if let Some(fault) = fault {
            return Err(StoreError::InvalidGraph(fault));
        }
        if execution.revision > MAX_STORED {
            return Err(out_of_range());
        }
        if position(&self.graphs, execution.id).is_some() {
            return Err(StoreError::GraphConflict);
        }
        if !self.has_journal_room(1) {
            return Err(out_of_range());
        }
        let execution = sanitize_execution(execution);
        let execution_id = execution.id;
        let revision = execution.revision;
        let payload = Payload::new().uid("execution_id", execution_id).number(
            "nodes",
            execution.nodes.len() as u64,
        ).finish();
        let event_sequence = self.insert_event("graph.execution_created", payload, now);
        self.graphs.push(
            GraphRow {
                execution_id,
                revision,
                graph: CheckedGraph { execution, fault: None },
                updated_at: now.text.clone(),
            },
        );
        Ok(
            GraphExecutionReceipt {
                protocol_version: PROTOCOL_VERSION,
                execution_id,
                revision,
                event_sequence,
            },
        )
    }

    /// An execution, where it is sound.
    pub fn graph_execution(&self, id: GraphRunId) -> (r: Result<&GraphExecution, StoreError>)
        ensures
            match find(self@.graphs, id) {
                None => r is Err && r->Err_0@ == Refusal::GraphNotFound,
                Some(g) => match graph_refusal(self@.graphs[g], self@.outputs) {
                    Some(refusal) => r is Err && r->Err_0@ == refusal,
                    None => r is Ok && *r->Ok_0 == self@.graphs[g].graph.execution,
                },
            },
    {
        match position(&self.graphs, id) {
            None => Err(StoreError::GraphNotFound),
            Some(g) => match check_graph(&self.graphs[g], &self.outputs) {
                Ok(_) => Ok(&self.graphs[g].graph.execution),
                Err(error) => Err(error),
            },
        }
    }

    /// All executions, in the order in which they are listed, where all are
    /// sound.
    pub fn graph_executions(&self) -> (r: Result<GraphExecutionList<'_>, StoreError>)
        ensures
            match graphs_refusal(self@.graphs, self@.outputs) {
                Some(refusal) => r is Err && r->Err_0@ == refusal,
                None => {
                    &&& r is Ok
                    &&& r->Ok_0.protocol_version == PROTOCOL_VERSION
                    &&& r->Ok_0.executions@.len() == self@.graphs.len()
                    &&& forall|i: int|
                        0 <= i < self@.graphs.len() ==> *(#[trigger] r->Ok_0.executions@[i])
                            == listed(self@.graphs)[i].graph.execution
                },
            },
    {
        match check_graphs(&self.graphs, &self.outputs) {
            Ok(_) => {},
            Err(error) => {
                return Err(error);
            },
        }
        let rows = list_graphs(&self.graphs);
        proof {
            law_listing_is_in_order(self@.graphs);
        }
        let mut executions: Vec<&GraphExecution> = Vec::new();
        let mut i: usize = 0;
        while i < rows.len()
            invariant
                i <= rows@.len(),
                rows_of(rows@) == listed(self@.graphs),
                executions@.len() == i,
                forall|j: int|
                    0 <= j < i ==> *(#[trigger] executions@[j]) == listed(
                        self@.graphs,
                    )[j].graph.execution,
            decreases rows@.len() - i,
        {
            assert(*rows@[i as int] == rows_of(rows@)[i as int]);
            executions.push(&rows[i].graph.execution);
            i += 1;
        }
        Ok(GraphExecutionList { protocol_version: PROTOCOL_VERSION, executions })
    }

    fn find_graph(&self, id: GraphRunId, expected_revision: u64) -> (r: Result<usize, StoreError>)
        ensures
            match r {
                Ok(g) => graph_target(self@, id, expected_revision) == Ok::<_, Refusal>(g as int)
                    && g < self.graphs.len(),
                Err(error) => graph_target(self@, id, expected_revision) == Err::<int, _>(error@),
            },
    {
        let g = match position(&self.graphs, id) {
            None => {
                return Err(StoreError::GraphNotFound);
            },
            Some(g) => g,
        };
        if self.graphs[g].revision != expected_revision {
            return Err(
                StoreError::RevisionConflict {
                    expected: expected_revision,
                    actual: self.graphs[g].revision,
                },
            );
        }
        match check_graph(&self.graphs[g], &self.outputs) {
            Ok(_) => Ok(g),
            Err(error) => Err(error),
        }
    }

    fn check_change(&self, change: Result<CheckedGraph, GraphError>) -> (r: Result<
        CheckedGraph,
        StoreError,
    >)
        ensures
            match r {
                Ok(graph) => update_refusal(self@, change) is None && change == Ok::<
                    _,
                    GraphError,
                >(graph),
                Err(error) => update_refusal(self@, change) == Some(error@),
            },
    {
        let graph = match change {
            Ok(graph) => graph,
            Err(error) => {
                return Err(StoreError::InvalidGraph(error));
            },
        };
        if let Some(fault) = &graph.fault {
            return Err(StoreError::InvalidGraph(fault.copy()));
        }
        if graph.execution.revision > MAX_STORED || !self.has_journal_room(1) {
            return Err(out_of_range());
        }
        Ok(graph)
    }

    fn put_graph(&mut self, g: usize, graph: CheckedGraph, event_type: &str, payload: String, now: &Moment) -> (r:
        u64)
        requires
            g < old(self).graphs.len(),
            journal_room(old(self)@.events, 1),
        ensures
            r == next_sequence(old(self)@.events),
            graph_updated(
                old(self)@,
                final(self)@,
                g as int,
                graph,
                event_type@,
                payload@,
                *now,
            ),
    {
        let sequence = self.insert_event(event_type, payload, now);
        let row = &mut self.graphs[g];
        row.revision = graph.execution.revision;
        row.graph = graph;
        row.updated_at = now.text.clone();
        sequence
    }

    fn update_graph<T>(
        &mut self,
        id: GraphRunId,
        expected_revision: u64,
        event_type: &str,
        change: Result<CheckedGraph, GraphError>,
        value: T,
        now: &Moment,
    ) -> (r: Result<T, StoreError>)
        ensures
            update_outcome(
                r,
                value,
                *old(self),
                *final(self),
                id,
                expected_revision,
                change,
                event_type@,
                update_payload(id, change->Ok_0.execution.revision),
                *now,
            ),
    {
        let g = match self.find_graph(id, expected_revision) {
            Ok(g) => g,
            Err(error) => {
                return Err(error);
            },
        };
        let graph = match self.check_change(change) {
            Ok(graph) => graph,
            Err(error) => {
                return Err(error);
            },
        };
        let payload = Payload::new().uid("execution_id", id).number(
            "revision",
            graph.execution.revision,
        ).finish();
        self.put_graph(g, graph, event_type, payload, now);
        Ok(value)
    }

    /// Enters an execution in which ready nodes were claimed, and gives the nodes.
    pub fn claim_graph_nodes(
        &mut self,
        id: GraphRunId,
        expected_revision: u64,
        change: Result<CheckedGraph, GraphError>,
        claimed: Vec<GraphNodeId>,
        now: &Moment,
    ) -> (r: Result<Vec<GraphNodeId>, StoreError>)
        ensures
            update_outcome(
                r,
                claimed,
                *old(self),
                *final(self),
                id,
                expected_revision,
                change,
                "graph.nodes_claimed"@,
                update_payload(id, change->Ok_0.execution.revision),
                *now,
            ),
    {
        self.update_graph(id, expected_revision, "graph.nodes_claimed", change, claimed, now)
    }

    /// Enters an execution in which a node was completed.
    pub fn complete_graph_node(
        &mut self,
        id: GraphRunId,
        expected_revision: u64,
        change: Result<CheckedGraph, GraphError>,
        now: &Moment,
    ) -> (r: Result<(), StoreError>)
        ensures
            update_outcome(
                r,
                (),
                *old(self),
                *final(self),
                id,
                expected_revision,
                change,
                "graph.node_completed"@,
                update_payload(id, change->Ok_0.execution.revision),
                *now,
            ),
    {
        self.update_graph(id, expected_revision, "graph.node_completed", change, (), now)
    }

    /// Enters an execution in which a failed node may be tried again.
    pub fn retry_failed_graph_node(
        &mut self,
        id: GraphRunId,
        command: RetryFailedGraphNodeCommand,
        change: Result<CheckedGraph, GraphError>,
        now: &Moment,
    ) -> (r: Result<GraphExecutionReceipt, StoreError>)
        ensures
            update_outcome(
                r,
                graph_receipt(old(self)@, id, change->Ok_0.execution.revision),
                *old(self),
                *final(self),
                id,
                command.expected_graph_revision,
                change,
                "graph.failed_node_retried"@,
                retry_payload(id, command.node_id, change->Ok_0.execution.revision),
                *now,
            ),
    {
        let g = match self.find_graph(id, command.expected_graph_revision) {
            Ok(g) => g,
            Err(error) => {
                return Err(error);
            },
        };
        let graph = match self.check_change(change) {
            Ok(graph) => graph,
            Err(error) => {
                return Err(error);
            },
        };
        let revision = graph.execution.revision;
        let payload = Payload::new().uid("execution_id", id).uid(
            "node_id",
            command.node_id,
        ).number("revision", revision).finish();
        let event_sequence = self.put_graph(g, graph, "graph.failed_node_retried", payload, now);
        Ok(
            GraphExecutionReceipt {
                protocol_version: PROTOCOL_VERSION,
                execution_id: id,
                revision,
                event_sequence,
            },
        )
    }

    /// Restarts an execution that lost an output, once: a second restart of the
    /// same execution gives the first again and changes nothing.
    pub fn restart_missing_output_graph(
        &mut self,
        original_id: GraphRunId,
        expected_graph_revision: u64,
        restarted: Result<CheckedGraph, GraphError>,
        now: &Moment,
    ) -> (r: Result<GraphExecutionReceipt, StoreError>)
        ensures
            match restart_target(old(self)@, original_id, expected_graph_revision) {
                Err(refusal) => r is Err && r->Err_0@ == refusal && *final(self) == *old(self),
                Ok(Some(e)) => {
                    &&& *final(self) == *old(self)
                    &&& r == Ok::<_, StoreError>(
                        (GraphExecutionReceipt {
                            protocol_version: PROTOCOL_VERSION,
                            execution_id: listed(old(self)@.graphs)[e].graph.execution.id,
                            revision: listed(old(self)@.graphs)[e].graph.execution.revision,
                            event_sequence: if old(self)@.events.len() == 0 {
                                0
                            } else {
                                old(self)@.events.last().sequence
                            },
                        }),
                    )
                },
                Ok(None) => match restart_refusal(old(self)@, original_id, restarted, *now) {
                    Some(refusal) => r is Err && r->Err_0@ == refusal && *final(self) == *old(self),
                    None => {
                        &&& r == Ok::<_, StoreError>(
                            graph_receipt(
                                old(self)@,
                                restarted->Ok_0.execution.id,
                                restarted->Ok_0.execution.revision,
                            ),
                        )
                        &&& graph_restarted(
                            old(self)@,
                            final(self)@,
                            original_id,
                            restarted->Ok_0,
                            *now,
                        )
                    },
                },
            },
    {
        let g = match self.find_graph(original_id, expected_graph_revision) {
            Ok(g) => g,
            Err(error) => {
                return Err(error);
            },
        };
        match check_graphs(&self.graphs, &self.outputs) {
            Ok(_) => {},
            Err(error) => {
                return Err(error);
            },
        }
        let rows = list_graphs(&self.graphs);
        if let Some(e) = restart_position(&rows, original_id) {
            let existing = &rows[e].graph.execution;
            assert(*rows@[e as int] == rows_of(rows@)[e as int]);
            return Ok(
                GraphExecutionReceipt {
                    protocol_version: PROTOCOL_VERSION,
                    execution_id: existing.id,
                    revision: existing.revision,
                    event_sequence: if self.events.len() == 0 {
                        0
                    } else {
                        self.events[self.events.len() - 1].sequence
                    },
                },
            );
        }
        let baseline = match position(
            &self.m3.meetings.decision_baselines,
            self.graphs[g].graph.execution.graph.decision_baseline_id,
        ) {
            None => {
                return Err(StoreError::InvalidMvp("graph DecisionBaseline not found".to_owned()));
            },
            Some(b) => &self.m3.meetings.decision_baselines[b],
        };
        if is_blank(baseline.accepted_by.as_str()) || is_blank(baseline.accepted_at.as_str()) {
            return Err(
                StoreError::InvalidMvp("graph DecisionBaseline is not accepted".to_owned()),
            );
        }
        let graph = match restarted {
            Ok(graph) => graph,
            Err(error) => {
                return Err(StoreError::InvalidGraph(error));
            },
        };
        if !is_fresh_restart(&graph.execution, original_id) {
            return Err(StoreError::InvalidGraph(GraphError::InvalidExecution));
        }
        let execution_id = graph.execution.id;
        let revision = graph.execution.revision;
        let row = GraphRow { execution_id, revision, graph, updated_at: now.text.clone() };
        match check_graph(&row, &self.outputs) {
            Ok(_) => {},
            Err(error) => {
                return Err(error);
            },
        }
        if revision > MAX_STORED || position(&self.graphs, execution_id).is_some()
            || !self.has_journal_room(1) {
            return Err(constraint_failed());
        }
        let payload = Payload::new().uid("execution_id", execution_id).uid(
            "restarted_from_execution_id",
            original_id,
        ).finish();
        let event_sequence = self.insert_event(
            "graph.execution_restarted_for_missing_output",
            payload,
            now,
        );
        self.graphs.push(row);
        Ok(
            GraphExecutionReceipt {
                protocol_version: PROTOCOL_VERSION,
                execution_id,
                revision,
                event_sequence,
            },
        )
    }
}

} // verus!

use crate::error::{Refusal, StoreError};
use crate::graph::{ledger_agrees, validate_graph_output_ledger, GraphError, OutputRow};
use crate::listing::{list_graphs, listed, rows_of};
use crate::store::{GraphRow, NodeRun};
use crate::uid::{find, position, GraphNodeId, GraphRunId, RunId};
use vstd::prelude::*;

verus! {

pub open spec fn attempts_at(row: NodeRun, execution_id: GraphRunId, node_id: GraphNodeId) -> bool {
    row.execution_id == execution_id && row.node_id == node_id
}

/// Among the first `n` rows, the index of the one with the highest attempt at a
/// node.
pub open spec fn latest_attempt(
    rows: Seq<NodeRun>,
    execution_id: GraphRunId,
    node_id: GraphNodeId,
    n: nat,
) -> Option<int>
    decreases n,
{
    if n == 0 {
        None
    } else {
        let before = latest_attempt(rows, execution_id, node_id, (n - 1) as nat);
        if attempts_at(rows[n - 1], execution_id, node_id) && (before is None || rows[n - 1].attempt
            > rows[before->0].attempt) {
            Some(n - 1)
        } else {
            before
        }
    }
}

/// The index of the row with the highest attempt at a node.
pub open spec fn current_attempt(rows: Seq<NodeRun>, execution_id: GraphRunId, node_id: GraphNodeId) -> Option<int> {
    latest_attempt(rows, execution_id, node_id, rows.len())
}

/// The number of the highest attempt at a node; zero where there is none.
pub open spec fn highest_attempt(rows: Seq<NodeRun>, execution_id: GraphRunId, node_id: GraphNodeId) -> u64 {
    match current_attempt(rows, execution_id, node_id) {
        Some(i) => rows[i].attempt,
        None => 0,
    }
}

/// Whether a run is the highest attempt at the node that it works on.
pub open spec fn is_current_attempt(rows: Seq<NodeRun>, run_id: RunId) -> bool {
    match find(rows, run_id) {
        Some(i) => rows[i].attempt == highest_attempt(rows, rows[i].execution_id, rows[i].node_id),
        None => false,
    }
}

/// The latest attempt is one at the node, and no attempt at it is higher.
pub proof fn lemma_latest_attempt(rows: Seq<NodeRun>, execution_id: GraphRunId, node_id: GraphNodeId, n: nat)
    requires
        n <= rows.len(),
    ensures
        match latest_attempt(rows, execution_id, node_id, n) {
            Some(i) => 0 <= i < n && attempts_at(rows[i], execution_id, node_id) && forall|j: int|
                0 <= j < n && #[trigger] attempts_at(rows[j], execution_id, node_id)
                    ==> rows[j].attempt <= rows[i].attempt,
            None => forall|j: int|
                0 <= j < n ==> !#[trigger] attempts_at(rows[j], execution_id, node_id),
        },
    decreases n,
{
    if n > 0 {
        lemma_latest_attempt(rows, execution_id, node_id, (n - 1) as nat);
    }
}

pub fn current_position(rows: &Vec<NodeRun>, execution_id: GraphRunId, node_id: GraphNodeId) -> (r: Option<usize>)
    ensures
        match r {
            Some(i) => current_attempt(rows@, execution_id, node_id) == Some(i as int) && i
                < rows@.len() && attempts_at(rows@[i as int], execution_id, node_id),
            None => current_attempt(rows@, execution_id, node_id) is None,
        },
{
    let mut best: Option<usize> = None;
    let mut n: usize = 0;
    while n < rows.len()
        invariant
            n <= rows@.len(),
            match best {
                Some(i) => latest_attempt(rows@, execution_id, node_id, n as nat) == Some(i as int)
                    && i < n && attempts_at(rows@[i as int], execution_id, node_id),
                None => latest_attempt(rows@, execution_id, node_id, n as nat) is None,
            },
        decreases rows@.len() - n,
    {
        let row = &rows[n];
        if row.execution_id == execution_id && row.node_id == node_id {
            match best {
                None => {
                    best = Some(n);
                },
                Some(i) => {
                    if row.attempt > rows[i].attempt {
                        best = Some(n);
                    }
                },
            }
        }
        n += 1;
    }
    best
}

pub fn is_current_run(rows: &Vec<NodeRun>, run_id: RunId) -> (r: bool)
    ensures
        r == is_current_attempt(rows@, run_id),
{
    match position(rows, run_id) {
        None => false,
        Some(i) => match current_position(rows, rows[i].execution_id, rows[i].node_id) {
            None => rows[i].attempt == 0,
            Some(k) => rows[i].attempt == rows[k].attempt,
        },
    }
}

/// What is wrong with a stored execution: what the graph rules found, or a
/// disagreement with the ledger of outputs.
pub open spec fn graph_refusal(row: GraphRow, outputs: Seq<OutputRow>) -> Option<Refusal> {
    match row.graph.fault {
        Some(fault) => Some(Refusal::InvalidGraph(fault)),
        None => if ledger_agrees(outputs, row.graph.execution) {
            None
        } else {
            Some(Refusal::InvalidGraph(GraphError::InvalidOutput))
        },
    }
}

/// What is wrong with the first of some executions, from the `from`-th on, with
/// which anything is.
pub open spec fn first_refusal(rows: Seq<GraphRow>, outputs: Seq<OutputRow>, from: int) -> Option<Refusal>
    decreases rows.len() - from,
{
    if from < 0 || from >= rows.len() {
        None
    } else {
        match graph_refusal(rows[from], outputs) {
            Some(refusal) => Some(refusal),
            None => first_refusal(rows, outputs, from + 1),
        }
    }
}

/// What is wrong with the first stored execution, in the order in which they are
/// listed, with which anything is.
pub open spec fn graphs_refusal(rows: Seq<GraphRow>, outputs: Seq<OutputRow>) -> Option<Refusal> {
    first_refusal(listed(rows), outputs, 0)
}

pub fn check_graph(row: &GraphRow, outputs: &Vec<OutputRow>) -> (r: Result<(), StoreError>)
    ensures
        match r {
            Ok(_) => graph_refusal(*row, outputs@) is None,
            Err(error) => graph_refusal(*row, outputs@) == Some(error@),
        },
{
    match &row.graph.fault {
        Some(fault) => Err(StoreError::InvalidGraph(fault.copy())),
        None => match validate_graph_output_ledger(outputs, &row.graph.execution) {
            Ok(_) => Ok(()),
            Err(fault) => Err(StoreError::InvalidGraph(fault)),
        },
    }
}

/// Whether every stored execution is sound.
pub fn check_graphs(rows: &Vec<GraphRow>, outputs: &Vec<OutputRow>) -> (r: Result<(), StoreError>)
    ensures
        match r {
            Ok(_) => graphs_refusal(rows@, outputs@) is None,
            Err(error) => graphs_refusal(rows@, outputs@) == Some(error@),
        },
{
    let found = list_graphs(rows);
    let ghost all = listed(rows@);
    let mut i: usize = 0;
    while i < found.len()
        invariant
            i <= found@.len(),
            all == listed(rows@),
            rows_of(found@) == all,
            first_refusal(all, outputs@, 0) == first_refusal(all, outputs@, i as int),
        decreases found@.len() - i,
    {
        assert(all[i as int] == *found@[i as int]);
        match check_graph(found[i], outputs) {
            Ok(_) => {},
            Err(error) => {
                return Err(error);
            },
        }
        i += 1;
    }
    Ok(())
}

/// Where nothing is wrong with the first execution with which anything is, all
/// are sound.
pub proof fn lemma_all_sound(rows: Seq<GraphRow>, outputs: Seq<OutputRow>, from: int)
    requires
        0 <= from <= rows.len(),
    ensures
        first_refusal(rows, outputs, from) is None <==> forall|i: int|
            from <= i < rows.len() ==> graph_refusal(#[trigger] rows[i], outputs) is None,
    decreases rows.len() - from,
{
    if from < rows.len() {
        lemma_all_sound(rows, outputs, from + 1);
    }
}

/// The index, from the `from`-th on, of the first stored execution that calls
/// itself `id`.
pub open spec fn find_execution(rows: Seq<GraphRow>, id: GraphRunId, from: int) -> Option<int>
    decreases rows.len() - from,
{
    if from < 0 || from >= rows.len() {
        None
    } else if rows[from].graph.execution.id == id {
        Some(from)
    } else {
        find_execution(rows, id, from + 1)
    }
}

pub fn execution_position(rows: &Vec<GraphRow>, id: GraphRunId) -> (r: Option<usize>)
    ensures
        match r {
            Some(i) => find_execution(rows@, id, 0) == Some(i as int) && i < rows@.len(),
            None => find_execution(rows@, id, 0) is None,
        },
{
    let mut i: usize = 0;
    while i < rows.len()
        invariant
            i <= rows@.len(),
            find_execution(rows@, id, 0) == find_execution(rows@, id, i as int),
        decreases rows@.len() - i,
    {
        if rows[i].graph.execution.id == id {
            return Some(i);
        }
        i += 1;
    }
    None
}

} // verus!

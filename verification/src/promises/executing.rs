//! Graph executions: how they are entered, read, changed and restarted.
use crate::attempts::{attempts_at, current_position, is_current_run, lemma_latest_attempt};
use crate::error::StoreError;
use crate::executions::find_restart;
use crate::graph::{
    sanitize_adapter_failure, sanitize_optional_failure, terminal_node_state,
    validate_graph_output_ledger, AdapterFailure, AdapterFailureKind, CheckedGraph, GraphError,
    GraphExecution, GraphNodeOutput, GraphNodeState, OutputRow,
};
use crate::identity::{Moment, NormalizedRunState};
use crate::json::{fields, json_uid};
use crate::listing::{law_listing_is_in_order, listed};
use crate::promises::{changed_at, one_more, runs_kept, told};
use crate::protocol::{GraphExecutionList, GraphExecutionReceipt, RetryFailedGraphNodeCommand};
use crate::store::{GraphRow, NodeRun, Store};
use crate::text::decimal;
use crate::uid::{find, lemma_find, Uid};
use vstd::prelude::*;

verus! {

/// A failure without what a provider said of it.
pub open spec fn cleaned(clean: AdapterFailure, reported: AdapterFailure) -> bool {
    &&& clean.kind == reported.kind
    &&& clean.retryable == reported.retryable
    &&& clean.provider_code is None
    &&& clean.redacted_detail is None
}

/// A recorded failure keeps its kind and whether it can be retried. What the
/// provider said of it goes, and so does every key that is not known.
pub proof fn law_failures_are_cleaned(failure: &AdapterFailure, r: AdapterFailure)
    requires
        call_ensures(sanitize_adapter_failure, (failure,), r),
    ensures
        cleaned(r, *failure),
        failure.message_key@ == "adapter.agy.cancelled"@ || failure.message_key@
            == "adapter.agy.crashed"@ || failure.message_key@ == "adapter.agy.failed"@
            || failure.message_key@ == "adapter.agy.invalid_state"@ || failure.message_key@
            == "adapter.agy.timed_out"@ || failure.message_key@ == "codex.failure.bad_request"@
            || failure.message_key@ == "codex.failure.context_window_exceeded"@
            || failure.message_key@ == "codex.failure.http_connection_failed"@
            || failure.message_key@ == "codex.failure.internal_server_error"@
            || failure.message_key@ == "codex.failure.response_stream_connection_failed"@
            || failure.message_key@ == "codex.failure.response_stream_disconnected"@
            || failure.message_key@ == "codex.failure.response_too_many_failed_attempts"@
            || failure.message_key@ == "codex.failure.sandbox_error"@ || failure.message_key@
            == "codex.failure.timeout"@ || failure.message_key@ == "codex.failure.transport_lost"@
            || failure.message_key@ == "codex.failure.unauthorized"@ || failure.message_key@
            == "codex.failure.unknown"@ || failure.message_key@
            == "codex.failure.usage_limit_exceeded"@ ==> r.message_key@ == failure.message_key@,
        r.message_key@ == failure.message_key@ || r.message_key@ == (match failure.kind {
            AdapterFailureKind::Timeout => "adapter.failure.timeout"@,
            AdapterFailureKind::Cancelled => "adapter.failure.cancelled"@,
            AdapterFailureKind::Authentication => "adapter.failure.authentication"@,
            AdapterFailureKind::Quota => "adapter.failure.quota"@,
            AdapterFailureKind::PermissionDenied => "adapter.failure.permission_denied"@,
            AdapterFailureKind::Crashed => "adapter.failure.crashed"@,
            AdapterFailureKind::ProtocolDrift => "adapter.failure.protocol_drift"@,
            AdapterFailureKind::MalformedOutput => "adapter.failure.malformed_output"@,
            AdapterFailureKind::BinaryMissing => "adapter.failure.binary_missing"@,
            AdapterFailureKind::Unsupported => "adapter.failure.unsupported"@,
            AdapterFailureKind::Unknown => "adapter.failure.unknown"@,
        }),
{
    let keys = crate::graph::message_keys();
    assert(keys[0] == "adapter.agy.cancelled"@);
    assert(keys[1] == "adapter.agy.crashed"@);
    assert(keys[2] == "adapter.agy.failed"@);
    assert(keys[3] == "adapter.agy.invalid_state"@);
    assert(keys[4] == "adapter.agy.timed_out"@);
    assert(keys[5] == "codex.failure.bad_request"@);
    assert(keys[6] == "codex.failure.context_window_exceeded"@);
    assert(keys[7] == "codex.failure.http_connection_failed"@);
    assert(keys[8] == "codex.failure.internal_server_error"@);
    assert(keys[9] == "codex.failure.response_stream_connection_failed"@);
    assert(keys[10] == "codex.failure.response_stream_disconnected"@);
    assert(keys[11] == "codex.failure.response_too_many_failed_attempts"@);
    assert(keys[12] == "codex.failure.sandbox_error"@);
    assert(keys[13] == "codex.failure.timeout"@);
    assert(keys[14] == "codex.failure.transport_lost"@);
    assert(keys[15] == "codex.failure.unauthorized"@);
    assert(keys[16] == "codex.failure.unknown"@);
    assert(keys[17] == "codex.failure.usage_limit_exceeded"@);
}

/// A failure is recorded exactly where one was reported.
pub proof fn law_optional_failures_are_cleaned(
    failure: &Option<AdapterFailure>,
    r: Option<AdapterFailure>,
)
    requires
        call_ensures(sanitize_optional_failure, (failure,), r),
    ensures
        r is Some <==> failure is Some,
        r is Some ==> cleaned(r->0, failure->0),
{
}

/// A run that ended ends its node in the same way, and no other run does.
pub proof fn law_nodes_end_as_their_runs(state: NormalizedRunState, r: Option<GraphNodeState>)
    requires
        call_ensures(terminal_node_state, (state,), r),
    ensures
        state == NormalizedRunState::Succeeded <==> r == Some(GraphNodeState::Succeeded),
        state == NormalizedRunState::Failed <==> r == Some(GraphNodeState::Failed),
        state == NormalizedRunState::Cancelled <==> r == Some(GraphNodeState::Cancelled),
        state == NormalizedRunState::Blocked <==> r == Some(GraphNodeState::Blocked),
        state == NormalizedRunState::Uncertain <==> r == Some(GraphNodeState::Uncertain),
        r is Some ==> r->0 == GraphNodeState::Succeeded || r->0 == GraphNodeState::Failed || r->0
            == GraphNodeState::Cancelled || r->0 == GraphNodeState::Blocked || r->0
            == GraphNodeState::Uncertain,
{
}

/// An execution is entered as it is, but for what its failures quote, under an
/// identifier that no execution had; it is listed last.
pub proof fn law_execution_is_entered_as_given(
    store: &mut Store,
    execution: GraphExecution,
    fault: Option<GraphError>,
    now: &Moment,
    r: Result<GraphExecutionReceipt, StoreError>,
)
    requires
        call_ensures(Store::create_graph_execution, (store, execution, fault, now), r),
    ensures
        r is Ok ==> {
            let row = final(store).graphs@.last();
            &&& one_more(old(store).graphs@, final(store).graphs@)
            &&& row.execution_id == execution.id
            &&& row.revision == execution.revision
            &&& row.updated_at@ == now.text@
            &&& row.graph.fault is None
            &&& row.graph.execution.id == execution.id
            &&& row.graph.execution.revision == execution.revision
            &&& row.graph.execution.restarted_from_execution_id
                == execution.restarted_from_execution_id
            &&& row.graph.execution.graph == execution.graph
            &&& row.graph.execution.outputs@ == execution.outputs@
            &&& row.graph.execution.selected_outputs@ == execution.selected_outputs@
            &&& row.graph.execution.nodes@.len() == execution.nodes@.len()
            &&& r->Ok_0.protocol_version == 1
            &&& r->Ok_0.execution_id == execution.id
            &&& r->Ok_0.revision == execution.revision
            &&& r->Ok_0.event_sequence == final(store).events@.last().sequence
            &&& told(
                old(store).events@,
                final(store).events@,
                "graph.execution_created"@,
                fields().push(("execution_id"@, json_uid(execution.id))).push(
                    ("nodes"@, decimal(execution.nodes@.len())),
                ),
                *now,
            )
            &&& final(store).m3_revision == old(store).m3_revision
            &&& final(store).m3@ == old(store).m3@
            &&& runs_kept(*old(store), *final(store))
        },
        r is Ok ==> forall|i: int|
            #![trigger final(store).graphs@.last().graph.execution.nodes@[i]]
            0 <= i < execution.nodes@.len() ==> {
                let node = final(store).graphs@.last().graph.execution.nodes@[i];
                &&& node.node_id == execution.nodes@[i].node_id
                &&& node.state == execution.nodes@[i].state
                &&& node.owner == execution.nodes@[i].owner
                &&& node.run_id == execution.nodes@[i].run_id
                &&& node.failure is Some <==> execution.nodes@[i].failure is Some
                &&& node.failure is Some ==> cleaned(
                    node.failure->0,
                    execution.nodes@[i].failure->0,
                )
            },
        r is Err ==> *final(store) == *old(store),
        r is Ok ==> fault is None && forall|g: int|
            0 <= g < old(store).graphs@.len() ==> (#[trigger] old(store).graphs@[g]).execution_id
                != execution.id,
        (fault is None && execution.revision <= 0x7fff_ffff_ffff_ffff && (old(store).events@.len()
            > 0 ==> old(store).events@.last().sequence < 0x7fff_ffff_ffff_ffff) && forall|g: int|
            0 <= g < old(store).graphs@.len() ==> (#[trigger] old(store).graphs@[g]).execution_id
                != execution.id) ==> r is Ok,
{
    lemma_find(old(store)@.graphs, execution.id);
    assert(old(store)@.graphs == old(store).graphs@);
    if r is Ok {
        assert(final(store).graphs@.drop_last() == old(store).graphs@);
    }
}

/// Reading an execution gives the one that is recorded under its identifier.
pub proof fn law_execution_is_read_by_its_identifier(
    store: &Store,
    id: Uid,
    r: Result<&GraphExecution, StoreError>,
)
    requires
        call_ensures(Store::graph_execution, (store, id), r),
    ensures
        r is Ok ==> exists|g: int|
            {
                &&& 0 <= g < store.graphs@.len()
                &&& (#[trigger] store.graphs@[g]).execution_id == id
                &&& *r->Ok_0 == store.graphs@[g].graph.execution
                &&& store.graphs@[g].graph.fault is None
            },
        (forall|g: int|
            0 <= g < store.graphs@.len() ==> (#[trigger] store.graphs@[g]).execution_id != id)
            ==> r is Err && r->Err_0 is GraphNotFound,
{
    lemma_find(store@.graphs, id);
    assert(store@.graphs == store.graphs@);
    if r is Ok {
        let g = find(store@.graphs, id)->0;
        assert(store.graphs@[g].execution_id == id);
    }
}

/// All executions are listed: as many as there are, each of them, and no other.
pub proof fn law_all_executions_are_listed(
    store: &Store,
    r: Result<GraphExecutionList<'_>, StoreError>,
)
    requires
        call_ensures(Store::graph_executions, (store,), r),
        r is Ok,
    ensures
        r->Ok_0.protocol_version == 1,
        r->Ok_0.executions@.len() == store.graphs@.len(),
        forall|i: int|
            0 <= i < r->Ok_0.executions@.len() ==> exists|g: int|
                0 <= g < store.graphs@.len() && *(#[trigger] r->Ok_0.executions@[i]) == (
                #[trigger] store.graphs@[g]).graph.execution,
        forall|g: int|
            0 <= g < store.graphs@.len() ==> exists|i: int|
                0 <= i < r->Ok_0.executions@.len() && *(#[trigger] r->Ok_0.executions@[i]) == (
                #[trigger] store.graphs@[g]).graph.execution,
{
    let rows = store@.graphs;
    law_listing_is_in_order(rows);
    assert(rows == store.graphs@);
    broadcast use vstd::seq_lib::group_to_multiset_ensures;
    assert forall|i: int| 0 <= i < r->Ok_0.executions@.len() implies exists|g: int|
        0 <= g < store.graphs@.len() && *(#[trigger] r->Ok_0.executions@[i]) == (
        #[trigger] store.graphs@[g]).graph.execution by {
        let row = listed(rows)[i];
        assert(listed(rows).contains(row));
        assert(listed(rows).to_multiset().count(row) > 0);
        assert(rows.contains(row));
        let g = choose|g: int| 0 <= g < rows.len() && rows[g] == row;
        assert(store.graphs@[g].graph.execution == *r->Ok_0.executions@[i]);
    }
    assert forall|g: int| 0 <= g < store.graphs@.len() implies exists|i: int|
        0 <= i < r->Ok_0.executions@.len() && *(#[trigger] r->Ok_0.executions@[i]) == (
        #[trigger] store.graphs@[g]).graph.execution by {
        let row = rows[g];
        assert(rows.contains(row));
        assert(rows.to_multiset().count(row) > 0);
        assert(listed(rows).contains(row));
        let i = choose|i: int| 0 <= i < listed(rows).len() && listed(rows)[i] == row;
        assert(*r->Ok_0.executions@[i] == store.graphs@[g].graph.execution);
    }
}

/// An execution was changed in its place: its revision, its contents and the
/// time are the new ones, and nothing but the journal changes beside it.
pub open spec fn replaced(
    pre: Store,
    post: Store,
    id: Uid,
    expected_revision: u64,
    graph: CheckedGraph,
    now: Moment,
) -> bool {
    &&& exists|g: int|
        {
            &&& changed_at(pre.graphs@, post.graphs@, g)
            &&& (#[trigger] pre.graphs@[g]).execution_id == id
            &&& pre.graphs@[g].revision == expected_revision
            &&& pre.graphs@[g].graph.fault is None
            &&& post.graphs@[g].execution_id == id
            &&& post.graphs@[g].revision == graph.execution.revision
            &&& post.graphs@[g].graph == graph
            &&& post.graphs@[g].updated_at@ == now.text@
        }
    &&& graph.fault is None
    &&& post.m3_revision == pre.m3_revision
    &&& post.m3@ == pre.m3@
    &&& runs_kept(pre, post)
}

proof fn lemma_replaced(pre: Store, id: Uid, expected_revision: u64)
    ensures
        match crate::executions::graph_target(pre@, id, expected_revision) {
            Ok(g) => 0 <= g < pre.graphs@.len() && pre.graphs@[g].execution_id == id
                && pre.graphs@[g].revision == expected_revision && pre.graphs@[g].graph.fault is None,
            Err(_) => true,
        },
{
    lemma_find(pre@.graphs, id);
}

/// Claiming nodes replaces the execution and gives back the nodes claimed.
pub proof fn law_claim_replaces_the_execution(
    store: &mut Store,
    id: Uid,
    expected_revision: u64,
    change: Result<CheckedGraph, GraphError>,
    claimed: Vec<Uid>,
    now: &Moment,
    r: Result<Vec<Uid>, StoreError>,
)
    requires
        call_ensures(
            Store::claim_graph_nodes,
            (store, id, expected_revision, change, claimed, now),
            r,
        ),
    ensures
        r is Err ==> *final(store) == *old(store),
        change is Err ==> r is Err,
        r is Ok ==> r->Ok_0@ == claimed@ && replaced(
            *old(store),
            *final(store),
            id,
            expected_revision,
            change->Ok_0,
            *now,
        ) && told(
            old(store).events@,
            final(store).events@,
            "graph.nodes_claimed"@,
            fields().push(("execution_id"@, json_uid(id))).push(("revision"@, decimal(change->Ok_0.execution.revision as nat))),
            *now,
        ),
{
    lemma_replaced(*old(store), id, expected_revision);
    if r is Ok {
        let g = crate::executions::graph_target(old(store)@, id, expected_revision)->Ok_0;
        assert(old(store).graphs@[g].execution_id == id);
    }
}

/// Completing a node replaces the execution.
pub proof fn law_completion_replaces_the_execution(
    store: &mut Store,
    id: Uid,
    expected_revision: u64,
    change: Result<CheckedGraph, GraphError>,
    now: &Moment,
    r: Result<(), StoreError>,
)
    requires
        call_ensures(Store::complete_graph_node, (store, id, expected_revision, change, now), r),
    ensures
        r is Err ==> *final(store) == *old(store),
        change is Err ==> r is Err,
        r is Ok ==> replaced(
            *old(store),
            *final(store),
            id,
            expected_revision,
            change->Ok_0,
            *now,
        ) && told(
            old(store).events@,
            final(store).events@,
            "graph.node_completed"@,
            fields().push(("execution_id"@, json_uid(id))).push(("revision"@, decimal(change->Ok_0.execution.revision as nat))),
            *now,
        ),
{
    lemma_replaced(*old(store), id, expected_revision);
    if r is Ok {
        let g = crate::executions::graph_target(old(store)@, id, expected_revision)->Ok_0;
        assert(old(store).graphs@[g].execution_id == id);
    }
}

/// Retrying a failed node replaces the execution and says at which revision it
/// now stands.
pub proof fn law_retry_replaces_the_execution(
    store: &mut Store,
    id: Uid,
    command: RetryFailedGraphNodeCommand,
    change: Result<CheckedGraph, GraphError>,
    now: &Moment,
    r: Result<GraphExecutionReceipt, StoreError>,
)
    requires
        call_ensures(Store::retry_failed_graph_node, (store, id, command, change, now), r),
    ensures
        r is Err ==> *final(store) == *old(store),
        change is Err ==> r is Err,
        r is Ok ==> {
            &&& r->Ok_0.protocol_version == 1
            &&& r->Ok_0.execution_id == id
            &&& r->Ok_0.revision == change->Ok_0.execution.revision
            &&& r->Ok_0.event_sequence == final(store).events@.last().sequence
            &&& replaced(
                *old(store),
                *final(store),
                id,
                command.expected_graph_revision,
                change->Ok_0,
                *now,
            )
            &&& told(
                old(store).events@,
                final(store).events@,
                "graph.failed_node_retried"@,
                fields().push(("execution_id"@, json_uid(id))).push(("node_id"@, json_uid(command.node_id))).push(("revision"@, decimal(change->Ok_0.execution.revision as nat))),
                *now,
            )
        },
{
    lemma_replaced(*old(store), id, command.expected_graph_revision);
    if r is Ok {
        let g = crate::executions::graph_target(
            old(store)@,
            id,
            command.expected_graph_revision,
        )->Ok_0;
        assert(old(store).graphs@[g].execution_id == id);
    }
}

proof fn lemma_found_restart(rows: Seq<GraphRow>, original: Uid, from: int)
    requires
        0 <= from,
    ensures
        match find_restart(rows, original, from) {
            Some(e) => from <= e < rows.len()
                && rows[e].graph.execution.restarted_from_execution_id == Some(original),
            None => forall|e: int|
                from <= e < rows.len() ==> (
                #[trigger] rows[e]).graph.execution.restarted_from_execution_id != Some(original),
        },
    decreases rows.len() - from,
{
    if from < rows.len() && rows[from].graph.execution.restarted_from_execution_id != Some(
        original,
    ) {
        lemma_found_restart(rows, original, from + 1);
    }
}

/// An execution is restarted at most once: a second restart gives the first one
/// back and changes nothing. A first restart enters an execution that names the
/// one it replaces and has yet to begin; the one it replaces stays as it is.
pub proof fn law_restart_happens_once(
    store: &mut Store,
    original_id: Uid,
    expected_revision: u64,
    restarted: Result<CheckedGraph, GraphError>,
    now: &Moment,
    r: Result<GraphExecutionReceipt, StoreError>,
)
    requires
        call_ensures(
            Store::restart_missing_output_graph,
            (store, original_id, expected_revision, restarted, now),
            r,
        ),
    ensures
        r is Err ==> *final(store) == *old(store),
        r is Ok ==> r->Ok_0.protocol_version == 1,
        (r is Ok && exists|g: int|
            0 <= g < old(store).graphs@.len() && (
            #[trigger] old(store).graphs@[g]).graph.execution.restarted_from_execution_id == Some(
                original_id,
            )) ==> {
            &&& *final(store) == *old(store)
            &&& exists|g: int|
                {
                    &&& 0 <= g < old(store).graphs@.len()
                    &&& (
                    #[trigger] old(store).graphs@[g]).graph.execution.restarted_from_execution_id
                        == Some(original_id)
                    &&& r->Ok_0.execution_id == old(store).graphs@[g].graph.execution.id
                    &&& r->Ok_0.revision == old(store).graphs@[g].graph.execution.revision
                }
            &&& r->Ok_0.event_sequence == (if old(store).events@.len() == 0 {
                0
            } else {
                old(store).events@.last().sequence
            })
        },
        (r is Ok && forall|g: int|
            0 <= g < old(store).graphs@.len() ==> (
            #[trigger] old(store).graphs@[g]).graph.execution.restarted_from_execution_id != Some(
                original_id,
            )) ==> {
            let graph = restarted->Ok_0;
            &&& restarted is Ok
            &&& one_more(old(store).graphs@, final(store).graphs@)
            &&& graph.execution.restarted_from_execution_id == Some(original_id)
            &&& forall|i: int|
                0 <= i < graph.execution.nodes@.len() ==> (
                #[trigger] graph.execution.nodes@[i]).state == GraphNodeState::Pending
            &&& final(store).graphs@.last().execution_id == graph.execution.id
            &&& final(store).graphs@.last().revision == graph.execution.revision
            &&& final(store).graphs@.last().graph == graph
            &&& final(store).graphs@.last().updated_at@ == now.text@
            &&& r->Ok_0.execution_id == graph.execution.id
            &&& r->Ok_0.revision == graph.execution.revision
            &&& r->Ok_0.event_sequence == final(store).events@.last().sequence
            &&& told(
                old(store).events@,
                final(store).events@,
                "graph.execution_restarted_for_missing_output"@,
                fields().push(("execution_id"@, json_uid(graph.execution.id))).push(("restarted_from_execution_id"@, json_uid(original_id))),
                *now,
            )
            &&& runs_kept(*old(store), *final(store))
        },
        r is Ok ==> exists|g: int|
            0 <= g < old(store).graphs@.len() && (#[trigger] old(store).graphs@[g]).execution_id
                == original_id && old(store).graphs@[g].revision == expected_revision,
{
    let rows = old(store)@.graphs;
    assert(rows == old(store).graphs@);
    lemma_replaced(*old(store), original_id, expected_revision);
    lemma_found_restart(listed(rows), original_id, 0);
    law_listing_is_in_order(rows);
    broadcast use vstd::seq_lib::group_to_multiset_ensures;
    if r is Ok {
        let g = crate::executions::graph_target(
            old(store)@,
            original_id,
            expected_revision,
        )->Ok_0;
        assert(old(store).graphs@[g].execution_id == original_id);
        match find_restart(listed(rows), original_id, 0) {
            Some(e) => {
                let row = listed(rows)[e];
                assert(listed(rows).contains(row));
                assert(listed(rows).to_multiset().count(row) > 0);
                assert(rows.contains(row));
                let k = choose|k: int| 0 <= k < rows.len() && rows[k] == row;
                assert(old(store).graphs@[k].graph.execution.restarted_from_execution_id == Some(
                    original_id,
                ));
            },
            None => {
                assert forall|k: int| 0 <= k < rows.len() implies (
                #[trigger] rows[k]).graph.execution.restarted_from_execution_id != Some(
                    original_id,
                ) by {
                    let row = rows[k];
                    assert(rows.contains(row));
                    assert(rows.to_multiset().count(row) > 0);
                    assert(listed(rows).contains(row));
                    let e = choose|e: int|
                        0 <= e < listed(rows).len() && listed(rows)[e] == row;
                    assert(listed(rows)[e].graph.execution.restarted_from_execution_id
                        == row.graph.execution.restarted_from_execution_id);
                }
                assert(final(store).graphs@.drop_last() == old(store).graphs@);
            },
        }
    }
}

/// A recorded output is this one, letter for letter.
pub open spec fn put_down(row: OutputRow, execution_id: Uid, output: GraphNodeOutput) -> bool {
    &&& row.execution_id == execution_id
    &&& row.node_id == output.node_id
    &&& row.run_id == output.run_id
    &&& row.content_hash@ == output.content_hash@
    &&& row.markdown@ == output.markdown@
}

/// An execution agrees with the ledger only where each of its outputs is
/// recorded there, letter for letter.
pub proof fn law_outputs_are_held_to_the_ledger(
    rows: &Vec<OutputRow>,
    execution: &GraphExecution,
    r: Result<(), GraphError>,
)
    requires
        call_ensures(validate_graph_output_ledger, (rows, execution), r),
    ensures
        r is Err ==> r->Err_0 == GraphError::InvalidOutput,
        r is Ok ==> forall|k: int|
            0 <= k < execution.outputs@.len() ==> exists|i: int|
                0 <= i < rows@.len() && put_down(
                    #[trigger] rows@[i],
                    execution.id,
                    #[trigger] execution.outputs@[k],
                ),
        (execution.outputs@.len() == 0 && forall|i: int|
            0 <= i < rows@.len() ==> (#[trigger] rows@[i]).execution_id != execution.id) ==> r is Ok,
{
    if r is Ok {
        assert forall|k: int| 0 <= k < execution.outputs@.len() implies exists|i: int|
            0 <= i < rows@.len() && put_down(
                #[trigger] rows@[i],
                execution.id,
                #[trigger] execution.outputs@[k],
            ) by {
            assert(crate::graph::in_ledger(rows@, execution.id, execution.outputs@[k]));
            let i = choose|i: int|
                0 <= i < rows@.len() && #[trigger] crate::graph::records(
                    rows@[i],
                    execution.id,
                    execution.outputs@[k],
                );
            assert(put_down(rows@[i], execution.id, execution.outputs@[k]));
        }
    }
    if forall|i: int| 0 <= i < rows@.len() ==> (#[trigger] rows@[i]).execution_id != execution.id {
        lemma_none_counted(rows@, execution.id, rows@.len());
    }
}

proof fn lemma_none_counted(rows: Seq<OutputRow>, id: Uid, n: nat)
    requires
        n <= rows.len(),
        forall|i: int| 0 <= i < rows.len() ==> (#[trigger] rows[i]).execution_id != id,
    ensures
        crate::graph::ledger_count(rows, id, n) == 0,
    decreases n,
{
    if n > 0 {
        lemma_none_counted(rows, id, (n - 1) as nat);
    }
}

/// The current attempt at a node is one at that node, of that execution, and the
/// highest of them.
pub proof fn law_current_attempt_is_the_highest(
    rows: &Vec<NodeRun>,
    execution_id: Uid,
    node_id: Uid,
    r: Option<usize>,
)
    requires
        call_ensures(current_position, (rows, execution_id, node_id), r),
    ensures
        r is Some ==> r->0 < rows@.len() && rows@[r->0 as int].execution_id == execution_id
            && rows@[r->0 as int].node_id == node_id,
        r is Some ==> forall|j: int|
            0 <= j < rows@.len() && (#[trigger] rows@[j]).execution_id == execution_id
                && rows@[j].node_id == node_id ==> rows@[j].attempt <= rows@[r->0 as int].attempt,
        r is None ==> forall|j: int|
            0 <= j < rows@.len() ==> (#[trigger] rows@[j]).execution_id != execution_id
                || rows@[j].node_id != node_id,
{
    lemma_latest_attempt(rows@, execution_id, node_id, rows@.len());
    assert forall|j: int|
        0 <= j < rows@.len() && (#[trigger] rows@[j]).execution_id == execution_id
            && rows@[j].node_id == node_id implies attempts_at(
        rows@[j],
        execution_id,
        node_id,
    ) by {}
}

/// A run is current exactly while no attempt at its node is higher than its own.
pub proof fn law_current_run_has_the_highest_attempt(rows: &Vec<NodeRun>, run_id: Uid, r: bool)
    requires
        call_ensures(is_current_run, (rows, run_id), r),
    ensures
        r ==> exists|i: int|
            {
                &&& 0 <= i < rows@.len()
                &&& (#[trigger] rows@[i]).run_id == run_id
                &&& forall|j: int|
                    0 <= j < rows@.len() && (#[trigger] rows@[j]).execution_id
                        == rows@[i].execution_id && rows@[j].node_id == rows@[i].node_id
                        ==> rows@[j].attempt <= rows@[i].attempt
            },
        (forall|i: int| 0 <= i < rows@.len() ==> (#[trigger] rows@[i]).run_id != run_id) ==> !r,
{
    lemma_find(rows@, run_id);
    if r {
        let i = find(rows@, run_id)->0;
        let e = rows@[i].execution_id;
        let n = rows@[i].node_id;
        lemma_latest_attempt(rows@, e, n, rows@.len());
        assert(rows@[i].run_id == run_id);
        assert forall|j: int|
            0 <= j < rows@.len() && (#[trigger] rows@[j]).execution_id == rows@[i].execution_id
                && rows@[j].node_id == rows@[i].node_id implies rows@[j].attempt
            <= rows@[i].attempt by {
            assert(attempts_at(rows@[j], e, n));
        }
    }
}

} // verus!

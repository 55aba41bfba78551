//! The start, the progress and the end of a run.
use crate::begin::{begin_target, BeginFindings};
use crate::binding::resolve;
use crate::digest::{hex, sha256};
use crate::error::StoreError;
use crate::identity::{Moment, NormalizedRunState};
use crate::promises::binding::lemma_resolved;
use crate::json::{fields, json_uid};
use crate::promises::{entered_now, one_more, told};
use crate::protocol::{BeginGraphNodeRunCommand, BeginGraphNodeRunReceipt};
use crate::store::Store;
use crate::uid::{find, lemma_find, Uid};
use vstd::prelude::*;
use vstd::utf8::encode_utf8;

verus! {

/// A run starts only under the revisions that the caller has seen, and moves
/// both on.
pub proof fn law_start_is_guarded_by_revisions(
    store: &mut Store,
    id: Uid,
    c: BeginGraphNodeRunCommand,
    session_id: Uid,
    run_id: Uid,
    findings: BeginFindings,
    now: &Moment,
    r: Result<BeginGraphNodeRunReceipt, StoreError>,
)
    requires
        call_ensures(
            Store::begin_graph_node_run,
            (store, id, c, session_id, run_id, findings, now),
            r,
        ),
    ensures
        r is Ok ==> {
            &&& old(store).identity_revision == c.expected_catalog_revision
            &&& final(store).identity_revision == old(store).identity_revision + 1
            &&& r->Ok_0.catalog_revision == final(store).identity_revision
            &&& exists|g: int|
                {
                    &&& 0 <= g < old(store).graphs@.len()
                    &&& (#[trigger] old(store).graphs@[g]).execution_id == id
                    &&& old(store).graphs@[g].revision == c.expected_graph_revision
                    &&& final(store).graphs@[g].graph == findings.begun->Ok_0
                    &&& final(store).graphs@[g].revision == r->Ok_0.graph_revision
                    &&& final(store).graphs@[g].updated_at@ == now.text@
                    &&& r->Ok_0.graph_revision == findings.begun->Ok_0.execution.revision
                }
        },
        r is Err ==> *final(store) == *old(store),
        findings.begun is Err ==> r is Err,
        findings.catalog_fault is Some ==> r is Err,
{
    lemma_find(old(store)@.graphs, id);
    if r is Ok {
        let g = find(old(store)@.graphs, id)->0;
        assert(old(store).graphs@[g].execution_id == id);
    }
}

/// A started run, its session and its attempt are entered as those of the node,
/// at this time and without an end.
pub proof fn law_start_enters_run_session_and_attempt(
    store: &mut Store,
    id: Uid,
    c: BeginGraphNodeRunCommand,
    session_id: Uid,
    run_id: Uid,
    findings: BeginFindings,
    now: &Moment,
    r: Result<BeginGraphNodeRunReceipt, StoreError>,
)
    requires
        call_ensures(
            Store::begin_graph_node_run,
            (store, id, c, session_id, run_id, findings, now),
            r,
        ),
        r is Ok,
    ensures
        one_more(old(store).identity.sessions@, final(store).identity.sessions@),
        one_more(old(store).identity.runs@, final(store).identity.runs@),
        one_more(old(store).node_runs@, final(store).node_runs@),
        one_more(old(store).plans@, final(store).plans@),
        entered_now(
            final(store).identity.sessions@.last().metadata,
            session_id,
            "graph_node_run"@,
            *now,
        ),
        final(store).identity.sessions@.last().provider_session_id is None,
        final(store).identity.sessions@.last().agent_instance_id
            == r->Ok_0.launch_identity->0.agent_instance_id,
        final(store).identity.sessions@.last().project_id
            == r->Ok_0.launch_identity->0.project_id,
        entered_now(
            final(store).identity.runs@.last().metadata,
            run_id,
            "graph_node_run"@,
            *now,
        ),
        final(store).identity.runs@.last().session_id == session_id,
        final(store).identity.runs@.last().model_id == r->Ok_0.launch_identity->0.model_id,
        final(store).identity.runs@.last().state == NormalizedRunState::Starting,
        final(store).identity.runs@.last().started_at is Some,
        final(store).identity.runs@.last().started_at->0@ == now.text@,
        final(store).identity.runs@.last().finished_at is None,
        final(store).node_runs@.last().execution_id == id,
        final(store).node_runs@.last().node_id == c.node_id,
        final(store).node_runs@.last().run_id == run_id,
        final(store).node_runs@.last().created_at@ == now.text@,
        final(store).node_runs@.last().finished_at is None,
        final(store).node_runs@.last().terminal_state is None,
        final(store).node_runs@.last().failure is None,
        final(store).node_runs@.last().launch is Selected,
        final(store).node_runs@.last().launch->Selected_0@ == r->Ok_0.launch_identity->0@,
        final(store).node_runs@.last().attempt >= 1,
        forall|k: int|
            0 <= k < old(store).node_runs@.len() && (
            #[trigger] old(store).node_runs@[k]).execution_id == id
                && old(store).node_runs@[k].node_id == c.node_id
                ==> old(store).node_runs@[k].attempt < final(store).node_runs@.last().attempt,
        told(
            old(store).events@,
            final(store).events@,
            "graph.node_run_started"@,
            fields().push(("execution_id"@, json_uid(id))).push(
                ("node_id"@, json_uid(c.node_id)),
            ).push(("run_id"@, json_uid(run_id))),
            *now,
        ),
        r->Ok_0.event_sequence == final(store).events@.last().sequence,
        final(store).grants@ == old(store).grants@,
        final(store).approvals@ == old(store).approvals@,
        final(store).staged@ == old(store).staged@,
        final(store).outputs@ == old(store).outputs@,
        final(store).claims@ == old(store).claims@,
        final(store).m3@ == old(store).m3@,
        final(store).lifecycle@ == old(store).lifecycle@,
{
    let rows = old(store).node_runs@;
    crate::attempts::lemma_latest_attempt(rows, id, c.node_id, rows.len());
    assert forall|k: int|
        0 <= k < rows.len() && (#[trigger] rows[k]).execution_id == id && rows[k].node_id
            == c.node_id implies rows[k].attempt < final(store).node_runs@.last().attempt by {
        assert(crate::attempts::attempts_at(rows[k], id, c.node_id));
    }
    assert(final(store).events@.drop_last() == old(store).events@);
    let s = old(store)@;
    let g = find(s.graphs, id)->0;
    lemma_resolved(s.identity, s.m3, s.graphs[g].graph.execution, c.node_id);
    assert(r->Ok_0.launch_identity->0@.agent_instance_id
        == r->Ok_0.launch_identity->0.agent_instance_id);
}

/// What is recorded as the plan of a started run is what its receipt says and
/// what its provider is told; and that starts with the accepted decision and the
/// title of the node.
pub proof fn law_start_records_what_the_provider_is_told(
    store: &mut Store,
    id: Uid,
    c: BeginGraphNodeRunCommand,
    session_id: Uid,
    run_id: Uid,
    findings: BeginFindings,
    now: &Moment,
    r: Result<BeginGraphNodeRunReceipt, StoreError>,
)
    requires
        call_ensures(
            Store::begin_graph_node_run,
            (store, id, c, session_id, run_id, findings, now),
            r,
        ),
        r is Ok,
    ensures
        r->Ok_0.protocol_version == 1,
        r->Ok_0.execution_id == id,
        r->Ok_0.node_id == c.node_id,
        r->Ok_0.session_id == session_id,
        r->Ok_0.run_id == run_id,
        r->Ok_0.launch_identity is Some,
        r->Ok_0.adapter_kind@ == r->Ok_0.launch_identity->0.adapter_kind@,
        r->Ok_0.model@ == r->Ok_0.launch_identity->0.model@,
        final(store).plans@.last().run_id == run_id,
        final(store).plans@.last().plan.version == 1,
        final(store).plans@.last().plan.execution_id == id,
        final(store).plans@.last().plan.node_id == c.node_id,
        final(store).plans@.last().plan.session_id == session_id,
        final(store).plans@.last().plan.run_id == run_id,
        final(store).plans@.last().plan.attempt == final(store).node_runs@.last().attempt,
        final(store).plans@.last().plan.owner@ == c.owner@,
        final(store).plans@.last().plan.identity@ == r->Ok_0.launch_identity->0@,
        final(store).plans@.last().plan.workspace_root@ == r->Ok_0.workspace_root@,
        final(store).plans@.last().plan.prompt@ == r->Ok_0.prompt@,
        final(store).plans@.last().plan_hash@ == "sha256:"@ + hex(
            sha256(encode_utf8(crate::launch::plan_json(final(store).plans@.last().plan))),
        ),
        exists|g: int, d: int, b: int|
            #![trigger old(store).graphs@[g], old(store).graphs@[g].graph.execution.graph.nodes@[d], old(store).m3.meetings.decision_baselines@[b]]
            {
                &&& 0 <= g < old(store).graphs@.len()
                &&& old(store).graphs@[g].execution_id == id
                &&& 0 <= d < old(store).graphs@[g].graph.execution.graph.nodes@.len()
                &&& old(store).graphs@[g].graph.execution.graph.nodes@[d].id == c.node_id
                &&& old(store).graphs@[g].graph.execution.graph.nodes@[d].role_id
                    == final(store).plans@.last().plan.role_id
                &&& 0 <= b < old(store).m3.meetings.decision_baselines@.len()
                &&& old(store).m3.meetings.decision_baselines@[b].metadata.id
                    == old(store).graphs@[g].graph.execution.graph.decision_baseline_id
                &&& ("Decision baseline:\n"@ + old(store).m3.meetings.decision_baselines@[b].content@
                    + "\n\nAssigned task:\n"@
                    + old(store).graphs@[g].graph.execution.graph.nodes@[d].title@).is_prefix_of(
                    r->Ok_0.prompt@,
                )
            },
{
    let s = old(store)@;
    lemma_find(s.graphs, id);
    let g = find(s.graphs, id)->0;
    let execution = s.graphs[g].graph.execution;
    lemma_find(execution.graph.nodes@, c.node_id);
    lemma_find(s.m3.decision_baselines, execution.graph.decision_baseline_id);
    let d = find(execution.graph.nodes@, c.node_id)->0;
    let b = find(s.m3.decision_baselines, execution.graph.decision_baseline_id)->0;
    let target = begin_target(s, id, c, None)->Ok_0;
    assert(target.binding == resolve(s.identity, s.m3, execution, c.node_id)->Ok_0);
    lemma_resolved(s.identity, s.m3, execution, c.node_id);
    assert(old(store).graphs@[g].execution_id == id);
    assert(old(store).graphs@[g].graph.execution.graph.nodes@[d].id == c.node_id);
    assert(old(store).m3.meetings.decision_baselines@[b].metadata.id
        == execution.graph.decision_baseline_id);
}

} // verus!

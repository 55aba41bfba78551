//! The end of a run: what is recorded of it, and of what it cost.
use crate::error::StoreError;
use crate::finish::{finish_target, FinishFindings};
use crate::graph::{AdapterFailureKind, GraphNodeState};
use crate::identity::{Moment, NormalizedRunState};
use crate::m3::{CostLedgerRecord, EvidenceClass};
use crate::json::{fields, json_string, json_uid};
use crate::promises::{changed_at, entered_now, one_more, told};
use crate::protocol::{FinishGraphNodeRunCommand, FinishGraphNodeRunReceipt};
use crate::store::{LaunchRecord, Store};
use crate::text::blank;
use crate::uid::{find, lemma_find, Uid};
use vstd::prelude::*;

verus! {

/// The rows of a run in the tables: its attempt, its catalog entry and its
/// session, each the first with its identifier.
pub open spec fn rows_of_run(s: Store, run_id: Uid, k: int, i: int, j: int) -> bool {
    &&& 0 <= k < s.node_runs@.len()
    &&& s.node_runs@[k].run_id == run_id
    &&& forall|x: int| 0 <= x < k ==> (#[trigger] s.node_runs@[x]).run_id != run_id
    &&& 0 <= i < s.identity.runs@.len()
    &&& s.identity.runs@[i].metadata.id == run_id
    &&& forall|x: int| 0 <= x < i ==> (#[trigger] s.identity.runs@[x]).metadata.id != run_id
    &&& 0 <= j < s.identity.sessions@.len()
    &&& s.identity.sessions@[j].metadata.id == s.identity.runs@[i].session_id
    &&& forall|x: int|
        0 <= x < j ==> (#[trigger] s.identity.sessions@[x]).metadata.id
            != s.identity.runs@[i].session_id
}

/// Whether what is recorded of a run's selection can be its own: none, or one
/// that names the run's agent, project and model, and leaves no name blank.
pub open spec fn selection_intact(s: Store, k: int, i: int, j: int) -> bool {
    match s.node_runs@[k].launch {
        LaunchRecord::Absent => true,
        LaunchRecord::Malformed(_) => false,
        LaunchRecord::Selected(selected) => {
            &&& selected.agent_instance_id == s.identity.sessions@[j].agent_instance_id
            &&& selected.project_id == s.identity.sessions@[j].project_id
            &&& selected.model_id == s.identity.runs@[i].model_id
            &&& !blank(selected.adapter_kind@)
            &&& !blank(selected.model@)
            &&& selected.account is Some ==> !blank(selected.account->0.provider_identity@)
            &&& selected.account is Some && selected.account->0.credential is Some ==> {
                &&& !blank(selected.account->0.credential->0.service@)
                &&& !blank(selected.account->0.credential->0.account_label@)
            }
        },
    }
}

proof fn lemma_rows(s: Store, run_id: Uid, k: int, i: int, j: int)
    requires
        rows_of_run(s, run_id, k, i, j),
    ensures
        find(s@.node_runs, run_id) == Some(k),
        find(s@.identity.runs, run_id) == Some(i),
        find(s@.identity.sessions, s@.identity.runs[i].session_id) == Some(j),
{
    lemma_find(s@.node_runs, run_id);
    lemma_find(s@.identity.runs, run_id);
    lemma_find(s@.identity.sessions, s@.identity.runs[i].session_id);
}

/// A run is finished only under the revisions that the caller has seen, while it
/// is the run of its node and has not ended.
pub proof fn law_finish_is_guarded(
    store: &mut Store,
    id: Uid,
    c: FinishGraphNodeRunCommand,
    cost_record_id: Uid,
    findings: FinishFindings,
    now: &Moment,
    r: Result<FinishGraphNodeRunReceipt, StoreError>,
    k: int,
    i: int,
    j: int,
)
    requires
        call_ensures(
            Store::finish_graph_node_run,
            (store, id, c, cost_record_id, findings, now),
            r,
        ),
        rows_of_run(*old(store), c.run_id, k, i, j),
    ensures
        r is Err ==> *final(store) == *old(store),
        r is Ok ==> {
            &&& old(store).identity_revision == c.expected_catalog_revision
            &&& old(store).m3_revision == c.expected_m3_revision
            &&& old(store).identity.runs@[i].state == NormalizedRunState::Starting
                || old(store).identity.runs@[i].state == NormalizedRunState::Running
                || old(store).identity.runs@[i].state == NormalizedRunState::Cancelling
            &&& exists|g: int|
                {
                    &&& 0 <= g < old(store).graphs@.len()
                    &&& (#[trigger] old(store).graphs@[g]).execution_id == id
                    &&& old(store).graphs@[g].revision == c.expected_graph_revision
                    &&& old(store).graphs@[g].graph.execution.spec_bound_run(c.node_id) == Some(
                        c.run_id,
                    )
                    &&& final(store).graphs@[g].revision == r->Ok_0.graph_revision
                    &&& final(store).graphs@[g].graph.execution.revision == r->Ok_0.graph_revision
                    &&& final(store).graphs@[g].updated_at@ == now.text@
                }
            &&& final(store).identity_revision == old(store).identity_revision + 1
            &&& final(store).m3_revision == old(store).m3_revision + 1
            &&& r->Ok_0.catalog_revision == final(store).identity_revision
            &&& r->Ok_0.m3_revision == final(store).m3_revision
            &&& r->Ok_0.protocol_version == 1
            &&& r->Ok_0.execution_id == id
            &&& r->Ok_0.node_id == c.node_id
            &&& r->Ok_0.run_id == c.run_id
            &&& r->Ok_0.cost_record_id == cost_record_id
            &&& told(
                old(store).events@,
                final(store).events@,
                "graph.node_run_finished"@,
                fields().push(("cost_record_id"@, json_uid(cost_record_id))).push(
                    ("execution_id"@, json_uid(id)),
                ).push(("node_id"@, json_uid(c.node_id))).push(
                    ("run_id"@, json_uid(c.run_id)),
                ).push(
                    (
                        "terminal_state"@,
                        json_string(
                            if selection_intact(*old(store), k, i, j) {
                                c.terminal_state.spec_name()
                            } else {
                                "uncertain"@
                            },
                        ),
                    ),
                ),
                *now,
            )
            &&& r->Ok_0.event_sequence == final(store).events@.last().sequence
        },
        findings.finished is Err ==> r is Err,
        findings.catalog_fault is Some ==> r is Err,
        findings.m3_fault is Some ==> r is Err,
        c.terminal_state == NormalizedRunState::Succeeded && c.output_markdown is None
            && selection_intact(*old(store), k, i, j) ==> r is Err,
        c.terminal_state == NormalizedRunState::Succeeded && c.failure is Some && selection_intact(
            *old(store),
            k,
            i,
            j,
        ) ==> r is Err,
{
    lemma_rows(*old(store), c.run_id, k, i, j);
    lemma_find(old(store)@.graphs, id);
    if r is Ok {
        let g = find(old(store)@.graphs, id)->0;
        assert(old(store).graphs@[g].execution_id == id);
        assert(final(store).events@.drop_last() == old(store).events@);
    }
}

/// What a run cost is recorded exactly as it was reported, under its node, its
/// run and its project, and attributed to the identity that was selected for it
/// before it ran.
pub proof fn law_cost_is_recorded_as_reported(
    store: &mut Store,
    id: Uid,
    c: FinishGraphNodeRunCommand,
    cost_record_id: Uid,
    findings: FinishFindings,
    now: &Moment,
    r: Result<FinishGraphNodeRunReceipt, StoreError>,
    k: int,
    i: int,
    j: int,
)
    requires
        call_ensures(
            Store::finish_graph_node_run,
            (store, id, c, cost_record_id, findings, now),
            r,
        ),
        r is Ok,
        rows_of_run(*old(store), c.run_id, k, i, j),
    ensures
        one_more(old(store).m3.deliverables.costs@, final(store).m3.deliverables.costs@),
        entered_now(
            final(store).m3.deliverables.costs@.last().metadata,
            cost_record_id,
            "provider_cost_event"@,
            *now,
        ),
        final(store).m3.deliverables.costs@.last().node_id == c.node_id,
        final(store).m3.deliverables.costs@.last().run_id == c.run_id,
        final(store).m3.deliverables.costs@.last().project_id
            == old(store).identity.sessions@[j].project_id,
        final(store).m3.deliverables.costs@.last().formula_version is None,
        selection_intact(*old(store), k, i, j) ==> {
            let record = final(store).m3.deliverables.costs@.last();
            &&& record.evidence_class == c.cost.evidence_class
            &&& record.currency == c.cost.currency
            &&& record.amount_bits == c.cost.amount_bits
            &&& record.input_tokens == c.cost.input_tokens
            &&& record.output_tokens == c.cost.output_tokens
            &&& record.confidence_bits == c.cost.confidence_bits
            &&& record.reconciliation_state@ == (if c.terminal_state
                == NormalizedRunState::Uncertain {
                "uncertain"@
            } else {
                "observed"@
            })
            &&& match old(store).node_runs@[k].launch {
                LaunchRecord::Selected(selected) => {
                    &&& record.provider@ == selected.adapter_kind@
                    &&& record.model@ == selected.model@
                    &&& selected.account is Some ==> record.account@
                        == selected.account->0.provider_identity@
                    &&& selected.account is None ==> record.account@ == "unknown"@
                    &&& record.source@
                        == "adapter normalized cost event; selected account is not provider-authenticated"@
                },
                _ => {
                    &&& record.provider@ == "unknown"@
                    &&& record.model@ == "unknown"@
                    &&& record.account@ == "unknown"@
                    &&& record.source@
                        == "adapter normalized cost event; legacy launch attribution unavailable"@
                },
            }
        },
        !selection_intact(*old(store), k, i, j) ==> {
            let record = final(store).m3.deliverables.costs@.last();
            &&& record.evidence_class == EvidenceClass::Unknown
            &&& record.currency is None
            &&& record.amount_bits is None
            &&& record.input_tokens is None
            &&& record.output_tokens is None
            &&& record.confidence_bits == 0
            &&& record.reconciliation_state@ == "uncertain"@
            &&& record.provider@ == "unknown"@
            &&& record.model@ == "unknown"@
            &&& record.account@ == "unknown"@
            &&& record.source@
                == "local recovery; malformed launch selection; attribution unavailable"@
        },
        final(store).m3.deliverables.documents@ == old(store).m3.deliverables.documents@,
        final(store).m3.deliverables.knowledge_deliveries@
            == old(store).m3.deliverables.knowledge_deliveries@,
        final(store).m3.meetings.decision_baselines@ == old(store).m3.meetings.decision_baselines@,
        final(store).m3.meetings.meetings@ == old(store).m3.meetings.meetings@,
{
    lemma_rows(*old(store), c.run_id, k, i, j);
    let t = finish_target(old(store)@, id, c)->Ok_0;
    assert(t.attempt == k && t.run == i && t.session == j);
    assert(t.malformed == !selection_intact(*old(store), k, i, j));
    let costs = final(store)@.m3.costs;
    assert(costs == final(store).m3.deliverables.costs@);
}

/// The tokens that are known of a record.
pub open spec fn known_tokens(record: CostLedgerRecord) -> int {
    (match record.input_tokens {
        Some(n) => n as int,
        None => 0,
    }) + (match record.output_tokens {
        Some(n) => n as int,
        None => 0,
    })
}

/// The tokens that are known of a ledger.
pub open spec fn all_known_tokens(costs: Seq<CostLedgerRecord>) -> int
    decreases costs.len(),
{
    if costs.len() == 0 {
        0
    } else {
        all_known_tokens(costs.drop_last()) + known_tokens(costs.last())
    }
}

/// The ledger's known tokens grow by those that a finished run reports.
pub proof fn law_reported_tokens_add_up(
    store: &mut Store,
    id: Uid,
    c: FinishGraphNodeRunCommand,
    cost_record_id: Uid,
    findings: FinishFindings,
    now: &Moment,
    r: Result<FinishGraphNodeRunReceipt, StoreError>,
    k: int,
    i: int,
    j: int,
)
    requires
        call_ensures(
            Store::finish_graph_node_run,
            (store, id, c, cost_record_id, findings, now),
            r,
        ),
        r is Ok,
        rows_of_run(*old(store), c.run_id, k, i, j),
        selection_intact(*old(store), k, i, j),
    ensures
        all_known_tokens(final(store).m3.deliverables.costs@) == all_known_tokens(
            old(store).m3.deliverables.costs@,
        ) + (if c.cost.input_tokens is Some {
            c.cost.input_tokens->0 as int
        } else {
            0
        }) + (if c.cost.output_tokens is Some {
            c.cost.output_tokens->0 as int
        } else {
            0
        }),
{
    law_cost_is_recorded_as_reported(store, id, c, cost_record_id, findings, now, r, k, i, j);
    let costs = final(store).m3.deliverables.costs@;
    assert(costs.drop_last() =~= old(store).m3.deliverables.costs@);
}

/// A finished run has ended as was reported, at this time; its attempt says the
/// same; and it has not been restarted by it. A run whose selection cannot be its
/// own has an uncertain end instead.
pub proof fn law_finish_records_the_reported_end(
    store: &mut Store,
    id: Uid,
    c: FinishGraphNodeRunCommand,
    cost_record_id: Uid,
    findings: FinishFindings,
    now: &Moment,
    r: Result<FinishGraphNodeRunReceipt, StoreError>,
    k: int,
    i: int,
    j: int,
)
    requires
        call_ensures(
            Store::finish_graph_node_run,
            (store, id, c, cost_record_id, findings, now),
            r,
        ),
        r is Ok,
        rows_of_run(*old(store), c.run_id, k, i, j),
    ensures
        changed_at(old(store).identity.runs@, final(store).identity.runs@, i),
        final(store).identity.runs@[i].state == (if selection_intact(*old(store), k, i, j) {
            c.terminal_state
        } else {
            NormalizedRunState::Uncertain
        }),
        final(store).identity.runs@[i].finished_at is Some,
        final(store).identity.runs@[i].finished_at->0@ == now.text@,
        final(store).identity.runs@[i].started_at == old(store).identity.runs@[i].started_at,
        final(store).identity.runs@[i].session_id == old(store).identity.runs@[i].session_id,
        final(store).identity.runs@[i].model_id == old(store).identity.runs@[i].model_id,
        final(store).identity.runs@[i].metadata.id == c.run_id,
        final(store).identity.runs@[i].metadata.revision
            == old(store).identity.runs@[i].metadata.revision + 1,
        final(store).identity.runs@[i].metadata.updated_at@ == now.text@,
        changed_at(old(store).node_runs@, final(store).node_runs@, k),
        final(store).node_runs@[k].finished_at is Some,
        final(store).node_runs@[k].finished_at->0@ == now.text@,
        final(store).node_runs@[k].terminal_state == Some(final(store).identity.runs@[i].state),
        final(store).node_runs@[k].attempt == old(store).node_runs@[k].attempt,
        final(store).node_runs@[k].launch == old(store).node_runs@[k].launch,
        changed_at(old(store).identity.sessions@, final(store).identity.sessions@, j),
        selection_intact(*old(store), k, i, j) && c.provider_session_id is Some
            ==> final(store).identity.sessions@[j].provider_session_id == c.provider_session_id,
        !selection_intact(*old(store), k, i, j) || c.provider_session_id is None
            ==> final(store).identity.sessions@[j] == old(store).identity.sessions@[j],
        final(store).grants@ == old(store).grants@,
        final(store).plans@ == old(store).plans@,
        final(store).staged@ == old(store).staged@,
        final(store).approvals@ == old(store).approvals@,
{
    lemma_rows(*old(store), c.run_id, k, i, j);
    let t = finish_target(old(store)@, id, c)->Ok_0;
    assert(t.attempt == k && t.run == i && t.session == j);
    assert(t.malformed == !selection_intact(*old(store), k, i, j));
    assert(final(store)@.identity.sessions == final(store).identity.sessions@);
    assert(final(store)@.identity.runs == final(store).identity.runs@);
}

/// The failure that is recorded of a run keeps the kind and the retryability of
/// the reported one, and holds no text of the provider's: no code, no detail, and
/// a key that is known.
pub proof fn law_finish_records_a_clean_failure(
    store: &mut Store,
    id: Uid,
    c: FinishGraphNodeRunCommand,
    cost_record_id: Uid,
    findings: FinishFindings,
    now: &Moment,
    r: Result<FinishGraphNodeRunReceipt, StoreError>,
    k: int,
    i: int,
    j: int,
)
    requires
        call_ensures(
            Store::finish_graph_node_run,
            (store, id, c, cost_record_id, findings, now),
            r,
        ),
        r is Ok,
        rows_of_run(*old(store), c.run_id, k, i, j),
    ensures
        selection_intact(*old(store), k, i, j) ==> (final(store).node_runs@[k].failure is Some
            <==> c.failure is Some),
        selection_intact(*old(store), k, i, j) && c.failure is Some ==> {
            &&& final(store).node_runs@[k].failure->0.kind == c.failure->0.kind
            &&& final(store).node_runs@[k].failure->0.retryable == c.failure->0.retryable
        },
        !selection_intact(*old(store), k, i, j) ==> {
            &&& final(store).node_runs@[k].failure is Some
            &&& final(store).node_runs@[k].failure->0.kind == AdapterFailureKind::Unknown
            &&& !final(store).node_runs@[k].failure->0.retryable
        },
        final(store).node_runs@[k].failure is Some ==> {
            &&& final(store).node_runs@[k].failure->0.provider_code is None
            &&& final(store).node_runs@[k].failure->0.redacted_detail is None
        },
{
    lemma_rows(*old(store), c.run_id, k, i, j);
    let t = finish_target(old(store)@, id, c)->Ok_0;
    assert(t.attempt == k && t.run == i && t.session == j);
    assert(t.malformed == !selection_intact(*old(store), k, i, j));
}

/// A run that leaves an output has it in the ledger, as the rules accepted it,
/// under its execution; a run that leaves none adds nothing to the ledger.
pub proof fn law_finish_keeps_the_output(
    store: &mut Store,
    id: Uid,
    c: FinishGraphNodeRunCommand,
    cost_record_id: Uid,
    findings: FinishFindings,
    now: &Moment,
    r: Result<FinishGraphNodeRunReceipt, StoreError>,
    k: int,
    i: int,
    j: int,
)
    requires
        call_ensures(
            Store::finish_graph_node_run,
            (store, id, c, cost_record_id, findings, now),
            r,
        ),
        r is Ok,
        rows_of_run(*old(store), c.run_id, k, i, j),
    ensures
        selection_intact(*old(store), k, i, j) && c.output_markdown is Some ==> {
            &&& findings.output is Ok
            &&& one_more(old(store).outputs@, final(store).outputs@)
            &&& final(store).outputs@.last().execution_id == id
            &&& final(store).outputs@.last().node_id == findings.output->Ok_0.node_id
            &&& final(store).outputs@.last().run_id == findings.output->Ok_0.run_id
            &&& final(store).outputs@.last().content_hash@ == findings.output->Ok_0.content_hash@
            &&& final(store).outputs@.last().markdown@ == findings.output->Ok_0.markdown@
            &&& final(store).outputs@.last().created_at@ == now.text@
            &&& r->Ok_0.output_content_hash is Some
            &&& r->Ok_0.output_content_hash->0@ == findings.output->Ok_0.content_hash@
        },
        !selection_intact(*old(store), k, i, j) || c.output_markdown is None ==> {
            &&& final(store).outputs@ == old(store).outputs@
            &&& r->Ok_0.output_content_hash is None
        },
{
    lemma_rows(*old(store), c.run_id, k, i, j);
    let t = finish_target(old(store)@, id, c)->Ok_0;
    assert(t.attempt == k && t.run == i && t.session == j);
    assert(t.malformed == !selection_intact(*old(store), k, i, j));
}

/// The node of a finished run is in the state that the run's end comes to.
pub proof fn law_finish_ends_the_node(
    store: &mut Store,
    id: Uid,
    c: FinishGraphNodeRunCommand,
    cost_record_id: Uid,
    findings: FinishFindings,
    now: &Moment,
    r: Result<FinishGraphNodeRunReceipt, StoreError>,
    k: int,
    i: int,
    j: int,
)
    requires
        call_ensures(
            Store::finish_graph_node_run,
            (store, id, c, cost_record_id, findings, now),
            r,
        ),
        r is Ok,
        rows_of_run(*old(store), c.run_id, k, i, j),
    ensures
        exists|g: int, n: int|
            #![trigger final(store).graphs@[g].graph.execution.nodes@[n]]
            {
                &&& 0 <= g < final(store).graphs@.len()
                &&& final(store).graphs@[g].execution_id == id
                &&& 0 <= n < final(store).graphs@[g].graph.execution.nodes@.len()
                &&& final(store).graphs@[g].graph.execution.nodes@[n].node_id == c.node_id
                &&& final(store).graphs@[g].graph.execution.nodes@[n].failure
                    == final(store).node_runs@[k].failure
                &&& match final(store).identity.runs@[i].state {
                    NormalizedRunState::Succeeded => {
                        final(store).graphs@[g].graph.execution.nodes@[n].state
                            == GraphNodeState::Succeeded
                    },
                    NormalizedRunState::Failed => {
                        final(store).graphs@[g].graph.execution.nodes@[n].state
                            == GraphNodeState::Failed
                    },
                    NormalizedRunState::Cancelled => {
                        final(store).graphs@[g].graph.execution.nodes@[n].state
                            == GraphNodeState::Cancelled
                    },
                    NormalizedRunState::Blocked => {
                        final(store).graphs@[g].graph.execution.nodes@[n].state
                            == GraphNodeState::Blocked
                    },
                    NormalizedRunState::Uncertain => {
                        final(store).graphs@[g].graph.execution.nodes@[n].state
                            == GraphNodeState::Uncertain
                    },
                    _ => false,
                }
            },
{
    lemma_rows(*old(store), c.run_id, k, i, j);
    let t = finish_target(old(store)@, id, c)->Ok_0;
    assert(t.attempt == k && t.run == i && t.session == j);
    lemma_find(old(store)@.graphs, id);
    let nodes = findings.finished->Ok_0.execution.nodes@;
    lemma_find(nodes, c.node_id);
    let n = find(nodes, c.node_id)->0;
    assert(final(store).graphs@[t.graph].graph.execution.nodes@[n].node_id == c.node_id);
}

} // verus!

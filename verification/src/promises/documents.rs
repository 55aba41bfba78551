//! Decisions, documents, deliveries and costs as they are entered.
use crate::deliverables::{
    accept_document_target, complete_delivery_target, find_join, research_nodes, AcceptedDecision,
    DocumentDraft, DocumentSources,
};
use crate::error::StoreError;
use crate::attempts::find_execution;
use crate::graph::GraphNodeState;
use crate::identity::Moment;
use crate::m3::{DocumentVersion, KnowledgeDelivery};
use crate::json::{fields, json_string, json_uid};
use crate::promises::{changed_at, entered_now, office_kept, one_more, runs_kept, told};
use crate::protocol::{
    AcceptDecisionBaselineCommand, AcceptDecisionBaselineReceipt, AcceptDocumentCommand,
    CompleteKnowledgeDeliveryCommand, CostReceipt, CreateDocumentCommand, DocumentReceipt,
    KnowledgeDeliveryReceipt, PrepareKnowledgeDeliveryCommand, RecordCostCommand,
};
use crate::store::Store;
use crate::uid::{find, lemma_find, Uid};
use vstd::prelude::*;

verus! {

/// A new document has the title of its command, the identifiers given to it and
/// its one version; and its creation is the only thing that changes.
pub proof fn law_document_is_created_as_titled(
    store: &mut Store,
    command: CreateDocumentCommand,
    artifact_id: Uid,
    version_id: Uid,
    version: Result<DocumentVersion, String>,
    m3_fault: Option<String>,
    now: &Moment,
    r: Result<DocumentReceipt, StoreError>,
)
    requires
        call_ensures(
            Store::create_mvp_document,
            (store, command, artifact_id, version_id, version, m3_fault, now),
            r,
        ),
    ensures
        r is Err ==> *final(store) == *old(store),
        r is Ok ==> version is Ok && m3_fault is None && old(store).m3_revision
            == command.expected_m3_revision,
        r is Ok ==> {
            let pre = old(store).m3.deliverables.documents@;
            let post = final(store).m3.deliverables.documents@;
            &&& one_more(pre, post)
            &&& post.last().title@ == command.title@
            &&& entered_now(post.last().metadata, artifact_id, "mvp_document"@, *now)
            &&& post.last().versions@.len() == 1
            &&& post.last().versions@[0].id == version_id
            &&& post.last().versions@[0].content_hash@ == version->Ok_0.content_hash@
            &&& post.last().versions@[0].accepted_by == version->Ok_0.accepted_by
            &&& post.last().versions@[0].rest@ == version->Ok_0.rest@
            &&& exists|m: int|
                {
                    &&& 0 <= m < old(store).m3.meetings.meetings@.len()
                    &&& (#[trigger] old(store).m3.meetings.meetings@[m]).project_id
                        == post.last().project_id
                }
            &&& r->Ok_0.protocol_version == 1
            &&& r->Ok_0.artifact_id == artifact_id
            &&& r->Ok_0.version_id == version_id
            &&& r->Ok_0.content_hash@ == version->Ok_0.content_hash@
            &&& r->Ok_0.m3_revision == final(store).m3_revision
            &&& r->Ok_0.event_sequence == final(store).events@.last().sequence
            &&& final(store).m3_revision == old(store).m3_revision + 1
            &&& told(
                old(store).events@,
                final(store).events@,
                "artifact.document_created"@,
                fields().push(("artifact_id"@, json_uid(artifact_id))).push(
                    ("content_hash"@, json_string(version->Ok_0.content_hash@)),
                ).push(("version_id"@, json_uid(version_id))),
                *now,
            )
            &&& final(store).m3.deliverables.knowledge_deliveries@
                == old(store).m3.deliverables.knowledge_deliveries@
            &&& final(store).m3.deliverables.costs@ == old(store).m3.deliverables.costs@
            &&& final(store).graphs@ == old(store).graphs@
            &&& office_kept(*old(store), *final(store))
            &&& runs_kept(*old(store), *final(store))
        },
{
    let s = old(store)@;
    if r is Ok {
        let g = find_execution(s.graphs, command.graph_execution_id, 0)->0;
        let execution = s.graphs[g].graph.execution;
        lemma_find(s.m3.decision_baselines, execution.graph.decision_baseline_id);
        let b = find(s.m3.decision_baselines, execution.graph.decision_baseline_id)->0;
        lemma_find(s.m3.meetings, s.m3.decision_baselines[b].meeting_id);
        let m = find(s.m3.meetings, s.m3.decision_baselines[b].meeting_id)->0;
        assert(final(store)@.m3.documents.drop_last() == s.m3.documents);
        assert(final(store)@.m3 == final(store).m3@);
        assert(old(store).m3.meetings.meetings@[m].project_id
            == final(store).m3.deliverables.documents@.last().project_id);
        assert(final(store).events@.drop_last() == old(store).events@);
    }
}

/// What a document is called depends on the title that was asked for and on
/// nothing else: not on its text, not on its version and not on what was there.
pub proof fn law_title_is_told_apart_by_the_title_alone(
    store: &mut Store,
    command: CreateDocumentCommand,
    artifact_id: Uid,
    version_id: Uid,
    version: Result<DocumentVersion, String>,
    m3_fault: Option<String>,
    now: &Moment,
    r: Result<DocumentReceipt, StoreError>,
    other: &mut Store,
    other_command: CreateDocumentCommand,
    other_artifact_id: Uid,
    other_version_id: Uid,
    other_version: Result<DocumentVersion, String>,
    other_fault: Option<String>,
    other_now: &Moment,
    other_r: Result<DocumentReceipt, StoreError>,
)
    requires
        call_ensures(
            Store::create_mvp_document,
            (store, command, artifact_id, version_id, version, m3_fault, now),
            r,
        ),
        call_ensures(
            Store::create_mvp_document,
            (
                other,
                other_command,
                other_artifact_id,
                other_version_id,
                other_version,
                other_fault,
                other_now,
            ),
            other_r,
        ),
        r is Ok,
        other_r is Ok,
    ensures
        command.title@ == other_command.title@
            <==> final(store).m3.deliverables.documents@.last().title@
            == final(other).m3.deliverables.documents@.last().title@,
{
    assert(final(store)@.m3 == final(store).m3@);
    assert(final(other)@.m3 == final(other).m3@);
}

/// A document is made of an execution whose every node has succeeded, and its
/// project is that of the meeting in which the execution was decided.
pub open spec fn sourced(s: Store, command: CreateDocumentCommand, project_id: Uid) -> bool {
    exists|g: int, b: int, m: int|
        #![trigger s.graphs@[g], s.m3.meetings.decision_baselines@[b], s.m3.meetings.meetings@[m]]
        {
            &&& 0 <= g < s.graphs@.len()
            &&& s.graphs@[g].graph.execution.id == command.graph_execution_id
            &&& forall|i: int|
                0 <= i < s.graphs@[g].graph.execution.nodes@.len() ==> (
                #[trigger] s.graphs@[g].graph.execution.nodes@[i]).state
                    == GraphNodeState::Succeeded
            &&& 0 <= b < s.m3.meetings.decision_baselines@.len()
            &&& s.m3.meetings.decision_baselines@[b].metadata.id
                == s.graphs@[g].graph.execution.graph.decision_baseline_id
            &&& 0 <= m < s.m3.meetings.meetings@.len()
            &&& s.m3.meetings.meetings@[m].metadata.id
                == s.m3.meetings.decision_baselines@[b].meeting_id
            &&& s.m3.meetings.meetings@[m].project_id == project_id
        }
}

proof fn lemma_found_execution(graphs: Seq<crate::store::GraphRow>, id: Uid, from: int)
    requires
        0 <= from,
    ensures
        match find_execution(graphs, id, from) {
            Some(g) => from <= g < graphs.len() && graphs[g].graph.execution.id == id,
            None => true,
        },
    decreases graphs.len() - from,
{
    if from < graphs.len() && graphs[from].graph.execution.id != id {
        lemma_found_execution(graphs, id, from + 1);
    }
}

proof fn lemma_sourced(store: Store, command: CreateDocumentCommand)
    requires
        crate::deliverables::document_sources(store@, command) is Ok,
    ensures
        sourced(
            store,
            command,
            crate::deliverables::document_sources(store@, command)->Ok_0.project_id,
        ),
{
    let s = store@;
    lemma_found_execution(s.graphs, command.graph_execution_id, 0);
    let g = find_execution(s.graphs, command.graph_execution_id, 0)->0;
    let execution = s.graphs[g].graph.execution;
    lemma_find(s.m3.decision_baselines, execution.graph.decision_baseline_id);
    let b = find(s.m3.decision_baselines, execution.graph.decision_baseline_id)->0;
    lemma_find(s.m3.meetings, s.m3.decision_baselines[b].meeting_id);
    let m = find(s.m3.meetings, s.m3.decision_baselines[b].meeting_id)->0;
    assert(store.graphs@[g].graph.execution.id == command.graph_execution_id);
    assert(store.m3.meetings.decision_baselines@[b].metadata.id
        == execution.graph.decision_baseline_id);
    assert(store.m3.meetings.meetings@[m].metadata.id
        == store.m3.meetings.decision_baselines@[b].meeting_id);
}

/// A document belongs to the project in which its work was decided, and only
/// finished work is written up.
pub proof fn law_document_belongs_to_its_meeting(
    store: &mut Store,
    command: CreateDocumentCommand,
    artifact_id: Uid,
    version_id: Uid,
    version: Result<DocumentVersion, String>,
    m3_fault: Option<String>,
    now: &Moment,
    r: Result<DocumentReceipt, StoreError>,
)
    requires
        call_ensures(
            Store::create_mvp_document,
            (store, command, artifact_id, version_id, version, m3_fault, now),
            r,
        ),
        r is Ok,
    ensures
        sourced(
            *old(store),
            command,
            final(store).m3.deliverables.documents@.last().project_id,
        ),
{
    lemma_sourced(*old(store), command);
    assert(final(store)@.m3 == final(store).m3@);
}

/// This node researched.
pub open spec fn researched(nodes: Seq<crate::graph::GraphNode>, id: Uid) -> bool {
    exists|i: int|
        0 <= i < nodes.len() && (#[trigger] nodes[i]).kind is Research && nodes[i].id == id
}

/// These are exactly the nodes that researched, and this is one that joined.
pub open spec fn research_and_join(
    nodes: Seq<crate::graph::GraphNode>,
    sources: Seq<Uid>,
    join: Uid,
) -> bool {
    &&& forall|i: int|
        0 <= i < nodes.len() && (#[trigger] nodes[i]).kind is Research ==> sources.contains(
            nodes[i].id,
        )
    &&& forall|k: int| 0 <= k < sources.len() ==> researched(nodes, #[trigger] sources[k])
    &&& exists|i: int|
        0 <= i < nodes.len() && (#[trigger] nodes[i]).kind is Join && nodes[i].id == join
}

/// The sources of a document are its project and the work of its execution:
/// every node among them researched, and the join is a join.
pub proof fn law_sources_are_research(
    store: &Store,
    command: &CreateDocumentCommand,
    r: Result<DocumentSources, StoreError>,
)
    requires
        call_ensures(Store::find_document_sources, (store, command), r),
        r is Ok,
    ensures
        store.m3_revision == command.expected_m3_revision,
        sourced(*store, *command, r->Ok_0.project_id),
        exists|g: int|
            {
                &&& 0 <= g < store.graphs@.len()
                &&& (#[trigger] store.graphs@[g]).graph.execution.id == command.graph_execution_id
                &&& research_and_join(
                    store.graphs@[g].graph.execution.graph.nodes@,
                    r->Ok_0.source_node_ids@,
                    r->Ok_0.join_node_id,
                )
            },
{
    let s = store@;
    lemma_sourced(*store, *command);
    lemma_found_execution(s.graphs, command.graph_execution_id, 0);
    let g = find_execution(s.graphs, command.graph_execution_id, 0)->0;
    let nodes = s.graphs[g].graph.execution.graph.nodes@;
    lemma_research(nodes, nodes.len());
    lemma_join(nodes, 0);
    assert(nodes[find_join(nodes, 0)->0].kind is Join);
    assert(research_and_join(nodes, r->Ok_0.source_node_ids@, r->Ok_0.join_node_id));
    assert(store.graphs@[g].graph.execution.id == command.graph_execution_id);
}

proof fn lemma_research(nodes: Seq<crate::graph::GraphNode>, n: nat)
    requires
        n <= nodes.len(),
    ensures
        forall|i: int|
            0 <= i < n && (#[trigger] nodes[i]).kind is Research ==> research_nodes(
                nodes,
                n,
            ).contains(nodes[i].id),
        forall|k: int|
            0 <= k < research_nodes(nodes, n).len() ==> researched(
                nodes,
                #[trigger] research_nodes(nodes, n)[k],
            ),
    decreases n,
{
    if n > 0 {
        lemma_research(nodes, (n - 1) as nat);
        let before = research_nodes(nodes, (n - 1) as nat);
        let all = research_nodes(nodes, n);
        assert forall|i: int| 0 <= i < n && (#[trigger] nodes[i]).kind is Research implies
            all.contains(nodes[i].id) by {
            if i < n - 1 {
                let k = choose|k: int| 0 <= k < before.len() && before[k] == nodes[i].id;
                assert(all[k] == nodes[i].id);
            } else {
                assert(all[before.len() as int] == nodes[i].id);
            }
        }
        assert forall|k: int| 0 <= k < all.len() implies researched(nodes, #[trigger] all[k]) by {
            if k < before.len() {
                assert(all[k] == before[k]);
            } else {
                assert(nodes[n - 1].id == all[k]);
            }
        }
    }
}

proof fn lemma_join(nodes: Seq<crate::graph::GraphNode>, from: int)
    requires
        0 <= from,
    ensures
        match find_join(nodes, from) {
            Some(j) => from <= j < nodes.len() && nodes[j].kind is Join,
            None => true,
        },
    decreases nodes.len() - from,
{
    if from < nodes.len() && !(nodes[from].kind is Join) {
        lemma_join(nodes, from + 1);
    }
}

/// A draft carries the text that was written, as the first version, and names
/// the execution it comes from.
pub proof fn law_draft_carries_the_text(
    store: &Store,
    command: &CreateDocumentCommand,
    version_id: Uid,
    r: Result<DocumentDraft, StoreError>,
    sources: Result<DocumentSources, StoreError>,
)
    requires
        call_ensures(Store::draft_document, (store, command, version_id), r),
        call_ensures(Store::find_document_sources, (store, command), sources),
    ensures
        r is Ok <==> sources is Ok,
        r is Ok ==> {
            &&& r->Ok_0.markdown@ == command.markdown@
            &&& r->Ok_0.version_id == version_id
            &&& r->Ok_0.number == 1
            &&& r->Ok_0.parent_id is None
            &&& r->Ok_0.execution_id == command.graph_execution_id
            &&& r->Ok_0.source_node_ids@ == sources->Ok_0.source_node_ids@
            &&& r->Ok_0.join_node_id == sources->Ok_0.join_node_id
            &&& r->Ok_0.join_content_hash == sources->Ok_0.join_content_hash
        },
{
}

/// Only the version that was read can be accepted: its identifier and hash are
/// those of the command. It is replaced by its accepted form, the document keeps
/// its name and project, and nothing else changes.
pub proof fn law_accepting_replaces_the_version_read(
    store: &mut Store,
    command: AcceptDocumentCommand,
    accepted: Result<DocumentVersion, String>,
    m3_fault: Option<String>,
    now: &Moment,
    r: Result<DocumentReceipt, StoreError>,
)
    requires
        call_ensures(
            Store::accept_mvp_document,
            (store, command, accepted, m3_fault, now),
            r,
        ),
    ensures
        r is Err ==> *final(store) == *old(store),
        r is Ok ==> accepted is Ok && m3_fault is None && old(store).m3_revision
            == command.expected_m3_revision,
        r is Ok ==> exists|d: int, v: int|
            #![trigger old(store).m3.deliverables.documents@[d].versions@[v]]
            {
                let pre = old(store).m3.deliverables.documents@;
                let post = final(store).m3.deliverables.documents@;
                &&& changed_at(pre, post, d)
                &&& pre[d].metadata.id == command.artifact_id
                &&& changed_at(pre[d].versions@, post[d].versions@, v)
                &&& pre[d].versions@[v].id == command.version_id
                &&& pre[d].versions@[v].content_hash@ == command.content_hash@
                &&& post[d].versions@[v] == accepted->Ok_0
                &&& post[d].title@ == pre[d].title@
                &&& post[d].project_id == pre[d].project_id
                &&& post[d].metadata == pre[d].metadata
            },
        r is Ok ==> {
            &&& r->Ok_0.protocol_version == 1
            &&& r->Ok_0.artifact_id == command.artifact_id
            &&& r->Ok_0.version_id == command.version_id
            &&& r->Ok_0.content_hash@ == command.content_hash@
            &&& r->Ok_0.m3_revision == final(store).m3_revision
            &&& r->Ok_0.event_sequence == final(store).events@.last().sequence
            &&& final(store).m3_revision == old(store).m3_revision + 1
            &&& told(
                old(store).events@,
                final(store).events@,
                "artifact.document_accepted"@,
                fields().push(("artifact_id"@, json_uid(command.artifact_id))).push(
                    ("content_hash"@, json_string(command.content_hash@)),
                ).push(("version_id"@, json_uid(command.version_id))),
                *now,
            )
            &&& final(store).m3.deliverables.knowledge_deliveries@
                == old(store).m3.deliverables.knowledge_deliveries@
            &&& final(store).m3.deliverables.costs@ == old(store).m3.deliverables.costs@
            &&& final(store).graphs@ == old(store).graphs@
            &&& office_kept(*old(store), *final(store))
            &&& runs_kept(*old(store), *final(store))
        },
{
    let s = old(store)@;
    if r is Ok {
        lemma_find(s.m3.documents, command.artifact_id);
        let (d, v) = accept_document_target(s, command)->Ok_0;
        lemma_find(s.m3.documents[d].versions@, command.version_id);
        assert(final(store)@.m3 == final(store).m3@);
        let pre = old(store).m3.deliverables.documents@;
        let post = final(store).m3.deliverables.documents@;
        assert(changed_at(pre, post, d));
        assert(changed_at(pre[d].versions@, post[d].versions@, v));
        assert(pre[d].versions@[v].id == command.version_id);
        assert(final(store).events@.drop_last() == old(store).events@);
    }
}

/// An accepted decision becomes the new catalog and a new execution, which is
/// listed last under its own identifier and revision.
pub proof fn law_accepted_decision_enters_its_graph(
    store: &mut Store,
    command: AcceptDecisionBaselineCommand,
    accepted: Result<AcceptedDecision, String>,
    m3_fault: Option<String>,
    now: &Moment,
    r: Result<AcceptDecisionBaselineReceipt, StoreError>,
)
    requires
        call_ensures(
            Store::accept_mvp_decision,
            (store, command, accepted, m3_fault, now),
            r,
        ),
    ensures
        r is Err ==> *final(store) == *old(store),
        r is Ok ==> accepted is Ok && m3_fault is None && old(store).m3_revision
            == command.expected_m3_revision,
        r is Ok ==> {
            let catalog = accepted->Ok_0.catalog;
            let graph = accepted->Ok_0.graph;
            &&& one_more(old(store).graphs@, final(store).graphs@)
            &&& final(store).graphs@.last().execution_id == graph.execution.id
            &&& final(store).graphs@.last().revision == graph.execution.revision
            &&& final(store).graphs@.last().graph == graph
            &&& final(store).graphs@.last().updated_at@ == now.text@
            &&& forall|g: int|
                0 <= g < old(store).graphs@.len() ==> (#[trigger] old(store).graphs@[g]).execution_id
                    != graph.execution.id
            &&& final(store).m3.meetings.decision_baselines@
                == catalog.meetings.decision_baselines@
            &&& final(store).m3.meetings.meetings@ == catalog.meetings.meetings@
            &&& final(store).m3.deliverables.documents@ == catalog.deliverables.documents@
            &&& final(store).m3.deliverables.knowledge_deliveries@
                == catalog.deliverables.knowledge_deliveries@
            &&& final(store).m3.deliverables.costs@ == catalog.deliverables.costs@
            &&& final(store).m3.office.pet_assignments@ == catalog.office.pet_assignments@
            &&& final(store).m3.office.pet_profiles@ == catalog.office.pet_profiles@
            &&& final(store).m3.office.rooms@ == catalog.office.rooms@
            &&& r->Ok_0.protocol_version == 1
            &&& catalog.meetings.decision_baselines@.len() > 0
            &&& r->Ok_0.baseline_id == catalog.meetings.decision_baselines@.last().metadata.id
            &&& r->Ok_0.graph_execution_id == graph.execution.id
            &&& r->Ok_0.m3_revision == final(store).m3_revision
            &&& r->Ok_0.event_sequence == final(store).events@.last().sequence
            &&& final(store).m3_revision == old(store).m3_revision + 1
            &&& told(
                old(store).events@,
                final(store).events@,
                "mvp.decision_accepted"@,
                fields().push(
                    (
                        "baseline_id"@,
                        json_uid(catalog.meetings.decision_baselines@.last().metadata.id),
                    ),
                ).push(("graph_execution_id"@, json_uid(graph.execution.id))).push(
                    ("meeting_id"@, json_uid(command.meeting_id)),
                ),
                *now,
            )
            &&& runs_kept(*old(store), *final(store))
        },
{
    let s = old(store)@;
    if r is Ok {
        lemma_find(s.graphs, accepted->Ok_0.graph.execution.id);
        assert(final(store)@.m3 == final(store).m3@);
        assert(final(store).graphs@.drop_last() == old(store).graphs@);
        assert(final(store).events@.drop_last() == old(store).events@);
    }
}

/// Only an accepted version of a document of the same project can be prepared
/// for delivery. The delivery is added last, as it was made.
pub proof fn law_delivery_needs_an_accepted_version(
    store: &mut Store,
    command: PrepareKnowledgeDeliveryCommand,
    delivery_id: Uid,
    delivery: Result<KnowledgeDelivery, String>,
    m3_fault: Option<String>,
    now: &Moment,
    r: Result<KnowledgeDeliveryReceipt, StoreError>,
)
    requires
        call_ensures(
            Store::prepare_knowledge_delivery,
            (store, command, delivery_id, delivery, m3_fault, now),
            r,
        ),
    ensures
        r is Err ==> *final(store) == *old(store),
        r is Ok ==> exists|d: int, v: int|
            #![trigger old(store).m3.deliverables.documents@[d].versions@[v]]
            {
                let documents = old(store).m3.deliverables.documents@;
                &&& 0 <= d < documents.len()
                &&& documents[d].project_id == command.project_id
                &&& 0 <= v < documents[d].versions@.len()
                &&& documents[d].versions@[v].id == command.artifact_version_id
                &&& documents[d].versions@[v].accepted_by is Some
            },
        r is Ok ==> {
            let pre = old(store).m3.deliverables.knowledge_deliveries@;
            let post = final(store).m3.deliverables.knowledge_deliveries@;
            &&& delivery is Ok
            &&& m3_fault is None
            &&& old(store).m3_revision == command.expected_m3_revision
            &&& one_more(pre, post)
            &&& post.last() == delivery->Ok_0
            &&& r->Ok_0.protocol_version == 1
            &&& r->Ok_0.delivery_id == delivery_id
            &&& r->Ok_0.state@ == delivery->Ok_0.state@
            &&& r->Ok_0.m3_revision == final(store).m3_revision
            &&& r->Ok_0.event_sequence == final(store).events@.last().sequence
            &&& final(store).m3_revision == old(store).m3_revision + 1
            &&& told(
                old(store).events@,
                final(store).events@,
                "knowledge.delivery_prepared"@,
                fields().push(("delivery_id"@, json_uid(delivery_id))).push(
                    ("target"@, json_string(command.target@)),
                ),
                *now,
            )
            &&& final(store).m3.deliverables.documents@ == old(store).m3.deliverables.documents@
            &&& final(store).m3.deliverables.costs@ == old(store).m3.deliverables.costs@
            &&& final(store).graphs@ == old(store).graphs@
            &&& office_kept(*old(store), *final(store))
            &&& runs_kept(*old(store), *final(store))
        },
{
    if r is Ok {
        assert(final(store)@.m3 == final(store).m3@);
        assert(final(store)@.m3.knowledge_deliveries.drop_last()
            == old(store)@.m3.knowledge_deliveries);
        assert(final(store).events@.drop_last() == old(store).events@);
    }
}

/// A delivery that was prepared is replaced by its completed form in its place.
pub proof fn law_delivery_is_completed_in_place(
    store: &mut Store,
    command: CompleteKnowledgeDeliveryCommand,
    delivered: Result<KnowledgeDelivery, String>,
    m3_fault: Option<String>,
    now: &Moment,
    r: Result<KnowledgeDeliveryReceipt, StoreError>,
)
    requires
        call_ensures(
            Store::complete_knowledge_delivery,
            (store, command, delivered, m3_fault, now),
            r,
        ),
    ensures
        r is Err ==> *final(store) == *old(store),
        r is Ok ==> exists|k: int|
            #![trigger old(store).m3.deliverables.knowledge_deliveries@[k]]
            {
                let pre = old(store).m3.deliverables.knowledge_deliveries@;
                let post = final(store).m3.deliverables.knowledge_deliveries@;
                &&& changed_at(pre, post, k)
                &&& pre[k].metadata.id == command.delivery_id
                &&& post[k] == delivered->Ok_0
            },
        r is Ok ==> {
            &&& delivered is Ok
            &&& m3_fault is None
            &&& old(store).m3_revision == command.expected_m3_revision
            &&& r->Ok_0.protocol_version == 1
            &&& r->Ok_0.delivery_id == command.delivery_id
            &&& r->Ok_0.state@ == delivered->Ok_0.state@
            &&& r->Ok_0.m3_revision == final(store).m3_revision
            &&& r->Ok_0.event_sequence == final(store).events@.last().sequence
            &&& final(store).m3_revision == old(store).m3_revision + 1
            &&& told(
                old(store).events@,
                final(store).events@,
                "knowledge.delivery_completed"@,
                fields().push(("delivery_id"@, json_uid(command.delivery_id))),
                *now,
            )
            &&& final(store).m3.deliverables.documents@ == old(store).m3.deliverables.documents@
            &&& final(store).m3.deliverables.costs@ == old(store).m3.deliverables.costs@
            &&& final(store).graphs@ == old(store).graphs@
            &&& office_kept(*old(store), *final(store))
            &&& runs_kept(*old(store), *final(store))
        },
{
    let s = old(store)@;
    if r is Ok {
        lemma_find(s.m3.knowledge_deliveries, command.delivery_id);
        let k = complete_delivery_target(s, command)->Ok_0;
        assert(final(store)@.m3 == final(store).m3@);
        assert(old(store).m3.deliverables.knowledge_deliveries@[k].metadata.id
            == command.delivery_id);
        assert(final(store).events@.drop_last() == old(store).events@);
    }
}

/// A cost is entered as it was given, last, and under an identifier that no cost
/// had.
pub proof fn law_cost_is_entered_as_given(
    store: &mut Store,
    command: RecordCostCommand,
    m3_fault: Option<String>,
    now: &Moment,
    r: Result<CostReceipt, StoreError>,
)
    requires
        call_ensures(Store::record_cost, (store, command, m3_fault, now), r),
    ensures
        r is Err ==> *final(store) == *old(store),
        r is Ok ==> {
            let pre = old(store).m3.deliverables.costs@;
            let post = final(store).m3.deliverables.costs@;
            &&& m3_fault is None
            &&& old(store).m3_revision == command.expected_m3_revision
            &&& one_more(pre, post)
            &&& post.last() == command.record
            &&& forall|k: int|
                0 <= k < pre.len() ==> (#[trigger] pre[k]).metadata.id
                    != command.record.metadata.id
            &&& r->Ok_0.protocol_version == 1
            &&& r->Ok_0.cost_record_id == command.record.metadata.id
            &&& r->Ok_0.m3_revision == final(store).m3_revision
            &&& r->Ok_0.event_sequence == final(store).events@.last().sequence
            &&& final(store).m3_revision == old(store).m3_revision + 1
            &&& told(
                old(store).events@,
                final(store).events@,
                "cost.recorded"@,
                fields().push(("cost_record_id"@, json_uid(command.record.metadata.id))),
                *now,
            )
            &&& final(store).m3.deliverables.documents@ == old(store).m3.deliverables.documents@
            &&& final(store).m3.deliverables.knowledge_deliveries@
                == old(store).m3.deliverables.knowledge_deliveries@
            &&& final(store).graphs@ == old(store).graphs@
            &&& office_kept(*old(store), *final(store))
            &&& runs_kept(*old(store), *final(store))
        },
{
    let s = old(store)@;
    if r is Ok {
        lemma_find(s.m3.costs, command.record.metadata.id);
        assert(final(store)@.m3 == final(store).m3@);
        assert(final(store)@.m3.costs.drop_last() == s.m3.costs);
        assert(final(store).events@.drop_last() == old(store).events@);
    }
}

/// The join of a document's sources is shown by the hash of the output that was
/// selected for it, and every node that researched has put something out.
pub proof fn law_sources_have_put_out(
    store: &Store,
    command: &CreateDocumentCommand,
    r: Result<DocumentSources, StoreError>,
    g: int,
    k: int,
)
    requires
        call_ensures(Store::find_document_sources, (store, command), r),
        r is Ok,
        0 <= g < store.graphs@.len(),
        store.graphs@[g].graph.execution.id == command.graph_execution_id,
        forall|x: int|
            0 <= x < g ==> (#[trigger] store.graphs@[x]).graph.execution.id
                != command.graph_execution_id,
    ensures
        exists|o: int|
            {
                let outputs = store.graphs@[g].graph.execution.selected_outputs@;
                &&& 0 <= o < outputs.len()
                &&& (#[trigger] store.graphs@[g].graph.execution.selected_outputs@[o]).node_id
                    == r->Ok_0.join_node_id
                &&& outputs[o].output.content_hash == r->Ok_0.join_content_hash
            },
        0 <= k < r->Ok_0.source_node_ids@.len() ==> exists|o: int|
            0 <= o < store.graphs@[g].graph.execution.selected_outputs@.len() && (
            #[trigger] store.graphs@[g].graph.execution.selected_outputs@[o]).node_id
                == r->Ok_0.source_node_ids@[k],
{
    let s = store@;
    lemma_found_execution(s.graphs, command.graph_execution_id, 0);
    lemma_execution_at(s.graphs, command.graph_execution_id, 0, g);
    let execution = store.graphs@[g].graph.execution;
    let outputs = execution.selected_outputs@;
    let nodes = execution.graph.nodes@;
    lemma_find(outputs, r->Ok_0.join_node_id);
    let o = find(outputs, r->Ok_0.join_node_id)->0;
    assert(store.graphs@[g].graph.execution.selected_outputs@[o].node_id == r->Ok_0.join_node_id);
    if 0 <= k < r->Ok_0.source_node_ids@.len() {
        let sources = research_nodes(nodes, nodes.len());
        assert(sources[k] == r->Ok_0.source_node_ids@[k]);
        assert(execution.spec_output(sources[k]) is Some);
        lemma_find(outputs, sources[k]);
        let q = find(outputs, sources[k])->0;
        assert(store.graphs@[g].graph.execution.selected_outputs@[q].node_id == sources[k]);
    }
}

proof fn lemma_execution_at(graphs: Seq<crate::store::GraphRow>, id: Uid, from: int, g: int)
    requires
        0 <= from <= g < graphs.len(),
        graphs[g].graph.execution.id == id,
        forall|x: int| 0 <= x < g ==> (#[trigger] graphs[x]).graph.execution.id != id,
    ensures
        find_execution(graphs, id, from) == Some(g),
    decreases g - from,
{
    if from < g {
        lemma_execution_at(graphs, id, from + 1, g);
    }
}

} // verus!

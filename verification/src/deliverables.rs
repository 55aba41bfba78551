use crate::attempts::{check_graphs, execution_position, find_execution, graphs_refusal};
use crate::error::{Refusal, StoreError};
use crate::graph::{CheckedGraph, GraphExecution, GraphNode, GraphNodeKind, GraphNodeState};
use crate::identity::{entity_metadata, local_metadata, Moment};
use crate::json::{fields, json_string, json_uid, object, Payload};
use crate::m3::{
    CostLedgerRecord, DocumentArtifact, DocumentVersion, KnowledgeDelivery, M3Catalog, M3View,
};
use crate::protocol::{
    AcceptDecisionBaselineCommand, AcceptDecisionBaselineReceipt, AcceptDocumentCommand,
    CompleteKnowledgeDeliveryCommand, CostReceipt, CreateDocumentCommand, DocumentReceipt,
    KnowledgeDeliveryReceipt, PrepareKnowledgeDeliveryCommand, RecordCostCommand, PROTOCOL_VERSION,
};
use crate::store::{
    bump_refusal, constraint_failed, journal_room, journaled, next_revision, next_sequence,
    out_of_range, GraphRow, Store, StoreView, MAX_STORED,
};
use crate::uid::{
    find, position, DocumentId, DocumentVersionId, GraphNodeId, GraphRunId, KnowledgeDeliveryId, ProjectId,
};
use vstd::prelude::*;

verus! {

fn invalid_document(text: &str) -> (r: StoreError)
    ensures
        r@ == Refusal::InvalidDocument(text@),
{
    StoreError::InvalidDocument(text.to_owned())
}

/// Why the office catalog cannot get a next revision and a journal entry.
pub open spec fn m3_step_refusal(s: StoreView) -> Option<Refusal> {
    if bump_refusal(s.m3_revision) is Some {
        bump_refusal(s.m3_revision)
    } else if !journal_room(s.events, 1) {
        Some(Refusal::Database)
    } else {
        None
    }
}

/// What an accepted decision makes of the office: the catalog with the decision
/// in it, and the execution of the workflow that it starts.
#[derive(Debug)]
pub struct AcceptedDecision {
    pub catalog: M3Catalog,
    pub graph: CheckedGraph,
}

/// Why a decision is not accepted.
pub open spec fn accept_decision_refusal(
    s: StoreView,
    c: AcceptDecisionBaselineCommand,
    accepted: Result<AcceptedDecision, String>,
    m3_fault: Option<String>,
) -> Option<Refusal> {
    if s.m3_revision != c.expected_m3_revision {
        Some(
            Refusal::RevisionConflict { expected: c.expected_m3_revision, actual: s.m3_revision },
        )
    } else if accepted is Err {
        Some(Refusal::InvalidMvp(accepted->Err_0@))
    } else if accepted->Ok_0.catalog@.decision_baselines.len() == 0 {
        Some(Refusal::InvalidMvp("missing accepted baseline"@))
    } else if graphs_refusal(s.graphs, s.outputs) is Some {
        graphs_refusal(s.graphs, s.outputs)
    } else if m3_fault is Some {
        Some(Refusal::InvalidMvp(m3_fault->0@))
    } else if bump_refusal(s.m3_revision) is Some {
        bump_refusal(s.m3_revision)
    } else if accepted->Ok_0.graph.execution.revision > MAX_STORED || find(
        s.graphs,
        accepted->Ok_0.graph.execution.id,
    ) is Some || !journal_room(s.events, 1) {
        Some(Refusal::Database)
    } else {
        None
    }
}

pub open spec fn new_graph_row(graph: CheckedGraph, now: Moment) -> GraphRow {
    GraphRow {
        execution_id: graph.execution.id,
        revision: graph.execution.revision,
        graph,
        updated_at: now.text,
    }
}

/// What the acceptance of a decision changes, and nothing else.
pub open spec fn decision_accepted(
    pre: StoreView,
    post: StoreView,
    c: AcceptDecisionBaselineCommand,
    accepted: AcceptedDecision,
    now: Moment,
) -> bool {
    let baseline_id = accepted.catalog@.decision_baselines.last().metadata.id;
    &&& journaled(
        pre.events,
        post.events,
        "mvp.decision_accepted"@,
        object(
            fields().push(("baseline_id"@, json_uid(baseline_id))).push(
                ("graph_execution_id"@, json_uid(accepted.graph.execution.id)),
            ).push(("meeting_id"@, json_uid(c.meeting_id))),
        ),
        now,
    )
    &&& post =~= StoreView {
        m3_revision: (pre.m3_revision + 1) as u64,
        m3: accepted.catalog@,
        graphs: pre.graphs.push(new_graph_row(accepted.graph, now)),
        events: post.events,
        ..pre
    }
}

/// Whether every node of an execution has succeeded.
pub open spec fn complete(execution: GraphExecution) -> bool {
    forall|i: int|
        0 <= i < execution.nodes@.len() ==> (#[trigger] execution.nodes@[i]).state
            == GraphNodeState::Succeeded
}

/// The research nodes among the first `n`, in their order.
pub open spec fn research_nodes(nodes: Seq<GraphNode>, n: nat) -> Seq<GraphNodeId>
    decreases n,
{
    if n == 0 {
        Seq::empty()
    } else {
        let before = research_nodes(nodes, (n - 1) as nat);
        if nodes[n - 1].kind is Research {
            before.push(nodes[n - 1].id)
        } else {
            before
        }
    }
}

/// Whether each of some nodes has an output that counts.
pub open spec fn all_put_out(execution: GraphExecution, nodes: Seq<GraphNodeId>) -> bool {
    forall|i: int|
        0 <= i < nodes.len() ==> execution.spec_output(#[trigger] nodes[i]) is Some
}

/// The index of the first join node at or after `from`.
pub open spec fn find_join(nodes: Seq<GraphNode>, from: int) -> Option<int>
    decreases nodes.len() - from,
{
    if from < 0 || from >= nodes.len() {
        None
    } else if nodes[from].kind is Join {
        Some(from)
    } else {
        find_join(nodes, from + 1)
    }
}

/// What a document is made from.
#[derive(Debug)]
pub struct DocumentSources {
    pub source_node_ids: Vec<GraphNodeId>,
    pub join_node_id: GraphNodeId,
    pub join_content_hash: String,
    pub project_id: ProjectId,
}

pub ghost struct SourcesView {
    pub source_node_ids: Seq<GraphNodeId>,
    pub join_node_id: GraphNodeId,
    pub join_content_hash: String,
    pub project_id: ProjectId,
}

impl View for DocumentSources {
    type V = SourcesView;

    open spec fn view(&self) -> SourcesView {
        SourcesView {
            source_node_ids: self.source_node_ids@,
            join_node_id: self.join_node_id,
            join_content_hash: self.join_content_hash,
            project_id: self.project_id,
        }
    }
}

/// What a document is made from; or why there can be no document.
pub open spec fn document_sources(s: StoreView, c: CreateDocumentCommand) -> Result<
    SourcesView,
    Refusal,
> {
    if s.m3_revision != c.expected_m3_revision {
        Err(
            Refusal::RevisionConflict { expected: c.expected_m3_revision, actual: s.m3_revision },
        )
    } else if graphs_refusal(s.graphs, s.outputs) is Some {
        Err(graphs_refusal(s.graphs, s.outputs)->0)
    } else {
        match find_execution(s.graphs, c.graph_execution_id, 0) {
            None => Err(Refusal::GraphNotFound),
            Some(g) => execution_sources(s.m3, s.graphs[g].graph.execution),
        }
    }
}

/// The part of the search that starts from the execution.
pub open spec fn execution_sources(m3: M3View, execution: GraphExecution) -> Result<
    SourcesView,
    Refusal,
> {
    let nodes = execution.graph.nodes@;
    let sources = research_nodes(nodes, nodes.len());
    if !complete(execution) {
        Err(Refusal::InvalidDocument("graph is not complete"@))
    } else if !all_put_out(execution, sources) {
        Err(Refusal::InvalidDocument("research source output evidence is missing"@))
    } else {
        match find_join(nodes, 0) {
            None => Err(Refusal::InvalidDocument("join node not found"@)),
            Some(j) => match execution.spec_output(nodes[j].id) {
                None => Err(
                    Refusal::InvalidDocument("completed join output evidence is missing"@),
                ),
                Some(output) => match find(
                    m3.decision_baselines,
                    execution.graph.decision_baseline_id,
                ) {
                    None => Err(Refusal::InvalidDocument("DecisionBaseline not found"@)),
                    Some(b) => match find(m3.meetings, m3.decision_baselines[b].meeting_id) {
                        None => Err(Refusal::InvalidDocument("meeting not found"@)),
                        Some(m) => Ok(
                            SourcesView {
                                source_node_ids: sources,
                                join_node_id: nodes[j].id,
                                join_content_hash: output.content_hash,
                                project_id: m3.meetings[m].project_id,
                            },
                        ),
                    },
                },
            },
        }
    }
}

/// What the document rules are to be asked for: the first version of a document,
/// with this text, made from these nodes, and bound to what the join node of
/// this execution put out.
#[derive(Debug)]
pub struct DocumentDraft {
    pub version_id: DocumentVersionId,
    pub number: u64,
    pub parent_id: Option<DocumentVersionId>,
    pub markdown: String,
    pub source_node_ids: Vec<GraphNodeId>,
    pub execution_id: GraphRunId,
    pub join_node_id: GraphNodeId,
    pub join_content_hash: String,
}

/// A draft of what a command asks for, from its sources.
pub open spec fn drafted(
    draft: DocumentDraft,
    c: CreateDocumentCommand,
    version_id: DocumentVersionId,
    sources: SourcesView,
) -> bool {
    &&& draft.version_id == version_id
    &&& draft.number == 1
    &&& draft.parent_id is None
    &&& draft.markdown == c.markdown
    &&& draft.source_node_ids@ == sources.source_node_ids
    &&& draft.execution_id == c.graph_execution_id
    &&& draft.join_node_id == sources.join_node_id
    &&& draft.join_content_hash == sources.join_content_hash
}

fn is_complete(execution: &GraphExecution) -> (r: bool)
    ensures
        r == complete(*execution),
{
    let mut i: usize = 0;
    while i < execution.nodes.len()
        invariant
            i <= execution.nodes@.len(),
            forall|j: int|
                0 <= j < i ==> (#[trigger] execution.nodes@[j]).state
                    == GraphNodeState::Succeeded,
        decreases execution.nodes@.len() - i,
    {
        if execution.nodes[i].state != GraphNodeState::Succeeded {
            assert(execution.nodes@[i as int].state != GraphNodeState::Succeeded);
            return false;
        }
        i += 1;
    }
    true
}

fn collect_research(nodes: &Vec<GraphNode>) -> (r: Vec<GraphNodeId>)
    ensures
        r@ == research_nodes(nodes@, nodes@.len()),
{
    let mut found: Vec<GraphNodeId> = Vec::new();
    let mut i: usize = 0;
    while i < nodes.len()
        invariant
            i <= nodes@.len(),
            found@ == research_nodes(nodes@, i as nat),
        decreases nodes@.len() - i,
    {
        match &nodes[i].kind {
            GraphNodeKind::Research => {
                found.push(nodes[i].id);
            },
            _ => {},
        }
        i += 1;
    }
    found
}

fn have_all_put_out(execution: &GraphExecution, nodes: &Vec<GraphNodeId>) -> (r: bool)
    ensures
        r == all_put_out(*execution, nodes@),
{
    let mut i: usize = 0;
    while i < nodes.len()
        invariant
            i <= nodes@.len(),
            forall|j: int|
                0 <= j < i ==> execution.spec_output(#[trigger] nodes@[j]) is Some,
        decreases nodes@.len() - i,
    {
        if execution.output(nodes[i]).is_none() {
            assert(execution.spec_output(nodes@[i as int]) is None);
            return false;
        }
        i += 1;
    }
    true
}

fn join_position(nodes: &Vec<GraphNode>) -> (r: Option<usize>)
    ensures
        match r {
            Some(j) => find_join(nodes@, 0) == Some(j as int) && j < nodes@.len(),
            None => find_join(nodes@, 0) is None,
        },
{
    let mut i: usize = 0;
    while i < nodes.len()
        invariant
            i <= nodes@.len(),
            find_join(nodes@, 0) == find_join(nodes@, i as int),
        decreases nodes@.len() - i,
    {
        match &nodes[i].kind {
            GraphNodeKind::Join => {
                return Some(i);
            },
            _ => {},
        }
        i += 1;
    }
    None
}

/// Why a document is not entered once its sources are known.
pub open spec fn create_document_refusal(
    s: StoreView,
    version: Result<DocumentVersion, String>,
    m3_fault: Option<String>,
) -> Option<Refusal> {
    if version is Err {
        Some(Refusal::InvalidDocument(version->Err_0@))
    } else if m3_fault is Some {
        Some(Refusal::InvalidDocument(m3_fault->0@))
    } else {
        m3_step_refusal(s)
    }
}

pub open spec fn document_payload(artifact_id: DocumentId, content_hash: Seq<char>, version_id: DocumentVersionId) -> Seq<
    char,
> {
    object(
        fields().push(("artifact_id"@, json_uid(artifact_id))).push(
            ("content_hash"@, json_string(content_hash)),
        ).push(("version_id"@, json_uid(version_id))),
    )
}

/// What a new document changes, and nothing else. Its one version has the
/// identifier that the receipt and the journal name; the rest of the version is
/// as the document rules made it.
pub open spec fn document_created(
    pre: StoreView,
    post: StoreView,
    c: CreateDocumentCommand,
    artifact_id: DocumentId,
    version_id: DocumentVersionId,
    version: DocumentVersion,
    project_id: ProjectId,
    now: Moment,
) -> bool {
    let document = post.m3.documents.last();
    &&& local_metadata(document.metadata, artifact_id, "mvp_document"@, now)
    &&& document.project_id == project_id
    &&& document.title == c.title
    &&& document.versions@ == seq![DocumentVersion { id: version_id, ..version }]
    &&& journaled(
        pre.events,
        post.events,
        "artifact.document_created"@,
        document_payload(artifact_id, version.content_hash@, version_id),
        now,
    )
    &&& post =~= StoreView {
        m3_revision: (pre.m3_revision + 1) as u64,
        m3: M3View { documents: pre.m3.documents.push(document), ..pre.m3 },
        events: post.events,
        ..pre
    }
}

/// The receipt for a document.
pub open spec fn document_receipt(
    receipt: DocumentReceipt,
    pre: StoreView,
    artifact_id: DocumentId,
    version_id: DocumentVersionId,
    content_hash: String,
) -> bool {
    receipt == (DocumentReceipt {
        protocol_version: PROTOCOL_VERSION,
        artifact_id,
        version_id,
        content_hash,
        m3_revision: (pre.m3_revision + 1) as u64,
        event_sequence: next_sequence(pre.events) as u64,
    })
}

/// The document and the version that an acceptance is about; or why there is
/// nothing to accept.
pub open spec fn accept_document_target(s: StoreView, c: AcceptDocumentCommand) -> Result<
    (int, int),
    Refusal,
> {
    if s.m3_revision != c.expected_m3_revision {
        Err(
            Refusal::RevisionConflict { expected: c.expected_m3_revision, actual: s.m3_revision },
        )
    } else {
        match find(s.m3.documents, c.artifact_id) {
            None => Err(Refusal::InvalidDocument("artifact version not found"@)),
            Some(d) => match find(s.m3.documents[d].versions@, c.version_id) {
                None => Err(Refusal::InvalidDocument("artifact version not found"@)),
                Some(v) => if s.m3.documents[d].versions@[v].content_hash@ != c.content_hash@ {
                    Err(Refusal::InvalidDocument("content hash mismatch"@))
                } else {
                    Ok((d, v))
                },
            },
        }
    }
}

/// Why an acceptance is refused once its subject is known.
pub open spec fn accept_document_refusal(
    s: StoreView,
    accepted: Result<DocumentVersion, String>,
    m3_fault: Option<String>,
) -> Option<Refusal> {
    if accepted is Err {
        Some(Refusal::InvalidDocument(accepted->Err_0@))
    } else if graphs_refusal(s.graphs, s.outputs) is Some {
        graphs_refusal(s.graphs, s.outputs)
    } else if m3_fault is Some {
        Some(Refusal::InvalidDocument(m3_fault->0@))
    } else {
        m3_step_refusal(s)
    }
}

/// What the acceptance of a document changes, and nothing else.
pub open spec fn document_accepted(
    pre: StoreView,
    post: StoreView,
    c: AcceptDocumentCommand,
    d: int,
    v: int,
    accepted: DocumentVersion,
    now: Moment,
) -> bool {
    let document = post.m3.documents[d];
    &&& document.metadata == pre.m3.documents[d].metadata
    &&& document.project_id == pre.m3.documents[d].project_id
    &&& document.title == pre.m3.documents[d].title
    &&& document.versions@ == pre.m3.documents[d].versions@.update(v, accepted)
    &&& journaled(
        pre.events,
        post.events,
        "artifact.document_accepted"@,
        document_payload(c.artifact_id, c.content_hash@, c.version_id),
        now,
    )
    &&& post =~= StoreView {
        m3_revision: (pre.m3_revision + 1) as u64,
        m3: M3View { documents: pre.m3.documents.update(d, document), ..pre.m3 },
        events: post.events,
        ..pre
    }
}

/// Whether a version of a document of a project has been accepted.
pub open spec fn version_accepted(
    documents: Seq<DocumentArtifact>,
    project_id: ProjectId,
    version_id: DocumentVersionId,
) -> bool {
    exists|d: int, v: int|
        0 <= d < documents.len() && documents[d].project_id == project_id && 0 <= v
            < documents[d].versions@.len() && (#[trigger] documents[d].versions@[v]).id
            == version_id && documents[d].versions@[v].accepted_by is Some
}

fn is_version_accepted(
    documents: &Vec<DocumentArtifact>,
    project_id: ProjectId,
    version_id: DocumentVersionId,
) -> (r: bool)
    ensures
        r == version_accepted(documents@, project_id, version_id),
{
    let mut d: usize = 0;
    while d < documents.len()
        invariant
            d <= documents@.len(),
            forall|i: int, v: int|
                0 <= i < d && documents@[i].project_id == project_id && 0 <= v
                    < documents@[i].versions@.len() ==> !((
                #[trigger] documents@[i].versions@[v]).id == version_id
                    && documents@[i].versions@[v].accepted_by is Some),
        decreases documents@.len() - d,
    {
        let document = &documents[d];
        if document.project_id == project_id {
            let mut v: usize = 0;
            while v < document.versions.len()
                invariant
                    v <= document.versions@.len(),
                    d < documents@.len(),
                    *document == documents@[d as int],
                    document.project_id == project_id,
                    forall|w: int|
                        0 <= w < v ==> !((#[trigger] document.versions@[w]).id == version_id
                            && document.versions@[w].accepted_by is Some),
                decreases document.versions@.len() - v,
            {
                if document.versions[v].id == version_id
                    && document.versions[v].accepted_by.is_some() {
                    assert(documents@[d as int].versions@[v as int].id == version_id);
                    return true;
                }
                v += 1;
            }
        }
        d += 1;
    }
    false
}

/// Why a delivery of knowledge is not prepared.
pub open spec fn prepare_delivery_refusal(
    s: StoreView,
    c: PrepareKnowledgeDeliveryCommand,
    delivery: Result<KnowledgeDelivery, String>,
    m3_fault: Option<String>,
) -> Option<Refusal> {
    if s.m3_revision != c.expected_m3_revision {
        Some(
            Refusal::RevisionConflict { expected: c.expected_m3_revision, actual: s.m3_revision },
        )
    } else if !version_accepted(s.m3.documents, c.project_id, c.artifact_version_id) {
        Some(
            Refusal::InvalidDocument("knowledge delivery requires an accepted artifact version"@),
        )
    } else if delivery is Err {
        Some(Refusal::InvalidDocument(delivery->Err_0@))
    } else if graphs_refusal(s.graphs, s.outputs) is Some {
        graphs_refusal(s.graphs, s.outputs)
    } else if m3_fault is Some {
        Some(Refusal::InvalidDocument(m3_fault->0@))
    } else {
        m3_step_refusal(s)
    }
}

/// The delivery that a completion is about; or why there is none.
pub open spec fn complete_delivery_target(s: StoreView, c: CompleteKnowledgeDeliveryCommand) -> Result<
    int,
    Refusal,
> {
    if s.m3_revision != c.expected_m3_revision {
        Err(
            Refusal::RevisionConflict { expected: c.expected_m3_revision, actual: s.m3_revision },
        )
    } else {
        match find(s.m3.knowledge_deliveries, c.delivery_id) {
            None => Err(Refusal::InvalidDocument("knowledge delivery not found"@)),
            Some(k) => Ok(k),
        }
    }
}

/// Why a completion is refused once its delivery is known.
pub open spec fn complete_delivery_refusal(
    s: StoreView,
    delivered: Result<KnowledgeDelivery, String>,
    m3_fault: Option<String>,
) -> Option<Refusal> {
    if delivered is Err {
        Some(Refusal::InvalidDocument(delivered->Err_0@))
    } else if graphs_refusal(s.graphs, s.outputs) is Some {
        graphs_refusal(s.graphs, s.outputs)
    } else if m3_fault is Some {
        Some(Refusal::InvalidDocument(m3_fault->0@))
    } else {
        m3_step_refusal(s)
    }
}

/// A change of the list of deliveries, and of nothing else.
pub open spec fn deliveries_changed(
    pre: StoreView,
    post: StoreView,
    deliveries: Seq<KnowledgeDelivery>,
    kind: Seq<char>,
    payload: Seq<char>,
    now: Moment,
) -> bool {
    &&& journaled(pre.events, post.events, kind, payload, now)
    &&& post =~= StoreView {
        m3_revision: (pre.m3_revision + 1) as u64,
        m3: M3View { knowledge_deliveries: deliveries, ..pre.m3 },
        events: post.events,
        ..pre
    }
}

pub open spec fn delivery_receipt(
    receipt: KnowledgeDeliveryReceipt,
    pre: StoreView,
    id: KnowledgeDeliveryId,
    state: String,
) -> bool {
    receipt == (KnowledgeDeliveryReceipt {
        protocol_version: PROTOCOL_VERSION,
        delivery_id: id,
        state,
        m3_revision: (pre.m3_revision + 1) as u64,
        event_sequence: next_sequence(pre.events) as u64,
    })
}

/// Why a cost is not recorded.
pub open spec fn record_cost_refusal(s: StoreView, c: RecordCostCommand, m3_fault: Option<String>) -> Option<
    Refusal,
> {
    if s.m3_revision != c.expected_m3_revision {
        Some(
            Refusal::RevisionConflict { expected: c.expected_m3_revision, actual: s.m3_revision },
        )
    } else if find(s.m3.costs, c.record.metadata.id) is Some {
        Some(Refusal::InvalidCost("duplicate cost record id"@))
    } else if graphs_refusal(s.graphs, s.outputs) is Some {
        graphs_refusal(s.graphs, s.outputs)
    } else if m3_fault is Some {
        Some(Refusal::InvalidCost(m3_fault->0@))
    } else {
        m3_step_refusal(s)
    }
}

/// What the record of a cost changes, and nothing else.
pub open spec fn cost_entered(pre: StoreView, post: StoreView, record: CostLedgerRecord, now: Moment) -> bool {
    &&& journaled(
        pre.events,
        post.events,
        "cost.recorded"@,
        object(fields().push(("cost_record_id"@, json_uid(record.metadata.id)))),
        now,
    )
    &&& post =~= StoreView {
        m3_revision: (pre.m3_revision + 1) as u64,
        m3: M3View { costs: pre.m3.costs.push(record), ..pre.m3 },
        events: post.events,
        ..pre
    }
}

impl Store {
    fn check_m3_revision(&self, expected: u64) -> (r: Result<(), StoreError>)
        ensures
            match r {
                Ok(_) => self@.m3_revision == expected,
                Err(error) => self@.m3_revision != expected && error@ == (
                Refusal::RevisionConflict { expected, actual: self@.m3_revision }),
            },
    {
        if self.m3_revision != expected {
            return Err(StoreError::RevisionConflict { expected, actual: self.m3_revision });
        }
        Ok(())
    }

    fn check_m3_step(&self) -> (r: Result<u64, StoreError>)
        ensures
            match r {
                Ok(revision) => m3_step_refusal(self@) is None && revision == self@.m3_revision + 1,
                Err(error) => m3_step_refusal(self@) == Some(error@),
            },
    {
        let revision = match next_revision(self.m3_revision) {
            Ok(revision) => revision,
            Err(error) => {
                return Err(error);
            },
        };
        if !self.has_journal_room(1) {
            return Err(out_of_range());
        }
        Ok(revision)
    }

    /// Accepts a meeting's decision and starts the workflow that it calls for.
    pub fn accept_mvp_decision(
        &mut self,
        command: AcceptDecisionBaselineCommand,
        accepted: Result<AcceptedDecision, String>,
        m3_fault: Option<String>,
        now: &Moment,
    ) -> (r: Result<AcceptDecisionBaselineReceipt, StoreError>)
        ensures
            match accept_decision_refusal(old(self)@, command, accepted, m3_fault) {
                Some(refusal) => r is Err && r->Err_0@ == refusal && *final(self) == *old(self),
                None => {
                    &&& r == Ok::<_, StoreError>(
                        (AcceptDecisionBaselineReceipt {
                            protocol_version: PROTOCOL_VERSION,
                            baseline_id:
                                accepted->Ok_0.catalog@.decision_baselines.last().metadata.id,
                            graph_execution_id: accepted->Ok_0.graph.execution.id,
                            m3_revision: (old(self)@.m3_revision + 1) as u64,
                            event_sequence: next_sequence(old(self)@.events) as u64,
                        }),
                    )
                    &&& decision_accepted(
                        old(self)@,
                        final(self)@,
                        command,
                        accepted->Ok_0,
                        *now,
                    )
                },
            },
    {
        match self.check_m3_revision(command.expected_m3_revision) {
            Ok(_) => {},
            Err(error) => {
                return Err(error);
            },
        }
        let accepted = match accepted {
            Ok(accepted) => accepted,
            Err(text) => {
                return Err(StoreError::InvalidMvp(text));
            },
        };
        let count = accepted.catalog.meetings.decision_baselines.len();
        if count == 0 {
            return Err(StoreError::InvalidMvp("missing accepted baseline".to_owned()));
        }
        let baseline_id = accepted.catalog.meetings.decision_baselines[count - 1].metadata.id;
        match check_graphs(&self.graphs, &self.outputs) {
            Ok(_) => {},
            Err(error) => {
                return Err(error);
            },
        }
        if let Some(fault) = m3_fault {
            return Err(StoreError::InvalidMvp(fault));
        }
        let m3_revision = match next_revision(self.m3_revision) {
            Ok(revision) => revision,
            Err(error) => {
                return Err(error);
            },
        };
        let execution_id = accepted.graph.execution.id;
        let execution_revision = accepted.graph.execution.revision;
        if execution_revision > MAX_STORED || position(&self.graphs, execution_id).is_some()
            || !self.has_journal_room(1) {
            return Err(constraint_failed());
        }
        let payload = Payload::new().uid("baseline_id", baseline_id).uid(
            "graph_execution_id",
            execution_id,
        ).uid("meeting_id", command.meeting_id).finish();
        let event_sequence = self.insert_event("mvp.decision_accepted", payload, now);
        self.m3_revision = m3_revision;
        self.m3 = accepted.catalog;
        self.graphs.push(
            GraphRow {
                execution_id,
                revision: execution_revision,
                graph: accepted.graph,
                updated_at: now.text.clone(),
            },
        );
        Ok(
            AcceptDecisionBaselineReceipt {
                protocol_version: PROTOCOL_VERSION,
                baseline_id,
                graph_execution_id: execution_id,
                m3_revision,
                event_sequence,
            },
        )
    }

    /// Finds what a document is made from, so that the document rules can be
    /// asked for its first version.
    pub fn find_document_sources(&self, command: &CreateDocumentCommand) -> (r: Result<
        DocumentSources,
        StoreError,
    >)
        ensures
            match r {
                Ok(sources) => document_sources(self@, *command) == Ok::<_, Refusal>(sources@),
                Err(error) => document_sources(self@, *command) == Err::<SourcesView, _>(error@),
            },
    {
        match self.check_m3_revision(command.expected_m3_revision) {
            Ok(_) => {},
            Err(error) => {
                return Err(error);
            },
        }
        match check_graphs(&self.graphs, &self.outputs) {
            Ok(_) => {},
            Err(error) => {
                return Err(error);
            },
        }
        let execution = match execution_position(&self.graphs, command.graph_execution_id) {
            None => {
                return Err(StoreError::GraphNotFound);
            },
            Some(g) => &self.graphs[g].graph.execution,
        };
        if !is_complete(execution) {
            return Err(invalid_document("graph is not complete"));
        }
        let source_node_ids = collect_research(&execution.graph.nodes);
        if !have_all_put_out(execution, &source_node_ids) {
            return Err(invalid_document("research source output evidence is missing"));
        }
        let join_node_id = match join_position(&execution.graph.nodes) {
            None => {
                return Err(invalid_document("join node not found"));
            },
            Some(j) => execution.graph.nodes[j].id,
        };
        let join_content_hash = match execution.output(join_node_id) {
            None => {
                return Err(invalid_document("completed join output evidence is missing"));
            },
            Some(output) => output.content_hash.clone(),
        };
        let meeting_id = match position(
            &self.m3.meetings.decision_baselines,
            execution.graph.decision_baseline_id,
        ) {
            None => {
                return Err(invalid_document("DecisionBaseline not found"));
            },
            Some(b) => self.m3.meetings.decision_baselines[b].meeting_id,
        };
        let project_id = match position(&self.m3.meetings.meetings, meeting_id) {
            None => {
                return Err(invalid_document("meeting not found"));
            },
            Some(m) => self.m3.meetings.meetings[m].project_id,
        };
        Ok(DocumentSources { source_node_ids, join_node_id, join_content_hash, project_id })
    }

    /// Works out what the document rules are to be asked for.
    pub fn draft_document(&self, command: &CreateDocumentCommand, version_id: DocumentVersionId) -> (r:
        Result<DocumentDraft, StoreError>)
        ensures
            match document_sources(self@, *command) {
                Ok(sources) => r is Ok && drafted(r->Ok_0, *command, version_id, sources),
                Err(refusal) => r is Err && r->Err_0@ == refusal,
            },
    {
        match self.find_document_sources(command) {
            Ok(sources) => Ok(
                DocumentDraft {
                    version_id,
                    number: 1,
                    parent_id: None,
                    markdown: command.markdown.clone(),
                    source_node_ids: sources.source_node_ids,
                    execution_id: command.graph_execution_id,
                    join_node_id: sources.join_node_id,
                    join_content_hash: sources.join_content_hash,
                },
            ),
            Err(error) => Err(error),
        }
    }

    /// Enters a document made from a complete execution. `version` is what the
    /// document rules made of its draft.
    pub fn create_mvp_document(
        &mut self,
        command: CreateDocumentCommand,
        artifact_id: DocumentId,
        version_id: DocumentVersionId,
        version: Result<DocumentVersion, String>,
        m3_fault: Option<String>,
        now: &Moment,
    ) -> (r: Result<DocumentReceipt, StoreError>)
        ensures
            match document_sources(old(self)@, command) {
                Err(refusal) => r is Err && r->Err_0@ == refusal && *final(self) == *old(self),
                Ok(sources) => match create_document_refusal(old(self)@, version, m3_fault) {
                    Some(refusal) => r is Err && r->Err_0@ == refusal && *final(self) == *old(self),
                    None => {
                        &&& r is Ok
                        &&& document_receipt(
                            r->Ok_0,
                            old(self)@,
                            artifact_id,
                            version_id,
                            version->Ok_0.content_hash,
                        )
                        &&& document_created(
                            old(self)@,
                            final(self)@,
                            command,
                            artifact_id,
                            version_id,
                            version->Ok_0,
                            sources.project_id,
                            *now,
                        )
                    },
                },
            },
    {
        let sources = match self.find_document_sources(&command) {
            Ok(sources) => sources,
            Err(error) => {
                return Err(error);
            },
        };
        let version = match version {
            Ok(version) => version,
            Err(text) => {
                return Err(StoreError::InvalidDocument(text));
            },
        };
        if let Some(fault) = m3_fault {
            return Err(StoreError::InvalidDocument(fault));
        }
        let m3_revision = match self.check_m3_step() {
            Ok(revision) => revision,
            Err(error) => {
                return Err(error);
            },
        };
        let content_hash = version.content_hash.clone();
        let payload = Payload::new().uid("artifact_id", artifact_id).string(
            "content_hash",
            content_hash.as_str(),
        ).uid("version_id", version_id).finish();
        let mut versions: Vec<DocumentVersion> = Vec::new();
        let mut first = version;
        first.id = version_id;
        versions.push(first);
        assert(versions@ =~= seq![DocumentVersion { id: version_id, ..version }]);
        let event_sequence = self.insert_event("artifact.document_created", payload, now);
        self.m3_revision = m3_revision;
        self.m3.deliverables.documents.push(
            DocumentArtifact {
                metadata: entity_metadata(artifact_id, "mvp_document", now),
                project_id: sources.project_id,
                title: command.title,
                versions,
            },
        );
        Ok(
            DocumentReceipt {
                protocol_version: PROTOCOL_VERSION,
                artifact_id,
                version_id,
                content_hash,
                m3_revision,
                event_sequence,
            },
        )
    }

    /// Records that a version of a document was accepted.
    pub fn accept_mvp_document(
        &mut self,
        command: AcceptDocumentCommand,
        accepted: Result<DocumentVersion, String>,
        m3_fault: Option<String>,
        now: &Moment,
    ) -> (r: Result<DocumentReceipt, StoreError>)
        ensures
            match accept_document_target(old(self)@, command) {
                Err(refusal) => r is Err && r->Err_0@ == refusal && *final(self) == *old(self),
                Ok((d, v)) => match accept_document_refusal(old(self)@, accepted, m3_fault) {
                    Some(refusal) => r is Err && r->Err_0@ == refusal && *final(self) == *old(self),
                    None => {
                        &&& r is Ok
                        &&& document_receipt(
                            r->Ok_0,
                            old(self)@,
                            command.artifact_id,
                            command.version_id,
                            command.content_hash,
                        )
                        &&& document_accepted(
                            old(self)@,
                            final(self)@,
                            command,
                            d,
                            v,
                            accepted->Ok_0,
                            *now,
                        )
                    },
                },
            },
    {
        match self.check_m3_revision(command.expected_m3_revision) {
            Ok(_) => {},
            Err(error) => {
                return Err(error);
            },
        }
        let d = match position(&self.m3.deliverables.documents, command.artifact_id) {
            None => {
                return Err(invalid_document("artifact version not found"));
            },
            Some(d) => d,
        };
        let v = match position(
            &self.m3.deliverables.documents[d].versions,
            command.version_id,
        ) {
            None => {
                return Err(invalid_document("artifact version not found"));
            },
            Some(v) => v,
        };
        if self.m3.deliverables.documents[d].versions[v].content_hash != command.content_hash {
            return Err(invalid_document("content hash mismatch"));
        }
        let accepted = match accepted {
            Ok(accepted) => accepted,
            Err(text) => {
                return Err(StoreError::InvalidDocument(text));
            },
        };
        match check_graphs(&self.graphs, &self.outputs) {
            Ok(_) => {},
            Err(error) => {
                return Err(error);
            },
        }
        if let Some(fault) = m3_fault {
            return Err(StoreError::InvalidDocument(fault));
        }
        let m3_revision = match self.check_m3_step() {
            Ok(revision) => revision,
            Err(error) => {
                return Err(error);
            },
        };
        let payload = Payload::new().uid("artifact_id", command.artifact_id).string(
            "content_hash",
            command.content_hash.as_str(),
        ).uid("version_id", command.version_id).finish();
        let event_sequence = self.insert_event("artifact.document_accepted", payload, now);
        self.m3_revision = m3_revision;
        let document = &mut self.m3.deliverables.documents[d];
        document.versions.set(v, accepted);
        Ok(
            DocumentReceipt {
                protocol_version: PROTOCOL_VERSION,
                artifact_id: command.artifact_id,
                version_id: command.version_id,
                content_hash: command.content_hash,
                m3_revision,
                event_sequence,
            },
        )
    }

    /// Prepares the delivery of an accepted document.
    pub fn prepare_knowledge_delivery(
        &mut self,
        command: PrepareKnowledgeDeliveryCommand,
        delivery_id: KnowledgeDeliveryId,
        delivery: Result<KnowledgeDelivery, String>,
        m3_fault: Option<String>,
        now: &Moment,
    ) -> (r: Result<KnowledgeDeliveryReceipt, StoreError>)
        ensures
            match prepare_delivery_refusal(old(self)@, command, delivery, m3_fault) {
                Some(refusal) => r is Err && r->Err_0@ == refusal && *final(self) == *old(self),
                None => {
                    &&& r is Ok
                    &&& delivery_receipt(
                        r->Ok_0,
                        old(self)@,
                        delivery_id,
                        delivery->Ok_0.state,
                    )
                    &&& deliveries_changed(
                        old(self)@,
                        final(self)@,
                        old(self)@.m3.knowledge_deliveries.push(delivery->Ok_0),
                        "knowledge.delivery_prepared"@,
                        object(
                            fields().push(("delivery_id"@, json_uid(delivery_id))).push(
                                ("target"@, json_string(command.target@)),
                            ),
                        ),
                        *now,
                    )
                },
            },
    {
        match self.check_m3_revision(command.expected_m3_revision) {
            Ok(_) => {},
            Err(error) => {
                return Err(error);
            },
        }
        if !is_version_accepted(
            &self.m3.deliverables.documents,
            command.project_id,
            command.artifact_version_id,
        ) {
            return Err(
                invalid_document("knowledge delivery requires an accepted artifact version"),
            );
        }
        let delivery = match delivery {
            Ok(delivery) => delivery,
            Err(text) => {
                return Err(StoreError::InvalidDocument(text));
            },
        };
        match check_graphs(&self.graphs, &self.outputs) {
            Ok(_) => {},
            Err(error) => {
                return Err(error);
            },
        }
        if let Some(fault) = m3_fault {
            return Err(StoreError::InvalidDocument(fault));
        }
        let m3_revision = match self.check_m3_step() {
            Ok(revision) => revision,
            Err(error) => {
                return Err(error);
            },
        };
        let state = delivery.state.clone();
        let payload = Payload::new().uid("delivery_id", delivery_id).string(
            "target",
            command.target.as_str(),
        ).finish();
        let event_sequence = self.insert_event("knowledge.delivery_prepared", payload, now);
        self.m3_revision = m3_revision;
        self.m3.deliverables.knowledge_deliveries.push(delivery);
        Ok(
            KnowledgeDeliveryReceipt {
                protocol_version: PROTOCOL_VERSION,
                delivery_id,
                state,
                m3_revision,
                event_sequence,
            },
        )
    }

    /// Records that a delivery has arrived.
    pub fn complete_knowledge_delivery(
        &mut self,
        command: CompleteKnowledgeDeliveryCommand,
        delivered: Result<KnowledgeDelivery, String>,
        m3_fault: Option<String>,
        now: &Moment,
    ) -> (r: Result<KnowledgeDeliveryReceipt, StoreError>)
        ensures
            match complete_delivery_target(old(self)@, command) {
                Err(refusal) => r is Err && r->Err_0@ == refusal && *final(self) == *old(self),
                Ok(k) => match complete_delivery_refusal(old(self)@, delivered, m3_fault) {
                    Some(refusal) => r is Err && r->Err_0@ == refusal && *final(self) == *old(self),
                    None => {
                        &&& r is Ok
                        &&& delivery_receipt(
                            r->Ok_0,
                            old(self)@,
                            command.delivery_id,
                            delivered->Ok_0.state,
                        )
                        &&& deliveries_changed(
                            old(self)@,
                            final(self)@,
                            old(self)@.m3.knowledge_deliveries.update(k, delivered->Ok_0),
                            "knowledge.delivery_completed"@,
                            object(
                                fields().push(("delivery_id"@, json_uid(command.delivery_id))),
                            ),
                            *now,
                        )
                    },
                },
            },
    {
        match self.check_m3_revision(command.expected_m3_revision) {
            Ok(_) => {},
            Err(error) => {
                return Err(error);
            },
        }
        let k = match position(
            &self.m3.deliverables.knowledge_deliveries,
            command.delivery_id,
        ) {
            None => {
                return Err(invalid_document("knowledge delivery not found"));
            },
            Some(k) => k,
        };
        let delivered = match delivered {
            Ok(delivered) => delivered,
            Err(text) => {
                return Err(StoreError::InvalidDocument(text));
            },
        };
        match check_graphs(&self.graphs, &self.outputs) {
            Ok(_) => {},
            Err(error) => {
                return Err(error);
            },
        }
        if let Some(fault) = m3_fault {
            return Err(StoreError::InvalidDocument(fault));
        }
        let m3_revision = match self.check_m3_step() {
            Ok(revision) => revision,
            Err(error) => {
                return Err(error);
            },
        };
        let state = delivered.state.clone();
        let payload = Payload::new().uid("delivery_id", command.delivery_id).finish();
        let event_sequence = self.insert_event("knowledge.delivery_completed", payload, now);
        self.m3_revision = m3_revision;
        self.m3.deliverables.knowledge_deliveries.set(k, delivered);
        Ok(
            KnowledgeDeliveryReceipt {
                protocol_version: PROTOCOL_VERSION,
                delivery_id: command.delivery_id,
                state,
                m3_revision,
                event_sequence,
            },
        )
    }

    /// Records a cost under an identifier that no other record has.
    pub fn record_cost(&mut self, command: RecordCostCommand, m3_fault: Option<String>, now: &Moment) -> (r:
        Result<CostReceipt, StoreError>)
        ensures
            match record_cost_refusal(old(self)@, command, m3_fault) {
                Some(refusal) => r is Err && r->Err_0@ == refusal && *final(self) == *old(self),
                None => {
                    &&& r == Ok::<_, StoreError>(
                        (CostReceipt {
                            protocol_version: PROTOCOL_VERSION,
                            cost_record_id: command.record.metadata.id,
                            m3_revision: (old(self)@.m3_revision + 1) as u64,
                            event_sequence: next_sequence(old(self)@.events) as u64,
                        }),
                    )
                    &&& cost_entered(old(self)@, final(self)@, command.record, *now)
                },
            },
    {
        match self.check_m3_revision(command.expected_m3_revision) {
            Ok(_) => {},
            Err(error) => {
                return Err(error);
            },
        }
        let cost_record_id = command.record.metadata.id;
        if position(&self.m3.deliverables.costs, cost_record_id).is_some() {
            return Err(StoreError::InvalidCost("duplicate cost record id".to_owned()));
        }
        match check_graphs(&self.graphs, &self.outputs) {
            Ok(_) => {},
            Err(error) => {
                return Err(error);
            },
        }
        if let Some(fault) = m3_fault {
            return Err(StoreError::InvalidCost(fault));
        }
        let m3_revision = match self.check_m3_step() {
            Ok(revision) => revision,
            Err(error) => {
                return Err(error);
            },
        };
        let payload = Payload::new().uid("cost_record_id", cost_record_id).finish();
        let event_sequence = self.insert_event("cost.recorded", payload, now);
        self.m3_revision = m3_revision;
        self.m3.deliverables.costs.push(command.record);
        Ok(
            CostReceipt {
                protocol_version: PROTOCOL_VERSION,
                cost_record_id,
                m3_revision,
                event_sequence,
            },
        )
    }
}

} // verus!

//! Commands, receipts and snapshots. The daemon is authoritative; clients only
//! project this state.
use crate::approval::{ApprovalDecision, ApprovalRequest};
use crate::graph::{AdapterFailure, GraphExecution};
use crate::identity::{IdentityCatalog, NormalizedRunState};
use crate::launch::ProviderLaunchIdentity;
use crate::m3::{CostEvidence, CostLedgerRecord, M3Catalog};
use crate::text::same_text;
use crate::uid::{
    ApprovalRequestId, CostRecordId, DecisionBaselineId, DocumentId, DocumentVersionId, GraphNodeId,
    GraphRunId, KnowledgeDeliveryId, MeetingId, ProjectId, RunId, SessionId, Uid,
};
use vstd::prelude::*;

verus! {

pub const PROTOCOL_VERSION: u32 = 1;

#[derive(Clone, Copy, Debug, PartialEq, Eq, Structural)]
pub enum DaemonLifecycle {
    Starting,
    Ready,
    Checkpointing,
    Suspended,
    Stopping,
    Recovering,
}

pub open spec fn spec_lifecycle_name(value: DaemonLifecycle) -> Seq<char> {
    match value {
        DaemonLifecycle::Starting => "starting"@,
        DaemonLifecycle::Ready => "ready"@,
        DaemonLifecycle::Checkpointing => "checkpointing"@,
        DaemonLifecycle::Suspended => "suspended"@,
        DaemonLifecycle::Stopping => "stopping"@,
        DaemonLifecycle::Recovering => "recovering"@,
    }
}

/// The name under which a lifecycle is recorded.
pub fn lifecycle_name(value: &DaemonLifecycle) -> (r: &'static str)
    ensures
        r@ == spec_lifecycle_name(*value),
{
    match value {
        DaemonLifecycle::Starting => "starting",
        DaemonLifecycle::Ready => "ready",
        DaemonLifecycle::Checkpointing => "checkpointing",
        DaemonLifecycle::Suspended => "suspended",
        DaemonLifecycle::Stopping => "stopping",
        DaemonLifecycle::Recovering => "recovering",
    }
}

pub open spec fn spec_parse_lifecycle(value: Seq<char>) -> DaemonLifecycle {
    if value == "ready"@ {
        DaemonLifecycle::Ready
    } else if value == "checkpointing"@ {
        DaemonLifecycle::Checkpointing
    } else if value == "suspended"@ {
        DaemonLifecycle::Suspended
    } else if value == "stopping"@ {
        DaemonLifecycle::Stopping
    } else if value == "recovering"@ {
        DaemonLifecycle::Recovering
    } else {
        DaemonLifecycle::Starting
    }
}

/// The lifecycle that a recorded name stands for; an unknown name stands for
/// the first.
pub fn parse_lifecycle(value: &str) -> (r: DaemonLifecycle)
    ensures
        r == spec_parse_lifecycle(value@),
{
    if same_text(value, "ready") {
        DaemonLifecycle::Ready
    } else if same_text(value, "checkpointing") {
        DaemonLifecycle::Checkpointing
    } else if same_text(value, "suspended") {
        DaemonLifecycle::Suspended
    } else if same_text(value, "stopping") {
        DaemonLifecycle::Stopping
    } else if same_text(value, "recovering") {
        DaemonLifecycle::Recovering
    } else {
        DaemonLifecycle::Starting
    }
}

/// Reading the recorded name of a lifecycle gives that lifecycle back.
pub proof fn law_lifecycle_names_read_back(value: DaemonLifecycle)
    ensures
        spec_parse_lifecycle(spec_lifecycle_name(value)) == value,
{
    reveal_strlit("starting");
    reveal_strlit("ready");
    reveal_strlit("checkpointing");
    reveal_strlit("suspended");
    reveal_strlit("stopping");
    reveal_strlit("recovering");
    assert("starting"@[2] == 'a');
    assert("stopping"@[2] == 'o');
    assert("starting"@.len() == 8 && "stopping"@.len() == 8);
    assert("suspended"@.len() == 9 && "recovering"@.len() == 10);
    assert("checkpointing"@.len() == 13 && "ready"@.len() == 5);
}

#[derive(Clone, Debug, PartialEq, Eq)]
pub struct DaemonSnapshot {
    pub protocol_version: u32,
    pub daemon_id: Uid,
    pub revision: u64,
    pub lifecycle: DaemonLifecycle,
}

#[derive(Clone, Debug, PartialEq, Eq)]
pub struct EventEnvelope {
    pub protocol_version: u32,
    pub event_id: Uid,
    pub sequence: u64,
    pub event_type: String,
    pub occurred_at: String,
    pub payload_json: String,
}

#[derive(Clone, Debug, PartialEq, Eq)]
pub struct CheckpointCommand {
    pub expected_revision: u64,
    pub reason: String,
}

#[derive(Clone, Debug, PartialEq, Eq)]
pub struct CheckpointReceipt {
    pub protocol_version: u32,
    pub checkpoint_id: Uid,
    pub revision: u64,
    pub event_sequence: u64,
}

#[derive(Clone, Debug, PartialEq, Eq)]
pub struct CatalogSnapshot<'a> {
    pub protocol_version: u32,
    pub revision: u64,
    pub catalog: &'a IdentityCatalog,
}

#[derive(Clone, Debug, PartialEq, Eq)]
pub struct ReplaceCatalogCommand {
    pub expected_revision: u64,
    pub catalog: IdentityCatalog,
}

#[derive(Clone, Debug, PartialEq, Eq)]
pub struct CatalogReceipt {
    pub protocol_version: u32,
    pub revision: u64,
    pub event_sequence: u64,
}

#[derive(Clone, Debug, PartialEq, Eq)]
pub struct M3CatalogSnapshot<'a> {
    pub protocol_version: u32,
    pub revision: u64,
    pub catalog: &'a M3Catalog,
}

#[derive(Clone, Debug, PartialEq, Eq)]
pub struct ReplaceM3CatalogCommand {
    pub expected_revision: u64,
    pub catalog: M3Catalog,
}

#[derive(Clone, Debug, PartialEq, Eq)]
pub struct GraphExecutionList<'a> {
    pub protocol_version: u32,
    pub executions: Vec<&'a GraphExecution>,
}

#[derive(Clone, Debug, PartialEq, Eq)]
pub struct CreateGraphExecutionCommand {
    pub execution: GraphExecution,
}

#[derive(Clone, Debug, PartialEq, Eq)]
pub struct GraphExecutionReceipt {
    pub protocol_version: u32,
    pub execution_id: GraphRunId,
    pub revision: u64,
    pub event_sequence: u64,
}

#[derive(Clone, Debug, PartialEq, Eq)]
pub struct RestartMissingOutputGraphCommand {
    pub expected_graph_revision: u64,
}

#[derive(Clone, Debug, PartialEq, Eq)]
pub struct RetryFailedGraphNodeCommand {
    pub node_id: GraphNodeId,
    pub expected_graph_revision: u64,
}

#[derive(Clone, Debug, PartialEq, Eq)]
pub struct PrepareMvpCommand {
    pub expected_catalog_revision: u64,
    pub expected_m3_revision: u64,
    pub project_name: String,
    pub workspace_root: String,
    pub codex_model: String,
    pub agy_model: String,
}

#[derive(Clone, Debug, PartialEq, Eq)]
pub struct PrepareMvpReceipt {
    pub protocol_version: u32,
    pub project_id: ProjectId,
    pub meeting_id: MeetingId,
    pub catalog_revision: u64,
    pub m3_revision: u64,
    pub event_sequence: u64,
}

#[derive(Clone, Debug, PartialEq, Eq)]
pub struct AcceptDecisionBaselineCommand {
    pub expected_m3_revision: u64,
    pub meeting_id: MeetingId,
    pub content: String,
    pub accepted_by: String,
    pub accepted_at: String,
}

#[derive(Clone, Debug, PartialEq, Eq)]
pub struct AcceptDecisionBaselineReceipt {
    pub protocol_version: u32,
    pub baseline_id: DecisionBaselineId,
    pub graph_execution_id: GraphRunId,
    pub m3_revision: u64,
    pub event_sequence: u64,
}

#[derive(Clone, Debug, PartialEq, Eq)]
pub struct ClaimGraphNodesCommand {
    pub expected_revision: u64,
    pub owner: String,
    pub limit: usize,
}

#[derive(Clone, Debug, PartialEq, Eq)]
pub struct ClaimGraphNodesReceipt {
    pub protocol_version: u32,
    pub execution_id: GraphRunId,
    pub revision: u64,
    pub claimed: Vec<GraphNodeId>,
}

#[derive(Clone, Debug, PartialEq, Eq)]
pub struct CompleteGraphNodeCommand {
    pub expected_revision: u64,
    pub node_id: GraphNodeId,
    pub owner: String,
    pub succeeded: bool,
}

#[derive(Clone, Debug, PartialEq, Eq)]
pub struct CompleteGraphNodeReceipt {
    pub protocol_version: u32,
    pub execution_id: GraphRunId,
    pub revision: u64,
}

#[derive(Clone, Debug, PartialEq, Eq)]
pub struct ExecuteReadyGraphCommand {
    pub expected_catalog_revision: u64,
    pub expected_graph_revision: u64,
}

/// Accepted daemon-owned work; provider output remains in the durable ledger.
#[derive(Clone, Debug, PartialEq, Eq)]
pub struct ExecuteReadyGraphReceipt {
    pub protocol_version: u32,
    pub execution_id: GraphRunId,
    pub run_ids: Vec<RunId>,
}

#[derive(Clone, Debug, PartialEq, Eq)]
pub struct BeginGraphNodeRunCommand {
    pub expected_catalog_revision: u64,
    pub expected_graph_revision: u64,
    pub node_id: GraphNodeId,
    pub owner: String,
}

#[derive(Clone, Debug, PartialEq, Eq)]
pub struct BeginGraphNodeRunReceipt {
    pub protocol_version: u32,
    pub execution_id: GraphRunId,
    pub node_id: GraphNodeId,
    pub session_id: SessionId,
    pub run_id: RunId,
    /// Absent on old wire receipts; new daemon-owned launches require it.
    pub launch_identity: Option<ProviderLaunchIdentity>,
    pub adapter_kind: String,
    pub model: String,
    pub workspace_root: String,
    pub prompt: String,
    pub catalog_revision: u64,
    pub graph_revision: u64,
    pub event_sequence: u64,
}

#[derive(Clone, Debug, PartialEq, Eq)]
pub struct FinishGraphNodeRunCommand {
    pub expected_catalog_revision: u64,
    pub expected_graph_revision: u64,
    pub expected_m3_revision: u64,
    pub node_id: GraphNodeId,
    pub run_id: RunId,
    pub owner: String,
    pub terminal_state: NormalizedRunState,
    pub failure: Option<AdapterFailure>,
    pub provider_session_id: Option<String>,
    pub output_markdown: Option<String>,
    pub cost: CostEvidence,
}

#[derive(Clone, Debug, PartialEq, Eq)]
pub struct FinishGraphNodeRunReceipt {
    pub protocol_version: u32,
    pub execution_id: GraphRunId,
    pub node_id: GraphNodeId,
    pub run_id: RunId,
    pub cost_record_id: CostRecordId,
    pub output_content_hash: Option<String>,
    pub catalog_revision: u64,
    pub graph_revision: u64,
    pub m3_revision: u64,
    pub event_sequence: u64,
}

#[derive(Clone, Debug, PartialEq, Eq)]
pub struct CreateDocumentCommand {
    pub expected_m3_revision: u64,
    pub graph_execution_id: GraphRunId,
    pub title: String,
    pub markdown: String,
}

#[derive(Clone, Debug, PartialEq, Eq)]
pub struct DocumentReceipt {
    pub protocol_version: u32,
    pub artifact_id: DocumentId,
    pub version_id: DocumentVersionId,
    pub content_hash: String,
    pub m3_revision: u64,
    pub event_sequence: u64,
}

#[derive(Clone, Debug, PartialEq, Eq)]
pub struct AcceptDocumentCommand {
    pub expected_m3_revision: u64,
    pub artifact_id: DocumentId,
    pub version_id: DocumentVersionId,
    pub content_hash: String,
    pub accepted_by: String,
    pub accepted_at: String,
}

#[derive(Clone, Debug, PartialEq, Eq)]
pub struct PrepareKnowledgeDeliveryCommand {
    pub expected_m3_revision: u64,
    pub project_id: ProjectId,
    pub artifact_version_id: DocumentVersionId,
    pub target: String,
    pub preview: String,
}

#[derive(Clone, Debug, PartialEq, Eq)]
pub struct CompleteKnowledgeDeliveryCommand {
    pub expected_m3_revision: u64,
    pub delivery_id: KnowledgeDeliveryId,
    pub destination_receipt: String,
}

#[derive(Clone, Debug, PartialEq, Eq)]
pub struct KnowledgeDeliveryReceipt {
    pub protocol_version: u32,
    pub delivery_id: KnowledgeDeliveryId,
    pub state: String,
    pub m3_revision: u64,
    pub event_sequence: u64,
}

#[derive(Clone, Debug, PartialEq, Eq)]
pub struct RecordCostCommand {
    pub expected_m3_revision: u64,
    pub record: CostLedgerRecord,
}

#[derive(Clone, Debug, PartialEq, Eq)]
pub struct CostReceipt {
    pub protocol_version: u32,
    pub cost_record_id: CostRecordId,
    pub m3_revision: u64,
    pub event_sequence: u64,
}

#[derive(Clone, Debug, PartialEq, Eq)]
pub struct ApprovalReceipt {
    pub protocol_version: u32,
    pub request_id: ApprovalRequestId,
    pub event_sequence: u64,
}

#[derive(Clone, Debug, PartialEq, Eq)]
pub struct CancelRunCommand {
    pub run_id: RunId,
    pub expected_catalog_revision: u64,
}

#[derive(Clone, Debug, PartialEq, Eq)]
pub struct CancelRunReceipt {
    pub protocol_version: u32,
    pub run_id: RunId,
    pub catalog_revision: u64,
    pub event_sequence: u64,
}


#[derive(Clone, Debug, PartialEq, Eq)]
pub struct CreateApprovalCommand {
    pub request: ApprovalRequest,
}

#[derive(Clone, Debug, PartialEq, Eq)]
pub struct DecideApprovalCommand {
    pub decision: ApprovalDecision,
    pub credential_scope_acknowledged: bool,
}

#[derive(Clone, Debug, PartialEq, Eq)]
pub struct RevokeCredentialGrantCommand {
    pub actor: String,
}

#[derive(Clone, Debug, PartialEq, Eq)]
pub struct ApprovalRecord<'a> {
    pub protocol_version: u32,
    pub request: &'a ApprovalRequest,
    pub decision: Option<&'a ApprovalDecision>,
    pub staged_launch_state: Option<StagedLaunchState>,
}

#[derive(Clone, Debug, PartialEq, Eq)]
pub struct ApprovalList<'a> {
    pub protocol_version: u32,
    pub records: Vec<ApprovalRecord<'a>>,
}

/// What became of a credential grant. Presence is not a promise of current
/// usability.
#[derive(Clone, Debug, PartialEq, Eq)]
pub struct CredentialGrantRecord<'a> {
    pub protocol_version: u32,
    pub request: &'a ApprovalRequest,
    pub decision: &'a ApprovalDecision,
    pub issued_at_ms: u64,
    pub consumed_at_ms: Option<u64>,
    pub revoked_at_ms: Option<u64>,
    pub revoked_by: Option<&'a String>,
}

/// How far an approval-gated launch has come.
#[derive(Clone, Copy, Debug, PartialEq, Eq, Structural)]
pub enum StagedLaunchState {
    AwaitingApproval,
    Ready,
    Dispatching,
    Uncertain,
    Cancelled,
}

} // verus!

use crate::identity::{copy_optional_text, NormalizedRunState};
use crate::text::same_text;
use crate::uid::{find, position, DecisionBaselineId, GraphNodeId, GraphRunId, Keyed, RoleId, RunId, Uid};
use vstd::prelude::*;

verus! {

/// Why the graph rules refuse an execution or a change of one.
#[derive(Clone, Debug, PartialEq, Eq)]
pub enum GraphError {
    InvalidExecution,
    InvalidOutput,
    Other(String),
}

impl GraphError {
    pub fn copy(&self) -> (r: Self)
        ensures
            r == *self,
    {
        match self {
            GraphError::InvalidExecution => GraphError::InvalidExecution,
            GraphError::InvalidOutput => GraphError::InvalidOutput,
            GraphError::Other(text) => GraphError::Other(text.clone()),
        }
    }
}

#[derive(Clone, Copy, Debug, PartialEq, Eq, Structural)]
pub enum AdapterFailureKind {
    Timeout,
    Cancelled,
    Authentication,
    Quota,
    PermissionDenied,
    Crashed,
    ProtocolDrift,
    MalformedOutput,
    BinaryMissing,
    Unsupported,
    Unknown,
}

#[derive(Clone, Debug, PartialEq, Eq)]
pub struct AdapterFailure {
    pub kind: AdapterFailureKind,
    pub message_key: String,
    pub retryable: bool,
    pub provider_code: Option<String>,
    pub redacted_detail: Option<String>,
}

impl AdapterFailure {
    pub fn copy(&self) -> (r: Self)
        ensures
            r == *self,
    {
        AdapterFailure {
            kind: self.kind,
            message_key: self.message_key.clone(),
            retryable: self.retryable,
            provider_code: copy_optional_text(&self.provider_code),
            redacted_detail: copy_optional_text(&self.redacted_detail),
        }
    }
}

/// The message keys that may be recorded as an adapter reported them.
pub open spec fn message_keys() -> Seq<Seq<char>> {
    seq![
        "adapter.agy.cancelled"@,
        "adapter.agy.crashed"@,
        "adapter.agy.failed"@,
        "adapter.agy.invalid_state"@,
        "adapter.agy.timed_out"@,
        "codex.failure.bad_request"@,
        "codex.failure.context_window_exceeded"@,
        "codex.failure.http_connection_failed"@,
        "codex.failure.internal_server_error"@,
        "codex.failure.response_stream_connection_failed"@,
        "codex.failure.response_stream_disconnected"@,
        "codex.failure.response_too_many_failed_attempts"@,
        "codex.failure.sandbox_error"@,
        "codex.failure.timeout"@,
        "codex.failure.transport_lost"@,
        "codex.failure.unauthorized"@,
        "codex.failure.unknown"@,
        "codex.failure.usage_limit_exceeded"@,
    ]
}

fn known_message_key(key: &str) -> (r: bool)
    ensures
        r == message_keys().contains(key@),
{
    let known: [&str; 18] = [
        "adapter.agy.cancelled",
        "adapter.agy.crashed",
        "adapter.agy.failed",
        "adapter.agy.invalid_state",
        "adapter.agy.timed_out",
        "codex.failure.bad_request",
        "codex.failure.context_window_exceeded",
        "codex.failure.http_connection_failed",
        "codex.failure.internal_server_error",
        "codex.failure.response_stream_connection_failed",
        "codex.failure.response_stream_disconnected",
        "codex.failure.response_too_many_failed_attempts",
        "codex.failure.sandbox_error",
        "codex.failure.timeout",
        "codex.failure.transport_lost",
        "codex.failure.unauthorized",
        "codex.failure.unknown",
        "codex.failure.usage_limit_exceeded",
    ];
    assert forall|j: int| 0 <= j < 18 implies #[trigger] message_keys()[j] == known@[j]@ by {}
    let mut i: usize = 0;
    while i < 18
        invariant
            i <= 18,
            forall|j: int| 0 <= j < 18 ==> #[trigger] message_keys()[j] == known@[j]@,
            forall|j: int| 0 <= j < i ==> #[trigger] message_keys()[j] != key@,
        decreases 18 - i,
    {
        if same_text(known[i], key) {
            assert(message_keys()[i as int] == key@);
            return true;
        }
        i += 1;
    }
    false
}

/// The message key that stands for a kind of failure.
pub open spec fn failure_key(kind: AdapterFailureKind) -> Seq<char> {
    match kind {
        AdapterFailureKind::Timeout => "adapter.failure.timeout"@,
        AdapterFailureKind::Cancelled => "adapter.failure.cancelled"@,
        AdapterFailureKind::Authentication => "adapter.failure.authentication"@,
        AdapterFailureKind::Quota => "adapter.failure.quota"@,
        AdapterFailureKind::PermissionDenied => "adapter.failure.permission_denied"@,
        AdapterFailureKind::Crashed => "adapter.failure.crashed"@,
        AdapterFailureKind::ProtocolDrift => "adapter.failure.protocol_drift"@,
        AdapterFailureKind::MalformedOutput => "adapter.failure.malformed_output"@,
        AdapterFailureKind::BinaryMissing => "adapter.failure.binary_missing"@,
        AdapterFailureKind::Unsupported => "adapter.failure.unsupported"@,
        AdapterFailureKind::Unknown => "adapter.failure.unknown"@,
    }
}

/// The durable form of a reported failure: kind and retryability are kept, a
/// known message key is kept and any other gives way to that of the kind, and
/// provider codes and details are left out. They can contain command lines,
/// paths, credentials, or raw provider payloads even when a caller labels them
/// as redacted.
pub open spec fn sanitized(clean: AdapterFailure, reported: AdapterFailure) -> bool {
    &&& clean.kind == reported.kind
    &&& clean.retryable == reported.retryable
    &&& clean.provider_code is None
    &&& clean.redacted_detail is None
    &&& clean.message_key@ == (if message_keys().contains(reported.message_key@) {
        reported.message_key@
    } else {
        failure_key(reported.kind)
    })
}

pub fn sanitize_adapter_failure(failure: &AdapterFailure) -> (r: AdapterFailure)
    ensures
        sanitized(r, *failure),
{
    let message_key = if known_message_key(failure.message_key.as_str()) {
        failure.message_key.clone()
    } else {
        (match failure.kind {
            AdapterFailureKind::Timeout => "adapter.failure.timeout",
            AdapterFailureKind::Cancelled => "adapter.failure.cancelled",
            AdapterFailureKind::Authentication => "adapter.failure.authentication",
            AdapterFailureKind::Quota => "adapter.failure.quota",
            AdapterFailureKind::PermissionDenied => "adapter.failure.permission_denied",
            AdapterFailureKind::Crashed => "adapter.failure.crashed",
            AdapterFailureKind::ProtocolDrift => "adapter.failure.protocol_drift",
            AdapterFailureKind::MalformedOutput => "adapter.failure.malformed_output",
            AdapterFailureKind::BinaryMissing => "adapter.failure.binary_missing",
            AdapterFailureKind::Unsupported => "adapter.failure.unsupported",
            AdapterFailureKind::Unknown => "adapter.failure.unknown",
        }).to_owned()
    };
    AdapterFailure {
        kind: failure.kind,
        message_key,
        retryable: failure.retryable,
        provider_code: None,
        redacted_detail: None,
    }
}

/// The durable form of a failure that may not have been reported at all.
pub open spec fn sanitized_option(clean: Option<AdapterFailure>, reported: Option<AdapterFailure>) -> bool {
    match (clean, reported) {
        (Some(clean), Some(reported)) => sanitized(clean, reported),
        (None, None) => true,
        _ => false,
    }
}

pub fn sanitize_optional_failure(failure: &Option<AdapterFailure>) -> (r: Option<AdapterFailure>)
    ensures
        sanitized_option(r, *failure),
{
    match failure {
        Some(failure) => Some(sanitize_adapter_failure(failure)),
        None => None,
    }
}

/// Sanitizing what has been sanitized changes nothing.
pub proof fn law_sanitizing_is_idempotent(reported: AdapterFailure, once: AdapterFailure, twice: AdapterFailure)
    requires
        sanitized(once, reported),
        sanitized(twice, once),
    ensures
        twice.kind == once.kind,
        twice.retryable == once.retryable,
        twice.message_key@ == once.message_key@,
        twice.provider_code is None,
        twice.redacted_detail is None,
{
}

#[derive(Clone, Copy, Debug, PartialEq, Eq, Structural)]
pub enum GraphNodeState {
    Pending,
    Running,
    AwaitingApproval,
    Succeeded,
    Failed,
    Cancelled,
    Blocked,
    Uncertain,
}

/// The state of a graph node whose run ended in `state`; `None` for a state in
/// which no run ends.
pub open spec fn spec_terminal_node_state(state: NormalizedRunState) -> Option<GraphNodeState> {
    match state {
        NormalizedRunState::Succeeded => Some(GraphNodeState::Succeeded),
        NormalizedRunState::Failed => Some(GraphNodeState::Failed),
        NormalizedRunState::Cancelled => Some(GraphNodeState::Cancelled),
        NormalizedRunState::Blocked => Some(GraphNodeState::Blocked),
        NormalizedRunState::Uncertain => Some(GraphNodeState::Uncertain),
        _ => None,
    }
}

pub fn terminal_node_state(state: NormalizedRunState) -> (r: Option<GraphNodeState>)
    ensures
        r == spec_terminal_node_state(state),
{
    match state {
        NormalizedRunState::Succeeded => Some(GraphNodeState::Succeeded),
        NormalizedRunState::Failed => Some(GraphNodeState::Failed),
        NormalizedRunState::Cancelled => Some(GraphNodeState::Cancelled),
        NormalizedRunState::Blocked => Some(GraphNodeState::Blocked),
        NormalizedRunState::Uncertain => Some(GraphNodeState::Uncertain),
        _ => None,
    }
}

#[derive(Clone, Debug, PartialEq, Eq)]
pub enum GraphNodeKind {
    Research,
    Join,
    Other(String),
}

/// A node as the workflow defines it.
#[derive(Clone, Debug, PartialEq, Eq)]
pub struct GraphNode {
    pub id: GraphNodeId,
    pub kind: GraphNodeKind,
    pub role_id: RoleId,
    pub title: String,
    pub needs: Vec<GraphNodeId>,
}

#[derive(Clone, Debug, PartialEq, Eq)]
pub struct WorkflowGraph {
    pub decision_baseline_id: DecisionBaselineId,
    pub nodes: Vec<GraphNode>,
}

/// How far a node has come.
#[derive(Clone, Debug, PartialEq, Eq)]
pub struct NodeExecution {
    pub node_id: GraphNodeId,
    pub state: GraphNodeState,
    pub owner: Option<String>,
    pub run_id: Option<RunId>,
    pub failure: Option<AdapterFailure>,
}

#[derive(Clone, Debug, PartialEq, Eq)]
pub struct GraphNodeOutput {
    pub node_id: GraphNodeId,
    pub run_id: RunId,
    pub content_hash: String,
    pub markdown: String,
}

impl GraphNodeOutput {
    pub fn copy(&self) -> (r: Self)
        ensures
            r == *self,
    {
        GraphNodeOutput {
            node_id: self.node_id,
            run_id: self.run_id,
            content_hash: self.content_hash.clone(),
            markdown: self.markdown.clone(),
        }
    }
}

/// The output that counts for a node among all that were recorded for it.
#[derive(Clone, Debug, PartialEq, Eq)]
pub struct SelectedOutput {
    pub node_id: GraphNodeId,
    pub output: GraphNodeOutput,
}

/// One execution of a workflow graph. `selected_outputs` names, for each node
/// that has an output that counts, that output.
#[derive(Clone, Debug, PartialEq, Eq)]
pub struct GraphExecution {
    pub id: GraphRunId,
    pub revision: u64,
    pub restarted_from_execution_id: Option<GraphRunId>,
    pub graph: WorkflowGraph,
    pub nodes: Vec<NodeExecution>,
    pub outputs: Vec<GraphNodeOutput>,
    pub selected_outputs: Vec<SelectedOutput>,
}

/// An execution together with the fault that the graph rules find in it, if
/// they find one.
#[derive(Clone, Debug, PartialEq, Eq)]
pub struct CheckedGraph {
    pub execution: GraphExecution,
    pub fault: Option<GraphError>,
}

impl Keyed for GraphNode {
    open spec fn key(&self) -> Uid {
        self.id
    }

    fn id(&self) -> (r: Uid) {
        self.id
    }
}

impl Keyed for NodeExecution {
    open spec fn key(&self) -> Uid {
        self.node_id
    }

    fn id(&self) -> (r: Uid) {
        self.node_id
    }
}

impl Keyed for SelectedOutput {
    open spec fn key(&self) -> Uid {
        self.node_id
    }

    fn id(&self) -> (r: Uid) {
        self.node_id
    }
}

impl GraphExecution {
    /// The output that counts for a node.
    pub open spec fn spec_output(self, node_id: GraphNodeId) -> Option<GraphNodeOutput> {
        match find(self.selected_outputs@, node_id) {
            Some(i) => Some(self.selected_outputs@[i].output),
            None => None,
        }
    }

    pub fn output(&self, node_id: GraphNodeId) -> (r: Option<&GraphNodeOutput>)
        ensures
            match r {
                Some(output) => self.spec_output(node_id) == Some(*output),
                None => self.spec_output(node_id) is None,
            },
    {
        match position(&self.selected_outputs, node_id) {
            Some(i) => Some(&self.selected_outputs[i].output),
            None => None,
        }
    }

    /// The run that a node is bound to.
    pub open spec fn spec_bound_run(self, node_id: GraphNodeId) -> Option<RunId> {
        match find(self.nodes@, node_id) {
            Some(i) => self.nodes@[i].run_id,
            None => None,
        }
    }

    pub fn bound_run(&self, node_id: GraphNodeId) -> (r: Option<RunId>)
        ensures
            r == self.spec_bound_run(node_id),
    {
        match position(&self.nodes, node_id) {
            Some(i) => self.nodes[i].run_id,
            None => None,
        }
    }
}

/// A row of the ledger of node outputs.
#[derive(Clone, Debug, PartialEq, Eq)]
pub struct OutputRow {
    pub execution_id: GraphRunId,
    pub node_id: GraphNodeId,
    pub run_id: RunId,
    pub content_hash: String,
    pub markdown: String,
    pub created_at: String,
}

impl Keyed for OutputRow {
    open spec fn key(&self) -> Uid {
        self.run_id
    }

    fn id(&self) -> (r: Uid) {
        self.run_id
    }
}

/// How many of the first `n` rows belong to an execution.
pub open spec fn ledger_count(rows: Seq<OutputRow>, execution_id: GraphRunId, n: nat) -> nat
    decreases n,
{
    if n == 0 {
        0
    } else {
        ledger_count(rows, execution_id, (n - 1) as nat) + (if rows[n - 1].execution_id
            == execution_id {
            1nat
        } else {
            0nat
        })
    }
}

/// A row that records exactly this output of this execution.
pub open spec fn records(row: OutputRow, execution_id: GraphRunId, output: GraphNodeOutput) -> bool {
    &&& row.execution_id == execution_id
    &&& row.node_id == output.node_id
    &&& row.run_id == output.run_id
    &&& row.content_hash@ == output.content_hash@
    &&& row.markdown@ == output.markdown@
}

pub open spec fn in_ledger(rows: Seq<OutputRow>, execution_id: GraphRunId, output: GraphNodeOutput) -> bool {
    exists|i: int| 0 <= i < rows.len() && #[trigger] records(rows[i], execution_id, output)
}

/// The ledger holds as many rows for an execution as it has outputs, and each
/// output has its row.
pub open spec fn ledger_agrees(rows: Seq<OutputRow>, execution: GraphExecution) -> bool {
    &&& ledger_count(rows, execution.id, rows.len()) == execution.outputs@.len()
    &&& forall|k: int|
        0 <= k < execution.outputs@.len() ==> in_ledger(
            rows,
            execution.id,
            #[trigger] execution.outputs@[k],
        )
}

fn has_ledger_row(rows: &Vec<OutputRow>, execution_id: GraphRunId, output: &GraphNodeOutput) -> (r: bool)
    ensures
        r == in_ledger(rows@, execution_id, *output),
{
    let mut i: usize = 0;
    while i < rows.len()
        invariant
            i <= rows@.len(),
            forall|j: int| 0 <= j < i ==> !#[trigger] records(rows@[j], execution_id, *output),
        decreases rows@.len() - i,
    {
        let row = &rows[i];
        if row.execution_id == execution_id && row.node_id == output.node_id && row.run_id
            == output.run_id && row.content_hash == output.content_hash && row.markdown
            == output.markdown {
            assert(records(rows@[i as int], execution_id, *output));
            return true;
        }
        i += 1;
    }
    false
}

/// Whether the ledger and the execution agree on what was put out.
pub fn validate_graph_output_ledger(rows: &Vec<OutputRow>, execution: &GraphExecution) -> (r: Result<(), GraphError>)
    ensures
        r == (if ledger_agrees(rows@, *execution) {
            Ok::<(), GraphError>(())
        } else {
            Err(GraphError::InvalidOutput)
        }),
{
    let mut count: usize = 0;
    let mut i: usize = 0;
    while i < rows.len()
        invariant
            i <= rows@.len(),
            count <= i,
            count == ledger_count(rows@, execution.id, i as nat),
        decreases rows@.len() - i,
    {
        if rows[i].execution_id == execution.id {
            count += 1;
        }
        i += 1;
    }
    if count != execution.outputs.len() {
        return Err(GraphError::InvalidOutput);
    }
    let mut k: usize = 0;
    while k < execution.outputs.len()
        invariant
            k <= execution.outputs@.len(),
            forall|j: int|
                0 <= j < k ==> in_ledger(rows@, execution.id, #[trigger] execution.outputs@[j]),
        decreases execution.outputs@.len() - k,
    {
        if !has_ledger_row(rows, execution.id, &execution.outputs[k]) {
            assert(!in_ledger(rows@, execution.id, execution.outputs@[k as int]));
            return Err(GraphError::InvalidOutput);
        }
        k += 1;
    }
    Ok(())
}

} // verus!

//! What the daemon decides while a provider works: before the launch, on each
//! report, and when the end is to be recorded. The reports come from outside and
//! the actions are carried out outside.
use crate::attempts::{check_graph, graph_refusal};
use crate::binding::{resolve, resolve_provider_run_binding, ProviderRunBinding, RunBindingView};
use crate::error::{ApprovalError, CatalogError, Refusal, StoreError};
use crate::graph::{AdapterFailure, AdapterFailureKind, GraphError};
use crate::identity::{copy_optional_text, text_of, NormalizedRunState};
use crate::m3::{is_unknown_cost, unknown_cost, CostEvidence};
use crate::protocol::{
    lifecycle_name, parse_lifecycle, spec_lifecycle_name, spec_parse_lifecycle,
    BeginGraphNodeRunCommand, BeginGraphNodeRunReceipt, DaemonLifecycle, ExecuteReadyGraphCommand, ExecuteReadyGraphReceipt,
    FinishGraphNodeRunCommand, PROTOCOL_VERSION,
};
use crate::runs::{has_run_ended, run_ended};
use crate::store::{Store, StoreView};
use crate::text::{blank, is_blank, same_text};
use crate::uid::{find, position, ApprovalRequestId, GraphNodeId, GraphRunId, RunId};
use vstd::prelude::*;
use vstd::string::*;

verus! {

/// How a run ended, as its provider left it.
#[derive(Clone, Debug, PartialEq, Eq)]
pub struct ProviderOutcome {
    pub terminal_state: NormalizedRunState,
    pub provider_session_id: Option<String>,
    pub cost: CostEvidence,
    pub output_markdown: Option<String>,
    pub failure: Option<AdapterFailure>,
}

/// A failure that the daemon itself reports.
pub open spec fn own_failure(
    failure: Option<AdapterFailure>,
    kind: AdapterFailureKind,
    key: Seq<char>,
    retryable: bool,
) -> bool {
    match failure {
        None => false,
        Some(failure) => {
            &&& failure.kind == kind
            &&& failure.message_key@ == key
            &&& failure.retryable == retryable
            &&& failure.provider_code is None
            &&& failure.redacted_detail is None
        },
    }
}

fn report(kind: AdapterFailureKind, key: &str, retryable: bool) -> (r: Option<AdapterFailure>)
    ensures
        own_failure(r, kind, key@, retryable),
{
    Some(
        AdapterFailure {
            kind,
            message_key: key.to_owned(),
            retryable,
            provider_code: None,
            redacted_detail: None,
        },
    )
}

/// An end without any evidence of the provider.
pub open spec fn bare_outcome(
    outcome: ProviderOutcome,
    state: NormalizedRunState,
    kind: AdapterFailureKind,
    key: Seq<char>,
) -> bool {
    &&& outcome.terminal_state == state
    &&& outcome.provider_session_id is None
    &&& is_unknown_cost(outcome.cost)
    &&& outcome.output_markdown is None
    &&& own_failure(outcome.failure, kind, key, false)
}

/// The end of a run that was cancelled, with what evidence there was.
pub open spec fn cancelled_outcome(
    outcome: ProviderOutcome,
    session: Option<String>,
    cost: CostEvidence,
) -> bool {
    &&& outcome.terminal_state == NormalizedRunState::Cancelled
    &&& outcome.provider_session_id == session
    &&& outcome.cost == cost
    &&& outcome.output_markdown is None
    &&& own_failure(
        outcome.failure,
        AdapterFailureKind::Cancelled,
        "adapter.failure.cancelled"@,
        false,
    )
}

/// The end of a run of which nothing is known.
pub open spec fn is_unavailable(outcome: ProviderOutcome) -> bool {
    bare_outcome(
        outcome,
        NormalizedRunState::Uncertain,
        AdapterFailureKind::Unknown,
        "mvp.failure.unknown"@,
    )
}

impl ProviderOutcome {
    pub fn cancelled() -> (r: Self)
        ensures
            bare_outcome(
                r,
                NormalizedRunState::Cancelled,
                AdapterFailureKind::Cancelled,
                "adapter.failure.cancelled"@,
            ),
    {
        Self {
            terminal_state: NormalizedRunState::Cancelled,
            provider_session_id: None,
            cost: unknown_cost(),
            output_markdown: None,
            failure: report(AdapterFailureKind::Cancelled, "adapter.failure.cancelled", false),
        }
    }

    pub fn cancelled_with_evidence(provider_session_id: Option<String>, cost: CostEvidence) -> (r: Self)
        ensures
            cancelled_outcome(r, provider_session_id, cost),
    {
        let bare = Self::cancelled();
        Self {
            terminal_state: bare.terminal_state,
            provider_session_id,
            cost,
            output_markdown: None,
            failure: bare.failure,
        }
    }

    pub fn unavailable() -> (r: Self)
        ensures
            is_unavailable(r),
    {
        Self {
            terminal_state: NormalizedRunState::Uncertain,
            provider_session_id: None,
            cost: unknown_cost(),
            output_markdown: None,
            failure: report(AdapterFailureKind::Unknown, "mvp.failure.unknown", false),
        }
    }
}

/// Whether a success came without an output to show for it.
pub open spec fn output_missing(state: NormalizedRunState, output: Option<String>) -> bool {
    state == NormalizedRunState::Succeeded && (output is None || blank(output->0@))
}

/// The end of a run that its provider reported: a success without output counts
/// as a failure that may be tried again.
pub open spec fn reported_outcome(
    r: ProviderOutcome,
    state: NormalizedRunState,
    session: Option<String>,
    cost: CostEvidence,
    output: Option<String>,
    failure: Option<AdapterFailure>,
) -> bool {
    &&& r.provider_session_id == session
    &&& r.cost == cost
    &&& r.output_markdown == output
    &&& if output_missing(state, output) {
        &&& r.terminal_state == NormalizedRunState::Failed
        &&& own_failure(
            r.failure,
            AdapterFailureKind::MalformedOutput,
            "mvp.failure.invalid_output"@,
            true,
        )
    } else {
        r.terminal_state == state && r.failure == failure
    }
}

pub fn outcome(
    terminal_state: NormalizedRunState,
    provider_session_id: Option<String>,
    cost: CostEvidence,
    output: Option<String>,
    failure: Option<AdapterFailure>,
) -> (r: ProviderOutcome)
    ensures
        reported_outcome(r, terminal_state, provider_session_id, cost, output, failure),
{
    let missing = terminal_state == NormalizedRunState::Succeeded && match &output {
        None => true,
        Some(text) => is_blank(text.as_str()),
    };
    ProviderOutcome {
        terminal_state: if missing {
            NormalizedRunState::Failed
        } else {
            terminal_state
        },
        provider_session_id,
        cost,
        output_markdown: output,
        failure: if missing {
            report(AdapterFailureKind::MalformedOutput, "mvp.failure.invalid_output", true)
        } else {
            failure
        },
    }
}

/// Who owns a node that the daemon lets a provider work on.
pub open spec fn spec_owner(node_id: GraphNodeId) -> Seq<char> {
    "daemon-provider-"@ + node_id.canonical()
}

pub fn owner(node_id: GraphNodeId) -> (r: String)
    ensures
        r@ == spec_owner(node_id),
{
    let mut text = "daemon-provider-".to_owned();
    text.append(node_id.text().as_str());
    text
}

pub fn is_terminal(state: NormalizedRunState) -> (r: bool)
    ensures
        r == run_ended(state),
{
    has_run_ended(state)
}

/// What happens before a provider is called: nothing, or the run has ended
/// already.
pub fn before_run(cancelled_before: bool, preflight_passed: bool, cancelled_after: bool) -> (r: Option<
    ProviderOutcome,
>)
    ensures
        if cancelled_before || (!preflight_passed && cancelled_after) {
            r is Some && bare_outcome(
                r->0,
                NormalizedRunState::Cancelled,
                AdapterFailureKind::Cancelled,
                "adapter.failure.cancelled"@,
            )
        } else if !preflight_passed {
            r is Some && is_unavailable(r->0)
        } else {
            r is None
        },
{
    if cancelled_before {
        return Some(ProviderOutcome::cancelled());
    }
    if !preflight_passed {
        return Some(
            if cancelled_after {
                ProviderOutcome::cancelled()
            } else {
                ProviderOutcome::unavailable()
            },
        );
    }
    None
}

/// Whether a request to cancel is acknowledged once the run has ended: only for
/// this very run, and only if it was cancelled.
pub fn acknowledges(requested: RunId, run_id: RunId, terminal_state: NormalizedRunState) -> (r: bool)
    ensures
        r == (requested == run_id && terminal_state == NormalizedRunState::Cancelled),
{
    requested == run_id && terminal_state == NormalizedRunState::Cancelled
}

/// Which adapter runs a launch, or that none does.
#[derive(Clone, Debug, PartialEq, Eq)]
pub enum RunnerChoice {
    Codex,
    Agy,
    Ended(ProviderOutcome),
}

/// Whether a launch names an account, or no selection at all.
pub open spec fn names_account(receipt: BeginGraphNodeRunReceipt) -> bool {
    receipt.launch_identity is None || receipt.launch_identity->0.account is Some
}

/// Which adapter runs a launch. A selected account is never replaced by a
/// different ambient login: such a launch is blocked, as is one that the policy
/// does not allow.
pub open spec fn runner_choice(choice: RunnerChoice, receipt: BeginGraphNodeRunReceipt, allowed: bool) -> bool {
    if names_account(receipt) {
        choice is Ended && bare_outcome(
            choice->Ended_0,
            NormalizedRunState::Blocked,
            AdapterFailureKind::Unsupported,
            "adapter.failure.unsupported"@,
        )
    } else if !allowed {
        choice is Ended && bare_outcome(
            choice->Ended_0,
            NormalizedRunState::Blocked,
            AdapterFailureKind::PermissionDenied,
            "adapter.failure.permission_denied"@,
        )
    } else if receipt.adapter_kind@ == "codex_cli"@ {
        choice is Codex
    } else if receipt.adapter_kind@ == "agy_cli"@ {
        choice is Agy
    } else {
        choice is Ended && is_unavailable(choice->Ended_0)
    }
}

pub fn choose_runner(receipt: &BeginGraphNodeRunReceipt, online_launch_allowed: bool) -> (r: RunnerChoice)
    ensures
        runner_choice(r, *receipt, online_launch_allowed),
{
    let names_account = match &receipt.launch_identity {
        None => true,
        Some(identity) => identity.account.is_some(),
    };
    if names_account {
        return RunnerChoice::Ended(
            ProviderOutcome {
                terminal_state: NormalizedRunState::Blocked,
                provider_session_id: None,
                cost: unknown_cost(),
                output_markdown: None,
                failure: report(
                    AdapterFailureKind::Unsupported,
                    "adapter.failure.unsupported",
                    false,
                ),
            },
        );
    }
    if !online_launch_allowed {
        return RunnerChoice::Ended(
            ProviderOutcome {
                terminal_state: NormalizedRunState::Blocked,
                provider_session_id: None,
                cost: unknown_cost(),
                output_markdown: None,
                failure: report(
                    AdapterFailureKind::PermissionDenied,
                    "adapter.failure.permission_denied",
                    false,
                ),
            },
        );
    }
    if same_text(receipt.adapter_kind.as_str(), "codex_cli") {
        RunnerChoice::Codex
    } else if same_text(receipt.adapter_kind.as_str(), "agy_cli") {
        RunnerChoice::Agy
    } else {
        RunnerChoice::Ended(ProviderOutcome::unavailable())
    }
}

#[derive(Clone, Copy, Debug, PartialEq, Eq, Structural)]
pub enum Adapter {
    Codex,
    Agy,
}

/// What an adapter reports, or what the daemon notices while it waits.
#[derive(Debug)]
pub enum ProviderEvent {
    /// The daemon wants the run cancelled.
    CancelRequested { session: Option<String> },
    /// The adapter gave up because the run was being cancelled.
    TransportCancelled { session: Option<String> },
    /// The adapter failed.
    PollFailed(String),
    /// Nothing came within the poll interval.
    Quiet,
    /// A new account of the cost so far.
    Cost(CostEvidence),
    /// Other evidence, of no consequence here.
    Evidence,
    /// The provider has written something.
    WriteReceipt,
    /// The run entered a state.
    Lifecycle {
        state: NormalizedRunState,
        session: Option<String>,
        output: Option<String>,
        failure: Option<AdapterFailure>,
    },
    /// The running state was recorded, or not.
    RunningRecorded(bool),
}

/// What is to be done on an event.
#[derive(Debug)]
pub enum ProviderAction {
    /// Wait for the next event.
    Poll,
    /// Record that the run runs, and report whether that worked.
    RecordRunning { session: Option<String> },
    /// Close the connection; where that is confirmed, the run has ended so.
    CloseThenFinish(ProviderOutcome),
    /// The run has ended.
    Finish(ProviderOutcome),
    /// The run failed for a reason of the daemon's or the adapter's own.
    Fail(String),
}

/// The supervision of one run.
#[derive(Debug)]
pub struct RunSupervisor {
    pub adapter: Adapter,
    pub cost: CostEvidence,
    pub saw_running: bool,
}

/// What the supervision of a run does on an event, and what it remembers.
pub open spec fn supervised(
    pre: RunSupervisor,
    post: RunSupervisor,
    event: ProviderEvent,
    action: ProviderAction,
) -> bool {
    match event {
        ProviderEvent::CancelRequested { session } => post == pre && action is CloseThenFinish
            && cancelled_outcome(action->CloseThenFinish_0, session, pre.cost),
        ProviderEvent::TransportCancelled { session } => post == pre && action is Finish
            && cancelled_outcome(action->Finish_0, session, pre.cost),
        ProviderEvent::PollFailed(text) => post == pre && action == ProviderAction::Fail(text),
        ProviderEvent::Quiet => post == pre && action is Poll,
        ProviderEvent::Evidence => post == pre && action is Poll,
        ProviderEvent::Cost(cost) => post == (RunSupervisor { cost, ..pre }) && action is Poll,
        ProviderEvent::WriteReceipt => post == pre && match pre.adapter {
            Adapter::Codex => action is Poll,
            Adapter::Agy => action is Fail && action->Fail_0@
                == "read-only Agy run reported a write"@,
        },
        ProviderEvent::Lifecycle { state, session, output, failure } => post == pre
            && if run_ended(state) {
            match pre.adapter {
                Adapter::Codex => action is CloseThenFinish && reported_outcome(
                    action->CloseThenFinish_0,
                    state,
                    session,
                    pre.cost,
                    output,
                    failure,
                ),
                Adapter::Agy => action is Finish && reported_outcome(
                    action->Finish_0,
                    state,
                    session,
                    pre.cost,
                    output,
                    failure,
                ),
            }
        } else if state == NormalizedRunState::Running && !pre.saw_running {
            action == (ProviderAction::RecordRunning { session })
        } else {
            action is Poll
        },
        ProviderEvent::RunningRecorded(recorded) => if recorded {
            post == (RunSupervisor { saw_running: true, ..pre }) && action is Poll
        } else {
            post == pre && action is Fail && action->Fail_0@
                == "provider running state could not be persisted"@
        },
    }
}

impl CostEvidence {
    pub fn copy(&self) -> (r: Self)
        ensures
            r == *self,
    {
        CostEvidence {
            evidence_class: self.evidence_class,
            currency: copy_optional_text(&self.currency),
            amount_bits: self.amount_bits,
            input_tokens: self.input_tokens,
            output_tokens: self.output_tokens,
            confidence_bits: self.confidence_bits,
        }
    }
}

impl RunSupervisor {
    pub fn new(adapter: Adapter) -> (r: Self)
        ensures
            r.adapter == adapter,
            is_unknown_cost(r.cost),
            !r.saw_running,
    {
        RunSupervisor { adapter, cost: unknown_cost(), saw_running: false }
    }

    /// Decides what is to be done on an event.
    pub fn step(&mut self, event: ProviderEvent) -> (r: ProviderAction)
        ensures
            supervised(*old(self), *final(self), event, r),
    {
        match event {
            ProviderEvent::CancelRequested { session } => ProviderAction::CloseThenFinish(
                ProviderOutcome::cancelled_with_evidence(session, self.cost.copy()),
            ),
            ProviderEvent::TransportCancelled { session } => ProviderAction::Finish(
                ProviderOutcome::cancelled_with_evidence(session, self.cost.copy()),
            ),
            ProviderEvent::PollFailed(text) => ProviderAction::Fail(text),
            ProviderEvent::Quiet => ProviderAction::Poll,
            ProviderEvent::Evidence => ProviderAction::Poll,
            ProviderEvent::Cost(cost) => {
                self.cost = cost;
                ProviderAction::Poll
            },
            ProviderEvent::WriteReceipt => match self.adapter {
                Adapter::Codex => ProviderAction::Poll,
                Adapter::Agy => ProviderAction::Fail(
                    "read-only Agy run reported a write".to_owned(),
                ),
            },
            ProviderEvent::Lifecycle { state, session, output, failure } => {
                if has_run_ended(state) {
                    let ended = outcome(state, session, self.cost.copy(), output, failure);
                    return match self.adapter {
                        Adapter::Codex => ProviderAction::CloseThenFinish(ended),
                        Adapter::Agy => ProviderAction::Finish(ended),
                    };
                }
                if state == NormalizedRunState::Running && !self.saw_running {
                    return ProviderAction::RecordRunning { session };
                }
                ProviderAction::Poll
            },
            ProviderEvent::RunningRecorded(recorded) => {
                if !recorded {
                    return ProviderAction::Fail(
                        "provider running state could not be persisted".to_owned(),
                    );
                }
                self.saw_running = true;
                ProviderAction::Poll
            },
        }
    }
}

/// The end of a run once its connection was to be closed: what the provider left
/// counts only if the closing is confirmed, under the session that the adapter
/// names then. Where it is not confirmed, the text of the adapter's error is kept
/// for an Agy run alone.
pub fn after_close(adapter: Adapter, ended: ProviderOutcome, closed: Result<Option<String>, String>) -> (r:
    Result<ProviderOutcome, String>)
    ensures
        match closed {
            Ok(session) => r == Ok::<_, String>(
                (ProviderOutcome { provider_session_id: session, ..ended }),
            ),
            Err(text) => r is Err && r->Err_0@ == match adapter {
                Adapter::Codex => "provider cleanup could not be confirmed"@,
                Adapter::Agy => text@,
            },
        },
{
    match closed {
        Ok(session) => {
            let mut ended = ended;
            ended.provider_session_id = session;
            Ok(ended)
        },
        Err(text) => match adapter {
            Adapter::Codex => Err("provider cleanup could not be confirmed".to_owned()),
            Adapter::Agy => Err(text),
        },
    }
}

/// How long an adapter may take, in milliseconds.
pub const PROVIDER_TIMEOUT_MS: u64 = 120_000;

/// What a provider is asked to do.
#[derive(Clone, Debug, PartialEq, Eq)]
pub struct ProviderRequest {
    pub run_id: RunId,
    pub model: String,
    pub prompt: String,
    /// Where the provider works.
    pub directory: String,
    pub effort: Option<String>,
    /// Whether the provider may only read there.
    pub read_only: bool,
    /// Whether the provider may stop to ask for approval.
    pub asks_approval: bool,
    pub timeout_ms: u64,
    /// The conversation that is taken up again, if one is.
    pub conversation_id: Option<String>,
}

/// What a provider is asked to do under a receipt: the receipt's task in the
/// receipt's workspace, without writing, without a question, and in a new
/// conversation.
pub open spec fn requests(r: ProviderRequest, adapter: Adapter, receipt: BeginGraphNodeRunReceipt) -> bool {
    &&& r.run_id == receipt.run_id
    &&& r.model@ == receipt.model@
    &&& r.prompt@ == receipt.prompt@
    &&& r.directory@ == receipt.workspace_root@
    &&& text_of(r.effort) == match adapter {
        Adapter::Codex => Some("medium"@),
        Adapter::Agy => None,
    }
    &&& r.read_only
    &&& !r.asks_approval
    &&& r.timeout_ms == PROVIDER_TIMEOUT_MS
    &&& r.conversation_id is None
}

pub fn provider_request(adapter: Adapter, receipt: &BeginGraphNodeRunReceipt) -> (r: ProviderRequest)
    ensures
        requests(r, adapter, *receipt),
{
    ProviderRequest {
        run_id: receipt.run_id,
        model: receipt.model.clone(),
        prompt: receipt.prompt.clone(),
        directory: receipt.workspace_root.clone(),
        effort: match adapter {
            Adapter::Codex => Some("medium".to_owned()),
            Adapter::Agy => None,
        },
        read_only: true,
        asks_approval: false,
        timeout_ms: PROVIDER_TIMEOUT_MS,
        conversation_id: None,
    }
}

/// The end that is recorded for a supervised run: what the supervision came to,
/// or, where it failed, that nothing is known.
pub fn settle(run: Result<ProviderOutcome, String>) -> (r: ProviderOutcome)
    ensures
        match run {
            Ok(ended) => r == ended,
            Err(_) => is_unavailable(r),
        },
{
    match run {
        Ok(ended) => ended,
        Err(_) => ProviderOutcome::unavailable(),
    }
}

/// The end of a run as it is recorded: output counts only with success or
/// failure.
pub fn recordable(ended: ProviderOutcome) -> (r: ProviderOutcome)
    ensures
        r == (ProviderOutcome {
            output_markdown: if ended.terminal_state == NormalizedRunState::Succeeded
                || ended.terminal_state == NormalizedRunState::Failed {
                ended.output_markdown
            } else {
                None
            },
            ..ended
        }),
{
    let mut ended = ended;
    if ended.terminal_state != NormalizedRunState::Succeeded && ended.terminal_state
        != NormalizedRunState::Failed {
        ended.output_markdown = None;
    }
    ended
}

/// The command that records the end of a run under the revisions just read.
pub open spec fn records_end(
    c: FinishGraphNodeRunCommand,
    receipt: BeginGraphNodeRunReceipt,
    ended: ProviderOutcome,
    catalog_revision: u64,
    graph_revision: u64,
    m3_revision: u64,
) -> bool {
    &&& c.expected_catalog_revision == catalog_revision
    &&& c.expected_graph_revision == graph_revision
    &&& c.expected_m3_revision == m3_revision
    &&& c.node_id == receipt.node_id
    &&& c.run_id == receipt.run_id
    &&& c.owner@ == spec_owner(receipt.node_id)
    &&& c.terminal_state == ended.terminal_state
    &&& c.failure == ended.failure
    &&& c.provider_session_id == ended.provider_session_id
    &&& c.output_markdown == ended.output_markdown
    &&& c.cost == ended.cost
}

pub fn finish_command(
    receipt: &BeginGraphNodeRunReceipt,
    ended: &ProviderOutcome,
    catalog_revision: u64,
    graph_revision: u64,
    m3_revision: u64,
) -> (r: FinishGraphNodeRunCommand)
    ensures
        records_end(r, *receipt, *ended, catalog_revision, graph_revision, m3_revision),
{
    FinishGraphNodeRunCommand {
        expected_catalog_revision: catalog_revision,
        expected_graph_revision: graph_revision,
        expected_m3_revision: m3_revision,
        node_id: receipt.node_id,
        run_id: receipt.run_id,
        owner: owner(receipt.node_id),
        terminal_state: ended.terminal_state,
        failure: match &ended.failure {
            Some(failure) => Some(failure.copy()),
            None => None,
        },
        provider_session_id: copy_optional_text(&ended.provider_session_id),
        output_markdown: copy_optional_text(&ended.output_markdown),
        cost: ended.cost.copy(),
    }
}

/// What is done after an attempt to record the end of a run.
#[derive(Clone, Copy, Debug, PartialEq, Eq, Structural)]
pub enum PersistStep {
    /// Read the state again at once.
    Again,
    /// Read the state again after a pause.
    Pause,
    /// There is nothing more to record.
    Done,
    /// The end cannot be recorded.
    GiveUp,
}

/// What is done after a read of the state failed.
pub open spec fn spec_after_read(refusal: Refusal) -> PersistStep {
    match refusal {
        Refusal::Database | Refusal::Poisoned => PersistStep::Pause,
        _ => PersistStep::GiveUp,
    }
}

pub fn after_read(error: &StoreError) -> (r: PersistStep)
    ensures
        r == spec_after_read(error@),
{
    match error {
        StoreError::Database(_) | StoreError::Poisoned => PersistStep::Pause,
        _ => PersistStep::GiveUp,
    }
}

/// What is done after the record of an end was refused. A different attempt or
/// another end means that this run has lost its authority; the provider is never
/// called again to overcome that.
pub open spec fn spec_after_finish(refusal: Refusal) -> PersistStep {
    match refusal {
        Refusal::RevisionConflict { .. } => PersistStep::Again,
        Refusal::Database | Refusal::Poisoned => PersistStep::Pause,
        Refusal::InvalidRunState(_) | Refusal::RunNotFound => PersistStep::Done,
        _ => PersistStep::GiveUp,
    }
}

pub fn after_finish(error: &StoreError) -> (r: PersistStep)
    ensures
        r == spec_after_finish(error@),
{
    match error {
        StoreError::RevisionConflict { .. } => PersistStep::Again,
        StoreError::Database(_) | StoreError::Poisoned => PersistStep::Pause,
        StoreError::InvalidRunState(_) | StoreError::RunNotFound => PersistStep::Done,
        _ => PersistStep::GiveUp,
    }
}

/// The longest pause between two attempts, in milliseconds.
pub const MAX_BACKOFF_MS: u64 = 1000;

/// The pause after this one: twice as long, up to the longest.
pub fn next_backoff(backoff_ms: u64) -> (r: u64)
    ensures
        r == (if 2 * backoff_ms <= MAX_BACKOFF_MS {
            2 * backoff_ms
        } else {
            MAX_BACKOFF_MS as int
        }),
{
    if backoff_ms <= MAX_BACKOFF_MS / 2 {
        2 * backoff_ms
    } else {
        MAX_BACKOFF_MS
    }
}

/// What is done after the last checkpoint before a stop was tried.
#[derive(Clone, Copy, Debug, PartialEq, Eq, Structural)]
pub enum SignalStep {
    /// The checkpoint is made: stop.
    Stop,
    /// Try again after a pause.
    Wait,
    /// Say once that the daemon goes on, and try again after a pause.
    Complain,
}

/// What is done after the last checkpoint was tried and refused, or could not
/// even be tried.
pub open spec fn spec_signal_step(refusal: Option<Refusal>) -> SignalStep {
    match refusal {
        None => SignalStep::Stop,
        Some(Refusal::ProviderRunsActive) | Some(Refusal::RevisionConflict { .. }) => {
            SignalStep::Wait
        },
        Some(_) => SignalStep::Complain,
    }
}

pub fn checkpoint_for_signal(error: Option<&StoreError>) -> (r: SignalStep)
    ensures
        r == spec_signal_step(
            match error {
                Some(error) => Some(error@),
                None => None,
            },
        ),
{
    match error {
        None => SignalStep::Stop,
        Some(error) => match error {
            StoreError::ProviderRunsActive | StoreError::RevisionConflict { .. } => {
                SignalStep::Wait
            },
            _ => SignalStep::Complain,
        },
    }
}

/// Whether a request to cancel is about the run that its path names.
pub fn check_cancel_path(path_id: RunId, command_id: RunId) -> (r: Result<(), StoreError>)
    ensures
        match r {
            Ok(_) => path_id == command_id,
            Err(error) => path_id != command_id && error@ == Refusal::RunNotFound,
        },
{
    if path_id != command_id {
        return Err(StoreError::RunNotFound);
    }
    Ok(())
}

/// Whether a decision is about the request that its path names.
pub fn check_decision_path(path_id: ApprovalRequestId, command_id: ApprovalRequestId) -> (r: Result<
    (),
    StoreError,
>)
    ensures
        match r {
            Ok(_) => path_id == command_id,
            Err(error) => path_id != command_id && error@ == Refusal::InvalidApproval(
                ApprovalError::HashMismatch,
            ),
        },
{
    if path_id != command_id {
        return Err(StoreError::InvalidApproval(ApprovalError::HashMismatch));
    }
    Ok(())
}

/// The first of some candidates that is a file, unless one was configured, which
/// then has to be a file.
pub open spec fn chosen_executable(configured: Option<(String, bool)>, candidates: Seq<(String, bool)>, from: int) -> Option<
    String,
>
    decreases candidates.len() - from,
{
    match configured {
        Some((path, is_file)) => if is_file {
            Some(path)
        } else {
            None
        },
        None => if from < 0 || from >= candidates.len() {
            None
        } else if candidates[from].1 {
            Some(candidates[from].0)
        } else {
            chosen_executable(configured, candidates, from + 1)
        },
    }
}

pub fn configured_executable(configured: Option<(String, bool)>, candidates: Vec<(String, bool)>) -> (r:
    Option<String>)
    ensures
        r == chosen_executable(configured, candidates@, 0),
{
    if let Some((path, is_file)) = configured {
        return if is_file {
            Some(path)
        } else {
            None
        };
    }
    let mut i: usize = 0;
    while i < candidates.len()
        invariant
            i <= candidates@.len(),
            configured is None,
            chosen_executable(configured, candidates@, 0) == chosen_executable(
                configured,
                candidates@,
                i as int,
            ),
        decreases candidates@.len() - i,
    {
        if candidates[i].1 {
            return Some(candidates[i].0.clone());
        }
        i += 1;
    }
    None
}

/// What the bindings of the ready nodes, from the `from`-th on, come to: all of
/// them, or the first refusal.
pub open spec fn ready_bindings(s: StoreView, g: int, ready: Seq<GraphNodeId>, n: nat) -> Result<
    Seq<RunBindingView>,
    Refusal,
>
    decreases n,
{
    if n == 0 {
        Ok(Seq::empty())
    } else {
        match ready_bindings(s, g, ready, (n - 1) as nat) {
            Err(refusal) => Err(refusal),
            Ok(before) => match resolve(
                s.identity,
                s.m3,
                s.graphs[g].graph.execution,
                ready[n - 1],
            ) {
                Err(refusal) => Err(refusal),
                Ok(binding) => Ok(before.push(binding)),
            },
        }
    }
}

/// What the domain rules find before ready nodes are started: in the catalogs,
/// and which nodes are ready.
#[derive(Debug)]
pub struct ReadyFindings {
    pub catalog_fault: Option<CatalogError>,
    pub ready: Result<Vec<GraphNodeId>, GraphError>,
    pub m3_fault: Option<String>,
}

/// The bindings under which ready nodes are to be started; or why none is.
pub open spec fn execute_ready(
    s: StoreView,
    id: GraphRunId,
    c: ExecuteReadyGraphCommand,
    executor_present: bool,
    f: ReadyFindings,
) -> Result<Seq<RunBindingView>, Refusal> {
    let lifecycle = spec_parse_lifecycle(s.lifecycle);
    if lifecycle != DaemonLifecycle::Ready {
        Err(
            Refusal::InvalidLifecycle {
                expected: "ready"@,
                actual: spec_lifecycle_name(lifecycle),
            },
        )
    } else if !executor_present {
        Err(Refusal::RunControlRejected)
    } else if f.catalog_fault is Some {
        Err(Refusal::InvalidCatalog(f.catalog_fault->0))
    } else if s.identity_revision != c.expected_catalog_revision {
        Err(
            Refusal::RevisionConflict {
                expected: c.expected_catalog_revision,
                actual: s.identity_revision,
            },
        )
    } else {
        match find(s.graphs, id) {
            None => Err(Refusal::GraphNotFound),
            Some(g) => {
                let execution = s.graphs[g].graph.execution;
                if graph_refusal(s.graphs[g], s.outputs) is Some {
                    Err(graph_refusal(s.graphs[g], s.outputs)->0)
                } else if execution.revision != c.expected_graph_revision {
                    Err(
                        Refusal::RevisionConflict {
                            expected: c.expected_graph_revision,
                            actual: execution.revision,
                        },
                    )
                } else if f.ready is Err {
                    Err(Refusal::InvalidGraph(f.ready->Err_0))
                } else if f.ready->Ok_0@.len() == 0 {
                    Err(Refusal::InvalidGraph(GraphError::InvalidExecution))
                } else if f.m3_fault is Some {
                    Err(Refusal::InvalidM3(f.m3_fault->0@))
                } else {
                    ready_bindings(s, g, f.ready->Ok_0@, f.ready->Ok_0@.len())
                }
            },
        }
    }
}

pub open spec fn binding_views(bindings: Seq<ProviderRunBinding>) -> Seq<RunBindingView> {
    Seq::new(bindings.len(), |i: int| bindings[i]@)
}

impl Store {
    /// Works out under which bindings the ready nodes of an execution are to be
    /// started.
    pub fn plan_execute_ready(
        &self,
        id: GraphRunId,
        command: &ExecuteReadyGraphCommand,
        executor_present: bool,
        f: &ReadyFindings,
    ) -> (r: Result<Vec<ProviderRunBinding>, StoreError>)
        ensures
            match r {
                Ok(bindings) => execute_ready(self@, id, *command, executor_present, *f) == Ok::<
                    _,
                    Refusal,
                >(binding_views(bindings@)),
                Err(error) => execute_ready(self@, id, *command, executor_present, *f) == Err::<
                    Seq<RunBindingView>,
                    _,
                >(error@),
            },
    {
        let lifecycle = parse_lifecycle(self.lifecycle.as_str());
        if lifecycle != DaemonLifecycle::Ready {
            return Err(
                StoreError::InvalidLifecycle {
                    expected: "ready",
                    actual: lifecycle_name(&lifecycle).to_owned(),
                },
            );
        }
        if !executor_present {
            return Err(StoreError::RunControlRejected);
        }
        if let Some(fault) = &f.catalog_fault {
            return Err(StoreError::InvalidCatalog(fault.copy()));
        }
        if self.identity_revision != command.expected_catalog_revision {
            return Err(
                StoreError::RevisionConflict {
                    expected: command.expected_catalog_revision,
                    actual: self.identity_revision,
                },
            );
        }
        let g = match position(&self.graphs, id) {
            None => {
                return Err(StoreError::GraphNotFound);
            },
            Some(g) => g,
        };
        match check_graph(&self.graphs[g], &self.outputs) {
            Ok(_) => {},
            Err(error) => {
                return Err(error);
            },
        }
        let execution = &self.graphs[g].graph.execution;
        if execution.revision != command.expected_graph_revision {
            return Err(
                StoreError::RevisionConflict {
                    expected: command.expected_graph_revision,
                    actual: execution.revision,
                },
            );
        }
        let ready = match &f.ready {
            Ok(ready) => ready,
            Err(error) => {
                return Err(StoreError::InvalidGraph(error.copy()));
            },
        };
        if ready.len() == 0 {
            return Err(StoreError::InvalidGraph(GraphError::InvalidExecution));
        }
        if let Some(fault) = &f.m3_fault {
            return Err(StoreError::InvalidM3(fault.clone()));
        }
        self.resolve_ready(g, ready)
    }

    fn resolve_ready(&self, g: usize, ready: &Vec<GraphNodeId>) -> (r: Result<
        Vec<ProviderRunBinding>,
        StoreError,
    >)
        requires
            g < self.graphs.len(),
        ensures
            match r {
                Ok(bindings) => ready_bindings(self@, g as int, ready@, ready@.len()) == Ok::<
                    _,
                    Refusal,
                >(binding_views(bindings@)),
                Err(error) => ready_bindings(self@, g as int, ready@, ready@.len()) == Err::<
                    Seq<RunBindingView>,
                    _,
                >(error@),
            },
    {
        let execution = &self.graphs[g].graph.execution;
        let mut bindings: Vec<ProviderRunBinding> = Vec::new();
        let mut i: usize = 0;
        assert(binding_views(bindings@) =~= Seq::empty());
        while i < ready.len()
            invariant
                i <= ready@.len(),
                g < self.graphs.len(),
                *execution == self.graphs@[g as int].graph.execution,
                ready_bindings(self@, g as int, ready@, i as nat) == Ok::<_, Refusal>(
                    binding_views(bindings@),
                ),
            decreases ready@.len() - i,
        {
            match resolve_provider_run_binding(&self.identity, &self.m3, execution, ready[i]) {
                Ok(binding) => {
                    let ghost before = binding_views(bindings@);
                    bindings.push(binding);
                    assert(binding_views(bindings@) =~= before.push(binding@));
                },
                Err(error) => {
                    proof {
                        lemma_ready_refusal(
                            self@,
                            g as int,
                            ready@,
                            i as nat + 1,
                            ready@.len(),
                        );
                    }
                    return Err(error);
                },
            }
            i += 1;
        }
        Ok(bindings)
    }
}

proof fn lemma_ready_refusal(s: StoreView, g: int, ready: Seq<GraphNodeId>, n: nat, m: nat)
    requires
        n <= m,
        ready_bindings(s, g, ready, n) is Err,
    ensures
        ready_bindings(s, g, ready, m) == ready_bindings(s, g, ready, n),
    decreases m - n,
{
    if n < m {
        lemma_ready_refusal(s, g, ready, n, (m - 1) as nat);
    }
}

/// The revisions under which the next ready node is started: those that the
/// caller has seen, and then those that the start before left.
pub fn next_start_revisions(
    command: &ExecuteReadyGraphCommand,
    previous: Option<&BeginGraphNodeRunReceipt>,
) -> (r: (u64, u64))
    ensures
        r == (match previous {
            None => (command.expected_catalog_revision, command.expected_graph_revision),
            Some(receipt) => (receipt.catalog_revision, receipt.graph_revision),
        }),
{
    match previous {
        None => (command.expected_catalog_revision, command.expected_graph_revision),
        Some(receipt) => (receipt.catalog_revision, receipt.graph_revision),
    }
}

/// The command that starts a ready node under some revisions, on behalf of the
/// daemon.
pub fn start_command(node_id: GraphNodeId, revisions: (u64, u64)) -> (r: BeginGraphNodeRunCommand)
    ensures
        r.expected_catalog_revision == revisions.0,
        r.expected_graph_revision == revisions.1,
        r.node_id == node_id,
        r.owner@ == spec_owner(node_id),
{
    BeginGraphNodeRunCommand {
        expected_catalog_revision: revisions.0,
        expected_graph_revision: revisions.1,
        node_id,
        owner: owner(node_id),
    }
}

/// What a failed start comes to: what has been started before it goes on, and
/// only where nothing has is the failure reported.
pub fn after_failed_start(started: usize, error: StoreError) -> (r: Result<(), StoreError>)
    ensures
        r == if started > 0 {
            Ok::<(), StoreError>(())
        } else {
            Err::<(), StoreError>(error)
        },
{
    if started > 0 {
        Ok(())
    } else {
        Err(error)
    }
}

/// The receipt for the start of ready nodes: at least one run was started.
pub fn execute_ready_receipt(execution_id: GraphRunId, run_ids: Vec<RunId>) -> (r: Result<
    ExecuteReadyGraphReceipt,
    StoreError,
>)
    ensures
        if run_ids@.len() == 0 {
            r is Err && r->Err_0@ == Refusal::RunControlRejected
        } else {
            r == Ok::<_, StoreError>(
                (ExecuteReadyGraphReceipt {
                    protocol_version: PROTOCOL_VERSION,
                    execution_id,
                    run_ids,
                }),
            )
        },
{
    if run_ids.len() == 0 {
        return Err(StoreError::RunControlRejected);
    }
    Ok(ExecuteReadyGraphReceipt { protocol_version: PROTOCOL_VERSION, execution_id, run_ids })
}

} // verus!

//! The supervision of a run: what it does on each report, and what it settles on.
use crate::error::{Refusal, StoreError};
use crate::executor::{
    acknowledges, after_close, after_failed_start, after_finish, after_read, before_run,
    check_cancel_path, check_decision_path, checkpoint_for_signal, choose_runner,
    configured_executable, execute_ready_receipt, finish_command, is_terminal, next_backoff,
    next_start_revisions, outcome, owner, provider_request, recordable, settle, start_command,
    Adapter, PersistStep, ProviderAction, ProviderEvent, ProviderOutcome, ProviderRequest,
    RunSupervisor, RunnerChoice, SignalStep,
};
use crate::graph::{AdapterFailure, AdapterFailureKind};
use crate::identity::NormalizedRunState;
use crate::m3::{CostEvidence, EvidenceClass};
use crate::protocol::{
    BeginGraphNodeRunCommand, BeginGraphNodeRunReceipt, ExecuteReadyGraphCommand,
    ExecuteReadyGraphReceipt, FinishGraphNodeRunCommand,
};
use crate::text::blank;
use crate::uid::Uid;
use vstd::prelude::*;

verus! {

/// A cost of which nothing is known.
pub open spec fn nothing_known(cost: CostEvidence) -> bool {
    &&& cost.evidence_class == EvidenceClass::Unknown
    &&& cost.currency is None
    &&& cost.amount_bits is None
    &&& cost.input_tokens is None
    &&& cost.output_tokens is None
    &&& cost.confidence_bits == 0
}

/// An end that the daemon itself reports a failure with, without any word of the
/// provider's.
pub open spec fn reported(failure: Option<AdapterFailure>, kind: AdapterFailureKind, key: Seq<char>) -> bool {
    &&& failure is Some
    &&& failure->0.kind == kind
    &&& failure->0.message_key@ == key
    &&& failure->0.provider_code is None
    &&& failure->0.redacted_detail is None
}

/// The end that an action comes to, if it ends the run.
pub open spec fn end_of(action: ProviderAction) -> Option<ProviderOutcome> {
    match action {
        ProviderAction::CloseThenFinish(ended) => Some(ended),
        ProviderAction::Finish(ended) => Some(ended),
        _ => None,
    }
}

/// After a request to cancel the supervision waits for nothing more: it closes
/// the connection, and then the run has ended as cancelled, in the session that
/// was named and at the cost so far.
pub proof fn law_cancellation_ends_the_run(
    run: &mut RunSupervisor,
    session: Option<String>,
    r: ProviderAction,
)
    requires
        call_ensures(RunSupervisor::step, (run, ProviderEvent::CancelRequested { session }), r),
    ensures
        r is CloseThenFinish,
        end_of(r) is Some,
        end_of(r)->0.terminal_state == NormalizedRunState::Cancelled,
        end_of(r)->0.provider_session_id == session,
        end_of(r)->0.cost == old(run).cost,
        end_of(r)->0.output_markdown is None,
        reported(
            end_of(r)->0.failure,
            AdapterFailureKind::Cancelled,
            "adapter.failure.cancelled"@,
        ),
        !end_of(r)->0.failure->0.retryable,
        *final(run) == *old(run),
{
}

/// A transport that gives up because of the cancellation ends the run as
/// cancelled too; nothing is left to close.
pub proof fn law_cancelled_transport_ends_the_run(
    run: &mut RunSupervisor,
    session: Option<String>,
    r: ProviderAction,
)
    requires
        call_ensures(RunSupervisor::step, (run, ProviderEvent::TransportCancelled { session }), r),
    ensures
        r is Finish,
        end_of(r)->0.terminal_state == NormalizedRunState::Cancelled,
        end_of(r)->0.provider_session_id == session,
        end_of(r)->0.cost == old(run).cost,
        end_of(r)->0.output_markdown is None,
        reported(
            end_of(r)->0.failure,
            AdapterFailureKind::Cancelled,
            "adapter.failure.cancelled"@,
        ),
        *final(run) == *old(run),
{
}

/// A failing adapter ends the supervision with its own text; a quiet one and
/// evidence of no consequence change nothing and are waited on.
pub proof fn law_failing_adapter_is_reported_and_a_quiet_one_waited_on(
    run: &mut RunSupervisor,
    event: ProviderEvent,
    r: ProviderAction,
)
    requires
        call_ensures(RunSupervisor::step, (run, event), r),
    ensures
        event is PollFailed ==> r is Fail && r->Fail_0@ == event->PollFailed_0@,
        event is Quiet || event is Evidence ==> r is Poll && *final(run) == *old(run),
        final(run).adapter == old(run).adapter,
        r is CloseThenFinish || r is Finish ==> *final(run) == *old(run),
{
}

/// The cost so far is the last one reported, until the next; and a run that ends
/// after it ends at that cost.
pub proof fn law_last_reported_cost_counts(
    run: &mut RunSupervisor,
    cost: CostEvidence,
    r: ProviderAction,
    later: &mut RunSupervisor,
    state: NormalizedRunState,
    session: Option<String>,
    output: Option<String>,
    failure: Option<AdapterFailure>,
    s: ProviderAction,
)
    requires
        call_ensures(RunSupervisor::step, (run, ProviderEvent::Cost(cost)), r),
        *old(later) == *final(run),
        call_ensures(
            RunSupervisor::step,
            (later, ProviderEvent::Lifecycle { state, session, output, failure }),
            s,
        ),
    ensures
        r is Poll,
        final(run).cost == cost,
        final(run).saw_running == old(run).saw_running,
        end_of(s) is Some ==> end_of(s)->0.cost == cost,
        final(later).cost == cost,
{
}

/// The states in which a run has ended.
pub open spec fn over(state: NormalizedRunState) -> bool {
    match state {
        NormalizedRunState::Succeeded
        | NormalizedRunState::Failed
        | NormalizedRunState::Cancelled
        | NormalizedRunState::Blocked
        | NormalizedRunState::Uncertain => true,
        NormalizedRunState::Starting
        | NormalizedRunState::Running
        | NormalizedRunState::AwaitingApproval
        | NormalizedRunState::Cancelling
        | NormalizedRunState::Recovering => false,
    }
}

/// A report that the run is over ends it exactly as reported, in its session, at
/// the cost so far and with its output; for Codex only once the connection is
/// closed. The one exception is a success without an output, which is a failure
/// that may be tried again. A report that it is not over ends nothing.
pub proof fn law_reported_end_is_taken_over(
    run: &mut RunSupervisor,
    state: NormalizedRunState,
    session: Option<String>,
    output: Option<String>,
    failure: Option<AdapterFailure>,
    r: ProviderAction,
)
    requires
        call_ensures(
            RunSupervisor::step,
            (run, ProviderEvent::Lifecycle { state, session, output, failure }),
            r,
        ),
    ensures
        over(state) <==> end_of(r) is Some,
        over(state) && old(run).adapter == Adapter::Codex ==> r is CloseThenFinish,
        over(state) && old(run).adapter == Adapter::Agy ==> r is Finish,
        over(state) ==> {
            &&& end_of(r)->0.provider_session_id == session
            &&& end_of(r)->0.cost == old(run).cost
            &&& end_of(r)->0.output_markdown == output
        },
        over(state) && (state != NormalizedRunState::Succeeded || (output is Some && !blank(
            output->0@,
        ))) ==> end_of(r)->0.terminal_state == state && end_of(r)->0.failure == failure,
        state == NormalizedRunState::Succeeded && (output is None || blank(output->0@)) ==> {
            &&& end_of(r)->0.terminal_state == NormalizedRunState::Failed
            &&& reported(
                end_of(r)->0.failure,
                AdapterFailureKind::MalformedOutput,
                "mvp.failure.invalid_output"@,
            )
            &&& end_of(r)->0.failure->0.retryable
        },
        !over(state) ==> r is Poll || r is RecordRunning,
        r is RecordRunning <==> state == NormalizedRunState::Running && !old(run).saw_running,
        r is RecordRunning ==> r->session == session,
        *final(run) == *old(run),
{
}

/// That a run runs is recorded once: when it is first reported, and not again
/// after it has been recorded. What cannot be recorded ends the supervision.
pub proof fn law_running_is_recorded_once(
    run: &mut RunSupervisor,
    recorded: bool,
    r: ProviderAction,
    later: &mut RunSupervisor,
    session: Option<String>,
    s: ProviderAction,
)
    requires
        call_ensures(RunSupervisor::step, (run, ProviderEvent::RunningRecorded(recorded)), r),
        *old(later) == *final(run),
        call_ensures(
            RunSupervisor::step,
            (
                later,
                ProviderEvent::Lifecycle {
                    state: NormalizedRunState::Running,
                    session,
                    output: None,
                    failure: None,
                },
            ),
            s,
        ),
    ensures
        recorded ==> r is Poll && s is Poll && final(run).saw_running && final(run).cost == old(
            run,
        ).cost,
        !recorded ==> r is Fail && r->Fail_0@ == "provider running state could not be persisted"@
            && *final(run) == *old(run),
{
}

/// An Agy run that reports a write has failed, since it may only read; Codex
/// enforces that itself.
pub proof fn law_writing_run_has_failed(run: &mut RunSupervisor, r: ProviderAction)
    requires
        call_ensures(RunSupervisor::step, (run, ProviderEvent::WriteReceipt), r),
    ensures
        old(run).adapter == Adapter::Agy ==> r is Fail && r->Fail_0@
            == "read-only Agy run reported a write"@,
        old(run).adapter == Adapter::Codex ==> r is Poll,
        *final(run) == *old(run),
{
}

/// A new supervision knows of no cost and has seen nothing run.
pub proof fn law_supervision_starts_knowing_nothing(adapter: Adapter, r: RunSupervisor)
    requires
        call_ensures(RunSupervisor::new, (adapter,), r),
    ensures
        r.adapter == adapter,
        !r.saw_running,
        nothing_known(r.cost),
{
}

/// What the provider left counts only once its connection is known to be closed.
pub proof fn law_end_counts_only_once_closed(
    adapter: Adapter,
    ended: ProviderOutcome,
    closed: Result<Option<String>, String>,
    r: Result<ProviderOutcome, String>,
)
    requires
        call_ensures(after_close, (adapter, ended, closed), r),
    ensures
        r is Ok <==> closed is Ok,
        r is Ok ==> {
            &&& r->Ok_0.provider_session_id == closed->Ok_0
            &&& r->Ok_0.terminal_state == ended.terminal_state
            &&& r->Ok_0.cost == ended.cost
            &&& r->Ok_0.output_markdown == ended.output_markdown
            &&& r->Ok_0.failure == ended.failure
        },
        r is Err && adapter == Adapter::Codex ==> r->Err_0@
            == "provider cleanup could not be confirmed"@,
        r is Err && adapter == Adapter::Agy ==> r->Err_0@ == closed->Err_0@,
{
}

/// Of a supervision that failed nothing is known: its end is uncertain, and no
/// output and no cost are made up for it.
pub proof fn law_failed_supervision_is_uncertain(run: Result<ProviderOutcome, String>, r: ProviderOutcome)
    requires
        call_ensures(settle, (run,), r),
    ensures
        run is Ok ==> r == run->Ok_0,
        run is Err ==> {
            &&& r.terminal_state == NormalizedRunState::Uncertain
            &&& r.provider_session_id is None
            &&& r.output_markdown is None
            &&& nothing_known(r.cost)
            &&& reported(r.failure, AdapterFailureKind::Unknown, "mvp.failure.unknown"@)
            &&& !r.failure->0.retryable
        },
{
}

/// The outcomes that the daemon makes itself say what they are called.
pub proof fn law_own_outcomes(
    cancelled: ProviderOutcome,
    session: Option<String>,
    cost: CostEvidence,
    evidenced: ProviderOutcome,
    unavailable: ProviderOutcome,
)
    requires
        call_ensures(ProviderOutcome::cancelled, (), cancelled),
        call_ensures(ProviderOutcome::cancelled_with_evidence, (session, cost), evidenced),
        call_ensures(ProviderOutcome::unavailable, (), unavailable),
    ensures
        cancelled.terminal_state == NormalizedRunState::Cancelled,
        cancelled.provider_session_id is None,
        cancelled.output_markdown is None,
        nothing_known(cancelled.cost),
        reported(cancelled.failure, AdapterFailureKind::Cancelled, "adapter.failure.cancelled"@),
        evidenced.terminal_state == NormalizedRunState::Cancelled,
        evidenced.provider_session_id == session,
        evidenced.cost == cost,
        evidenced.output_markdown is None,
        reported(evidenced.failure, AdapterFailureKind::Cancelled, "adapter.failure.cancelled"@),
        unavailable.terminal_state == NormalizedRunState::Uncertain,
        unavailable.output_markdown is None,
        nothing_known(unavailable.cost),
        reported(unavailable.failure, AdapterFailureKind::Unknown, "mvp.failure.unknown"@),
{
}

/// An outcome is what was reported, but that a success needs an output.
pub proof fn law_outcome_needs_an_output_to_succeed(
    state: NormalizedRunState,
    session: Option<String>,
    cost: CostEvidence,
    output: Option<String>,
    failure: Option<AdapterFailure>,
    r: ProviderOutcome,
)
    requires
        call_ensures(outcome, (state, session, cost, output, failure), r),
    ensures
        r.provider_session_id == session,
        r.cost == cost,
        r.output_markdown == output,
        r.terminal_state == NormalizedRunState::Succeeded ==> output is Some && !blank(output->0@),
        state != NormalizedRunState::Succeeded ==> r.terminal_state == state && r.failure
            == failure,
        output is Some && !blank(output->0@) ==> r.terminal_state == state && r.failure == failure,
        r.terminal_state != state ==> r.terminal_state == NormalizedRunState::Failed && reported(
            r.failure,
            AdapterFailureKind::MalformedOutput,
            "mvp.failure.invalid_output"@,
        ) && r.failure->0.retryable,
{
}

/// Before its provider is reached a run ends only by cancellation or for want of
/// a passed check; otherwise it goes on.
pub proof fn law_run_goes_on_unless_stopped(before: bool, passed: bool, after: bool, r: Option<ProviderOutcome>)
    requires
        call_ensures(before_run, (before, passed, after), r),
    ensures
        r is None <==> !before && passed,
        before ==> r->0.terminal_state == NormalizedRunState::Cancelled && reported(
            r->0.failure,
            AdapterFailureKind::Cancelled,
            "adapter.failure.cancelled"@,
        ),
        !before && !passed && after ==> r->0.terminal_state == NormalizedRunState::Cancelled,
        !before && !passed && !after ==> r->0.terminal_state == NormalizedRunState::Uncertain
            && reported(r->0.failure, AdapterFailureKind::Unknown, "mvp.failure.unknown"@),
        r is Some ==> r->0.output_markdown is None && nothing_known(r->0.cost),
{
}

/// A cancellation is acknowledged exactly by the cancelled end of the run that
/// it asked for.
pub proof fn law_only_the_cancelled_run_acknowledges(requested: Uid, run_id: Uid, state: NormalizedRunState, r: bool)
    requires
        call_ensures(acknowledges, (requested, run_id, state), r),
    ensures
        r ==> requested == run_id && state == NormalizedRunState::Cancelled,
        requested == run_id && state == NormalizedRunState::Cancelled ==> r,
{
}

/// A run that names an account is never started on an ambient login, and one
/// that the policies do not allow is not started at all; what is left goes to the
/// adapter that it names.
pub proof fn law_runner_is_the_named_adapter(receipt: &BeginGraphNodeRunReceipt, allowed: bool, r: RunnerChoice)
    requires
        call_ensures(choose_runner, (receipt, allowed), r),
    ensures
        r is Codex <==> receipt.launch_identity is Some && receipt.launch_identity->0.account
            is None && allowed && receipt.adapter_kind@ == "codex_cli"@,
        r is Agy <==> receipt.launch_identity is Some && receipt.launch_identity->0.account is None
            && allowed && receipt.adapter_kind@ == "agy_cli"@ && receipt.adapter_kind@
            != "codex_cli"@,
        receipt.launch_identity is None || receipt.launch_identity->0.account is Some ==> {
            &&& r->Ended_0.terminal_state == NormalizedRunState::Blocked
            &&& reported(
                r->Ended_0.failure,
                AdapterFailureKind::Unsupported,
                "adapter.failure.unsupported"@,
            )
        },
        receipt.launch_identity is Some && receipt.launch_identity->0.account is None && !allowed
            ==> {
            &&& r->Ended_0.terminal_state == NormalizedRunState::Blocked
            &&& reported(
                r->Ended_0.failure,
                AdapterFailureKind::PermissionDenied,
                "adapter.failure.permission_denied"@,
            )
        },
        receipt.launch_identity is Some && receipt.launch_identity->0.account is None && allowed
            && r is Ended ==> r->Ended_0.terminal_state == NormalizedRunState::Uncertain,
        r is Ended ==> r->Ended_0.output_markdown is None && nothing_known(r->Ended_0.cost),
{
}

/// A provider is asked for exactly the task of the receipt, in its workspace, to
/// read and not to write, and without a question back.
pub proof fn law_provider_is_asked_for_the_receipts_task(
    adapter: Adapter,
    receipt: &BeginGraphNodeRunReceipt,
    r: ProviderRequest,
)
    requires
        call_ensures(provider_request, (adapter, receipt), r),
    ensures
        r.run_id == receipt.run_id,
        r.model@ == receipt.model@,
        r.prompt@ == receipt.prompt@,
        r.directory@ == receipt.workspace_root@,
        r.read_only,
        !r.asks_approval,
        r.conversation_id is None,
        r.timeout_ms == 120_000,
        adapter == Adapter::Codex ==> r.effort is Some && r.effort->0@ == "medium"@,
        adapter == Adapter::Agy ==> r.effort is None,
{
}

/// What is recorded of an end keeps everything but an output that does not count.
pub proof fn law_only_success_and_failure_leave_an_output(ended: ProviderOutcome, r: ProviderOutcome)
    requires
        call_ensures(recordable, (ended,), r),
    ensures
        r.terminal_state == ended.terminal_state,
        r.provider_session_id == ended.provider_session_id,
        r.cost == ended.cost,
        r.failure == ended.failure,
        ended.terminal_state == NormalizedRunState::Succeeded || ended.terminal_state
            == NormalizedRunState::Failed ==> r.output_markdown == ended.output_markdown,
        ended.terminal_state != NormalizedRunState::Succeeded && ended.terminal_state
            != NormalizedRunState::Failed ==> r.output_markdown is None,
{
}

/// The command that records an end says of the run what its outcome says.
pub proof fn law_end_is_recorded_as_it_came(
    receipt: &BeginGraphNodeRunReceipt,
    ended: &ProviderOutcome,
    catalog: u64,
    graph: u64,
    m3: u64,
    r: FinishGraphNodeRunCommand,
    name: String,
)
    requires
        call_ensures(finish_command, (receipt, ended, catalog, graph, m3), r),
        call_ensures(owner, (receipt.node_id,), name),
    ensures
        r.expected_catalog_revision == catalog,
        r.expected_graph_revision == graph,
        r.expected_m3_revision == m3,
        r.node_id == receipt.node_id,
        r.run_id == receipt.run_id,
        r.owner@ == name@,
        name@ == "daemon-provider-"@ + receipt.node_id.canonical(),
        r.terminal_state == ended.terminal_state,
        r.failure == ended.failure,
        r.provider_session_id == ended.provider_session_id,
        r.output_markdown == ended.output_markdown,
        r.cost == ended.cost,
{
}

/// Whether a run is over is what the states say.
pub proof fn law_terminal_states(state: NormalizedRunState, r: bool)
    requires
        call_ensures(is_terminal, (state,), r),
    ensures
        r == over(state),
{
}

/// A refused record is tried again where that can help, given up where it
/// cannot, and done where the run has ended otherwise.
pub proof fn law_record_is_tried_again_where_that_can_help(
    error: &StoreError,
    finish: PersistStep,
    read: PersistStep,
)
    requires
        call_ensures(after_finish, (error,), finish),
        call_ensures(after_read, (error,), read),
    ensures
        finish == PersistStep::Again <==> error is RevisionConflict,
        finish == PersistStep::Pause <==> error is Database || error is Poisoned,
        finish == PersistStep::Done <==> error is InvalidRunState || error is RunNotFound,
        read == PersistStep::Pause <==> error is Database || error is Poisoned,
        read != PersistStep::Pause ==> read == PersistStep::GiveUp,
{
}

/// The pause before the next try doubles up to a second.
pub proof fn law_pause_doubles_up_to_a_bound(backoff: u64, r: u64)
    requires
        call_ensures(next_backoff, (backoff,), r),
    ensures
        r <= 1000,
        2 * backoff <= 1000 ==> r == 2 * backoff,
        2 * backoff > 1000 ==> r == 1000,
{
}

/// A signal to stop is obeyed at once, or waited out while providers are active
/// or the state has moved on, or complained of.
pub proof fn law_signal_waits_for_providers(error: Option<&StoreError>, r: SignalStep)
    requires
        call_ensures(checkpoint_for_signal, (error,), r),
    ensures
        r == SignalStep::Stop <==> error is None,
        r == SignalStep::Wait <==> error is Some && (error->0 is ProviderRunsActive || error->0
            is RevisionConflict),
{
}

/// A command is taken only under the path that it names itself.
pub proof fn law_command_and_path_agree(
    path: Uid,
    named: Uid,
    cancel: Result<(), StoreError>,
    decide: Result<(), StoreError>,
)
    requires
        call_ensures(check_cancel_path, (path, named), cancel),
        call_ensures(check_decision_path, (path, named), decide),
    ensures
        cancel is Ok <==> path == named,
        decide is Ok <==> path == named,
        cancel is Err ==> cancel->Err_0 is RunNotFound,
        decide is Err ==> decide->Err_0 is InvalidApproval,
{
}

/// The executable of an adapter is the configured one or else the first that is
/// there; a configured one that is not there has no stand-in.
pub proof fn law_configured_executable_has_no_stand_in(
    configured: Option<(String, bool)>,
    candidates: Vec<(String, bool)>,
    r: Option<String>,
)
    requires
        call_ensures(configured_executable, (configured, candidates), r),
    ensures
        configured is Some && (configured->0).1 ==> r == Some((configured->0).0),
        configured is Some && !(configured->0).1 ==> r is None,
        configured is None ==> match r {
            None => forall|i: int| 0 <= i < candidates@.len() ==> !(#[trigger] candidates@[i]).1,
            Some(path) => exists|i: int|
                {
                    &&& 0 <= i < candidates@.len()
                    &&& (#[trigger] candidates@[i]).1
                    &&& candidates@[i].0 == path
                    &&& forall|k: int| 0 <= k < i ==> !(#[trigger] candidates@[k]).1
                },
        },
{
    if configured is None {
        lemma_chosen(candidates@, 0);
    }
}

proof fn lemma_chosen(candidates: Seq<(String, bool)>, from: int)
    requires
        0 <= from <= candidates.len(),
        forall|k: int| 0 <= k < from ==> !(#[trigger] candidates[k]).1,
    ensures
        match crate::executor::chosen_executable(None, candidates, from) {
            None => forall|i: int| 0 <= i < candidates.len() ==> !(#[trigger] candidates[i]).1,
            Some(path) => exists|i: int|
                {
                    &&& 0 <= i < candidates.len()
                    &&& (#[trigger] candidates[i]).1
                    &&& candidates[i].0 == path
                    &&& forall|k: int| 0 <= k < i ==> !(#[trigger] candidates[k]).1
                },
        },
    decreases candidates.len() - from,
{
    if from < candidates.len() && !candidates[from].1 {
        lemma_chosen(candidates, from + 1);
    }
}

/// Ready nodes are started one after the other, each under the revisions that
/// the one before left; and a start is asked for in the name of the daemon.
pub proof fn law_starts_follow_each_other(
    command: &ExecuteReadyGraphCommand,
    previous: Option<&BeginGraphNodeRunReceipt>,
    revisions: (u64, u64),
    node_id: Uid,
    r: BeginGraphNodeRunCommand,
)
    requires
        call_ensures(next_start_revisions, (command, previous), revisions),
        call_ensures(start_command, (node_id, revisions), r),
    ensures
        previous is None ==> r.expected_catalog_revision == command.expected_catalog_revision
            && r.expected_graph_revision == command.expected_graph_revision,
        previous is Some ==> r.expected_catalog_revision == previous->0.catalog_revision
            && r.expected_graph_revision == previous->0.graph_revision,
        r.node_id == node_id,
        r.owner@ == "daemon-provider-"@ + node_id.canonical(),
{
}

/// What was started is reported, and only where nothing was is the failure.
pub proof fn law_started_runs_are_reported(
    started: usize,
    error: StoreError,
    failed: Result<(), StoreError>,
    execution_id: Uid,
    run_ids: Vec<Uid>,
    r: Result<ExecuteReadyGraphReceipt, StoreError>,
)
    requires
        call_ensures(after_failed_start, (started, error), failed),
        call_ensures(execute_ready_receipt, (execution_id, run_ids), r),
    ensures
        failed is Ok <==> started > 0,
        failed is Err ==> failed->Err_0 == error,
        r is Ok <==> run_ids@.len() > 0,
        r is Ok ==> r->Ok_0.execution_id == execution_id && r->Ok_0.run_ids@ == run_ids@
            && r->Ok_0.protocol_version == 1,
        r is Err ==> r->Err_0@ == Refusal::RunControlRejected,
{
}

} // verus!

use bastet_workstation::digest::sha256_text;
use bastet_workstation::error::{ApprovalError, CatalogError, StoreError};
use bastet_workstation::executor::{
    acknowledges, after_close, after_failed_start, after_finish, after_read, before_run, check_cancel_path,
    check_decision_path, checkpoint_for_signal, choose_runner, configured_executable,
    execute_ready_receipt, finish_command, is_terminal, next_backoff, next_start_revisions,
    outcome, owner, provider_request, recordable, settle, start_command, Adapter, PersistStep,
    ProviderAction, ProviderEvent, ProviderOutcome, ProviderRequest, RunSupervisor, RunnerChoice, SignalStep,
};
use bastet_workstation::graph::{
    sanitize_adapter_failure, terminal_node_state, AdapterFailure, AdapterFailureKind,
    GraphError, GraphNodeState,
};
use bastet_workstation::grants::now_ms;
use bastet_workstation::identity::{
    timestamp, CredentialBackend, Moment, NormalizedRunState, PermissionLevel,
};
use bastet_workstation::json::Payload;
use bastet_workstation::launch::{
    identity_text, ProviderAccountSelection, ProviderCredentialSelection, ProviderLaunchIdentity,
    ProviderLaunchPlan,
};
use bastet_workstation::m3::{unknown_cost, CostEvidence, EvidenceClass};
use bastet_workstation::migrations::{apply_migrations, SCHEMA_VERSION};
use bastet_workstation::policy::{LaunchCeiling, LaunchPolicy};
use bastet_workstation::protocol::{
    lifecycle_name, parse_lifecycle, BeginGraphNodeRunReceipt, DaemonLifecycle,
    ExecuteReadyGraphCommand, PROTOCOL_VERSION,
};
use bastet_workstation::registry::RunControllerRegistry;
use bastet_workstation::staged::{
    approval_action, parse_approval_request_id, parse_run_id, validate_request_for_plan,
};
use bastet_workstation::store::MAX_STORED;
use bastet_workstation::text::{decimal_text, has_char, is_blank};
use bastet_workstation::uid::Uid;

fn id(byte: u8) -> Uid {
    Uid {
        bits: u128::from_be_bytes([byte; 16]),
    }
}

fn launch_identity() -> ProviderLaunchIdentity {
    ProviderLaunchIdentity {
        agent_instance_id: id(8),
        agent_provider_id: id(9),
        project_id: id(10),
        model_id: id(11),
        adapter_kind: "codex_cli".to_string(),
        model: "gpt-fixture".to_string(),
        account: Some(ProviderAccountSelection {
            account_id: id(12),
            provider_identity: "fixture-account".to_string(),
            credential: Some(ProviderCredentialSelection {
                reference_id: id(13),
                backend: CredentialBackend::MacosKeychain,
                service: "dev.bastet.fixture".to_string(),
                account_label: "fixture-label".to_string(),
            }),
        }),
    }
}

fn receipt(launch_identity: Option<ProviderLaunchIdentity>) -> BeginGraphNodeRunReceipt {
    BeginGraphNodeRunReceipt {
        protocol_version: PROTOCOL_VERSION,
        execution_id: id(1),
        node_id: id(2),
        session_id: id(3),
        run_id: id(4),
        launch_identity,
        adapter_kind: "codex_cli".to_string(),
        model: "gpt-fixture".to_string(),
        workspace_root: "/fixture".to_string(),
        prompt: "bounded fixture prompt".to_string(),
        catalog_revision: 5,
        graph_revision: 6,
        event_sequence: 7,
    }
}

#[test]
fn protocol_serializes_stable_snake_case_states() {
    assert_eq!(
        lifecycle_name(&DaemonLifecycle::Checkpointing),
        "checkpointing"
    );
    assert_eq!(lifecycle_name(&DaemonLifecycle::Suspended), "suspended");
}

#[test]
fn lifecycle_names_read_back() {
    for lifecycle in [
        DaemonLifecycle::Starting,
        DaemonLifecycle::Ready,
        DaemonLifecycle::Checkpointing,
        DaemonLifecycle::Suspended,
        DaemonLifecycle::Stopping,
        DaemonLifecycle::Recovering,
    ] {
        assert_eq!(parse_lifecycle(lifecycle_name(&lifecycle)), lifecycle);
    }
    assert_eq!(parse_lifecycle("unheard of"), DaemonLifecycle::Starting);
}

#[test]
fn launch_identity_round_trips_typed_optional_account_and_credential_metadata() {
    let expected = launch_identity();
    assert!(expected.copy().same(&expected));
    let rendered = identity_text(&expected);
    let lowered = rendered.to_ascii_lowercase();
    for forbidden in [
        "secret",
        "token",
        "api_key",
        "access_key",
        "private_key",
        "password",
    ] {
        assert!(!lowered.contains(forbidden));
    }
    let encoded: serde_json::Value = serde_json::from_str(&rendered).unwrap();
    let credential = &encoded["account"]["credential"];
    assert!(credential.is_object());
    assert_eq!(credential["reference_id"], id(13).text());
    assert_eq!(credential["backend"], "macos_keychain");
    assert_eq!(credential["service"], "dev.bastet.fixture");
    assert_eq!(credential["account_label"], "fixture-label");
    assert_eq!(encoded["agent_instance_id"], id(8).text());
    assert_eq!(encoded["model"], "gpt-fixture");
}

#[test]
fn run_controller_registry_routes_exactly_one_owned_run() {
    let mut registry = RunControllerRegistry::new();
    let owned = id(21);
    let unknown = id(22);
    registry.register(owned, "accepting").unwrap();
    assert!(registry.register(owned, "accepting").is_err());
    assert_eq!(registry.controller(owned), Ok(&"accepting"));
    let refused = registry.controller(unknown).unwrap_err();
    assert_eq!(
        refused.message(),
        "provider run controller rejected cancellation"
    );
    assert!(registry.unregister(owned));
    assert!(!registry.unregister(owned));
    assert!(registry.controller(owned).is_err());
}

#[test]
fn selected_account_cannot_fall_back_to_ambient_authentication() {
    let mut identity = launch_identity();
    identity.adapter_kind = "nonexistent-fixture-adapter".to_string();
    identity.account = Some(ProviderAccountSelection {
        account_id: id(12),
        provider_identity: "selected-not-authenticated".to_string(),
        credential: None,
    });
    let result = match choose_runner(&receipt(Some(identity)), true) {
        RunnerChoice::Ended(result) => result,
        other => panic!("{other:?}"),
    };
    assert_eq!(result.terminal_state, NormalizedRunState::Blocked);
    assert_eq!(
        result.failure.unwrap().kind,
        AdapterFailureKind::Unsupported
    );
    assert_eq!(result.provider_session_id, None);
}

#[test]
fn system_runner_rejects_denied_prerequisites_before_adapter_selection() {
    let mut unbound = receipt(Some(launch_identity()));
    unbound.launch_identity.as_mut().unwrap().account = None;
    unbound.adapter_kind = "fixture-no-executable".to_string();
    let result = match choose_runner(&unbound, false) {
        RunnerChoice::Ended(result) => result,
        other => panic!("{other:?}"),
    };
    assert_eq!(result.terminal_state, NormalizedRunState::Blocked);
    assert_eq!(
        result.failure.unwrap().kind,
        AdapterFailureKind::PermissionDenied
    );
    assert!(result.output_markdown.is_none());
    assert!(result.provider_session_id.is_none());
}

#[test]
fn an_adapter_is_chosen_by_its_kind() {
    let mut unbound = receipt(Some(launch_identity()));
    unbound.launch_identity.as_mut().unwrap().account = None;
    assert_eq!(choose_runner(&unbound, true), RunnerChoice::Codex);
    unbound.adapter_kind = "agy_cli".to_string();
    assert_eq!(choose_runner(&unbound, true), RunnerChoice::Agy);
    unbound.adapter_kind = "other".to_string();
    assert_eq!(
        choose_runner(&unbound, true),
        RunnerChoice::Ended(ProviderOutcome::unavailable())
    );
    assert!(matches!(
        choose_runner(&receipt(None), true),
        RunnerChoice::Ended(_)
    ));
}

#[test]
fn successful_provider_without_bounded_output_becomes_safe_failure() {
    let observed = outcome(
        NormalizedRunState::Succeeded,
        Some("provider-session".to_string()),
        unknown_cost(),
        Some("  ".to_string()),
        None,
    );
    assert_eq!(observed.terminal_state, NormalizedRunState::Failed);
    let failure = observed.failure.unwrap();
    assert_eq!(failure.kind, AdapterFailureKind::MalformedOutput);
    assert_eq!(failure.provider_code, None);
    assert_eq!(failure.redacted_detail, None);
    assert_eq!(observed.output_markdown, Some("  ".to_string()));
}

#[test]
fn a_supervised_run_ends_as_its_provider_reports() {
    let cost = CostEvidence {
        evidence_class: EvidenceClass::ProviderReported,
        currency: None,
        amount_bits: None,
        input_tokens: Some(3),
        output_tokens: Some(5),
        confidence_bits: 1.0f64.to_bits(),
    };
    let mut run = RunSupervisor::new(Adapter::Codex);
    assert!(matches!(run.step(ProviderEvent::Quiet), ProviderAction::Poll));
    assert!(matches!(
        run.step(ProviderEvent::Cost(cost.clone())),
        ProviderAction::Poll
    ));
    let running = || ProviderEvent::Lifecycle {
        state: NormalizedRunState::Running,
        session: Some("session".to_string()),
        output: None,
        failure: None,
    };
    assert!(matches!(
        run.step(running()),
        ProviderAction::RecordRunning { session: Some(name) } if name == "session"
    ));
    assert!(matches!(
        run.step(ProviderEvent::RunningRecorded(true)),
        ProviderAction::Poll
    ));
    assert!(matches!(run.step(running()), ProviderAction::Poll));
    let ended = match run.step(ProviderEvent::Lifecycle {
        state: NormalizedRunState::Succeeded,
        session: Some("session".to_string()),
        output: Some("# Done".to_string()),
        failure: None,
    }) {
        ProviderAction::CloseThenFinish(ended) => ended,
        other => panic!("{other:?}"),
    };
    assert_eq!(ended.terminal_state, NormalizedRunState::Succeeded);
    assert_eq!(ended.cost, cost);
    assert_eq!(
        after_close(Adapter::Codex, ended.clone(), Ok(Some("session".to_string()))),
        Ok::<_, String>(ended.clone())
    );
    let late = after_close(Adapter::Agy, ended.clone(), Ok(Some("late".to_string()))).unwrap();
    assert_eq!(late.provider_session_id.as_deref(), Some("late"));
    assert_eq!(
        after_close(Adapter::Codex, ended.clone(), Err("broken pipe".to_string())),
        Err("provider cleanup could not be confirmed".to_string())
    );
    assert_eq!(
        after_close(Adapter::Agy, ended.clone(), Err("broken pipe".to_string())),
        Err("broken pipe".to_string())
    );
    assert_eq!(
        settle(after_close(Adapter::Agy, ended, Err(String::new()))),
        ProviderOutcome::unavailable()
    );
}

#[test]
fn a_read_only_run_that_writes_has_failed() {
    let mut agy = RunSupervisor::new(Adapter::Agy);
    assert!(matches!(
        agy.step(ProviderEvent::WriteReceipt),
        ProviderAction::Fail(text) if text == "read-only Agy run reported a write"
    ));
    let mut codex = RunSupervisor::new(Adapter::Codex);
    assert!(matches!(
        codex.step(ProviderEvent::WriteReceipt),
        ProviderAction::Poll
    ));
    assert!(matches!(
        codex.step(ProviderEvent::RunningRecorded(false)),
        ProviderAction::Fail(text) if text == "provider running state could not be persisted"
    ));
    assert!(matches!(
        codex.step(ProviderEvent::PollFailed("lost".to_string())),
        ProviderAction::Fail(text) if text == "lost"
    ));
}

#[test]
fn a_cancelled_run_keeps_its_evidence_but_no_output() {
    let mut run = RunSupervisor::new(Adapter::Agy);
    let ended = match run.step(ProviderEvent::TransportCancelled {
        session: Some("session".to_string()),
    }) {
        ProviderAction::Finish(ended) => ended,
        other => panic!("{other:?}"),
    };
    assert_eq!(ended.terminal_state, NormalizedRunState::Cancelled);
    assert_eq!(ended.provider_session_id.as_deref(), Some("session"));
    assert_eq!(ended.output_markdown, None);
    assert_eq!(ended.failure.as_ref().unwrap().kind, AdapterFailureKind::Cancelled);
    let mut partial = ended;
    partial.output_markdown = Some("partial provider output".to_string());
    assert_eq!(recordable(partial).output_markdown, None);
    let failed = outcome(
        NormalizedRunState::Failed,
        None,
        unknown_cost(),
        Some("partial".to_string()),
        None,
    );
    assert_eq!(
        recordable(failed).output_markdown.as_deref(),
        Some("partial")
    );
}

#[test]
fn a_cancellation_is_acknowledged_for_the_very_run_that_was_cancelled() {
    assert!(acknowledges(id(1), id(1), NormalizedRunState::Cancelled));
    assert!(!acknowledges(id(2), id(1), NormalizedRunState::Cancelled));
    assert!(!acknowledges(id(1), id(1), NormalizedRunState::Failed));
    assert_eq!(before_run(false, true, true), None);
    assert_eq!(before_run(true, true, true), Some(ProviderOutcome::cancelled()));
    assert_eq!(
        before_run(false, false, true),
        Some(ProviderOutcome::cancelled())
    );
    assert_eq!(
        before_run(false, false, false),
        Some(ProviderOutcome::unavailable())
    );
}

#[test]
fn the_end_of_a_run_is_recorded_under_the_revisions_just_read() {
    let started = receipt(Some(launch_identity()));
    let command = finish_command(&started, &ProviderOutcome::cancelled(), 8, 9, 10);
    assert_eq!(command.expected_catalog_revision, 8);
    assert_eq!(command.expected_graph_revision, 9);
    assert_eq!(command.expected_m3_revision, 10);
    assert_eq!(command.run_id, id(4));
    assert_eq!(command.owner, format!("daemon-provider-{}", id(2).text()));
    assert_eq!(command.owner, owner(id(2)));
    let conflict = StoreError::RevisionConflict {
        expected: 1,
        actual: 2,
    };
    assert_eq!(after_finish(&conflict), PersistStep::Again);
    assert_eq!(after_finish(&StoreError::Poisoned), PersistStep::Pause);
    assert_eq!(after_finish(&StoreError::RunNotFound), PersistStep::Done);
    assert_eq!(after_finish(&StoreError::GraphNotFound), PersistStep::GiveUp);
    assert_eq!(after_read(&StoreError::Poisoned), PersistStep::Pause);
    assert_eq!(after_read(&conflict), PersistStep::GiveUp);
    assert_eq!(
        checkpoint_for_signal(Some(&StoreError::ProviderRunsActive)),
        SignalStep::Wait
    );
    assert_eq!(
        checkpoint_for_signal(Some(&StoreError::Poisoned)),
        SignalStep::Complain
    );
    assert_eq!(checkpoint_for_signal(None), SignalStep::Stop);
}

#[test]
fn pauses_double_up_to_the_longest() {
    let mut pause = 25;
    let mut pauses = vec![];
    for _ in 0..8 {
        pauses.push(pause);
        pause = next_backoff(pause);
    }
    assert_eq!(pauses, vec![25, 50, 100, 200, 400, 800, 1000, 1000]);
    assert_eq!(next_backoff(u64::MAX), 1000);
}

#[test]
fn a_path_and_its_command_name_the_same_thing() {
    assert!(check_cancel_path(id(1), id(1)).is_ok());
    assert!(matches!(
        check_cancel_path(id(1), id(2)),
        Err(StoreError::RunNotFound)
    ));
    assert!(check_decision_path(id(1), id(1)).is_ok());
    assert!(matches!(
        check_decision_path(id(1), id(2)),
        Err(StoreError::InvalidApproval(ApprovalError::HashMismatch))
    ));
}

#[test]
fn a_configured_executable_is_not_replaced_by_another() {
    let candidates = || vec![("/a/agent".to_string(), false), ("/b/agent".to_string(), true)];
    assert_eq!(
        configured_executable(None, candidates()).as_deref(),
        Some("/b/agent")
    );
    assert_eq!(
        configured_executable(Some(("/c/agent".to_string(), true)), candidates()).as_deref(),
        Some("/c/agent")
    );
    assert_eq!(
        configured_executable(Some(("/c/agent".to_string(), false)), candidates()),
        None
    );
}

#[test]
fn later_starts_build_on_the_revisions_of_earlier_ones() {
    let command = ExecuteReadyGraphCommand {
        expected_catalog_revision: 3,
        expected_graph_revision: 4,
    };
    assert_eq!(next_start_revisions(&command, None), (3, 4));
    assert_eq!(
        next_start_revisions(&command, Some(&receipt(None))),
        (5, 6)
    );
    let started = execute_ready_receipt(id(1), vec![id(4)]).unwrap();
    assert_eq!(started.run_ids, vec![id(4)]);
    assert!(execute_ready_receipt(id(1), vec![]).is_err());
}

#[test]
fn only_ended_runs_are_terminal() {
    for (state, ended) in [
        (NormalizedRunState::Starting, None),
        (NormalizedRunState::Running, None),
        (NormalizedRunState::AwaitingApproval, None),
        (NormalizedRunState::Cancelling, None),
        (NormalizedRunState::Recovering, None),
        (
            NormalizedRunState::Succeeded,
            Some(GraphNodeState::Succeeded),
        ),
        (NormalizedRunState::Failed, Some(GraphNodeState::Failed)),
        (
            NormalizedRunState::Cancelled,
            Some(GraphNodeState::Cancelled),
        ),
        (NormalizedRunState::Blocked, Some(GraphNodeState::Blocked)),
        (
            NormalizedRunState::Uncertain,
            Some(GraphNodeState::Uncertain),
        ),
    ] {
        assert_eq!(is_terminal(state), ended.is_some());
        assert_eq!(terminal_node_state(state), ended);
    }
    assert_eq!(NormalizedRunState::AwaitingApproval.name(), "awaiting_approval");
    assert_eq!(NormalizedRunState::AwaitingApproval.label(), "awaitingapproval");
}

#[test]
fn recorded_failures_carry_no_provider_text() {
    let reported = AdapterFailure {
        kind: AdapterFailureKind::Quota,
        message_key: "codex.failure.usage_limit_exceeded".to_string(),
        retryable: true,
        provider_code: Some("code".to_string()),
        redacted_detail: Some("detail".to_string()),
    };
    let clean = sanitize_adapter_failure(&reported);
    assert_eq!(clean.message_key, "codex.failure.usage_limit_exceeded");
    assert!(clean.retryable);
    assert_eq!(clean.provider_code, None);
    assert_eq!(clean.redacted_detail, None);
    assert_eq!(sanitize_adapter_failure(&clean), clean);
    let unknown = sanitize_adapter_failure(&AdapterFailure {
        message_key: "made.up".to_string(),
        ..reported
    });
    assert_eq!(unknown.message_key, "adapter.failure.quota");
}

#[test]
fn refuses_database_from_a_newer_schema() {
    assert!(matches!(
        apply_migrations(99),
        Err(StoreError::UnsupportedSchemaVersion {
            actual: 99,
            supported: SCHEMA_VERSION
        })
    ));
    assert_eq!(apply_migrations(SCHEMA_VERSION), Ok(vec![]));
    assert_eq!(apply_migrations(7), Ok(vec![8, 9, 10]));
    assert_eq!(apply_migrations(0).unwrap().len(), 10);
}

#[test]
fn errors_are_answered_with_their_status_and_text() {
    let conflict = StoreError::RevisionConflict {
        expected: 3,
        actual: 12,
    };
    assert_eq!(conflict.status(), 409);
    assert_eq!(
        conflict.message(),
        "state revision conflict: expected 3, actual 12"
    );
    assert_eq!(StoreError::GraphNotFound.status(), 404);
    assert_eq!(StoreError::RunControlRejected.status(), 503);
    assert_eq!(StoreError::Poisoned.status(), 500);
    assert_eq!(StoreError::Database("disk".to_string()).status(), 500);
    assert_eq!(
        StoreError::Database("disk".to_string()).message(),
        "database error: disk"
    );
    let invalid = StoreError::InvalidCatalog(CatalogError {
        message: "twice".to_string(),
    });
    assert_eq!(invalid.status(), 400);
    assert_eq!(invalid.message(), "identity catalog is invalid: twice");
    assert_eq!(
        StoreError::InvalidGraph(GraphError::Other("cycle".to_string())).message(),
        "graph execution is invalid: cycle"
    );
    assert_eq!(
        StoreError::UnsupportedSchemaVersion {
            actual: 99,
            supported: 10
        }
        .message(),
        "database schema version 99 is newer than supported version 10"
    );
    assert_eq!(
        StoreError::InvalidLifecycle {
            expected: "ready",
            actual: "stopping".to_string()
        }
        .message(),
        "invalid daemon lifecycle: expected ready, actual stopping"
    );
}

#[test]
fn a_clock_outside_what_can_be_stored_grants_nothing() {
    assert_eq!(now_ms(Some(5)), Ok(5));
    assert_eq!(now_ms(Some(MAX_STORED as u128)), Ok(MAX_STORED));
    assert_eq!(
        now_ms(Some(MAX_STORED as u128 + 1)),
        Err(StoreError::CredentialGrantRejected)
    );
    assert_eq!(now_ms(None), Err(StoreError::CredentialGrantRejected));
    assert_eq!(timestamp(1_788_000), "1788000");
    assert_eq!(Moment::at(0).text, "0");
}

#[test]
fn identifiers_read_back_from_their_text() {
    let known = Uid {
        bits: 0x0123_4567_89ab_cdef_0123_4567_89ab_cdef,
    };
    assert_eq!(known.text(), "01234567-89ab-cdef-0123-456789abcdef");
    assert_eq!(Uid::parse(&known.text()), Some(known));
    assert_eq!(Uid::parse("0123456789ABCDEF0123456789ABCDEF"), Some(known));
    assert_eq!(Uid::parse("not an identifier"), None);
    let fresh = Uid::new();
    assert_ne!(fresh, Uid::new());
    assert_eq!(fresh.text().as_bytes()[14], b'4');
    assert_eq!(Uid::parse(&fresh.text()), Some(fresh));
    assert_eq!(parse_run_id(&known.text()), Ok(known));
    assert!(matches!(
        parse_run_id("x"),
        Err(StoreError::InvalidRunState(text))
            if text == "staged launch contains an invalid run id"
    ));
    assert!(matches!(
        parse_approval_request_id("x"),
        Err(StoreError::CredentialGrantRejected)
    ));
}

#[test]
fn payloads_are_compact_objects_with_escaped_texts() {
    let payload = Payload::new()
        .string("reason", "a \"quoted\"\nline")
        .number("count", 3)
        .uid_option("run_id", None)
        .uid("id", id(0))
        .finish();
    assert_eq!(
        payload,
        "{\"reason\":\"a \\\"quoted\\\"\\nline\",\"count\":3,\"run_id\":null,\
         \"id\":\"00000000-0000-0000-0000-000000000000\"}"
    );
    assert_eq!(Payload::new().finish(), "{}");
}

#[test]
fn texts_are_blank_without_a_visible_character() {
    assert!(is_blank(""));
    assert!(is_blank(" \t\n\u{a0}\u{3000}"));
    assert!(!is_blank(" x "));
    assert!(has_char("a,b", ','));
    assert!(!has_char("ab", ','));
    assert_eq!(decimal_text(0), "0");
    assert_eq!(decimal_text(u64::MAX), "18446744073709551615");
}

fn plan() -> ProviderLaunchPlan {
    ProviderLaunchPlan {
        version: 1,
        execution_id: id(1),
        node_id: id(2),
        session_id: id(3),
        run_id: id(4),
        attempt: 1,
        role_id: id(5),
        owner: "owner".to_string(),
        identity: launch_identity(),
        workspace_root: "/fixture".to_string(),
        prompt: "bounded fixture prompt".to_string(),
        policy: None,
    }
}

#[test]
fn a_plan_shows_its_policy_where_it_has_one() {
    let mut plan = plan();
    let without = plan.json();
    assert!(without.ends_with("\"prompt\":\"bounded fixture prompt\"}"));
    let ceiling = LaunchCeiling {
        filesystem: PermissionLevel::Observe,
        network: PermissionLevel::Use,
        credential: PermissionLevel::Deny,
    };
    plan.policy = Some(LaunchPolicy {
        project: ceiling,
        role: LaunchCeiling {
            credential: PermissionLevel::Use,
            ..ceiling
        },
    });
    assert_eq!(
        plan.json(),
        format!(
            "{},\"policy\":{{\"project\":{{\"filesystem\":\"observe\",\"network\":\"use\",\
             \"credential\":\"deny\"}},\"role\":{{\"filesystem\":\"observe\",\
             \"network\":\"use\",\"credential\":\"use\"}}}}}}",
            without.strip_suffix('}').unwrap()
        )
    );
    assert_eq!(plan.copy(), plan);
    // The plan selects a credential, which the project does not allow.
    assert!(!plan.meets_online_requirements());
}

#[test]
fn texts_are_quoted_character_by_character() {
    let text = "\u{0}\u{8}\t\n\u{b}\u{c}\r\u{1f} \"\\/\u{7f}\u{e9}\u{1f600}";
    assert_eq!(
        Payload::new().string("t", text).finish(),
        "{\"t\":\"\\u0000\\b\\t\\n\\u000b\\f\\r\\u001f \\\"\\\\/\u{7f}\u{e9}\u{1f600}\"}"
    );
}

#[test]
fn a_provider_is_asked_for_a_read_only_turn_on_the_receipts_task() {
    let receipt = receipt(Some(launch_identity()));
    for (adapter, effort) in [
        (Adapter::Codex, Some("medium".to_string())),
        (Adapter::Agy, None),
    ] {
        assert_eq!(
            provider_request(adapter, &receipt),
            ProviderRequest {
                run_id: receipt.run_id,
                model: receipt.model.clone(),
                prompt: receipt.prompt.clone(),
                directory: receipt.workspace_root.clone(),
                effort,
                read_only: true,
                asks_approval: false,
                timeout_ms: 120_000,
                conversation_id: None,
            }
        );
    }
}

#[test]
fn a_failed_start_is_reported_only_where_nothing_was_started() {
    assert_eq!(after_failed_start(1, StoreError::RunNotFound), Ok(()));
    assert_eq!(
        after_failed_start(0, StoreError::RunNotFound),
        Err(StoreError::RunNotFound)
    );
    let command = start_command(id(2), (3, 4));
    assert_eq!(command.expected_catalog_revision, 3);
    assert_eq!(command.expected_graph_revision, 4);
    assert_eq!(command.node_id, id(2));
    assert_eq!(command.owner, owner(id(2)));
}

#[test]
fn a_plan_has_one_hash_and_calls_for_one_action() {
    let plan = plan();
    let parsed: serde_json::Value = serde_json::from_str(&plan.json()).unwrap();
    assert_eq!(parsed["attempt"], 1);
    assert_eq!(parsed["owner"], "owner");
    assert_eq!(parsed["identity"]["account"]["account_id"], id(12).text());
    assert_eq!(
        plan.hash(),
        format!("sha256:{}", sha256_text(plan.json().as_bytes()))
    );
    assert_eq!(plan.copy().hash(), plan.hash());
    let mut other = plan.copy();
    other.prompt.push('.');
    assert_ne!(other.hash(), plan.hash());
    assert!(plan.matches_receipt(&receipt(Some(launch_identity()))));
    assert!(!other.matches_receipt(&receipt(Some(launch_identity()))));
    assert!(!plan.matches_receipt(&receipt(None)));

    let action = approval_action(&plan).unwrap();
    assert_eq!(action.action_key, "credential.use");
    assert_eq!(
        action.scope.data_scopes,
        vec![format!("provider_launch_plan:{}", plan.hash())]
    );
    assert_eq!(action.scope.run_id, Some(id(4)));
    let mut request = bastet_workstation::approval::ApprovalRequest {
        id: id(30),
        created_at_ms: 1000,
        expires_at_ms: 301_000,
        action,
        request_hash: String::new(),
    };
    assert!(validate_request_for_plan(&plan, &request, &None).is_ok());
    assert!(validate_request_for_plan(&other, &request, &None).is_err());
    request.expires_at_ms += 1;
    assert!(matches!(
        validate_request_for_plan(&plan, &request, &None),
        Err(StoreError::CredentialGrantRejected)
    ));
    request.expires_at_ms = 999;
    assert!(validate_request_for_plan(&plan, &request, &None).is_err());
}

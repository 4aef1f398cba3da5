use workbench::daemon::plan::{
    PlannedEvent, PlannedPayload, RouteOutcome, approval_events, cancel_resolution,
    control_events, control_result, dispatch_events, event_attempt_label,
    fake_completion_events, prompt_events, reconcile_events, reconciliation_result,
    recovery_attempt_label, recovery_events,
};
use workbench::daemon::session::{
    ApprovalOutcome, ControlDecision, DaemonError, PersistedEvent, RecoveryAction,
    approval_outcome, attach_result, cancel_next_state, check_delete, dispatch_check,
    event_kind_name, fold_session, initialize_result, latest_started_attempt, parse_event_kind,
    parse_session_state, pause_decision, prompt_sequence, provider_execution_inputs,
    reconcile_next_state, recovery_action, redirect_next_state, resume_decision, retention_due,
    select_event, session_result, session_state_name,
};
use workbench::daemon::workflow::{latest_redirect_instruction, session_workflow_id};
use workbench::json::JsonValue;
use workbench::mcp::policy::PermissionMode;
use workbench::protocol::command::{ApprovalDecision, Command, EmptyParams, ReconciliationResolution};
use workbench::protocol::event::EventKind;
use workbench::protocol::response::{Control, ErrorCode, ProtocolVersion, SessionState};
use workbench::protocol::subscription::SubscriptionError;

const SESSION: u128 = 0x0190_0000_0000_7000_8000_0000_0000_0001;
const APPROVAL: u128 = 0x0190_0000_0000_7000_8000_0000_0000_00aa;
const ATTEMPT: u128 = 0x0190_0000_0000_7000_8000_0000_0000_00bb;

fn uuid_text(id: u128) -> String {
    uuid::Uuid::from_u128(id).to_string()
}

fn payload(members: &[(&str, &str)]) -> JsonValue {
    JsonValue::Object(
        members
            .iter()
            .map(|(key, value)| ((*key).to_owned(), JsonValue::Text((*value).to_owned())))
            .collect(),
    )
}

fn event(sequence: u64, kind: &str, attempt_id: Option<u128>, data: JsonValue) -> PersistedEvent {
    PersistedEvent {
        event_id: u128::from(sequence),
        session_id: SESSION,
        sequence,
        causation_request_id: Some(7),
        occurred_at: "2026-07-23T00:00:00Z".to_owned(),
        kind: kind.to_owned(),
        attempt_id,
        effect_class: None,
        payload: data,
    }
}

#[test]
fn event_kind_names_round_trip() {
    let kinds = [
        EventKind::SessionCreated,
        EventKind::ConfigurationResolved,
        EventKind::InputRecorded,
        EventKind::RoutingPlanned,
        EventKind::ClarificationRequested,
        EventKind::ApprovalRequested,
        EventKind::ApprovalRecorded,
        EventKind::DispatchPlanned,
        EventKind::DispatchStarted,
        EventKind::DispatchAcknowledged,
        EventKind::ProviderEvent,
        EventKind::ToolEvent,
        EventKind::PauseRequested,
        EventKind::SessionPaused,
        EventKind::SessionResumed,
        EventKind::SessionRedirected,
        EventKind::CancelRequested,
        EventKind::CancelConfirmed,
        EventKind::OutcomeUnknown,
        EventKind::OutcomeReconciled,
        EventKind::SessionCompleted,
        EventKind::SessionFailed,
        EventKind::SessionCancelled,
        EventKind::SessionAbandoned,
        EventKind::SessionExported,
        EventKind::SessionDeletionRequested,
        EventKind::SessionDeleted,
    ];
    for kind in kinds {
        assert_eq!(parse_event_kind(event_kind_name(kind)).expect("known kind"), kind);
    }
    assert_eq!(event_kind_name(EventKind::DispatchStarted), "dispatch_started");
    assert!(matches!(parse_event_kind("Session_Created"), Err(DaemonError::StorageUnavailable)));
}

#[test]
fn session_state_names_round_trip() {
    for state in [
        SessionState::Ready,
        SessionState::Running,
        SessionState::Pausing,
        SessionState::Paused,
        SessionState::AwaitingClarification,
        SessionState::AwaitingApproval,
        SessionState::CancelRequested,
        SessionState::OutcomeUnknown,
        SessionState::Completed,
        SessionState::Failed,
        SessionState::Cancelled,
        SessionState::Abandoned,
        SessionState::Deleting,
    ] {
        assert_eq!(parse_session_state(session_state_name(state)).expect("state"), state);
    }
    assert_eq!(parse_session_state("awaiting_approval").expect("state"), SessionState::AwaitingApproval);
    assert!(matches!(parse_session_state("unknown"), Err(DaemonError::StorageUnavailable)));
}

#[test]
fn folding_follows_the_approval_flow() {
    let history = vec![
        event(1, "session_created", None, payload(&[])),
        event(2, "input_recorded", None, payload(&[])),
        event(3, "approval_requested", None, payload(&[("approval_id", &uuid_text(APPROVAL))])),
    ];
    let folded = fold_session(&history).expect("folds");
    assert_eq!(folded.state, SessionState::AwaitingApproval);
    assert_eq!(folded.last_sequence, 3);
    assert_eq!(folded.pending_approval_id, Some(APPROVAL));
    assert_eq!(folded.pending_request_id, Some(7));

    let mut granted = history;
    granted.push(event(
        4,
        "approval_recorded",
        None,
        payload(&[("approval_id", &uuid_text(APPROVAL)), ("decision", "grant")]),
    ));
    let folded = fold_session(&granted).expect("folds");
    assert_eq!(folded.state, SessionState::Running);
    assert_eq!(folded.pending_approval_id, None);
    assert_eq!(folded.approval_decisions.get(&APPROVAL), Some(&ApprovalDecision::Grant));

    assert_eq!(
        approval_outcome(&folded, APPROVAL, ApprovalDecision::Grant).expect("repeat"),
        ApprovalOutcome::Repeated(SessionState::Running)
    );
    assert!(matches!(
        approval_outcome(&folded, APPROVAL, ApprovalDecision::Deny),
        Err(DaemonError::InvalidTransition)
    ));
}

#[test]
fn folding_rejects_gaps_and_foreign_histories() {
    assert!(matches!(fold_session(&[]), Err(DaemonError::SessionNotFound)));
    let foreign = vec![event(1, "input_recorded", None, payload(&[]))];
    assert!(matches!(fold_session(&foreign), Err(DaemonError::SessionNotFound)));
    let gap = vec![
        event(1, "session_created", None, payload(&[])),
        event(3, "input_recorded", None, payload(&[])),
    ];
    assert!(matches!(fold_session(&gap), Err(DaemonError::StorageUnavailable)));
    let unreadable = vec![
        event(1, "session_created", None, payload(&[])),
        event(
            2,
            "approval_recorded",
            None,
            payload(&[("approval_id", &uuid_text(APPROVAL)), ("decision", "maybe")]),
        ),
    ];
    assert!(matches!(fold_session(&unreadable), Err(DaemonError::Internal)));
    let missing = vec![
        event(1, "session_created", None, payload(&[])),
        event(2, "approval_recorded", None, payload(&[("decision", "deny")])),
    ];
    assert!(matches!(fold_session(&missing), Err(DaemonError::StorageUnavailable)));
}

#[test]
fn folding_tracks_uncertain_attempts_and_terminal_states() {
    let history = vec![
        event(1, "session_created", None, payload(&[])),
        event(2, "dispatch_started", Some(ATTEMPT), payload(&[])),
        event(3, "cancel_requested", None, payload(&[])),
        event(4, "outcome_unknown", None, payload(&[("attempt_id", &uuid_text(ATTEMPT))])),
    ];
    let folded = fold_session(&history).expect("folds");
    assert_eq!(folded.state, SessionState::OutcomeUnknown);
    assert_eq!(folded.uncertain_attempt_id, Some(ATTEMPT));
    // Only an event that names the attempt in its header ends it.
    assert_eq!(latest_started_attempt(&history), Some(ATTEMPT));
    let mut history = history;
    history[3].attempt_id = Some(ATTEMPT);
    assert_eq!(latest_started_attempt(&history), None);
    history[3].attempt_id = None;
    assert_eq!(
        reconcile_next_state(folded.state, folded.uncertain_attempt_id, ATTEMPT,
            ReconciliationResolution::AcceptResult).expect("reconciles"),
        SessionState::Completed
    );
    assert!(matches!(
        reconcile_next_state(folded.state, folded.uncertain_attempt_id, 1,
            ReconciliationResolution::Retry),
        Err(DaemonError::InvalidTransition)
    ));
    let mut closed = history;
    closed.push(event(5, "outcome_reconciled", Some(ATTEMPT), payload(&[])));
    closed.push(event(6, "session_abandoned", Some(ATTEMPT), payload(&[])));
    let folded = fold_session(&closed).expect("folds");
    assert_eq!(folded.state, SessionState::Abandoned);
    assert_eq!(folded.uncertain_attempt_id, None);
}

#[test]
fn redirect_answers_a_clarification() {
    let history = vec![
        event(1, "session_created", None, payload(&[])),
        event(2, "clarification_requested", None, payload(&[])),
        event(3, "session_redirected", None, payload(&[])),
    ];
    assert_eq!(fold_session(&history).expect("folds").state, SessionState::Ready);
    assert_eq!(redirect_next_state(SessionState::AwaitingClarification).expect("ok"), SessionState::Ready);
    assert_eq!(redirect_next_state(SessionState::Paused).expect("ok"), SessionState::Paused);
    assert!(matches!(redirect_next_state(SessionState::Running), Err(DaemonError::InvalidTransition)));
}

#[test]
fn open_attempt_and_recovery() {
    let started = vec![
        event(1, "session_created", None, payload(&[])),
        event(2, "dispatch_started", Some(ATTEMPT), payload(&[])),
        event(3, "cancel_requested", None, payload(&[])),
    ];
    assert_eq!(latest_started_attempt(&started), Some(ATTEMPT));
    assert_eq!(recovery_action(&started), RecoveryAction::AttemptOutcomeUnknown(ATTEMPT));

    let before_dispatch = vec![
        event(1, "session_created", None, payload(&[])),
        event(2, "cancel_requested", None, payload(&[])),
    ];
    assert_eq!(recovery_action(&before_dispatch), RecoveryAction::ConfirmCancellation);
    let pausing = vec![
        event(1, "session_created", None, payload(&[])),
        event(2, "pause_requested", None, payload(&[])),
    ];
    assert_eq!(recovery_action(&pausing), RecoveryAction::CompletePause);
    let confirmed = vec![
        event(1, "session_created", None, payload(&[])),
        event(2, "cancel_confirmed", None, payload(&[])),
    ];
    assert_eq!(recovery_action(&confirmed), RecoveryAction::FinishCancellation);
    assert_eq!(recovery_action(&[]), RecoveryAction::Nothing);
}

#[test]
fn control_decisions() {
    assert_eq!(pause_decision(SessionState::Paused, true).expect("ok"), ControlDecision::AlreadyApplied);
    assert_eq!(pause_decision(SessionState::Running, false).expect("ok"), ControlDecision::Apply);
    assert!(matches!(pause_decision(SessionState::Running, true), Err(DaemonError::CapabilityUnavailable)));
    assert!(matches!(pause_decision(SessionState::Ready, false), Err(DaemonError::InvalidTransition)));
    assert_eq!(resume_decision(SessionState::Running).expect("ok"), ControlDecision::AlreadyApplied);
    assert_eq!(resume_decision(SessionState::Paused).expect("ok"), ControlDecision::Apply);
    assert!(matches!(resume_decision(SessionState::Ready), Err(DaemonError::InvalidTransition)));
    assert_eq!(cancel_next_state(SessionState::Running, None).expect("ok"), SessionState::Cancelled);
    assert_eq!(cancel_next_state(SessionState::Running, Some(1)).expect("ok"), SessionState::CancelRequested);
    assert!(matches!(cancel_next_state(SessionState::Completed, None), Err(DaemonError::InvalidTransition)));
    assert!(matches!(cancel_next_state(SessionState::Deleting, None), Err(DaemonError::InvalidTransition)));
    assert!(matches!(check_delete(1, 2, SessionState::Completed),
        Err(DaemonError::InvalidRequest("delete confirmation does not match session"))));
    assert!(matches!(check_delete(1, 1, SessionState::Running), Err(DaemonError::InvalidTransition)));
    assert!(check_delete(1, 1, SessionState::Failed).is_ok());
    assert_eq!(prompt_sequence(SessionState::Ready, 4).expect("ok"), 5);
    assert!(matches!(prompt_sequence(SessionState::Ready, u64::MAX), Err(DaemonError::Internal)));
    assert!(matches!(prompt_sequence(SessionState::Running, 4), Err(DaemonError::InvalidTransition)));
}

#[test]
fn rejects_commands_when_initialize_has_no_compatible_version() {
    assert!(matches!(
        initialize_result(&["workbench/2".to_owned()]),
        Err(DaemonError::UnsupportedVersion)
    ));
    let result = initialize_result(&["workbench/2".to_owned(), "workbench/1".to_owned()])
        .expect("compatible");
    assert_eq!(result.selected_protocol, ProtocolVersion::V1);
    assert_eq!(result.max_frame_bytes, 8_388_608);
    assert_eq!(result.max_client_queue_events, 1_024);
}

#[test]
fn daemon_errors_become_redacted_protocol_errors() {
    let error = DaemonError::StorageUnavailable.into_protocol(9);
    assert_eq!(error.code, ErrorCode::StorageUnavailable);
    assert_eq!(error.message, "encrypted storage is unavailable");
    assert!(error.retryable);
    assert_eq!(error.correlation_id, 9);
    let error = DaemonError::InvalidRequest("storage rejected the command").into_protocol(3);
    assert_eq!(error.code, ErrorCode::InvalidRequest);
    assert_eq!(error.message, "storage rejected the command");
    assert!(!error.retryable);
    let recorded = DaemonError::Recorded(error.clone()).into_protocol(11);
    assert_eq!(recorded.correlation_id, 3);
    assert_eq!(DaemonError::ClientLagged.code_name(), "client_lagged");
    assert_eq!(DaemonError::Recorded(error).code_name(), "invalid_request");
    assert!(matches!(DaemonError::from_subscription(SubscriptionError::ClientLagged), DaemonError::ClientLagged));
    assert!(matches!(DaemonError::from_subscription(SubscriptionError::Closed), DaemonError::Internal));
}

#[test]
fn retention_applies_the_pinned_days() {
    const DAY: i128 = 86_400_000_000_000;
    let now = 100 * DAY;
    assert_eq!(retention_due("completed", Some(90 * DAY), Some(10), now), Ok(true));
    assert_eq!(retention_due("completed", Some(90 * DAY + 1), Some(10), now), Ok(false));
    assert_eq!(retention_due("running", Some(0), Some(1), now), Ok(false));
    assert_eq!(retention_due("failed", None, Some(1), now), Ok(false));
    assert_eq!(retention_due("cancelled", Some(0), None, now), Ok(false));
    assert_eq!(retention_due("abandoned", Some(0), Some(0), now), Err("retention must be at least one day"));
}

fn caused_by(mut event: PersistedEvent, request_id: Option<u128>) -> PersistedEvent {
    event.causation_request_id = request_id;
    event
}

#[test]
fn provider_inputs_prefer_the_triggering_request() {
    let history = vec![
        event(1, "session_created", None, payload(&[])),
        caused_by(event(2, "input_recorded", None, payload(&[("content", "first")])), Some(7)),
        caused_by(
            event(3, "routing_planned", None, payload(&[("provider", "fake"), ("runtime_model", "m1")])),
            Some(7),
        ),
        caused_by(event(4, "input_recorded", None, payload(&[("content", "second")])), Some(8)),
    ];
    assert_eq!(select_event(&history, "input_recorded", 7), Some(1));
    assert_eq!(select_event(&history, "input_recorded", 9), Some(3));
    assert_eq!(select_event(&history, "routing_planned", 8), Some(2));
    assert_eq!(select_event(&history, "session_paused", 7), None);
    assert_eq!(
        provider_execution_inputs(&history, 7).expect("inputs"),
        ("fake".to_owned(), "m1".to_owned(), "first".to_owned())
    );
    assert_eq!(
        provider_execution_inputs(&history, 8).expect("inputs"),
        ("fake".to_owned(), "m1".to_owned(), "second".to_owned())
    );
    let no_model = vec![
        event(1, "session_created", None, payload(&[])),
        event(2, "input_recorded", None, payload(&[("content", "x")])),
        event(3, "routing_planned", None, payload(&[("provider", "fake")])),
    ];
    assert!(matches!(provider_execution_inputs(&no_model, 7), Err(DaemonError::StorageUnavailable)));
    assert!(matches!(provider_execution_inputs(&history[..2], 7), Err(DaemonError::StorageUnavailable)));
}

#[test]
fn workflow_ids_and_redirect_instructions_are_read_from_history() {
    let history = vec![
        event(1, "session_created", None, payload(&[("workflow_id", "review")])),
        event(2, "session_redirected", None, payload(&[("instruction", "use tests")])),
        event(3, "session_redirected", None, JsonValue::Object(vec![("instruction".to_owned(), JsonValue::Null)])),
    ];
    assert_eq!(session_workflow_id(&history).as_deref(), Some("review"));
    assert_eq!(latest_redirect_instruction(&history).as_deref(), Some("use tests"));
    assert_eq!(session_workflow_id(&history[1..]), None);
    assert_eq!(latest_redirect_instruction(&history[..1]), None);
    let plain = vec![event(1, "session_created", None, payload(&[]))];
    assert_eq!(session_workflow_id(&plain), None);
}

#[test]
fn later_duplicate_members_win() {
    let value = JsonValue::Object(vec![
        ("k".to_owned(), JsonValue::Text("old".to_owned())),
        ("k".to_owned(), JsonValue::Text("new".to_owned())),
    ]);
    assert_eq!(value.member("k").and_then(JsonValue::as_text), Some("new"));
    assert_eq!(value.member("missing"), None);
    assert!(value.is_object());
    assert_eq!(JsonValue::Null.member("k"), None);
    assert_eq!(JsonValue::Number("1".to_owned()).as_text(), None);
}

fn invalid_reason(result: Result<(), DaemonError>) -> &'static str {
    match result {
        Err(DaemonError::InvalidRequest(reason)) => reason,
        other => panic!("expected an invalid request, got {other:?}"),
    }
}

#[test]
fn commands_are_dispatched_by_their_scope() {
    let status = Command::StatusGet(EmptyParams {});
    let get = Command::SessionGet(EmptyParams {});
    assert!(dispatch_check(false, None, &status).is_ok());
    assert!(dispatch_check(false, Some(SESSION), &get).is_ok());
    assert_eq!(invalid_reason(dispatch_check(true, None, &status)), "daemon is shutting down");
    assert_eq!(
        invalid_reason(dispatch_check(false, Some(SESSION), &status)),
        "method is not valid for a session"
    );
    assert_eq!(invalid_reason(dispatch_check(false, None, &get)), "session identifier is required");
}

#[test]
fn session_and_attach_results_report_the_folded_state() {
    let history = vec![
        event(1, "session_created", None, payload(&[])),
        event(2, "approval_requested", None, payload(&[("approval_id", &uuid_text(APPROVAL))])),
    ];
    let folded = fold_session(&history).expect("folds");
    let result = session_result(SESSION, &folded);
    assert_eq!(result.session_id, SESSION);
    assert_eq!(result.state, SessionState::AwaitingApproval);
    assert_eq!(result.last_sequence, 2);
    assert_eq!(result.pending_approval_id, Some(APPROVAL));
    assert_eq!(result.uncertain_attempt_id, None);
    let attached = attach_result(SESSION, &folded, 1);
    assert_eq!(attached.replay_after_sequence, 1);
    assert_eq!(attached.last_sequence, 2);
    assert_eq!(attached.state, SessionState::AwaitingApproval);
}

/// Appends what recovery plans, numbering the events on as storage does.
fn append_planned(history: &mut Vec<PersistedEvent>, planned: Vec<PlannedEvent>) {
    for planned_event in planned {
        let sequence = history.len() as u64 + 1;
        let mut stored = event(sequence, event_kind_name(planned_event.kind), planned_event.attempt_id, payload(&[]));
        stored.causation_request_id = planned_event.causation_request_id;
        history.push(stored);
    }
}

#[test]
fn recovery_completes_a_legacy_confirmed_cancellation_without_uncertainty() {
    let mut history = vec![
        event(1, "session_created", None, payload(&[])),
        event(2, "dispatch_planned", Some(ATTEMPT), payload(&[("attempt_id", &uuid_text(ATTEMPT))])),
        event(3, "dispatch_started", Some(ATTEMPT), payload(&[("attempt_id", &uuid_text(ATTEMPT))])),
        event(4, "cancel_requested", Some(ATTEMPT), payload(&[("actor", "local-user:1000")])),
        event(5, "cancel_confirmed", Some(ATTEMPT), payload(&[])),
    ];
    let planned = recovery_events(&history);
    assert_eq!(planned.len(), 1);
    assert_eq!(planned[0].payload, PlannedPayload::Terminal("confirmed cancellation recovered"));
    assert_eq!(recovery_attempt_label(recovery_action(&history)), Some("cancelled"));
    append_planned(&mut history, planned);
    assert_eq!(fold_session(&history).expect("recovered fold").state, SessionState::Cancelled);
    assert_eq!(history.iter().filter(|event| event.kind == "session_cancelled").count(), 1);
    assert!(!history.iter().any(|event| event.kind == "outcome_unknown"));
}

#[test]
fn restart_never_confirms_an_active_cancellation_from_fake_behavior() {
    let mut history = vec![
        event(1, "session_created", None, payload(&[])),
        event(2, "dispatch_planned", Some(ATTEMPT), payload(&[("attempt_id", &uuid_text(ATTEMPT))])),
        event(3, "dispatch_started", Some(ATTEMPT), payload(&[("attempt_id", &uuid_text(ATTEMPT))])),
        event(4, "cancel_requested", None, payload(&[("actor", "local-user:1000")])),
    ];
    let planned = recovery_events(&history);
    assert_eq!(planned[0].payload, PlannedPayload::UncertainAttempt(
        ATTEMPT,
        "cancellation recovery could not confirm provider outcome",
    ));
    assert_eq!(recovery_attempt_label(recovery_action(&history)), Some("outcome_unknown"));
    append_planned(&mut history, planned);
    let folded = fold_session(&history).expect("recovered fold");
    assert_eq!(folded.state, SessionState::OutcomeUnknown);
    assert_eq!(folded.uncertain_attempt_id, Some(ATTEMPT));
    assert!(!history.iter().any(|event| event.kind == "cancel_confirmed"));
}

#[test]
fn recovery_confirms_a_cancellation_without_an_attempt_and_completes_a_pause() {
    let control = uuid_text(APPROVAL);
    let mut history = vec![
        event(1, "session_created", None, payload(&[])),
        event(2, "cancel_requested", None, payload(&[("control_id", &control)])),
    ];
    let planned = recovery_events(&history);
    assert_eq!(planned.len(), 2);
    assert_eq!(planned[0].payload, PlannedPayload::ControlId(Some(APPROVAL)));
    assert_eq!(planned[0].causation_request_id, Some(7));
    append_planned(&mut history, planned);
    assert_eq!(fold_session(&history).expect("fold").state, SessionState::Cancelled);
    assert!(recovery_events(&history).is_empty());

    let mut paused = vec![
        event(1, "session_created", None, payload(&[])),
        event(2, "pause_requested", None, payload(&[])),
    ];
    let planned = recovery_events(&paused);
    assert_eq!(planned[0].payload, PlannedPayload::CopyOfLast);
    assert_eq!(recovery_attempt_label(recovery_action(&paused)), None);
    append_planned(&mut paused, planned);
    assert_eq!(fold_session(&paused).expect("fold").state, SessionState::Paused);
}

#[test]
fn cancellation_settles_by_the_provider_answer() {
    let mut history = vec![
        event(1, "session_created", None, payload(&[])),
        event(2, "dispatch_started", Some(ATTEMPT), payload(&[])),
        event(3, "cancel_requested", None, payload(&[])),
    ];
    let state = fold_session(&history).expect("fold").state;
    assert_eq!(state, SessionState::CancelRequested);
    let confirmed = cancel_resolution(state, 9, APPROVAL, Some(ATTEMPT), true, "provider confirmed cancellation", 1);
    assert_eq!(confirmed.len(), 2);
    assert_eq!(confirmed[0].payload, PlannedPayload::ControlId(Some(APPROVAL)));
    assert_eq!(confirmed[1].payload, PlannedPayload::Terminal("provider confirmed cancellation"));
    assert_eq!(confirmed[1].causation_request_id, Some(9));
    let mut settled = history.clone();
    append_planned(&mut settled, confirmed);
    assert_eq!(fold_session(&settled).expect("fold").state, SessionState::Cancelled);

    let expired = cancel_resolution(state, 9, APPROVAL, None, false, "unused", 0xabc);
    assert_eq!(expired.len(), 1);
    assert_eq!(expired[0].attempt_id, Some(0xabc));
    assert_eq!(
        expired[0].payload,
        PlannedPayload::UncertainAttempt(0xabc, "cancellation confirmation deadline expired")
    );
    append_planned(&mut history, expired);
    let folded = fold_session(&history).expect("fold");
    assert_eq!(folded.state, SessionState::OutcomeUnknown);
    assert_eq!(folded.uncertain_attempt_id, Some(0xabc));
    assert!(cancel_resolution(SessionState::Cancelled, 9, APPROVAL, None, true, "x", 1).is_empty());
}

fn uncertain_history() -> Vec<PersistedEvent> {
    vec![
        event(1, "session_created", None, payload(&[])),
        event(2, "dispatch_started", Some(ATTEMPT), payload(&[])),
        event(3, "outcome_unknown", Some(ATTEMPT), payload(&[])),
    ]
}

#[test]
fn reconciliation_replies_match_the_folded_history() {
    for (resolution, state) in [
        (ReconciliationResolution::Retry, SessionState::Running),
        (ReconciliationResolution::AcceptResult, SessionState::Completed),
        (ReconciliationResolution::Abandon, SessionState::Abandoned),
    ] {
        let mut history = uncertain_history();
        let reply = reconciliation_result(ATTEMPT, resolution, 0x77);
        assert_eq!(reply.state, state);
        assert_eq!(
            reply.replacement_attempt_id,
            (resolution == ReconciliationResolution::Retry).then_some(0x77)
        );
        let planned = reconcile_events(9, ATTEMPT, resolution, 0x77, true);
        assert_eq!(planned[0].kind, EventKind::OutcomeReconciled);
        assert_eq!(
            planned[0].payload,
            PlannedPayload::Reconciled(ATTEMPT, resolution, reply.replacement_attempt_id, true)
        );
        append_planned(&mut history, planned);
        let folded = fold_session(&history).expect("fold");
        assert_eq!(folded.state, state);
        assert_eq!(folded.uncertain_attempt_id, None);
    }
}

#[test]
fn dispatch_opens_with_planned_then_started() {
    let planned = dispatch_events(9, ATTEMPT, Some(APPROVAL));
    assert_eq!(planned.len(), 2);
    assert_eq!(planned[0].kind, EventKind::DispatchPlanned);
    assert_eq!(planned[0].payload, PlannedPayload::DispatchPlanned(ATTEMPT, Some(APPROVAL)));
    assert_eq!(planned[1].kind, EventKind::DispatchStarted);
    assert_eq!(planned[1].attempt_id, Some(ATTEMPT));
    assert_eq!(planned[1].causation_request_id, Some(9));
}

#[test]
fn control_replies_match_the_folded_history() {
    let running = vec![
        event(1, "session_created", None, payload(&[])),
        event(2, "dispatch_started", Some(ATTEMPT), payload(&[])),
    ];
    let clarifying = vec![
        event(1, "session_created", None, payload(&[])),
        event(2, "clarification_requested", None, payload(&[])),
    ];
    let cases = [
        (running.clone(), Control::Pause, None, SessionState::Paused, 2),
        (running.clone(), Control::Cancel, Some(ATTEMPT), SessionState::CancelRequested, 1),
        (running, Control::Cancel, None, SessionState::Cancelled, 3),
        (clarifying, Control::Redirect, None, SessionState::Ready, 1),
    ];
    for (history, control, attempt, expected, count) in cases {
        let mut history = history;
        let planned = control_events(
            control,
            9,
            APPROVAL,
            "local-user:1000".to_owned(),
            (control == Control::Redirect).then(|| "use the tests".to_owned()),
            attempt,
        );
        assert_eq!(planned.len(), count);
        assert_eq!(
            planned[0].payload,
            PlannedPayload::Control(
                APPROVAL,
                "local-user:1000".to_owned(),
                (control == Control::Redirect).then(|| "use the tests".to_owned())
            )
        );
        append_planned(&mut history, planned);
        assert_eq!(fold_session(&history).expect("fold").state, expected);
        let reply = control_result(control, APPROVAL, expected);
        assert_eq!(reply.state, expected);
        assert_eq!(reply.control, control);
    }
    let mut paused = vec![
        event(1, "session_created", None, payload(&[])),
        event(2, "session_paused", None, payload(&[])),
    ];
    let resumed = control_events(Control::Resume, 9, APPROVAL, "local-user:1000".to_owned(), None, None);
    append_planned(&mut paused, resumed);
    assert_eq!(fold_session(&paused).expect("fold").state, SessionState::Running);
}

/// Appends planned events, reading payload members back as the daemon
/// writes them.
fn append_planned_with_members(history: &mut Vec<PersistedEvent>, planned: Vec<PlannedEvent>) {
    for planned_event in planned {
        let sequence = history.len() as u64 + 1;
        let members: Vec<(&str, String)> = match &planned_event.payload {
            PlannedPayload::ApprovalRequest(id) => vec![("approval_id", uuid_text(*id))],
            PlannedPayload::ApprovalDecided(id, _, decision) => vec![
                ("approval_id", uuid_text(*id)),
                (
                    "decision",
                    match decision {
                        ApprovalDecision::Grant => "grant".to_owned(),
                        ApprovalDecision::Deny => "deny".to_owned(),
                    },
                ),
            ],
            PlannedPayload::DispatchPlanned(id, _) | PlannedPayload::DispatchStarted(id) => {
                vec![("attempt_id", uuid_text(*id))]
            }
            _ => Vec::new(),
        };
        let pairs: Vec<(&str, &str)> = members.iter().map(|(k, v)| (*k, v.as_str())).collect();
        let mut stored =
            event(sequence, event_kind_name(planned_event.kind), planned_event.attempt_id, payload(&pairs));
        stored.causation_request_id = planned_event.causation_request_id;
        history.push(stored);
    }
}

fn ready() -> Vec<PersistedEvent> {
    vec![event(1, "session_created", None, payload(&[]))]
}

#[test]
fn prompts_settle_where_their_route_says() {
    let routes = [
        (RouteOutcome::CapabilityUnavailable, SessionState::Ready, 1, Some(ErrorCode::CapabilityUnavailable)),
        (RouteOutcome::Clarification("no role".to_owned()), SessionState::AwaitingClarification, 2, None),
        (RouteOutcome::Selected(PermissionMode::Denied), SessionState::Ready, 2, Some(ErrorCode::PolicyDenied)),
        (RouteOutcome::Selected(PermissionMode::ApprovalRequired), SessionState::AwaitingApproval, 3, None),
        (RouteOutcome::Selected(PermissionMode::ReadOnly), SessionState::Running, 4, None),
    ];
    for (route, state, count, failure) in routes {
        let mut history = ready();
        let (planned, refused) = prompt_events(9, 0x11, "hello".to_owned(), route, APPROVAL, ATTEMPT);
        assert_eq!(planned.len(), count);
        assert_eq!(planned[0].payload, PlannedPayload::Input(0x11, "hello".to_owned()));
        assert_eq!(refused.map(|error| error.into_protocol(1).code), failure);
        append_planned_with_members(&mut history, planned);
        let folded = fold_session(&history).expect("fold");
        assert_eq!(folded.state, state);
        if state == SessionState::AwaitingApproval {
            assert_eq!(folded.pending_approval_id, Some(APPROVAL));
            assert_eq!(folded.pending_request_id, Some(9));
        }
    }
}

#[test]
fn approvals_grant_a_dispatch_or_deny_into_a_pause() {
    for (decision, state, count) in [
        (ApprovalDecision::Grant, SessionState::Running, 3),
        (ApprovalDecision::Deny, SessionState::Paused, 2),
    ] {
        let mut history = ready();
        let (planned, _) = prompt_events(
            9,
            0x11,
            "hello".to_owned(),
            RouteOutcome::Selected(PermissionMode::ApprovalRequired),
            APPROVAL,
            ATTEMPT,
        );
        append_planned_with_members(&mut history, planned);
        let pending = fold_session(&history).expect("fold");
        let decided = approval_events(
            10,
            pending.pending_request_id,
            APPROVAL,
            "local-user:1000".to_owned(),
            decision,
            ATTEMPT,
            0x22,
        );
        assert_eq!(decided.len(), count);
        assert_eq!(decided[count - 1].causation_request_id, Some(if count == 3 { 9 } else { 10 }));
        append_planned_with_members(&mut history, decided);
        let folded = fold_session(&history).expect("fold");
        assert_eq!(folded.state, state);
        assert_eq!(folded.pending_approval_id, None);
        assert_eq!(folded.approval_decisions.get(&APPROVAL), Some(&decision));
    }
}

#[test]
fn the_fake_provider_completes_running_sessions_only() {
    let mut history = vec![
        event(1, "session_created", None, payload(&[])),
        event(2, "dispatch_started", Some(ATTEMPT), payload(&[])),
    ];
    let state = fold_session(&history).expect("fold").state;
    let planned = fake_completion_events(state, 9, ATTEMPT);
    assert_eq!(planned.len(), 2);
    assert_eq!(planned[0].payload, PlannedPayload::FakeResponse(ATTEMPT));
    assert_eq!(planned[1].payload, PlannedPayload::Terminal("deterministic fake provider completed"));
    append_planned(&mut history, planned);
    assert_eq!(fold_session(&history).expect("fold").state, SessionState::Completed);
    assert!(fake_completion_events(SessionState::Paused, 9, ATTEMPT).is_empty());
    assert_eq!(event_attempt_label(EventKind::SessionCompleted), Some("success"));
    assert_eq!(event_attempt_label(EventKind::SessionAbandoned), Some("abandoned"));
    assert_eq!(event_attempt_label(EventKind::ProviderEvent), None);
}

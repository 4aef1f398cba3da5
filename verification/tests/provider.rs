use workbench::daemon::ipc::{
    Connection, authorize_peer, endpoint_is_private, failure_reply, frame_rejection_code,
    lagged_reply,
};
use workbench::daemon::session::{
    ProviderOutputKind, ProviderOutputState, provider_failure_effect, provider_output_effect,
};
use workbench::daemon::status::{adapter_health, status_result};
use workbench::failure::FailureCategory;
use workbench::openrouter::adapter::{
    prompt_preflight, stream_outcome, transport_failure_definite, transport_outcome, validate_connect,
};
use workbench::openrouter::budget::{BudgetDecision, CostPolicyConfig};
use workbench::openrouter::credential::{MemorySecretSource, SecretSource, require_secret, secret_from_lookup};
use workbench::openrouter::error::{OpenRouterError, OpenRouterErrorKind};
use workbench::openrouter::transport::fake_stream_body;
use workbench::protocol::codec::{ProtocolCodecError, check_protocol_label};
use workbench::protocol::event::EventKind;
use workbench::protocol::ids::is_uuid_v7;
use workbench::protocol::response::{AdapterHealth, AdapterStatus, ErrorCode, ServerReply, SessionState};

fn policy(max_session: u64) -> CostPolicyConfig {
    CostPolicyConfig { max_session_usd_micros: max_session, max_attempt_usd_micros: Some(10_000) }
}

#[test]
fn connection_requires_initialize_first_and_once() {
    let mut connection = Connection::new(1000);
    assert!(!connection.is_initialized());
    assert_eq!(connection.context().client_name, "uninitialized");
    assert_eq!(connection.accept_command(false), Err("initialize must be the first command"));
    assert_eq!(connection.accept_command(true), Ok(()));
    connection.record_reply(true, false, Some("cli".to_owned()));
    assert!(!connection.is_initialized());
    connection.record_reply(true, true, Some("cli".to_owned()));
    assert!(connection.is_initialized());
    assert_eq!(connection.context().client_name, "cli");
    assert_eq!(connection.context().uid, 1000);
    assert_eq!(connection.accept_command(true), Err("connection is already initialized"));
    assert_eq!(connection.accept_command(false), Ok(()));
    connection.record_reply(false, true, Some("other".to_owned()));
    assert_eq!(connection.context().client_name, "cli");
}

#[test]
fn peers_and_endpoints_must_belong_to_the_daemon_user() {
    assert_eq!(authorize_peer(1000, 1000), Ok(()));
    assert_eq!(authorize_peer(0, 1000), Err("IPC peer is not owned by the daemon user"));
    assert!(endpoint_is_private(true, 1000, 1000, 0o140_600));
    assert!(!endpoint_is_private(true, 1000, 1000, 0o660));
    assert!(!endpoint_is_private(true, 1001, 1000, 0o600));
    assert!(!endpoint_is_private(false, 1000, 1000, 0o600));
}

#[test]
fn rejected_frames_and_lagging_clients_get_fixed_replies() {
    assert_eq!(frame_rejection_code(&ProtocolCodecError::FrameTooLarge), ErrorCode::FrameTooLarge);
    assert_eq!(
        frame_rejection_code(&ProtocolCodecError::UnsupportedVersion),
        ErrorCode::UnsupportedVersion
    );
    assert_eq!(frame_rejection_code(&ProtocolCodecError::InvalidJson("bad".to_owned())), ErrorCode::InvalidRequest);
    match lagged_reply::<()>(7, 9) {
        ServerReply::Failure { request_id, error } => {
            assert_eq!(request_id, 7);
            assert_eq!(error.code, ErrorCode::ClientLagged);
            assert_eq!(error.message, "client exceeded the bounded event queue");
            assert!(!error.retryable);
            assert_eq!(error.correlation_id, 9);
        }
        ServerReply::Success { .. } => panic!("lagged reply must be a failure"),
    }
    match failure_reply::<()>(ErrorCode::InvalidRequest, "bad frame", 0, 3) {
        ServerReply::Failure { request_id, error } => {
            assert_eq!(request_id, 0);
            assert_eq!(error.message, "bad frame");
            assert_eq!(error.correlation_id, 3);
        }
        ServerReply::Success { .. } => panic!("failure reply must be a failure"),
    }
}

#[test]
fn provider_outputs_are_recorded_by_kind() {
    let ack = provider_output_effect(ProviderOutputKind::Acknowledged, SessionState::Running);
    assert_eq!(ack.event, Some(EventKind::DispatchAcknowledged));
    assert_eq!(ack.state, ProviderOutputState::Streaming);
    assert!(!ack.state.is_terminal());
    let content = provider_output_effect(ProviderOutputKind::Content, SessionState::Running);
    assert_eq!(content.event, Some(EventKind::ProviderEvent));
    let tool = provider_output_effect(ProviderOutputKind::Tool, SessionState::CancelRequested);
    assert_eq!(tool.event, Some(EventKind::ToolEvent));
    assert_eq!(tool.attempt_outcome, None);
    let done = provider_output_effect(ProviderOutputKind::Completed, SessionState::Running);
    assert_eq!(done.event, Some(EventKind::SessionCompleted));
    assert!(done.state.is_terminal());
    assert_eq!(done.attempt_outcome, Some("success"));
}

#[test]
fn completion_during_cancellation_records_nothing() {
    let effect = provider_output_effect(ProviderOutputKind::Completed, SessionState::CancelRequested);
    assert_eq!(effect.event, None);
    assert_eq!(effect.state, ProviderOutputState::CancellationPending);
    assert!(!effect.state.is_terminal());
    assert_eq!(effect.attempt_outcome, None);
}

#[test]
fn provider_failures_fail_or_stay_unknown() {
    assert_eq!(provider_failure_effect(true, SessionState::Running), (EventKind::SessionFailed, "failed"));
    assert_eq!(
        provider_failure_effect(false, SessionState::Running),
        (EventKind::OutcomeUnknown, "outcome_unknown")
    );
    assert_eq!(
        provider_failure_effect(true, SessionState::CancelRequested),
        (EventKind::OutcomeUnknown, "outcome_unknown")
    );
}

#[test]
fn protocol_labels_and_uuid_versions() {
    assert_eq!(check_protocol_label(None), Ok(()));
    assert_eq!(check_protocol_label(Some("workbench/1")), Ok(()));
    assert_eq!(check_protocol_label(Some("workbench/2")), Err(ProtocolCodecError::UnsupportedVersion));
    let v7 = uuid::Uuid::parse_str("0190163d-8694-739b-aea5-966c26f8ad91").expect("uuid").as_u128();
    let v4 = uuid::Uuid::parse_str("67e55044-10b1-426f-9247-bb680e5fe0c8").expect("uuid").as_u128();
    assert!(is_uuid_v7(v7));
    assert!(!is_uuid_v7(v4));
}

#[test]
fn offline_stream_bodies_frame_each_event() {
    let events = vec!["{\"a\":1}".to_owned(), "x".to_owned()];
    assert_eq!(fake_stream_body(&events, true), "data: {\"a\":1}\n\ndata: x\n\ndata: [DONE]\n\n");
    assert_eq!(fake_stream_body(&events, false), "data: {\"a\":1}\n\ndata: x\n\n");
    assert_eq!(fake_stream_body(&[], true), "data: [DONE]\n\n");
}

#[test]
fn stream_outcomes_charge_at_least_one_micro() {
    assert_eq!(stream_outcome(true, true, 0).expect("completed"), 1);
    assert_eq!(stream_outcome(true, true, 250).expect("completed"), 250);
    let silent = stream_outcome(false, false, 5).expect_err("silent");
    assert_eq!(silent.kind(), OpenRouterErrorKind::OutcomeUnknown);
    assert_eq!(silent.message(), "OpenRouter stream ended without a definite completion");
    let cut = stream_outcome(true, false, 5).expect_err("cut");
    assert_eq!(cut.kind(), OpenRouterErrorKind::OutcomeUnknown);
    assert_eq!(cut.message(), "OpenRouter stream ended without a terminal marker");
}

#[test]
fn only_pre_dispatch_failures_are_definite() {
    assert!(transport_failure_definite(OpenRouterErrorKind::CredentialMissing));
    assert!(transport_failure_definite(OpenRouterErrorKind::CredentialEmpty));
    assert!(transport_failure_definite(OpenRouterErrorKind::BudgetExceeded));
    assert!(transport_failure_definite(OpenRouterErrorKind::InvalidConfig));
    assert!(!transport_failure_definite(OpenRouterErrorKind::Transport));
    assert!(!transport_failure_definite(OpenRouterErrorKind::OutcomeUnknown));
}

#[test]
fn adapter_configuration_is_checked() {
    assert!(validate_connect(1, "0.1.0", "env:KEY", policy(1)).is_ok());
    for (deadline, version, reference, budget) in [
        (0, "0.1.0", "env:KEY", 1),
        (1, "", "env:KEY", 1),
        (1, "0.1.0", "", 1),
        (1, "0.1.0", "env:KEY", 0),
    ] {
        let error = validate_connect(deadline, version, reference, policy(budget)).expect_err("invalid");
        assert_eq!(error.category, FailureCategory::InvalidRequest);
        assert_eq!(error.message, "OpenRouter adapter configuration is invalid");
    }
    let long = "v".repeat(257);
    assert!(validate_connect(1, &long, "env:KEY", policy(1)).is_err());
}

#[test]
fn memory_secrets_are_put_replaced_and_removed() {
    let mut source = MemorySecretSource::new();
    assert_eq!(source.resolve("env:KEY").expect("lookup"), None);
    source.put("env:KEY".to_owned(), "one".to_owned());
    source.put("env:OTHER".to_owned(), "two".to_owned());
    source.put("env:KEY".to_owned(), "three".to_owned());
    assert_eq!(source.resolve("env:KEY").expect("lookup").as_deref(), Some("three"));
    assert_eq!(require_secret(&source, "env:OTHER").expect("secret"), "two");
    source.remove("env:KEY");
    assert_eq!(source.resolve("env:KEY").expect("lookup"), None);
    let missing = require_secret(&source, "env:KEY").expect_err("missing");
    assert_eq!(missing.kind(), OpenRouterErrorKind::CredentialMissing);
    assert_eq!(missing.message(), "API credential is unavailable");
    source.put("env:EMPTY".to_owned(), String::new());
    assert_eq!(require_secret(&source, "env:EMPTY").expect_err("empty").kind(), OpenRouterErrorKind::CredentialEmpty);
}

#[test]
fn store_failures_pass_through_secret_lookup() {
    let failure = OpenRouterError::new(OpenRouterErrorKind::Unavailable, "keyring locked".to_owned());
    let error = secret_from_lookup(Err(failure)).expect_err("store failure");
    assert_eq!(error.kind(), OpenRouterErrorKind::Unavailable);
    assert_eq!(error.message(), "keyring locked");
    assert_eq!(secret_from_lookup(Ok(Some("s".to_owned()))).expect("secret"), "s");
}

fn health(entries: &[AdapterHealth]) -> Vec<(&str, AdapterStatus)> {
    entries.iter().map(|entry| (entry.id.as_str(), entry.status)).collect()
}

#[test]
fn status_lists_adapters_by_id_with_the_offline_fake() {
    let catalog = vec![("openrouter".to_owned(), false), ("codex".to_owned(), true)];
    let status = status_result("0.1.0".to_owned(), 3, &catalog, true);
    assert_eq!(status.daemon_version, "0.1.0");
    assert_eq!(status.active_sessions, 3);
    assert_eq!(status.storage_schema_version, 1);
    assert_eq!(
        health(&status.adapters),
        vec![
            ("codex", AdapterStatus::Available),
            ("fake", AdapterStatus::Available),
            ("openrouter", AdapterStatus::Unavailable),
        ]
    );
    let listed = vec![("fake".to_owned(), false), ("Zed".to_owned(), true), ("ab".to_owned(), true), ("a".to_owned(), false)];
    assert_eq!(
        health(&adapter_health(&listed, true)),
        vec![
            ("Zed", AdapterStatus::Available),
            ("a", AdapterStatus::Unavailable),
            ("ab", AdapterStatus::Available),
            ("fake", AdapterStatus::Unavailable),
        ]
    );
    assert!(adapter_health(&[], false).is_empty());
}

#[test]
fn preflight_refuses_definitely_in_order() {
    let allow = BudgetDecision::Allow { estimate_usd_micros: 10 };
    let busy = prompt_preflight(true, Ok("s".to_owned()), allow, false).expect_err("busy");
    assert_eq!(busy.user_safe_message, "OpenRouter session already has an active attempt");
    assert_eq!(busy.category, FailureCategory::ProviderUnavailable);
    assert!(busy.definite);
    let missing = OpenRouterError::new(OpenRouterErrorKind::CredentialMissing, "API credential is unavailable".to_owned());
    let no_secret = prompt_preflight(false, Err(missing), BudgetDecision::DenySession, true).expect_err("secret");
    assert_eq!(no_secret.user_safe_message, "API credential is unavailable");
    assert!(no_secret.definite);
    let over = prompt_preflight(false, Ok("s".to_owned()), BudgetDecision::DenyAttempt, true).expect_err("budget");
    assert_eq!(over.category, FailureCategory::PolicyDenied);
    assert_eq!(over.user_safe_message, "attempt paid-inference budget would be exceeded");
    let cancelled = prompt_preflight(false, Ok("s".to_owned()), allow, true).expect_err("cancelled");
    assert_eq!(cancelled.user_safe_message, "OpenRouter attempt was cancelled before dispatch");
    assert_eq!(prompt_preflight(false, Ok("secret".to_owned()), allow, false).expect("ready"), "secret");
}

#[test]
fn transport_failures_are_definite_only_before_dispatch() {
    let sent = OpenRouterError::new(OpenRouterErrorKind::Transport, "reset".to_owned());
    let failure = transport_outcome(Some(sent), true).expect_err("transport");
    assert!(!failure.definite);
    assert_eq!(failure.user_safe_message, "reset");
    let unsent = OpenRouterError::new(OpenRouterErrorKind::InvalidConfig, "bad".to_owned());
    assert!(transport_outcome(Some(unsent), false).expect_err("config").definite);
    let cancelled = transport_outcome(None, true).expect_err("cancelled");
    assert_eq!(cancelled.user_safe_message, "OpenRouter attempt was cancelled");
    assert!(transport_outcome(None, false).is_ok());
}

use workbench::mcp::error::{McpError, McpErrorKind, outcome_unknown, pin_mismatch, unavailable};
use workbench::mcp::gateway::{
    ToolAuditFact, finish_outcome, gate_invocation, gate_refusal_lifecycle, permission_label, transport_failure_lifecycle,
    transport_name, user_deny_authoritative,
};
use workbench::mcp::http::{
    FakeHttpMode, fake_http_invoke, http_request_head, http_response_verdict, parse_http_response,
};
use workbench::mcp::pin::{
    HttpIdentity, McpTransport, PinStatus, check_mcp_executable_path, http_endpoint_sha256,
    require_available,
};
use workbench::mcp::policy::{
    ApprovalMode, PermissionMode, PolicyDecision, PolicySource, apply_approval_mode,
    gate_before_transport,
};
use workbench::json::JsonValue;
use workbench::mcp::redaction::{PublicToolEvent, ToolLifecycle, contains_marker, scrub_value};
use workbench::mcp::stdio::{cancel_after_start, private_runtime_dir, shutdown_report};

#[test]
fn parses_loopback_http_identity() {
    let identity = HttpIdentity::parse("http://127.0.0.1:9/mcp").expect("identity");
    assert!(identity.loopback);
    assert!(identity.allows_connection());
}

#[test]
fn rejects_cleartext_non_loopback() {
    assert!(HttpIdentity::parse("http://example.com/mcp").is_err());
}

#[test]
fn rejects_unpinned_redirect_host() {
    let identity = HttpIdentity::parse("http://127.0.0.1:9/mcp").expect("identity");
    assert!(!identity.matches_redirect("http://evil.example/mcp"));
}

#[test]
fn identities_pin_scheme_host_port_and_path() {
    let identity = HttpIdentity::parse("https://Example.COM/api").expect("identity");
    assert_eq!(identity.host, "example.com");
    assert_eq!(identity.port, 443);
    assert_eq!(identity.path, "/api");
    assert!(!identity.loopback);
    assert_eq!(identity.pin_material(), "https://example.com:443/api");
    let local = HttpIdentity::parse("http://localhost").expect("identity");
    assert_eq!(local.port, 80);
    assert_eq!(local.path, "/");
    assert!(local.matches_redirect("http://localhost:80/elsewhere"));
    assert!(HttpIdentity::parse("ftp://localhost/").is_err());
    assert!(HttpIdentity::parse("http://127.0.0.1:99999/").is_err());
    assert_eq!(http_endpoint_sha256("https://example.com/api").expect("digest").len(), 64);
    assert_ne!(
        http_endpoint_sha256("https://example.com/api").expect("digest"),
        http_endpoint_sha256("https://example.com/other").expect("digest")
    );
}

#[test]
fn pins_gate_availability() {
    let available = PinStatus {
        server_id: "repo".to_owned(),
        available: true,
        transport: McpTransport::Stdio,
        reason: None,
    };
    assert!(require_available(&available).is_ok());
    let mismatch = PinStatus { available: false, reason: Some("pin mismatch"), ..available.clone() };
    assert_eq!(require_available(&mismatch).expect_err("mismatch").kind(), McpErrorKind::PinMismatch);
    let missing = PinStatus { available: false, reason: Some("not found"), ..available };
    assert_eq!(require_available(&missing).expect_err("missing").kind(), McpErrorKind::Unavailable);
    assert_eq!(pin_mismatch().message(), "MCP artifact pin mismatch");
    assert_eq!(unavailable().message(), "MCP server is unavailable");
    let custom = McpError::new(McpErrorKind::Timeout, "slow");
    assert_eq!(custom.kind(), McpErrorKind::Timeout);
    assert_eq!(custom.message(), "slow");
}

#[test]
fn intersection_never_widens_a_mode() {
    let modes = [PermissionMode::ReadOnly, PermissionMode::ApprovalRequired, PermissionMode::Denied];
    for a in modes {
        for b in modes {
            assert_eq!(a.intersect(b), b.intersect(a));
            assert_eq!(a.intersect(a), a);
        }
    }
    assert_eq!(PermissionMode::ReadOnly.intersect(PermissionMode::Denied), PermissionMode::Denied);
    assert_eq!(
        PermissionMode::ApprovalRequired.intersect(PermissionMode::ReadOnly),
        PermissionMode::ApprovalRequired
    );
}

#[test]
fn protected_effects_require_approval() {
    let read_only = PolicyDecision { mode: PermissionMode::ReadOnly, authoritative_source: PolicySource::User };
    let forced = apply_approval_mode(read_only, ApprovalMode::Always);
    assert_eq!(forced.mode, PermissionMode::ApprovalRequired);
    assert_eq!(forced.authoritative_source, PolicySource::EffectClass);
    assert_eq!(apply_approval_mode(read_only, ApprovalMode::Policy), read_only);
    let denied = PolicyDecision { mode: PermissionMode::Denied, authoritative_source: PolicySource::Role };
    assert_eq!(apply_approval_mode(denied, ApprovalMode::Always), denied);

    assert!(gate_before_transport(&read_only, None).is_ok());
    assert_eq!(gate_before_transport(&forced, None).expect_err("needs approval").kind(), McpErrorKind::ApprovalRequired);
    assert!(gate_before_transport(&forced, Some(true)).is_ok());
    assert_eq!(gate_before_transport(&forced, Some(false)).expect_err("denied").kind(), McpErrorKind::ApprovalDenied);
    assert_eq!(gate_before_transport(&denied, Some(true)).expect_err("denied").kind(), McpErrorKind::PolicyDenied);
}

#[test]
fn public_events_carry_only_labels() {
    let event = PublicToolEvent::new(
        "repo-read".to_owned(),
        ToolLifecycle::Succeeded,
        "ok".to_owned(),
        "attempt-1".to_owned(),
        "corr-1".to_owned(),
    );
    assert!(event.policy_source.is_none());
    let event = event
        .with_policy_source(PolicySource::EffectClass)
        .with_error_kind(McpErrorKind::ResponseTooLarge);
    assert_eq!(event.policy_source.as_deref(), Some("effect_class"));
    assert_eq!(event.error_kind.as_deref(), Some("response_too_large"));
    assert_eq!(event.tool_name, "repo-read");
    let fact = ToolAuditFact { event: event.clone(), transport: Some(transport_name(McpTransport::Http)) };
    assert_eq!(fact.transport, Some("http"));
    assert!(contains_marker("token=sk-secret", &["sk-secret", "other"]));
    assert!(!contains_marker("public text", &["sk-secret"]));
    assert!(!contains_marker("anything", &[]));
}

#[test]
fn gateway_labels() {
    assert_eq!(permission_label(PermissionMode::ApprovalRequired), "approval-required");
    assert_eq!(transport_name(McpTransport::Stdio), "stdio");
    assert_eq!(user_deny_authoritative(), PolicySource::User);
    assert_eq!(gate_refusal_lifecycle(McpErrorKind::ApprovalRequired), ToolLifecycle::ApprovalRequired);
    assert_eq!(gate_refusal_lifecycle(McpErrorKind::PolicyDenied), ToolLifecycle::Denied);
    assert_eq!(gate_refusal_lifecycle(McpErrorKind::Timeout), ToolLifecycle::Failed);
    assert_eq!(transport_failure_lifecycle(McpErrorKind::OutcomeUnknown), ToolLifecycle::OutcomeUnknown);
    assert_eq!(transport_failure_lifecycle(McpErrorKind::TransportFailed), ToolLifecycle::Failed);
}

#[test]
fn stdio_rules() {
    assert_eq!(cancel_after_start().kind(), outcome_unknown().kind());
    assert_eq!(
        private_runtime_dir("/run/user/1".to_owned(), "ws", "repo"),
        "/run/user/1/mcp/ws/repo"
    );
    let report = shutdown_report(true, false, true);
    assert!(!report.reaped);
    assert!(report.forced);
}

#[test]
fn rejects_parent_traversal_in_executable() {
    let error = check_mcp_executable_path("/tmp/../etc/passwd");
    assert!(error.is_err());
    assert_eq!(
        check_mcp_executable_path("relative/server"),
        Err("MCP executable must be an absolute path without parent traversal")
    );
    assert_eq!(check_mcp_executable_path("/opt/mcp/server"), Ok(()));
    assert_eq!(check_mcp_executable_path("/opt/..mcp/server"), Ok(()));
}

fn kind_of(result: Result<JsonValue, McpError>) -> McpErrorKind {
    result.expect_err("refused").kind()
}

#[test]
fn http_responses_are_framed_sized_and_pinned() {
    let identity = HttpIdentity::parse("http://127.0.0.1:9/mcp").expect("identity");
    let ok = b"HTTP/1.1 200 OK\r\nContent-Type: application/json\r\n\r\n{\"jsonrpc\":\"2.0\",\"id\":1,\"result\":{\"ok\":true}}";
    assert_eq!(
        parse_http_response(ok, &identity, 1024).expect("result"),
        object(vec![("ok", JsonValue::Bool(true))])
    );
    let bare = b"HTTP/1.1 200 OK\r\n\r\n{\"plain\":1}";
    assert_eq!(
        parse_http_response(bare, &identity, 1024).expect("whole reply"),
        object(vec![("plain", JsonValue::Number("1".to_owned()))])
    );
    let null_result = b"HTTP/1.1 200 OK\r\n\r\n{\"id\":1,\"result\":null}";
    assert_eq!(parse_http_response(null_result, &identity, 1024).expect("null result"), JsonValue::Null);
    let failed = b"HTTP/1.1 200 OK\r\n\r\n{\"error\":{\"code\":1}}";
    assert_eq!(kind_of(parse_http_response(failed, &identity, 1024)), McpErrorKind::TransportFailed);
    assert_eq!(kind_of(parse_http_response(ok, &identity, 10)), McpErrorKind::ResponseTooLarge);
    assert_eq!(kind_of(parse_http_response(b"HTTP/1.1 200 OK\r\n{}", &identity, 1024)), McpErrorKind::TransportFailed);
    assert_eq!(kind_of(parse_http_response(b"\xff\r\n\r\n{}", &identity, 1024)), McpErrorKind::TransportFailed);
    assert_eq!(kind_of(parse_http_response(b"\r\n\r\n{}", &identity, 1024)), McpErrorKind::TransportFailed);
    assert_eq!(kind_of(parse_http_response(b"HTTP/1.1 200 OK\r\n\r\nnot json", &identity, 1024)), McpErrorKind::TransportFailed);
}

#[test]
fn redirects_never_leave_the_pinned_endpoint() {
    let identity = HttpIdentity::parse("http://127.0.0.1:9/mcp").expect("identity");
    let away = b"HTTP/1.1 302 Found\r\nLOCATION: http://attacker.example/steal\r\n\r\n";
    assert_eq!(kind_of(parse_http_response(away, &identity, 1024)), McpErrorKind::RedirectRejected);
    let pinned = b"HTTP/1.1 307 Temporary Redirect\r\nServer: x\r\nLocation:  http://127.0.0.1:9/other \r\n\r\n";
    assert_eq!(kind_of(parse_http_response(pinned, &identity, 1024)), McpErrorKind::TransportFailed);
    let nowhere = b"HTTP/1.1 301 Moved\r\n\r\n";
    assert_eq!(kind_of(parse_http_response(nowhere, &identity, 1024)), McpErrorKind::RedirectRejected);
    let body = http_response_verdict(b"HTTP/1.1 200 OK\r\n\r\n{}", &identity, 2).expect("body");
    assert_eq!(body, "{}");
}

#[test]
fn request_heads_name_the_pinned_path_and_length() {
    let identity = HttpIdentity::parse("http://127.0.0.1:9/mcp").expect("identity");
    assert_eq!(
        http_request_head(&identity, 42),
        "POST /mcp HTTP/1.1\r\nHost: 127.0.0.1\r\nContent-Type: application/json\r\nContent-Length: 42\r\nConnection: close\r\n\r\n"
    );
}

fn text(s: &str) -> JsonValue {
    JsonValue::Text(s.to_owned())
}

fn object(members: Vec<(&str, JsonValue)>) -> JsonValue {
    JsonValue::Object(members.into_iter().map(|(k, v)| (k.to_owned(), v)).collect())
}

#[test]
fn scrubbing_redacts_sensitive_keys_at_every_depth() {
    let mut tree = object(vec![
        ("tool", text("repo-read")),
        ("arguments", object(vec![("path", text("/etc/passwd"))])),
        (
            "nested",
            object(vec![
                ("token", JsonValue::Number("42".to_owned())),
                ("ok", JsonValue::Bool(true)),
            ]),
        ),
        (
            "list",
            JsonValue::Array(vec![
                object(vec![("url", text("http://127.0.0.1:9/mcp")), ("n", JsonValue::Null)]),
                text("plain"),
            ]),
        ),
        ("credential_ref", JsonValue::Null),
    ]);
    scrub_value(&mut tree);
    let expected = object(vec![
        ("tool", text("repo-read")),
        ("arguments", text("[redacted]")),
        (
            "nested",
            object(vec![("token", text("[redacted]")), ("ok", JsonValue::Bool(true))]),
        ),
        (
            "list",
            JsonValue::Array(vec![
                object(vec![("url", text("[redacted]")), ("n", JsonValue::Null)]),
                text("plain"),
            ]),
        ),
        ("credential_ref", text("[redacted]")),
    ]);
    assert_eq!(tree, expected);
}

#[test]
fn scrubbing_twice_changes_nothing_more() {
    let mut tree = object(vec![
        ("secret", text("hunter2")),
        ("inner", object(vec![("password", text("pw")), ("keep", text("k"))])),
    ]);
    scrub_value(&mut tree);
    let once = tree.clone();
    scrub_value(&mut tree);
    assert_eq!(tree, once);
}

#[test]
fn scrubbing_leaves_scalars_alone() {
    let mut value = text("token");
    scrub_value(&mut value);
    assert_eq!(value, text("token"));
}

#[test]
fn fake_rejects_oversized_response() {
    let identity = HttpIdentity::parse("http://127.0.0.1:9/mcp").expect("identity");
    let err = fake_http_invoke(FakeHttpMode::Oversized { bytes: 8_192 }, &identity, 4_096)
        .expect_err("oversized");
    assert_eq!(err.kind(), McpErrorKind::ResponseTooLarge);
}

#[test]
fn fake_rejects_unpinned_redirect() {
    let identity = HttpIdentity::parse("http://127.0.0.1:9/mcp").expect("identity");
    let err = fake_http_invoke(
        FakeHttpMode::Redirect { location: "http://evil.example/mcp".to_owned() },
        &identity,
        4_096,
    )
    .expect_err("redirect");
    assert_eq!(err.kind(), McpErrorKind::RedirectRejected);
}

#[test]
fn fake_answers_each_mode() {
    let identity = HttpIdentity::parse("http://127.0.0.1:9/mcp").expect("identity");
    let body = object(vec![("value", JsonValue::Number("3".to_owned()))]);
    let reply = fake_http_invoke(
        FakeHttpMode::Success { body: body.clone(), encoded_len: 11 },
        &identity,
        4_096,
    )
    .expect("small reply");
    assert_eq!(reply, body);
    let err = fake_http_invoke(
        FakeHttpMode::Success { body, encoded_len: 4_097 },
        &identity,
        4_096,
    )
    .expect_err("large reply");
    assert_eq!(err.kind(), McpErrorKind::ResponseTooLarge);
    let small = fake_http_invoke(FakeHttpMode::Oversized { bytes: 10 }, &identity, 4_096).expect("ok");
    assert_eq!(small, object(vec![("ok", JsonValue::Bool(true))]));
    let redirected = fake_http_invoke(
        FakeHttpMode::Redirect { location: "http://127.0.0.1:9/other".to_owned() },
        &identity,
        4_096,
    )
    .expect("pinned redirect");
    assert_eq!(
        redirected,
        object(vec![("ok", JsonValue::Bool(true)), ("redirected", JsonValue::Bool(true))])
    );
    let hang = fake_http_invoke(FakeHttpMode::Hang, &identity, 4_096).expect_err("hang");
    assert_eq!(hang.kind(), McpErrorKind::Timeout);
    assert_eq!(hang.message(), "MCP HTTP call timed out");
    let failed = fake_http_invoke(FakeHttpMode::TransportError, &identity, 4_096).expect_err("fail");
    assert_eq!(failed.kind(), McpErrorKind::TransportFailed);
}

#[test]
fn finished_calls_report_success_unknown_outcome_or_failure() {
    let (event, result) = finish_outcome(
        "repo-read".to_owned(),
        "attempt-1".to_owned(),
        "corr-1".to_owned(),
        Ok(JsonValue::Bool(true)),
    );
    assert_eq!(event.lifecycle, ToolLifecycle::Succeeded);
    assert_eq!(event.outcome, "ok");
    assert_eq!(event.error_kind, None);
    assert_eq!(result.expect("success"), Some(JsonValue::Bool(true)));

    let (event, result) = finish_outcome(
        "repo-read".to_owned(),
        "attempt-2".to_owned(),
        "corr-2".to_owned(),
        Err(outcome_unknown()),
    );
    assert_eq!(event.lifecycle, ToolLifecycle::OutcomeUnknown);
    assert_eq!(event.error_kind.as_deref(), Some("outcome_unknown"));
    assert_eq!(result.expect("unknown is no error"), None);

    let (event, result) = finish_outcome(
        "repo-read".to_owned(),
        "attempt-3".to_owned(),
        "corr-3".to_owned(),
        Err(unavailable()),
    );
    assert_eq!(event.lifecycle, ToolLifecycle::Failed);
    assert_eq!(event.error_kind.as_deref(), Some("unavailable"));
    assert_eq!(event.attempt_id, "attempt-3");
    assert_eq!(result.expect_err("failure").kind(), McpErrorKind::Unavailable);
}

#[test]
fn a_refused_call_is_audited_as_planned_then_refused() {
    let decision = PolicyDecision {
        mode: PermissionMode::ApprovalRequired,
        authoritative_source: PolicySource::Repository,
    };
    let (facts, result) = gate_invocation("repo-write", "attempt-1", "corr-1", &decision, None);
    assert_eq!(result.expect_err("approval").kind(), McpErrorKind::ApprovalRequired);
    assert_eq!(facts.len(), 2);
    assert_eq!(facts[0].event.lifecycle, ToolLifecycle::Planned);
    assert_eq!(facts[0].event.policy_source.as_deref(), Some("repository"));
    assert_eq!(facts[1].event.lifecycle, ToolLifecycle::ApprovalRequired);
    assert_eq!(facts[1].event.error_kind.as_deref(), Some("approval_required"));
    assert!(facts.iter().all(|fact| fact.transport.is_none()));

    let denied = PolicyDecision { mode: PermissionMode::Denied, authoritative_source: PolicySource::User };
    let (facts, result) = gate_invocation("repo-write", "attempt-2", "corr-2", &denied, Some(true));
    assert_eq!(result.expect_err("denied").kind(), McpErrorKind::PolicyDenied);
    assert_eq!(facts[1].event.lifecycle, ToolLifecycle::Denied);

    let open = PolicyDecision { mode: PermissionMode::ReadOnly, authoritative_source: PolicySource::BuiltIn };
    let (facts, result) = gate_invocation("repo-read", "attempt-3", "corr-3", &open, None);
    assert!(result.is_ok());
    assert_eq!(facts.len(), 1);
}

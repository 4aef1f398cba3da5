use std::time::Duration;

use workbench::daemon::providers::{
    CANCELLATION_FINALIZATION_RESERVE_NANOS, ProviderRuntimeError, check_snapshot_source,
    normalize_grok_version, provider_cancellation_budget, require_locked_digest,
};
use workbench::daemon::runtime_paths::{
    PathSpendStore, RuntimePathError, RuntimePaths, reject_unmigrated_legacy_database,
    require_safe_absolute, verify_lock_file, verify_private_directory,
    workspace_id_for_canonical_utf8,
};
use workbench::daemon::session::{ClientContext, FakeBehavior};
use workbench::daemon::telemetry::{
    BoundedTelemetry, ExternalTelemetryExport, RouteRule, TelemetryError, TelemetryOutcome,
    increment,
};
use workbench::daemon::workflow::{
    WorkflowPhase, content_has_findings, effective_step_tools, findings_step_index, phase_name,
    step_max_iterations,
};

fn client() -> ClientContext {
    ClientContext {
        uid: 1_000,
        client_name: "test".to_owned(),
    }
}

#[test]
fn audit_actor_uses_only_the_verified_peer_uid() {
    assert_eq!(client().actor(), "local-user:1000");
    let spoofed = ClientContext {
        uid: 1_000,
        client_name: "local-user:0".to_owned(),
    };
    assert_eq!(spoofed.actor(), "local-user:1000");
}

#[test]
fn actor_renders_zero_and_largest_uid() {
    let root = ClientContext { uid: 0, client_name: String::new() };
    assert_eq!(root.actor(), "local-user:0");
    let largest = ClientContext { uid: u32::MAX, client_name: String::new() };
    assert_eq!(largest.actor(), "local-user:4294967295");
}

#[test]
fn fake_behavior_defaults() {
    let behavior = FakeBehavior::default();
    assert_eq!(behavior.response_delay_nanos, Duration::from_millis(10).as_nanos());
    assert!(behavior.confirms_cancellation);
    assert_eq!(behavior.cancellation_deadline_nanos, Duration::from_secs(5).as_nanos());
}

#[test]
fn normalizes_grok_version_without_the_mutable_channel_label() {
    assert_eq!(
        normalize_grok_version(b"grok 0.2.7 (95d84f) [stable]\n").expect("version"),
        "0.2.7 (95d84f)"
    );
    assert_eq!(
        normalize_grok_version(b"grok 0.2.7-test\n").expect("version"),
        "0.2.7-test"
    );
}

#[test]
fn rejects_multiline_or_unbounded_version_output() {
    assert!(normalize_grok_version(b"grok 1\ngrok 2\n").is_err());
    assert!(normalize_grok_version(format!("grok {}", "a".repeat(256)).as_bytes()).is_err());
}

#[test]
fn version_probe_rejects_other_outputs() {
    for bytes in [
        &b""[..],
        b"   \n",
        b"\xff\xfe",
        b"grok",
        b"grok ",
        b"other 1.0",
        b"grok 1\x07",
    ] {
        assert!(
            matches!(
                normalize_grok_version(bytes),
                Err(ProviderRuntimeError::Probe("adapter version probe failed"))
            ),
            "{bytes:?}"
        );
    }
    assert_eq!(normalize_grok_version(b"grok [x]").expect("version"), "[x]");
    assert_eq!(normalize_grok_version(b"grok  [stable]").expect("version"), " [stable]");
    assert_eq!(normalize_grok_version(b"  grok 2.0 [beta] \r\n").expect("version"), "2.0");
    assert_eq!(normalize_grok_version(b"grok 2.0 [beta").expect("version"), "2.0 [beta");
    assert_eq!(normalize_grok_version(format!("grok {}", "a".repeat(255)).as_bytes())
        .expect("version").len(), 255);
}

#[test]
fn provider_cancellation_budget_preserves_the_public_deadline() {
    let public_deadline = Duration::from_secs(5).as_nanos();
    let provider_budget =
        provider_cancellation_budget(public_deadline).expect("provider cancellation budget");
    assert_eq!(provider_budget, Duration::from_millis(4_500).as_nanos());
    assert_eq!(
        provider_budget + CANCELLATION_FINALIZATION_RESERVE_NANOS,
        public_deadline
    );
    assert!(
        provider_cancellation_budget(CANCELLATION_FINALIZATION_RESERVE_NANOS).is_err(),
        "the finalization reserve must not underflow the provider budget"
    );
}

#[test]
fn cancellation_budget_below_the_reserve_is_incompatible() {
    assert!(matches!(
        provider_cancellation_budget(0),
        Err(ProviderRuntimeError::Incompatible(
            "cancellation deadline leaves no finalization budget"
        ))
    ));
    assert_eq!(
        provider_cancellation_budget(CANCELLATION_FINALIZATION_RESERVE_NANOS + 1).expect("budget"),
        1
    );
}

#[test]
fn snapshot_checks_follow_the_lock() {
    assert!(require_locked_digest("abc", "abc").is_ok());
    assert!(matches!(
        require_locked_digest("abc", "abd"),
        Err(ProviderRuntimeError::Incompatible("ACP executable differs from the lock"))
    ));
    assert!(check_snapshot_source(true, 7, 7, 0o700).is_ok());
    assert!(matches!(check_snapshot_source(false, 7, 7, 0o700), Err(ProviderRuntimeError::Snapshot)));
    assert!(matches!(check_snapshot_source(true, 8, 7, 0o700), Err(ProviderRuntimeError::Snapshot)));
    assert!(matches!(check_snapshot_source(true, 7, 7, 0o720), Err(ProviderRuntimeError::Snapshot)));
    assert!(matches!(check_snapshot_source(true, 7, 7, 0o600), Err(ProviderRuntimeError::Snapshot)));
}

#[test]
fn external_export_is_explicitly_disabled_by_default() {
    let telemetry = BoundedTelemetry::default();

    assert_eq!(
        telemetry.snapshot().external_export(),
        ExternalTelemetryExport::Disabled
    );
}

#[test]
fn unavailable_external_export_fails_closed() {
    let error = BoundedTelemetry::initialize(ExternalTelemetryExport::Otlp)
        .expect_err("unavailable exporter must fail");

    assert_eq!(error, TelemetryError::ExternalExporterUnavailable);
}

#[test]
fn records_only_fixed_route_and_attempt_labels() {
    let mut telemetry = BoundedTelemetry::default();

    telemetry.record_route("explicit", "success");
    telemetry.record_route("explicit", "success");
    telemetry.record_route("coordinator", "denied");
    telemetry.record_attempt("failed");

    let snapshot = telemetry.snapshot();
    assert_eq!(
        snapshot.route_decisions(RouteRule::Explicit, TelemetryOutcome::Success),
        2
    );
    assert_eq!(
        snapshot.route_decisions(RouteRule::Coordinator, TelemetryOutcome::Denied),
        1
    );
    assert_eq!(snapshot.attempts(TelemetryOutcome::Failed), 1);
    assert_eq!(snapshot.rejected_records(), 0);
}

#[test]
fn rejects_unknown_labels_without_retaining_them() {
    let mut telemetry = BoundedTelemetry::default();

    telemetry.record_route("session-01999999", "success");
    telemetry.record_route("explicit", "request-01999999");
    telemetry.record_attempt("prompt-body");

    let snapshot = telemetry.snapshot();
    assert_eq!(
        snapshot.route_decisions(RouteRule::Explicit, TelemetryOutcome::Success),
        0
    );
    assert_eq!(snapshot.attempts(TelemetryOutcome::Success), 0);
    assert_eq!(snapshot.rejected_records(), 3);
}

#[test]
fn counters_saturate_instead_of_wrapping() {
    let mut counter = u64::MAX;

    increment(&mut counter);

    assert_eq!(counter, u64::MAX);
}

#[test]
fn every_label_pair_has_its_own_counter() {
    let rules = [
        ("explicit", RouteRule::Explicit),
        ("workflow", RouteRule::Workflow),
        ("resolver", RouteRule::Resolver),
        ("coordinator", RouteRule::Coordinator),
        ("clarification", RouteRule::Clarification),
    ];
    let outcomes = [
        ("success", TelemetryOutcome::Success),
        ("denied", TelemetryOutcome::Denied),
        ("failed", TelemetryOutcome::Failed),
        ("cancelled", TelemetryOutcome::Cancelled),
        ("abandoned", TelemetryOutcome::Abandoned),
        ("timeout", TelemetryOutcome::Timeout),
        ("outcome_unknown", TelemetryOutcome::OutcomeUnknown),
        ("client_lagged", TelemetryOutcome::ClientLagged),
    ];
    let mut telemetry = BoundedTelemetry::initialize(ExternalTelemetryExport::Disabled)
        .expect("local telemetry");
    for (i, (rule_label, _)) in rules.iter().enumerate() {
        for (j, (outcome_label, _)) in outcomes.iter().enumerate() {
            for _ in 0..(i * 8 + j) {
                telemetry.record_route(rule_label, outcome_label);
            }
        }
    }
    for (j, (outcome_label, _)) in outcomes.iter().enumerate() {
        for _ in 0..j {
            telemetry.record_attempt(outcome_label);
        }
    }
    let snapshot = telemetry.snapshot();
    for (i, (_, rule)) in rules.iter().enumerate() {
        for (j, (_, outcome)) in outcomes.iter().enumerate() {
            assert_eq!(snapshot.route_decisions(*rule, *outcome), (i * 8 + j) as u64);
        }
    }
    for (j, (_, outcome)) in outcomes.iter().enumerate() {
        assert_eq!(snapshot.attempts(*outcome), j as u64);
    }
    assert_eq!(snapshot.rejected_records(), 0);
    assert_eq!(TelemetryError::ExternalExporterUnavailable.message(),
        "OTLP telemetry export was requested but no exporter is available");
}

#[test]
fn step_tools_intersect_role_grant() {
    let role = vec!["a".to_owned(), "b".to_owned(), "c".to_owned()];
    assert_eq!(
        effective_step_tools(&role, &["b".to_owned()]),
        vec!["b".to_owned()]
    );
    assert_eq!(effective_step_tools(&role, &[]), role);
}

#[test]
fn step_tools_keep_role_order_and_drop_unknown_tools() {
    let role = vec!["c".to_owned(), "a".to_owned(), "b".to_owned()];
    let step = vec!["b".to_owned(), "c".to_owned(), "z".to_owned()];
    assert_eq!(effective_step_tools(&role, &step), vec!["c".to_owned(), "b".to_owned()]);
    assert!(effective_step_tools(&[], &step).is_empty());
}

#[test]
fn workflow_step_rules() {
    assert!(content_has_findings("done; findings_present=true; more"));
    assert!(!content_has_findings("findings_present=false"));
    assert_eq!(step_max_iterations(None), 1);
    assert_eq!(step_max_iterations(Some(0)), 1);
    assert_eq!(step_max_iterations(Some(2)), 2);
    assert_eq!(step_max_iterations(Some(99)), 8);
    let steps = vec!["specify".to_owned(), "review".to_owned()];
    assert_eq!(findings_step_index(&steps, Some("specify")), Some(0));
    assert_eq!(findings_step_index(&steps, Some("missing")), None);
    assert_eq!(findings_step_index(&steps, None), None);
    assert_eq!(phase_name(WorkflowPhase::AwaitingHuman), "awaiting_human");
    assert_eq!(phase_name(WorkflowPhase::Planned), "planned");
}

#[test]
fn workspace_id_matches_the_cross_client_sha256_vector() {
    assert_eq!(
        workspace_id_for_canonical_utf8("/workspace/example"),
        "daf6640544250076b29c16531feb382e"
    );
}

#[test]
fn distinct_roots_have_distinct_workspace_ids() {
    let first = workspace_id_for_canonical_utf8("/workspace/first");
    let second = workspace_id_for_canonical_utf8("/workspace/second");
    assert_eq!(first.len(), 32);
    assert_ne!(first, second);
}

#[test]
fn runtime_paths_are_derived_from_safe_roots() {
    let paths = RuntimePaths::from_parts(
        "/root/config/config.yaml".to_owned(),
        "/root/state".to_owned(),
        "/root/runtime/".to_owned(),
    )
    .expect("valid paths");
    assert_eq!(paths.database_file, "/root/state/workbench.sqlite3");
    assert_eq!(paths.daemon_lock, "/root/state/daemon.lock");
    assert_eq!(paths.endpoint, "/root/runtime/workbench.sock");
    assert!(matches!(
        RuntimePaths::from_parts("config.yaml".to_owned(), "/s".to_owned(), "/r".to_owned()),
        Err(RuntimePathError::UnsafePath(path)) if path == "config.yaml"
    ));
    assert!(matches!(
        RuntimePaths::from_parts("/c".to_owned(), "/s/../x".to_owned(), "/r".to_owned()),
        Err(RuntimePathError::UnsafePath(path)) if path == "/s/../x"
    ));
    assert!(require_safe_absolute("/a/..b/c").is_ok());
    assert!(require_safe_absolute("/a/../c").is_err());
}

#[test]
fn distinct_repositories_have_isolated_runtime_paths() {
    let first_id = workspace_id_for_canonical_utf8("/root/first-repository");
    let second_id = workspace_id_for_canonical_utf8("/root/second-repository");
    let first = RuntimePaths::from_workspace_parts(
        "/root/config/config.yaml".to_owned(),
        "/root/state",
        "/root/runtime".to_owned(),
        &first_id,
    )
    .expect("first paths");
    let second = RuntimePaths::from_workspace_parts(
        "/root/config/config.yaml".to_owned(),
        "/root/state",
        "/root/runtime".to_owned(),
        &second_id,
    )
    .expect("second paths");

    assert_eq!(first.configuration_file, second.configuration_file);
    assert_ne!(first.state_directory, second.state_directory);
    assert_ne!(first.database_file, second.database_file);
    assert_ne!(first.daemon_lock, second.daemon_lock);
    assert_ne!(first.endpoint, second.endpoint);
    assert_eq!(first.endpoint_directory, second.endpoint_directory);
    assert_eq!(first.endpoint, format!("/root/runtime/{first_id}.sock"));
    assert_eq!(first.state_directory, format!("/root/state/{first_id}"));
}

#[test]
fn legacy_global_database_requires_explicit_workspace_migration() {
    assert!(matches!(
        reject_unmigrated_legacy_database(true, false),
        Err(RuntimePathError::LegacyStateRequiresMigration)
    ));
    assert!(reject_unmigrated_legacy_database(true, true).is_ok());
    assert!(reject_unmigrated_legacy_database(false, false).is_ok());
}

#[test]
fn private_directory_and_lock_rules() {
    assert!(verify_private_directory("/d", false, true, 5, 5, 0o700).is_ok());
    assert!(matches!(verify_private_directory("/d", true, true, 5, 5, 0o700),
        Err(RuntimePathError::SymbolicLink(p)) if p == "/d"));
    assert!(matches!(verify_private_directory("/d", false, false, 5, 5, 0o700),
        Err(RuntimePathError::UnsafePath(_))));
    assert!(matches!(verify_private_directory("/d", false, true, 6, 5, 0o700),
        Err(RuntimePathError::UnexpectedOwner(_))));
    assert!(matches!(verify_private_directory("/d", false, true, 5, 5, 0o755),
        Err(RuntimePathError::BroadPermissions(_))));
    assert!(verify_lock_file("/l", false, true, 5, 5, 0o666).is_ok());
    assert!(matches!(verify_lock_file("/l", true, true, 5, 5, 0o666),
        Err(RuntimePathError::BroadPermissions(_))));
    assert!(matches!(verify_lock_file("/l", true, false, 5, 5, 0o600),
        Err(RuntimePathError::UnsafePath(_))));
    let _store = PathSpendStore::new("/root/state/workbench.sqlite3".to_owned());
}

use std::cell::RefCell;
use std::collections::HashMap;

use workbench::openrouter::budget::{
    BudgetDecision, CostPolicyConfig, DurableSpendStore, SessionCostLedger, deny_error,
    estimate_attempt_usd_micros, evaluate_budget,
};
use workbench::openrouter::error::{OpenRouterError, OpenRouterErrorKind};
use workbench::openrouter::attempts::{AttemptSlot, CancellationStatus};
use workbench::openrouter::platform_secret::PlatformSecretSource;
use workbench::json::JsonValue;
use workbench::openrouter::protocol::{
    SseFrame, UsageSummary, check_body_size, decode_frames, done_marker, normalize_frame,
    split_sse_data, usage_with_estimate, normalize_sse_data, try_normalize_sse_data, decode_body,
    try_decode_body,
};
use workbench::failure::FailureCategory;
use workbench::openrouter::adapter::{ProviderOutput, begin_prompt, finish_prompt, transport_outcome};
use workbench::openrouter::transport::{
    FakeHttpMode, FakeOpenRouterTransport, MAX_BODY_BYTES, fake_exchange, parse_live_endpoint, split_http_body,
};

const SESSION: u128 = 0x0190_0000_0000_7000_8000_0000_0000_0001;
const OTHER: u128 = 0x0190_0000_0000_7000_8000_0000_0000_0002;

#[test]
fn denies_when_session_budget_is_exhausted() {
    let mut ledger = SessionCostLedger::new();
    ledger.seed_spend(SESSION, 1_000_000);
    let decision = evaluate_budget(
        CostPolicyConfig {
            max_session_usd_micros: 1_000_000,
            max_attempt_usd_micros: Some(10_000),
        },
        &ledger,
        SESSION,
        1,
    );
    assert_eq!(decision, BudgetDecision::DenySession);
}

#[test]
fn denies_when_attempt_estimate_exceeds_ceiling() {
    let ledger = SessionCostLedger::new();
    let decision = evaluate_budget(
        CostPolicyConfig {
            max_session_usd_micros: 5_000_000,
            max_attempt_usd_micros: Some(5_000),
        },
        &ledger,
        SESSION,
        5_001,
    );
    assert_eq!(decision, BudgetDecision::DenyAttempt);
}

#[test]
fn allows_within_budget_and_records_spend_per_session() {
    let mut ledger = SessionCostLedger::new();
    let decision = evaluate_budget(
        CostPolicyConfig {
            max_session_usd_micros: 1_000_000,
            max_attempt_usd_micros: Some(50_000),
        },
        &ledger,
        SESSION,
        10_000,
    );
    assert_eq!(
        decision,
        BudgetDecision::Allow {
            estimate_usd_micros: 10_000
        }
    );
    assert_eq!(ledger.record_spend(SESSION, 12_345).expect("record"), 12_345);
    assert_eq!(ledger.spend_usd_micros(SESSION), 12_345);
    assert_eq!(ledger.spend_usd_micros(OTHER), 0);
}

struct MemStore {
    rows: RefCell<HashMap<u128, u64>>,
}

impl DurableSpendStore for MemStore {
    fn load_spends(&self) -> Result<Vec<(u128, u64)>, OpenRouterError> {
        Ok(self.rows.borrow().iter().map(|(k, v)| (*k, *v)).collect())
    }

    fn persist_spend(&self, session_id: u128, spend_usd_micros: u64) -> Result<(), OpenRouterError> {
        self.rows.borrow_mut().insert(session_id, spend_usd_micros);
        Ok(())
    }
}

#[test]
fn durable_store_restores_and_persists_spend() {
    let store = MemStore {
        rows: RefCell::new(HashMap::from([(SESSION, 42_000)])),
    };
    let mut ledger = SessionCostLedger::with_durable_store(&store).expect("restore");
    assert_eq!(ledger.spend_usd_micros(SESSION), 42_000);
    assert_eq!(ledger.record_spend_durable(&store, SESSION, 8_000).expect("record"), 50_000);
    assert_eq!(store.rows.borrow().get(&SESSION), Some(&50_000));
}

#[test]
fn budget_errors_and_estimates() {
    assert_eq!(
        estimate_attempt_usd_micros(CostPolicyConfig { max_session_usd_micros: 5, max_attempt_usd_micros: None }),
        5
    );
    assert_eq!(
        estimate_attempt_usd_micros(CostPolicyConfig { max_session_usd_micros: 50_000, max_attempt_usd_micros: None }),
        10_000
    );
    assert!(deny_error(BudgetDecision::Allow { estimate_usd_micros: 1 }).is_ok());
    assert_eq!(deny_error(BudgetDecision::DenySession).expect_err("deny").kind(), OpenRouterErrorKind::BudgetExceeded);
    let mut ledger = SessionCostLedger::new();
    ledger.seed_spend(SESSION, u64::MAX - 1);
    assert_eq!(ledger.record_spend(SESSION, 10).expect("saturates"), u64::MAX);
}

#[test]
fn errors_keep_at_most_256_bytes() {
    let error = OpenRouterError::new(OpenRouterErrorKind::Transport, "x".repeat(300));
    assert_eq!(error.message().len(), 256);
    assert_eq!(error.kind(), OpenRouterErrorKind::Transport);
    let short = OpenRouterError::new(OpenRouterErrorKind::Cancelled, "stop".to_owned());
    assert_eq!(short.message(), "stop");
}

#[test]
fn sse_bodies_split_into_payloads() {
    let payloads = split_sse_data(b"data: {\"a\":1}\r\n\ndata:[DONE]\n\n").expect("split");
    assert_eq!(payloads, vec!["{\"a\":1}".to_owned(), "[DONE]".to_owned()]);
    assert_eq!(split_sse_data(b"  {\"plain\":true}  ").expect("plain"), vec!["{\"plain\":true}".to_owned()]);
    assert!(split_sse_data(b"").expect("empty").is_empty());
    assert_eq!(split_sse_data(b"\xff").expect_err("utf8").kind(), OpenRouterErrorKind::MalformedStream);
}

#[test]
fn live_endpoints_and_http_bodies() {
    let (host, port, path) = parse_live_endpoint("https://openrouter.ai/api/v1").expect("endpoint");
    assert_eq!(host, "openrouter.ai");
    assert_eq!(port, 443);
    assert_eq!(path, "/api/v1/chat/completions");
    assert!(parse_live_endpoint("http://openrouter.ai").is_err());
    assert_eq!(split_http_body(b"HTTP/1.1 200 OK\r\n\r\nbody").expect("body"), b"body");
    assert!(split_http_body(b"no separator").is_err());
}

#[test]
fn platform_references_name_keyring_accounts() {
    assert_eq!(PlatformSecretSource::account_id("platform:openrouter").as_deref(), Some("openrouter"));
    assert_eq!(PlatformSecretSource::account_id("keychain:x").as_deref(), Some("x"));
    assert_eq!(PlatformSecretSource::account_id("env:X"), None);
    let _source = PlatformSecretSource::new();
}

fn text(value: &str) -> JsonValue {
    JsonValue::Text(value.to_owned())
}

fn object(members: Vec<(&str, JsonValue)>) -> JsonValue {
    JsonValue::Object(members.into_iter().map(|(key, value)| (key.to_owned(), value)).collect())
}

fn choice(delta: &str, message: &str) -> JsonValue {
    object(vec![
        ("delta", object(vec![("content", text(delta))])),
        ("message", object(vec![("content", text(message))])),
    ])
}

#[test]
fn normalizes_delta_content() {
    let outputs =
        normalize_sse_data(r#"{"choices":[{"delta":{"content":"hello"}}]}"#).expect("delta");
    assert_eq!(outputs.len(), 1);
    assert_eq!(outputs[0], "hello");
}

#[test]
fn sse_payloads_are_read_as_the_original_reads_them() {
    assert_eq!(normalize_sse_data("  [DONE] \n").expect("done"), Vec::<String>::new());
    let not_json = normalize_sse_data("{not-json}").expect_err("not json");
    assert_eq!(not_json.kind(), OpenRouterErrorKind::MalformedStream);
    assert_eq!(not_json.message(), "OpenRouter stream frame is not valid JSON");
    let reported = normalize_sse_data(r#"{"error":{"message":"rate limited"}}"#).expect_err("error");
    assert_eq!(reported.kind(), OpenRouterErrorKind::Unavailable);
    assert_eq!(reported.message(), "rate limited");
    let silent = normalize_sse_data(r#"{"error":{"code":429}}"#).expect_err("error");
    assert_eq!(silent.message(), "OpenRouter returned an error");
    let missing = normalize_sse_data(r#"{"id":"x"}"#).expect_err("no choices");
    assert_eq!(missing.kind(), OpenRouterErrorKind::MalformedStream);
    let both = normalize_sse_data(
        r#"{"choices":[{"delta":{"content":"a"},"message":{"content":"b"}},{"delta":{"content":""}}]}"#,
    )
    .expect("choices");
    assert_eq!(both, vec!["a".to_owned(), "b".to_owned()]);
    let long = format!("{{\"error\":{{\"message\":\"{}é\"}}}}", "x".repeat(255));
    assert!(try_normalize_sse_data(&long).is_none());
    assert!(try_normalize_sse_data("[DONE]").is_some());
}

#[test]
fn bodies_decode_frame_by_frame() {
    let body = b"data: {\"choices\":[{\"delta\":{\"content\":\"hi\"}}]}\n\ndata: [DONE]\n\n";
    assert_eq!(decode_body(body).expect("body"), (vec!["hi".to_owned()], true));
    let cut = b"data: {\"choices\":[{\"delta\":{\"content\":\"hi\"}}]}\n\n";
    assert_eq!(decode_body(cut).expect("body"), (vec!["hi".to_owned()], false));
    let broken = decode_body(b"data: {not-json}\n\n").expect_err("broken");
    assert_eq!(broken.kind(), OpenRouterErrorKind::MalformedStream);
    let invalid = decode_body(&[0xff, 0xfe]).expect_err("not utf8");
    assert_eq!(invalid.message(), "OpenRouter stream is not valid UTF-8");
    assert!(try_decode_body(body).is_some());
}

#[test]
fn frames_report_errors_and_missing_choices() {
    let frame = object(vec![("choices", JsonValue::Array(vec![choice("Hel", ""), choice("", "lo")]))]);
    assert_eq!(normalize_frame(&frame).expect("frame"), vec!["Hel".to_owned(), "lo".to_owned()]);
    let empty = object(vec![("choices", JsonValue::Array(Vec::new()))]);
    assert!(normalize_frame(&empty).expect("frame").is_empty());
    let missing = object(vec![("id", text("x"))]);
    let error = normalize_frame(&missing).expect_err("no choices");
    assert_eq!(error.kind(), OpenRouterErrorKind::MalformedStream);
    assert_eq!(error.message(), "OpenRouter stream frame is missing choices");
    let reported = object(vec![("error", object(vec![("message", text("rate limited"))]))]);
    let error = normalize_frame(&reported).expect_err("error frame");
    assert_eq!(error.kind(), OpenRouterErrorKind::Unavailable);
    assert_eq!(error.message(), "rate limited");
    let silent = object(vec![("error", object(Vec::new()))]);
    assert_eq!(normalize_frame(&silent).expect_err("error frame").message(), "OpenRouter returned an error");
}

#[test]
fn frames_accumulate_until_the_first_failure() {
    let first = object(vec![("choices", JsonValue::Array(vec![choice("a", "")]))]);
    let second = object(vec![("choices", JsonValue::Array(vec![choice("b", "")]))]);
    let (texts, done) = decode_frames(&[SseFrame::Document(first), SseFrame::Done, SseFrame::Document(second)])
        .expect("stream");
    assert_eq!(texts, vec!["a".to_owned(), "b".to_owned()]);
    assert!(done);
    let (texts, done) = decode_frames(&[]).expect("empty");
    assert!(texts.is_empty() && !done);
    let broken = decode_frames(&[SseFrame::Done, SseFrame::NotJson]).expect_err("not json");
    assert_eq!(broken.message(), "OpenRouter stream frame is not valid JSON");
    assert!(done_marker("  [DONE] "));
    assert!(!done_marker("[done]"));
    assert!(check_body_size(8_388_608).is_ok());
    assert_eq!(check_body_size(8_388_609).expect_err("large").kind(), OpenRouterErrorKind::ResponseTooLarge);
}

#[test]
fn cancel_before_dispatch_refuses_the_attempt() {
    let mut slot = AttemptSlot::new();
    assert_eq!(slot.cancel(7), CancellationStatus::Unconfirmed);
    let error = slot.begin(7).expect_err("refused");
    assert_eq!(error.kind(), OpenRouterErrorKind::Cancelled);
    assert_eq!(error.message(), "OpenRouter attempt was cancelled before dispatch");
    assert!(!slot.is_busy());
    slot.begin(7).expect("a second start is no longer cancelled");
    assert!(slot.is_busy());
}

#[test]
fn cancelling_the_attempt_in_flight_is_confirmed() {
    let mut slot = AttemptSlot::new();
    slot.begin(1).expect("idle slot");
    assert!(!slot.cancel_requested());
    assert_eq!(slot.cancel(2), CancellationStatus::Unconfirmed);
    assert!(!slot.cancel_requested());
    assert_eq!(slot.cancel(1), CancellationStatus::Confirmed);
    assert!(slot.cancel_requested());
    slot.release(1);
    assert!(!slot.is_busy());
}

#[test]
fn a_busy_slot_refuses_another_attempt() {
    let mut slot = AttemptSlot::new();
    slot.begin(1).expect("idle slot");
    let error = slot.begin(2).expect_err("busy");
    assert_eq!(error.kind(), OpenRouterErrorKind::Unavailable);
    assert_eq!(error.message(), "OpenRouter session already has an active attempt");
    slot.release(2);
    assert!(slot.is_busy());
    slot.release(1);
    slot.begin(2).expect("idle again");
}

/// Reads a fake exchange's body as the adapter does, for bodies whose frames
/// carry no JSON document.
fn decode_without_documents(body: &[u8]) -> Result<(Vec<String>, bool), OpenRouterError> {
    check_body_size(body.len())?;
    let frames: Vec<SseFrame> = split_sse_data(body)?
        .iter()
        .map(|payload| {
            if done_marker(payload) {
                SseFrame::Done
            } else {
                assert!(serde_json::from_str::<serde_json::Value>(payload).is_err());
                SseFrame::NotJson
            }
        })
        .collect();
    decode_frames(&frames)
}

#[test]
fn oversized_body_is_rejected() {
    let error = fake_exchange(&FakeHttpMode::Oversized { bytes: MAX_BODY_BYTES + 1 })
        .expect_err("oversized");
    let failure = transport_outcome(Some(error), false).expect_err("oversized");
    assert_eq!(failure.category, FailureCategory::ProviderUnavailable);
}

#[test]
fn malformed_streams_fail_closed() {
    for mode in [FakeHttpMode::InvalidUtf8, FakeHttpMode::TruncatedSse, FakeHttpMode::InvalidJson] {
        let result = fake_exchange(&mode).expect("a body comes back");
        let error = decode_without_documents(&result.body).expect_err("malformed");
        let failure = error.into_provider_failure(false);
        assert!(
            matches!(
                failure.category,
                FailureCategory::ProviderUnavailable | FailureCategory::OutcomeUnknown
            ),
            "unexpected {:?}",
            failure.category
        );
    }
}

#[test]
fn secret_markers_are_not_returned_in_failures() {
    let marker = "SECRET-MARKER-F010";
    let error = fake_exchange(&FakeHttpMode::TransportError).expect_err("transport");
    let failure = transport_outcome(Some(error), false).expect_err("transport");
    assert!(!failure.user_safe_message.contains(marker));
    assert_eq!(failure.user_safe_message, "OpenRouter transport failed");
}

#[test]
fn fake_streams_frame_their_events_and_keep_their_usage() {
    let usage = UsageSummary { prompt_tokens: 8, completion_tokens: 4, cost_usd_micros: 100 };
    let events = vec!["{\"a\":1}".to_owned(), "{\"b\":2}".to_owned()];
    let result = fake_exchange(&FakeHttpMode::Stream { events: events.clone(), usage })
        .expect("stream");
    assert_eq!(
        String::from_utf8(result.body).expect("utf8"),
        "data: {\"a\":1}\n\ndata: {\"b\":2}\n\ndata: [DONE]\n\n"
    );
    assert_eq!(result.usage, usage);
    let cut = fake_exchange(&FakeHttpMode::MidStreamFailure { events }).expect("stream");
    assert_eq!(
        String::from_utf8(cut.body).expect("utf8"),
        "data: {\"a\":1}\n\ndata: {\"b\":2}\n\n"
    );
    assert_eq!(cut.usage, UsageSummary::default());
    let small = fake_exchange(&FakeHttpMode::Oversized { bytes: 3 }).expect("small");
    assert_eq!(small.body, b"xxx".to_vec());
    assert_eq!(small.usage.cost_usd_micros, 1);
}

#[test]
fn usage_estimates_cost_only_when_none_is_reported() {
    let estimated = usage_with_estimate(8, 4, 0);
    assert_eq!(estimated.cost_usd_micros, 10);
    assert_eq!(usage_with_estimate(1, 0, 0).cost_usd_micros, 1);
    assert_eq!(usage_with_estimate(8, 4, 250).cost_usd_micros, 250);
    assert_eq!(usage_with_estimate(u64::MAX, u64::MAX, 0).cost_usd_micros, u64::MAX / 1_000_000 * 2);
}

#[test]
fn fake_transport_counts_calls_and_keeps_the_authorization() {
    let mut fake = FakeOpenRouterTransport::new();
    fake.set_mode("chat".to_owned(), FakeHttpMode::TransportError);
    let error = fake.chat_completion("Bearer k", "m", "p").expect_err("transport");
    assert_eq!(error.kind(), OpenRouterErrorKind::Transport);
    assert_eq!(fake.call_count(), 1);
    assert_eq!(fake.last_authorization().as_deref(), Some("Bearer k"));
}

#[test]
fn offline_stream_completes_and_records_spend() {
    let mut fake = FakeOpenRouterTransport::new();
    let mut slot = AttemptSlot::new();
    let mut ledger = SessionCostLedger::new();
    slot.begin(1).expect("idle slot");
    let answer = fake.chat_completion("Bearer test-key-offline", "test/model", "hello openrouter");
    let items = finish_prompt(&mut slot, &mut ledger, SESSION, 1, answer).expect("stream");
    assert_eq!(
        items,
        vec![
            ProviderOutput::Content {
                event_type: "assistant_message".to_owned(),
                text: "offline ".to_owned()
            },
            ProviderOutput::Content {
                event_type: "assistant_message".to_owned(),
                text: "openrouter".to_owned()
            },
            ProviderOutput::Completed { summary: "openrouter completed".to_owned() },
        ]
    );
    assert_eq!(ledger.spend_usd_micros(SESSION), 100);
    assert_eq!(fake.call_count(), 1);
    assert!(!slot.is_busy());
}

#[test]
fn a_stream_cut_before_its_end_is_an_unknown_outcome() {
    let mut fake = FakeOpenRouterTransport::new();
    fake.set_mode(
        "chat".to_owned(),
        FakeHttpMode::MidStreamFailure {
            events: vec![r#"{"choices":[{"delta":{"content":"partial"}}]}"#.to_owned()],
        },
    );
    let mut slot = AttemptSlot::new();
    let mut ledger = SessionCostLedger::new();
    slot.begin(1).expect("idle slot");
    let answer = fake.chat_completion("Bearer test-key", "test/model", "hello");
    let failure = finish_prompt(&mut slot, &mut ledger, SESSION, 1, answer).expect_err("cut");
    assert_eq!(failure.category, FailureCategory::OutcomeUnknown);
    assert!(!failure.definite);
    assert_eq!(ledger.spend_usd_micros(SESSION), 0);
    assert!(!slot.is_busy());
    slot.begin(2).expect("the slot is free again");
}

#[test]
fn a_cancelled_attempt_is_refused_after_the_transport_answers() {
    let mut fake = FakeOpenRouterTransport::new();
    let mut slot = AttemptSlot::new();
    let mut ledger = SessionCostLedger::new();
    slot.begin(1).expect("idle slot");
    assert_eq!(slot.cancel(1), CancellationStatus::Confirmed);
    let answer = fake.chat_completion("Bearer k", "m", "p");
    let failure = finish_prompt(&mut slot, &mut ledger, SESSION, 1, answer).expect_err("cancelled");
    assert!(failure.definite);
    assert_eq!(failure.user_safe_message, "OpenRouter attempt was cancelled");
    assert_eq!(ledger.spend_usd_micros(SESSION), 0);
    assert!(!slot.is_busy());
}

#[test]
fn prompts_begin_in_the_adapter_order() {
    let allow = BudgetDecision::Allow { estimate_usd_micros: 10 };
    let mut slot = AttemptSlot::new();
    assert_eq!(begin_prompt(&mut slot, 1, Ok("key".to_owned()), allow).expect("starts"), "key");
    assert!(slot.is_busy());
    let busy = begin_prompt(&mut slot, 2, Ok("key".to_owned()), allow).expect_err("busy");
    assert_eq!(busy.user_safe_message, "OpenRouter session already has an active attempt");
    assert!(busy.definite);
    slot.release(1);
    let denied = begin_prompt(&mut slot, 2, Ok("key".to_owned()), BudgetDecision::DenySession)
        .expect_err("budget");
    assert_eq!(denied.category, FailureCategory::PolicyDenied);
    assert!(!slot.is_busy());
    assert_eq!(slot.cancel(3), CancellationStatus::Unconfirmed);
    let cancelled = begin_prompt(&mut slot, 3, Ok("key".to_owned()), allow).expect_err("cancelled");
    assert_eq!(cancelled.user_safe_message, "OpenRouter attempt was cancelled before dispatch");
    assert!(!slot.is_busy());
}

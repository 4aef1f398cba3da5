use bytes::BytesMut;
use serde_json::Value;
use uuid::Uuid;
use workbench::json::JsonValue;
use workbench::protocol::codec::{MAX_FRAME_BYTES, NdjsonCodec, ProtocolCodecError, decode_frame};
use workbench::protocol::command::{
    ApprovalDecision, ApprovalParams, AttachSessionParams, ClientCommand, Command,
    CreateSessionParams, DeleteParams, EmptyParams, ExportParams, InitializeParams,
    ListSessionsParams, PromptParams, ReconciliationParams, ReconciliationResolution,
    RedirectParams, default_session_list_limit, validate_content, validate_identifier,
    validate_output_path,
};
use workbench::protocol::event::{EventKind, SessionEvent};
use workbench::protocol::response::{ErrorCode, ProtocolError, ServerReply};
use workbench::protocol::subscription::{
    MAX_QUEUE_BYTES, SubscriptionError, SubscriptionQueue, replay_after,
};
use workbench::daemon::subscription::{SubscriptionHub, SubscriptionItem};

type Codec = NdjsonCodec<ClientCommand, ClientCommand>;

fn v7() -> u128 {
    Uuid::now_v7().as_u128()
}

fn event(session_id: u128, sequence: u64) -> SessionEvent {
    SessionEvent {
        protocol: "workbench/1".to_owned(),
        event_id: v7(),
        session_id,
        sequence,
        causation_request_id: None,
        kind: EventKind::ProviderEvent,
        occurred_at: "2026-07-23T00:00:00Z".to_owned(),
        data: JsonValue::Object(vec![("content".to_owned(), JsonValue::Text("test".to_owned()))]),
    }
}

/// The JSON encoding of an event, as the daemon writes it.
fn encoded_len(event: &SessionEvent) -> usize {
    let mut object = serde_json::Map::new();
    object.insert("protocol".to_owned(), Value::String(event.protocol.clone()));
    object.insert(
        "event_id".to_owned(),
        Value::String(Uuid::from_u128(event.event_id).to_string()),
    );
    object.insert(
        "session_id".to_owned(),
        Value::String(Uuid::from_u128(event.session_id).to_string()),
    );
    object.insert("sequence".to_owned(), Value::from(event.sequence));
    object.insert("kind".to_owned(), Value::String("provider_event".to_owned()));
    object.insert("occurred_at".to_owned(), Value::String(event.occurred_at.clone()));
    let mut data = serde_json::Map::new();
    data.insert("content".to_owned(), Value::String("test".to_owned()));
    object.insert("data".to_owned(), Value::Object(data));
    serde_json::to_vec(&Value::Object(object)).expect("event encodes").len()
}

#[test]
fn codec_classifies_an_incompatible_protocol_before_command_decoding() {
    let request = Uuid::now_v7();
    let frame = format!(
        "{{\"protocol\":\"workbench/2\",\"request_id\":\"{request}\",\"method\":\"status.get\",\"params\":{{}}}}\n"
    );

    let error = Codec::default()
        .decode(&mut BytesMut::from(frame.as_bytes()))
        .expect_err("incompatible protocol");

    assert!(matches!(error, ProtocolCodecError::UnsupportedVersion));
}

#[test]
fn codec_frames_by_newline_and_bounds_frames() {
    let mut codec = Codec::default();
    let mut source = BytesMut::from(&b"{\"protocol\":\"workbench/1\"}\n{\"a\""[..]);
    let value = codec.decode(&mut source).expect("frame").expect("complete frame");
    assert!(value.is_object());
    assert_eq!(value.member("protocol").and_then(JsonValue::as_text), Some("workbench/1"));
    assert_eq!(&source[..], b"{\"a\"");
    assert!(codec.decode(&mut source).expect("partial").is_none());
    assert!(matches!(codec.decode_eof(&mut source), Err(ProtocolCodecError::IncompleteFrame)));
    assert!(source.is_empty());
    assert!(codec.decode_eof(&mut source).expect("empty").is_none());

    let mut oversized = BytesMut::from(vec![b' '; MAX_FRAME_BYTES + 1].as_slice());
    assert!(matches!(codec.decode(&mut oversized), Err(ProtocolCodecError::FrameTooLarge)));
    assert!(oversized.is_empty());

    let mut trailing = BytesMut::from(&b"{}{}\n"[..]);
    assert!(matches!(codec.decode(&mut trailing), Err(ProtocolCodecError::InvalidJson(_))));
    let mut invalid_utf8 = BytesMut::from(&b"{\"bad\":\"\xff\"}\n"[..]);
    assert!(codec.decode(&mut invalid_utf8).is_err());
    assert!(matches!(decode_frame(b"{\"protocol\":7}"), Ok(JsonValue::Object(_))));
    assert!(matches!(decode_frame(b"{\"protocol\":\"workbench/2\"}"), Err(ProtocolCodecError::UnsupportedVersion)));
    assert!(matches!(
        decode_frame(b""),
        Err(ProtocolCodecError::InvalidJson(message)) if message == "empty protocol frame"
    ));

    let mut destination = BytesMut::new();
    codec.encode(Ok(b"{}".to_vec()), &mut destination).expect("encodes");
    assert_eq!(&destination[..], b"{}\n");
    assert!(matches!(
        codec.encode(Err("boom".to_owned()), &mut destination),
        Err(ProtocolCodecError::InvalidJson(message)) if message == "boom"
    ));
    assert!(matches!(
        codec.encode(Ok(vec![b' '; MAX_FRAME_BYTES + 1]), &mut destination),
        Err(ProtocolCodecError::FrameTooLarge)
    ));
    assert_eq!(&destination[..], b"{}\n");
}

#[test]
fn queue_enforces_event_and_byte_limits_and_replay_is_exclusive() {
    let session = v7();
    let events = (1..=3)
        .map(|sequence| event(session, sequence))
        .collect::<Vec<_>>();
    let replayed = replay_after(events.clone(), 1);
    assert_eq!(
        replayed
            .iter()
            .map(|event| event.sequence)
            .collect::<Vec<_>>(),
        [2, 3]
    );

    let mut count_limited = SubscriptionQueue::new(1, usize::MAX);
    count_limited
        .push(events[0].clone(), Some(encoded_len(&events[0])))
        .expect("first event");
    assert_eq!(
        count_limited.push(events[1].clone(), Some(encoded_len(&events[1]))),
        Err(SubscriptionError::ClientLagged)
    );
    assert!(count_limited.is_closed());

    let event_bytes = encoded_len(&events[0]) + 1;
    let mut byte_limited = SubscriptionQueue::new(10, event_bytes);
    byte_limited
        .push(events[0].clone(), Some(encoded_len(&events[0])))
        .expect("fits exactly");
    assert_eq!(
        byte_limited.push(events[1].clone(), Some(encoded_len(&events[1]))),
        Err(SubscriptionError::ClientLagged)
    );
}

#[test]
fn queue_pops_in_order_and_refuses_after_closing() {
    let session = v7();
    let mut queue = SubscriptionQueue::default();
    assert!(queue.is_empty());
    queue.push(event(session, 1), Some(10)).expect("first");
    queue.push(event(session, 2), Some(20)).expect("second");
    assert_eq!(queue.len(), 2);
    assert_eq!(queue.encoded_bytes(), 32);
    assert_eq!(queue.pop().expect("first").sequence, 1);
    assert_eq!(queue.encoded_bytes(), 21);
    assert_eq!(queue.pop().expect("second").sequence, 2);
    assert!(queue.pop().is_none());
    assert_eq!(queue.encoded_bytes(), 0);

    let mut invalid = event(session, 0);
    assert_eq!(queue.push(invalid.clone(), Some(5)), Err(SubscriptionError::Encoding));
    invalid.sequence = 1;
    invalid.data = JsonValue::Null;
    assert_eq!(queue.push(invalid, Some(5)), Err(SubscriptionError::Encoding));
    assert_eq!(queue.push(event(session, 3), None), Err(SubscriptionError::Encoding));

    let mut tiny = SubscriptionQueue::new(0, 100);
    assert_eq!(tiny.push(event(session, 1), Some(1)), Err(SubscriptionError::ClientLagged));
    assert_eq!(tiny.push(event(session, 2), Some(1)), Err(SubscriptionError::Closed));
    assert_eq!(SubscriptionError::ClientLagged.message(), "client_lagged");
    assert_eq!(replay_after(Vec::new(), 0).len(), 0);
}

fn command(command: Command, session_id: Option<u128>) -> Result<ClientCommand, String> {
    ClientCommand::from_wire("workbench/1".to_owned(), v7(), session_id, Ok(command))
}

#[test]
fn commands_enforce_session_scope_and_uuid_versions() {
    let session = v7();
    assert!(command(Command::StatusGet(EmptyParams {}), None).is_ok());
    assert_eq!(
        command(Command::SessionPause(EmptyParams {}), None).expect_err("scope"),
        "session_id is required for this method"
    );
    assert_eq!(
        command(Command::StatusGet(EmptyParams {}), Some(session)).expect_err("scope"),
        "session_id is forbidden for this method"
    );
    let v4 = Uuid::parse_str("550e8400-e29b-41d4-a716-446655440000").expect("UUIDv4").as_u128();
    assert_eq!(
        ClientCommand::from_wire("workbench/1".to_owned(), v4, None, Ok(Command::StatusGet(EmptyParams {})))
            .expect_err("v4"),
        "request_id must be a UUIDv7"
    );
    assert_eq!(
        ClientCommand::from_wire("workbench/2".to_owned(), v7(), None, Ok(Command::StatusGet(EmptyParams {})))
            .expect_err("version"),
        "unsupported protocol major"
    );
    assert_eq!(
        ClientCommand::from_wire("workbench/1".to_owned(), v7(), None, Err("unknown field".to_owned()))
            .expect_err("parse"),
        "unknown field"
    );
}

#[test]
fn every_committed_method_validates_its_parameters() {
    let session = Some(v7());
    let other = v7();
    let cases = [
        (
            Command::Initialize(InitializeParams {
                client_name: "test".to_owned(),
                client_version: "1".to_owned(),
                supported_protocols: vec!["workbench/1".to_owned()],
            }),
            None,
            "initialize",
        ),
        (Command::StatusGet(EmptyParams {}), None, "status.get"),
        (
            Command::SessionCreate(CreateSessionParams { persistent: true, configuration_overrides: None }),
            None,
            "session.create",
        ),
        (
            Command::SessionList(ListSessionsParams { limit: default_session_list_limit(), before_session_id: None }),
            None,
            "session.list",
        ),
        (Command::SessionGet(EmptyParams {}), session, "session.get"),
        (Command::SessionAttach(AttachSessionParams { after_sequence: 0 }), session, "session.attach"),
        (
            Command::SessionPrompt(PromptParams {
                text: "hello".to_owned(),
                explicit_target: Some("planner".to_owned()),
            }),
            session,
            "session.prompt",
        ),
        (Command::SessionPause(EmptyParams {}), session, "session.pause"),
        (Command::SessionResume(EmptyParams {}), session, "session.resume"),
        (
            Command::SessionRedirect(RedirectParams { instruction: "continue".to_owned() }),
            session,
            "session.redirect",
        ),
        (Command::SessionCancel(EmptyParams {}), session, "session.cancel"),
        (
            Command::SessionApprovalResolve(ApprovalParams { approval_id: other, decision: ApprovalDecision::Grant }),
            session,
            "session.approval.resolve",
        ),
        (
            Command::SessionReconcile(ReconciliationParams {
                attempt_id: other,
                resolution: ReconciliationResolution::Retry,
                evidence: None,
            }),
            session,
            "session.reconcile",
        ),
        (
            Command::SessionExport(ExportParams {
                output_path: "/tmp/session.age".to_owned(),
                age_recipients: vec!["age1test".to_owned()],
            }),
            session,
            "session.export",
        ),
        (Command::SessionDelete(DeleteParams { confirm_session_id: other }), session, "session.delete"),
    ];
    for (params, session_id, method) in cases {
        let parsed = command(params, session_id).unwrap_or_else(|error| panic!("{method}: {error}"));
        assert_eq!(parsed.command.method(), method);
    }
}

#[test]
fn parameter_rules_reject_bad_values() {
    assert_eq!(validate_content("", "text").expect_err("empty"), "text must contain 1 to 1048576 bytes");
    assert!(validate_content("x", "text").is_ok());
    assert!(validate_identifier("planner-2").is_ok());
    assert!(validate_identifier("Planner").is_err());
    assert!(validate_identifier("2nd").is_err());
    assert!(validate_identifier(&"a".repeat(64)).is_err());
    assert!(validate_output_path("/tmp/out.age").is_ok());
    assert!(validate_output_path("relative.age").is_err());
    assert!(validate_output_path("/tmp/../etc/out").is_err());
    let session = Some(v7());
    assert_eq!(
        command(Command::SessionList(ListSessionsParams { limit: 0, before_session_id: None }), None)
            .expect_err("limit"),
        "limit must be between 1 and 100"
    );
    assert_eq!(
        command(
            Command::SessionExport(ExportParams {
                output_path: "/tmp/a.age".to_owned(),
                age_recipients: vec!["age1".to_owned(), "age1".to_owned()],
            }),
            session,
        )
        .expect_err("duplicate recipients"),
        "age_recipients must be non-empty, valid, and unique"
    );
    assert_eq!(
        command(
            Command::SessionCreate(CreateSessionParams { persistent: false, configuration_overrides: None }),
            None,
        )
        .expect_err("ephemeral"),
        "feature 001 supports persistent sessions only"
    );
}

#[test]
fn replies_hold_exactly_one_valid_outcome() {
    let request = v7();
    assert!(matches!(
        ServerReply::from_wire("workbench/1", request, true, Some(1_u8), None),
        Ok(ServerReply::Success { result: 1, .. })
    ));
    let error = ProtocolError {
        code: ErrorCode::InvalidRequest,
        message: "bad".to_owned(),
        retryable: true,
        correlation_id: v7(),
    };
    assert_eq!(
        ServerReply::<u8>::from_wire("workbench/1", request, false, None, Some(error.clone()))
            .expect_err("retryable invalid request"),
        "error category cannot be marked retryable"
    );
    assert_eq!(
        ServerReply::<u8>::from_wire("workbench/1", request, true, None, Some(error))
            .expect_err("mismatch"),
        "reply must contain exactly one valid outcome"
    );
}

#[test]
fn publishes_to_multiple_subscribers() {
    let mut hub = SubscriptionHub::new();
    let first = hub.subscribe(0, Vec::new()).expect("subscriber");
    let second = hub.subscribe(0, Vec::new()).expect("subscriber");
    hub.publish(&event(0, 1), Some(64));
    assert!(matches!(hub.next(first), Some(SubscriptionItem::Event(_))));
    assert!(matches!(hub.next(second), Some(SubscriptionItem::Event(_))));
    assert!(hub.next(first).is_none());
}

#[test]
fn subscribers_see_replay_then_their_own_session_only() {
    let mut hub = SubscriptionHub::new();
    let replay = vec![(event(7, 1), Some(10)), (event(7, 2), Some(10))];
    let reader = hub.subscribe(7, replay).expect("subscriber");
    let other = hub.subscribe(8, Vec::new()).expect("subscriber");
    hub.publish(&event(7, 3), Some(10));
    let mut seen = Vec::new();
    while let Some(item) = hub.next(reader) {
        match item {
            SubscriptionItem::Event(e) => seen.push(e.sequence),
            SubscriptionItem::Lagged => panic!("no lag expected"),
        }
    }
    assert_eq!(seen, vec![1, 2, 3]);
    assert!(hub.next(other).is_none());
}

#[test]
fn a_subscriber_that_lags_is_told_and_detached() {
    let mut hub = SubscriptionHub::new();
    let reader = hub.subscribe(1, Vec::new()).expect("subscriber");
    hub.publish(&event(1, 1), Some(MAX_QUEUE_BYTES));
    assert!(matches!(hub.next(reader), Some(SubscriptionItem::Lagged)));
    hub.publish(&event(1, 2), Some(10));
    assert!(hub.next(reader).is_none());
}

#[test]
fn a_replay_the_queue_refuses_registers_nothing() {
    let mut hub = SubscriptionHub::new();
    let refused = hub.subscribe(1, vec![(event(1, 1), None)]);
    assert_eq!(refused.err(), Some(SubscriptionError::Encoding));
    let reader = hub.subscribe(1, Vec::new()).expect("subscriber");
    assert_eq!(reader, 0);
}

#[test]
fn purging_a_session_drops_its_queued_events() {
    let mut hub = SubscriptionHub::new();
    let reader = hub.subscribe(4, vec![(event(4, 1), Some(10))]).expect("subscriber");
    assert_eq!(hub.purge_session(4), Ok(()));
    assert!(hub.next(reader).is_none());
    hub.publish(&event(4, 2), Some(10));
    assert!(hub.next(reader).is_none());
    hub.unsubscribe(reader);
    assert!(hub.next(reader).is_none());
}

//! Session rules of the daemon: the stored event kinds, how a session's
//! history folds into its state, which controls each state accepts, and how
//! daemon failures reach clients.

use std::collections::HashMap;

use vstd::prelude::*;

use crate::json::JsonValue;
use crate::protocol::command::{ApprovalDecision, Command, ReconciliationResolution, needs_session};
use crate::protocol::event::EventKind;
use crate::protocol::ids::{PROTOCOL_V1, parse_uuid, uuid_from_text};
use crate::protocol::response::{
    AttachSessionResult, ErrorCode, InitializeResult, ProtocolError, ProtocolVersion,
    SessionResult, SessionState,
};
use crate::protocol::subscription::SubscriptionError;
use crate::text::{chars_of, decimal, decimal_exec, push_all, str_eq, string_from_chars};

verus! {

/// Timing and cancellation behavior of the offline fake provider.
#[derive(Clone, Copy, Debug)]
pub struct FakeBehavior {
    /// Delay before the fake answers, in nanoseconds.
    pub response_delay_nanos: u128,
    pub confirms_cancellation: bool,
    /// Public cancellation deadline, in nanoseconds.
    pub cancellation_deadline_nanos: u128,
}

impl Default for FakeBehavior {
    /// Answers after 10 ms, confirms cancellation, and gives cancellation
    /// five seconds.
    fn default() -> (r: Self)
        ensures
            r.response_delay_nanos == 10_000_000,
            r.confirms_cancellation,
            r.cancellation_deadline_nanos == 5_000_000_000,
    {
        Self {
            response_delay_nanos: 10_000_000,
            confirms_cancellation: true,
            cancellation_deadline_nanos: 5_000_000_000,
        }
    }
}

/// The verified peer of a client connection.
#[derive(Clone, Debug)]
pub struct ClientContext {
    pub uid: u32,
    pub client_name: String,
}

impl ClientContext {
    /// The audit actor of this client: only its verified user id, never the
    /// name the client chose for itself.
    pub fn actor(&self) -> (r: String)
        ensures
            r@ == "local-user:"@ + decimal(self.uid as nat),
    {
        let mut v = chars_of("local-user:");
        push_all(&mut v, &decimal_exec(self.uid as u64));
        string_from_chars(&v)
    }
}

/// Daemon failures before they are answered as protocol errors.
#[derive(Debug, Clone)]
pub enum DaemonError {
    Recorded(ProtocolError),
    InvalidRequest(&'static str),
    UnsupportedVersion,
    SessionNotFound,
    InvalidTransition,
    CapabilityUnavailable,
    PolicyDenied,
    StorageUnavailable,
    KeyStoreUnavailable,
    ClientLagged,
    Internal,
}

/// Stable names of the protocol error codes.
pub open spec fn error_code_name(code: ErrorCode) -> Seq<char> {
    match code {
        ErrorCode::InvalidRequest => "invalid_request"@,
        ErrorCode::UnsupportedVersion => "unsupported_version"@,
        ErrorCode::FrameTooLarge => "frame_too_large"@,
        ErrorCode::UnauthorizedPeer => "unauthorized_peer"@,
        ErrorCode::SessionNotFound => "session_not_found"@,
        ErrorCode::InvalidTransition => "invalid_transition"@,
        ErrorCode::CapabilityUnavailable => "capability_unavailable"@,
        ErrorCode::PolicyDenied => "policy_denied"@,
        ErrorCode::ApprovalRequired => "approval_required"@,
        ErrorCode::ProviderUnavailable => "provider_unavailable"@,
        ErrorCode::ProviderTimeout => "provider_timeout"@,
        ErrorCode::OutcomeUnknown => "outcome_unknown"@,
        ErrorCode::ClientLagged => "client_lagged"@,
        ErrorCode::StorageUnavailable => "storage_unavailable"@,
        ErrorCode::KeyStoreUnavailable => "key_store_unavailable"@,
        ErrorCode::Internal => "internal"@,
    }
}

/// The protocol code and fixed message of a daemon failure that was not
/// recorded earlier.
pub open spec fn daemon_error_answer(e: DaemonError) -> (ErrorCode, Seq<char>) {
    match e {
        DaemonError::Recorded(p) => (p.code, p.message@),
        DaemonError::InvalidRequest(m) => (ErrorCode::InvalidRequest, m@),
        DaemonError::UnsupportedVersion => (
            ErrorCode::UnsupportedVersion,
            "no compatible protocol version is available"@,
        ),
        DaemonError::SessionNotFound => (ErrorCode::SessionNotFound, "session was not found"@),
        DaemonError::InvalidTransition => (
            ErrorCode::InvalidTransition,
            "session transition is not allowed"@,
        ),
        DaemonError::CapabilityUnavailable => (
            ErrorCode::CapabilityUnavailable,
            "required provider capability is unavailable"@,
        ),
        DaemonError::PolicyDenied => (ErrorCode::PolicyDenied, "effective policy denied the action"@),
        DaemonError::StorageUnavailable => (
            ErrorCode::StorageUnavailable,
            "encrypted storage is unavailable"@,
        ),
        DaemonError::KeyStoreUnavailable => (
            ErrorCode::KeyStoreUnavailable,
            "platform key store is unavailable"@,
        ),
        DaemonError::ClientLagged => (
            ErrorCode::ClientLagged,
            "client exceeded the bounded event queue"@,
        ),
        DaemonError::Internal => (ErrorCode::Internal, "internal daemon failure"@),
    }
}

impl DaemonError {
    /// Stable name of the failure's protocol code, for logs.
    pub fn code_name(&self) -> (r: &'static str)
        ensures
            r@ == error_code_name(daemon_error_answer(*self).0),
    {
        match self {
            Self::Recorded(error) => match error.code {
                ErrorCode::InvalidRequest => "invalid_request",
                ErrorCode::UnsupportedVersion => "unsupported_version",
                ErrorCode::FrameTooLarge => "frame_too_large",
                ErrorCode::UnauthorizedPeer => "unauthorized_peer",
                ErrorCode::SessionNotFound => "session_not_found",
                ErrorCode::InvalidTransition => "invalid_transition",
                ErrorCode::CapabilityUnavailable => "capability_unavailable",
                ErrorCode::PolicyDenied => "policy_denied",
                ErrorCode::ApprovalRequired => "approval_required",
                ErrorCode::ProviderUnavailable => "provider_unavailable",
                ErrorCode::ProviderTimeout => "provider_timeout",
                ErrorCode::OutcomeUnknown => "outcome_unknown",
                ErrorCode::ClientLagged => "client_lagged",
                ErrorCode::StorageUnavailable => "storage_unavailable",
                ErrorCode::KeyStoreUnavailable => "key_store_unavailable",
                ErrorCode::Internal => "internal",
            },
            Self::InvalidRequest(_) => "invalid_request",
            Self::UnsupportedVersion => "unsupported_version",
            Self::SessionNotFound => "session_not_found",
            Self::InvalidTransition => "invalid_transition",
            Self::CapabilityUnavailable => "capability_unavailable",
            Self::PolicyDenied => "policy_denied",
            Self::StorageUnavailable => "storage_unavailable",
            Self::KeyStoreUnavailable => "key_store_unavailable",
            Self::ClientLagged => "client_lagged",
            Self::Internal => "internal",
        }
    }

    /// The protocol error a client receives. A recorded failure is answered
    /// exactly as it was recorded; any other gets its fixed code and message,
    /// is retryable only when storage was unavailable, and carries the fresh
    /// `correlation_id`.
    pub fn into_protocol(self, correlation_id: u128) -> (r: ProtocolError)
        ensures
            self matches DaemonError::Recorded(p) ==> r == p,
            !(self is Recorded) ==> {
                &&& r.code == daemon_error_answer(self).0
                &&& r.message@ == daemon_error_answer(self).1
                &&& r.retryable == (r.code == ErrorCode::StorageUnavailable)
                &&& r.correlation_id == correlation_id
            },
    {
        let (code, message): (ErrorCode, &'static str) = match self {
            Self::Recorded(error) => return error,
            Self::InvalidRequest(message) => (ErrorCode::InvalidRequest, message),
            Self::UnsupportedVersion => (
                ErrorCode::UnsupportedVersion,
                "no compatible protocol version is available",
            ),
            Self::SessionNotFound => (ErrorCode::SessionNotFound, "session was not found"),
            Self::InvalidTransition => (ErrorCode::InvalidTransition, "session transition is not allowed"),
            Self::CapabilityUnavailable => (
                ErrorCode::CapabilityUnavailable,
                "required provider capability is unavailable",
            ),
            Self::PolicyDenied => (ErrorCode::PolicyDenied, "effective policy denied the action"),
            Self::StorageUnavailable => (ErrorCode::StorageUnavailable, "encrypted storage is unavailable"),
            Self::KeyStoreUnavailable => (
                ErrorCode::KeyStoreUnavailable,
                "platform key store is unavailable",
            ),
            Self::ClientLagged => (ErrorCode::ClientLagged, "client exceeded the bounded event queue"),
            Self::Internal => (ErrorCode::Internal, "internal daemon failure"),
        };
        let retryable = match code {
            ErrorCode::StorageUnavailable => true,
            _ => false,
        };
        ProtocolError { code, message: message.to_owned(), retryable, correlation_id }
    }

    /// The daemon failure of a subscription failure: a lagging client is
    /// reported as such, anything else as an internal failure.
    pub fn from_subscription(error: SubscriptionError) -> (r: Self)
        ensures
            error == SubscriptionError::ClientLagged ==> r is ClientLagged,
            error != SubscriptionError::ClientLagged ==> r is Internal,
    {
        match error {
            SubscriptionError::ClientLagged => Self::ClientLagged,
            _ => Self::Internal,
        }
    }
}

/// Stored name of each event kind.
pub open spec fn event_kind_label(kind: EventKind) -> Seq<char> {
    match kind {
        EventKind::SessionCreated => "session_created"@,
        EventKind::ConfigurationResolved => "configuration_resolved"@,
        EventKind::InputRecorded => "input_recorded"@,
        EventKind::RoutingPlanned => "routing_planned"@,
        EventKind::ClarificationRequested => "clarification_requested"@,
        EventKind::ApprovalRequested => "approval_requested"@,
        EventKind::ApprovalRecorded => "approval_recorded"@,
        EventKind::DispatchPlanned => "dispatch_planned"@,
        EventKind::DispatchStarted => "dispatch_started"@,
        EventKind::DispatchAcknowledged => "dispatch_acknowledged"@,
        EventKind::ProviderEvent => "provider_event"@,
        EventKind::ToolEvent => "tool_event"@,
        EventKind::PauseRequested => "pause_requested"@,
        EventKind::SessionPaused => "session_paused"@,
        EventKind::SessionResumed => "session_resumed"@,
        EventKind::SessionRedirected => "session_redirected"@,
        EventKind::CancelRequested => "cancel_requested"@,
        EventKind::CancelConfirmed => "cancel_confirmed"@,
        EventKind::OutcomeUnknown => "outcome_unknown"@,
        EventKind::OutcomeReconciled => "outcome_reconciled"@,
        EventKind::SessionCompleted => "session_completed"@,
        EventKind::SessionFailed => "session_failed"@,
        EventKind::SessionCancelled => "session_cancelled"@,
        EventKind::SessionAbandoned => "session_abandoned"@,
        EventKind::SessionExported => "session_exported"@,
        EventKind::SessionDeletionRequested => "session_deletion_requested"@,
        EventKind::SessionDeleted => "session_deleted"@,
    }
}

/// The event kind a stored name denotes, if any.
pub open spec fn event_kind_of(label: Seq<char>) -> Option<EventKind> {
    if exists|k: EventKind| event_kind_label(k) == label {
        Some(choose|k: EventKind| event_kind_label(k) == label)
    } else {
        None
    }
}

/// Serializes an event kind for storage.
pub fn event_kind_name(kind: EventKind) -> (r: &'static str)
    ensures
        r@ == event_kind_label(kind),
{
    match kind {
        EventKind::SessionCreated => "session_created",
        EventKind::ConfigurationResolved => "configuration_resolved",
        EventKind::InputRecorded => "input_recorded",
        EventKind::RoutingPlanned => "routing_planned",
        EventKind::ClarificationRequested => "clarification_requested",
        EventKind::ApprovalRequested => "approval_requested",
        EventKind::ApprovalRecorded => "approval_recorded",
        EventKind::DispatchPlanned => "dispatch_planned",
        EventKind::DispatchStarted => "dispatch_started",
        EventKind::DispatchAcknowledged => "dispatch_acknowledged",
        EventKind::ProviderEvent => "provider_event",
        EventKind::ToolEvent => "tool_event",
        EventKind::PauseRequested => "pause_requested",
        EventKind::SessionPaused => "session_paused",
        EventKind::SessionResumed => "session_resumed",
        EventKind::SessionRedirected => "session_redirected",
        EventKind::CancelRequested => "cancel_requested",
        EventKind::CancelConfirmed => "cancel_confirmed",
        EventKind::OutcomeUnknown => "outcome_unknown",
        EventKind::OutcomeReconciled => "outcome_reconciled",
        EventKind::SessionCompleted => "session_completed",
        EventKind::SessionFailed => "session_failed",
        EventKind::SessionCancelled => "session_cancelled",
        EventKind::SessionAbandoned => "session_abandoned",
        EventKind::SessionExported => "session_exported",
        EventKind::SessionDeletionRequested => "session_deletion_requested",
        EventKind::SessionDeleted => "session_deleted",
    }
}

/// Reads a stored event kind.
///
/// # Errors
///
/// `StorageUnavailable` for a name that is no event kind.
pub fn parse_event_kind(kind: &str) -> (r: Result<EventKind, DaemonError>)
    ensures
        match r {
            Ok(k) => event_kind_label(k) == kind@,
            Err(e) => e is StorageUnavailable && forall|k: EventKind| event_kind_label(k) != kind@,
        },
{
    let kinds: [EventKind; 27] = [
        EventKind::SessionCreated,
        EventKind::ConfigurationResolved,
        EventKind::InputRecorded,
        EventKind::RoutingPlanned,
        EventKind::ClarificationRequested,
        EventKind::ApprovalRequested,
        EventKind::ApprovalRecorded,
        EventKind::DispatchPlanned,
        EventKind::DispatchStarted,
        EventKind::DispatchAcknowledged,
        EventKind::ProviderEvent,
        EventKind::ToolEvent,
        EventKind::PauseRequested,
        EventKind::SessionPaused,
        EventKind::SessionResumed,
        EventKind::SessionRedirected,
        EventKind::CancelRequested,
        EventKind::CancelConfirmed,
        EventKind::OutcomeUnknown,
        EventKind::OutcomeReconciled,
        EventKind::SessionCompleted,
        EventKind::SessionFailed,
        EventKind::SessionCancelled,
        EventKind::SessionAbandoned,
        EventKind::SessionExported,
        EventKind::SessionDeletionRequested,
        EventKind::SessionDeleted,
    ];
    let mut i: usize = 0;
    while i < 27
        invariant
            i <= 27,
            forall|j: int| 0 <= j < i ==> event_kind_label(#[trigger] kinds@[j]) != kind@,
        decreases 27 - i,
    {
        let candidate = kinds[i];
        if str_eq(event_kind_name(candidate), kind) {
            return Ok(candidate);
        }
        i += 1;
    }
    assert forall|k: EventKind| #[trigger] event_kind_label(k) != kind@ by {
        match k {
            EventKind::SessionCreated => assert(kinds@[0] == k),
            EventKind::ConfigurationResolved => assert(kinds@[1] == k),
            EventKind::InputRecorded => assert(kinds@[2] == k),
            EventKind::RoutingPlanned => assert(kinds@[3] == k),
            EventKind::ClarificationRequested => assert(kinds@[4] == k),
            EventKind::ApprovalRequested => assert(kinds@[5] == k),
            EventKind::ApprovalRecorded => assert(kinds@[6] == k),
            EventKind::DispatchPlanned => assert(kinds@[7] == k),
            EventKind::DispatchStarted => assert(kinds@[8] == k),
            EventKind::DispatchAcknowledged => assert(kinds@[9] == k),
            EventKind::ProviderEvent => assert(kinds@[10] == k),
            EventKind::ToolEvent => assert(kinds@[11] == k),
            EventKind::PauseRequested => assert(kinds@[12] == k),
            EventKind::SessionPaused => assert(kinds@[13] == k),
            EventKind::SessionResumed => assert(kinds@[14] == k),
            EventKind::SessionRedirected => assert(kinds@[15] == k),
            EventKind::CancelRequested => assert(kinds@[16] == k),
            EventKind::CancelConfirmed => assert(kinds@[17] == k),
            EventKind::OutcomeUnknown => assert(kinds@[18] == k),
            EventKind::OutcomeReconciled => assert(kinds@[19] == k),
            EventKind::SessionCompleted => assert(kinds@[20] == k),
            EventKind::SessionFailed => assert(kinds@[21] == k),
            EventKind::SessionCancelled => assert(kinds@[22] == k),
            EventKind::SessionAbandoned => assert(kinds@[23] == k),
            EventKind::SessionExported => assert(kinds@[24] == k),
            EventKind::SessionDeletionRequested => assert(kinds@[25] == k),
            EventKind::SessionDeleted => assert(kinds@[26] == k),
        }
    }
    Err(DaemonError::StorageUnavailable)
}

/// No two event kinds share a stored name.
pub proof fn event_kind_names_distinct(a: EventKind, b: EventKind)
    ensures
        event_kind_label(a) == event_kind_label(b) ==> a == b,
{
    reveal_strlit("session_created");
    reveal_strlit("configuration_resolved");
    reveal_strlit("input_recorded");
    reveal_strlit("routing_planned");
    reveal_strlit("clarification_requested");
    reveal_strlit("approval_requested");
    reveal_strlit("approval_recorded");
    reveal_strlit("dispatch_planned");
    reveal_strlit("dispatch_started");
    reveal_strlit("dispatch_acknowledged");
    reveal_strlit("provider_event");
    reveal_strlit("tool_event");
    reveal_strlit("pause_requested");
    reveal_strlit("session_paused");
    reveal_strlit("session_resumed");
    reveal_strlit("session_redirected");
    reveal_strlit("cancel_requested");
    reveal_strlit("cancel_confirmed");
    reveal_strlit("outcome_unknown");
    reveal_strlit("outcome_reconciled");
    reveal_strlit("session_completed");
    reveal_strlit("session_failed");
    reveal_strlit("session_cancelled");
    reveal_strlit("session_abandoned");
    reveal_strlit("session_exported");
    reveal_strlit("session_deletion_requested");
    reveal_strlit("session_deleted");
    let lb = event_kind_label(b);
    match a {
        EventKind::SessionCreated => if lb == event_kind_label(a) {
            assert(lb.len() == 15 && lb[0] == 's' && lb[1] == 'e' && lb[2] == 's' && lb[3] == 's' && lb[4] == 'i' && lb[5] == 'o' && lb[6] == 'n' && lb[7] == '_' && lb[8] == 'c' && lb[9] == 'r' && lb[10] == 'e' && lb[11] == 'a' && lb[12] == 't' && lb[13] == 'e' && lb[14] == 'd');
        },
        EventKind::ConfigurationResolved => if lb == event_kind_label(a) {
            assert(lb.len() == 22 && lb[0] == 'c' && lb[1] == 'o' && lb[2] == 'n' && lb[3] == 'f' && lb[4] == 'i' && lb[5] == 'g' && lb[6] == 'u' && lb[7] == 'r' && lb[8] == 'a' && lb[9] == 't' && lb[10] == 'i' && lb[11] == 'o' && lb[12] == 'n' && lb[13] == '_' && lb[14] == 'r' && lb[15] == 'e' && lb[16] == 's' && lb[17] == 'o' && lb[18] == 'l' && lb[19] == 'v' && lb[20] == 'e' && lb[21] == 'd');
        },
        EventKind::InputRecorded => if lb == event_kind_label(a) {
            assert(lb.len() == 14 && lb[0] == 'i' && lb[1] == 'n' && lb[2] == 'p' && lb[3] == 'u' && lb[4] == 't' && lb[5] == '_' && lb[6] == 'r' && lb[7] == 'e' && lb[8] == 'c' && lb[9] == 'o' && lb[10] == 'r' && lb[11] == 'd' && lb[12] == 'e' && lb[13] == 'd');
        },
        EventKind::RoutingPlanned => if lb == event_kind_label(a) {
            assert(lb.len() == 15 && lb[0] == 'r' && lb[1] == 'o' && lb[2] == 'u' && lb[3] == 't' && lb[4] == 'i' && lb[5] == 'n' && lb[6] == 'g' && lb[7] == '_' && lb[8] == 'p' && lb[9] == 'l' && lb[10] == 'a' && lb[11] == 'n' && lb[12] == 'n' && lb[13] == 'e' && lb[14] == 'd');
        },
        EventKind::ClarificationRequested => if lb == event_kind_label(a) {
            assert(lb.len() == 23 && lb[0] == 'c' && lb[1] == 'l' && lb[2] == 'a' && lb[3] == 'r' && lb[4] == 'i' && lb[5] == 'f' && lb[6] == 'i' && lb[7] == 'c' && lb[8] == 'a' && lb[9] == 't' && lb[10] == 'i' && lb[11] == 'o' && lb[12] == 'n' && lb[13] == '_' && lb[14] == 'r' && lb[15] == 'e' && lb[16] == 'q' && lb[17] == 'u' && lb[18] == 'e' && lb[19] == 's' && lb[20] == 't' && lb[21] == 'e' && lb[22] == 'd');
        },
        EventKind::ApprovalRequested => if lb == event_kind_label(a) {
            assert(lb.len() == 18 && lb[0] == 'a' && lb[1] == 'p' && lb[2] == 'p' && lb[3] == 'r' && lb[4] == 'o' && lb[5] == 'v' && lb[6] == 'a' && lb[7] == 'l' && lb[8] == '_' && lb[9] == 'r' && lb[10] == 'e' && lb[11] == 'q' && lb[12] == 'u' && lb[13] == 'e' && lb[14] == 's' && lb[15] == 't' && lb[16] == 'e' && lb[17] == 'd');
        },
        EventKind::ApprovalRecorded => if lb == event_kind_label(a) {
            assert(lb.len() == 17 && lb[0] == 'a' && lb[1] == 'p' && lb[2] == 'p' && lb[3] == 'r' && lb[4] == 'o' && lb[5] == 'v' && lb[6] == 'a' && lb[7] == 'l' && lb[8] == '_' && lb[9] == 'r' && lb[10] == 'e' && lb[11] == 'c' && lb[12] == 'o' && lb[13] == 'r' && lb[14] == 'd' && lb[15] == 'e' && lb[16] == 'd');
        },
        EventKind::DispatchPlanned => if lb == event_kind_label(a) {
            assert(lb.len() == 16 && lb[0] == 'd' && lb[1] == 'i' && lb[2] == 's' && lb[3] == 'p' && lb[4] == 'a' && lb[5] == 't' && lb[6] == 'c' && lb[7] == 'h' && lb[8] == '_' && lb[9] == 'p' && lb[10] == 'l' && lb[11] == 'a' && lb[12] == 'n' && lb[13] == 'n' && lb[14] == 'e' && lb[15] == 'd');
        },
        EventKind::DispatchStarted => if lb == event_kind_label(a) {
            assert(lb.len() == 16 && lb[0] == 'd' && lb[1] == 'i' && lb[2] == 's' && lb[3] == 'p' && lb[4] == 'a' && lb[5] == 't' && lb[6] == 'c' && lb[7] == 'h' && lb[8] == '_' && lb[9] == 's' && lb[10] == 't' && lb[11] == 'a' && lb[12] == 'r' && lb[13] == 't' && lb[14] == 'e' && lb[15] == 'd');
        },
        EventKind::DispatchAcknowledged => if lb == event_kind_label(a) {
            assert(lb.len() == 21 && lb[0] == 'd' && lb[1] == 'i' && lb[2] == 's' && lb[3] == 'p' && lb[4] == 'a' && lb[5] == 't' && lb[6] == 'c' && lb[7] == 'h' && lb[8] == '_' && lb[9] == 'a' && lb[10] == 'c' && lb[11] == 'k' && lb[12] == 'n' && lb[13] == 'o' && lb[14] == 'w' && lb[15] == 'l' && lb[16] == 'e' && lb[17] == 'd' && lb[18] == 'g' && lb[19] == 'e' && lb[20] == 'd');
        },
        EventKind::ProviderEvent => if lb == event_kind_label(a) {
            assert(lb.len() == 14 && lb[0] == 'p' && lb[1] == 'r' && lb[2] == 'o' && lb[3] == 'v' && lb[4] == 'i' && lb[5] == 'd' && lb[6] == 'e' && lb[7] == 'r' && lb[8] == '_' && lb[9] == 'e' && lb[10] == 'v' && lb[11] == 'e' && lb[12] == 'n' && lb[13] == 't');
        },
        EventKind::ToolEvent => if lb == event_kind_label(a) {
            assert(lb.len() == 10 && lb[0] == 't' && lb[1] == 'o' && lb[2] == 'o' && lb[3] == 'l' && lb[4] == '_' && lb[5] == 'e' && lb[6] == 'v' && lb[7] == 'e' && lb[8] == 'n' && lb[9] == 't');
        },
        EventKind::PauseRequested => if lb == event_kind_label(a) {
            assert(lb.len() == 15 && lb[0] == 'p' && lb[1] == 'a' && lb[2] == 'u' && lb[3] == 's' && lb[4] == 'e' && lb[5] == '_' && lb[6] == 'r' && lb[7] == 'e' && lb[8] == 'q' && lb[9] == 'u' && lb[10] == 'e' && lb[11] == 's' && lb[12] == 't' && lb[13] == 'e' && lb[14] == 'd');
        },
        EventKind::SessionPaused => if lb == event_kind_label(a) {
            assert(lb.len() == 14 && lb[0] == 's' && lb[1] == 'e' && lb[2] == 's' && lb[3] == 's' && lb[4] == 'i' && lb[5] == 'o' && lb[6] == 'n' && lb[7] == '_' && lb[8] == 'p' && lb[9] == 'a' && lb[10] == 'u' && lb[11] == 's' && lb[12] == 'e' && lb[13] == 'd');
        },
        EventKind::SessionResumed => if lb == event_kind_label(a) {
            assert(lb.len() == 15 && lb[0] == 's' && lb[1] == 'e' && lb[2] == 's' && lb[3] == 's' && lb[4] == 'i' && lb[5] == 'o' && lb[6] == 'n' && lb[7] == '_' && lb[8] == 'r' && lb[9] == 'e' && lb[10] == 's' && lb[11] == 'u' && lb[12] == 'm' && lb[13] == 'e' && lb[14] == 'd');
        },
        EventKind::SessionRedirected => if lb == event_kind_label(a) {
            assert(lb.len() == 18 && lb[0] == 's' && lb[1] == 'e' && lb[2] == 's' && lb[3] == 's' && lb[4] == 'i' && lb[5] == 'o' && lb[6] == 'n' && lb[7] == '_' && lb[8] == 'r' && lb[9] == 'e' && lb[10] == 'd' && lb[11] == 'i' && lb[12] == 'r' && lb[13] == 'e' && lb[14] == 'c' && lb[15] == 't' && lb[16] == 'e' && lb[17] == 'd');
        },
        EventKind::CancelRequested => if lb == event_kind_label(a) {
            assert(lb.len() == 16 && lb[0] == 'c' && lb[1] == 'a' && lb[2] == 'n' && lb[3] == 'c' && lb[4] == 'e' && lb[5] == 'l' && lb[6] == '_' && lb[7] == 'r' && lb[8] == 'e' && lb[9] == 'q' && lb[10] == 'u' && lb[11] == 'e' && lb[12] == 's' && lb[13] == 't' && lb[14] == 'e' && lb[15] == 'd');
        },
        EventKind::CancelConfirmed => if lb == event_kind_label(a) {
            assert(lb.len() == 16 && lb[0] == 'c' && lb[1] == 'a' && lb[2] == 'n' && lb[3] == 'c' && lb[4] == 'e' && lb[5] == 'l' && lb[6] == '_' && lb[7] == 'c' && lb[8] == 'o' && lb[9] == 'n' && lb[10] == 'f' && lb[11] == 'i' && lb[12] == 'r' && lb[13] == 'm' && lb[14] == 'e' && lb[15] == 'd');
        },
        EventKind::OutcomeUnknown => if lb == event_kind_label(a) {
            assert(lb.len() == 15 && lb[0] == 'o' && lb[1] == 'u' && lb[2] == 't' && lb[3] == 'c' && lb[4] == 'o' && lb[5] == 'm' && lb[6] == 'e' && lb[7] == '_' && lb[8] == 'u' && lb[9] == 'n' && lb[10] == 'k' && lb[11] == 'n' && lb[12] == 'o' && lb[13] == 'w' && lb[14] == 'n');
        },
        EventKind::OutcomeReconciled => if lb == event_kind_label(a) {
            assert(lb.len() == 18 && lb[0] == 'o' && lb[1] == 'u' && lb[2] == 't' && lb[3] == 'c' && lb[4] == 'o' && lb[5] == 'm' && lb[6] == 'e' && lb[7] == '_' && lb[8] == 'r' && lb[9] == 'e' && lb[10] == 'c' && lb[11] == 'o' && lb[12] == 'n' && lb[13] == 'c' && lb[14] == 'i' && lb[15] == 'l' && lb[16] == 'e' && lb[17] == 'd');
        },
        EventKind::SessionCompleted => if lb == event_kind_label(a) {
            assert(lb.len() == 17 && lb[0] == 's' && lb[1] == 'e' && lb[2] == 's' && lb[3] == 's' && lb[4] == 'i' && lb[5] == 'o' && lb[6] == 'n' && lb[7] == '_' && lb[8] == 'c' && lb[9] == 'o' && lb[10] == 'm' && lb[11] == 'p' && lb[12] == 'l' && lb[13] == 'e' && lb[14] == 't' && lb[15] == 'e' && lb[16] == 'd');
        },
        EventKind::SessionFailed => if lb == event_kind_label(a) {
            assert(lb.len() == 14 && lb[0] == 's' && lb[1] == 'e' && lb[2] == 's' && lb[3] == 's' && lb[4] == 'i' && lb[5] == 'o' && lb[6] == 'n' && lb[7] == '_' && lb[8] == 'f' && lb[9] == 'a' && lb[10] == 'i' && lb[11] == 'l' && lb[12] == 'e' && lb[13] == 'd');
        },
        EventKind::SessionCancelled => if lb == event_kind_label(a) {
            assert(lb.len() == 17 && lb[0] == 's' && lb[1] == 'e' && lb[2] == 's' && lb[3] == 's' && lb[4] == 'i' && lb[5] == 'o' && lb[6] == 'n' && lb[7] == '_' && lb[8] == 'c' && lb[9] == 'a' && lb[10] == 'n' && lb[11] == 'c' && lb[12] == 'e' && lb[13] == 'l' && lb[14] == 'l' && lb[15] == 'e' && lb[16] == 'd');
        },
        EventKind::SessionAbandoned => if lb == event_kind_label(a) {
            assert(lb.len() == 17 && lb[0] == 's' && lb[1] == 'e' && lb[2] == 's' && lb[3] == 's' && lb[4] == 'i' && lb[5] == 'o' && lb[6] == 'n' && lb[7] == '_' && lb[8] == 'a' && lb[9] == 'b' && lb[10] == 'a' && lb[11] == 'n' && lb[12] == 'd' && lb[13] == 'o' && lb[14] == 'n' && lb[15] == 'e' && lb[16] == 'd');
        },
        EventKind::SessionExported => if lb == event_kind_label(a) {
            assert(lb.len() == 16 && lb[0] == 's' && lb[1] == 'e' && lb[2] == 's' && lb[3] == 's' && lb[4] == 'i' && lb[5] == 'o' && lb[6] == 'n' && lb[7] == '_' && lb[8] == 'e' && lb[9] == 'x' && lb[10] == 'p' && lb[11] == 'o' && lb[12] == 'r' && lb[13] == 't' && lb[14] == 'e' && lb[15] == 'd');
        },
        EventKind::SessionDeletionRequested => if lb == event_kind_label(a) {
            assert(lb.len() == 26 && lb[0] == 's' && lb[1] == 'e' && lb[2] == 's' && lb[3] == 's' && lb[4] == 'i' && lb[5] == 'o' && lb[6] == 'n' && lb[7] == '_' && lb[8] == 'd' && lb[9] == 'e' && lb[10] == 'l' && lb[11] == 'e' && lb[12] == 't' && lb[13] == 'i' && lb[14] == 'o' && lb[15] == 'n' && lb[16] == '_' && lb[17] == 'r' && lb[18] == 'e' && lb[19] == 'q' && lb[20] == 'u' && lb[21] == 'e' && lb[22] == 's' && lb[23] == 't' && lb[24] == 'e' && lb[25] == 'd');
        },
        EventKind::SessionDeleted => if lb == event_kind_label(a) {
            assert(lb.len() == 15 && lb[0] == 's' && lb[1] == 'e' && lb[2] == 's' && lb[3] == 's' && lb[4] == 'i' && lb[5] == 'o' && lb[6] == 'n' && lb[7] == '_' && lb[8] == 'd' && lb[9] == 'e' && lb[10] == 'l' && lb[11] == 'e' && lb[12] == 't' && lb[13] == 'e' && lb[14] == 'd');
        },
    }
}

/// Every event kind reads back from its stored name.
pub proof fn event_kind_names_round_trip(a: EventKind)
    ensures
        event_kind_of(event_kind_label(a)) == Some(a),
{
    let l = event_kind_label(a);
    assert(exists|k: EventKind| event_kind_label(k) == l);
    let c = choose|k: EventKind| event_kind_label(k) == l;
    event_kind_names_distinct(c, a);
}


/// Stored name of each session state.
pub open spec fn session_state_label(state: SessionState) -> Seq<char> {
    match state {
        SessionState::Ready => "ready"@,
        SessionState::Running => "running"@,
        SessionState::Pausing => "pausing"@,
        SessionState::Paused => "paused"@,
        SessionState::AwaitingClarification => "awaiting_clarification"@,
        SessionState::AwaitingApproval => "awaiting_approval"@,
        SessionState::CancelRequested => "cancel_requested"@,
        SessionState::OutcomeUnknown => "outcome_unknown"@,
        SessionState::Completed => "completed"@,
        SessionState::Failed => "failed"@,
        SessionState::Cancelled => "cancelled"@,
        SessionState::Abandoned => "abandoned"@,
        SessionState::Deleting => "deleting"@,
    }
}

/// Reads a stored session state.
///
/// # Errors
///
/// `StorageUnavailable` for a name that is no session state.
pub fn parse_session_state(state: &str) -> (r: Result<SessionState, DaemonError>)
    ensures
        match r {
            Ok(s) => session_state_label(s) == state@,
            Err(e) => e is StorageUnavailable && forall|s: SessionState|
                session_state_label(s) != state@,
        },
{
    let states: [SessionState; 13] = [
        SessionState::Ready,
        SessionState::Running,
        SessionState::Pausing,
        SessionState::Paused,
        SessionState::AwaitingClarification,
        SessionState::AwaitingApproval,
        SessionState::CancelRequested,
        SessionState::OutcomeUnknown,
        SessionState::Completed,
        SessionState::Failed,
        SessionState::Cancelled,
        SessionState::Abandoned,
        SessionState::Deleting,
    ];
    let mut i: usize = 0;
    while i < 13
        invariant
            i <= 13,
            forall|j: int| 0 <= j < i ==> session_state_label(#[trigger] states@[j]) != state@,
        decreases 13 - i,
    {
        let candidate = states[i];
        if str_eq(session_state_name(candidate), state) {
            return Ok(candidate);
        }
        i += 1;
    }
    assert forall|s: SessionState| #[trigger] session_state_label(s) != state@ by {
        match s {
            SessionState::Ready => assert(states@[0] == s),
            SessionState::Running => assert(states@[1] == s),
            SessionState::Pausing => assert(states@[2] == s),
            SessionState::Paused => assert(states@[3] == s),
            SessionState::AwaitingClarification => assert(states@[4] == s),
            SessionState::AwaitingApproval => assert(states@[5] == s),
            SessionState::CancelRequested => assert(states@[6] == s),
            SessionState::OutcomeUnknown => assert(states@[7] == s),
            SessionState::Completed => assert(states@[8] == s),
            SessionState::Failed => assert(states@[9] == s),
            SessionState::Cancelled => assert(states@[10] == s),
            SessionState::Abandoned => assert(states@[11] == s),
            SessionState::Deleting => assert(states@[12] == s),
        }
    }
    Err(DaemonError::StorageUnavailable)
}


/// No two session states share a stored name, so a stored state reads back
/// as the state that was written.
pub proof fn session_state_names_distinct(a: SessionState, b: SessionState)
    ensures
        session_state_label(a) == session_state_label(b) ==> a == b,
{
    reveal_strlit("ready");
    reveal_strlit("running");
    reveal_strlit("pausing");
    reveal_strlit("paused");
    reveal_strlit("awaiting_clarification");
    reveal_strlit("awaiting_approval");
    reveal_strlit("cancel_requested");
    reveal_strlit("outcome_unknown");
    reveal_strlit("completed");
    reveal_strlit("failed");
    reveal_strlit("cancelled");
    reveal_strlit("abandoned");
    reveal_strlit("deleting");
    let lb = session_state_label(b);
    match a {
        SessionState::Ready => if lb == session_state_label(a) {
            assert(lb.len() == 5 && lb[0] == 'r' && lb[1] == 'e' && lb[2] == 'a' && lb[3] == 'd' && lb[4] == 'y');
        },
        SessionState::Running => if lb == session_state_label(a) {
            assert(lb.len() == 7 && lb[0] == 'r' && lb[1] == 'u' && lb[2] == 'n' && lb[3] == 'n' && lb[4] == 'i' && lb[5] == 'n' && lb[6] == 'g');
        },
        SessionState::Pausing => if lb == session_state_label(a) {
            assert(lb.len() == 7 && lb[0] == 'p' && lb[1] == 'a' && lb[2] == 'u' && lb[3] == 's' && lb[4] == 'i' && lb[5] == 'n' && lb[6] == 'g');
        },
        SessionState::Paused => if lb == session_state_label(a) {
            assert(lb.len() == 6 && lb[0] == 'p' && lb[1] == 'a' && lb[2] == 'u' && lb[3] == 's' && lb[4] == 'e' && lb[5] == 'd');
        },
        SessionState::AwaitingClarification => if lb == session_state_label(a) {
            assert(lb.len() == 22 && lb[0] == 'a' && lb[1] == 'w' && lb[2] == 'a' && lb[3] == 'i' && lb[4] == 't' && lb[5] == 'i' && lb[6] == 'n' && lb[7] == 'g' && lb[8] == '_' && lb[9] == 'c' && lb[10] == 'l' && lb[11] == 'a' && lb[12] == 'r' && lb[13] == 'i' && lb[14] == 'f' && lb[15] == 'i' && lb[16] == 'c' && lb[17] == 'a' && lb[18] == 't' && lb[19] == 'i' && lb[20] == 'o' && lb[21] == 'n');
        },
        SessionState::AwaitingApproval => if lb == session_state_label(a) {
            assert(lb.len() == 17 && lb[0] == 'a' && lb[1] == 'w' && lb[2] == 'a' && lb[3] == 'i' && lb[4] == 't' && lb[5] == 'i' && lb[6] == 'n' && lb[7] == 'g' && lb[8] == '_' && lb[9] == 'a' && lb[10] == 'p' && lb[11] == 'p' && lb[12] == 'r' && lb[13] == 'o' && lb[14] == 'v' && lb[15] == 'a' && lb[16] == 'l');
        },
        SessionState::CancelRequested => if lb == session_state_label(a) {
            assert(lb.len() == 16 && lb[0] == 'c' && lb[1] == 'a' && lb[2] == 'n' && lb[3] == 'c' && lb[4] == 'e' && lb[5] == 'l' && lb[6] == '_' && lb[7] == 'r' && lb[8] == 'e' && lb[9] == 'q' && lb[10] == 'u' && lb[11] == 'e' && lb[12] == 's' && lb[13] == 't' && lb[14] == 'e' && lb[15] == 'd');
        },
        SessionState::OutcomeUnknown => if lb == session_state_label(a) {
            assert(lb.len() == 15 && lb[0] == 'o' && lb[1] == 'u' && lb[2] == 't' && lb[3] == 'c' && lb[4] == 'o' && lb[5] == 'm' && lb[6] == 'e' && lb[7] == '_' && lb[8] == 'u' && lb[9] == 'n' && lb[10] == 'k' && lb[11] == 'n' && lb[12] == 'o' && lb[13] == 'w' && lb[14] == 'n');
        },
        SessionState::Completed => if lb == session_state_label(a) {
            assert(lb.len() == 9 && lb[0] == 'c' && lb[1] == 'o' && lb[2] == 'm' && lb[3] == 'p' && lb[4] == 'l' && lb[5] == 'e' && lb[6] == 't' && lb[7] == 'e' && lb[8] == 'd');
        },
        SessionState::Failed => if lb == session_state_label(a) {
            assert(lb.len() == 6 && lb[0] == 'f' && lb[1] == 'a' && lb[2] == 'i' && lb[3] == 'l' && lb[4] == 'e' && lb[5] == 'd');
        },
        SessionState::Cancelled => if lb == session_state_label(a) {
            assert(lb.len() == 9 && lb[0] == 'c' && lb[1] == 'a' && lb[2] == 'n' && lb[3] == 'c' && lb[4] == 'e' && lb[5] == 'l' && lb[6] == 'l' && lb[7] == 'e' && lb[8] == 'd');
        },
        SessionState::Abandoned => if lb == session_state_label(a) {
            assert(lb.len() == 9 && lb[0] == 'a' && lb[1] == 'b' && lb[2] == 'a' && lb[3] == 'n' && lb[4] == 'd' && lb[5] == 'o' && lb[6] == 'n' && lb[7] == 'e' && lb[8] == 'd');
        },
        SessionState::Deleting => if lb == session_state_label(a) {
            assert(lb.len() == 8 && lb[0] == 'd' && lb[1] == 'e' && lb[2] == 'l' && lb[3] == 'e' && lb[4] == 't' && lb[5] == 'i' && lb[6] == 'n' && lb[7] == 'g');
        },
    }
}

/// Stored name of a session state.
pub fn session_state_name(state: SessionState) -> (r: &'static str)
    ensures
        r@ == session_state_label(state),
{
    match state {
        SessionState::Ready => "ready",
        SessionState::Running => "running",
        SessionState::Pausing => "pausing",
        SessionState::Paused => "paused",
        SessionState::AwaitingClarification => "awaiting_clarification",
        SessionState::AwaitingApproval => "awaiting_approval",
        SessionState::CancelRequested => "cancel_requested",
        SessionState::OutcomeUnknown => "outcome_unknown",
        SessionState::Completed => "completed",
        SessionState::Failed => "failed",
        SessionState::Cancelled => "cancelled",
        SessionState::Abandoned => "abandoned",
        SessionState::Deleting => "deleting",
    }
}

/// One stored session event, as the storage layer hands it back.
#[derive(Debug, Clone)]
pub struct PersistedEvent {
    pub event_id: u128,
    pub session_id: u128,
    pub sequence: u64,
    pub causation_request_id: Option<u128>,
    /// RFC 3339 timestamp.
    pub occurred_at: String,
    pub kind: String,
    pub attempt_id: Option<u128>,
    pub effect_class: Option<String>,
    pub payload: JsonValue,
}

/// The `decision` member of an `approval_recorded` payload.
#[derive(Clone, Copy, Debug, PartialEq, Eq, Structural)]
pub enum DecisionField {
    Missing,
    Invalid,
    Valid(ApprovalDecision),
}

/// What folding reads of one stored event: its header and the members of
/// its payload that name an approval, a decision or an attempt.
#[derive(Clone, Debug)]
pub struct FoldStep {
    pub sequence: u64,
    pub kind: String,
    pub causation_request_id: Option<u128>,
    pub attempt_id: Option<u128>,
    pub payload_approval_id: Option<u128>,
    pub payload_decision: DecisionField,
    pub payload_attempt_id: Option<u128>,
}

/// A session's state as its history leaves it.
#[derive(Debug)]
pub struct FoldedSession {
    pub state: SessionState,
    pub last_sequence: u64,
    pub pending_approval_id: Option<u128>,
    pub pending_request_id: Option<u128>,
    pub uncertain_attempt_id: Option<u128>,
    pub approval_decisions: HashMap<u128, ApprovalDecision>,
}

/// The folded values of a history: state, last sequence, pending approval,
/// its request, the uncertain attempt, and the recorded decisions.
pub type FoldView = (SessionState, u64, Option<u128>, Option<u128>, Option<u128>, Map<
    u128,
    ApprovalDecision,
>);

/// The view of a folded session.
pub open spec fn folded_view(f: FoldedSession) -> FoldView {
    (
        f.state,
        f.last_sequence,
        f.pending_approval_id,
        f.pending_request_id,
        f.uncertain_attempt_id,
        f.approval_decisions@,
    )
}

/// The values before any event.
pub open spec fn fold_start() -> FoldView {
    (SessionState::Ready, 0, None, None, None, Map::empty())
}

/// The session state after `approval_recorded` with a decision.
pub open spec fn decided_state(d: ApprovalDecision) -> SessionState {
    match d {
        ApprovalDecision::Grant => SessionState::Running,
        ApprovalDecision::Deny => SessionState::Paused,
    }
}

/// Applies one event to folded values: the event must carry the next
/// sequence number, and its kind decides the new state.
pub open spec fn fold_step(v: FoldView, e: FoldStep) -> Result<FoldView, DaemonError> {
    let (state, last, pending, pending_request, uncertain, decisions) = v;
    if e.sequence != last + 1 {
        Err(DaemonError::StorageUnavailable)
    } else {
        let k = e.kind@;
        let seq = e.sequence;
        if k == "dispatch_started"@ || k == "session_resumed"@ {
            Ok((SessionState::Running, seq, pending, pending_request, uncertain, decisions))
        } else if k == "clarification_requested"@ {
            Ok((SessionState::AwaitingClarification, seq, pending, pending_request, uncertain, decisions))
        } else if k == "approval_requested"@ {
            Ok((SessionState::AwaitingApproval, seq, e.payload_approval_id, e.causation_request_id, uncertain, decisions))
        } else if k == "approval_recorded"@ {
            match (e.payload_approval_id, e.payload_decision) {
                (None, _) => Err(DaemonError::StorageUnavailable),
                (Some(_), DecisionField::Missing) => Err(DaemonError::StorageUnavailable),
                (Some(_), DecisionField::Invalid) => Err(DaemonError::Internal),
                (Some(id), DecisionField::Valid(d)) => Ok((decided_state(d), seq, None, None, uncertain, decisions.insert(id, d))),
            }
        } else if k == "pause_requested"@ {
            Ok((SessionState::Pausing, seq, pending, pending_request, uncertain, decisions))
        } else if k == "session_paused"@ {
            Ok((SessionState::Paused, seq, pending, pending_request, uncertain, decisions))
        } else if k == "session_redirected"@ && state == SessionState::AwaitingClarification {
            Ok((SessionState::Ready, seq, pending, pending_request, uncertain, decisions))
        } else if k == "cancel_requested"@ {
            Ok((SessionState::CancelRequested, seq, pending, pending_request, uncertain, decisions))
        } else if k == "outcome_unknown"@ {
            let attempt = match e.attempt_id {
                Some(a) => Some(a),
                None => e.payload_attempt_id,
            };
            Ok((SessionState::OutcomeUnknown, seq, pending, pending_request, attempt, decisions))
        } else if k == "outcome_reconciled"@ {
            Ok((state, seq, pending, pending_request, None, decisions))
        } else if k == "session_completed"@ {
            Ok((SessionState::Completed, seq, pending, pending_request, uncertain, decisions))
        } else if k == "session_failed"@ {
            Ok((SessionState::Failed, seq, pending, pending_request, uncertain, decisions))
        } else if k == "session_cancelled"@ {
            Ok((SessionState::Cancelled, seq, pending, pending_request, uncertain, decisions))
        } else if k == "session_abandoned"@ {
            Ok((SessionState::Abandoned, seq, pending, pending_request, uncertain, decisions))
        } else if k == "session_deletion_requested"@ {
            Ok((SessionState::Deleting, seq, pending, pending_request, uncertain, decisions))
        } else {
            Ok((state, seq, pending, pending_request, uncertain, decisions))
        }
    }
}

/// Folds events in order, stopping at the first failure.
pub open spec fn fold_all(steps: Seq<FoldStep>) -> Result<FoldView, DaemonError>
    decreases steps.len(),
{
    if steps.len() == 0 {
        Ok(fold_start())
    } else {
        match fold_all(steps.drop_last()) {
            Ok(v) => fold_step(v, steps.last()),
            Err(e) => Err(e),
        }
    }
}

/// Folds a history that must open with `session_created`.
pub open spec fn fold_history(steps: Seq<FoldStep>) -> Result<FoldView, DaemonError> {
    if steps.len() == 0 || steps[0].kind@ != "session_created"@ {
        Err(DaemonError::SessionNotFound)
    } else {
        fold_all(steps)
    }
}

/// The UUID that the member `field` of a payload names, when it is a
/// string that parses as one.
pub open spec fn payload_uuid(payload: JsonValue, field: Seq<char>) -> Option<u128> {
    match payload.member_text(field) {
        Some(text) => uuid_from_text(text),
        None => None,
    }
}

/// The `decision` member of a payload: missing, the text `grant` or
/// `deny`, or anything else.
pub open spec fn payload_decision(payload: JsonValue) -> DecisionField {
    match payload.spec_member("decision"@) {
        None => DecisionField::Missing,
        Some(member) => match member.spec_text() {
            Some(text) => if text == "grant"@ {
                DecisionField::Valid(ApprovalDecision::Grant)
            } else if text == "deny"@ {
                DecisionField::Valid(ApprovalDecision::Deny)
            } else {
                DecisionField::Invalid
            },
            None => DecisionField::Invalid,
        },
    }
}

/// What folding reads of one stored event.
pub open spec fn step_of(e: PersistedEvent) -> FoldStep {
    FoldStep {
        sequence: e.sequence,
        kind: e.kind,
        causation_request_id: e.causation_request_id,
        attempt_id: e.attempt_id,
        payload_approval_id: payload_uuid(e.payload, "approval_id"@),
        payload_decision: payload_decision(e.payload),
        payload_attempt_id: payload_uuid(e.payload, "attempt_id"@),
    }
}

/// Two steps that read the same: folding cannot tell them apart.
pub open spec fn same_step(a: FoldStep, b: FoldStep) -> bool {
    &&& a.sequence == b.sequence
    &&& a.kind@ == b.kind@
    &&& a.causation_request_id == b.causation_request_id
    &&& a.attempt_id == b.attempt_id
    &&& a.payload_approval_id == b.payload_approval_id
    &&& a.payload_decision == b.payload_decision
    &&& a.payload_attempt_id == b.payload_attempt_id
}

/// Reads a UUID member of a JSON payload.
pub(crate) fn value_uuid(value: &JsonValue, field: &str) -> (r: Option<u128>)
    ensures
        r == payload_uuid(*value, field@),
{
    match value.member(field) {
        Some(member) => match member.as_text() {
            Some(text) => parse_uuid(text),
            None => None,
        },
        None => None,
    }
}

/// Reads what folding needs of one stored event. The payload members are
/// read as the daemon writes them: UUIDs as text, the decision as the text
/// `grant` or `deny`.
pub fn fold_step_of(event: &PersistedEvent) -> (r: FoldStep)
    ensures
        same_step(r, step_of(*event)),
{
    let payload_decision = match event.payload.member("decision") {
        None => DecisionField::Missing,
        Some(member) => match member.as_text() {
            Some(text) => if str_eq(text, "grant") {
                DecisionField::Valid(ApprovalDecision::Grant)
            } else if str_eq(text, "deny") {
                DecisionField::Valid(ApprovalDecision::Deny)
            } else {
                DecisionField::Invalid
            },
            None => DecisionField::Invalid,
        },
    };
    FoldStep {
        sequence: event.sequence,
        kind: event.kind.clone(),
        causation_request_id: event.causation_request_id,
        attempt_id: event.attempt_id,
        payload_approval_id: value_uuid(&event.payload, "approval_id"),
        payload_decision,
        payload_attempt_id: value_uuid(&event.payload, "attempt_id"),
    }
}

/// Folding reads only what `same_step` compares.
proof fn lemma_fold_all_same(a: Seq<FoldStep>, b: Seq<FoldStep>)
    requires
        a.len() == b.len(),
        forall|i: int| 0 <= i < a.len() ==> same_step(#[trigger] a[i], b[i]),
    ensures
        fold_all(a) == fold_all(b),
    decreases a.len(),
{
    if a.len() > 0 {
        let (ia, ib) = (a.drop_last(), b.drop_last());
        assert forall|i: int| 0 <= i < ia.len() implies same_step(#[trigger] ia[i], ib[i]) by {
            assert(ia[i] == a[i] && ib[i] == b[i]);
        }
        lemma_fold_all_same(ia, ib);
        assert(same_step(a.last(), b.last()));
    }
}

/// Applies one event to a folded session.
fn apply_step(folded: &mut FoldedSession, e: &FoldStep) -> (r: Result<(), DaemonError>)
    requires
        old(folded).last_sequence < u64::MAX,
    ensures
        match fold_step(folded_view(*old(folded)), *e) {
            Ok(v) => r is Ok && folded_view(*final(folded)) == v,
            Err(err) => r is Err && r->Err_0 == err,
        },
{
    if e.sequence != folded.last_sequence + 1 {
        return Err(DaemonError::StorageUnavailable);
    }
    folded.last_sequence = e.sequence;
    let k = e.kind.as_str();
    if str_eq(k, "dispatch_started") || str_eq(k, "session_resumed") {
        folded.state = SessionState::Running;
    } else if str_eq(k, "clarification_requested") {
        folded.state = SessionState::AwaitingClarification;
    } else if str_eq(k, "approval_requested") {
        folded.state = SessionState::AwaitingApproval;
        folded.pending_approval_id = e.payload_approval_id;
        folded.pending_request_id = e.causation_request_id;
    } else if str_eq(k, "approval_recorded") {
        let approval_id = match e.payload_approval_id {
            Some(id) => id,
            None => return Err(DaemonError::StorageUnavailable),
        };
        let decision = match e.payload_decision {
            DecisionField::Missing => return Err(DaemonError::StorageUnavailable),
            DecisionField::Invalid => return Err(DaemonError::Internal),
            DecisionField::Valid(d) => d,
        };
        folded.approval_decisions.insert(approval_id, decision);
        folded.pending_approval_id = None;
        folded.pending_request_id = None;
        folded.state = match decision {
            ApprovalDecision::Grant => SessionState::Running,
            ApprovalDecision::Deny => SessionState::Paused,
        };
    } else if str_eq(k, "pause_requested") {
        folded.state = SessionState::Pausing;
    } else if str_eq(k, "session_paused") {
        folded.state = SessionState::Paused;
    } else if str_eq(k, "session_redirected") && folded.state == SessionState::AwaitingClarification {
        folded.state = SessionState::Ready;
    } else if str_eq(k, "cancel_requested") {
        folded.state = SessionState::CancelRequested;
    } else if str_eq(k, "outcome_unknown") {
        folded.state = SessionState::OutcomeUnknown;
        folded.uncertain_attempt_id = match e.attempt_id {
            Some(a) => Some(a),
            None => e.payload_attempt_id,
        };
    } else if str_eq(k, "outcome_reconciled") {
        folded.uncertain_attempt_id = None;
    } else if str_eq(k, "session_completed") {
        folded.state = SessionState::Completed;
    } else if str_eq(k, "session_failed") {
        folded.state = SessionState::Failed;
    } else if str_eq(k, "session_cancelled") {
        folded.state = SessionState::Cancelled;
    } else if str_eq(k, "session_abandoned") {
        folded.state = SessionState::Abandoned;
    } else if str_eq(k, "session_deletion_requested") {
        folded.state = SessionState::Deleting;
    }
    Ok(())
}

/// A failure stops the fold: every longer history fails the same way.
pub proof fn fold_failure_persists(steps: Seq<FoldStep>, k: int)
    requires
        0 <= k <= steps.len(),
        fold_all(steps.take(k)) is Err,
    ensures
        fold_all(steps) == fold_all(steps.take(k)),
    decreases steps.len() - k,
{
    if k < steps.len() {
        assert(steps.take(k + 1).drop_last() =~= steps.take(k));
        fold_failure_persists(steps, k + 1);
    } else {
        assert(steps.take(k) =~= steps);
    }
}

/// Folds the steps of a history into the session's state.
///
/// # Errors
///
/// `SessionNotFound` when the history is empty or does not open with
/// `session_created`; `StorageUnavailable` for a sequence gap or a missing
/// approval member; `Internal` for an unreadable decision.
pub fn fold_steps(steps: &[FoldStep]) -> (r: Result<FoldedSession, DaemonError>)
    ensures
        match fold_history(steps@) {
            Ok(v) => r matches Ok(f) && folded_view(f) == v,
            Err(err) => r matches Err(e) && e == err,
        },
{
    if steps.len() == 0 || !str_eq(steps[0].kind.as_str(), "session_created") {
        return Err(DaemonError::SessionNotFound);
    }
    let mut folded = FoldedSession {
        state: SessionState::Ready,
        last_sequence: 0,
        pending_approval_id: None,
        pending_request_id: None,
        uncertain_attempt_id: None,
        approval_decisions: HashMap::new(),
    };
    assert(folded_view(folded) =~~= fold_start());
    let n = steps.len();
    let mut i: usize = 0;
    while i < n
        invariant
            n == steps@.len(),
            i <= n,
            fold_all(steps@.take(i as int)) == Ok::<FoldView, DaemonError>(folded_view(folded)),
            folded.last_sequence == i,
            steps@.len() > 0 && steps@[0].kind@ == "session_created"@,
        decreases n - i,
    {
        assert(steps@.take(i + 1).drop_last() =~= steps@.take(i as int));
        assert(steps@.take(i + 1).last() == steps@[i as int]);
        match apply_step(&mut folded, &steps[i]) {
            Ok(()) => {},
            Err(e) => {
                proof {
                    fold_failure_persists(steps@, i + 1);
                }
                return Err(e);
            },
        }
        i += 1;
    }
    assert(steps@.take(n as int) =~= steps@);
    Ok(folded)
}

/// Folds a stored history into the session's state.
///
/// # Errors
///
/// As `fold_steps`, on the steps read from the events.
pub fn fold_session(history: &[PersistedEvent]) -> (r: Result<FoldedSession, DaemonError>)
    ensures
        match fold_history(history@.map_values(|e: PersistedEvent| step_of(e))) {
            Ok(v) => r matches Ok(f) && folded_view(f) == v,
            Err(err) => r matches Err(e) && e == err,
        },
{
    let ghost expected = history@.map_values(|e: PersistedEvent| step_of(e));
    let mut steps: Vec<FoldStep> = Vec::new();
    let n = history.len();
    let mut i: usize = 0;
    while i < n
        invariant
            n == history@.len(),
            i <= n,
            expected == history@.map_values(|e: PersistedEvent| step_of(e)),
            steps@.len() == i,
            forall|j: int| 0 <= j < i ==> same_step(#[trigger] steps@[j], expected[j]),
        decreases n - i,
    {
        steps.push(fold_step_of(&history[i]));
        i += 1;
    }
    proof {
        lemma_fold_all_same(steps@, expected);
        if steps@.len() > 0 {
            assert(same_step(steps@[0], expected[0]));
        }
    }
    fold_steps(steps.as_slice())
}

/// Folding is incremental: the values after one more event are one step
/// from the values before it.
pub proof fn folding_is_incremental(steps: Seq<FoldStep>, e: FoldStep)
    ensures
        fold_all(steps.push(e)) == match fold_all(steps) {
            Ok(v) => fold_step(v, e),
            Err(err) => Err(err),
        },
{
    assert(steps.push(e).drop_last() =~= steps);
}

/// A history that folds has gapless sequence numbers `1..=n`, and the last
/// one is the folded `last_sequence`.
pub proof fn folded_history_is_gapless(steps: Seq<FoldStep>)
    requires
        fold_all(steps) is Ok,
    ensures
        fold_all(steps)->Ok_0.1 == steps.len(),
        forall|i: int| 0 <= i < steps.len() ==> #[trigger] steps[i].sequence == i + 1,
    decreases steps.len(),
{
    if steps.len() > 0 {
        let init = steps.drop_last();
        assert(fold_all(init) is Ok);
        folded_history_is_gapless(init);
        assert forall|i: int| 0 <= i < steps.len() implies #[trigger] steps[i].sequence == i + 1 by {
            if i < steps.len() - 1 {
                assert(init[i] == steps[i]);
            }
        }
    }
}


proof fn lemma_fold_all_never_not_found(steps: Seq<FoldStep>)
    ensures
        fold_all(steps) != Err::<FoldView, DaemonError>(DaemonError::SessionNotFound),
    decreases steps.len(),
{
    if steps.len() > 0 {
        lemma_fold_all_never_not_found(steps.drop_last());
    }
}

/// Folding a history: it is not found exactly when it is empty or does not
/// open with `session_created`; a folded history is numbered 1, 2, ... and
/// ends at its length; and the first event out of that numbering, after a
/// prefix that folds, makes the storage unavailable.
pub proof fn folding_a_history(steps: Seq<FoldStep>, k: int)
    ensures
        (fold_history(steps) == Err::<FoldView, DaemonError>(DaemonError::SessionNotFound)) <==> (
        steps.len() == 0 || steps[0].kind@ != "session_created"@),
        fold_history(steps) is Ok ==> fold_history(steps)->Ok_0.1 == steps.len() && forall|i: int|
            0 <= i < steps.len() ==> #[trigger] steps[i].sequence == i + 1,
        steps.len() > 0 && steps[0].kind@ == "session_created"@ && 0 <= k < steps.len() && fold_all(
            steps.take(k),
        ) is Ok && steps[k].sequence != k + 1 ==> fold_history(steps) == Err::<FoldView, DaemonError>(
            DaemonError::StorageUnavailable,
        ),
{
    lemma_fold_all_never_not_found(steps);
    if fold_history(steps) is Ok {
        folded_history_is_gapless(steps);
    }
    if steps.len() > 0 && steps[0].kind@ == "session_created"@ && 0 <= k < steps.len() && fold_all(
        steps.take(k),
    ) is Ok && steps[k].sequence != k + 1 {
        folded_history_is_gapless(steps.take(k));
        assert(steps.take(k + 1).drop_last() =~= steps.take(k));
        assert(steps.take(k + 1).last() == steps[k]);
        fold_failure_persists(steps, k + 1);
    }
}

/// `folding_a_history` read over stored events, as `fold_session` folds
/// them: not found exactly when the history is empty or does not open with
/// `session_created`; a folded history is numbered 1, 2, ... and ends at
/// its length; the first event out of that numbering, after a prefix that
/// folds, makes the storage unavailable.
pub proof fn folding_stored_events(history: Seq<PersistedEvent>, k: int)
    ensures
        ({
            let steps = history.map_values(|e: PersistedEvent| step_of(e));
            &&& (fold_history(steps) == Err::<FoldView, DaemonError>(DaemonError::SessionNotFound))
                <==> (history.len() == 0 || history[0].kind@ != "session_created"@)
            &&& fold_history(steps) is Ok ==> fold_history(steps)->Ok_0.1 == history.len()
                && forall|i: int| 0 <= i < history.len() ==> #[trigger] history[i].sequence == i + 1
            &&& history.len() > 0 && history[0].kind@ == "session_created"@ && 0 <= k < history.len()
                && fold_all(steps.take(k)) is Ok && history[k].sequence != k + 1 ==> fold_history(steps)
                == Err::<FoldView, DaemonError>(DaemonError::StorageUnavailable)
        }),
{
    let steps = history.map_values(|e: PersistedEvent| step_of(e));
    folding_a_history(steps, k);
    assert forall|i: int| 0 <= i < history.len() implies steps[i].sequence == history[i].sequence
        && steps[i].kind@ == history[i].kind@ by {}
    if fold_history(steps) is Ok {
        assert forall|i: int| 0 <= i < history.len() implies #[trigger] history[i].sequence == i + 1 by {
            assert(steps[i].sequence == i + 1);
        }
    }
}

/// Whether a stored kind ends an attempt.
pub open spec fn ends_attempt(kind: Seq<char>) -> bool {
    kind == "session_completed"@ || kind == "session_failed"@ || kind == "session_cancelled"@
        || kind == "session_abandoned"@ || kind == "outcome_unknown"@
}

/// Index of the last `dispatch_started` event below `end`.
pub open spec fn last_dispatch_below(h: Seq<PersistedEvent>, end: int) -> Option<int>
    decreases end,
{
    if end <= 0 {
        None
    } else if h[end - 1].kind@ == "dispatch_started"@ {
        Some(end - 1)
    } else {
        last_dispatch_below(h, end - 1)
    }
}

/// The attempt of the last `dispatch_started` event, unless a later event
/// of that attempt ended it.
pub open spec fn open_attempt(h: Seq<PersistedEvent>) -> Option<u128> {
    match last_dispatch_below(h, h.len() as int) {
        None => None,
        Some(i) => match h[i].attempt_id {
            None => None,
            Some(a) => if exists|j: int|
                0 <= j < h.len() && (#[trigger] h[j]).sequence > h[i].sequence && h[j].attempt_id
                    == Some(a) && ends_attempt(h[j].kind@) {
                None
            } else {
                Some(a)
            },
        },
    }
}

proof fn lemma_last_dispatch_below(h: Seq<PersistedEvent>, end: int)
    requires
        end <= h.len(),
    ensures
        last_dispatch_below(h, end) matches Some(i) ==> 0 <= i < end,
    decreases end,
{
    if end > 0 && h[end - 1].kind@ != "dispatch_started"@ {
        lemma_last_dispatch_below(h, end - 1);
    }
}

/// Whether a stored kind ends an attempt.
fn is_attempt_end(kind: &str) -> (r: bool)
    ensures
        r == ends_attempt(kind@),
{
    str_eq(kind, "session_completed") || str_eq(kind, "session_failed") || str_eq(
        kind,
        "session_cancelled",
    ) || str_eq(kind, "session_abandoned") || str_eq(kind, "outcome_unknown")
}

/// The attempt that the last `dispatch_started` began, while no later event
/// of that attempt has ended it.
pub fn latest_started_attempt(history: &[PersistedEvent]) -> (r: Option<u128>)
    ensures
        r == open_attempt(history@),
{
    proof {
        lemma_last_dispatch_below(history@, history@.len() as int);
    }
    let n = history.len();
    let mut end = n;
    while end > 0
        invariant
            n == history@.len(),
            end <= n,
            last_dispatch_below(history@, n as int) == last_dispatch_below(history@, end as int),
        ensures
            end == 0 ==> last_dispatch_below(history@, n as int) is None,
            end > 0 ==> last_dispatch_below(history@, n as int) == Some((end - 1) as int),
        decreases end,
    {
        if str_eq(history[end - 1].kind.as_str(), "dispatch_started") {
            break;
        }
        end -= 1;
    }
    if end == 0 {
        return None;
    }
    let started_sequence = history[end - 1].sequence;
    let attempt = match history[end - 1].attempt_id {
        Some(a) => a,
        None => return None,
    };
    let mut j: usize = 0;
    while j < n
        invariant
            n == history@.len(),
            0 < end <= n,
            last_dispatch_below(history@, n as int) == Some((end - 1) as int),
            history@[end - 1].attempt_id == Some(attempt),
            started_sequence == history@[end - 1].sequence,
            forall|k: int|
                0 <= k < j ==> !((#[trigger] history@[k]).sequence > history@[end - 1].sequence
                    && history@[k].attempt_id == Some(attempt) && ends_attempt(history@[k].kind@)),
        decreases n - j,
    {
        let event = &history[j];
        let same_attempt = match event.attempt_id {
            Some(a) => a == attempt,
            None => false,
        };
        if event.sequence > started_sequence && same_attempt && is_attempt_end(event.kind.as_str()) {
            return None;
        }
        j += 1;
    }
    Some(attempt)
}

/// What restart recovery appends after a session's last event.
#[derive(Clone, Copy, Debug, PartialEq, Eq, Structural)]
pub enum RecoveryAction {
    /// Nothing is incomplete.
    Nothing,
    /// A pause was requested: record `session_paused`.
    CompletePause,
    /// A cancel was requested before any attempt started: record
    /// `cancel_confirmed` and `session_cancelled`.
    ConfirmCancellation,
    /// A cancel was requested while an attempt was open: its outcome is
    /// unknown.
    AttemptOutcomeUnknown(u128),
    /// A confirmed cancellation lacks its terminal event: record
    /// `session_cancelled`.
    FinishCancellation,
}

/// The recovery a history calls for, by its last event.
pub open spec fn recovery_for(h: Seq<PersistedEvent>) -> RecoveryAction {
    if h.len() == 0 {
        RecoveryAction::Nothing
    } else if h.last().kind@ == "pause_requested"@ {
        RecoveryAction::CompletePause
    } else if h.last().kind@ == "cancel_requested"@ {
        match open_attempt(h) {
            None => RecoveryAction::ConfirmCancellation,
            Some(a) => RecoveryAction::AttemptOutcomeUnknown(a),
        }
    } else if h.last().kind@ == "cancel_confirmed"@ {
        RecoveryAction::FinishCancellation
    } else {
        RecoveryAction::Nothing
    }
}

/// Decides what restart recovery must append to a session's history.
pub fn recovery_action(history: &[PersistedEvent]) -> (r: RecoveryAction)
    ensures
        r == recovery_for(history@),
{
    let n = history.len();
    if n == 0 {
        return RecoveryAction::Nothing;
    }
    let last = history[n - 1].kind.as_str();
    if str_eq(last, "pause_requested") {
        RecoveryAction::CompletePause
    } else if str_eq(last, "cancel_requested") {
        match latest_started_attempt(history) {
            None => RecoveryAction::ConfirmCancellation,
            Some(a) => RecoveryAction::AttemptOutcomeUnknown(a),
        }
    } else if str_eq(last, "cancel_confirmed") {
        RecoveryAction::FinishCancellation
    } else {
        RecoveryAction::Nothing
    }
}

/// Recovery never confirms a cancellation while an attempt is open: that
/// attempt's outcome becomes unknown instead.
pub proof fn recovery_never_confirms_an_open_attempt(h: Seq<PersistedEvent>)
    requires
        open_attempt(h) is Some,
    ensures
        recovery_for(h) != RecoveryAction::ConfirmCancellation,
        h.len() > 0 && h.last().kind@ == "cancel_requested"@ ==> recovery_for(h)
            == RecoveryAction::AttemptOutcomeUnknown(open_attempt(h)->0),
{
    reveal_strlit("cancel_requested");
    reveal_strlit("pause_requested");
    assert("cancel_requested"@.len() != "pause_requested"@.len());
}

/// A session in a terminal state.
pub open spec fn is_terminal(state: SessionState) -> bool {
    state == SessionState::Completed || state == SessionState::Failed || state
        == SessionState::Cancelled || state == SessionState::Abandoned
}

fn terminal(state: SessionState) -> (r: bool)
    ensures
        r == is_terminal(state),
{
    match state {
        SessionState::Completed | SessionState::Failed | SessionState::Cancelled
        | SessionState::Abandoned => true,
        _ => false,
    }
}

/// Whether a control command changes the session or only records that it
/// already holds.
#[derive(Clone, Copy, Debug, PartialEq, Eq, Structural)]
pub enum ControlDecision {
    AlreadyApplied,
    Apply,
}

/// Decides `session.pause`: a paused or pausing session already is; a
/// running one pauses unless an external provider runs it, which cannot be
/// paused.
///
/// # Errors
///
/// `InvalidTransition` outside those states; `CapabilityUnavailable` for an
/// external provider.
pub fn pause_decision(state: SessionState, external_active: bool) -> (r: Result<
    ControlDecision,
    DaemonError,
>)
    ensures
        (state == SessionState::Paused || state == SessionState::Pausing) ==> r == Ok::<
            ControlDecision,
            DaemonError,
        >(ControlDecision::AlreadyApplied),
        state == SessionState::Running && !external_active ==> r == Ok::<
            ControlDecision,
            DaemonError,
        >(ControlDecision::Apply),
        state == SessionState::Running && external_active ==> (r matches Err(e)
            && e is CapabilityUnavailable),
        !(state == SessionState::Paused || state == SessionState::Pausing || state
            == SessionState::Running) ==> (r matches Err(e) && e is InvalidTransition),
{
    match state {
        SessionState::Paused | SessionState::Pausing => Ok(ControlDecision::AlreadyApplied),
        SessionState::Running => if external_active {
            Err(DaemonError::CapabilityUnavailable)
        } else {
            Ok(ControlDecision::Apply)
        },
        _ => Err(DaemonError::InvalidTransition),
    }
}

/// Decides `session.resume`: a running session already is; a paused one
/// resumes.
///
/// # Errors
///
/// `InvalidTransition` in any other state.
pub fn resume_decision(state: SessionState) -> (r: Result<ControlDecision, DaemonError>)
    ensures
        state == SessionState::Running ==> r == Ok::<ControlDecision, DaemonError>(
            ControlDecision::AlreadyApplied,
        ),
        state == SessionState::Paused ==> r == Ok::<ControlDecision, DaemonError>(
            ControlDecision::Apply,
        ),
        state != SessionState::Running && state != SessionState::Paused ==> (r matches Err(e)
            && e is InvalidTransition),
{
    match state {
        SessionState::Running => Ok(ControlDecision::AlreadyApplied),
        SessionState::Paused => Ok(ControlDecision::Apply),
        _ => Err(DaemonError::InvalidTransition),
    }
}

/// The state `session.redirect` leaves: a clarification is answered and
/// the session is ready again; a paused session stays paused.
///
/// # Errors
///
/// `InvalidTransition` in any other state.
pub fn redirect_next_state(state: SessionState) -> (r: Result<SessionState, DaemonError>)
    ensures
        state == SessionState::AwaitingClarification ==> r == Ok::<SessionState, DaemonError>(
            SessionState::Ready,
        ),
        state == SessionState::Paused ==> r == Ok::<SessionState, DaemonError>(
            SessionState::Paused,
        ),
        state != SessionState::AwaitingClarification && state != SessionState::Paused ==> (r matches Err(
            e,
        ) && e is InvalidTransition),
{
    match state {
        SessionState::AwaitingClarification => Ok(SessionState::Ready),
        SessionState::Paused => Ok(SessionState::Paused),
        _ => Err(DaemonError::InvalidTransition),
    }
}

/// The state `session.cancel` leaves: cancelled at once when no attempt was
/// started, otherwise waiting for the provider's confirmation.
///
/// # Errors
///
/// `InvalidTransition` for a terminal or deleting session.
pub fn cancel_next_state(state: SessionState, attempt: Option<u128>) -> (r: Result<
    SessionState,
    DaemonError,
>)
    ensures
        (is_terminal(state) || state == SessionState::Deleting) ==> (r matches Err(e)
            && e is InvalidTransition),
        !(is_terminal(state) || state == SessionState::Deleting) ==> r == Ok::<
            SessionState,
            DaemonError,
        >(
            if attempt is None {
                SessionState::Cancelled
            } else {
                SessionState::CancelRequested
            },
        ),
{
    if terminal(state) || state == SessionState::Deleting {
        return Err(DaemonError::InvalidTransition);
    }
    if attempt.is_none() {
        Ok(SessionState::Cancelled)
    } else {
        Ok(SessionState::CancelRequested)
    }
}

/// Whether an approval decision is new or repeats a recorded one.
#[derive(Clone, Copy, Debug, PartialEq, Eq, Structural)]
pub enum ApprovalOutcome {
    /// The same decision was recorded before; it is answered again.
    Repeated(SessionState),
    /// The pending approval is resolved now.
    Resolved(SessionState),
}

/// Decides `session.approval.resolve` against the folded session.
///
/// # Errors
///
/// `InvalidTransition` for a decision that contradicts a recorded one, or
/// when the approval is not the pending one.
pub fn approval_outcome(
    folded: &FoldedSession,
    approval_id: u128,
    decision: ApprovalDecision,
) -> (r: Result<ApprovalOutcome, DaemonError>)
    ensures
        match folded.approval_decisions@.get(approval_id) {
            Some(recorded) => if recorded == decision {
                r == Ok::<ApprovalOutcome, DaemonError>(
                    ApprovalOutcome::Repeated(decided_state(recorded)),
                )
            } else {
                r matches Err(e) && e is InvalidTransition
            },
            None => if folded.state == SessionState::AwaitingApproval && folded.pending_approval_id
                == Some(approval_id) {
                r == Ok::<ApprovalOutcome, DaemonError>(
                    ApprovalOutcome::Resolved(decided_state(decision)),
                )
            } else {
                r matches Err(e) && e is InvalidTransition
            },
        },
{
    match folded.approval_decisions.get(&approval_id) {
        Some(recorded) => {
            if *recorded != decision {
                return Err(DaemonError::InvalidTransition);
            }
            let state = match recorded {
                ApprovalDecision::Grant => SessionState::Running,
                ApprovalDecision::Deny => SessionState::Paused,
            };
            Ok(ApprovalOutcome::Repeated(state))
        },
        None => {
            if folded.state != SessionState::AwaitingApproval || folded.pending_approval_id != Some(
                approval_id,
            ) {
                return Err(DaemonError::InvalidTransition);
            }
            let state = match decision {
                ApprovalDecision::Grant => SessionState::Running,
                ApprovalDecision::Deny => SessionState::Paused,
            };
            Ok(ApprovalOutcome::Resolved(state))
        },
    }
}

/// The state a reconciliation leaves.
pub open spec fn reconciled_state(resolution: ReconciliationResolution) -> SessionState {
    match resolution {
        ReconciliationResolution::Retry => SessionState::Running,
        ReconciliationResolution::AcceptResult => SessionState::Completed,
        ReconciliationResolution::Abandon => SessionState::Abandoned,
    }
}

/// Decides `session.reconcile`: only the uncertain attempt of a session
/// whose outcome is unknown can be reconciled.
///
/// # Errors
///
/// `InvalidTransition` otherwise.
pub fn reconcile_next_state(
    state: SessionState,
    uncertain_attempt_id: Option<u128>,
    attempt_id: u128,
    resolution: ReconciliationResolution,
) -> (r: Result<SessionState, DaemonError>)
    ensures
        state == SessionState::OutcomeUnknown && uncertain_attempt_id == Some(attempt_id) ==> r
            == Ok::<SessionState, DaemonError>(reconciled_state(resolution)),
        !(state == SessionState::OutcomeUnknown && uncertain_attempt_id == Some(attempt_id)) ==> (r matches Err(
            e,
        ) && e is InvalidTransition),
{
    if state != SessionState::OutcomeUnknown || uncertain_attempt_id != Some(attempt_id) {
        return Err(DaemonError::InvalidTransition);
    }
    Ok(
        match resolution {
            ReconciliationResolution::Retry => SessionState::Running,
            ReconciliationResolution::AcceptResult => SessionState::Completed,
            ReconciliationResolution::Abandon => SessionState::Abandoned,
        },
    )
}

/// Checks `session.delete`: the confirmation must name the session, and
/// only a terminal session can be deleted.
///
/// # Errors
///
/// `InvalidRequest("delete confirmation does not match session")` or
/// `InvalidTransition`.
pub fn check_delete(session_id: u128, confirm_session_id: u128, state: SessionState) -> (r: Result<
    (),
    DaemonError,
>)
    ensures
        confirm_session_id != session_id ==> (r matches Err(DaemonError::InvalidRequest(m)) && m@
            == "delete confirmation does not match session"@),
        confirm_session_id == session_id && !is_terminal(state) ==> (r matches Err(e)
            && e is InvalidTransition),
        confirm_session_id == session_id && is_terminal(state) ==> r is Ok,
{
    if confirm_session_id != session_id {
        return Err(DaemonError::InvalidRequest("delete confirmation does not match session"));
    }
    if !terminal(state) {
        return Err(DaemonError::InvalidTransition);
    }
    Ok(())
}

/// Checks `session.prompt` and gives the sequence the input will take.
///
/// # Errors
///
/// `InvalidTransition` unless the session is ready; `Internal` when the
/// sequence would overflow.
pub fn prompt_sequence(state: SessionState, last_sequence: u64) -> (r: Result<u64, DaemonError>)
    ensures
        state != SessionState::Ready ==> (r matches Err(e) && e is InvalidTransition),
        state == SessionState::Ready && last_sequence < u64::MAX ==> r == Ok::<u64, DaemonError>(
            (last_sequence + 1) as u64,
        ),
        state == SessionState::Ready && last_sequence == u64::MAX ==> (r matches Err(e)
            && e is Internal),
{
    if state != SessionState::Ready {
        return Err(DaemonError::InvalidTransition);
    }
    match last_sequence.checked_add(1) {
        Some(next) => Ok(next),
        None => Err(DaemonError::Internal),
    }
}

/// Answers `initialize`: version 1 is selected when the client supports
/// it, with the protocol's frame and queue bounds.
///
/// # Errors
///
/// `UnsupportedVersion` when the client does not support version 1.
pub fn initialize_result(supported_protocols: &[String]) -> (r: Result<
    InitializeResult,
    DaemonError,
>)
    ensures
        (exists|i: int| 0 <= i < supported_protocols@.len() && #[trigger] supported_protocols@[i]@
            == PROTOCOL_V1@) ==> r == Ok::<InitializeResult, DaemonError>(
            InitializeResult {
                selected_protocol: ProtocolVersion::V1,
                max_frame_bytes: 8_388_608,
                max_client_queue_events: 1_024,
                max_client_queue_bytes: 8_388_608,
            },
        ),
        !(exists|i: int| 0 <= i < supported_protocols@.len() && #[trigger] supported_protocols@[i]@
            == PROTOCOL_V1@) ==> (r matches Err(e) && e is UnsupportedVersion),
{
    let n = supported_protocols.len();
    let mut i: usize = 0;
    while i < n
        invariant
            n == supported_protocols@.len(),
            i <= n,
            forall|j: int| 0 <= j < i ==> (#[trigger] supported_protocols@[j])@ != PROTOCOL_V1@,
        decreases n - i,
    {
        if str_eq(supported_protocols[i].as_str(), PROTOCOL_V1) {
            return Ok(
                InitializeResult {
                    selected_protocol: ProtocolVersion::V1,
                    max_frame_bytes: 8_388_608,
                    max_client_queue_events: 1_024,
                    max_client_queue_bytes: 8_388_608,
                },
            );
        }
        i += 1;
    }
    Err(DaemonError::UnsupportedVersion)
}

/// Nanoseconds in a day.
pub const NANOS_PER_DAY: i128 = 86_400_000_000_000;

/// Decides whether a stored session is due for deletion under its pinned
/// retention: it is terminal, has a terminal time, retention is configured,
/// and the terminal time is at least that many days before `now`. Times are
/// nanoseconds since the Unix epoch.
///
/// # Errors
///
/// `"retention must be at least one day"` for a configured retention of 0.
pub fn retention_due(
    state: &str,
    terminal_at: Option<i128>,
    retention_days: Option<u32>,
    now: i128,
) -> (r: Result<bool, &'static str>)
    requires
        i64::MIN <= now <= i64::MAX,
    ensures
        !(state@ == "completed"@ || state@ == "failed"@ || state@ == "cancelled"@ || state@
            == "abandoned"@) ==> r == Ok::<bool, &'static str>(false),
        (state@ == "completed"@ || state@ == "failed"@ || state@ == "cancelled"@ || state@
            == "abandoned"@) ==> match (terminal_at, retention_days) {
            (None, _) => r == Ok::<bool, &'static str>(false),
            (Some(_), None) => r == Ok::<bool, &'static str>(false),
            (Some(_), Some(0)) => r matches Err(m) && m@ == "retention must be at least one day"@,
            (Some(at), Some(days)) => r == Ok::<bool, &'static str>(
                at <= now - days * NANOS_PER_DAY,
            ),
        },
{
    if !(str_eq(state, "completed") || str_eq(state, "failed") || str_eq(state, "cancelled")
        || str_eq(state, "abandoned")) {
        return Ok(false);
    }
    let at = match terminal_at {
        Some(at) => at,
        None => return Ok(false),
    };
    let days = match retention_days {
        Some(days) => days,
        None => return Ok(false),
    };
    if days == 0 {
        return Err("retention must be at least one day");
    }
    let window = (days as i128) * NANOS_PER_DAY;
    Ok(at <= now - window)
}


/// Where a provider attempt's stream stands after one output.
#[derive(Clone, Copy, Debug, PartialEq, Eq, Structural)]
pub enum ProviderOutputState {
    Streaming,
    CancellationPending,
    Terminal,
}

impl ProviderOutputState {
    /// Whether the attempt's stream is finished.
    pub open spec fn is_terminal_spec(self) -> bool {
        self == ProviderOutputState::Terminal
    }

    /// Whether the attempt's stream is finished.
    pub fn is_terminal(self) -> (r: bool)
        ensures
            r == self.is_terminal_spec(),
    {
        match self {
            ProviderOutputState::Terminal => true,
            _ => false,
        }
    }
}

/// The kinds of output a provider stream yields.
#[derive(Clone, Copy, Debug, PartialEq, Eq, Structural)]
pub enum ProviderOutputKind {
    Acknowledged,
    Content,
    Tool,
    Completed,
}

/// What recording one provider output does: the event it appends, where
/// the stream stands, and the attempt outcome it counts.
#[derive(Clone, Copy, Debug, PartialEq, Eq)]
pub struct OutputEffect {
    pub event: Option<EventKind>,
    pub state: ProviderOutputState,
    pub attempt_outcome: Option<&'static str>,
}

/// What recording one provider output does in a session in the given state.
pub open spec fn output_effect(kind: ProviderOutputKind, session_state: SessionState) -> OutputEffect {
    match kind {
        ProviderOutputKind::Acknowledged => OutputEffect {
            event: Some(EventKind::DispatchAcknowledged),
            state: ProviderOutputState::Streaming,
            attempt_outcome: None,
        },
        ProviderOutputKind::Content => OutputEffect {
            event: Some(EventKind::ProviderEvent),
            state: ProviderOutputState::Streaming,
            attempt_outcome: None,
        },
        ProviderOutputKind::Tool => OutputEffect {
            event: Some(EventKind::ToolEvent),
            state: ProviderOutputState::Streaming,
            attempt_outcome: None,
        },
        ProviderOutputKind::Completed => if session_state == SessionState::CancelRequested {
            OutputEffect {
                event: None,
                state: ProviderOutputState::CancellationPending,
                attempt_outcome: None,
            }
        } else {
            OutputEffect {
                event: Some(EventKind::SessionCompleted),
                state: ProviderOutputState::Terminal,
                attempt_outcome: Some("success"),
            }
        },
    }
}

/// The event a provider failure appends and the attempt outcome it
/// counts, in a session in the given state.
pub open spec fn failure_effect(definite: bool, session_state: SessionState) -> (EventKind, &'static str) {
    if definite && session_state != SessionState::CancelRequested {
        (EventKind::SessionFailed, "failed")
    } else {
        (EventKind::OutcomeUnknown, "outcome_unknown")
    }
}

/// Decides how one provider output is recorded. A completion that arrives
/// while cancellation is pending records nothing: the cancellation decides.
pub fn provider_output_effect(kind: ProviderOutputKind, session_state: SessionState) -> (r:
    OutputEffect)
    ensures
        r == output_effect(kind, session_state),
{
    match kind {
        ProviderOutputKind::Acknowledged => OutputEffect {
            event: Some(EventKind::DispatchAcknowledged),
            state: ProviderOutputState::Streaming,
            attempt_outcome: None,
        },
        ProviderOutputKind::Content => OutputEffect {
            event: Some(EventKind::ProviderEvent),
            state: ProviderOutputState::Streaming,
            attempt_outcome: None,
        },
        ProviderOutputKind::Tool => OutputEffect {
            event: Some(EventKind::ToolEvent),
            state: ProviderOutputState::Streaming,
            attempt_outcome: None,
        },
        ProviderOutputKind::Completed => if session_state == SessionState::CancelRequested {
            OutputEffect {
                event: None,
                state: ProviderOutputState::CancellationPending,
                attempt_outcome: None,
            }
        } else {
            OutputEffect {
                event: Some(EventKind::SessionCompleted),
                state: ProviderOutputState::Terminal,
                attempt_outcome: Some("success"),
            }
        },
    }
}

/// Decides how a provider failure is recorded: a definite failure fails
/// the session unless a cancellation is pending; anything else leaves the
/// attempt's outcome unknown for human reconciliation.
pub fn provider_failure_effect(definite: bool, session_state: SessionState) -> (r: (
    EventKind,
    &'static str,
))
    ensures
        r == failure_effect(definite, session_state),
{
    if definite && session_state != SessionState::CancelRequested {
        (EventKind::SessionFailed, "failed")
    } else {
        (EventKind::OutcomeUnknown, "outcome_unknown")
    }
}

/// While a cancellation is pending, nothing the provider yields settles the
/// session: a completion appends no event and leaves the stream open for the
/// cancellation, and any failure, definite or not, only marks the outcome
/// unknown.
pub proof fn provider_never_settles_a_pending_cancellation(kind: ProviderOutputKind, definite: bool)
    ensures
        output_effect(kind, SessionState::CancelRequested).event != Some(EventKind::SessionCompleted),
        !output_effect(kind, SessionState::CancelRequested).state.is_terminal_spec(),
        output_effect(kind, SessionState::CancelRequested).attempt_outcome is None,
        failure_effect(definite, SessionState::CancelRequested).0 == EventKind::OutcomeUnknown,
{
}

/// Only a completion ends the provider's stream, and it is counted as a
/// success exactly when it ends the stream.
pub proof fn only_completion_ends_the_stream(kind: ProviderOutputKind, session_state: SessionState)
    ensures
        output_effect(kind, session_state).state.is_terminal_spec() ==> kind
            == ProviderOutputKind::Completed,
        output_effect(kind, session_state).state.is_terminal_spec() <==> output_effect(
            kind,
            session_state,
        ).attempt_outcome is Some,
{
}


/// The last event of a history that satisfies `p`.
pub open spec fn last_match(h: Seq<PersistedEvent>, p: spec_fn(PersistedEvent) -> bool) -> Option<int>
    decreases h.len(),
{
    if h.len() == 0 {
        None
    } else if p(h.last()) {
        Some(h.len() - 1)
    } else {
        last_match(h.drop_last(), p)
    }
}

/// The first event of a history that satisfies `p`.
pub open spec fn first_match(h: Seq<PersistedEvent>, p: spec_fn(PersistedEvent) -> bool) -> Option<int>
    decreases h.len(),
{
    if h.len() == 0 {
        None
    } else {
        match first_match(h.drop_last(), p) {
            Some(i) => Some(i),
            None => if p(h.last()) {
                Some(h.len() - 1)
            } else {
                None
            },
        }
    }
}

/// What `last_match` finds: a match with none after it, or no match at all.
pub proof fn lemma_last_match(h: Seq<PersistedEvent>, p: spec_fn(PersistedEvent) -> bool)
    ensures
        match last_match(h, p) {
            Some(i) => 0 <= i < h.len() && p(h[i]) && forall|j: int| i < j < h.len() ==> !p(#[trigger] h[j]),
            None => forall|j: int| 0 <= j < h.len() ==> !p(#[trigger] h[j]),
        },
    decreases h.len(),
{
    if h.len() > 0 && !p(h.last()) {
        let init = h.drop_last();
        lemma_last_match(init, p);
        match last_match(init, p) {
            Some(i) => {
                assert(h[i] == init[i]);
                assert forall|j: int| i < j < h.len() implies !p(#[trigger] h[j]) by {
                    if j < h.len() - 1 {
                        assert(h[j] == init[j]);
                    }
                }
            },
            None => {
                assert forall|j: int| 0 <= j < h.len() implies !p(#[trigger] h[j]) by {
                    if j < h.len() - 1 {
                        assert(h[j] == init[j]);
                    }
                }
            },
        }
    }
}

/// What `first_match` finds: a match with none before it, or no match at all.
pub proof fn lemma_first_match(h: Seq<PersistedEvent>, p: spec_fn(PersistedEvent) -> bool)
    ensures
        match first_match(h, p) {
            Some(i) => 0 <= i < h.len() && p(h[i]) && forall|j: int| 0 <= j < i ==> !p(#[trigger] h[j]),
            None => forall|j: int| 0 <= j < h.len() ==> !p(#[trigger] h[j]),
        },
    decreases h.len(),
{
    if h.len() > 0 {
        let init = h.drop_last();
        lemma_first_match(init, p);
        match first_match(init, p) {
            Some(i) => {
                assert(h[i] == init[i]);
                assert forall|j: int| 0 <= j < i implies !p(#[trigger] h[j]) by {
                    assert(h[j] == init[j]);
                }
            },
            None => {
                assert forall|j: int| 0 <= j < h.len() - 1 implies !p(#[trigger] h[j]) by {
                    assert(h[j] == init[j]);
                }
            },
        }
    }
}

/// An event of the given kind.
pub open spec fn of_kind(kind: Seq<char>) -> spec_fn(PersistedEvent) -> bool {
    |e: PersistedEvent| e.kind@ == kind
}

/// An event of the given kind caused by the given request.
pub open spec fn of_kind_for(kind: Seq<char>, request_id: u128) -> spec_fn(PersistedEvent) -> bool {
    |e: PersistedEvent| e.kind@ == kind && e.causation_request_id == Some(request_id)
}

/// The event a provider attempt reads its inputs from: the latest one of
/// the kind caused by the preferred request, else the latest of the kind.
pub open spec fn selected_event(h: Seq<PersistedEvent>, kind: Seq<char>, request_id: u128) -> Option<int> {
    match last_match(h, of_kind_for(kind, request_id)) {
        Some(i) => Some(i),
        None => last_match(h, of_kind(kind)),
    }
}

/// Finds the event a provider attempt reads its inputs from.
pub fn select_event(history: &[PersistedEvent], kind: &str, request_id: u128) -> (r: Option<usize>)
    ensures
        match r {
            Some(i) => i < history@.len() && selected_event(history@, kind@, request_id) == Some(
                i as int,
            ),
            None => selected_event(history@, kind@, request_id) is None,
        },
{
    let ghost h = history@;
    proof {
        lemma_last_match(h, of_kind_for(kind@, request_id));
        lemma_last_match(h, of_kind(kind@));
    }
    let mut i: usize = history.len();
    while i > 0
        invariant
            h == history@,
            i <= h.len(),
            forall|j: int| i <= j < h.len() ==> !(of_kind_for(kind@, request_id))(#[trigger] h[j]),
            match last_match(h, of_kind_for(kind@, request_id)) {
                Some(k) => 0 <= k < h.len() && (of_kind_for(kind@, request_id))(h[k]) && forall|j: int|
                    k < j < h.len() ==> !(of_kind_for(kind@, request_id))(#[trigger] h[j]),
                None => forall|j: int| 0 <= j < h.len() ==> !(of_kind_for(kind@, request_id))(#[trigger] h[j]),
            },
        decreases i,
    {
        i -= 1;
        if str_eq(history[i].kind.as_str(), kind) && history[i].causation_request_id == Some(request_id) {
            proof {
                assert((of_kind_for(kind@, request_id))(h[i as int]));
                match last_match(h, of_kind_for(kind@, request_id)) {
                    Some(k) => {
                        if k > i {
                            assert(!(of_kind_for(kind@, request_id))(h[k]));
                        } else if k < i {
                            assert(!(of_kind_for(kind@, request_id))(h[i as int]));
                        }
                    },
                    None => {
                        assert(!(of_kind_for(kind@, request_id))(h[i as int]));
                    },
                }
            }
            return Some(i);
        }
    }
    let mut i: usize = history.len();
    while i > 0
        invariant
            h == history@,
            i <= h.len(),
            last_match(h, of_kind_for(kind@, request_id)) is None,
            forall|j: int| i <= j < h.len() ==> !(of_kind(kind@))(#[trigger] h[j]),
            match last_match(h, of_kind(kind@)) {
                Some(k) => 0 <= k < h.len() && (of_kind(kind@))(h[k]) && forall|j: int|
                    k < j < h.len() ==> !(of_kind(kind@))(#[trigger] h[j]),
                None => forall|j: int| 0 <= j < h.len() ==> !(of_kind(kind@))(#[trigger] h[j]),
            },
        decreases i,
    {
        i -= 1;
        if str_eq(history[i].kind.as_str(), kind) {
            proof {
                assert((of_kind(kind@))(h[i as int]));
                match last_match(h, of_kind(kind@)) {
                    Some(k) => {
                        if k > i {
                            assert(!(of_kind(kind@))(h[k]));
                        } else if k < i {
                            assert(!(of_kind(kind@))(h[i as int]));
                        }
                    },
                    None => {
                        assert(!(of_kind(kind@))(h[i as int]));
                    },
                }
            }
            return Some(i);
        }
    }
    None
}

/// The provider, runtime model and prompt an attempt is dispatched with:
/// the `provider` and `runtime_model` members of the selected
/// `routing_planned` event and the `content` member of the selected
/// `input_recorded` event.
pub open spec fn execution_inputs(h: Seq<PersistedEvent>, request_id: u128) -> Option<(Seq<char>, Seq<char>, Seq<char>)> {
    match (selected_event(h, "routing_planned"@, request_id), selected_event(h, "input_recorded"@, request_id)) {
        (Some(ri), Some(ii)) => match (
            h[ri].payload.member_text("provider"@),
            h[ri].payload.member_text("runtime_model"@),
            h[ii].payload.member_text("content"@),
        ) {
            (Some(p), Some(m), Some(c)) => Some((p, m, c)),
            _ => None,
        },
        _ => None,
    }
}

/// Reads from a history what a provider attempt is dispatched with.
///
/// # Errors
///
/// `StorageUnavailable` when the routing or input event, or one of the
/// members it needs, is missing.
pub fn provider_execution_inputs(history: &[PersistedEvent], request_id: u128) -> (r: Result<
    (String, String, String),
    DaemonError,
>)
    ensures
        match execution_inputs(history@, request_id) {
            Some((p, m, c)) => r matches Ok((rp, rm, rc)) && rp@ == p && rm@ == m && rc@ == c,
            None => r == Err::<(String, String, String), DaemonError>(DaemonError::StorageUnavailable),
        },
{
    let routing = match select_event(history, "routing_planned", request_id) {
        Some(i) => i,
        None => return Err(DaemonError::StorageUnavailable),
    };
    let input = match select_event(history, "input_recorded", request_id) {
        Some(i) => i,
        None => return Err(DaemonError::StorageUnavailable),
    };
    let provider = match history[routing].payload.member("provider") {
        Some(member) => match member.as_text() {
            Some(text) => text,
            None => return Err(DaemonError::StorageUnavailable),
        },
        None => return Err(DaemonError::StorageUnavailable),
    };
    let runtime_model = match history[routing].payload.member("runtime_model") {
        Some(member) => match member.as_text() {
            Some(text) => text,
            None => return Err(DaemonError::StorageUnavailable),
        },
        None => return Err(DaemonError::StorageUnavailable),
    };
    let prompt = match history[input].payload.member("content") {
        Some(member) => match member.as_text() {
            Some(text) => text,
            None => return Err(DaemonError::StorageUnavailable),
        },
        None => return Err(DaemonError::StorageUnavailable),
    };
    Ok((provider.to_owned(), runtime_model.to_owned(), prompt.to_owned()))
}


/// Decides whether a command may be handled: nothing is handled while the
/// daemon shuts down, a command that names a session must be a session
/// method, and one that names none must be one of the others.
///
/// # Errors
///
/// `InvalidRequest` with the reason.
pub fn dispatch_check(shutting_down: bool, session_id: Option<u128>, command: &Command) -> (r: Result<
    (),
    DaemonError,
>)
    ensures
        shutting_down ==> (r matches Err(DaemonError::InvalidRequest(m)) && m@
            == "daemon is shutting down"@),
        !shutting_down && session_id is Some && !needs_session(*command) ==> (r matches Err(
            DaemonError::InvalidRequest(m),
        ) && m@ == "method is not valid for a session"@),
        !shutting_down && session_id is None && needs_session(*command) ==> (r matches Err(
            DaemonError::InvalidRequest(m),
        ) && m@ == "session identifier is required"@),
        !shutting_down && (session_id is Some) == needs_session(*command) ==> r is Ok,
{
    if shutting_down {
        return Err(DaemonError::InvalidRequest("daemon is shutting down"));
    }
    let scoped = command.requires_session();
    match session_id {
        Some(_) => if scoped {
            Ok(())
        } else {
            Err(DaemonError::InvalidRequest("method is not valid for a session"))
        },
        None => if scoped {
            Err(DaemonError::InvalidRequest("session identifier is required"))
        } else {
            Ok(())
        },
    }
}

/// The `session.get` result of a folded session.
pub fn session_result(session_id: u128, folded: &FoldedSession) -> (r: SessionResult)
    ensures
        r.session_id == session_id,
        r.state == folded.state,
        r.last_sequence == folded.last_sequence,
        r.pending_approval_id == folded.pending_approval_id,
        r.uncertain_attempt_id == folded.uncertain_attempt_id,
{
    SessionResult {
        session_id,
        state: folded.state,
        last_sequence: folded.last_sequence,
        pending_approval_id: folded.pending_approval_id,
        uncertain_attempt_id: folded.uncertain_attempt_id,
    }
}

/// The `session.attach` result of a folded session; the replay holds the
/// events after `after_sequence`.
pub fn attach_result(session_id: u128, folded: &FoldedSession, after_sequence: u64) -> (r:
    AttachSessionResult)
    ensures
        r.session_id == session_id,
        r.state == folded.state,
        r.replay_after_sequence == after_sequence,
        r.last_sequence == folded.last_sequence,
{
    AttachSessionResult {
        session_id,
        state: folded.state,
        replay_after_sequence: after_sequence,
        last_sequence: folded.last_sequence,
    }
}

} // verus!

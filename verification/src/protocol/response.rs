//! Replies and result payloads of the client protocol.

use vstd::prelude::*;
use vstd::utf8::encode_utf8;

use crate::protocol::command::{ApprovalDecision, ReconciliationResolution};
use crate::protocol::ids::PROTOCOL_V1;
use crate::text::{str_eq, utf8_len};

verus! {

/// Outcome of one request: its result or a protocol error.
#[derive(Debug)]
pub enum ServerReply<T> {
    Success { request_id: u128, result: T },
    Failure { request_id: u128, error: ProtocolError },
}

/// Redacted protocol failure.
#[derive(Debug, Clone)]
pub struct ProtocolError {
    pub code: ErrorCode,
    pub message: String,
    pub retryable: bool,
    pub correlation_id: u128,
}

/// Stable error codes of the protocol.
#[derive(Clone, Copy, Debug, PartialEq, Eq, Structural)]
pub enum ErrorCode {
    InvalidRequest,
    UnsupportedVersion,
    FrameTooLarge,
    UnauthorizedPeer,
    SessionNotFound,
    InvalidTransition,
    CapabilityUnavailable,
    PolicyDenied,
    ApprovalRequired,
    ProviderUnavailable,
    ProviderTimeout,
    OutcomeUnknown,
    ClientLagged,
    StorageUnavailable,
    KeyStoreUnavailable,
    Internal,
}

/// Result of `initialize`.
#[derive(Debug, Clone, Copy, PartialEq, Eq, Structural)]
pub struct InitializeResult {
    pub selected_protocol: ProtocolVersion,
    pub max_frame_bytes: u64,
    pub max_client_queue_events: u64,
    pub max_client_queue_bytes: u64,
}

/// Negotiated protocol versions.
#[derive(Clone, Copy, Debug, PartialEq, Eq, Structural)]
pub enum ProtocolVersion {
    V1,
}

/// Result of `status.get`.
#[derive(Debug, Clone)]
pub struct StatusResult {
    pub daemon_version: String,
    pub protocol: ProtocolVersion,
    pub storage_schema_version: u32,
    pub key_store: KeyStoreStatus,
    pub migration: MigrationStatus,
    pub active_sessions: u64,
    pub adapters: Vec<AdapterHealth>,
}

/// Availability of the platform key store.
#[derive(Clone, Copy, Debug, PartialEq, Eq, Structural)]
pub enum KeyStoreStatus {
    Available,
    Locked,
    Unavailable,
}

/// Storage migration status.
#[derive(Clone, Copy, Debug, PartialEq, Eq, Structural)]
pub enum MigrationStatus {
    Ready,
    Failed,
}

/// Health of one provider adapter.
#[derive(Debug, Clone)]
pub struct AdapterHealth {
    pub id: String,
    pub status: AdapterStatus,
}

/// Whether an adapter can serve prompts.
#[derive(Clone, Copy, Debug, PartialEq, Eq, Structural)]
pub enum AdapterStatus {
    Available,
    Unavailable,
}

/// Result of `session.create`.
#[derive(Debug, Clone)]
pub struct CreateSessionResult {
    pub session_id: u128,
    pub configuration_hash: String,
    pub lock_hash: String,
    pub state: ReadyState,
}

/// A created session is ready.
#[derive(Clone, Copy, Debug, PartialEq, Eq, Structural)]
pub enum ReadyState {
    Ready,
}

/// Result of `session.get`.
#[derive(Debug, Clone, Copy, PartialEq, Eq, Structural)]
pub struct SessionResult {
    pub session_id: u128,
    pub state: SessionState,
    pub last_sequence: u64,
    pub pending_approval_id: Option<u128>,
    pub uncertain_attempt_id: Option<u128>,
}

/// Result of `session.attach`.
#[derive(Debug, Clone, Copy, PartialEq, Eq, Structural)]
pub struct AttachSessionResult {
    pub session_id: u128,
    pub state: SessionState,
    pub replay_after_sequence: u64,
    pub last_sequence: u64,
}

/// Result of `session.prompt`.
#[derive(Debug, Clone, Copy, PartialEq, Eq, Structural)]
pub struct PromptResult {
    pub input_id: u128,
    pub sequence: u64,
}

/// Result of a session control command.
#[derive(Debug, Clone, Copy, PartialEq, Eq, Structural)]
pub struct ControlResult {
    pub control_id: u128,
    pub control: Control,
    pub state: SessionState,
}

/// Session control commands.
#[derive(Clone, Copy, Debug, PartialEq, Eq, Structural)]
pub enum Control {
    Pause,
    Resume,
    Redirect,
    Cancel,
}

/// Result of `session.approval.resolve`.
#[derive(Debug, Clone, Copy, PartialEq, Eq, Structural)]
pub struct ApprovalResult {
    pub approval_id: u128,
    pub decision: ApprovalDecision,
    pub state: SessionState,
}

/// Result of `session.reconcile`.
#[derive(Debug, Clone, Copy, PartialEq, Eq, Structural)]
pub struct ReconciliationResult {
    pub attempt_id: u128,
    pub resolution: ReconciliationResolution,
    pub replacement_attempt_id: Option<u128>,
    pub state: SessionState,
}

/// Result of `session.export`.
#[derive(Debug, Clone)]
pub struct ExportResult {
    pub export_id: u128,
    pub format: ExportFormat,
    pub recipient_fingerprints: Vec<String>,
}

/// Export container formats.
#[derive(Clone, Copy, Debug, PartialEq, Eq, Structural)]
pub enum ExportFormat {
    AgeV1,
}

/// Result of `session.delete`.
#[derive(Debug, Clone, Copy, PartialEq, Eq, Structural)]
pub struct DeleteResult {
    pub deletion_id: u128,
    pub state: DeleteState,
}

/// Progress of a deletion.
#[derive(Clone, Copy, Debug, PartialEq, Eq, Structural)]
pub enum DeleteState {
    Deleting,
    Deleted,
}

/// Lifecycle states of a session.
#[derive(Clone, Copy, Debug, PartialEq, Eq, Structural)]
pub enum SessionState {
    Ready,
    Running,
    Pausing,
    Paused,
    AwaitingClarification,
    AwaitingApproval,
    CancelRequested,
    OutcomeUnknown,
    Completed,
    Failed,
    Cancelled,
    Abandoned,
    Deleting,
}

/// Error codes that must never be marked retryable.
pub open spec fn never_retryable(code: ErrorCode) -> bool {
    !(code == ErrorCode::ProviderUnavailable || code == ErrorCode::ProviderTimeout || code
        == ErrorCode::StorageUnavailable)
}

/// The rule that a protocol error breaks, if any.
pub open spec fn protocol_error_fault(
    code: ErrorCode,
    message_bytes: nat,
    retryable: bool,
) -> Option<Seq<char>> {
    if message_bytes == 0 || message_bytes > 512 {
        Some("error message must contain 1 to 512 bytes"@)
    } else if never_retryable(code) && retryable {
        Some("error category cannot be marked retryable"@)
    } else {
        None
    }
}

impl ProtocolError {
    /// Checks the message size and that the code may carry `retryable`.
    ///
    /// # Errors
    ///
    /// Returns the broken rule.
    pub fn validate(&self) -> (r: Result<(), String>)
        ensures
            match protocol_error_fault(self.code, encode_utf8(self.message@).len(), self.retryable) {
                None => r is Ok,
                Some(m) => r matches Err(e) && e@ == m,
            },
    {
        let len = utf8_len(self.message.as_str());
        if len == 0 || len > 512 {
            return Err("error message must contain 1 to 512 bytes".to_owned());
        }
        let restricted = match self.code {
            ErrorCode::ProviderUnavailable | ErrorCode::ProviderTimeout
            | ErrorCode::StorageUnavailable => false,
            _ => true,
        };
        if restricted && self.retryable {
            return Err("error category cannot be marked retryable".to_owned());
        }
        Ok(())
    }
}

/// How a reply's wire fields are read: exactly one outcome, and a valid error.
pub open spec fn reply_fault<T>(
    protocol: Seq<char>,
    ok: bool,
    result: Option<T>,
    error: Option<ProtocolError>,
) -> Option<Seq<char>> {
    if protocol != PROTOCOL_V1@ {
        Some("unsupported protocol major"@)
    } else {
        match (ok, result, error) {
            (true, Some(_), None) => None,
            (false, None, Some(e)) => protocol_error_fault(
                e.code,
                encode_utf8(e.message@).len(),
                e.retryable,
            ),
            _ => Some("reply must contain exactly one valid outcome"@),
        }
    }
}

impl<T> ServerReply<T> {
    /// Assembles a reply from its wire fields.
    ///
    /// # Errors
    ///
    /// Returns why the fields do not form a reply.
    pub fn from_wire(
        protocol: &str,
        request_id: u128,
        ok: bool,
        result: Option<T>,
        error: Option<ProtocolError>,
    ) -> (r: Result<Self, String>)
        ensures
            match reply_fault(protocol@, ok, result, error) {
                Some(m) => r matches Err(e) && e@ == m,
                None => match r {
                    Ok(ServerReply::Success { request_id: id, result: value }) => ok && id
                        == request_id && result == Some(value),
                    Ok(ServerReply::Failure { request_id: id, error: value }) => !ok && id
                        == request_id && error == Some(value),
                    Err(_) => false,
                },
            },
    {
        if !str_eq(protocol, PROTOCOL_V1) {
            return Err("unsupported protocol major".to_owned());
        }
        match (ok, result, error) {
            (true, Some(result), None) => Ok(ServerReply::Success { request_id, result }),
            (false, None, Some(error)) => match error.validate() {
                Ok(()) => Ok(ServerReply::Failure { request_id, error }),
                Err(e) => Err(e),
            },
            _ => Err("reply must contain exactly one valid outcome".to_owned()),
        }
    }
}

} // verus!

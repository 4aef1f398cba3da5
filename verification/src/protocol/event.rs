//! Session events published to clients.

use vstd::prelude::*;

use crate::json::{JsonValue, same_json};
use crate::protocol::ids::PROTOCOL_V1;
use crate::text::str_eq;

verus! {

/// Closed set of session event kinds.
#[derive(Clone, Copy, Debug, PartialEq, Eq, Structural)]
pub enum EventKind {
    SessionCreated,
    ConfigurationResolved,
    InputRecorded,
    RoutingPlanned,
    ClarificationRequested,
    ApprovalRequested,
    ApprovalRecorded,
    DispatchPlanned,
    DispatchStarted,
    DispatchAcknowledged,
    ProviderEvent,
    ToolEvent,
    PauseRequested,
    SessionPaused,
    SessionResumed,
    SessionRedirected,
    CancelRequested,
    CancelConfirmed,
    OutcomeUnknown,
    OutcomeReconciled,
    SessionCompleted,
    SessionFailed,
    SessionCancelled,
    SessionAbandoned,
    SessionExported,
    SessionDeletionRequested,
    SessionDeleted,
}

/// One sequenced session event.
#[derive(Debug, PartialEq)]
pub struct SessionEvent {
    pub protocol: String,
    pub event_id: u128,
    pub session_id: u128,
    pub sequence: u64,
    pub causation_request_id: Option<u128>,
    pub kind: EventKind,
    pub occurred_at: String,
    pub data: JsonValue,
}

impl SessionEvent {
    /// Checks the protocol label, the sequence number and the data shape.
    ///
    /// # Errors
    ///
    /// Returns the first rule that the event breaks.
    pub fn validate(&self) -> (r: Result<(), &'static str>)
        ensures
            self.protocol@ != PROTOCOL_V1@ ==> r == Err::<(), &'static str>(
                "unsupported protocol major",
            ),
            self.protocol@ == PROTOCOL_V1@ && self.sequence == 0 ==> r == Err::<(), &'static str>(
                "event sequence must be positive",
            ),
            self.protocol@ == PROTOCOL_V1@ && self.sequence > 0 && !self.data.spec_is_object()
                ==> r == Err::<(), &'static str>("event data must be an object"),
            self.protocol@ == PROTOCOL_V1@ && self.sequence > 0 && self.data.spec_is_object()
                ==> r is Ok,
    {
        if !str_eq(self.protocol.as_str(), PROTOCOL_V1) {
            return Err("unsupported protocol major");
        }
        if self.sequence == 0 {
            return Err("event sequence must be positive");
        }
        if !self.data.is_object() {
            return Err("event data must be an object");
        }
        Ok(())
    }
}


/// Two events alike in every field, their data deep copies of each other.
pub open spec fn same_event(a: SessionEvent, b: SessionEvent) -> bool {
    &&& a.protocol@ == b.protocol@
    &&& a.event_id == b.event_id
    &&& a.session_id == b.session_id
    &&& a.sequence == b.sequence
    &&& a.causation_request_id == b.causation_request_id
    &&& a.kind == b.kind
    &&& a.occurred_at@ == b.occurred_at@
    &&& same_json(a.data, b.data)
}

impl Clone for SessionEvent {
    /// A deep copy.
    fn clone(&self) -> (r: Self)
        ensures
            same_event(*self, r),
    {
        SessionEvent {
            protocol: self.protocol.clone(),
            event_id: self.event_id,
            session_id: self.session_id,
            sequence: self.sequence,
            causation_request_id: self.causation_request_id,
            kind: self.kind,
            occurred_at: self.occurred_at.clone(),
            data: self.data.clone(),
        }
    }
}

} // verus!

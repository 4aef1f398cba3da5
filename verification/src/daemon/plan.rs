//! Events the daemon plans to append for each command, recovery and
//! provider outcome, and the laws that tie each plan to the state that
//! folding the appended events gives.

use vstd::prelude::*;

use crate::daemon::session::{
    DaemonError, DecisionField, FoldStep, FoldView, PersistedEvent, RecoveryAction, decided_state,
    event_kind_label, event_kind_names_distinct, fold_all, fold_history, fold_step,
    folding_is_incremental, is_terminal, payload_uuid, reconciled_state, recovery_action,
    recovery_for, step_of, value_uuid,
};
use crate::mcp::policy::PermissionMode;
use crate::protocol::command::{ApprovalDecision, ReconciliationResolution};
use crate::protocol::event::EventKind;
use crate::protocol::response::{Control, ControlResult, ReconciliationResult, SessionState};

verus! {

/// The payload of a planned event; the daemon renders it as JSON.
#[derive(Clone, Debug, PartialEq, Eq)]
pub enum PlannedPayload {
    /// A copy of the last event's payload.
    CopyOfLast,
    /// The control id of the cancel request, when its payload names one.
    ControlId(Option<u128>),
    /// A terminal payload with this reason.
    Terminal(&'static str),
    /// The uncertain attempt, why its outcome is unknown, and the
    /// reconciliation options.
    UncertainAttempt(u128, &'static str),
    /// How a human reconciled an uncertain attempt: the attempt, the
    /// resolution, the replacement attempt of a retry, and whether evidence
    /// was recorded.
    Reconciled(u128, ReconciliationResolution, Option<u128>, bool),
    /// A paid prompt dispatch planned for an attempt, after its predecessor.
    DispatchPlanned(u128, Option<u128>),
    /// The dispatch of an attempt started.
    DispatchStarted(u128),
    /// A control: its id, the actor who sent it, and a redirect's
    /// instruction.
    Control(u128, String, Option<String>),
    /// A recorded prompt: its input id and content.
    Input(u128, String),
    /// A clarification question and why it is asked.
    Clarification(String),
    /// The routing plan the prompt was routed by; the daemon renders it.
    Routing,
    /// An approval requested before a paid prompt dispatch.
    ApprovalRequest(u128),
    /// A recorded approval decision and the actor who made it.
    ApprovalDecided(u128, String, ApprovalDecision),
    /// The offline fake provider's response within an attempt.
    FakeResponse(u128),
}

/// The approval a planned payload names, as folding reads it back.
pub open spec fn planned_approval_id(p: PlannedPayload) -> Option<u128> {
    match p {
        PlannedPayload::ApprovalRequest(id) => Some(id),
        PlannedPayload::ApprovalDecided(id, _, _) => Some(id),
        _ => None,
    }
}

/// The decision a planned payload records, as folding reads it back.
pub open spec fn planned_decision(p: PlannedPayload) -> DecisionField {
    match p {
        PlannedPayload::ApprovalDecided(_, _, d) => DecisionField::Valid(d),
        _ => DecisionField::Missing,
    }
}

/// The attempt a planned payload names, as folding reads it back.
pub open spec fn planned_attempt(p: PlannedPayload) -> Option<u128> {
    match p {
        PlannedPayload::UncertainAttempt(a, _) => Some(a),
        PlannedPayload::Reconciled(a, _, _, _) => Some(a),
        PlannedPayload::DispatchPlanned(a, _) => Some(a),
        PlannedPayload::DispatchStarted(a) => Some(a),
        PlannedPayload::FakeResponse(a) => Some(a),
        _ => None,
    }
}

/// One event the daemon is to append: its kind, the request that caused
/// it, the attempt it concerns and its payload.
#[derive(Clone, Debug, PartialEq, Eq)]
pub struct PlannedEvent {
    pub kind: EventKind,
    pub causation_request_id: Option<u128>,
    pub attempt_id: Option<u128>,
    pub payload: PlannedPayload,
}

/// The events restart recovery appends after a history, each caused by the
/// request of the history's last event.
pub open spec fn recovery_plan(h: Seq<PersistedEvent>) -> Seq<PlannedEvent> {
    let cause = h.last().causation_request_id;
    match recovery_for(h) {
        RecoveryAction::Nothing => Seq::empty(),
        RecoveryAction::CompletePause => seq![
            PlannedEvent {
                kind: EventKind::SessionPaused,
                causation_request_id: cause,
                attempt_id: None,
                payload: PlannedPayload::CopyOfLast,
            },
        ],
        RecoveryAction::ConfirmCancellation => seq![
            PlannedEvent {
                kind: EventKind::CancelConfirmed,
                causation_request_id: cause,
                attempt_id: None,
                payload: PlannedPayload::ControlId(payload_uuid(h.last().payload, "control_id"@)),
            },
            PlannedEvent {
                kind: EventKind::SessionCancelled,
                causation_request_id: cause,
                attempt_id: None,
                payload: PlannedPayload::Terminal("provider cancellation recovered"),
            },
        ],
        RecoveryAction::AttemptOutcomeUnknown(a) => seq![
            PlannedEvent {
                kind: EventKind::OutcomeUnknown,
                causation_request_id: cause,
                attempt_id: Some(a),
                payload: PlannedPayload::UncertainAttempt(
                    a,
                    "cancellation recovery could not confirm provider outcome",
                ),
            },
        ],
        RecoveryAction::FinishCancellation => seq![
            PlannedEvent {
                kind: EventKind::SessionCancelled,
                causation_request_id: cause,
                attempt_id: h.last().attempt_id,
                payload: PlannedPayload::Terminal("confirmed cancellation recovered"),
            },
        ],
    }
}

/// Plans the events restart recovery appends to a session's history.
pub fn recovery_events(history: &[PersistedEvent]) -> (r: Vec<PlannedEvent>)
    ensures
        r@ == recovery_plan(history@),
{
    let action = recovery_action(history);
    let n = history.len();
    if n == 0 {
        return Vec::new();
    }
    let last = &history[n - 1];
    let cause = last.causation_request_id;
    match action {
        RecoveryAction::Nothing => Vec::new(),
        RecoveryAction::CompletePause => vec![
            PlannedEvent {
                kind: EventKind::SessionPaused,
                causation_request_id: cause,
                attempt_id: None,
                payload: PlannedPayload::CopyOfLast,
            },
        ],
        RecoveryAction::ConfirmCancellation => vec![
            PlannedEvent {
                kind: EventKind::CancelConfirmed,
                causation_request_id: cause,
                attempt_id: None,
                payload: PlannedPayload::ControlId(value_uuid(&last.payload, "control_id")),
            },
            PlannedEvent {
                kind: EventKind::SessionCancelled,
                causation_request_id: cause,
                attempt_id: None,
                payload: PlannedPayload::Terminal("provider cancellation recovered"),
            },
        ],
        RecoveryAction::AttemptOutcomeUnknown(a) => vec![
            PlannedEvent {
                kind: EventKind::OutcomeUnknown,
                causation_request_id: cause,
                attempt_id: Some(a),
                payload: PlannedPayload::UncertainAttempt(
                    a,
                    "cancellation recovery could not confirm provider outcome",
                ),
            },
        ],
        RecoveryAction::FinishCancellation => vec![
            PlannedEvent {
                kind: EventKind::SessionCancelled,
                causation_request_id: cause,
                attempt_id: last.attempt_id,
                payload: PlannedPayload::Terminal("confirmed cancellation recovered"),
            },
        ],
    }
}

/// The attempt outcome that telemetry counts for a recovery, if any.
pub fn recovery_attempt_label(action: RecoveryAction) -> (r: Option<&'static str>)
    ensures
        action is ConfirmCancellation || action is FinishCancellation ==> (r matches Some(l) && l@
            == "cancelled"@),
        action is AttemptOutcomeUnknown ==> (r matches Some(l) && l@ == "outcome_unknown"@),
        action is Nothing || action is CompletePause ==> r is None,
{
    match action {
        RecoveryAction::ConfirmCancellation | RecoveryAction::FinishCancellation => Some(
            "cancelled",
        ),
        RecoveryAction::AttemptOutcomeUnknown(_) => Some("outcome_unknown"),
        _ => None,
    }
}

/// Steps that fold what a plan appends after sequence `last`: the
/// storage numbers them on from `last`, and their payloads read back the
/// approvals, decisions and attempts they were written with.
pub open spec fn appended_as(plan: Seq<PlannedEvent>, tail: Seq<FoldStep>, last: u64) -> bool {
    &&& tail.len() == plan.len()
    &&& forall|i: int|
        0 <= i < tail.len() ==> {
            &&& (#[trigger] tail[i]).sequence == last + 1 + i
            &&& tail[i].kind@ == event_kind_label(plan[i].kind)
            &&& tail[i].causation_request_id == plan[i].causation_request_id
            &&& tail[i].attempt_id == plan[i].attempt_id
            &&& tail[i].payload_approval_id == planned_approval_id(plan[i].payload)
            &&& tail[i].payload_decision == planned_decision(plan[i].payload)
            &&& tail[i].payload_attempt_id == planned_attempt(plan[i].payload)
        }
}

/// The state a session settles in once recovery has appended its events.
pub open spec fn settled_state(action: RecoveryAction, before: SessionState) -> SessionState {
    match action {
        RecoveryAction::Nothing => before,
        RecoveryAction::CompletePause => SessionState::Paused,
        RecoveryAction::ConfirmCancellation => SessionState::Cancelled,
        RecoveryAction::AttemptOutcomeUnknown(_) => SessionState::OutcomeUnknown,
        RecoveryAction::FinishCancellation => SessionState::Cancelled,
    }
}

/// The kinds that `fold_step` tests for, in its order.
spec fn folded_kinds() -> Seq<EventKind> {
    seq![
        EventKind::DispatchStarted,
        EventKind::SessionResumed,
        EventKind::ClarificationRequested,
        EventKind::ApprovalRequested,
        EventKind::ApprovalRecorded,
        EventKind::PauseRequested,
        EventKind::SessionPaused,
        EventKind::SessionRedirected,
        EventKind::CancelRequested,
        EventKind::OutcomeUnknown,
        EventKind::OutcomeReconciled,
        EventKind::SessionCompleted,
        EventKind::SessionFailed,
        EventKind::SessionCancelled,
        EventKind::SessionAbandoned,
        EventKind::SessionDeletionRequested,
    ]
}

/// An event named for `k` is told apart from every other kind that
/// folding tests for.
proof fn lemma_named_apart(e: FoldStep, k: EventKind)
    requires
        e.kind@ == event_kind_label(k),
    ensures
        forall|i: int|
            0 <= i < folded_kinds().len() && folded_kinds()[i] != k ==> e.kind@ != event_kind_label(
                #[trigger] folded_kinds()[i],
            ),
{
    assert forall|i: int|
        0 <= i < folded_kinds().len() && folded_kinds()[i] != k implies e.kind@ != event_kind_label(
        #[trigger] folded_kinds()[i],
    ) by {
        event_kind_names_distinct(k, folded_kinds()[i]);
    }
}

/// How folding takes each kind of event that a plan appends.
proof fn lemma_fold_planned(v: FoldView, e: FoldStep)
    requires
        e.sequence == v.1 + 1,
    ensures
        e.kind@ == "session_paused"@ ==> fold_step(v, e) == Ok::<FoldView, DaemonError>(
            (SessionState::Paused, e.sequence, v.2, v.3, v.4, v.5),
        ),
        e.kind@ == "outcome_unknown"@ && e.attempt_id is Some ==> fold_step(v, e) == Ok::<
            FoldView,
            DaemonError,
        >((SessionState::OutcomeUnknown, e.sequence, v.2, v.3, e.attempt_id, v.5)),
        e.kind@ == "session_cancelled"@ ==> fold_step(v, e) == Ok::<FoldView, DaemonError>(
            (SessionState::Cancelled, e.sequence, v.2, v.3, v.4, v.5),
        ),
        e.kind@ == "cancel_confirmed"@ ==> fold_step(v, e) == Ok::<FoldView, DaemonError>(
            (v.0, e.sequence, v.2, v.3, v.4, v.5),
        ),
        e.kind@ == "outcome_reconciled"@ ==> fold_step(v, e) == Ok::<FoldView, DaemonError>(
            (v.0, e.sequence, v.2, v.3, None, v.5),
        ),
        e.kind@ == "dispatch_planned"@ ==> fold_step(v, e) == Ok::<FoldView, DaemonError>(
            (v.0, e.sequence, v.2, v.3, v.4, v.5),
        ),
        e.kind@ == "dispatch_started"@ ==> fold_step(v, e) == Ok::<FoldView, DaemonError>(
            (SessionState::Running, e.sequence, v.2, v.3, v.4, v.5),
        ),
        e.kind@ == "session_completed"@ ==> fold_step(v, e) == Ok::<FoldView, DaemonError>(
            (SessionState::Completed, e.sequence, v.2, v.3, v.4, v.5),
        ),
        e.kind@ == "session_abandoned"@ ==> fold_step(v, e) == Ok::<FoldView, DaemonError>(
            (SessionState::Abandoned, e.sequence, v.2, v.3, v.4, v.5),
        ),
        e.kind@ == "pause_requested"@ ==> fold_step(v, e) == Ok::<FoldView, DaemonError>(
            (SessionState::Pausing, e.sequence, v.2, v.3, v.4, v.5),
        ),
        e.kind@ == "session_resumed"@ ==> fold_step(v, e) == Ok::<FoldView, DaemonError>(
            (SessionState::Running, e.sequence, v.2, v.3, v.4, v.5),
        ),
        e.kind@ == "cancel_requested"@ ==> fold_step(v, e) == Ok::<FoldView, DaemonError>(
            (SessionState::CancelRequested, e.sequence, v.2, v.3, v.4, v.5),
        ),
        e.kind@ == "input_recorded"@ || e.kind@ == "routing_planned"@ || e.kind@
            == "provider_event"@ ==> fold_step(v, e) == Ok::<
            FoldView,
            DaemonError,
        >((v.0, e.sequence, v.2, v.3, v.4, v.5)),
        e.kind@ == "clarification_requested"@ ==> fold_step(v, e) == Ok::<FoldView, DaemonError>(
            (SessionState::AwaitingClarification, e.sequence, v.2, v.3, v.4, v.5),
        ),
        e.kind@ == "approval_requested"@ ==> fold_step(v, e) == Ok::<FoldView, DaemonError>(
            (
                SessionState::AwaitingApproval,
                e.sequence,
                e.payload_approval_id,
                e.causation_request_id,
                v.4,
                v.5,
            ),
        ),
        e.kind@ == "approval_recorded"@ && e.payload_approval_id is Some
            && e.payload_decision is Valid ==> fold_step(v, e) == Ok::<FoldView, DaemonError>(
            (
                decided_state(e.payload_decision->Valid_0),
                e.sequence,
                None,
                None,
                v.4,
                v.5.insert(e.payload_approval_id->Some_0, e.payload_decision->Valid_0),
            ),
        ),
        e.kind@ == "session_redirected"@ ==> fold_step(v, e) == Ok::<FoldView, DaemonError>(
            (
                if v.0 == SessionState::AwaitingClarification {
                    SessionState::Ready
                } else {
                    v.0
                },
                e.sequence,
                v.2,
                v.3,
                v.4,
                v.5,
            ),
        ),
{
    let ks = folded_kinds();
    assert(ks[0] == EventKind::DispatchStarted && ks[1] == EventKind::SessionResumed && ks[2]
        == EventKind::ClarificationRequested && ks[3] == EventKind::ApprovalRequested && ks[4]
        == EventKind::ApprovalRecorded && ks[5] == EventKind::PauseRequested && ks[6]
        == EventKind::SessionPaused && ks[7] == EventKind::SessionRedirected && ks[8]
        == EventKind::CancelRequested && ks[9] == EventKind::OutcomeUnknown && ks[10]
        == EventKind::OutcomeReconciled && ks[11] == EventKind::SessionCompleted && ks[12]
        == EventKind::SessionFailed && ks[13] == EventKind::SessionCancelled && ks[14]
        == EventKind::SessionAbandoned && ks[15] == EventKind::SessionDeletionRequested);
    if e.kind@ == "session_paused"@ {
        lemma_named_apart(e, EventKind::SessionPaused);
    }
    if e.kind@ == "outcome_unknown"@ {
        lemma_named_apart(e, EventKind::OutcomeUnknown);
    }
    if e.kind@ == "session_cancelled"@ {
        lemma_named_apart(e, EventKind::SessionCancelled);
    }
    if e.kind@ == "cancel_confirmed"@ {
        lemma_named_apart(e, EventKind::CancelConfirmed);
    }
    if e.kind@ == "outcome_reconciled"@ {
        lemma_named_apart(e, EventKind::OutcomeReconciled);
    }
    if e.kind@ == "dispatch_planned"@ {
        lemma_named_apart(e, EventKind::DispatchPlanned);
    }
    if e.kind@ == "session_completed"@ {
        lemma_named_apart(e, EventKind::SessionCompleted);
    }
    if e.kind@ == "session_abandoned"@ {
        lemma_named_apart(e, EventKind::SessionAbandoned);
    }
    if e.kind@ == "pause_requested"@ {
        lemma_named_apart(e, EventKind::PauseRequested);
    }
    if e.kind@ == "session_resumed"@ {
        lemma_named_apart(e, EventKind::SessionResumed);
    }
    if e.kind@ == "cancel_requested"@ {
        lemma_named_apart(e, EventKind::CancelRequested);
    }
    if e.kind@ == "session_redirected"@ {
        lemma_named_apart(e, EventKind::SessionRedirected);
    }
    if e.kind@ == "input_recorded"@ {
        lemma_named_apart(e, EventKind::InputRecorded);
    }
    if e.kind@ == "routing_planned"@ {
        lemma_named_apart(e, EventKind::RoutingPlanned);
    }
    if e.kind@ == "provider_event"@ {
        lemma_named_apart(e, EventKind::ProviderEvent);
    }
    if e.kind@ == "clarification_requested"@ {
        lemma_named_apart(e, EventKind::ClarificationRequested);
    }
    if e.kind@ == "approval_requested"@ {
        lemma_named_apart(e, EventKind::ApprovalRequested);
    }
    if e.kind@ == "approval_recorded"@ {
        lemma_named_apart(e, EventKind::ApprovalRecorded);
    }
}

/// Folds steps on from a result: the values after a history and then
/// these steps.
pub open spec fn fold_from(r: Result<FoldView, DaemonError>, tail: Seq<FoldStep>) -> Result<
    FoldView,
    DaemonError,
>
    decreases tail.len(),
{
    if tail.len() == 0 {
        r
    } else {
        match r {
            Ok(v) => fold_from(fold_step(v, tail[0]), tail.drop_first()),
            Err(e) => Err(e),
        }
    }
}

/// Folding a history followed by more steps folds the history, then the
/// steps.
pub proof fn folding_appends(steps: Seq<FoldStep>, tail: Seq<FoldStep>)
    ensures
        fold_all(steps + tail) == fold_from(fold_all(steps), tail),
    decreases tail.len(),
{
    if tail.len() == 0 {
        assert(steps + tail =~= steps);
    } else {
        folding_is_incremental(steps, tail[0]);
        folding_appends(steps.push(tail[0]), tail.drop_first());
        assert(steps + tail =~= steps.push(tail[0]) + tail.drop_first());
    }
}

/// Recovery settles every interrupted control: once its events are folded
/// after a history that folds, a requested pause is paused, a cancellation
/// with no open attempt or an already confirmed one is cancelled, and a
/// cancellation with an open attempt leaves that attempt's outcome unknown.
pub proof fn recovery_settles_interrupted_controls(h: Seq<PersistedEvent>, tail: Seq<FoldStep>)
    requires
        fold_history(h.map_values(|e: PersistedEvent| step_of(e))) is Ok,
        appended_as(
            recovery_plan(h),
            tail,
            fold_history(h.map_values(|e: PersistedEvent| step_of(e)))->Ok_0.1,
        ),
    ensures
        ({
            let steps = h.map_values(|e: PersistedEvent| step_of(e));
            let before = fold_history(steps)->Ok_0;
            &&& fold_history(steps + tail) is Ok
            &&& fold_history(steps + tail)->Ok_0.0 == settled_state(recovery_for(h), before.0)
            &&& recovery_for(h) matches RecoveryAction::AttemptOutcomeUnknown(a) ==> fold_history(
                steps + tail,
            )->Ok_0.4 == Some(a)
        }),
{
    let steps = h.map_values(|e: PersistedEvent| step_of(e));
    let v = fold_history(steps)->Ok_0;
    let plan = recovery_plan(h);
    assert(steps.len() > 0 && steps[0].kind@ == "session_created"@);
    assert(fold_all(steps) == Ok::<FoldView, DaemonError>(v));
    assert((steps + tail)[0] == steps[0]);
    match recovery_for(h) {
        RecoveryAction::Nothing => {
            assert(steps + tail =~= steps);
        },
        RecoveryAction::ConfirmCancellation => {
            let e0 = tail[0];
            let e1 = tail[1];
            assert(e0.kind@ == "cancel_confirmed"@ && e1.kind@ == "session_cancelled"@);
            assert(e0.sequence == v.1 + 1 && e1.sequence == v.1 + 2);
            folding_is_incremental(steps, e0);
            let one = steps.push(e0);
            lemma_fold_planned(v, e0);
            let w = fold_step(v, e0)->Ok_0;
            lemma_fold_planned(w, e1);
            folding_is_incremental(one, e1);
            assert(steps + tail =~= one.push(e1));
        },
        RecoveryAction::CompletePause => {
            let e0 = tail[0];
            assert(e0.kind@ == "session_paused"@ && e0.sequence == v.1 + 1);
            folding_is_incremental(steps, e0);
            assert(steps + tail =~= steps.push(e0));
            lemma_fold_planned(v, e0);
        },
        RecoveryAction::AttemptOutcomeUnknown(a) => {
            let e0 = tail[0];
            assert(e0.kind@ == "outcome_unknown"@ && e0.sequence == v.1 + 1);
            assert(e0.attempt_id == Some(a));
            folding_is_incremental(steps, e0);
            assert(steps + tail =~= steps.push(e0));
            lemma_fold_planned(v, e0);
        },
        RecoveryAction::FinishCancellation => {
            let e0 = tail[0];
            assert(e0.kind@ == "session_cancelled"@ && e0.sequence == v.1 + 1);
            folding_is_incremental(steps, e0);
            assert(steps + tail =~= steps.push(e0));
            lemma_fold_planned(v, e0);
        },
    }
}

/// The events that settle a requested cancellation, caused by the cancel
/// request: a confirmation and the terminal event when the provider
/// confirmed, else the attempt's outcome becomes unknown (under
/// `fresh_attempt_id` when no attempt was named). Nothing once the session
/// has left `cancel_requested`.
pub open spec fn cancel_plan(
    state: SessionState,
    request_id: u128,
    control_id: u128,
    attempt_id: Option<u128>,
    confirmed: bool,
    summary: &'static str,
    fresh_attempt_id: u128,
) -> Seq<PlannedEvent> {
    if state != SessionState::CancelRequested {
        Seq::empty()
    } else if confirmed {
        seq![
            PlannedEvent {
                kind: EventKind::CancelConfirmed,
                causation_request_id: Some(request_id),
                attempt_id,
                payload: PlannedPayload::ControlId(Some(control_id)),
            },
            PlannedEvent {
                kind: EventKind::SessionCancelled,
                causation_request_id: Some(request_id),
                attempt_id,
                payload: PlannedPayload::Terminal(summary),
            },
        ]
    } else {
        let a = match attempt_id {
            Some(a) => a,
            None => fresh_attempt_id,
        };
        seq![
            PlannedEvent {
                kind: EventKind::OutcomeUnknown,
                causation_request_id: Some(request_id),
                attempt_id: Some(a),
                payload: PlannedPayload::UncertainAttempt(
                    a,
                    "cancellation confirmation deadline expired",
                ),
            },
        ]
    }
}

/// Plans the events that settle a requested cancellation once the provider
/// has answered or the deadline has passed.
pub fn cancel_resolution(
    state: SessionState,
    request_id: u128,
    control_id: u128,
    attempt_id: Option<u128>,
    confirmed: bool,
    summary: &'static str,
    fresh_attempt_id: u128,
) -> (r: Vec<PlannedEvent>)
    ensures
        r@ == cancel_plan(
            state,
            request_id,
            control_id,
            attempt_id,
            confirmed,
            summary,
            fresh_attempt_id,
        ),
{
    if state != SessionState::CancelRequested {
        return Vec::new();
    }
    if confirmed {
        vec![
            PlannedEvent {
                kind: EventKind::CancelConfirmed,
                causation_request_id: Some(request_id),
                attempt_id,
                payload: PlannedPayload::ControlId(Some(control_id)),
            },
            PlannedEvent {
                kind: EventKind::SessionCancelled,
                causation_request_id: Some(request_id),
                attempt_id,
                payload: PlannedPayload::Terminal(summary),
            },
        ]
    } else {
        let a = match attempt_id {
            Some(a) => a,
            None => fresh_attempt_id,
        };
        vec![
            PlannedEvent {
                kind: EventKind::OutcomeUnknown,
                causation_request_id: Some(request_id),
                attempt_id: Some(a),
                payload: PlannedPayload::UncertainAttempt(
                    a,
                    "cancellation confirmation deadline expired",
                ),
            },
        ]
    }
}

/// A requested cancellation always settles: folded after a history that
/// leaves the session in `cancel_requested`, the planned events leave it
/// cancelled when the provider confirmed, and otherwise leave the
/// attempt's outcome unknown.
pub proof fn cancellation_always_settles(
    steps: Seq<FoldStep>,
    tail: Seq<FoldStep>,
    request_id: u128,
    control_id: u128,
    attempt_id: Option<u128>,
    confirmed: bool,
    summary: &'static str,
    fresh_attempt_id: u128,
)
    requires
        fold_history(steps) is Ok,
        fold_history(steps)->Ok_0.0 == SessionState::CancelRequested,
        appended_as(
            cancel_plan(
                SessionState::CancelRequested,
                request_id,
                control_id,
                attempt_id,
                confirmed,
                summary,
                fresh_attempt_id,
            ),
            tail,
            fold_history(steps)->Ok_0.1,
        ),
    ensures
        fold_history(steps + tail) is Ok,
        confirmed ==> fold_history(steps + tail)->Ok_0.0 == SessionState::Cancelled,
        !confirmed ==> fold_history(steps + tail)->Ok_0.0 == SessionState::OutcomeUnknown
            && fold_history(steps + tail)->Ok_0.4 == Some(
            match attempt_id {
                Some(a) => a,
                None => fresh_attempt_id,
            },
        ),
{
    let v = fold_history(steps)->Ok_0;
    assert(steps.len() > 0 && steps[0].kind@ == "session_created"@);
    assert(fold_all(steps) == Ok::<FoldView, DaemonError>(v));
    assert((steps + tail)[0] == steps[0]);
    let e0 = tail[0];
    folding_is_incremental(steps, e0);
    lemma_fold_planned(v, e0);
    if confirmed {
        let e1 = tail[1];
        let one = steps.push(e0);
        let w = fold_step(v, e0)->Ok_0;
        lemma_fold_planned(w, e1);
        folding_is_incremental(one, e1);
        assert(steps + tail =~= one.push(e1));
    } else {
        assert(steps + tail =~= steps.push(e0));
    }
}

/// The events that record a reconciliation, caused by its request: the
/// reconciliation itself, then a fresh dispatch under `replacement` for a
/// retry, or the terminal event for an accepted or abandoned result.
pub open spec fn reconcile_plan(
    request_id: u128,
    attempt_id: u128,
    resolution: ReconciliationResolution,
    replacement: u128,
    evidence_recorded: bool,
) -> Seq<PlannedEvent> {
    let cause = Some(request_id);
    let retry = resolution == ReconciliationResolution::Retry;
    let reconciled = PlannedEvent {
        kind: EventKind::OutcomeReconciled,
        causation_request_id: cause,
        attempt_id: Some(attempt_id),
        payload: PlannedPayload::Reconciled(
            attempt_id,
            resolution,
            if retry {
                Some(replacement)
            } else {
                None
            },
            evidence_recorded,
        ),
    };
    match resolution {
        ReconciliationResolution::Retry => seq![reconciled] + dispatch_plan(
            request_id,
            replacement,
            Some(attempt_id),
        ),
        ReconciliationResolution::AcceptResult => seq![
            reconciled,
            PlannedEvent {
                kind: EventKind::SessionCompleted,
                causation_request_id: cause,
                attempt_id: Some(attempt_id),
                payload: PlannedPayload::Terminal("result accepted by human reconciliation"),
            },
        ],
        ReconciliationResolution::Abandon => seq![
            reconciled,
            PlannedEvent {
                kind: EventKind::SessionAbandoned,
                causation_request_id: cause,
                attempt_id: Some(attempt_id),
                payload: PlannedPayload::Terminal("execution abandoned by human reconciliation"),
            },
        ],
    }
}

/// Plans the events of an accepted reconciliation; `replacement` is the
/// fresh attempt id a retry dispatches under.
pub fn reconcile_events(
    request_id: u128,
    attempt_id: u128,
    resolution: ReconciliationResolution,
    replacement: u128,
    evidence_recorded: bool,
) -> (r: Vec<PlannedEvent>)
    ensures
        r@ == reconcile_plan(request_id, attempt_id, resolution, replacement, evidence_recorded),
{
    let cause = Some(request_id);
    let retry = match resolution {
        ReconciliationResolution::Retry => true,
        _ => false,
    };
    let reconciled = PlannedEvent {
        kind: EventKind::OutcomeReconciled,
        causation_request_id: cause,
        attempt_id: Some(attempt_id),
        payload: PlannedPayload::Reconciled(
            attempt_id,
            resolution,
            if retry {
                Some(replacement)
            } else {
                None
            },
            evidence_recorded,
        ),
    };
    match resolution {
        ReconciliationResolution::Retry => {
            let ghost first = reconciled;
            let mut events = vec![reconciled];
            let mut dispatch = dispatch_events(request_id, replacement, Some(attempt_id));
            events.append(&mut dispatch);
            assert(events@ =~= seq![first] + dispatch_plan(
                request_id,
                replacement,
                Some(attempt_id),
            ));
            events
        },
        ReconciliationResolution::AcceptResult => vec![
            reconciled,
            PlannedEvent {
                kind: EventKind::SessionCompleted,
                causation_request_id: cause,
                attempt_id: Some(attempt_id),
                payload: PlannedPayload::Terminal("result accepted by human reconciliation"),
            },
        ],
        ReconciliationResolution::Abandon => vec![
            reconciled,
            PlannedEvent {
                kind: EventKind::SessionAbandoned,
                causation_request_id: cause,
                attempt_id: Some(attempt_id),
                payload: PlannedPayload::Terminal("execution abandoned by human reconciliation"),
            },
        ],
    }
}

/// The two events that open a paid prompt dispatch of an attempt, caused
/// by a request: planned (after its predecessor, if any), then started.
pub open spec fn dispatch_plan(request_id: u128, attempt_id: u128, predecessor: Option<u128>) -> Seq<
    PlannedEvent,
> {
    seq![
        PlannedEvent {
            kind: EventKind::DispatchPlanned,
            causation_request_id: Some(request_id),
            attempt_id: Some(attempt_id),
            payload: PlannedPayload::DispatchPlanned(attempt_id, predecessor),
        },
        PlannedEvent {
            kind: EventKind::DispatchStarted,
            causation_request_id: Some(request_id),
            attempt_id: Some(attempt_id),
            payload: PlannedPayload::DispatchStarted(attempt_id),
        },
    ]
}

/// Plans the two events that open a paid prompt dispatch.
pub fn dispatch_events(request_id: u128, attempt_id: u128, predecessor: Option<u128>) -> (r: Vec<
    PlannedEvent,
>)
    ensures
        r@ == dispatch_plan(request_id, attempt_id, predecessor),
{
    vec![
        PlannedEvent {
            kind: EventKind::DispatchPlanned,
            causation_request_id: Some(request_id),
            attempt_id: Some(attempt_id),
            payload: PlannedPayload::DispatchPlanned(attempt_id, predecessor),
        },
        PlannedEvent {
            kind: EventKind::DispatchStarted,
            causation_request_id: Some(request_id),
            attempt_id: Some(attempt_id),
            payload: PlannedPayload::DispatchStarted(attempt_id),
        },
    ]
}

/// The reply to an accepted reconciliation.
pub fn reconciliation_result(
    attempt_id: u128,
    resolution: ReconciliationResolution,
    replacement: u128,
) -> (r: ReconciliationResult)
    ensures
        r.attempt_id == attempt_id,
        r.resolution == resolution,
        r.replacement_attempt_id == (if resolution == ReconciliationResolution::Retry {
            Some(replacement)
        } else {
            None
        }),
        r.state == reconciled_state(resolution),
{
    match resolution {
        ReconciliationResolution::Retry => ReconciliationResult {
            attempt_id,
            resolution,
            replacement_attempt_id: Some(replacement),
            state: SessionState::Running,
        },
        ReconciliationResolution::AcceptResult => ReconciliationResult {
            attempt_id,
            resolution,
            replacement_attempt_id: None,
            state: SessionState::Completed,
        },
        ReconciliationResolution::Abandon => ReconciliationResult {
            attempt_id,
            resolution,
            replacement_attempt_id: None,
            state: SessionState::Abandoned,
        },
    }
}

/// A reconciliation's reply tells the truth: once its events are folded
/// after the history it was accepted on, the session is in the state the
/// reply reports, and no attempt is uncertain any more.
pub proof fn reconciliation_reply_matches_history(
    steps: Seq<FoldStep>,
    tail: Seq<FoldStep>,
    request_id: u128,
    attempt_id: u128,
    resolution: ReconciliationResolution,
    replacement: u128,
    evidence_recorded: bool,
)
    requires
        fold_history(steps) is Ok,
        fold_history(steps)->Ok_0.0 == SessionState::OutcomeUnknown,
        fold_history(steps)->Ok_0.4 == Some(attempt_id),
        appended_as(
            reconcile_plan(request_id, attempt_id, resolution, replacement, evidence_recorded),
            tail,
            fold_history(steps)->Ok_0.1,
        ),
    ensures
        fold_history(steps + tail) is Ok,
        fold_history(steps + tail)->Ok_0.0 == reconciled_state(resolution),
        fold_history(steps + tail)->Ok_0.4 is None,
{
    let v = fold_history(steps)->Ok_0;
    assert(steps.len() > 0 && steps[0].kind@ == "session_created"@);
    assert(fold_all(steps) == Ok::<FoldView, DaemonError>(v));
    assert((steps + tail)[0] == steps[0]);
    let e0 = tail[0];
    let e1 = tail[1];
    lemma_fold_planned(v, e0);
    folding_is_incremental(steps, e0);
    let one = steps.push(e0);
    let w = fold_step(v, e0)->Ok_0;
    lemma_fold_planned(w, e1);
    folding_is_incremental(one, e1);
    let two = one.push(e1);
    if resolution == ReconciliationResolution::Retry {
        let e2 = tail[2];
        let x = fold_step(w, e1)->Ok_0;
        lemma_fold_planned(x, e2);
        folding_is_incremental(two, e2);
        assert(steps + tail =~= two.push(e2));
    } else {
        assert(steps + tail =~= two);
    }
}

/// The events an applied control appends, caused by its request: a pause
/// is requested and recorded as paused, a resume and a redirect are
/// recorded, and a cancel is requested and, when no attempt was started,
/// confirmed and finished at once.
pub open spec fn control_plan(
    control: Control,
    request_id: u128,
    control_id: u128,
    actor: String,
    instruction: Option<String>,
    attempt: Option<u128>,
) -> Seq<PlannedEvent> {
    let cause = Some(request_id);
    let plain = PlannedPayload::Control(control_id, actor, None);
    match control {
        Control::Pause => seq![
            PlannedEvent {
                kind: EventKind::PauseRequested,
                causation_request_id: cause,
                attempt_id: None,
                payload: plain,
            },
            PlannedEvent {
                kind: EventKind::SessionPaused,
                causation_request_id: cause,
                attempt_id: None,
                payload: plain,
            },
        ],
        Control::Resume => seq![
            PlannedEvent {
                kind: EventKind::SessionResumed,
                causation_request_id: cause,
                attempt_id: None,
                payload: plain,
            },
        ],
        Control::Redirect => seq![
            PlannedEvent {
                kind: EventKind::SessionRedirected,
                causation_request_id: cause,
                attempt_id: None,
                payload: PlannedPayload::Control(control_id, actor, instruction),
            },
        ],
        Control::Cancel => {
            let requested = PlannedEvent {
                kind: EventKind::CancelRequested,
                causation_request_id: cause,
                attempt_id: None,
                payload: plain,
            };
            if attempt is None {
                seq![
                    requested,
                    PlannedEvent {
                        kind: EventKind::CancelConfirmed,
                        causation_request_id: cause,
                        attempt_id: None,
                        payload: PlannedPayload::ControlId(Some(control_id)),
                    },
                    PlannedEvent {
                        kind: EventKind::SessionCancelled,
                        causation_request_id: cause,
                        attempt_id: None,
                        payload: PlannedPayload::Terminal(
                            "cancelled before any external attempt started",
                        ),
                    },
                ]
            } else {
                seq![requested]
            }
        },
    }
}

/// Plans the events of an applied control. `attempt` is the attempt a
/// cancel finds running, if any.
pub fn control_events(
    control: Control,
    request_id: u128,
    control_id: u128,
    actor: String,
    instruction: Option<String>,
    attempt: Option<u128>,
) -> (r: Vec<PlannedEvent>)
    ensures
        r@ == control_plan(control, request_id, control_id, actor, instruction, attempt),
{
    let cause = Some(request_id);
    match control {
        Control::Pause => {
            let copy = actor.clone();
            vec![
                PlannedEvent {
                    kind: EventKind::PauseRequested,
                    causation_request_id: cause,
                    attempt_id: None,
                    payload: PlannedPayload::Control(control_id, copy, None),
                },
                PlannedEvent {
                    kind: EventKind::SessionPaused,
                    causation_request_id: cause,
                    attempt_id: None,
                    payload: PlannedPayload::Control(control_id, actor, None),
                },
            ]
        },
        Control::Resume => vec![
            PlannedEvent {
                kind: EventKind::SessionResumed,
                causation_request_id: cause,
                attempt_id: None,
                payload: PlannedPayload::Control(control_id, actor, None),
            },
        ],
        Control::Redirect => vec![
            PlannedEvent {
                kind: EventKind::SessionRedirected,
                causation_request_id: cause,
                attempt_id: None,
                payload: PlannedPayload::Control(control_id, actor, instruction),
            },
        ],
        Control::Cancel => {
            let requested = PlannedEvent {
                kind: EventKind::CancelRequested,
                causation_request_id: cause,
                attempt_id: None,
                payload: PlannedPayload::Control(control_id, actor, None),
            };
            if attempt.is_none() {
                vec![
                    requested,
                    PlannedEvent {
                        kind: EventKind::CancelConfirmed,
                        causation_request_id: cause,
                        attempt_id: None,
                        payload: PlannedPayload::ControlId(Some(control_id)),
                    },
                    PlannedEvent {
                        kind: EventKind::SessionCancelled,
                        causation_request_id: cause,
                        attempt_id: None,
                        payload: PlannedPayload::Terminal(
                            "cancelled before any external attempt started",
                        ),
                    },
                ]
            } else {
                vec![requested]
            }
        },
    }
}

/// The state an applied control reports.
pub open spec fn control_state(control: Control, state: SessionState, attempt: Option<u128>) -> SessionState {
    match control {
        Control::Pause => SessionState::Paused,
        Control::Resume => SessionState::Running,
        Control::Redirect => if state == SessionState::AwaitingClarification {
            SessionState::Ready
        } else {
            SessionState::Paused
        },
        Control::Cancel => if attempt is None {
            SessionState::Cancelled
        } else {
            SessionState::CancelRequested
        },
    }
}

/// The states in which a control is applied rather than refused or
/// answered as already applied.
pub open spec fn control_applies(control: Control, state: SessionState) -> bool {
    match control {
        Control::Pause => state == SessionState::Running,
        Control::Resume => state == SessionState::Paused,
        Control::Redirect => state == SessionState::Paused || state
            == SessionState::AwaitingClarification,
        Control::Cancel => !(is_terminal(state) || state == SessionState::Deleting),
    }
}

/// The reply to a control.
pub fn control_result(control: Control, control_id: u128, state: SessionState) -> (r: ControlResult)
    ensures
        r.control_id == control_id,
        r.control == control,
        r.state == state,
{
    ControlResult { control_id, control, state }
}

/// A control's reply tells the truth: once the events of an applied control
/// are folded after the history it was accepted on, the session is in the
/// state the reply reports.
pub proof fn control_reply_matches_history(
    steps: Seq<FoldStep>,
    tail: Seq<FoldStep>,
    control: Control,
    request_id: u128,
    control_id: u128,
    actor: String,
    instruction: Option<String>,
    attempt: Option<u128>,
)
    requires
        fold_history(steps) is Ok,
        control_applies(control, fold_history(steps)->Ok_0.0),
        appended_as(
            control_plan(control, request_id, control_id, actor, instruction, attempt),
            tail,
            fold_history(steps)->Ok_0.1,
        ),
    ensures
        fold_history(steps + tail) is Ok,
        fold_history(steps + tail)->Ok_0.0 == control_state(
            control,
            fold_history(steps)->Ok_0.0,
            attempt,
        ),
{
    let v = fold_history(steps)->Ok_0;
    assert(steps.len() > 0 && steps[0].kind@ == "session_created"@);
    assert(fold_all(steps) == Ok::<FoldView, DaemonError>(v));
    assert((steps + tail)[0] == steps[0]);
    let e0 = tail[0];
    lemma_fold_planned(v, e0);
    folding_is_incremental(steps, e0);
    let one = steps.push(e0);
    if tail.len() == 1 {
        assert(steps + tail =~= one);
    } else {
        let e1 = tail[1];
        let w = fold_step(v, e0)->Ok_0;
        lemma_fold_planned(w, e1);
        folding_is_incremental(one, e1);
        let two = one.push(e1);
        if tail.len() == 2 {
            assert(steps + tail =~= two);
        } else {
            let e2 = tail[2];
            let x = fold_step(w, e1)->Ok_0;
            lemma_fold_planned(x, e2);
            folding_is_incremental(two, e2);
            assert(steps + tail =~= two.push(e2));
        }
    }
}

/// Where the router sent a prompt.
#[derive(Clone, Debug, PartialEq, Eq)]
pub enum RouteOutcome {
    /// No configured provider offers what the prompt needs.
    CapabilityUnavailable,
    /// The router asks which role should answer, for this reason.
    Clarification(String),
    /// A route was selected, to run under this permission.
    Selected(PermissionMode),
}

/// The events a prompt appends, caused by its request: the recorded input,
/// then the clarification question, or the routing plan followed by an
/// approval request or the dispatch, by the route's permission.
pub open spec fn prompt_plan(
    request_id: u128,
    input_id: u128,
    content: String,
    route: RouteOutcome,
    approval_id: u128,
    attempt_id: u128,
) -> Seq<PlannedEvent> {
    let cause = Some(request_id);
    let input = PlannedEvent {
        kind: EventKind::InputRecorded,
        causation_request_id: cause,
        attempt_id: None,
        payload: PlannedPayload::Input(input_id, content),
    };
    let routing = PlannedEvent {
        kind: EventKind::RoutingPlanned,
        causation_request_id: cause,
        attempt_id: None,
        payload: PlannedPayload::Routing,
    };
    match route {
        RouteOutcome::CapabilityUnavailable => seq![input],
        RouteOutcome::Clarification(reason) => seq![
            input,
            PlannedEvent {
                kind: EventKind::ClarificationRequested,
                causation_request_id: cause,
                attempt_id: None,
                payload: PlannedPayload::Clarification(reason),
            },
        ],
        RouteOutcome::Selected(PermissionMode::Denied) => seq![input, routing],
        RouteOutcome::Selected(PermissionMode::ApprovalRequired) => seq![
            input,
            routing,
            PlannedEvent {
                kind: EventKind::ApprovalRequested,
                causation_request_id: cause,
                attempt_id: None,
                payload: PlannedPayload::ApprovalRequest(approval_id),
            },
        ],
        RouteOutcome::Selected(PermissionMode::ReadOnly) => seq![input, routing] + dispatch_plan(
            request_id,
            attempt_id,
            None,
        ),
    }
}

/// The failure a prompt is durably answered with: no capability, or a
/// route the policy denies.
pub open spec fn prompt_failure(route: RouteOutcome) -> Option<DaemonError> {
    match route {
        RouteOutcome::CapabilityUnavailable => Some(DaemonError::CapabilityUnavailable),
        RouteOutcome::Selected(PermissionMode::Denied) => Some(DaemonError::PolicyDenied),
        _ => None,
    }
}

/// Plans the events of an accepted prompt. `approval_id` and `attempt_id`
/// are fresh ids for an approval request and a dispatch.
pub fn prompt_events(
    request_id: u128,
    input_id: u128,
    content: String,
    route: RouteOutcome,
    approval_id: u128,
    attempt_id: u128,
) -> (r: (Vec<PlannedEvent>, Option<DaemonError>))
    ensures
        r.0@ == prompt_plan(request_id, input_id, content, route, approval_id, attempt_id),
        r.1 == prompt_failure(route),
{
    let cause = Some(request_id);
    let ghost route0 = route;
    let input = PlannedEvent {
        kind: EventKind::InputRecorded,
        causation_request_id: cause,
        attempt_id: None,
        payload: PlannedPayload::Input(input_id, content),
    };
    let ghost input0 = input;
    let routing = PlannedEvent {
        kind: EventKind::RoutingPlanned,
        causation_request_id: cause,
        attempt_id: None,
        payload: PlannedPayload::Routing,
    };
    let ghost routing0 = routing;
    match route {
        RouteOutcome::CapabilityUnavailable => (vec![input], Some(DaemonError::CapabilityUnavailable)),
        RouteOutcome::Clarification(reason) => (
            vec![
                input,
                PlannedEvent {
                    kind: EventKind::ClarificationRequested,
                    causation_request_id: cause,
                    attempt_id: None,
                    payload: PlannedPayload::Clarification(reason),
                },
            ],
            None,
        ),
        RouteOutcome::Selected(PermissionMode::Denied) => (
            vec![input, routing],
            Some(DaemonError::PolicyDenied),
        ),
        RouteOutcome::Selected(PermissionMode::ApprovalRequired) => (
            vec![
                input,
                routing,
                PlannedEvent {
                    kind: EventKind::ApprovalRequested,
                    causation_request_id: cause,
                    attempt_id: None,
                    payload: PlannedPayload::ApprovalRequest(approval_id),
                },
            ],
            None,
        ),
        RouteOutcome::Selected(PermissionMode::ReadOnly) => {
            let mut events = vec![input, routing];
            let mut dispatch = dispatch_events(request_id, attempt_id, None);
            events.append(&mut dispatch);
            assert(events@ =~= seq![input0, routing0] + dispatch_plan(request_id, attempt_id, None));
            (events, None)
        },
    }
}

/// The state a prompt leaves a ready session in.
pub open spec fn prompted_state(route: RouteOutcome) -> SessionState {
    match route {
        RouteOutcome::CapabilityUnavailable => SessionState::Ready,
        RouteOutcome::Clarification(_) => SessionState::AwaitingClarification,
        RouteOutcome::Selected(PermissionMode::Denied) => SessionState::Ready,
        RouteOutcome::Selected(PermissionMode::ApprovalRequired) => SessionState::AwaitingApproval,
        RouteOutcome::Selected(PermissionMode::ReadOnly) => SessionState::Running,
    }
}

/// A prompt leaves a ready session where its route says: asking for a
/// clarification, awaiting the approval it requested (pending on the
/// prompt's request), running the dispatch, or ready again after a failure
/// that was answered durably.
pub proof fn prompt_settles_by_route(
    steps: Seq<FoldStep>,
    tail: Seq<FoldStep>,
    request_id: u128,
    input_id: u128,
    content: String,
    route: RouteOutcome,
    approval_id: u128,
    attempt_id: u128,
)
    requires
        fold_history(steps) is Ok,
        fold_history(steps)->Ok_0.0 == SessionState::Ready,
        appended_as(
            prompt_plan(request_id, input_id, content, route, approval_id, attempt_id),
            tail,
            fold_history(steps)->Ok_0.1,
        ),
    ensures
        fold_history(steps + tail) is Ok,
        fold_history(steps + tail)->Ok_0.0 == prompted_state(route),
        route == RouteOutcome::Selected(PermissionMode::ApprovalRequired) ==> fold_history(
            steps + tail,
        )->Ok_0.2 == Some(approval_id) && fold_history(steps + tail)->Ok_0.3 == Some(request_id),
{
    let v0 = fold_history(steps)->Ok_0;
    assert(steps.len() > 0 && steps[0].kind@ == "session_created"@);
    assert((steps + tail)[0] == steps[0]);
    folding_appends(steps, tail);
    let plan = prompt_plan(request_id, input_id, content, route, approval_id, attempt_id);
    lemma_fold_planned(v0, tail[0]);
    let v1 = fold_step(v0, tail[0])->Ok_0;
    let t1 = tail.drop_first();
    if tail.len() == 1 {
        assert(fold_from(Ok::<FoldView, DaemonError>(v1), t1) == Ok::<FoldView, DaemonError>(v1));
    } else {
        lemma_fold_planned(v1, tail[1]);
        let v2 = fold_step(v1, tail[1])->Ok_0;
        let t2 = t1.drop_first();
        assert(t1[0] == tail[1]);
        if tail.len() == 2 {
            assert(fold_from(Ok::<FoldView, DaemonError>(v2), t2) == Ok::<FoldView, DaemonError>(
                v2,
            ));
        } else {
            lemma_fold_planned(v2, tail[2]);
            let v3 = fold_step(v2, tail[2])->Ok_0;
            let t3 = t2.drop_first();
            assert(t2[0] == tail[2]);
            if tail.len() == 3 {
                assert(fold_from(Ok::<FoldView, DaemonError>(v3), t3) == Ok::<
                    FoldView,
                    DaemonError,
                >(v3));
            } else {
                lemma_fold_planned(v3, tail[3]);
                let v4 = fold_step(v3, tail[3])->Ok_0;
                let t4 = t3.drop_first();
                assert(t3[0] == tail[3]);
                assert(fold_from(Ok::<FoldView, DaemonError>(v4), t4) == Ok::<
                    FoldView,
                    DaemonError,
                >(v4));
            }
        }
    }
}

/// The events that record a fresh approval decision, caused by its
/// request: the decision, then the dispatch it grants (caused by the
/// request that asked for approval, when known), or the pause it denies
/// into.
pub open spec fn approval_plan(
    request_id: u128,
    pending_request_id: Option<u128>,
    approval_id: u128,
    actor: String,
    decision: ApprovalDecision,
    attempt_id: u128,
    control_id: u128,
) -> Seq<PlannedEvent> {
    let decided = PlannedEvent {
        kind: EventKind::ApprovalRecorded,
        causation_request_id: Some(request_id),
        attempt_id: None,
        payload: PlannedPayload::ApprovalDecided(approval_id, actor, decision),
    };
    match decision {
        ApprovalDecision::Grant => seq![decided] + dispatch_plan(
            match pending_request_id {
                Some(p) => p,
                None => request_id,
            },
            attempt_id,
            None,
        ),
        ApprovalDecision::Deny => seq![
            decided,
            PlannedEvent {
                kind: EventKind::SessionPaused,
                causation_request_id: Some(request_id),
                attempt_id: None,
                payload: PlannedPayload::Control(control_id, actor, None),
            },
        ],
    }
}

/// Plans the events of a fresh approval decision. `attempt_id` and
/// `control_id` are fresh ids for a granted dispatch and a denial's pause.
pub fn approval_events(
    request_id: u128,
    pending_request_id: Option<u128>,
    approval_id: u128,
    actor: String,
    decision: ApprovalDecision,
    attempt_id: u128,
    control_id: u128,
) -> (r: Vec<PlannedEvent>)
    ensures
        r@ == approval_plan(
            request_id,
            pending_request_id,
            approval_id,
            actor,
            decision,
            attempt_id,
            control_id,
        ),
{
    let copy = actor.clone();
    let decided = PlannedEvent {
        kind: EventKind::ApprovalRecorded,
        causation_request_id: Some(request_id),
        attempt_id: None,
        payload: PlannedPayload::ApprovalDecided(approval_id, copy, decision),
    };
    let ghost decided0 = decided;
    match decision {
        ApprovalDecision::Grant => {
            let cause = match pending_request_id {
                Some(p) => p,
                None => request_id,
            };
            let mut events = vec![decided];
            let mut dispatch = dispatch_events(cause, attempt_id, None);
            events.append(&mut dispatch);
            assert(events@ =~= seq![decided0] + dispatch_plan(cause, attempt_id, None));
            events
        },
        ApprovalDecision::Deny => vec![
            decided,
            PlannedEvent {
                kind: EventKind::SessionPaused,
                causation_request_id: Some(request_id),
                attempt_id: None,
                payload: PlannedPayload::Control(control_id, actor, None),
            },
        ],
    }
}

/// An approval's reply tells the truth: once a fresh decision on the
/// pending approval is folded, the session runs (granted) or is paused
/// (denied), no approval is pending, and the decision is recorded.
pub proof fn approval_reply_matches_history(
    steps: Seq<FoldStep>,
    tail: Seq<FoldStep>,
    request_id: u128,
    approval_id: u128,
    actor: String,
    decision: ApprovalDecision,
    attempt_id: u128,
    control_id: u128,
)
    requires
        fold_history(steps) is Ok,
        fold_history(steps)->Ok_0.0 == SessionState::AwaitingApproval,
        fold_history(steps)->Ok_0.2 == Some(approval_id),
        appended_as(
            approval_plan(
                request_id,
                fold_history(steps)->Ok_0.3,
                approval_id,
                actor,
                decision,
                attempt_id,
                control_id,
            ),
            tail,
            fold_history(steps)->Ok_0.1,
        ),
    ensures
        fold_history(steps + tail) is Ok,
        fold_history(steps + tail)->Ok_0.0 == decided_state(decision),
        fold_history(steps + tail)->Ok_0.2 is None,
        fold_history(steps + tail)->Ok_0.5.contains_key(approval_id),
        fold_history(steps + tail)->Ok_0.5[approval_id] == decision,
{
    let v0 = fold_history(steps)->Ok_0;
    assert(steps.len() > 0 && steps[0].kind@ == "session_created"@);
    assert(fold_all(steps) == Ok::<FoldView, DaemonError>(v0));
    assert((steps + tail)[0] == steps[0]);
    folding_appends(steps, tail);
    lemma_fold_planned(v0, tail[0]);
    let v1 = fold_step(v0, tail[0])->Ok_0;
    let t1 = tail.drop_first();
    assert(fold_from(Ok::<FoldView, DaemonError>(v0), tail) == fold_from(
        Ok::<FoldView, DaemonError>(v1),
        t1,
    ));
    lemma_fold_planned(v1, tail[1]);
    let v2 = fold_step(v1, tail[1])->Ok_0;
    let t2 = t1.drop_first();
    assert(t1[0] == tail[1]);
    assert(fold_from(Ok::<FoldView, DaemonError>(v1), t1) == fold_from(
        Ok::<FoldView, DaemonError>(v2),
        t2,
    ));
    if tail.len() == 2 {
        assert(fold_from(Ok::<FoldView, DaemonError>(v2), t2) == Ok::<FoldView, DaemonError>(v2));
    } else {
        lemma_fold_planned(v2, tail[2]);
        let v3 = fold_step(v2, tail[2])->Ok_0;
        let t3 = t2.drop_first();
        assert(t2[0] == tail[2]);
        assert(fold_from(Ok::<FoldView, DaemonError>(v3), t3) == Ok::<FoldView, DaemonError>(v3));
    }
}

/// The attempt outcome that telemetry counts for an appended event, if any.
pub fn event_attempt_label(kind: EventKind) -> (r: Option<&'static str>)
    ensures
        kind == EventKind::SessionCompleted ==> (r matches Some(l) && l@ == "success"@),
        kind == EventKind::SessionFailed ==> (r matches Some(l) && l@ == "failed"@),
        kind == EventKind::SessionCancelled ==> (r matches Some(l) && l@ == "cancelled"@),
        kind == EventKind::SessionAbandoned ==> (r matches Some(l) && l@ == "abandoned"@),
        kind == EventKind::OutcomeUnknown ==> (r matches Some(l) && l@ == "outcome_unknown"@),
        !(kind == EventKind::SessionCompleted || kind == EventKind::SessionFailed || kind
            == EventKind::SessionCancelled || kind == EventKind::SessionAbandoned || kind
            == EventKind::OutcomeUnknown) ==> r is None,
{
    match kind {
        EventKind::SessionCompleted => Some("success"),
        EventKind::SessionFailed => Some("failed"),
        EventKind::SessionCancelled => Some("cancelled"),
        EventKind::SessionAbandoned => Some("abandoned"),
        EventKind::OutcomeUnknown => Some("outcome_unknown"),
        _ => None,
    }
}

/// The events the offline fake provider completes a running attempt with:
/// its response, then the completion. Nothing once the session has left
/// `running`.
pub open spec fn fake_completion_plan(state: SessionState, request_id: u128, attempt_id: u128) -> Seq<
    PlannedEvent,
> {
    if state != SessionState::Running {
        Seq::empty()
    } else {
        seq![
            PlannedEvent {
                kind: EventKind::ProviderEvent,
                causation_request_id: Some(request_id),
                attempt_id: Some(attempt_id),
                payload: PlannedPayload::FakeResponse(attempt_id),
            },
            PlannedEvent {
                kind: EventKind::SessionCompleted,
                causation_request_id: Some(request_id),
                attempt_id: Some(attempt_id),
                payload: PlannedPayload::Terminal("deterministic fake provider completed"),
            },
        ]
    }
}

/// Plans how the offline fake provider completes an attempt.
pub fn fake_completion_events(state: SessionState, request_id: u128, attempt_id: u128) -> (r: Vec<
    PlannedEvent,
>)
    ensures
        r@ == fake_completion_plan(state, request_id, attempt_id),
{
    if state != SessionState::Running {
        return Vec::new();
    }
    vec![
        PlannedEvent {
            kind: EventKind::ProviderEvent,
            causation_request_id: Some(request_id),
            attempt_id: Some(attempt_id),
            payload: PlannedPayload::FakeResponse(attempt_id),
        },
        PlannedEvent {
            kind: EventKind::SessionCompleted,
            causation_request_id: Some(request_id),
            attempt_id: Some(attempt_id),
            payload: PlannedPayload::Terminal("deterministic fake provider completed"),
        },
    ]
}

/// The offline fake provider completes what it runs: folded after a
/// running session, its events leave the session completed.
pub proof fn fake_provider_completes_a_running_session(
    steps: Seq<FoldStep>,
    tail: Seq<FoldStep>,
    request_id: u128,
    attempt_id: u128,
)
    requires
        fold_history(steps) is Ok,
        fold_history(steps)->Ok_0.0 == SessionState::Running,
        appended_as(
            fake_completion_plan(SessionState::Running, request_id, attempt_id),
            tail,
            fold_history(steps)->Ok_0.1,
        ),
    ensures
        fold_history(steps + tail) is Ok,
        fold_history(steps + tail)->Ok_0.0 == SessionState::Completed,
{
    let v0 = fold_history(steps)->Ok_0;
    assert(steps.len() > 0 && steps[0].kind@ == "session_created"@);
    assert(fold_all(steps) == Ok::<FoldView, DaemonError>(v0));
    assert((steps + tail)[0] == steps[0]);
    folding_appends(steps, tail);
    lemma_fold_planned(v0, tail[0]);
    let v1 = fold_step(v0, tail[0])->Ok_0;
    let t1 = tail.drop_first();
    assert(fold_from(Ok::<FoldView, DaemonError>(v0), tail) == fold_from(
        Ok::<FoldView, DaemonError>(v1),
        t1,
    ));
    lemma_fold_planned(v1, tail[1]);
    let v2 = fold_step(v1, tail[1])->Ok_0;
    let t2 = t1.drop_first();
    assert(t1[0] == tail[1]);
    assert(fold_from(Ok::<FoldView, DaemonError>(v1), t1) == fold_from(
        Ok::<FoldView, DaemonError>(v2),
        t2,
    ));
    assert(fold_from(Ok::<FoldView, DaemonError>(v2), t2) == Ok::<FoldView, DaemonError>(v2));
}

} // verus!

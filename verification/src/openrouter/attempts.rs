//! The per-session attempt slot of the adapter: at most one attempt is in
//! flight, and a cancellation that arrives before dispatch is remembered so
//! that the attempt is refused when it starts.

use std::collections::HashSet;

use vstd::prelude::*;

use crate::openrouter::error::{OpenRouterError, OpenRouterErrorKind};

verus! {

broadcast use vstd::std_specs::hash::group_hash_axioms;

/// Whether the adapter could confirm a cancellation.
#[derive(Clone, Copy, Debug, PartialEq, Eq, Structural)]
pub enum CancellationStatus {
    Confirmed,
    Unconfirmed,
}

/// The attempt in flight and whether its cancellation was requested.
#[derive(Clone, Copy, Debug, PartialEq, Eq, Structural)]
pub struct ActiveAttempt {
    pub attempt_id: u128,
    pub cancel_requested: bool,
}

/// The state of one provider session: the attempt in flight, and the
/// attempts whose cancellation arrived.
pub struct AttemptSlot {
    active: Option<ActiveAttempt>,
    pending: HashSet<u128>,
}

/// What a slot holds: the attempt in flight and the pending cancellations.
pub struct SlotModel {
    pub active: Option<ActiveAttempt>,
    pub pending: Set<u128>,
}

impl View for AttemptSlot {
    type V = SlotModel;

    closed spec fn view(&self) -> SlotModel {
        SlotModel { active: self.active, pending: self.pending@ }
    }
}

/// The slot after a cancellation of `attempt`, and the answer given: the
/// attempt is remembered as cancelled, and only the attempt in flight is
/// confirmed, its cancellation flag raised.
pub open spec fn after_cancel(s: SlotModel, attempt: u128) -> (SlotModel, CancellationStatus) {
    let pending = s.pending.insert(attempt);
    match s.active {
        Some(a) => if a.attempt_id == attempt {
            (
                SlotModel {
                    active: Some(ActiveAttempt { attempt_id: attempt, cancel_requested: true }),
                    pending,
                },
                CancellationStatus::Confirmed,
            )
        } else {
            (SlotModel { active: s.active, pending }, CancellationStatus::Unconfirmed)
        },
        None => (SlotModel { active: None, pending }, CancellationStatus::Unconfirmed),
    }
}

/// The slot after `attempt` is finished: it is no longer in flight, and its
/// pending cancellation is forgotten.
pub open spec fn after_release(s: SlotModel, attempt: u128) -> SlotModel {
    SlotModel {
        active: match s.active {
            Some(a) => if a.attempt_id == attempt {
                None
            } else {
                s.active
            },
            None => None,
        },
        pending: s.pending.remove(attempt),
    }
}

/// The refusal that `begin` gives, if any: a busy slot first, then a
/// cancellation that arrived before dispatch.
pub open spec fn begin_refusal(s: SlotModel, attempt: u128) -> Option<(
    OpenRouterErrorKind,
    Seq<char>,
)> {
    if s.active is Some {
        Some(
            (
                OpenRouterErrorKind::Unavailable,
                "OpenRouter session already has an active attempt"@,
            ),
        )
    } else if s.pending.contains(attempt) {
        Some(
            (OpenRouterErrorKind::Cancelled, "OpenRouter attempt was cancelled before dispatch"@),
        )
    } else {
        None
    }
}

/// The slot after `begin`: unchanged when busy, released when a
/// cancellation was pending, else holding the attempt.
pub open spec fn after_begin(s: SlotModel, attempt: u128) -> SlotModel {
    if s.active is Some {
        s
    } else if s.pending.contains(attempt) {
        after_release(s, attempt)
    } else {
        SlotModel {
            active: Some(ActiveAttempt { attempt_id: attempt, cancel_requested: false }),
            pending: s.pending,
        }
    }
}

impl AttemptSlot {
    /// An idle slot with no pending cancellation.
    pub fn new() -> (r: Self)
        ensures
            r@.active is None,
            r@.pending == Set::<u128>::empty(),
    {
        AttemptSlot { active: None, pending: HashSet::new() }
    }

    /// Whether an attempt is in flight.
    pub fn is_busy(&self) -> (r: bool)
        ensures
            r == self@.active is Some,
    {
        self.active.is_some()
    }

    /// Whether the attempt in flight was asked to stop.
    pub fn cancel_requested(&self) -> (r: bool)
        ensures
            r == (self@.active matches Some(a) && a.cancel_requested),
    {
        match self.active {
            Some(a) => a.cancel_requested,
            None => false,
        }
    }

    fn is_pending(&self, attempt: u128) -> (r: bool)
        ensures
            r == self@.pending.contains(attempt),
    {
        self.pending.contains(&attempt)
    }

    fn forget(&mut self, attempt: u128)
        ensures
            final(self)@.pending == old(self)@.pending.remove(attempt),
            final(self)@.active == old(self)@.active,
    {
        self.pending.remove(&attempt);
    }

    /// Registers `attempt` as the one in flight, unless another is, or its
    /// cancellation arrived before dispatch (then the slot forgets it).
    pub fn begin(&mut self, attempt: u128) -> (r: Result<(), OpenRouterError>)
        ensures
            final(self)@ == after_begin(old(self)@, attempt),
            match begin_refusal(old(self)@, attempt) {
                None => r is Ok,
                Some((kind, message)) => r matches Err(e) && e.spec_kind() == kind
                    && e.spec_message() == message,
            },
    {
        proof {
            reveal_strlit("OpenRouter session already has an active attempt");
            reveal_strlit("OpenRouter attempt was cancelled before dispatch");
        }
        if self.active.is_some() {
            return Err(
                OpenRouterError::fixed(
                    OpenRouterErrorKind::Unavailable,
                    "OpenRouter session already has an active attempt",
                ),
            );
        }
        if self.is_pending(attempt) {
            self.release(attempt);
            return Err(
                OpenRouterError::fixed(
                    OpenRouterErrorKind::Cancelled,
                    "OpenRouter attempt was cancelled before dispatch",
                ),
            );
        }
        self.active = Some(ActiveAttempt { attempt_id: attempt, cancel_requested: false });
        proof {
            assert(self@.pending =~= old(self)@.pending);
        }
        Ok(())
    }

    /// Remembers the cancellation of `attempt`, raising the flag of the
    /// attempt in flight when it is that one.
    pub fn cancel(&mut self, attempt: u128) -> (r: CancellationStatus)
        ensures
            (final(self)@, r) == after_cancel(old(self)@, attempt),
    {
        self.pending.insert(attempt);
        match self.active {
            Some(a) => {
                if a.attempt_id == attempt {
                    self.active = Some(ActiveAttempt { attempt_id: attempt, cancel_requested: true });
                    CancellationStatus::Confirmed
                } else {
                    CancellationStatus::Unconfirmed
                }
            },
            None => CancellationStatus::Unconfirmed,
        }
    }

    /// Finishes `attempt`: clears it when it is in flight and forgets its
    /// pending cancellation.
    pub fn release(&mut self, attempt: u128)
        ensures
            final(self)@ == after_release(old(self)@, attempt),
    {
        match self.active {
            Some(a) => {
                if a.attempt_id == attempt {
                    self.active = None;
                }
            },
            None => {},
        }
        self.forget(attempt);
    }
}

/// A cancellation that arrives while no attempt is in flight refuses that
/// attempt when it starts, and leaves the slot idle without it.
pub proof fn cancel_before_dispatch_refuses_the_attempt(s: SlotModel, attempt: u128)
    requires
        s.active is None,
    ensures
        after_cancel(s, attempt).1 == CancellationStatus::Unconfirmed,
        begin_refusal(after_cancel(s, attempt).0, attempt) == Some(
            (OpenRouterErrorKind::Cancelled, "OpenRouter attempt was cancelled before dispatch"@),
        ),
        after_begin(after_cancel(s, attempt).0, attempt).active is None,
        !after_begin(after_cancel(s, attempt).0, attempt).pending.contains(attempt),
{
}

/// Cancelling the attempt in flight is confirmed, and the attempt sees its
/// flag raised.
pub proof fn cancelling_the_attempt_in_flight_is_confirmed(s: SlotModel, attempt: u128)
    requires
        s.active matches Some(a) && a.attempt_id == attempt,
    ensures
        after_cancel(s, attempt).1 == CancellationStatus::Confirmed,
        after_cancel(s, attempt).0.active matches Some(a) && a.attempt_id == attempt
            && a.cancel_requested,
{
}

/// At most one attempt is in flight: starting another on a busy slot is
/// refused and changes nothing.
pub proof fn a_busy_slot_refuses_another_attempt(s: SlotModel, attempt: u128)
    requires
        s.active is Some,
    ensures
        begin_refusal(s, attempt) matches Some((kind, _)) && kind == OpenRouterErrorKind::Unavailable,
        after_begin(s, attempt) == s,
{
}

/// An attempt that started and finished leaves the slot idle, with no
/// cancellation of it pending.
pub proof fn finished_attempt_leaves_the_slot_idle(s: SlotModel, attempt: u128)
    requires
        begin_refusal(s, attempt) is None,
    ensures
        after_release(after_begin(s, attempt), attempt).active is None,
        after_release(after_begin(s, attempt), attempt).pending == s.pending,
{
    assert(s.pending.remove(attempt) =~= s.pending);
}

} // verus!

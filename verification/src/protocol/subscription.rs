//! Bounded per-client event queues and replay of stored events.

use std::collections::VecDeque;

use vstd::prelude::*;

use crate::protocol::event::SessionEvent;
use crate::protocol::ids::PROTOCOL_V1;

verus! {

/// Default bound on queued events.
pub const MAX_QUEUE_EVENTS: usize = 1_024;

/// Default bound on queued encoded bytes.
pub const MAX_QUEUE_BYTES: usize = 8_388_608;

/// Why an event was not queued.
#[derive(Clone, Copy, Debug, PartialEq, Eq, Structural)]
pub enum SubscriptionError {
    ClientLagged,
    Closed,
    Encoding,
}

impl SubscriptionError {
    /// The stable text of the failure.
    pub fn message(&self) -> (r: &'static str)
        ensures
            r@ == match *self {
                SubscriptionError::ClientLagged => "client_lagged"@,
                SubscriptionError::Closed => "subscription is closed"@,
                SubscriptionError::Encoding => "event encoding failed"@,
            },
    {
        match self {
            SubscriptionError::ClientLagged => "client_lagged",
            SubscriptionError::Closed => "subscription is closed",
            SubscriptionError::Encoding => "event encoding failed",
        }
    }
}

/// Sum of the frame sizes of queued entries.
pub open spec fn total_bytes(entries: Seq<(SessionEvent, usize)>) -> nat
    decreases entries.len(),
{
    if entries.len() == 0 {
        0
    } else {
        total_bytes(entries.drop_last()) + (entries.last().1 as nat)
    }
}

/// The events of queued entries, oldest first.
pub open spec fn events_of(entries: Seq<(SessionEvent, usize)>) -> Seq<SessionEvent> {
    entries.map_values(|p: (SessionEvent, usize)| p.0)
}

/// Removing the oldest entry removes its size from the total.
pub proof fn lemma_total_bytes_drop_first(entries: Seq<(SessionEvent, usize)>)
    requires
        entries.len() > 0,
    ensures
        total_bytes(entries) == entries[0].1 + total_bytes(entries.drop_first()),
    decreases entries.len(),
{
    let rest = entries.drop_first();
    if entries.len() > 1 {
        let init = entries.drop_last();
        lemma_total_bytes_drop_first(init);
        assert(init.drop_first() =~= rest.drop_last());
        assert(rest.last() == entries.last());
        assert(init[0] == entries[0]);
        assert(total_bytes(rest) == total_bytes(rest.drop_last()) + (rest.last().1 as nat));
    } else {
        assert(total_bytes(entries.drop_last()) == 0);
        assert(total_bytes(rest) == 0);
        assert(entries.last() == entries[0]);
    }
}

/// What `SessionEvent::validate` accepts: the protocol label, a positive
/// sequence number and object data.
pub open spec fn event_valid(event: SessionEvent) -> bool {
    event.protocol@ == PROTOCOL_V1@ && event.sequence > 0 && event.data.spec_is_object()
}

/// A queue of encoded events for one subscriber, bounded in count and bytes.
/// Once a push overflows it, the queue is closed for good.
#[derive(Clone, Debug)]
pub struct SubscriptionQueue {
    events: VecDeque<(SessionEvent, usize)>,
    encoded_bytes: usize,
    max_events: usize,
    max_bytes: usize,
    closed: bool,
}

impl SubscriptionQueue {
    /// Queued entries (event and frame size), oldest first.
    pub closed spec fn entries(&self) -> Seq<(SessionEvent, usize)> {
        self.events@
    }

    /// Bytes accounted to queued events.
    pub closed spec fn spec_encoded_bytes(&self) -> nat {
        self.encoded_bytes as nat
    }

    /// Bound on queued events.
    pub closed spec fn spec_max_events(&self) -> nat {
        self.max_events as nat
    }

    /// Bound on queued bytes.
    pub closed spec fn spec_max_bytes(&self) -> nat {
        self.max_bytes as nat
    }

    /// Whether the queue was closed by an overflow.
    pub closed spec fn spec_closed(&self) -> bool {
        self.closed
    }

    /// The byte count is the sum of the frame sizes, and both bounds hold.
    pub closed spec fn wf(&self) -> bool {
        &&& self.encoded_bytes == total_bytes(self.events@)
        &&& self.events@.len() <= self.max_events
        &&& self.encoded_bytes <= self.max_bytes
    }

    /// An empty open queue with the given bounds.
    pub fn new(max_events: usize, max_bytes: usize) -> (r: Self)
        ensures
            r.wf(),
            r.entries() == Seq::<(SessionEvent, usize)>::empty(),
            r.spec_encoded_bytes() == 0,
            r.spec_max_events() == max_events,
            r.spec_max_bytes() == max_bytes,
            !r.spec_closed(),
    {
        let r = Self {
            events: VecDeque::new(),
            encoded_bytes: 0,
            max_events,
            max_bytes,
            closed: false,
        };
        assert(r.events@.len() == 0);
        r
    }

    /// Queues an event whose JSON encoding is `encoded_json_len` bytes long
    /// (`None` when it could not be encoded); its frame takes one byte more.
    ///
    /// # Errors
    ///
    /// `Closed` on a closed queue; `Encoding` for an invalid or unencodable
    /// event; `ClientLagged` when the event would break a bound, which also
    /// closes the queue.
    pub fn push(&mut self, event: SessionEvent, encoded_json_len: Option<usize>) -> (r: Result<
        (),
        SubscriptionError,
    >)
        requires
            old(self).wf(),
            encoded_json_len matches Some(n) ==> n < usize::MAX,
            encoded_json_len matches Some(n) ==> old(self).spec_encoded_bytes() + n + 1
                <= usize::MAX || old(self).spec_max_bytes() < usize::MAX,
        ensures
            final(self).wf(),
            final(self).spec_max_events() == old(self).spec_max_events(),
            final(self).spec_max_bytes() == old(self).spec_max_bytes(),
            old(self).spec_closed() ==> r == Err::<(), SubscriptionError>(
                SubscriptionError::Closed,
            ),
            r == Err::<(), SubscriptionError>(SubscriptionError::Closed) ==> old(self).spec_closed(),
            final(self).spec_closed() == (old(self).spec_closed() || r == Err::<(), SubscriptionError>(
                SubscriptionError::ClientLagged,
            )),
            r == Err::<(), SubscriptionError>(SubscriptionError::Encoding) ==> !old(
                self,
            ).spec_closed() && (!event_valid(event) || encoded_json_len is None),
            !old(self).spec_closed() && (!event_valid(event) || encoded_json_len is None)
                ==> r == Err::<(), SubscriptionError>(SubscriptionError::Encoding),
            r is Err && r != Err::<(), SubscriptionError>(SubscriptionError::ClientLagged) ==> (
            final(self).entries() == old(self).entries() && final(self).spec_encoded_bytes()
                == old(self).spec_encoded_bytes() && final(self).spec_closed()
                == old(self).spec_closed()),
            r is Ok || r == Err::<(), SubscriptionError>(SubscriptionError::ClientLagged) ==> (
            !old(self).spec_closed() && event_valid(event) && encoded_json_len is Some),
            r is Ok ==> ({
                let frame = (encoded_json_len->0 + 1) as usize;
                &&& old(self).entries().len() < old(self).spec_max_events()
                &&& old(self).spec_encoded_bytes() + frame <= old(self).spec_max_bytes()
                &&& final(self).entries() == old(self).entries().push((event, frame))
                &&& final(self).spec_encoded_bytes() == old(self).spec_encoded_bytes() + frame
                &&& !final(self).spec_closed()
            }),
            r == Err::<(), SubscriptionError>(SubscriptionError::ClientLagged) ==> ({
                let frame = encoded_json_len->0 + 1;
                &&& (old(self).entries().len() == old(self).spec_max_events() || old(
                    self,
                ).spec_encoded_bytes() + frame > old(self).spec_max_bytes())
                &&& final(self).entries() == old(self).entries()
                &&& final(self).spec_encoded_bytes() == old(self).spec_encoded_bytes()
                &&& final(self).spec_closed()
            }),
    {
        if self.closed {
            return Err(SubscriptionError::Closed);
        }
        if event.validate().is_err() {
            return Err(SubscriptionError::Encoding);
        }
        let frame = match encoded_json_len {
            Some(n) => n + 1,
            None => return Err(SubscriptionError::Encoding),
        };
        if self.events.len() == self.max_events || self.encoded_bytes.saturating_add(frame)
            > self.max_bytes {
            self.closed = true;
            return Err(SubscriptionError::ClientLagged);
        }
        proof {
            let pushed = self.events@.push((event, frame));
            assert(pushed.drop_last() =~= self.events@);
        }
        self.encoded_bytes = self.encoded_bytes + frame;
        self.events.push_back((event, frame));
        Ok(())
    }

    /// Takes the oldest queued event.
    pub fn pop(&mut self) -> (r: Option<SessionEvent>)
        requires
            old(self).wf(),
        ensures
            final(self).wf(),
            final(self).spec_closed() == old(self).spec_closed(),
            final(self).spec_max_events() == old(self).spec_max_events(),
            final(self).spec_max_bytes() == old(self).spec_max_bytes(),
            old(self).entries().len() == 0 ==> r is None && final(self).entries() == old(
                self,
            ).entries() && final(self).spec_encoded_bytes() == old(self).spec_encoded_bytes(),
            old(self).entries().len() > 0 ==> r == Some(old(self).entries()[0].0)
                && final(self).entries() == old(self).entries().drop_first()
                && final(self).spec_encoded_bytes() == old(self).spec_encoded_bytes() - old(
                self,
            ).entries()[0].1,
    {
        proof {
            if self.events@.len() > 0 {
                lemma_total_bytes_drop_first(self.events@);
            }
        }
        match self.events.pop_front() {
            Some((event, frame)) => {
                self.encoded_bytes = self.encoded_bytes - frame;
                proof {
                    assert(self.events@ =~= old(self).events@.drop_first());
                }
                Some(event)
            },
            None => None,
        }
    }

    /// Whether an overflow closed the queue.
    pub fn is_closed(&self) -> (r: bool)
        ensures
            r == self.spec_closed(),
    {
        self.closed
    }

    /// Number of queued events.
    pub fn len(&self) -> (r: usize)
        ensures
            r == self.entries().len(),
    {
        self.events.len()
    }

    /// Whether no event is queued.
    pub fn is_empty(&self) -> (r: bool)
        ensures
            r == (self.entries().len() == 0),
    {
        self.events.len() == 0
    }

    /// Bytes accounted to queued events.
    pub fn encoded_bytes(&self) -> (r: usize)
        ensures
            r == self.spec_encoded_bytes(),
    {
        self.encoded_bytes
    }
}

impl Default for SubscriptionQueue {
    /// An empty queue with the default bounds.
    fn default() -> (r: Self)
        ensures
            r.wf(),
            r.entries() == Seq::<(SessionEvent, usize)>::empty(),
            r.spec_encoded_bytes() == 0,
            r.spec_max_events() == MAX_QUEUE_EVENTS,
            r.spec_max_bytes() == MAX_QUEUE_BYTES,
            !r.spec_closed(),
    {
        Self::new(MAX_QUEUE_EVENTS, MAX_QUEUE_BYTES)
    }
}

/// Stored events strictly after a sequence number.
pub open spec fn after_sequence_spec(events: Seq<SessionEvent>, after_sequence: u64) -> Seq<
    SessionEvent,
> {
    events.filter(|e: SessionEvent| e.sequence > after_sequence)
}

/// A replay holds every stored event after the client's last-seen sequence
/// number and nothing else: each event whose sequence is greater is in it,
/// each event in it is stored and greater, it is never longer than the
/// history, a history entirely after that number is replayed whole and in
/// order, and a history entirely at or before it is not replayed at all.
pub proof fn replay_holds_exactly_the_later_events(events: Seq<SessionEvent>, after: u64)
    ensures
        forall|i: int|
            0 <= i < events.len() && events[i].sequence > after ==> #[trigger] after_sequence_spec(
                events,
                after,
            ).contains(events[i]),
        forall|k: int|
            0 <= k < after_sequence_spec(events, after).len() ==> #[trigger] after_sequence_spec(
                events,
                after,
            )[k].sequence > after && events.contains(after_sequence_spec(events, after)[k]),
        after_sequence_spec(events, after).len() <= events.len(),
        (forall|i: int| 0 <= i < events.len() ==> #[trigger] events[i].sequence > after)
            ==> after_sequence_spec(events, after) == events,
        (forall|i: int| 0 <= i < events.len() ==> #[trigger] events[i].sequence <= after)
            ==> after_sequence_spec(events, after).len() == 0,
    decreases events.len(),
{
    reveal_with_fuel(Seq::filter, 1);
    if events.len() > 0 {
        let init = events.drop_last();
        let last = events.last();
        replay_holds_exactly_the_later_events(init, after);
        let r0 = after_sequence_spec(init, after);
        let r = after_sequence_spec(events, after);
        assert(r == if last.sequence > after {
            r0.push(last)
        } else {
            r0
        });
        assert forall|i: int|
            0 <= i < events.len() && events[i].sequence > after implies #[trigger] r.contains(
                events[i],
            ) by {
            if i < events.len() - 1 {
                assert(init[i] == events[i]);
                assert(r0.contains(init[i]));
                let k = choose|k: int| 0 <= k < r0.len() && r0[k] == init[i];
                assert(r[k] == r0[k]);
            } else {
                assert(r[r.len() - 1] == last);
            }
        }
        assert forall|k: int| 0 <= k < r.len() implies #[trigger] r[k].sequence > after
            && events.contains(r[k]) by {
            if k < r0.len() {
                assert(r[k] == r0[k]);
                assert(r0[k].sequence > after);
                assert(init.contains(r0[k]));
                let j = choose|j: int| 0 <= j < init.len() && init[j] == r0[k];
                assert(events[j] == init[j]);
            } else {
                assert(r[k] == last);
                assert(events[events.len() - 1] == last);
            }
        }
        if forall|i: int| 0 <= i < events.len() ==> #[trigger] events[i].sequence > after {
            assert forall|i: int| 0 <= i < init.len() implies #[trigger] init[i].sequence > after by {
                assert(init[i] == events[i]);
            }
            assert(events[events.len() - 1].sequence > after);
            assert(r0 == init);
            assert(r =~= events);
        }
        if forall|i: int| 0 <= i < events.len() ==> #[trigger] events[i].sequence <= after {
            assert forall|i: int| 0 <= i < init.len() implies #[trigger] init[i].sequence <= after by {
                assert(init[i] == events[i]);
            }
            assert(events[events.len() - 1].sequence <= after);
        }
    }
}

/// The events whose sequence number is greater than `after_sequence`, in
/// their order.
pub fn replay_after(events: Vec<SessionEvent>, after_sequence: u64) -> (r: Vec<SessionEvent>)
    ensures
        r@ == after_sequence_spec(events@, after_sequence),
        forall|i: int|
            0 <= i < events@.len() && events@[i].sequence > after_sequence ==> #[trigger] r@.contains(
                events@[i],
            ),
        forall|k: int| 0 <= k < r@.len() ==> #[trigger] r@[k].sequence > after_sequence,
{
    proof {
        replay_holds_exactly_the_later_events(events@, after_sequence);
    }
    let ghost all = events@;
    let mut rest = events;
    let mut kept_rev: Vec<SessionEvent> = Vec::new();
    // Takes the events from the back, keeping the matching ones in reverse.
    while rest.len() > 0
        invariant
            after_sequence_spec(all, after_sequence) == after_sequence_spec(
                rest@,
                after_sequence,
            ) + kept_rev@.reverse(),
        decreases rest@.len(),
    {
        let ghost before = rest@;
        let ghost kept_before = kept_rev@;
        let e = rest.pop().unwrap();
        proof {
            reveal_with_fuel(Seq::filter, 1);
            assert(before.drop_last() =~= rest@);
        }
        if e.sequence > after_sequence {
            kept_rev.push(e);
            assert(kept_rev@.reverse() =~= seq![e] + kept_before.reverse());
        }
    }
    assert(rest@.len() == 0);
    proof {
        reveal_with_fuel(Seq::filter, 1);
    }
    let mut out: Vec<SessionEvent> = Vec::new();
    while kept_rev.len() > 0
        invariant
            after_sequence_spec(all, after_sequence) == out@ + kept_rev@.reverse(),
        decreases kept_rev@.len(),
    {
        let ghost kept_before = kept_rev@;
        let ghost out_before = out@;
        let e = kept_rev.pop().unwrap();
        out.push(e);
        assert(kept_before =~= kept_rev@.push(e));
        assert(kept_before.reverse() =~= seq![e] + kept_rev@.reverse());
        assert(out_before + kept_before.reverse() =~= out@ + kept_rev@.reverse());
    }
    assert(kept_rev@.reverse() =~= Seq::<SessionEvent>::empty());
    assert(out@ + kept_rev@.reverse() =~= out@);
    out
}

} // verus!

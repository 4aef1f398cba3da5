//! Fan-out of session events to their subscribers: each subscriber has a
//! bounded queue and a line of signals (an event is waiting, or the
//! subscriber lagged), read back one item at a time.

use std::collections::VecDeque;

use vstd::prelude::*;

use crate::protocol::event::{SessionEvent, same_event};
use crate::protocol::subscription::{
    MAX_QUEUE_BYTES, MAX_QUEUE_EVENTS, SubscriptionError, SubscriptionQueue, event_valid,
};

verus! {

/// What a subscriber reads next: an event, or notice that it fell behind.
#[derive(Debug)]
pub enum SubscriptionItem {
    Event(SessionEvent),
    Lagged,
}

/// One subscriber: its session, its queue, and its pending signals (`true`
/// for an event, `false` for a lag). A subscriber that lagged, or whose
/// session was purged, is detached and receives nothing more.
pub struct Subscriber {
    pub id: u64,
    pub session_id: u128,
    pub queue: SubscriptionQueue,
    pub signals: VecDeque<bool>,
    pub attached: bool,
}

/// Number of event signals.
pub open spec fn count_events(signals: Seq<bool>) -> nat
    decreases signals.len(),
{
    if signals.len() == 0 {
        0
    } else {
        count_events(signals.drop_last()) + if signals.last() {
            1nat
        } else {
            0nat
        }
    }
}

proof fn lemma_count_events_drop_first(signals: Seq<bool>)
    requires
        signals.len() > 0,
    ensures
        count_events(signals) == count_events(signals.drop_first()) + if signals[0] {
            1nat
        } else {
            0nat
        },
    decreases signals.len(),
{
    if signals.len() > 1 {
        let a = signals.drop_last();
        let b = signals.drop_first();
        lemma_count_events_drop_first(a);
        assert(b.drop_last() =~= a.drop_first());
        assert(b.last() == signals.last());
        assert(a[0] == signals[0]);
        assert(count_events(signals) == count_events(a) + if signals.last() {
            1nat
        } else {
            0nat
        });
        assert(count_events(b) == count_events(b.drop_last()) + if b.last() {
            1nat
        } else {
            0nat
        });
    } else {
        assert(signals.drop_first().len() == 0);
        assert(signals.drop_last().len() == 0);
        assert(signals.last() == signals[0]);
        assert(count_events(signals.drop_last()) == 0);
        assert(count_events(signals.drop_first()) == 0);
        assert(count_events(signals) == count_events(signals.drop_last()) + if signals.last() {
            1nat
        } else {
            0nat
        });
    }
}

proof fn lemma_count_events_push(signals: Seq<bool>, b: bool)
    ensures
        count_events(signals.push(b)) == count_events(signals) + if b {
            1nat
        } else {
            0nat
        },
{
    assert(signals.push(b).drop_last() =~= signals);
}

/// A subscriber holds together: its queue keeps the default bounds, and
/// each queued event has a pending event signal; while it is attached,
/// each event signal has its queued event too.
pub open spec fn subscriber_ok(s: Subscriber) -> bool {
    &&& s.queue.wf()
    &&& s.queue.spec_max_events() == MAX_QUEUE_EVENTS
    &&& s.queue.spec_max_bytes() == MAX_QUEUE_BYTES
    &&& s.queue.entries().len() <= count_events(s.signals@)
    &&& s.attached ==> s.queue.entries().len() == count_events(s.signals@)
}

/// Whether a published event is offered to the subscriber.
pub open spec fn reaches(s: Subscriber, event: SessionEvent) -> bool {
    s.attached && s.session_id == event.session_id
}

/// Whether the subscriber's queue takes an event whose JSON encoding is
/// `len` bytes long.
pub open spec fn queue_accepts(q: SubscriptionQueue, event: SessionEvent, len: Option<usize>) -> bool {
    &&& !q.spec_closed()
    &&& event_valid(event)
    &&& len is Some
    &&& q.entries().len() < q.spec_max_events()
    &&& q.spec_encoded_bytes() + len->0 + 1 <= q.spec_max_bytes()
}

/// A subscriber the event reached: the event is queued behind an event
/// signal, or, when the queue refuses it, a lag signal detaches it.
pub open spec fn delivered(s: Subscriber, t: Subscriber, event: SessionEvent, len: Option<usize>) -> bool {
    &&& t.id == s.id
    &&& t.session_id == s.session_id
    &&& subscriber_ok(t)
    &&& if queue_accepts(s.queue, event, len) {
        &&& t.attached
        &&& t.signals@ == s.signals@.push(true)
        &&& t.queue.entries().len() == s.queue.entries().len() + 1
        &&& t.queue.entries().drop_last() == s.queue.entries()
        &&& same_event(event, t.queue.entries().last().0)
        &&& t.queue.entries().last().1 == len->0 + 1
    } else {
        &&& !t.attached
        &&& t.signals@ == s.signals@.push(false)
        &&& t.queue.entries() == s.queue.entries()
    }
}

/// The subscribers after a publication: those it reaches got it (or
/// lagged), all others are untouched.
pub open spec fn published(
    before: Seq<Subscriber>,
    after: Seq<Subscriber>,
    event: SessionEvent,
    len: Option<usize>,
) -> bool {
    &&& after.len() == before.len()
    &&& forall|i: int|
        0 <= i < before.len() ==> if reaches(before[i], event) {
            delivered(before[i], #[trigger] after[i], event, len)
        } else {
            after[i] == before[i]
        }
}

/// Why a replay cannot fill a fresh queue, from its `i`-th event on, with
/// `count` events and `bytes` bytes already queued.
pub open spec fn replay_refusal(
    items: Seq<(SessionEvent, Option<usize>)>,
    i: int,
    count: nat,
    bytes: nat,
) -> Option<SubscriptionError>
    decreases items.len() - i,
{
    if i < 0 || i >= items.len() {
        None
    } else if !event_valid(items[i].0) || items[i].1 is None {
        Some(SubscriptionError::Encoding)
    } else if count >= MAX_QUEUE_EVENTS || bytes + items[i].1->0 + 1 > MAX_QUEUE_BYTES {
        Some(SubscriptionError::ClientLagged)
    } else {
        replay_refusal(items, i + 1, count + 1, (bytes + items[i].1->0 + 1) as nat)
    }
}

/// The queue entries of a replay: each event with its frame size.
pub open spec fn replay_entries(items: Seq<(SessionEvent, Option<usize>)>) -> Seq<(SessionEvent, usize)> {
    items.map_values(|p: (SessionEvent, Option<usize>)| (p.0, (p.1->0 + 1) as usize))
}

/// Where the subscriber `id` stands, if anywhere.
pub open spec fn position(subs: Seq<Subscriber>, id: u64) -> Option<int> {
    if exists|i: int| 0 <= i < subs.len() && (#[trigger] subs[i]).id == id {
        Some(choose|i: int| 0 <= i < subs.len() && (#[trigger] subs[i]).id == id)
    } else {
        None
    }
}

/// The subscribers of every session, with the next subscriber id.
pub struct SubscriptionHub {
    subscribers: Vec<Subscriber>,
    next_id: u64,
}

impl SubscriptionHub {
    /// The registered subscribers.
    pub closed spec fn subscribers(&self) -> Seq<Subscriber> {
        self.subscribers@
    }

    /// The id the next subscriber gets.
    pub closed spec fn spec_next_id(&self) -> u64 {
        self.next_id
    }

    /// Every subscriber holds together and has its own id, below the next.
    pub open spec fn wf(&self) -> bool {
        &&& forall|i: int|
            0 <= i < self.subscribers().len() ==> subscriber_ok(#[trigger] self.subscribers()[i])
                && self.subscribers()[i].id < self.spec_next_id()
        &&& forall|i: int, j: int|
            0 <= i < j < self.subscribers().len() ==> (#[trigger] self.subscribers()[i]).id
                != (#[trigger] self.subscribers()[j]).id
    }

    /// A hub with no subscriber.
    pub fn new() -> (r: Self)
        ensures
            r.wf(),
            r.subscribers() == Seq::<Subscriber>::empty(),
            r.spec_next_id() == 0,
    {
        SubscriptionHub { subscribers: Vec::new(), next_id: 0 }
    }

    fn find(&self, id: u64) -> (r: Option<usize>)
        requires
            self.wf(),
        ensures
            match position(self.subscribers(), id) {
                Some(i) => r == Some(i as usize),
                None => r is None,
            },
            r matches Some(k) ==> k < self.subscribers().len() && self.subscribers()[k as int].id
                == id,
    {
        let n = self.subscribers.len();
        let mut i: usize = 0;
        while i < n
            invariant
                self.wf(),
                n == self.subscribers@.len(),
                i <= n,
                forall|j: int| 0 <= j < i ==> (#[trigger] self.subscribers@[j]).id != id,
            decreases n - i,
        {
            if self.subscribers[i].id == id {
                proof {
                    assert(self.subscribers()[i as int].id == id);
                    let k = choose|k: int|
                        0 <= k < self.subscribers().len() && (#[trigger] self.subscribers()[k]).id
                            == id;
                    if k != i {
                        if k < i {
                            assert(self.subscribers()[k].id != self.subscribers()[i as int].id);
                        } else {
                            assert(self.subscribers()[i as int].id != self.subscribers()[k].id);
                        }
                    }
                }
                return Some(i);
            }
            i += 1;
        }
        None
    }

    /// Registers a subscriber of `session_id` whose queue starts with the
    /// replayed events (each with the length of its JSON encoding), one
    /// event signal for each, and returns its id.
    ///
    /// # Errors
    ///
    /// The first refusal of the replay by a fresh queue; `Closed` once every
    /// subscriber id has been handed out.
    pub fn subscribe(&mut self, session_id: u128, replay: Vec<(SessionEvent, Option<usize>)>) -> (r:
        Result<u64, SubscriptionError>)
        requires
            old(self).wf(),
            forall|i: int|
                0 <= i < replay@.len() ==> ((#[trigger] replay@[i]).1 matches Some(n) ==> n
                    < usize::MAX),
        ensures
            final(self).wf(),
            old(self).spec_next_id() == u64::MAX ==> r == Err::<u64, SubscriptionError>(
                SubscriptionError::Closed,
            ) && final(self).subscribers() == old(self).subscribers() && final(self).spec_next_id() == old(self).spec_next_id(),
            old(self).spec_next_id() < u64::MAX ==> match replay_refusal(replay@, 0, 0, 0) {
                Some(e) => r == Err::<u64, SubscriptionError>(e) && final(self).subscribers()
                    == old(self).subscribers() && final(self).spec_next_id() == old(self).spec_next_id(),
                None => {
                    &&& r == Ok::<u64, SubscriptionError>(old(self).spec_next_id())
                    &&& final(self).spec_next_id() == old(self).spec_next_id() + 1
                    &&& final(self).subscribers().len() == old(self).subscribers().len() + 1
                    &&& final(self).subscribers().drop_last() == old(self).subscribers()
                    &&& final(self).subscribers().last().id == old(self).spec_next_id()
                    &&& final(self).subscribers().last().session_id == session_id
                    &&& final(self).subscribers().last().attached
                    &&& final(self).subscribers().last().queue.entries() == replay_entries(
                        replay@,
                    )
                    &&& final(self).subscribers().last().signals@ == Seq::new(
                        replay@.len(),
                        |k: int| true,
                    )
                },
            },
    {
        if self.next_id == u64::MAX {
            return Err(SubscriptionError::Closed);
        }
        let ghost items = replay@;
        let mut queue = SubscriptionQueue::default();
        let mut signals: VecDeque<bool> = VecDeque::new();
        let mut rest = replay;
        let n = rest.len();
        let mut i: usize = 0;
        while i < n
            invariant
                *self == *old(self),
                old(self).wf(),
                old(self).next_id < u64::MAX,
                items == replay@,
                n == items.len(),
                i <= n,
                rest@ == items.subrange(i as int, n as int),
                forall|k: int|
                    0 <= k < items.len() ==> ((#[trigger] items[k]).1 matches Some(m) ==> m
                        < usize::MAX),
                queue.wf(),
                queue.spec_max_events() == MAX_QUEUE_EVENTS,
                queue.spec_max_bytes() == MAX_QUEUE_BYTES,
                !queue.spec_closed(),
                queue.entries() == replay_entries(items.take(i as int)),
                queue.entries().len() == i,
                signals@ == Seq::new(i as nat, |k: int| true),
                count_events(signals@) == i,
                replay_refusal(items, 0, 0, 0) == replay_refusal(
                    items,
                    i as int,
                    i as nat,
                    queue.spec_encoded_bytes(),
                ),
            decreases n - i,
        {
            let (event, len) = rest.remove(0);
            assert(items[i as int] == (event, len));
            let ghost before = queue;
            match queue.push(event, len) {
                Ok(()) => {},
                Err(e) => {
                    proof {
                        assert(replay_refusal(items, i as int, i as nat, before.spec_encoded_bytes())
                            == Some(e));
                    }
                    return Err(e);
                },
            }
            proof {
                assert(items.take(i + 1).drop_last() =~= items.take(i as int));
                assert(replay_entries(items.take(i + 1)) =~= replay_entries(items.take(i as int)).push(
                    (items[i as int].0, (items[i as int].1->0 + 1) as usize),
                ));
                lemma_count_events_push(signals@, true);
            }
            signals.push_back(true);
            proof {
                assert(signals@ =~= Seq::new((i + 1) as nat, |k: int| true));
                assert(rest@ =~= items.subrange(i + 1, n as int));
            }
            i += 1;
        }
        proof {
            assert(items.take(n as int) =~= items);
        }
        let id = self.next_id;
        let subscriber = Subscriber { id, session_id, queue, signals, attached: true };
        self.subscribers.push(subscriber);
        self.next_id = id + 1;
        proof {
            assert(self.subscribers@.drop_last() =~= old(self).subscribers@);
            assert forall|k: int| 0 <= k < self.subscribers().len() implies subscriber_ok(
                #[trigger] self.subscribers()[k],
            ) && self.subscribers()[k].id < self.spec_next_id() by {
                if k < old(self).subscribers().len() {
                    assert(self.subscribers()[k] == old(self).subscribers()[k]);
                }
            }
            assert forall|a: int, b: int|
                0 <= a < b < self.subscribers().len() implies (#[trigger] self.subscribers()[a]).id
                != (#[trigger] self.subscribers()[b]).id by {
                assert(self.subscribers()[a] == old(self).subscribers()[a]);
                if b < old(self).subscribers().len() {
                    assert(self.subscribers()[b] == old(self).subscribers()[b]);
                }
            }
        }
        Ok(id)
    }

    /// Offers `event`, whose JSON encoding is `encoded_len` bytes long, to
    /// every attached subscriber of its session.
    pub fn publish(&mut self, event: &SessionEvent, encoded_len: Option<usize>)
        requires
            old(self).wf(),
            encoded_len matches Some(n) ==> n < usize::MAX,
        ensures
            final(self).wf(),
            final(self).spec_next_id() == old(self).spec_next_id(),
            published(old(self).subscribers(), final(self).subscribers(), *event, encoded_len),
    {
        let ghost before = self.subscribers@;
        proof {
            assert forall|k: int| 0 <= k < before.len() implies subscriber_ok(#[trigger] before[k]) by {
                assert(before[k] == old(self).subscribers()[k]);
            }
        }
        let mut rest: Vec<Subscriber> = Vec::new();
        std::mem::swap(&mut rest, &mut self.subscribers);
        let mut out: Vec<Subscriber> = Vec::new();
        let n = rest.len();
        let mut i: usize = 0;
        while i < n
            invariant
                n == before.len(),
                i <= n,
                rest@ == before.subrange(i as int, n as int),
                out@.len() == i,
                encoded_len matches Some(m) ==> m < usize::MAX,
                forall|k: int| 0 <= k < before.len() ==> subscriber_ok(#[trigger] before[k]),
                forall|k: int|
                    0 <= k < i ==> if reaches(before[k], *event) {
                        delivered(before[k], #[trigger] out@[k], *event, encoded_len)
                    } else {
                        out@[k] == before[k]
                    },
            decreases n - i,
        {
            let mut sub = rest.remove(0);
            assert(sub == before[i as int]);
            if sub.attached && sub.session_id == event.session_id {
                let ghost s0 = sub;
                let copy = event.clone();
                proof {
                    assert(event_valid(copy) == event_valid(*event));
                }
                let pushed = sub.queue.push(copy, encoded_len);
                match pushed {
                    Ok(()) => {
                        proof {
                            lemma_count_events_push(sub.signals@, true);
                            assert(sub.queue.entries().drop_last() =~= s0.queue.entries());
                            assert(queue_accepts(s0.queue, *event, encoded_len));
                        }
                        sub.signals.push_back(true);
                        assert(delivered(s0, sub, *event, encoded_len));
                    },
                    Err(e) => {
                        proof {
                            lemma_count_events_push(sub.signals@, false);
                            match e {
                                SubscriptionError::Closed => {
                                    assert(s0.queue.spec_closed());
                                },
                                SubscriptionError::Encoding => {
                                    assert(!event_valid(copy) || encoded_len is None);
                                },
                                SubscriptionError::ClientLagged => {},
                            }
                            assert(!queue_accepts(s0.queue, *event, encoded_len));
                        }
                        sub.signals.push_back(false);
                        sub.attached = false;
                        assert(delivered(s0, sub, *event, encoded_len));
                    },
                }
            }
            let ghost done = sub;
            out.push(sub);
            proof {
                assert(out@[i as int] == done);
                assert forall|k: int|
                    0 <= k < i + 1 implies if reaches(before[k], *event) {
                        delivered(before[k], #[trigger] out@[k], *event, encoded_len)
                    } else {
                        out@[k] == before[k]
                    } by {
                    if k < i {
                        assert(out@[k] == out@.drop_last()[k]);
                    }
                }
            }
            proof {
                assert(rest@ =~= before.subrange(i + 1, n as int));
            }
            i += 1;
        }
        self.subscribers = out;
        proof {
            assert forall|k: int| 0 <= k < self.subscribers().len() implies subscriber_ok(
                #[trigger] self.subscribers()[k],
            ) && self.subscribers()[k].id < self.spec_next_id() by {
                assert(old(self).subscribers()[k] == before[k]);
            }
            assert forall|a: int, b: int|
                0 <= a < b < self.subscribers().len() implies (#[trigger] self.subscribers()[a]).id
                != (#[trigger] self.subscribers()[b]).id by {
                assert(old(self).subscribers()[a] == before[a]);
                assert(old(self).subscribers()[b] == before[b]);
            }
        }
    }

    /// Reads the next item of subscriber `id`: its first signal, an event
    /// signal giving its oldest queued event; `None` when it has nothing
    /// pending, or is unknown, or its events were purged.
    pub fn next(&mut self, id: u64) -> (r: Option<SubscriptionItem>)
        requires
            old(self).wf(),
        ensures
            final(self).wf(),
            final(self).spec_next_id() == old(self).spec_next_id(),
            match position(old(self).subscribers(), id) {
                None => r is None && final(self).subscribers() == old(self).subscribers(),
                Some(k) => {
                    let s = old(self).subscribers()[k];
                    let t = final(self).subscribers()[k];
                    &&& final(self).subscribers() == old(self).subscribers().update(k, t)
                    &&& t.id == s.id && t.session_id == s.session_id && t.attached == s.attached
                    &&& if s.signals@.len() == 0 {
                        r is None && t.signals@ == s.signals@ && t.queue.entries()
                            == s.queue.entries()
                    } else {
                        &&& t.signals@ == s.signals@.drop_first()
                        &&& if s.signals@[0] {
                            if s.queue.entries().len() == 0 {
                                r is None && t.queue.entries() == s.queue.entries()
                            } else {
                                r matches Some(SubscriptionItem::Event(e)) && e
                                    == s.queue.entries()[0].0 && t.queue.entries()
                                    == s.queue.entries().drop_first()
                            }
                        } else {
                            r matches Some(SubscriptionItem::Lagged) && t.queue.entries()
                                == s.queue.entries()
                        }
                    }
                },
            },
    {
        let k = match self.find(id) {
            Some(k) => k,
            None => return None,
        };
        let ghost before = self.subscribers@;
        let mut sub = self.subscribers.remove(k);
        assert(sub == before[k as int]);
        let ghost s0 = sub;
        let item = match sub.signals.pop_front() {
            None => None,
            Some(is_event) => {
                proof {
                    lemma_count_events_drop_first(s0.signals@);
                }
                if is_event {
                    match sub.queue.pop() {
                        Some(event) => Some(SubscriptionItem::Event(event)),
                        None => None,
                    }
                } else {
                    Some(SubscriptionItem::Lagged)
                }
            },
        };
        self.subscribers.insert(k, sub);
        proof {
            assert(self.subscribers@ =~= before.update(k as int, sub));
            assert forall|a: int, b: int|
                0 <= a < b < self.subscribers().len() implies (#[trigger] self.subscribers()[a]).id
                != (#[trigger] self.subscribers()[b]).id by {
                assert(self.subscribers()[a].id == before[a].id);
                assert(self.subscribers()[b].id == before[b].id);
            }
        }
        item
    }

    /// Detaches every subscriber of `session_id` and drops its queued
    /// events; its pending signals stay, so it reads `None` for them.
    ///
    /// # Errors
    ///
    /// None: the result is always `Ok`.
    pub fn purge_session(&mut self, session_id: u128) -> (r: Result<(), SubscriptionError>)
        requires
            old(self).wf(),
        ensures
            r is Ok,
            final(self).wf(),
            final(self).spec_next_id() == old(self).spec_next_id(),
            final(self).subscribers().len() == old(self).subscribers().len(),
            forall|k: int|
                0 <= k < old(self).subscribers().len() ==> {
                    let s = old(self).subscribers()[k];
                    let t = #[trigger] final(self).subscribers()[k];
                    if s.session_id == session_id {
                        &&& t.id == s.id && t.session_id == s.session_id
                        &&& !t.attached
                        &&& t.signals@ == s.signals@
                        &&& t.queue.entries().len() == 0
                    } else {
                        t == s
                    }
                },
    {
        let ghost before = self.subscribers@;
        let mut rest: Vec<Subscriber> = Vec::new();
        std::mem::swap(&mut rest, &mut self.subscribers);
        let mut out: Vec<Subscriber> = Vec::new();
        let n = rest.len();
        let mut i: usize = 0;
        while i < n
            invariant
                n == before.len(),
                i <= n,
                rest@ == before.subrange(i as int, n as int),
                out@.len() == i,
                forall|k: int| 0 <= k < before.len() ==> subscriber_ok(#[trigger] before[k]),
                forall|k: int|
                    0 <= k < i ==> {
                        let s = before[k];
                        let t = #[trigger] out@[k];
                        if s.session_id == session_id {
                            &&& t.id == s.id && t.session_id == s.session_id
                            &&& !t.attached
                            &&& t.signals@ == s.signals@
                            &&& t.queue.entries().len() == 0
                            &&& subscriber_ok(t)
                        } else {
                            t == s
                        }
                    },
            decreases n - i,
        {
            let mut sub = rest.remove(0);
            assert(sub == before[i as int]);
            if sub.session_id == session_id {
                let ghost s0 = sub;
                sub.attached = false;
                while !sub.queue.is_empty()
                    invariant
                        sub.queue.wf(),
                        sub.queue.spec_max_events() == MAX_QUEUE_EVENTS,
                        sub.queue.spec_max_bytes() == MAX_QUEUE_BYTES,
                        sub.queue.entries().len() <= s0.queue.entries().len(),
                        sub.signals@ == s0.signals@,
                        s0.queue.entries().len() <= count_events(s0.signals@),
                        sub.id == s0.id && sub.session_id == s0.session_id && !sub.attached,
                    decreases sub.queue.entries().len(),
                {
                    let _ = sub.queue.pop();
                }
            }
            out.push(sub);
            proof {
                assert(rest@ =~= before.subrange(i + 1, n as int));
            }
            i += 1;
        }
        self.subscribers = out;
        proof {
            assert forall|k: int| 0 <= k < self.subscribers().len() implies subscriber_ok(
                #[trigger] self.subscribers()[k],
            ) && self.subscribers()[k].id < self.spec_next_id() by {
                assert(old(self).subscribers()[k] == before[k]);
            }
            assert forall|a: int, b: int|
                0 <= a < b < self.subscribers().len() implies (#[trigger] self.subscribers()[a]).id
                != (#[trigger] self.subscribers()[b]).id by {
                assert(old(self).subscribers()[a] == before[a]);
                assert(old(self).subscribers()[b] == before[b]);
            }
        }
        Ok(())
    }

    /// Drops subscriber `id`, as when its reader goes away.
    pub fn unsubscribe(&mut self, id: u64)
        requires
            old(self).wf(),
        ensures
            final(self).wf(),
            final(self).spec_next_id() == old(self).spec_next_id(),
            match position(old(self).subscribers(), id) {
                None => final(self).subscribers() == old(self).subscribers(),
                Some(k) => final(self).subscribers() == old(self).subscribers().remove(k),
            },
    {
        match self.find(id) {
            Some(k) => {
                let ghost before = self.subscribers@;
                let _ = self.subscribers.remove(k);
                proof {
                    assert forall|a: int, b: int|
                        0 <= a < b < self.subscribers().len() implies (#[trigger] self.subscribers()[a]).id
                        != (#[trigger] self.subscribers()[b]).id by {
                        let a0 = if a < k { a } else { a + 1 };
                        let b0 = if b < k { b } else { b + 1 };
                        assert(self.subscribers()[a] == before[a0]);
                        assert(self.subscribers()[b] == before[b0]);
                    }
                    assert forall|a: int| 0 <= a < self.subscribers().len() implies subscriber_ok(
                        #[trigger] self.subscribers()[a],
                    ) && self.subscribers()[a].id < self.spec_next_id() by {
                        let a0 = if a < k { a } else { a + 1 };
                        assert(self.subscribers()[a] == before[a0]);
                    }
                }
            },
            None => {},
        }
    }
}

/// An attached subscriber whose next signal announces an event has that
/// event queued: reading it never comes back empty.
pub proof fn attached_event_signal_has_its_event(s: Subscriber)
    requires
        subscriber_ok(s),
        s.attached,
        s.signals@.len() > 0,
        s.signals@[0],
    ensures
        s.queue.entries().len() > 0,
{
    lemma_count_events_drop_first(s.signals@);
}


/// A publication leaves alone every subscriber it does not reach: those of
/// other sessions, and those already detached (a lagged subscriber never
/// receives another event).
pub proof fn publishing_reaches_only_attached_subscribers_of_the_session(
    before: Seq<Subscriber>,
    after: Seq<Subscriber>,
    event: SessionEvent,
    len: Option<usize>,
    i: int,
)
    requires
        published(before, after, event, len),
        0 <= i < before.len(),
        !before[i].attached || before[i].session_id != event.session_id,
    ensures
        after[i] == before[i],
{
}

/// A subscriber whose queue refuses a published event is told it lagged
/// and is detached; one whose queue takes it finds it at the back.
pub proof fn each_reached_subscriber_gets_the_event_or_lags(
    before: Seq<Subscriber>,
    after: Seq<Subscriber>,
    event: SessionEvent,
    len: Option<usize>,
    i: int,
)
    requires
        published(before, after, event, len),
        0 <= i < before.len(),
        reaches(before[i], event),
    ensures
        queue_accepts(before[i].queue, event, len) ==> after[i].attached && after[i].signals@.last()
            && same_event(event, after[i].queue.entries().last().0),
        !queue_accepts(before[i].queue, event, len) ==> !after[i].attached
            && !after[i].signals@.last(),
{
    assert(delivered(before[i], after[i], event, len));
}

} // verus!

//! The announcement gate: an item is handed out only once the interval has
//! elapsed and an item is waiting; the interval is re-armed from the moment
//! of hand-out, never on bare timer expiry.
use vstd::prelude::*;
use crate::queue::PendingQueue;
use crate::repo::Repo;

verus! {

/// `now + interval`, held at the largest instant a `u64` can name.
pub open spec fn later(now: int, interval: int) -> int {
    if now + interval > u64::MAX {
        u64::MAX as int
    } else {
        now + interval
    }
}

/// The state of a gated stream: the instant from which it may hand out an
/// item, the interval it re-arms with, and the items waiting.
pub struct StreamState {
    pub due: int,
    pub interval: int,
    pub items: Seq<Repo>,
}

/// One poll at `now`: the new state and the item handed out, if any.
pub open spec fn poll_state(s: StreamState, now: int) -> (StreamState, Option<Repo>) {
    if s.due <= now && s.items.len() > 0 {
        (
            StreamState { due: later(now, s.interval), interval: s.interval, items: s.items.drop_first() },
            Some(s.items[0]),
        )
    } else {
        (s, None)
    }
}

/// A queue of repositories released at most once per interval.
pub struct TimedStream {
    due: u64,
    interval: u64,
    inner: PendingQueue,
}

impl View for TimedStream {
    type V = StreamState;

    closed spec fn view(&self) -> StreamState {
        StreamState { due: self.due as int, interval: self.interval as int, items: self.inner@ }
    }
}

fn later_exec(now: u64, interval: u64) -> (r: u64)
    ensures
        r == later(now as int, interval as int),
{
    now.saturating_add(interval)
}

impl TimedStream {
    /// A stream over `stream` that may first hand out an item at `at`.
    pub fn new(stream: PendingQueue, at: u64, interval: u64) -> (r: Self)
        ensures
            r@ == (StreamState { due: at as int, interval: interval as int, items: stream@ }),
    {
        TimedStream { due: at, interval, inner: stream }
    }

    /// A stream over `stream` whose first interval starts at `now`.
    pub fn new_interval(stream: PendingQueue, now: u64, interval: u64) -> (r: Self)
        ensures
            r@ == (StreamState {
                due: later(now as int, interval as int),
                interval: interval as int,
                items: stream@,
            }),
    {
        Self::new(stream, later_exec(now, interval), interval)
    }

    /// Appends `batch` behind the waiting items.
    pub fn push_all(&mut self, batch: Vec<Repo>)
        ensures
            final(self)@ == (StreamState { items: old(self)@.items + batch@, ..old(self)@ }),
    {
        self.inner.push_all(batch);
    }

    /// Hands out the head item if the interval has elapsed at `now` and an
    /// item is waiting, re-arming the interval from `now`.
    pub fn poll(&mut self, now: u64) -> (r: Option<Repo>)
        ensures
            (final(self)@, r) == poll_state(old(self)@, now as int),
    {
        if self.due <= now && !self.inner.is_empty() {
            let r = self.inner.pop();
            self.due = later_exec(now, self.interval);
            r
        } else {
            None
        }
    }

    /// Whether an item with the key `key` is waiting.
    pub fn holds_key(&self, key: &str) -> (r: bool)
        ensures
            r == crate::queue::holds_key(self@.items, key@),
    {
        self.inner.holds_key(key)
    }

    pub fn len(&self) -> (r: usize)
        ensures
            r == self@.items.len(),
    {
        self.inner.len()
    }
}

/// A failed publication of one item does not hold back the next: the
/// publication's outcome is no part of the stream's state, and once the
/// interval after the first hand-out has passed the next item comes out.
pub proof fn lemma_next_item_follows(s: StreamState, t1: int, t2: int)
    requires
        s.items.len() >= 2,
        s.due <= t1,
        later(t1, s.interval) <= t2,
    ensures
        poll_state(s, t1).1 == Some(s.items[0]),
        poll_state(poll_state(s, t1).0, t2).1 == Some(s.items[1]),
{
}

/// What happens to a gated stream: a discovery tick appends a batch, a poll
/// at an instant may hand out the head.
pub enum StreamEvent {
    Discovered(Seq<Repo>),
    Poll(int),
}

/// The state after `events`, and the items handed out, in order.
pub open spec fn run_events(s: StreamState, events: Seq<StreamEvent>) -> (StreamState, Seq<Repo>)
    decreases events.len(),
{
    if events.len() == 0 {
        (s, Seq::empty())
    } else {
        match events[0] {
            StreamEvent::Discovered(batch) => run_events(
                StreamState { items: s.items + batch, ..s },
                events.drop_first(),
            ),
            StreamEvent::Poll(now) => {
                let (s1, r) = poll_state(s, now);
                let (s2, out) = run_events(s1, events.drop_first());
                match r {
                    Some(x) => (s2, seq![x] + out),
                    None => (s2, out),
                }
            },
        }
    }
}

/// Every batch discovered by `events`, one after the other.
pub open spec fn discovered(events: Seq<StreamEvent>) -> Seq<Repo>
    decreases events.len(),
{
    if events.len() == 0 {
        Seq::empty()
    } else {
        match events[0] {
            StreamEvent::Discovered(batch) => batch + discovered(events.drop_first()),
            StreamEvent::Poll(_) => discovered(events.drop_first()),
        }
    }
}

/// Whatever the interleaving of discovery ticks and polls, the items handed
/// out, followed by those still waiting, are exactly the items that were
/// waiting followed by every discovered batch in the order of the ticks:
/// nothing is reordered, lost or handed out twice.
pub proof fn lemma_order_preserved(s: StreamState, events: Seq<StreamEvent>)
    ensures
        run_events(s, events).1 + run_events(s, events).0.items == s.items + discovered(events),
    decreases events.len(),
{
    if events.len() > 0 {
        let rest = events.drop_first();
        match events[0] {
            StreamEvent::Discovered(batch) => {
                let s1 = StreamState { items: s.items + batch, ..s };
                lemma_order_preserved(s1, rest);
                assert(s.items + batch + discovered(rest) =~= s.items + (batch + discovered(rest)));
            },
            StreamEvent::Poll(now) => {
                let (s1, r) = poll_state(s, now);
                lemma_order_preserved(s1, rest);
                let (s2, out) = run_events(s1, rest);
                match r {
                    Some(x) => {
                        assert(seq![x] + s.items.drop_first() =~= s.items);
                        assert(seq![x] + out + s2.items =~= seq![x] + (out + s2.items));
                        assert(seq![x] + (s1.items + discovered(rest)) =~= (seq![x] + s1.items)
                            + discovered(rest));
                    },
                    None => {},
                }
            },
        }
    }
}

} // verus!

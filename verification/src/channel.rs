//! A bounded, multi-subscriber broadcast channel.
//!
//! Publishers append events to a shared history; each subscriber reads that
//! history independently through its own cursor, so one subscriber's reads
//! never consume another's view. The channel retains only the most recent
//! `capacity` events: when the buffer is full, publishing drops the oldest
//! retained event (drop-oldest overflow policy). A subscriber whose cursor
//! falls behind the retained window is told how many events it missed and is
//! moved to the oldest retained event; a subscriber that attached before the
//! terminal event can never miss it, because the terminal event is always the
//! newest.

use vstd::prelude::*;
use crate::events::{Event, terminal_history, count_terminal, lemma_terminal_history_counts_one};

verus! {

/// One session's event-distribution channel.
pub struct Channel {
    /// The retained suffix of the history: the newest events, at most `cap`.
    buf: Vec<Event>,
    /// The position in the full history of the oldest retained event.
    start: u64,
    /// How many events are retained at most; at least 1.
    cap: usize,
    /// Set once the terminal event has been published; no publishes follow.
    closed: bool,
    /// The full sequence of events ever published.
    hist: Ghost<Seq<Event>>,
}

/// Where the retained window of a bounded channel starts: everything older
/// than the newest `cap` events has been dropped.
pub open spec fn retained_floor(len: int, cap: int) -> int {
    if len <= cap {
        0
    } else {
        len - cap
    }
}

/// A subscriber's private view into a channel: the position of the next
/// event it will read. Dropping the value ends the subscription.
pub struct Subscriber {
    cursor: u64,
}

/// What one `recv` call hands a subscriber.
#[derive(Debug, PartialEq, Eq)]
pub enum Received {
    /// The next event of the history, in publish order.
    Event(Event),
    /// The subscriber fell behind the retained window; this many events were
    /// dropped unseen, and the cursor moved to the oldest retained event.
    Lagged(u64),
    /// The history is exhausted and the channel is closed: nothing more will
    /// ever arrive.
    Closed,
    /// The history is exhausted but the channel is still open: more events
    /// may yet be published.
    Pending,
}

impl Subscriber {
    /// The position in the history of the next event this subscriber reads.
    pub closed spec fn cursor(&self) -> int {
        self.cursor as int
    }
}

impl Channel {
    /// Every event ever published on this channel, oldest first.
    pub closed spec fn history(&self) -> Seq<Event> {
        self.hist@
    }

    /// How many events the channel retains at most.
    pub closed spec fn capacity(&self) -> int {
        self.cap as int
    }

    /// The position in the history of the oldest retained event: everything
    /// before it has been dropped by the overflow policy.
    pub closed spec fn first_retained(&self) -> int {
        self.start as int
    }

    /// Whether the terminal event has been published.
    pub closed spec fn is_closed(&self) -> bool {
        self.closed
    }

    /// Well-formedness: the buffer is exactly the newest `min(capacity,
    /// history length)` events of the history.
    pub closed spec fn wf(&self) -> bool {
        &&& self.cap >= 1
        &&& self.hist@.len() <= u64::MAX
        &&& self.first_retained() == if self.hist@.len() <= self.capacity() {
            0int
        } else {
            self.hist@.len() - self.capacity()
        }
        &&& self.buf@.len() == self.hist@.len() - self.first_retained()
        &&& forall|i: int|
            0 <= i < self.buf@.len() ==> self.buf@[i] == self.hist@[self.first_retained() + i]
    }

    /// The events a subscriber with cursor `c` has still to receive, oldest
    /// first, if nothing more is published: the history from `c` on, less
    /// whatever the overflow policy has already dropped.
    pub open spec fn observable(&self, c: int) -> Seq<Event> {
        self.history().subrange(
            if c >= self.first_retained() {
                c
            } else {
                self.first_retained()
            },
            self.history().len() as int,
        )
    }

    /// A fresh channel with no history.
    pub fn new(capacity: usize) -> (r: Channel)
        requires
            capacity >= 1,
        ensures
            r.wf(),
            r.history() == Seq::<Event>::empty(),
            r.capacity() == capacity,
            r.first_retained() == 0,
            !r.is_closed(),
    {
        Channel { buf: Vec::new(), start: 0, cap: capacity, closed: false, hist: Ghost(Seq::empty()) }
    }

    /// Append `e` to the history; if the buffer is full, the oldest retained
    /// event is dropped. The history length is capped only by the machine
    /// limit of the cursor width.
    pub fn publish(&mut self, e: Event)
        requires
            old(self).wf(),
            !old(self).is_closed(),
            old(self).history().len() < u64::MAX,
        ensures
            final(self).wf(),
            final(self).history() == old(self).history().push(e),
            final(self).capacity() == old(self).capacity(),
            final(self).first_retained() == retained_floor(
                final(self).history().len() as int,
                final(self).capacity(),
            ),
            !final(self).is_closed(),
    {
        proof {
            self.hist@ = self.hist@.push(e);
        }
        if self.buf.len() == self.cap {
            self.buf.remove(0);
            self.start = self.start + 1;
        }
        self.buf.push(e);
    }

    /// Mark the history complete: the terminal event has been published and
    /// nothing follows it.
    pub fn close(&mut self)
        requires
            old(self).wf(),
        ensures
            final(self).wf(),
            final(self).is_closed(),
            final(self).history() == old(self).history(),
            final(self).capacity() == old(self).capacity(),
            final(self).first_retained() == old(self).first_retained(),
    {
        self.closed = true;
    }

    /// How many events have ever been published.
    pub fn history_len(&self) -> (n: u64)
        requires
            self.wf(),
        ensures
            n as nat == self.history().len(),
    {
        self.start + self.buf.len() as u64
    }

    /// Attach a new subscriber. It starts at the end of the current history:
    /// it will observe exactly the events published from now on (less any the
    /// overflow policy drops before it reads them), never earlier ones.
    pub fn subscribe(&self) -> (s: Subscriber)
        requires
            self.wf(),
        ensures
            s.cursor() == self.history().len(),
    {
        Subscriber { cursor: self.start + self.buf.len() as u64 }
    }

    /// One read by a subscriber. Delivers the history strictly in publish
    /// order; reports a lag instead when the cursor has fallen out of the
    /// retained window; past the end of the history, tells the subscriber
    /// whether anything more can still arrive.
    pub fn recv(&self, sub: &mut Subscriber) -> (r: Received)
        requires
            self.wf(),
        ensures
            old(sub).cursor() < self.first_retained() ==> {
                &&& r == Received::Lagged((self.first_retained() - old(sub).cursor()) as u64)
                &&& final(sub).cursor() == self.first_retained()
            },
            self.first_retained() <= old(sub).cursor() < self.history().len() ==> {
                &&& r == Received::Event(self.history()[old(sub).cursor()])
                &&& final(sub).cursor() == old(sub).cursor() + 1
            },
            old(sub).cursor() >= self.history().len() ==> {
                &&& *final(sub) == *old(sub)
                &&& r == if self.is_closed() {
                    Received::Closed
                } else {
                    Received::Pending
                }
            },
    {
        if sub.cursor < self.start {
            let missed: u64 = self.start - sub.cursor;
            sub.cursor = self.start;
            Received::Lagged(missed)
        } else if sub.cursor - self.start < self.buf.len() as u64 {
            let idx: usize = (sub.cursor - self.start) as usize;
            let e = self.buf[idx].clone();
            sub.cursor = sub.cursor + 1;
            Received::Event(e)
        } else if self.closed {
            Received::Closed
        } else {
            Received::Pending
        }
    }
}

/// Subscribers see a common view: of two subscribers attached at cursors
/// `c1 <= c2` (both within the retained window), the later one's remaining
/// view is exactly the earlier one's with its first `c2 - c1` events removed.
/// Both therefore observe every event published after `c2`, and in the same
/// relative order.
pub proof fn lemma_fanout_agreement(ch: &Channel, c1: int, c2: int)
    requires
        ch.wf(),
        ch.first_retained() <= c1 <= c2 <= ch.history().len(),
    ensures
        ch.observable(c2) == ch.observable(c1).skip(c2 - c1),
        ch.observable(c1).len() == ch.history().len() - c1,
        forall|i: int|
            c1 <= i < ch.history().len() ==> #[trigger] ch.observable(c1)[i - c1] == ch.history()[i],
{
    assert(ch.observable(c2) =~= ch.observable(c1).skip(c2 - c1));
}

/// A subscriber attached before the terminal event observes exactly one
/// terminal event, it is the last event it observes, and it comes after
/// every `Output` event it observes.
pub proof fn lemma_terminal_observed_once(ch: &Channel, c: int)
    requires
        ch.wf(),
        terminal_history(ch.history()),
        0 <= c < ch.history().len(),
    ensures
        terminal_history(ch.observable(c)),
        count_terminal(ch.observable(c)) == 1,
        ch.observable(c).last() == ch.history().last(),
{
    let obs = ch.observable(c);
    assert(obs.len() >= 1);
    assert(obs.last() == ch.history().last());
    lemma_terminal_history_counts_one(obs);
}

} // verus!

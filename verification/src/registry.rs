//! The session registry: the shared map from session identifier to the
//! session's live process handle and its event-distribution channel.
//!
//! The registry owns each session's process handle exclusively; the handle
//! can be taken out exactly once (`take_process`), which is how the race
//! between natural exit and cancellation is resolved: whoever takes the
//! handle acts on it, the loser observes that there is nothing to act on.
//!
//! The registry is a plain sequential structure; the embedding application
//! serializes access to it (one mutating call at a time), so every
//! interleaving of concurrent callers is some sequence of the operations
//! specified here.
//!
//! A session whose terminal event has been published is *detached*: it no
//! longer answers lookups (`subscribe` fails, `cancel` declines), it holds no
//! process, and it is kept only so that subscribers attached earlier can
//! drain the buffered tail of its history, until `remove` discards it.

use vstd::prelude::*;
use crate::channel::{Channel, Received, Subscriber, retained_floor};
use crate::events::{
    Event,
    SessionState,
    StreamKind,
    count_terminal,
    is_terminal_event,
    is_terminal_state,
    lemma_output_only_counts_zero,
    output_only_history,
    state_of_terminal_event,
    terminal_history,
};

verus! {

/// Why a session lookup failed: the identifier is unknown, or the session it
/// named has already reached a terminal state.
#[derive(Clone, Copy, Debug, PartialEq, Eq, Structural)]
pub enum SessionError {
    SessionNotFound,
}

/// One registered session.
struct SessionEntry<H> {
    /// The session identifier.
    id: String,
    /// The live process handle; `None` once taken by a canceller or reaper.
    process: Option<H>,
    /// The session's event-distribution channel.
    channel: Channel,
    /// Where the session stands in its lifecycle.
    state: SessionState,
    /// When the session was registered (seconds since the epoch).
    created_at: u64,
}

/// The registry, generic over the process handle type it owns.
pub struct SessionRegistry<H> {
    entries: Vec<SessionEntry<H>>,
}

impl<H> SessionRegistry<H> {
    /// Whether any session (live or detached) carries this identifier.
    pub closed spec fn contains_session(&self, id: Seq<char>) -> bool {
        exists|i: int| 0 <= i < self.entries@.len() && self.entries@[i].id@ == id
    }

    /// The position of the session with this identifier (meaningful only
    /// when `contains_session` holds; unique because identifiers are).
    spec fn idx_of(&self, id: Seq<char>) -> int {
        choose|i: int| 0 <= i < self.entries@.len() && self.entries@[i].id@ == id
    }

    /// The state of the session with this identifier, if any.
    pub closed spec fn session_state(&self, id: Seq<char>) -> Option<SessionState> {
        if self.contains_session(id) {
            Some(self.entries@[self.idx_of(id)].state)
        } else {
            None
        }
    }

    /// A session is live while it is running; only live sessions answer
    /// lookups.
    pub open spec fn is_live(&self, id: Seq<char>) -> bool {
        self.session_state(id) == Some(SessionState::Running)
    }

    /// The process handle the registry holds for this session, if any.
    pub closed spec fn process_of(&self, id: Seq<char>) -> Option<H> {
        if self.contains_session(id) {
            self.entries@[self.idx_of(id)].process
        } else {
            None
        }
    }

    /// Whether the registry still holds a takeable process handle.
    pub open spec fn has_process(&self, id: Seq<char>) -> bool {
        self.process_of(id) is Some
    }

    /// Every event published for this session so far (empty if unknown).
    pub closed spec fn history_of(&self, id: Seq<char>) -> Seq<Event> {
        if self.contains_session(id) {
            self.entries@[self.idx_of(id)].channel.history()
        } else {
            Seq::empty()
        }
    }

    /// The oldest event of this session's history still retained by its
    /// bounded channel.
    pub closed spec fn first_retained_of(&self, id: Seq<char>) -> int {
        if self.contains_session(id) {
            self.entries@[self.idx_of(id)].channel.first_retained()
        } else {
            0
        }
    }

    /// The channel capacity this session was registered with.
    pub closed spec fn capacity_of(&self, id: Seq<char>) -> int {
        if self.contains_session(id) {
            self.entries@[self.idx_of(id)].channel.capacity()
        } else {
            0
        }
    }

    /// When this session was registered (0 if unknown).
    pub closed spec fn created_at_of(&self, id: Seq<char>) -> u64 {
        if self.contains_session(id) {
            self.entries@[self.idx_of(id)].created_at
        } else {
            0
        }
    }

    /// The events a subscriber of this session with cursor `c` has still to
    /// receive if nothing more is published.
    pub open spec fn observable_of(&self, id: Seq<char>, c: int) -> Seq<Event> {
        self.history_of(id).subrange(
            if c >= self.first_retained_of(id) {
                c
            } else {
                self.first_retained_of(id)
            },
            self.history_of(id).len() as int,
        )
    }

    /// Well-formedness of one entry: its channel is well-formed; while it
    /// runs, its history holds outputs only and its channel is open; once
    /// terminal, its channel is closed, its history ends in the one terminal
    /// event that matches its state, and its process handle is gone.
    spec fn entry_wf(e: SessionEntry<H>) -> bool {
        &&& e.channel.wf()
        &&& e.state == SessionState::Running ==> {
            &&& !e.channel.is_closed()
            &&& output_only_history(e.channel.history())
        }
        &&& is_terminal_state(e.state) ==> {
            &&& e.channel.is_closed()
            &&& terminal_history(e.channel.history())
            &&& state_of_terminal_event(e.channel.history().last()) == e.state
            &&& e.process is None
        }
    }

    /// Well-formedness of the registry: identifiers are distinct and every
    /// entry is well-formed.
    pub closed spec fn wf(&self) -> bool {
        &&& forall|i: int, j: int|
            0 <= i < j < self.entries@.len() ==> self.entries@[i].id@ != self.entries@[j].id@
        &&& forall|i: int| 0 <= i < self.entries@.len() ==> Self::entry_wf(#[trigger] self.entries@[i])
    }

    /// With distinct identifiers, an entry that carries `id` is *the* entry
    /// `idx_of` names.
    proof fn lemma_found(&self, id: Seq<char>, i: int)
        requires
            self.wf(),
            0 <= i < self.entries@.len(),
            self.entries@[i].id@ == id,
        ensures
            self.contains_session(id),
            self.idx_of(id) == i,
    {
        assert(self.contains_session(id));
        let j = self.idx_of(id);
        if i < j {
            assert(self.entries@[i].id@ != self.entries@[j].id@);
        } else if j < i {
            assert(self.entries@[j].id@ != self.entries@[i].id@);
        }
    }

    /// An update that keeps an entry's identifier touches no other session.
    proof fn lemma_update_frame(pre: &Self, post: &Self, i: int)
        requires
            pre.wf(),
            0 <= i < pre.entries@.len(),
            post.entries@.len() == pre.entries@.len(),
            forall|k: int|
                0 <= k < pre.entries@.len() && k != i ==> post.entries@[k] == pre.entries@[k],
            post.entries@[i].id@ == pre.entries@[i].id@,
            Self::entry_wf(post.entries@[i]),
        ensures
            post.wf(),
            forall|o: Seq<char>|
                o != pre.entries@[i].id@ ==> #[trigger] agrees_on(pre, post, o),
            forall|o: Seq<char>| post.contains_session(o) == pre.contains_session(o),
    {
        assert forall|k: int| 0 <= k < post.entries@.len() implies Self::entry_wf(
            #[trigger] post.entries@[k],
        ) by {
            if k != i {
                assert(post.entries@[k] == pre.entries@[k]);
            }
        }
        assert forall|o: Seq<char>| post.contains_session(o) == pre.contains_session(
            o,
        ) by {
            if pre.contains_session(o) {
                let k = pre.idx_of(o);
                assert(post.entries@[k].id@ == o);
            }
            if post.contains_session(o) {
                let k = post.idx_of(o);
                assert(pre.entries@[k].id@ == o);
            }
        }
        assert forall|o: Seq<char>| o != pre.entries@[i].id@ implies #[trigger] agrees_on(
            pre,
            post,
            o,
        ) by {
            if pre.contains_session(o) {
                let k = pre.idx_of(o);
                assert(k != i);
                pre.lemma_found(o, k);
                post.lemma_found(o, k);
            }
        }
    }

    /// A fresh, empty registry.
    pub fn new() -> (r: SessionRegistry<H>)
        ensures
            r.wf(),
            forall|id: Seq<char>| !r.contains_session(id),
    {
        SessionRegistry { entries: Vec::new() }
    }

    /// Find the position of the entry carrying `id`, if any.
    fn find(&self, id: &String) -> (r: Option<usize>)
        requires
            self.wf(),
        ensures
            match r {
                Some(i) => {
                    &&& i < self.entries@.len()
                    &&& self.entries@[i as int].id@ == id@
                    &&& self.contains_session(id@)
                    &&& self.idx_of(id@) == i
                },
                None => !self.contains_session(id@),
            },
    {
        let n = self.entries.len();
        for i in 0..n
            invariant
                n == self.entries@.len(),
                self.wf(),
                forall|j: int| 0 <= j < i ==> self.entries@[j].id@ != id@,
        {
            if self.entries[i].id == *id {
                proof {
                    self.lemma_found(id@, i as int);
                }
                return Some(i);
            }
        }
        None
    }

    /// Enter a freshly spawned session: running, with its process handle
    /// owned by the registry and an empty history on a new bounded channel.
    /// The caller must have checked that the identifier is not in use.
    pub fn register(&mut self, id: String, handle: H, capacity: usize, created_at: u64)
        requires
            old(self).wf(),
            capacity >= 1,
            !old(self).contains_session(id@),
        ensures
            final(self).wf(),
            final(self).contains_session(id@),
            final(self).session_state(id@) == Some(SessionState::Running),
            final(self).process_of(id@) == Some(handle),
            final(self).history_of(id@) == Seq::<Event>::empty(),
            final(self).first_retained_of(id@) == 0,
            final(self).capacity_of(id@) == capacity,
            final(self).created_at_of(id@) == created_at,
            forall|o: Seq<char>| o != id@ ==> #[trigger] agrees_on(old(self), final(self), o),
    {
        let ghost pre = *self;
        let entry = SessionEntry {
            id,
            process: Some(handle),
            channel: Channel::new(capacity),
            state: SessionState::Running,
            created_at,
        };
        let ghost n = self.entries@.len() as int;
        self.entries.push(entry);
        proof {
            assert forall|k: int| 0 <= k < self.entries@.len() implies Self::entry_wf(
                #[trigger] self.entries@[k],
            ) by {
                if k < n {
                    assert(self.entries@[k] == pre.entries@[k]);
                    assert(Self::entry_wf(pre.entries@[k]));
                }
            }
            assert forall|i: int, j: int| 0 <= i < j < self.entries@.len() implies self.entries@[i].id@
                != self.entries@[j].id@ by {
                if j < n {
                    assert(pre.entries@[i].id@ != pre.entries@[j].id@);
                } else if self.entries@[i].id@ == id@ {
                    pre.lemma_found(id@, i);
                }
            }
            self.lemma_found(id@, n);
            assert forall|o: Seq<char>| o != id@ implies #[trigger] agrees_on(
                &pre,
                self,
                o,
            ) by {
                if pre.contains_session(o) {
                    let k = pre.idx_of(o);
                    assert(pre.entries@[k] == self.entries@[k]);
                    self.lemma_found(o, k);
                }
                if self.contains_session(o) {
                    let k = self.idx_of(o);
                    assert(k < n);
                    pre.lemma_found(o, k);
                }
            }
        }
    }

    /// The state of the session carrying `id`, if any; terminal states are
    /// reported until the session is removed.
    pub fn state_of(&self, id: &String) -> (r: Option<SessionState>)
        requires
            self.wf(),
        ensures
            r == self.session_state(id@),
            r is Some <==> self.contains_session(id@),
    {
        match self.find(id) {
            Some(i) => Some(self.entries[i].state),
            None => None,
        }
    }

    /// How many events have ever been published for this session (0 when
    /// the identifier is unknown).
    pub fn history_len(&self, id: &String) -> (n: u64)
        requires
            self.wf(),
        ensures
            n as nat == self.history_of(id@).len(),
    {
        match self.find(id) {
            Some(i) => {
                proof {
                    assert(Self::entry_wf(self.entries@[i as int]));
                }
                self.entries[i].channel.history_len()
            },
            None => 0,
        }
    }

    /// Whether the registry still owns a takeable process handle for `id`.
    pub fn holds_process(&self, id: &String) -> (r: bool)
        requires
            self.wf(),
        ensures
            r == self.has_process(id@),
    {
        match self.find(id) {
            Some(i) => self.entries[i].process.is_some(),
            None => false,
        }
    }

    /// Attach a subscriber to a live session's channel. Fails with
    /// `SessionNotFound` exactly when the identifier is unknown or the
    /// session it names has already ended.
    pub fn subscribe(&self, id: &String) -> (r: Result<Subscriber, SessionError>)
        requires
            self.wf(),
        ensures
            self.is_live(id@) ==> {
                &&& r is Ok
                &&& r->Ok_0.cursor() == self.history_of(id@).len()
            },
            !self.is_live(id@) ==> r == Result::<Subscriber, SessionError>::Err(
                SessionError::SessionNotFound,
            ),
    {
        match self.find(id) {
            Some(i) => {
                if matches!(self.entries[i].state, SessionState::Running) {
                    Ok(self.entries[i].channel.subscribe())
                } else {
                    Err(SessionError::SessionNotFound)
                }
            },
            None => Err(SessionError::SessionNotFound),
        }
    }

    /// One read by a subscriber of session `id`: the next event of the
    /// session's history in publish order, a lag report if the bounded
    /// channel dropped events the subscriber had not yet read, or
    /// `Closed`/`Pending` at the end of the history. A removed session reads
    /// as `Closed`.
    pub fn recv(&self, id: &String, sub: &mut Subscriber) -> (r: Received)
        requires
            self.wf(),
        ensures
            !self.contains_session(id@) ==> {
                &&& r == Received::Closed
                &&& *final(sub) == *old(sub)
            },
            self.contains_session(id@) && old(sub).cursor() < self.first_retained_of(id@) ==> {
                &&& r == Received::Lagged((self.first_retained_of(id@) - old(sub).cursor()) as u64)
                &&& final(sub).cursor() == self.first_retained_of(id@)
            },
            self.contains_session(id@) && self.first_retained_of(id@) <= old(sub).cursor()
                < self.history_of(id@).len() ==> {
                &&& r == Received::Event(self.history_of(id@)[old(sub).cursor()])
                &&& final(sub).cursor() == old(sub).cursor() + 1
            },
            self.contains_session(id@) && old(sub).cursor() >= self.history_of(id@).len() ==> {
                &&& *final(sub) == *old(sub)
                &&& r == if self.session_state(id@) == Some(SessionState::Running) {
                    Received::Pending
                } else {
                    Received::Closed
                }
            },
    {
        match self.find(id) {
            Some(i) => {
                proof {
                    assert(Self::entry_wf(self.entries@[i as int]));
                }
                self.entries[i].channel.recv(sub)
            },
            None => Received::Closed,
        }
    }

    /// Take exclusive ownership of the session's process handle. The first
    /// taker gets the handle; any later caller gets `None` and must not act.
    pub fn take_process(&mut self, id: &String) -> (r: Option<H>)
        requires
            old(self).wf(),
        ensures
            final(self).wf(),
            r == old(self).process_of(id@),
            !final(self).has_process(id@),
            final(self).contains_session(id@) == old(self).contains_session(id@),
            final(self).session_state(id@) == old(self).session_state(id@),
            final(self).history_of(id@) == old(self).history_of(id@),
            final(self).first_retained_of(id@) == old(self).first_retained_of(id@),
            final(self).capacity_of(id@) == old(self).capacity_of(id@),
            final(self).created_at_of(id@) == old(self).created_at_of(id@),
            forall|o: Seq<char>| o != id@ ==> #[trigger] agrees_on(old(self), final(self), o),
    {
        let ghost pre = *self;
        match self.find(id) {
            Some(i) => {
                let mut taken: Option<H> = None;
                core::mem::swap(&mut self.entries[i].process, &mut taken);
                proof {
                    Self::lemma_update_frame(&pre, self, i as int);
                    self.lemma_found(id@, i as int);
                }
                taken
            },
            None => None,
        }
    }

    /// Publish one line of captured output for a live session. Returns
    /// whether the event was published: it is not when the session is
    /// unknown or already ended, and such a call changes nothing.
    pub fn publish_output(&mut self, id: &String, stream: StreamKind, text: String) -> (r: bool)
        requires
            old(self).wf(),
            old(self).history_of(id@).len() < u64::MAX,
        ensures
            final(self).wf(),
            r == old(self).is_live(id@),
            !r ==> *final(self) == *old(self),
            r ==> {
                &&& final(self).history_of(id@) == old(self).history_of(id@).push(
                    Event::Output { stream, text },
                )
                &&& final(self).contains_session(id@)
                &&& final(self).session_state(id@) == old(self).session_state(id@)
                &&& final(self).process_of(id@) == old(self).process_of(id@)
                &&& final(self).capacity_of(id@) == old(self).capacity_of(id@)
                &&& final(self).created_at_of(id@) == old(self).created_at_of(id@)
                &&& final(self).first_retained_of(id@) == retained_floor(
                    final(self).history_of(id@).len() as int,
                    final(self).capacity_of(id@),
                )
                &&& forall|o: Seq<char>| o != id@ ==> #[trigger] agrees_on(old(self), final(self), o)
            },
    {
        let ghost pre = *self;
        match self.find(id) {
            Some(i) => {
                if matches!(self.entries[i].state, SessionState::Running) {
                    self.entries[i].channel.publish(Event::Output { stream, text });
                    proof {
                        Self::lemma_update_frame(&pre, self, i as int);
                        self.lemma_found(id@, i as int);
                    }
                    true
                } else {
                    false
                }
            },
            None => false,
        }
    }

    /// Publish the session's terminal event and move it to the matching
    /// terminal state, detaching it from lookups. The caller must already
    /// have taken the process handle (reaping and cancellation may not
    /// race). Returns whether the session was live, and hence ended by this
    /// call; a call for an unknown or already-ended session changes nothing.
    pub fn finish(&mut self, id: &String, event: Event) -> (r: bool)
        requires
            old(self).wf(),
            is_terminal_event(event),
            !old(self).has_process(id@),
            old(self).history_of(id@).len() < u64::MAX,
        ensures
            final(self).wf(),
            r == old(self).is_live(id@),
            !r ==> *final(self) == *old(self),
            r ==> {
                &&& final(self).history_of(id@) == old(self).history_of(id@).push(event)
                &&& terminal_history(final(self).history_of(id@))
                &&& final(self).contains_session(id@)
                &&& final(self).session_state(id@) == Some(state_of_terminal_event(event))
                &&& !final(self).has_process(id@)
                &&& final(self).capacity_of(id@) == old(self).capacity_of(id@)
                &&& final(self).created_at_of(id@) == old(self).created_at_of(id@)
                &&& final(self).first_retained_of(id@) == retained_floor(
                    final(self).history_of(id@).len() as int,
                    final(self).capacity_of(id@),
                )
                &&& forall|o: Seq<char>| o != id@ ==> #[trigger] agrees_on(old(self), final(self), o)
            },
    {
        let ghost pre = *self;
        let ghost ev = event;
        match self.find(id) {
            Some(i) => {
                if matches!(self.entries[i].state, SessionState::Running) {
                    let next_state = match &event {
                        Event::Completed { .. } => SessionState::Completed,
                        Event::Failed { .. } => SessionState::Failed,
                        _ => SessionState::Cancelled,
                    };
                    self.entries[i].channel.publish(event);
                    self.entries[i].channel.close();
                    self.entries[i].state = next_state;
                    proof {
                        assert(self.entries@[i as int].channel.history()
                            == pre.entries@[i as int].channel.history().push(ev));
                        Self::lemma_update_frame(&pre, self, i as int);
                        self.lemma_found(id@, i as int);
                    }
                    true
                } else {
                    false
                }
            },
            None => false,
        }
    }

    /// Cancel a live session: take its process handle (returned to the
    /// caller, which must signal the process), publish the `Cancelled`
    /// terminal event, and detach the session. `Some` is returned exactly
    /// when a live process was found; a second cancellation, a cancellation
    /// after the reaper has taken the handle, and a cancellation for an
    /// unknown identifier all return `None` and change nothing.
    pub fn cancel(&mut self, id: &String) -> (r: Option<H>)
        requires
            old(self).wf(),
            old(self).history_of(id@).len() < u64::MAX,
        ensures
            cancel_post(old(self), final(self), id@, r),
    {
        let ghost pre = *self;
        match self.find(id) {
            Some(i) => {
                if matches!(self.entries[i].state, SessionState::Running)
                    && self.entries[i].process.is_some() {
                    let mut taken: Option<H> = None;
                    core::mem::swap(&mut self.entries[i].process, &mut taken);
                    self.entries[i].channel.publish(Event::Cancelled);
                    self.entries[i].channel.close();
                    self.entries[i].state = SessionState::Cancelled;
                    proof {
                        Self::lemma_update_frame(&pre, self, i as int);
                        self.lemma_found(id@, i as int);
                    }
                    taken
                } else {
                    None
                }
            },
            None => None,
        }
    }

    /// Discard the session outright, returning its process handle (if the
    /// registry still held one) so the caller can dispose of it. After this,
    /// the identifier is unknown and former subscribers read `Closed`.
    pub fn remove(&mut self, id: &String) -> (r: Option<H>)
        requires
            old(self).wf(),
        ensures
            final(self).wf(),
            r == old(self).process_of(id@),
            !final(self).contains_session(id@),
            forall|o: Seq<char>| o != id@ ==> #[trigger] agrees_on(old(self), final(self), o),
    {
        let ghost pre = *self;
        match self.find(id) {
            Some(i) => {
                let entry = self.entries.remove(i);
                proof {
                    let n = pre.entries@.len() as int;
                    assert forall|k: int, l: int| 0 <= k < l < self.entries@.len() implies self.entries@[k].id@
                        != self.entries@[l].id@ by {
                        let k0 = if k < i as int { k } else { k + 1 };
                        let l0 = if l < i as int { l } else { l + 1 };
                        assert(self.entries@[k] == pre.entries@[k0]);
                        assert(self.entries@[l] == pre.entries@[l0]);
                    }
                    assert forall|k: int| 0 <= k < self.entries@.len() implies Self::entry_wf(
                        #[trigger] self.entries@[k],
                    ) by {
                        let k0 = if k < i as int { k } else { k + 1 };
                        assert(self.entries@[k] == pre.entries@[k0]);
                        assert(Self::entry_wf(pre.entries@[k0]));
                    }
                    assert(!self.contains_session(id@)) by {
                        if self.contains_session(id@) {
                            let k = self.idx_of(id@);
                            let k0 = if k < i as int { k } else { k + 1 };
                            assert(self.entries@[k] == pre.entries@[k0]);
                            if k0 < i as int {
                                assert(pre.entries@[k0].id@ != pre.entries@[i as int].id@);
                            } else {
                                assert(pre.entries@[i as int].id@ != pre.entries@[k0].id@);
                            }
                        }
                    }
                    assert forall|o: Seq<char>| o != id@ implies #[trigger] agrees_on(
                        &pre,
                        self,
                        o,
                    ) by {
                        if pre.contains_session(o) {
                            let k0 = pre.idx_of(o);
                            assert(k0 != i as int);
                            let k = if k0 < i as int { k0 } else { k0 - 1 };
                            assert(self.entries@[k] == pre.entries@[k0]);
                            self.lemma_found(o, k);
                        }
                        if self.contains_session(o) {
                            let k = self.idx_of(o);
                            let k0 = if k < i as int { k } else { k + 1 };
                            assert(self.entries@[k] == pre.entries@[k0]);
                            pre.lemma_found(o, k0);
                        }
                    }
                }
                entry.process
            },
            None => None,
        }
    }
}

/// Two registry values present the very same session under identifier `o`:
/// same presence, state, process handle, history, retained window, capacity
/// and registration time.
pub open spec fn agrees_on<H>(
    a: &SessionRegistry<H>,
    b: &SessionRegistry<H>,
    o: Seq<char>,
) -> bool {
    &&& b.contains_session(o) == a.contains_session(o)
    &&& b.session_state(o) == a.session_state(o)
    &&& b.process_of(o) == a.process_of(o)
    &&& b.history_of(o) == a.history_of(o)
    &&& b.first_retained_of(o) == a.first_retained_of(o)
    &&& b.capacity_of(o) == a.capacity_of(o)
    &&& b.created_at_of(o) == a.created_at_of(o)
}

/// Everything `cancel` guarantees, as a relation between the registry before
/// and after the call, the identifier, and what the call returned.
pub open spec fn cancel_post<H>(
    pre: &SessionRegistry<H>,
    post: &SessionRegistry<H>,
    id: Seq<char>,
    taken: Option<H>,
) -> bool {
    &&& post.wf()
    &&& (taken is Some <==> pre.is_live(id) && pre.has_process(id))
    &&& if taken is Some {
        &&& taken == pre.process_of(id)
        &&& post.contains_session(id)
        &&& post.session_state(id) == Some(SessionState::Cancelled)
        &&& post.history_of(id) == pre.history_of(id).push(Event::Cancelled)
        &&& !post.has_process(id)
        &&& post.capacity_of(id) == pre.capacity_of(id)
        &&& post.created_at_of(id) == pre.created_at_of(id)
        &&& post.first_retained_of(id) == retained_floor(
            post.history_of(id).len() as int,
            post.capacity_of(id),
        )
        &&& forall|o: Seq<char>| o != id ==> #[trigger] agrees_on(pre, post, o)
    } else {
        post == pre
    }
}

/// Cancelling a live session twice — in whichever order two racing callers
/// are serialized — succeeds exactly once: the first call takes the handle
/// and publishes the one `Cancelled` event, the second returns `None` and
/// changes nothing.
pub proof fn lemma_cancel_exclusive<H>(
    r0: &SessionRegistry<H>,
    r1: &SessionRegistry<H>,
    r2: &SessionRegistry<H>,
    id: Seq<char>,
    t1: Option<H>,
    t2: Option<H>,
)
    requires
        r0.wf(),
        r0.is_live(id),
        r0.has_process(id),
        cancel_post(r0, r1, id, t1),
        cancel_post(r1, r2, id, t2),
    ensures
        t1 is Some,
        t2 is None,
        r2 == r1,
        count_terminal(r1.history_of(id)) == 1,
        r1.history_of(id).last() == Event::Cancelled,
{
    r0.lemma_live_history_output_only(id);
    lemma_output_only_counts_zero(r0.history_of(id));
    assert(r1.history_of(id).drop_last() =~= r0.history_of(id));
}

/// Cancelling an identifier that names no live process — unknown, already
/// terminal, or with its handle already taken by the reaper — is a no-op:
/// nothing is returned, nothing is published, and the registry is exactly
/// the value it was. Stated over `cancel`'s relation, for every registry.
pub proof fn lemma_cancel_declined_noop<H>(
    pre: &SessionRegistry<H>,
    post: &SessionRegistry<H>,
    id: Seq<char>,
    taken: Option<H>,
)
    requires
        !(pre.is_live(id) && pre.has_process(id)),
        cancel_post(pre, post, id, taken),
    ensures
        taken is None,
        *post == *pre,
{
}

impl<H> SessionRegistry<H> {
    /// An unknown identifier has no session at all: no state, no history,
    /// no process handle. In particular, the machine-limit bound on the
    /// history length holds trivially for it, so `cancel` may always be
    /// called on an identifier that was never registered.
    pub proof fn lemma_unknown_session(&self, id: Seq<char>)
        requires
            !self.contains_session(id),
        ensures
            self.session_state(id) is None,
            self.history_of(id) == Seq::<Event>::empty(),
            self.process_of(id) is None,
            self.first_retained_of(id) == 0,
    {
    }

    /// A session in a terminal state holds no process handle: the registry
    /// gave it up when the session ended.
    pub proof fn lemma_terminal_session_has_no_process(&self, id: Seq<char>)
        requires
            self.wf(),
            self.session_state(id) matches Some(s) && is_terminal_state(s),
        ensures
            !self.has_process(id),
    {
        let i = self.idx_of(id);
        assert(Self::entry_wf(self.entries@[i]));
    }

    /// While a session runs, nothing terminal has been published for it.
    pub proof fn lemma_live_history_output_only(&self, id: Seq<char>)
        requires
            self.wf(),
            self.is_live(id),
        ensures
            output_only_history(self.history_of(id)),
    {
        let i = self.idx_of(id);
        assert(Self::entry_wf(self.entries@[i]));
    }

    /// Simultaneously attached subscribers of one session see a common
    /// view: of two cursors `c1 <= c2` within the retained window, the
    /// later one's remaining view is the earlier one's with its first
    /// `c2 - c1` events removed — both observe every event published after
    /// `c2`, in the same relative order.
    pub proof fn lemma_fanout_agreement(&self, id: Seq<char>, c1: int, c2: int)
        requires
            self.wf(),
            self.contains_session(id),
            self.first_retained_of(id) <= c1 <= c2 <= self.history_of(id).len(),
        ensures
            self.observable_of(id, c2) == self.observable_of(id, c1).skip(c2 - c1),
            self.observable_of(id, c1).len() == self.history_of(id).len() - c1,
            forall|i: int|
                c1 <= i < self.history_of(id).len() ==> #[trigger] self.observable_of(id, c1)[i
                    - c1] == self.history_of(id)[i],
    {
        let i = self.idx_of(id);
        assert(Self::entry_wf(self.entries@[i]));
        let ch = self.entries@[i].channel;
        crate::channel::lemma_fanout_agreement(&ch, c1, c2);
        assert(self.observable_of(id, c1) =~= ch.observable(c1));
        assert(self.observable_of(id, c2) =~= ch.observable(c2));
    }

    /// Once a session has ended, its history is some `Output` events
    /// followed by exactly one terminal event — the event that ended it —
    /// and any subscriber that attached before that terminal event observes
    /// it exactly once, last, after every `Output` event it observes.
    pub proof fn lemma_terminal_observed_once(&self, id: Seq<char>, c: int)
        requires
            self.wf(),
            self.session_state(id) matches Some(s) && is_terminal_state(s),
            0 <= c < self.history_of(id).len(),
        ensures
            terminal_history(self.observable_of(id, c)),
            count_terminal(self.observable_of(id, c)) == 1,
            self.observable_of(id, c).last() == self.history_of(id).last(),
            state_of_terminal_event(self.history_of(id).last()) == self.session_state(
                id,
            )->Some_0,
    {
        let i = self.idx_of(id);
        assert(Self::entry_wf(self.entries@[i]));
        let ch = self.entries@[i].channel;
        crate::channel::lemma_terminal_observed_once(&ch, c);
        assert(self.observable_of(id, c) =~= ch.observable(c));
    }
}

} // verus!

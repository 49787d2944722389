//! The single-slot event mailbox: one producer hands inbound events to
//! one asynchronous consumer, one at a time.
//!
//! The shared object is a [`ConnectionState`]: a slot that is `Empty`,
//! holds a registered waker (`Waiting`), or holds one unconsumed event
//! (`Received`), wrapped in an outer open/closed marker. In the
//! embedder the object sits behind a mutex with a condition variable
//! beside it; every function here is the step performed while that lock
//! is held. Blocking on the condition variable, waking a waker and
//! dropping handles are the embedder's moves, directed by the returned
//! [`PostStep`] and [`FuturePoll`] values.
//!
//! Two ghost sequences accompany the slot: everything the producer ever
//! stored, and everything the consumer has taken out. Well-formedness
//! ties them together, and the lemmas at the end state the delivery
//! guarantees over them: backpressure, order with neither loss nor
//! duplication, wake correctness, and the close semantics.

use vstd::prelude::*;
use crate::client::FuturePoll;

verus! {

/// An inbound item for the consumer: a received message or a
/// connection-status notification.
#[derive(Clone, Copy, PartialEq, Eq, Debug)]
pub enum Event<R> {
    Received(R),
    Connected,
    Disconnected,
}

/// The inner state of the mailbox slot.
///
/// At most one undelivered event exists at any time, and the stored
/// waker is always the most recently registered one: the protocol is
/// single-producer, single-consumer.
#[derive(Debug, PartialEq, Eq)]
pub enum AsyncState<W, R, E> {
    Empty,
    Waiting(W),
    Received(Result<Event<R>, E>),
}

impl<W, R, E> AsyncState<W, R, E> {
    /// The slot of a freshly created mailbox: nothing buffered, nobody
    /// registered.
    pub fn new() -> (r: Self)
        ensures
            r is Empty,
    {
        AsyncState::Empty
    }
}

impl<W, R, E> Default for AsyncState<W, R, E> {
    fn default() -> (r: Self)
        ensures
            r is Empty,
    {
        AsyncState::Empty
    }
}

/// The shared mailbox object: the slot, or `Option::None` once the
/// mailbox has been torn down. Closed is the outer marker, not a fourth
/// slot variant.
///
/// `posted` and `delivered` are ghost histories of the events stored by
/// the producer and taken out by the consumer, oldest first.
pub struct ConnectionState<W, R, E> {
    /// The slot, or the closed marker.
    pub slot: Option<AsyncState<W, R, E>>,
    /// Every event the producer has stored, oldest first.
    pub posted: Ghost<Seq<Result<Event<R>, E>>>,
    /// Every event the consumer has taken out, oldest first.
    pub delivered: Ghost<Seq<Result<Event<R>, E>>>,
}

impl<W, R, E> ConnectionState<W, R, E> {
    pub open spec fn is_open(self) -> bool {
        self.slot is Some
    }

    pub open spec fn is_closed(self) -> bool {
        self.slot is None
    }

    /// Whether the slot holds an unconsumed event.
    pub open spec fn is_full(self) -> bool {
        match self.slot {
            Option::Some(AsyncState::Received(_)) => true,
            _ => false,
        }
    }

    /// The unconsumed contents of the slot, as a sequence of length at
    /// most one.
    pub open spec fn buffered(self) -> Seq<Result<Event<R>, E>> {
        match self.slot {
            Option::Some(AsyncState::Received(e)) => seq![e],
            _ => Seq::empty(),
        }
    }

    /// The waker the consumer has registered, if any.
    pub open spec fn registered_waker(self) -> Option<W> {
        match self.slot {
            Option::Some(AsyncState::Waiting(w)) => Option::Some(w),
            _ => Option::None,
        }
    }

    pub open spec fn posted_events(self) -> Seq<Result<Event<R>, E>> {
        self.posted@
    }

    pub open spec fn delivered_events(self) -> Seq<Result<Event<R>, E>> {
        self.delivered@
    }

    /// Well-formedness. While the mailbox is open, what was posted is
    /// exactly what was delivered followed by whatever sits in the
    /// slot. After a close, delivery stopped as a prefix of the posted
    /// history, at most one event short: the one a close may discard.
    pub open spec fn wf(self) -> bool {
        if self.is_open() {
            self.posted@ == self.delivered@ + self.buffered()
        } else {
            self.delivered@.is_prefix_of(self.posted@)
                && self.posted@.len() <= self.delivered@.len() + 1
        }
    }

    /// A fresh, open mailbox with an empty slot and empty histories.
    pub fn new() -> (r: Self)
        ensures
            r.wf(),
            r.is_open(),
            !r.is_full(),
            r.registered_waker() is None,
            r.posted_events() == Seq::<Result<Event<R>, E>>::empty(),
            r.delivered_events() == Seq::<Result<Event<R>, E>>::empty(),
    {
        let r = ConnectionState {
            slot: Option::Some(AsyncState::new()),
            posted: Ghost(Seq::empty()),
            delivered: Ghost(Seq::empty()),
        };
        proof {
            assert(r.posted@ =~= r.delivered@ + r.buffered());
        }
        r
    }
}

/// What one attempt to post decided.
#[derive(Debug, PartialEq, Eq)]
pub enum PostStep<W, R, E> {
    /// The mailbox was closed: the event was discarded and the producer
    /// is done with it.
    Closed,
    /// The slot still holds an unconsumed event: nothing changed, and
    /// the event comes back so the producer can wait for the consumer
    /// to drain the slot and then try again.
    SlotFull(Result<Event<R>, E>),
    /// The event was stored. Carries the consumer's registered waker
    /// when there was one: the producer must wake it now.
    Stored(Option<W>),
}

/// Exactly what one post attempt does to the mailbox: a no-op on a
/// closed mailbox, a rejection while the slot is full, and otherwise a
/// store that extends the posted history by the event and surrenders
/// the registered waker.
pub open spec fn post_rel<W, R, E>(
    pre: ConnectionState<W, R, E>,
    event: Result<Event<R>, E>,
    post: ConnectionState<W, R, E>,
    r: PostStep<W, R, E>,
) -> bool {
    if pre.is_closed() {
        r is Closed && post == pre
    } else if pre.is_full() {
        r == PostStep::<W, R, E>::SlotFull(event) && post == pre
    } else {
        &&& r == PostStep::<W, R, E>::Stored(pre.registered_waker())
        &&& post.slot == Option::Some(AsyncState::<W, R, E>::Received(event))
        &&& post.posted@ == pre.posted@.push(event)
        &&& post.delivered@ == pre.delivered@
    }
}

/// Exactly what one consumer poll does to the mailbox: the end-of-stream
/// sentinel on a closed mailbox, draining the slot and extending the
/// delivered history when an event is buffered, and otherwise
/// registering the given waker and reporting not-ready.
pub open spec fn poll_rel<W, R, E>(
    pre: ConnectionState<W, R, E>,
    waker: W,
    post: ConnectionState<W, R, E>,
    r: FuturePoll<Option<Result<Event<R>, E>>>,
) -> bool {
    if pre.is_closed() {
        r == FuturePoll::Ready(Option::<Result<Event<R>, E>>::None) && post == pre
    } else {
        match pre.slot {
            Option::Some(AsyncState::Received(e)) => {
                &&& r == FuturePoll::Ready(Option::Some(e))
                &&& post.slot == Option::Some(AsyncState::<W, R, E>::Empty)
                &&& post.posted@ == pre.posted@
                &&& post.delivered@ == pre.delivered@.push(e)
            },
            _ => {
                &&& r is Pending
                &&& post.slot == Option::Some(AsyncState::<W, R, E>::Waiting(waker))
                &&& post.posted@ == pre.posted@
                &&& post.delivered@ == pre.delivered@
            },
        }
    }
}

/// The producer's handle. In the embedder it shares one reference-counted,
/// lock-guarded [`ConnectionState`] with the connection handle; here each
/// post is the step performed under that lock, on the borrowed state.
pub struct AsyncPostbox;

impl AsyncPostbox {
    pub fn new() -> (r: Self) {
        AsyncPostbox
    }

    /// One attempt to hand `event` to the consumer.
    ///
    /// On [`PostStep::SlotFull`] the embedder blocks on the condition
    /// variable and retries with the returned event once notified; on
    /// [`PostStep::Stored`] it wakes the carried waker, if any, and
    /// notifies the condition variable; on [`PostStep::Closed`] it
    /// returns, the event discarded.
    pub fn post<W, R, E>(
        &self,
        state: &mut ConnectionState<W, R, E>,
        event: Result<Event<R>, E>,
    ) -> (r: PostStep<W, R, E>)
        ensures
            post_rel(*old(state), event, *final(state), r),
            old(state).wf() ==> final(state).wf(),
    {
        let ghost pre = *state;
        let ghost ev = event;
        if state.slot.is_none() {
            return PostStep::Closed;
        }
        let full: bool = match &state.slot {
            Option::Some(AsyncState::Received(_)) => true,
            _ => false,
        };
        if full {
            return PostStep::SlotFull(event);
        }
        let prior: Option<AsyncState<W, R, E>> = state.slot.take();
        state.slot = Option::Some(AsyncState::Received(event));
        state.posted = Ghost(state.posted@.push(ev));
        proof {
            if pre.wf() {
                assert(pre.delivered@ + pre.buffered() =~= pre.delivered@);
                assert(state.delivered@ + state.buffered() =~= pre.delivered@.push(ev));
            }
        }
        match prior {
            Option::Some(AsyncState::Waiting(w)) => PostStep::Stored(Option::Some(w)),
            _ => PostStep::Stored(Option::None),
        }
    }
}

/// The consumer's next-event future, as the step its poll performs
/// under the mailbox lock. The embedder's future type wraps this: on
/// [`FuturePoll::Pending`] the consumer's waker has been registered and
/// the task suspends; a `Ready` value is the resolution.
pub struct NextFuture;

impl NextFuture {
    /// One consumer poll with the current waker.
    ///
    /// After any poll the embedder notifies the condition variable, so
    /// that a producer stalled on a full slot re-examines it.
    pub fn poll<W, R, E>(
        &self,
        state: &mut ConnectionState<W, R, E>,
        waker: W,
    ) -> (r: FuturePoll<Option<Result<Event<R>, E>>>)
        ensures
            poll_rel(*old(state), waker, *final(state), r),
            old(state).wf() ==> final(state).wf(),
    {
        let ghost pre = *state;
        if state.slot.is_none() {
            return FuturePoll::Ready(Option::None);
        }
        let prior: Option<AsyncState<W, R, E>> = state.slot.take();
        match prior {
            Option::Some(AsyncState::Received(e)) => {
                state.slot = Option::Some(AsyncState::Empty);
                state.delivered = Ghost(state.delivered@.push(e));
                proof {
                    if pre.wf() {
                        assert(pre.delivered@ + pre.buffered() =~= pre.delivered@.push(e));
                        assert(state.delivered@ + state.buffered() =~= state.delivered@);
                    }
                }
                FuturePoll::Ready(Option::Some(e))
            },
            _ => {
                state.slot = Option::Some(AsyncState::Waiting(waker));
                proof {
                    if pre.wf() {
                        assert(pre.buffered() =~= state.buffered());
                    }
                }
                FuturePoll::Pending
            },
        }
    }
}

/// The consumer-side connection handle. In the embedder, dropping it
/// closes the mailbox; [`AsyncConnection::close`] is that step.
pub struct AsyncConnection;

impl AsyncConnection {
    pub fn new() -> (r: Self) {
        AsyncConnection
    }

    /// The future for the next inbound event.
    pub fn next(&self) -> (r: NextFuture) {
        NextFuture
    }

    /// Tears the mailbox down. Afterwards posts are no-ops and polls
    /// resolve to the end-of-stream sentinel; an event still sitting in
    /// the slot is discarded. The embedder notifies the condition
    /// variable right after, releasing any producer stalled on a full
    /// slot.
    pub fn close<W, R, E>(&self, state: &mut ConnectionState<W, R, E>)
        ensures
            final(state).is_closed(),
            final(state).posted@ == old(state).posted@,
            final(state).delivered@ == old(state).delivered@,
            old(state).wf() ==> final(state).wf(),
    {
        let ghost pre = *state;
        state.slot = Option::None;
        proof {
            if pre.wf() && pre.is_open() {
                lemma_concat_prefix(pre.delivered@, pre.buffered());
            }
        }
    }
}

/// A sequence is a prefix of itself followed by anything.
proof fn lemma_concat_prefix<T>(a: Seq<T>, b: Seq<T>)
    ensures
        a.is_prefix_of(a + b),
{
    assert(a =~= (a + b).subrange(0, a.len() as int));
}

/// Backpressure: while the slot holds an unconsumed event, a post
/// changes nothing and hands its event back — the buffered event is
/// never overwritten, and the producer stalls instead of buffering
/// further or dropping data.
pub proof fn lemma_backpressure<W, R, E>(
    pre: ConnectionState<W, R, E>,
    event: Result<Event<R>, E>,
    post: ConnectionState<W, R, E>,
    r: PostStep<W, R, E>,
)
    requires
        pre.is_open(),
        pre.is_full(),
        post_rel(pre, event, post, r),
    ensures
        r == PostStep::<W, R, E>::SlotFull(event),
        post == pre,
        post.buffered() == pre.buffered(),
{
}

/// The other half of backpressure: the stall ends exactly when the
/// consumer drains the slot. The poll takes out the buffered event, and
/// the blocked producer's retry then stores its own.
pub proof fn lemma_blocked_post_succeeds_after_drain<W, R, E>(
    pre: ConnectionState<W, R, E>,
    buffered: Result<Event<R>, E>,
    w: W,
    mid: ConnectionState<W, R, E>,
    r1: FuturePoll<Option<Result<Event<R>, E>>>,
    event: Result<Event<R>, E>,
    post: ConnectionState<W, R, E>,
    r2: PostStep<W, R, E>,
)
    requires
        pre.is_open(),
        pre.buffered() == seq![buffered],
        poll_rel(pre, w, mid, r1),
        post_rel(mid, event, post, r2),
    ensures
        r1 == FuturePoll::Ready(Option::Some(buffered)),
        r2 == PostStep::<W, R, E>::Stored(Option::<W>::None),
        post.buffered() == seq![event],
{
    assert(pre.buffered()[0] == buffered);
}

/// Order, no loss, no duplication: what the consumer has taken out is
/// always a prefix of what the producer posted, and while the mailbox
/// is open with a drained slot the consumer has observed exactly the
/// posted sequence, in order.
pub proof fn lemma_order_no_loss_no_duplication<W, R, E>(m: ConnectionState<W, R, E>)
    requires
        m.wf(),
    ensures
        m.delivered_events().is_prefix_of(m.posted_events()),
        m.is_open() && !m.is_full() ==> m.delivered_events() == m.posted_events(),
{
    if m.is_open() {
        lemma_concat_prefix(m.delivered@, m.buffered());
        if !m.is_full() {
            assert(m.delivered@ + m.buffered() =~= m.delivered@);
        }
    }
}

/// Wake correctness: when the consumer has registered a waker and the
/// producer then posts, exactly that waker is surrendered for waking,
/// and the consumer's following poll resolves to the posted event — no
/// re-polling out of nowhere is needed.
pub proof fn lemma_wake_correctness<W, R, E>(
    pre: ConnectionState<W, R, E>,
    w: W,
    event: Result<Event<R>, E>,
    mid: ConnectionState<W, R, E>,
    r1: PostStep<W, R, E>,
    w2: W,
    post: ConnectionState<W, R, E>,
    r2: FuturePoll<Option<Result<Event<R>, E>>>,
)
    requires
        pre.registered_waker() == Option::Some(w),
        post_rel(pre, event, mid, r1),
        poll_rel(mid, w2, post, r2),
    ensures
        r1 == PostStep::<W, R, E>::Stored(Option::Some(w)),
        r2 == FuturePoll::Ready(Option::Some(event)),
{
}

/// Close semantics: on a closed mailbox every post is a no-op that
/// discards its event, and every poll resolves at once to the
/// end-of-stream sentinel; both leave the state closed and unchanged,
/// so the same holds of every later post and poll.
pub proof fn lemma_close_semantics<W, R, E>(
    m: ConnectionState<W, R, E>,
    event: Result<Event<R>, E>,
    post1: ConnectionState<W, R, E>,
    r1: PostStep<W, R, E>,
    w: W,
    post2: ConnectionState<W, R, E>,
    r2: FuturePoll<Option<Result<Event<R>, E>>>,
)
    requires
        m.is_closed(),
        post_rel(m, event, post1, r1),
        poll_rel(m, w, post2, r2),
    ensures
        r1 is Closed,
        post1 == m,
        post1.is_closed(),
        r2 == FuturePoll::Ready(Option::<Result<Event<R>, E>>::None),
        post2 == m,
        post2.is_closed(),
{
}

} // verus!

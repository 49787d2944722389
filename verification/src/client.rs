//! The request side of the bridge: turning blocking request/response
//! calls into future-shaped ones.
//!
//! An [`AsyncClient`] never talks to the broker itself. Each call copies
//! its borrowed arguments into one fully-owned [`Request`] value, which
//! the embedder hands to its worker executor together with the shared,
//! lock-guarded synchronous client; the lock serializes the calls of all
//! cloned handles. Owning the copies is what lets the scheduled closure
//! outlive the caller's borrows.
//!
//! Client variants whose publish is a plain in-memory enqueue need no
//! offloading at all: [`EnqueueFuture`] wraps the synchronously computed
//! result so that every variant exposes the same future-returning shape.

use vstd::prelude::*;
use vstd::slice::slice_to_vec;

verus! {

/// Broker-assigned identifier correlating a request to its acknowledgement.
pub type MessageId = u32;

/// Message-delivery guarantee level negotiated with a broker.
#[derive(Clone, Copy, PartialEq, Eq, Structural, Debug)]
pub enum QoS {
    AtMostOnce,
    AtLeastOnce,
    ExactlyOnce,
}

/// One fully-owned request for the underlying synchronous client.
///
/// Holding owned copies of the topic and the payload is a correctness
/// requirement, not an optimization: the closure that carries a request
/// to a worker context runs after the call that built it has returned.
#[derive(Clone, PartialEq, Eq, Debug)]
pub enum Request {
    Subscribe { topic: String, qos: QoS },
    Unsubscribe { topic: String },
    Publish { topic: String, qos: QoS, retain: bool, payload: Vec<u8> },
}

/// A handle of the unblocking call adapter.
///
/// Every cloned handle stands for the same shared synchronous client;
/// the mutex around that client, the worker executor, and the futures
/// they produce belong to the embedder. Each request method here
/// performs the verified part of a call: building exactly one owned
/// request that captures the arguments verbatim. The ghost `issued` log
/// records those requests in the order the handle made them.
#[derive(Clone, Copy)]
pub struct AsyncClient {
    /// Every request this handle has built, oldest first.
    pub issued: Ghost<Seq<Request>>,
}

impl AsyncClient {
    /// A fresh adapter handle that has issued no request yet.
    pub fn new() -> (r: Self)
        ensures
            r.issued@ == Seq::<Request>::empty(),
    {
        AsyncClient { issued: Ghost(Seq::empty()) }
    }

    /// Builds the owned subscribe request for `topic` at `qos`.
    pub fn subscribe(&mut self, topic: &str, qos: QoS) -> (r: Request)
        ensures
            (r matches Request::Subscribe { topic: t, qos: q } && t@ == topic@ && q == qos),
            final(self).issued@ == old(self).issued@.push(r),
    {
        let owned: String = topic.to_owned();
        let r = Request::Subscribe { topic: owned, qos };
        self.issued = Ghost(self.issued@.push(r));
        r
    }

    /// Builds the owned unsubscribe request for `topic`.
    pub fn unsubscribe(&mut self, topic: &str) -> (r: Request)
        ensures
            (r matches Request::Unsubscribe { topic: t } && t@ == topic@),
            final(self).issued@ == old(self).issued@.push(r),
    {
        let owned: String = topic.to_owned();
        let r = Request::Unsubscribe { topic: owned };
        self.issued = Ghost(self.issued@.push(r));
        r
    }

    /// Builds the owned publish request: topic, delivery level, retain
    /// flag and payload are captured exactly as given.
    pub fn publish(&mut self, topic: &str, qos: QoS, retain: bool, payload: &[u8]) -> (r: Request)
        ensures
            (r matches Request::Publish { topic: t, qos: q, retain: rt, payload: p }
                && t@ == topic@ && q == qos && rt == retain && p@ == payload@),
            final(self).issued@ == old(self).issued@.push(r),
    {
        let owned_topic: String = topic.to_owned();
        let owned_payload: Vec<u8> = slice_to_vec(payload);
        let r = Request::Publish { topic: owned_topic, qos, retain, payload: owned_payload };
        self.issued = Ghost(self.issued@.push(r));
        r
    }
}

/// The two outcomes of polling a future, as plain data.
#[derive(Clone, Copy, PartialEq, Eq, Debug)]
pub enum FuturePoll<T> {
    Ready(T),
    Pending,
}

/// A future that was handed its result up front.
///
/// Client variants whose publish merely enqueues onto an in-memory
/// outbound queue compute their result synchronously; wrapping it here
/// gives them the same future-returning publish signature as the
/// offloading variants. The error type must be duplicable because the
/// wrapped result can be observed more than once before it is consumed.
pub struct EnqueueFuture<E>(pub Result<MessageId, E>);

impl<E> EnqueueFuture<E> {
    /// Wraps an already-computed enqueue result.
    pub fn new(result: Result<MessageId, E>) -> (r: Self)
        ensures
            r.0 == result,
    {
        EnqueueFuture(result)
    }
}

impl<E: Copy> EnqueueFuture<E> {
    /// Resolves on its very first poll, to the stored result; it
    /// introduces no real suspension.
    pub fn poll(&self) -> (r: FuturePoll<Result<MessageId, E>>)
        ensures
            r == FuturePoll::Ready(self.0),
    {
        FuturePoll::Ready(self.0)
    }
}

} // verus!

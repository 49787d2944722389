//! A bridge from a blocking publish/subscribe client and a blocking
//! event-pulling connection to a non-blocking, poll-based interface.
//!
//! The crate verifies the two mechanisms at the heart of that bridge:
//! the request-building adapter that turns borrowed call arguments into
//! owned request values fit for offloading to a worker context
//! ([`client`]), and the single-slot mailbox state machine through which
//! one producer hands events to one consumer without loss, duplication
//! or reordering ([`mailbox`]).
//!
//! Locks, condition variables, wakers and the worker executor are the
//! embedder's: every mailbox operation here is the step that the
//! embedder performs while it holds the lock on the shared state.

pub mod client;
pub mod mailbox;

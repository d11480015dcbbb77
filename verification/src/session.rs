//! Per-connection identity and the bounded push queue.
//!
//! A `Session` is handed (by clone) to the dispatch layer with every
//! request, so long-lived handlers can push messages to the peer outside
//! the request/response cycle. The serve loop holds the queue's sole
//! consumer end; pushing on `raw_tx` suspends the producer while the queue
//! is full and fails once the loop is gone.

use crate::config::StreamServerConfig;
use vstd::prelude::*;

verus! {

/// Declares `tokio::sync::mpsc::Sender`, the producer end of the bounded
/// push queue that a `Session` carries; the value is opaque here and only
/// producers outside the verified core send on it.
#[verifier::external_type_specification]
#[verifier::external_body]
#[verifier::reject_recursive_types(T)]
pub struct ExSender<T>(tokio::sync::mpsc::Sender<T>);

/// Declares `tokio::sync::mpsc::Receiver`, the consumer end of the bounded
/// push queue, handed to the serve loop; opaque here as well.
#[verifier::external_type_specification]
#[verifier::external_body]
#[verifier::reject_recursive_types(T)]
pub struct ExReceiver<T>(tokio::sync::mpsc::Receiver<T>);

/// The queue a sender produces into. Senders are handles on a shared
/// queue, and this name is how the contracts say that two producer ends
/// feed one and the same queue.
pub uninterp spec fn queue_of_sender(s: tokio::sync::mpsc::Sender<String>) -> int;

/// The queue a receiver drains; [`queue_of_sender`] of a producer end of
/// the same queue is the same value.
pub uninterp spec fn queue_of_receiver(r: tokio::sync::mpsc::Receiver<String>) -> int;

/// The capacity a bounded queue was allocated with, as seen from a
/// producer end.
pub uninterp spec fn queue_bound(s: tokio::sync::mpsc::Sender<String>) -> usize;

/// Relies on `tokio::sync::mpsc::channel`: allocates one bounded FIFO
/// queue of exactly the given capacity and returns its producer and
/// consumer ends. The function panics on a capacity of 0 and on one above
/// the permit limit of the semaphore inside (the top three bits of a
/// `usize` are reserved, leaving `usize::MAX / 8`), so those capacities
/// are excluded here.
#[verifier::external_body]
fn push_queue(capacity: usize) -> (r: (
    tokio::sync::mpsc::Sender<String>,
    tokio::sync::mpsc::Receiver<String>,
))
    requires
        1 <= capacity <= usize::MAX / 8,
    ensures
        queue_of_sender(r.0) == queue_of_receiver(r.1),
        queue_bound(r.0) == capacity,
{
    tokio::sync::mpsc::channel(capacity)
}

/// Relies on `Sender::clone`: the clone produces into the same queue as
/// the original, with the same bound.
#[verifier::external_body]
fn clone_push_sender(s: &tokio::sync::mpsc::Sender<String>) -> (r: tokio::sync::mpsc::Sender<
    String,
>)
    ensures
        queue_of_sender(r) == queue_of_sender(*s),
        queue_bound(r) == queue_bound(*s),
{
    s.clone()
}

/// The source of session ids: a counter that only ever moves forward, so an
/// id, once assigned, is never assigned again while the counter lives.
///
/// The process holds a single shared instance of it; keeping the counter a
/// plain value lets tests inject and reset their own.
pub struct SessionIdCounter {
    pub next_id: u64,
}

impl SessionIdCounter {
    /// A fresh counter, assigning ids from 0 up.
    pub fn new() -> (c: Self)
        ensures
            c.next_id == 0,
    {
        SessionIdCounter { next_id: 0 }
    }

    /// Hand out the next id and move the counter past it.
    pub fn next(&mut self) -> (id: u64)
        requires
            old(self).next_id < u64::MAX,
        ensures
            id == old(self).next_id,
            final(self).next_id == old(self).next_id + 1,
    {
        let id = self.next_id;
        self.next_id = self.next_id + 1;
        id
    }
}

/// One connection's identity, plus the producer end of its push queue.
///
/// Exactly one `Session` is created per connection; the copies handed to
/// handlers all carry the same `id` and produce into the same queue.
pub struct Session {
    pub id: u64,
    pub raw_tx: tokio::sync::mpsc::Sender<String>,
}

impl Session {
    /// The connection's id: unique within the process for the lifetime of
    /// the id counter.
    pub fn id(&self) -> (id: u64)
        ensures
            id == self.id,
    {
        self.id
    }
}

impl Clone for Session {
    /// The clone keeps the connection's identity and produces into the same
    /// push queue.
    fn clone(&self) -> (s: Self)
        ensures
            s.id == self.id,
            queue_of_sender(s.raw_tx) == queue_of_sender(self.raw_tx),
            queue_bound(s.raw_tx) == queue_bound(self.raw_tx),
    {
        Session { id: self.id, raw_tx: clone_push_sender(&self.raw_tx) }
    }
}

/// Open a new session for one connection: take the next id from the shared
/// counter, allocate the bounded push queue at the configured capacity, and
/// pair the session (holding the producer end) with the consumer end for
/// the serve loop.
pub fn open_session(counter: &mut SessionIdCounter, config: &StreamServerConfig) -> (r: (
    Session,
    tokio::sync::mpsc::Receiver<String>,
))
    requires
        old(counter).next_id < u64::MAX,
        1 <= config.channel_size <= usize::MAX / 8,
    ensures
        r.0.id == old(counter).next_id,
        final(counter).next_id == old(counter).next_id + 1,
        queue_of_sender(r.0.raw_tx) == queue_of_receiver(r.1),
        queue_bound(r.0.raw_tx) == config.channel_size,
{
    let id = counter.next();
    let (tx, rx) = push_queue(config.channel_size);
    (Session { id, raw_tx: tx }, rx)
}

} // verus!

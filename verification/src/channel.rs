//! The channels of the `flume` crate that carry data chunks from the
//! session to its streams. What a channel holds depends on other tasks,
//! so the wrappers here promise nothing of what a send or a receive gives
//! beyond its shape; what is known is which ends belong to one channel.

use vstd::prelude::*;
use bytes::Bytes;
use flume::{Receiver, Sender, TryRecvError, TrySendError};

verus! {

/// The sending half of a `flume` channel.
#[verifier::external_type_specification]
#[verifier::external_body]
#[verifier::reject_recursive_types(T)]
pub struct ExSender<T>(Sender<T>);

/// The receiving half of a `flume` channel.
#[verifier::external_type_specification]
#[verifier::external_body]
#[verifier::reject_recursive_types(T)]
pub struct ExReceiver<T>(Receiver<T>);

/// What an attempt to receive without waiting gave.
pub enum Received {
    /// A chunk of data.
    Chunk(Bytes),
    /// Nothing is waiting, but senders remain.
    Empty,
    /// Nothing is waiting and every sender is gone.
    Disconnected,
}

/// What an attempt to send without waiting gave.
#[derive(Debug, Clone, Copy, PartialEq, Eq, Structural)]
pub enum SendAttempt {
    /// The message was queued.
    Sent,
    /// A bounded channel was full; the message was not queued.
    Full,
    /// Every receiver is gone; the message was not queued.
    Disconnected,
}

/// Whether the sender `tx` and the receiver `rx` are ends of one channel,
/// so that what is sent through `tx` is received through `rx`.
pub uninterp spec fn feeds(tx: Sender<Bytes>, rx: Receiver<Bytes>) -> bool;

/// Calls `flume::unbounded` for a channel of data chunks. Trusted: the
/// sender and the receiver it gives are the two ends of the new channel.
#[verifier::external_body]
pub fn chunk_channel() -> (pair: (Sender<Bytes>, Receiver<Bytes>))
    ensures
        feeds(pair.0, pair.1),
{
    flume::unbounded()
}

/// Calls `Receiver::try_recv` on a channel of data chunks. What it gives
/// depends on the other tasks, so nothing is promised.
#[verifier::external_body]
pub fn chunk_try_recv(rx: &Receiver<Bytes>) -> Received {
    match rx.try_recv() {
        Ok(chunk) => Received::Chunk(chunk),
        Err(TryRecvError::Empty) => Received::Empty,
        Err(TryRecvError::Disconnected) => Received::Disconnected,
    }
}

/// Calls `Sender::try_send` on a channel of data chunks. Whether the chunk
/// is queued depends on the receiver, so nothing is promised.
#[verifier::external_body]
pub fn chunk_try_send(tx: &Sender<Bytes>, chunk: Bytes) -> SendAttempt {
    match tx.try_send(chunk) {
        Ok(()) => SendAttempt::Sent,
        Err(TrySendError::Full(_)) => SendAttempt::Full,
        Err(TrySendError::Disconnected(_)) => SendAttempt::Disconnected,
    }
}

/// Calls `Receiver::is_disconnected` on a channel of data chunks: whether
/// every sender is gone. That depends on the other tasks, so nothing is
/// promised.
#[verifier::external_body]
pub fn chunk_senders_gone(rx: &Receiver<Bytes>) -> bool {
    rx.is_disconnected()
}

} // verus!

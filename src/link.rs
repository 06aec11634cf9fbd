//! The cross-thread form of the one-slot delivery discipline, carried by
//! crossbeam channels of capacity one.

use vstd::prelude::*;
use crossbeam_channel::{Receiver, Sender, TryRecvError, TrySendError};
use crate::channel::Received;

verus! {

#[verifier::external_type_specification]
#[verifier::external_body]
#[verifier::reject_recursive_types(T)]
pub struct ExSender<T>(Sender<T>);

#[verifier::external_type_specification]
#[verifier::external_body]
#[verifier::reject_recursive_types(T)]
pub struct ExReceiver<T>(Receiver<T>);

/// Relies on crossbeam_channel::Receiver's Clone: another handle on the same
/// channel, so that either can take the waiting value.
pub assume_specification<T>[ <Receiver<T> as Clone>::clone ](r: &Receiver<T>) -> Receiver<T>;

/// What one non-blocking send attempt did.
pub enum SendAttempt<T> {
    Sent,
    Full(T),
    Disconnected(T),
}

/// How a latest-wins send ended.
#[derive(Clone, Copy, Debug, PartialEq, Eq, Structural)]
pub enum Delivery {
    /// The value is now the one waiting for the consumer.
    Delivered,
    /// The value could not be placed and was dropped.
    Dropped,
}

/// Relies on crossbeam_channel::bounded: a new channel of the given capacity,
/// as a connected sender and receiver pair.
#[verifier::external_body]
fn bounded_pair<T>(cap: usize) -> (Sender<T>, Receiver<T>) {
    crossbeam_channel::bounded(cap)
}

/// Relies on crossbeam_channel::Sender::try_send: it never blocks, and a value
/// it could not place comes back unchanged in the error.
#[verifier::external_body]
fn attempt_send<T>(tx: &Sender<T>, v: T) -> (r: SendAttempt<T>)
    ensures
        r matches SendAttempt::Full(b) ==> b == v,
        r matches SendAttempt::Disconnected(b) ==> b == v,
{
    match tx.try_send(v) {
        Ok(()) => SendAttempt::Sent,
        Err(TrySendError::Full(b)) => SendAttempt::Full(b),
        Err(TrySendError::Disconnected(b)) => SendAttempt::Disconnected(b),
    }
}

/// Relies on crossbeam_channel::Receiver::try_recv: it never blocks; what it
/// finds depends on the other thread.
#[verifier::external_body]
fn attempt_recv<T>(rx: &Receiver<T>) -> Received<T> {
    match rx.try_recv() {
        Ok(v) => Received::Value(v),
        Err(TryRecvError::Empty) => Received::Empty,
        Err(TryRecvError::Disconnected) => Received::Disconnected,
    }
}

/// The outcome of a send attempt, without its value.
#[derive(Clone, Copy, Debug, PartialEq, Eq, Structural)]
pub enum AttemptKind {
    Sent,
    Full,
    Disconnected,
}

/// The outcome of `a`, without its value.
pub open spec fn kind_spec<T>(a: SendAttempt<T>) -> AttemptKind {
    match a {
        SendAttempt::Sent => AttemptKind::Sent,
        SendAttempt::Full(_) => AttemptKind::Full,
        SendAttempt::Disconnected(_) => AttemptKind::Disconnected,
    }
}

fn kind_of<T>(a: &SendAttempt<T>) -> (k: AttemptKind)
    ensures
        k == kind_spec(*a),
{
    match a {
        SendAttempt::Sent => AttemptKind::Sent,
        SendAttempt::Full(_) => AttemptKind::Full,
        SendAttempt::Disconnected(_) => AttemptKind::Disconnected,
    }
}

/// How a latest-wins send ends, from its first attempt and, where the slot was
/// full, the attempt made after discarding the stale value.
pub open spec fn delivery_of(first: AttemptKind, retry: Option<AttemptKind>) -> Delivery {
    match first {
        AttemptKind::Sent => Delivery::Delivered,
        AttemptKind::Disconnected => Delivery::Dropped,
        AttemptKind::Full => match retry {
            Some(AttemptKind::Sent) => Delivery::Delivered,
            _ => Delivery::Dropped,
        },
    }
}

/// Decides how a latest-wins send ended; see [`delivery_of`].
pub fn settle_delivery(first: AttemptKind, retry: Option<AttemptKind>) -> (d: Delivery)
    ensures
        d == delivery_of(first, retry),
{
    match first {
        AttemptKind::Sent => Delivery::Delivered,
        AttemptKind::Disconnected => Delivery::Dropped,
        AttemptKind::Full => match retry {
            Some(AttemptKind::Sent) => Delivery::Delivered,
            _ => Delivery::Dropped,
        },
    }
}

/// The producer's end of a one-slot link.  It keeps a receiver of its own so
/// that a stale value can be discarded to make room for a newer one; the link
/// therefore stays connected for as long as this end lives, and only the
/// consumer learns of a disconnect (when this end is dropped).
#[verifier::reject_recursive_types(T)]
pub struct LinkSender<T> {
    tx: Sender<T>,
    stale: Receiver<T>,
}

/// The consumer's end of a one-slot link.
#[verifier::reject_recursive_types(T)]
pub struct LinkReceiver<T> {
    rx: Receiver<T>,
}

/// A new one-slot link between two threads.
pub fn latest_link<T>() -> (LinkSender<T>, LinkReceiver<T>) {
    let (tx, rx) = bounded_pair(1);
    let stale = rx.clone();
    (LinkSender { tx, stale }, LinkReceiver { rx })
}

impl<T> LinkSender<T> {
    /// Latest-wins send that never blocks: where the slot is still occupied,
    /// the waiting value is discarded and `v` is offered once more.
    pub fn send_latest(&self, v: T) -> (d: Delivery) {
        let first = attempt_send(&self.tx, v);
        let first_kind = kind_of(&first);
        let retry = match first {
            SendAttempt::Full(back) => {
                let _discarded = attempt_recv(&self.stale);
                Some(kind_of(&attempt_send(&self.tx, back)))
            },
            _ => None,
        };
        settle_delivery(first_kind, retry)
    }
}

impl<T> LinkReceiver<T> {
    /// Non-blocking receive of the newest value sent.
    pub fn try_recv(&self) -> Received<T> {
        attempt_recv(&self.rx)
    }
}

} // verus!

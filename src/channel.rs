//! The one-slot, latest-wins delivery discipline between producer and consumer.

use vstd::prelude::*;

verus! {

/// What a non-blocking receive found.
#[derive(Debug, PartialEq, Eq)]
pub enum Received<T> {
    /// The waiting value, now taken out.
    Value(T),
    /// Nothing is waiting; the producer is still there.
    Empty,
    /// Nothing is waiting and the producer has gone: a shutdown signal.
    Disconnected,
}

/// What a single-slot channel holds: at most one undelivered value, and
/// whether the producer has closed it.
pub struct SlotState<T> {
    pub pending: Option<T>,
    pub closed: bool,
}

impl<T> SlotState<T> {
    /// The state after a latest-wins send: `v` replaces whatever waited.
    pub open spec fn sent(self, v: T) -> SlotState<T> {
        SlotState { pending: Some(v), closed: self.closed }
    }

    /// The state after a receive: the slot is empty.
    pub open spec fn taken(self) -> SlotState<T> {
        SlotState { pending: None, closed: self.closed }
    }

    /// What a receive in this state returns.
    pub open spec fn receive_result(self) -> Received<T> {
        match self.pending {
            Some(v) => Received::Value(v),
            None => if self.closed {
                Received::Disconnected
            } else {
                Received::Empty
            },
        }
    }
}

/// The state after sending each of `values` in order, with no receive between.
pub open spec fn sent_all<T>(s: SlotState<T>, values: Seq<T>) -> SlotState<T>
    decreases values.len(),
{
    if values.len() == 0 {
        s
    } else {
        sent_all(s.sent(values[0]), values.drop_first())
    }
}

/// A single-producer, single-consumer channel of capacity one in which a new
/// value overwrites an undelivered one.  Neither side ever blocks.
pub struct DeliveryChannel<T> {
    slot: Option<T>,
    closed: bool,
}

impl<T> View for DeliveryChannel<T> {
    type V = SlotState<T>;

    closed spec fn view(&self) -> SlotState<T> {
        SlotState { pending: self.slot, closed: self.closed }
    }
}

impl<T> DeliveryChannel<T> {
    /// An open, empty channel.
    pub fn new() -> (c: Self)
        ensures
            c@.pending is None,
            !c@.closed,
    {
        DeliveryChannel { slot: None, closed: false }
    }

    /// Latest-wins send: `v` becomes the waiting value and the value it
    /// replaced, if any, is handed back as dropped.
    pub fn send(&mut self, v: T) -> (dropped: Option<T>)
        ensures
            final(self)@ == old(self)@.sent(v),
            dropped == old(self)@.pending,
    {
        let dropped = self.slot.take();
        self.slot = Some(v);
        dropped
    }

    /// Drop-newest send: `v` is stored only when the slot is free and the
    /// channel open; otherwise it is handed back and nothing changes.
    pub fn try_send(&mut self, v: T) -> (r: Result<(), T>)
        ensures
            (old(self)@.pending is None && !old(self)@.closed) ==> r is Ok && final(self)@ == old(self)@.sent(v),
            !(old(self)@.pending is None && !old(self)@.closed) ==> r == Err::<(), T>(v) && final(self)@ == old(self)@,
    {
        if self.slot.is_none() && !self.closed {
            self.slot = Some(v);
            Ok(())
        } else {
            Err(v)
        }
    }

    /// Non-blocking receive: takes the waiting value, or reports that none
    /// waits (and whether the producer has gone).
    pub fn try_recv(&mut self) -> (r: Received<T>)
        ensures
            r == old(self)@.receive_result(),
            final(self)@ == old(self)@.taken(),
    {
        match self.slot.take() {
            Some(v) => Received::Value(v),
            None => if self.closed {
                Received::Disconnected
            } else {
                Received::Empty
            },
        }
    }

    /// The producer's fatal exit: once drained, receives report
    /// [`Received::Disconnected`].
    pub fn close(&mut self)
        ensures
            final(self)@ == (SlotState { pending: old(self)@.pending, closed: true }),
    {
        self.closed = true;
    }

    /// How many values wait: never more than one.
    pub fn backlog(&self) -> (n: usize)
        ensures
            n == (if self@.pending is Some { 1usize } else { 0usize }),
            n <= 1,
    {
        if self.slot.is_some() {
            1
        } else {
            0
        }
    }
}

/// Sending several values with no receive between them leaves exactly the
/// last one waiting; the earlier ones are gone and the closed flag is kept.
pub proof fn lemma_last_send_wins<T>(s: SlotState<T>, values: Seq<T>)
    requires
        values.len() > 0,
    ensures
        sent_all(s, values).pending == Some(values.last()),
        sent_all(s, values).closed == s.closed,
        sent_all(s, values).receive_result() == Received::Value(values.last()),
    decreases values.len(),
{
    let rest = values.drop_first();
    if values.len() > 1 {
        lemma_last_send_wins(s.sent(values[0]), rest);
        assert(rest.last() == values.last());
    } else {
        assert(rest.len() == 0);
        assert(sent_all(s.sent(values[0]), rest) == s.sent(values[0]));
    }
}

} // verus!

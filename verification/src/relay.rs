//! Single-slot, non-blocking relay connecting the display loop and the
//! inference worker.
//!
//! A relay carries at most one item. Sending never blocks and overwrites
//! an unconsumed item; it fails only once the relay has been torn down.
//! Receiving never blocks: it reports the pending item, or that the relay
//! is empty, or that it has been torn down for good.

use vstd::prelude::*;

verus! {

/// Outcome of a non-blocking receive.
#[derive(Clone, Copy, Debug, PartialEq, Eq)]
pub enum Poll<T> {
    /// An item was pending and has been taken out of the relay.
    Item(T),
    /// Nothing is pending right now; the sender may still deliver later.
    Empty,
    /// The relay has been torn down: nothing is pending and nothing will be.
    Closed,
}

/// Error returned by a send whose receiving side has been torn down.
#[derive(Clone, Copy, Debug, PartialEq, Eq, Structural)]
pub struct ChannelClosed;

/// A one-directional handoff slot holding zero or one item.
pub struct Relay<T> {
    /// The item in transit, if any.
    pub slot: Option<T>,
    /// Whether the relay has been torn down permanently.
    pub closed: bool,
}

impl<T> Relay<T> {
    /// An open relay with nothing in transit.
    pub fn new() -> (r: Relay<T>)
        ensures
            r.slot is None,
            !r.closed,
    {
        Relay { slot: None, closed: false }
    }

    /// Places `item` in the slot, replacing any unconsumed item.
    /// Never blocks; fails exactly when the relay has been torn down.
    pub fn send(&mut self, item: T) -> (r: Result<(), ChannelClosed>)
        ensures
            final(self).closed == old(self).closed,
            old(self).closed ==> r is Err && final(self).slot == old(self).slot,
            !old(self).closed ==> r is Ok && final(self).slot == Some(item),
    {
        if self.closed {
            Err(ChannelClosed)
        } else {
            self.slot = Some(item);
            Ok(())
        }
    }

    /// Non-blocking receive: takes the pending item if there is one;
    /// otherwise reports `Empty`, or `Closed` once the relay is torn
    /// down and drained.
    pub fn try_receive(&mut self) -> (r: Poll<T>)
        ensures
            final(self).closed == old(self).closed,
            final(self).slot is None,
            old(self).slot matches Some(x) ==> r == Poll::Item(x),
            old(self).slot is None && !old(self).closed ==> r == Poll::<T>::Empty && *final(self) == *old(self),
            old(self).slot is None && old(self).closed ==> r == Poll::<T>::Closed && *final(self) == *old(self),
    {
        match self.slot.take() {
            Some(item) => Poll::Item(item),
            None => {
                if self.closed {
                    Poll::Closed
                } else {
                    Poll::Empty
                }
            },
        }
    }

    /// Tears the relay down. A pending item may still be drained once;
    /// after that every receive reports `Closed` and every send fails.
    pub fn close(&mut self)
        ensures
            final(self).closed,
            final(self).slot == old(self).slot,
    {
        self.closed = true;
    }
}

} // verus!

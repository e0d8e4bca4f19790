//! The channel a client and the peer service share: two unidirectional,
//! single-slot conduits, and the notification primitive that wakes the peer
//! after work has been queued.

use vstd::prelude::*;
use crate::api::{Reply, Request};
use crate::error::Error;

verus! {

/// A unidirectional, single-slot-capacity queue. Enqueue on a full conduit
/// is a distinguishable failure that hands the item back; dequeue on an
/// empty conduit is a distinguishable "no item yet" state, not an error.
pub struct Conduit<T> {
    slot: Option<T>,
}

impl<T> View for Conduit<T> {
    type V = Option<T>;

    closed spec fn view(&self) -> Option<T> {
        self.slot
    }
}

impl<T> Conduit<T> {
    /// An empty conduit.
    pub fn new() -> (c: Self)
        ensures
            c@ is None,
    {
        Conduit { slot: None }
    }

    /// Queues an item; on a full conduit the item comes back unconsumed.
    pub fn enqueue(&mut self, item: T) -> (r: Result<(), T>)
        ensures
            match r {
                Ok(_) => old(self)@ is None && final(self)@ == Some(item),
                Err(returned) => old(self)@ is Some && *final(self) == *old(self) && returned
                    == item,
            },
    {
        if self.slot.is_some() {
            Err(item)
        } else {
            self.slot = Some(item);
            Ok(())
        }
    }

    /// Removes and returns the queued item, if any, without blocking.
    pub fn dequeue(&mut self) -> (r: Option<T>)
        ensures
            r == old(self)@,
            final(self)@ is None,
            old(self)@ is None ==> *final(self) == *old(self),
    {
        self.slot.take()
    }
}

/// The client's end of the channel: requests go out, replies (or service
/// errors) come in.
pub struct ClientEndpoint {
    pub send: Conduit<Request>,
    pub recv: Conduit<Result<Reply, Error>>,
}

impl ClientEndpoint {
    /// An endpoint with both conduits empty.
    pub fn new() -> (ep: Self)
        ensures
            ep.send@ is None,
            ep.recv@ is None,
    {
        ClientEndpoint { send: Conduit::new(), recv: Conduit::new() }
    }
}

/// The notification primitive: a zero-argument, fire-and-forget signal that
/// wakes the peer service after a request has been enqueued. Platforms
/// implement it (for instance by pending an interrupt). Its absence or
/// delay affects only latency, never protocol correctness, so no behavior
/// is specified of it.
pub trait Syscall {
    /// Signals the peer service that work is pending.
    fn syscall(&mut self);
}

} // verus!

//! A many-message channel: a plain first-in-first-out queue.
//!
//! Senders add messages at the back and receivers take them from the front,
//! so messages leave in the order they were sent.  A lock and a wait for the
//! next message are a caller's affair: [`BasicChannel::receive`] demands a
//! message already present.

use vstd::prelude::*;
use std::collections::VecDeque;

verus! {

/// A first-in-first-out queue of messages.
pub struct BasicChannel<T> {
    queue: VecDeque<T>,
}

impl<T> View for BasicChannel<T> {
    type V = Seq<T>;

    closed spec fn view(&self) -> Seq<T> {
        self.queue@
    }
}

impl<T> BasicChannel<T> {
    /// Creates an empty channel.
    pub fn new() -> (c: Self)
        ensures
            c@ == Seq::<T>::empty(),
    {
        BasicChannel { queue: VecDeque::new() }
    }

    /// Adds a message at the back of the queue.
    pub fn send(&mut self, message: T)
        ensures
            final(self)@ == old(self)@.push(message),
    {
        self.queue.push_back(message);
    }

    /// Removes and returns the message at the front of the queue: the oldest
    /// one still unreceived.  Waiting for a message to arrive is the
    /// caller's affair, so one must already be present.
    pub fn receive(&mut self) -> (message: T)
        requires
            old(self)@.len() > 0,
        ensures
            message == old(self)@[0],
            final(self)@ == old(self)@.subrange(1, old(self)@.len() as int),
    {
        match self.queue.pop_front() {
            Some(message) => message,
            None => unreached(),
        }
    }
}

} // verus!

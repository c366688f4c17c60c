//! A bounded, one-directional holding area with a sending and a receiving
//! endpoint.

use std::collections::VecDeque;
use vstd::prelude::*;

verus! {

/// Reported by a conduit when the endpoint on the other side is gone.
#[derive(Debug, Clone, Copy, PartialEq, Eq, Structural)]
pub struct ChannelClosed;

/// Why a conduit handed an item back instead of taking it.
#[derive(Debug)]
pub enum SendError<T> {
    /// The receiving endpoint is gone.
    Closed(T),
    /// The conduit already holds as many items as it was made for.
    Full(T),
}

/// What a conduit is, as a mathematical value.
pub struct ConduitView<T> {
    /// The items waiting, oldest first.
    pub queue: Seq<T>,
    /// The number of items the conduit was made for.
    pub capacity: nat,
    /// Whether the sending endpoint is still there.
    pub sender_open: bool,
    /// Whether the receiving endpoint is still there.
    pub receiver_open: bool,
}

impl<T> ConduitView<T> {
    /// A conduit takes an item when its receiver is there and it has room.
    pub open spec fn accepts(self) -> bool {
        self.receiver_open && self.queue.len() < self.capacity
    }

    /// The answer to sending `item`.
    pub open spec fn send_result(self, item: T) -> Result<(), SendError<T>> {
        if !self.receiver_open {
            Err(SendError::Closed(item))
        } else if self.queue.len() >= self.capacity {
            Err(SendError::Full(item))
        } else {
            Ok(())
        }
    }

    /// The conduit after sending `item`: the item joins the back of the
    /// queue when it is accepted, else nothing changes.
    pub open spec fn after_send(self, item: T) -> Self {
        if self.accepts() {
            ConduitView { queue: self.queue.push(item), ..self }
        } else {
            self
        }
    }

    /// The answer to a receive: the oldest item when there is one; nothing
    /// yet while the queue is empty and the sender is there; a failure once
    /// the queue is empty and the sender is gone.
    pub open spec fn recv_result(self) -> Result<Option<T>, ChannelClosed> {
        if self.queue.len() > 0 {
            Ok(Some(self.queue[0]))
        } else if self.sender_open {
            Ok(None)
        } else {
            Err(ChannelClosed)
        }
    }

    /// The conduit after a receive.
    pub open spec fn after_recv(self) -> Self {
        if self.queue.len() > 0 {
            ConduitView { queue: self.queue.skip(1), ..self }
        } else {
            self
        }
    }

    /// The conduit after its sending endpoint is dropped.
    pub open spec fn after_close_sender(self) -> Self {
        ConduitView { sender_open: false, ..self }
    }

    /// The conduit after its receiving endpoint is dropped.
    pub open spec fn after_close_receiver(self) -> Self {
        ConduitView { receiver_open: false, ..self }
    }
}

/// A receiver is never left waiting on a conduit that cannot deliver:
/// "wait" is the answer only while the sender is there, and once the sender
/// of an empty conduit is dropped the answer is the failure.
pub proof fn lemma_closing_releases_receiver<T>(conduit: ConduitView<T>)
    ensures
        conduit.recv_result() == Ok::<Option<T>, ChannelClosed>(None) ==> conduit.sender_open,
        conduit.queue.len() == 0 ==> conduit.after_close_sender().recv_result() == Err::<
            Option<T>,
            ChannelClosed,
        >(ChannelClosed),
{
}

/// A conduit hands out what it was sent, in the order in which it was sent:
/// two items sent one after the other into a conduit with room for both
/// wait behind what was there before, the first in front of the second.
pub proof fn lemma_first_in_first_out<T>(conduit: ConduitView<T>, first: T, second: T)
    requires
        conduit.receiver_open,
        conduit.queue.len() + 2 <= conduit.capacity,
    ensures
        conduit.after_send(first).after_send(second).queue == conduit.queue.push(first).push(
            second,
        ),
        conduit.queue.len() == 0 ==> {
            let sent = conduit.after_send(first).after_send(second);
            &&& sent.recv_result() == Ok::<Option<T>, ChannelClosed>(Some(first))
            &&& sent.after_recv().recv_result() == Ok::<Option<T>, ChannelClosed>(Some(second))
        },
{
}

/// A bounded first-in, first-out conduit.
pub struct Conduit<T> {
    queue: VecDeque<T>,
    capacity: usize,
    sender_open: bool,
    receiver_open: bool,
}

impl<T> View for Conduit<T> {
    type V = ConduitView<T>;

    closed spec fn view(&self) -> ConduitView<T> {
        ConduitView {
            queue: self.queue@,
            capacity: self.capacity as nat,
            sender_open: self.sender_open,
            receiver_open: self.receiver_open,
        }
    }
}

impl<T> Conduit<T> {
    /// A conduit never holds more than it was made for.
    pub open spec fn wf(&self) -> bool {
        self@.queue.len() <= self@.capacity
    }

    /// An empty conduit for `capacity` items, both endpoints in place.
    pub fn new(capacity: usize) -> (c: Self)
        ensures
            c.wf(),
            c@ == (ConduitView::<T> {
                queue: Seq::empty(),
                capacity: capacity as nat,
                sender_open: true,
                receiver_open: true,
            }),
    {
        Conduit { queue: VecDeque::new(), capacity, sender_open: true, receiver_open: true }
    }

    /// A conduit that starts out holding `items`, oldest first.
    pub(crate) fn seeded(items: VecDeque<T>, capacity: usize) -> (c: Self)
        requires
            items@.len() <= capacity,
        ensures
            c.wf(),
            c@ == (ConduitView::<T> {
                queue: items@,
                capacity: capacity as nat,
                sender_open: true,
                receiver_open: true,
            }),
    {
        Conduit { queue: items, capacity, sender_open: true, receiver_open: true }
    }

    /// Hands `item` to the conduit, or gets it back with the reason.
    pub fn send(&mut self, item: T) -> (r: Result<(), SendError<T>>)
        requires
            old(self).wf(),
        ensures
            final(self).wf(),
            r == old(self)@.send_result(item),
            final(self)@ == old(self)@.after_send(item),
    {
        if !self.receiver_open {
            Err(SendError::Closed(item))
        } else if self.queue.len() >= self.capacity {
            Err(SendError::Full(item))
        } else {
            self.queue.push_back(item);
            Ok(())
        }
    }

    /// Takes the oldest item. `Ok(None)` says that a blocking caller has to
    /// wait; `Err` says that waiting is pointless.
    pub fn recv(&mut self) -> (r: Result<Option<T>, ChannelClosed>)
        requires
            old(self).wf(),
        ensures
            final(self).wf(),
            r == old(self)@.recv_result(),
            final(self)@ == old(self)@.after_recv(),
    {
        match self.queue.pop_front() {
            Some(item) => Ok(Some(item)),
            None => {
                if self.sender_open {
                    Ok(None)
                } else {
                    Err(ChannelClosed)
                }
            },
        }
    }

    /// Drops the sending endpoint.
    pub fn close_sender(&mut self)
        requires
            old(self).wf(),
        ensures
            final(self).wf(),
            final(self)@ == old(self)@.after_close_sender(),
    {
        self.sender_open = false;
    }

    /// Drops the receiving endpoint.
    pub fn close_receiver(&mut self)
        requires
            old(self).wf(),
        ensures
            final(self).wf(),
            final(self)@ == old(self)@.after_close_receiver(),
    {
        self.receiver_open = false;
    }

    /// The number of items waiting.
    pub fn len(&self) -> (n: usize)
        requires
            self.wf(),
        ensures
            n == self@.queue.len(),
    {
        self.queue.len()
    }

    /// The number of items the conduit was made for.
    pub fn capacity(&self) -> (n: usize)
        ensures
            n == self@.capacity,
    {
        self.capacity
    }

    /// Whether the sending endpoint is still there.
    pub fn sender_open(&self) -> (b: bool)
        ensures
            b == self@.sender_open,
    {
        self.sender_open
    }

    /// Whether the receiving endpoint is still there.
    pub fn receiver_open(&self) -> (b: bool)
        ensures
            b == self@.receiver_open,
    {
        self.receiver_open
    }
}

} // verus!

//! The result channel: many producer handles, one receiver, and the ports
//! that were sent and not yet received.
//!
//! The channel counts its producer handles. While one is left, a receiver
//! that finds nothing pending has to wait; once the last is released and
//! nothing is pending, the channel is disconnected and a drain ends.

use std::collections::VecDeque;
use vstd::prelude::*;

verus! {

/// What a channel is, to its users: the number of live producer handles,
/// whether the receiver is still there, and the ports in flight, oldest first.
pub struct ChannelView {
    pub producers: nat,
    pub receiver: bool,
    pub pending: Seq<u16>,
}

/// What the receiver finds when it looks into the channel.
#[derive(Clone, Copy, Debug, PartialEq, Eq, Structural)]
pub enum Received {
    /// The oldest pending port, which has left the channel.
    Port(u16),
    /// Nothing is pending, but a producer handle is still held.
    Empty,
    /// Nothing is pending and nothing will come.
    Disconnected,
}

/// Why the channel refused an operation.
#[derive(Clone, Copy, Debug, PartialEq, Eq, Structural)]
pub enum ChannelError {
    /// No producer handle is held, so none can be cloned, used or released.
    NoProducer,
    /// The receiver is gone, so a port sent now would never arrive.
    ReceiverGone,
    /// The count of producer handles cannot grow any further.
    HandleLimit,
}

impl ChannelView {
    /// A channel is disconnected for its receiver when nothing is pending and
    /// no producer handle is left.
    pub open spec fn drained(self) -> bool {
        self.pending.len() == 0 && self.producers == 0
    }

    /// What the receiver finds.
    pub open spec fn recv_result(self) -> Received {
        if !self.receiver {
            Received::Disconnected
        } else if self.pending.len() > 0 {
            Received::Port(self.pending[0])
        } else if self.producers > 0 {
            Received::Empty
        } else {
            Received::Disconnected
        }
    }

    /// The channel after the receiver has looked into it.
    pub open spec fn after_recv(self) -> ChannelView {
        if self.receiver && self.pending.len() > 0 {
            ChannelView { pending: self.pending.subrange(1, self.pending.len() as int), ..self }
        } else {
            self
        }
    }

    /// The outcome of sending on this channel.
    pub open spec fn send_result(self) -> Result<(), ChannelError> {
        if self.producers == 0 {
            Err(ChannelError::NoProducer)
        } else if !self.receiver {
            Err(ChannelError::ReceiverGone)
        } else {
            Ok(())
        }
    }
}

/// A multi-producer, single-receiver channel of port numbers that never
/// blocks a sender.
#[derive(Debug)]
pub struct ResultChannel {
    producers: usize,
    receiver: bool,
    queue: VecDeque<u16>,
}

impl View for ResultChannel {
    type V = ChannelView;

    closed spec fn view(&self) -> ChannelView {
        ChannelView {
            producers: self.producers as nat,
            receiver: self.receiver,
            pending: self.queue@,
        }
    }
}

impl ResultChannel {
    /// A new channel: one producer handle, the receiver, nothing pending.
    pub fn new() -> (channel: ResultChannel)
        ensures
            channel@ == (ChannelView { producers: 1, receiver: true, pending: Seq::empty() }),
    {
        ResultChannel { producers: 1, receiver: true, queue: VecDeque::new() }
    }

    /// The number of live producer handles.
    pub fn producers(&self) -> (n: usize)
        ensures
            n == self@.producers,
    {
        self.producers
    }

    /// Whether the receiver is still there.
    pub fn has_receiver(&self) -> (alive: bool)
        ensures
            alive == self@.receiver,
    {
        self.receiver
    }

    /// The number of ports sent and not yet received.
    pub fn pending(&self) -> (n: usize)
        ensures
            n == self@.pending.len(),
    {
        self.queue.len()
    }

    /// Whether nothing is pending and no producer handle is left.
    pub fn is_drained(&self) -> (drained: bool)
        ensures
            drained == self@.drained(),
    {
        self.queue.len() == 0 && self.producers == 0
    }

    /// Clones a producer handle: the count grows by one. It takes a live
    /// handle to clone one.
    pub fn clone_producer(&mut self) -> (done: Result<(), ChannelError>)
        ensures
            old(self)@.producers == 0 ==> done == Err::<(), ChannelError>(ChannelError::NoProducer),
            old(self)@.producers == usize::MAX ==> done == Err::<(), ChannelError>(
                ChannelError::HandleLimit,
            ),
            0 < old(self)@.producers < usize::MAX ==> done is Ok,
            done is Ok ==> final(self)@ == (ChannelView {
                producers: old(self)@.producers + 1,
                ..old(self)@
            }),
            done is Err ==> final(self)@ == old(self)@,
    {
        if self.producers == 0 {
            Err(ChannelError::NoProducer)
        } else if self.producers == usize::MAX {
            Err(ChannelError::HandleLimit)
        } else {
            self.producers = self.producers + 1;
            Ok(())
        }
    }

    /// Releases a producer handle: the count shrinks by one.
    pub fn release_producer(&mut self) -> (done: Result<(), ChannelError>)
        ensures
            old(self)@.producers == 0 ==> done == Err::<(), ChannelError>(ChannelError::NoProducer),
            old(self)@.producers > 0 ==> done is Ok,
            done is Ok ==> final(self)@ == (ChannelView {
                producers: (old(self)@.producers - 1) as nat,
                ..old(self)@
            }),
            done is Err ==> final(self)@ == old(self)@,
    {
        if self.producers == 0 {
            Err(ChannelError::NoProducer)
        } else {
            self.producers = self.producers - 1;
            Ok(())
        }
    }

    /// Sends `port` through a producer handle. The port joins the pending
    /// ports behind all others; the sender never waits.
    pub fn send(&mut self, port: u16) -> (done: Result<(), ChannelError>)
        ensures
            done == old(self)@.send_result(),
            done is Ok ==> final(self)@ == (ChannelView {
                pending: old(self)@.pending.push(port),
                ..old(self)@
            }),
            done is Err ==> final(self)@ == old(self)@,
    {
        if self.producers == 0 {
            Err(ChannelError::NoProducer)
        } else if !self.receiver {
            Err(ChannelError::ReceiverGone)
        } else {
            self.queue.push_back(port);
            Ok(())
        }
    }

    /// The receiver looks into the channel and takes the oldest pending port,
    /// if there is one.
    pub fn recv(&mut self) -> (found: Received)
        ensures
            found == old(self)@.recv_result(),
            final(self)@ == old(self)@.after_recv(),
    {
        if !self.receiver {
            return Received::Disconnected;
        }
        match self.queue.pop_front() {
            Some(port) => Received::Port(port),
            None => {
                if self.producers > 0 {
                    Received::Empty
                } else {
                    Received::Disconnected
                }
            },
        }
    }

    /// The receiver goes away. What is pending stays where it is and will
    /// never be received.
    pub fn drop_receiver(&mut self)
        ensures
            final(self)@ == (ChannelView { receiver: false, ..old(self)@ }),
    {
        self.receiver = false;
    }
}

} // verus!

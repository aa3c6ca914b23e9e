//! Mailboxes and the exchange that holds them.
use vstd::prelude::*;
use std::collections::VecDeque;
use crate::message::{ActorError, ControlMessage, SendEnd};

verus! {

/// What a mailbox is: the accepted messages not yet received, oldest first,
/// and whether it has stopped accepting.
pub struct MailboxView {
    pub queue: Seq<ControlMessage>,
    pub closed: bool,
}

impl MailboxView {
    /// A mailbox right after creation.
    pub open spec fn fresh() -> MailboxView {
        MailboxView { queue: Seq::empty(), closed: false }
    }

    /// The mailbox after one attempt to send `msg`. An open mailbox takes the
    /// message at the back; taking `Stop` seals it, so that nothing is ever
    /// accepted behind a `Stop`. A closed mailbox stays as it is.
    pub open spec fn send(self, msg: ControlMessage) -> MailboxView {
        if self.closed {
            self
        } else {
            MailboxView { queue: self.queue.push(msg), closed: msg.is_stop() }
        }
    }

    /// The mailbox after one sender has tried to send each of `msgs`, first
    /// to last.
    pub open spec fn send_all(self, msgs: Seq<ControlMessage>) -> MailboxView
        decreases msgs.len(),
    {
        if msgs.len() == 0 {
            self
        } else {
            self.send(msgs[0]).send_all(msgs.drop_first())
        }
    }

    /// The message that the next receive yields, if any.
    pub open spec fn front(self) -> Option<ControlMessage> {
        if self.queue.len() == 0 {
            None
        } else {
            Some(self.queue[0])
        }
    }

    /// The mailbox after one receive.
    pub open spec fn receive(self) -> MailboxView {
        if self.queue.len() == 0 {
            self
        } else {
            MailboxView { queue: self.queue.drop_first(), closed: self.closed }
        }
    }

    /// The mailbox after its consumer has gone: closed, with nothing pending.
    pub open spec fn shut(self) -> MailboxView {
        MailboxView { queue: Seq::empty(), closed: true }
    }
}

/// One actor's inbound queue of control messages.
pub struct Mailbox {
    queue: VecDeque<ControlMessage>,
    closed: bool,
}

impl View for Mailbox {
    type V = MailboxView;

    closed spec fn view(&self) -> MailboxView {
        MailboxView { queue: self.queue@, closed: self.closed }
    }
}

impl Mailbox {
    /// An open mailbox with nothing pending.
    pub fn new() -> (mb: Mailbox)
        ensures
            mb@ == MailboxView::fresh(),
    {
        Mailbox { queue: VecDeque::new(), closed: false }
    }

    /// Enqueues `msg`, or fails with `MailboxClosed` and changes nothing.
    pub fn send(&mut self, msg: ControlMessage) -> (r: Result<(), ActorError>)
        ensures
            final(self)@ == old(self)@.send(msg),
            r == (if old(self)@.closed {
                Err::<(), ActorError>(ActorError::MailboxClosed)
            } else {
                Ok::<(), ActorError>(())
            }),
    {
        if self.closed {
            return Err(ActorError::MailboxClosed);
        }
        self.queue.push_back(msg);
        self.closed = matches!(msg, ControlMessage::Stop);
        Ok(())
    }

    /// Takes the oldest pending message, or reports that none is pending.
    pub fn try_receive(&mut self) -> (r: Option<ControlMessage>)
        ensures
            r == old(self)@.front(),
            final(self)@ == old(self)@.receive(),
    {
        let r = self.queue.pop_front();
        proof {
            assert(old(self)@.queue.len() > 0 ==> self.queue@ =~= old(self)@.queue.drop_first());
        }
        r
    }

    /// Closes the mailbox and drops what is pending.
    pub fn close(&mut self)
        ensures
            final(self)@ == old(self)@.shut(),
    {
        self.queue.clear();
        self.closed = true;
    }

    /// Whether the mailbox has stopped accepting messages.
    pub fn is_closed(&self) -> (b: bool)
        ensures
            b == self@.closed,
    {
        self.closed
    }

    /// The number of messages pending.
    pub fn pending(&self) -> (n: usize)
        ensures
            n == self@.queue.len(),
    {
        self.queue.len()
    }
}

/// Whether the mailbox at address `to` exists in `net` and is open.
pub open spec fn accepts(net: Seq<MailboxView>, to: usize) -> bool {
    to < net.len() && !net[to as int].closed
}

/// `net` after one attempt to send `msg` to address `to`. An address that
/// `net` does not hold reaches nothing.
pub open spec fn deliver(net: Seq<MailboxView>, to: usize, msg: ControlMessage) -> Seq<
    MailboxView,
> {
    if to < net.len() {
        net.update(to as int, net[to as int].send(msg))
    } else {
        net
    }
}

/// The message that a receive at address `from` yields, if any.
pub open spec fn next_message(net: Seq<MailboxView>, from: usize) -> Option<ControlMessage> {
    if from < net.len() {
        net[from as int].front()
    } else {
        None
    }
}

/// `net` after one receive at address `from`.
pub open spec fn after_receive(net: Seq<MailboxView>, from: usize) -> Seq<MailboxView> {
    if from < net.len() {
        net.update(from as int, net[from as int].receive())
    } else {
        net
    }
}

/// `net` after the consumer at address `from` has closed its mailbox.
pub open spec fn after_close(net: Seq<MailboxView>, from: usize) -> Seq<MailboxView> {
    if from < net.len() {
        net.update(from as int, net[from as int].shut())
    } else {
        net
    }
}

/// The consumer side of a mailbox. Only `Exchange::create` makes one, and
/// it cannot be copied: each mailbox has one consumer, the loop of the actor
/// that owns it.
#[derive(Debug)]
pub struct ReceiveEnd {
    source: usize,
}

impl ReceiveEnd {
    /// The address of the mailbox that this end receives from.
    pub closed spec fn address(&self) -> usize {
        self.source
    }

    /// The address of the mailbox that this end receives from.
    pub fn get_address(&self) -> (at: usize)
        ensures
            at == self.address(),
    {
        self.source
    }
}

/// All the mailboxes of one system, each under the address that its
/// send-ends carry.
pub struct Exchange {
    boxes: Vec<Mailbox>,
}

impl View for Exchange {
    type V = Seq<MailboxView>;

    closed spec fn view(&self) -> Seq<MailboxView> {
        Seq::new(self.boxes@.len(), |i: int| self.boxes@[i]@)
    }
}

impl Exchange {
    /// An exchange without mailboxes.
    pub fn new() -> (net: Exchange)
        ensures
            net@ == Seq::<MailboxView>::empty(),
    {
        let net = Exchange { boxes: Vec::new() };
        proof {
            assert(net@ =~= Seq::<MailboxView>::empty());
        }
        net
    }

    /// The number of mailboxes ever created here.
    pub fn len(&self) -> (n: usize)
        ensures
            n == self@.len(),
    {
        self.boxes.len()
    }

    /// Creates a fresh mailbox under the next free address and returns its
    /// two ends.
    pub fn create(&mut self) -> (ends: (ReceiveEnd, SendEnd))
        ensures
            final(self)@ == old(self)@.push(MailboxView::fresh()),
            ends.0.address() == old(self)@.len(),
            ends.1.target == old(self)@.len(),
    {
        let at = self.boxes.len();
        self.boxes.push(Mailbox::new());
        proof {
            assert(self@ =~= old(self)@.push(MailboxView::fresh()));
        }
        (ReceiveEnd { source: at }, SendEnd { target: at })
    }

    /// Sends `msg` to the mailbox that `to` addresses. Fails with
    /// `MailboxClosed`, changing nothing, when that mailbox is closed or
    /// does not exist.
    pub fn send(&mut self, to: SendEnd, msg: ControlMessage) -> (r: Result<(), ActorError>)
        ensures
            final(self)@ == deliver(old(self)@, to.target, msg),
            r == (if accepts(old(self)@, to.target) {
                Ok::<(), ActorError>(())
            } else {
                Err::<(), ActorError>(ActorError::MailboxClosed)
            }),
    {
        if to.target >= self.boxes.len() {
            return Err(ActorError::MailboxClosed);
        }
        let r = self.boxes[to.target].send(msg);
        proof {
            assert(self@ =~= deliver(old(self)@, to.target, msg));
        }
        r
    }

    /// Takes the oldest pending message of the mailbox that `from` owns, or
    /// reports that none is pending.
    pub fn try_receive(&mut self, from: &ReceiveEnd) -> (r: Option<ControlMessage>)
        ensures
            r == next_message(old(self)@, from.address()),
            final(self)@ == after_receive(old(self)@, from.address()),
    {
        if from.source >= self.boxes.len() {
            return None;
        }
        let r = self.boxes[from.source].try_receive();
        proof {
            assert(self@ =~= after_receive(old(self)@, from.address()));
        }
        r
    }

    /// Closes the mailbox that `from` owns and drops what is pending in it.
    pub fn close(&mut self, from: &ReceiveEnd)
        ensures
            final(self)@ == after_close(old(self)@, from.address()),
    {
        if from.source < self.boxes.len() {
            self.boxes[from.source].close();
        }
        proof {
            assert(self@ =~= after_close(old(self)@, from.address()));
        }
    }

    /// Whether a send to `to` would be accepted now.
    pub fn is_open(&self, to: SendEnd) -> (b: bool)
        ensures
            b == accepts(self@, to.target),
    {
        to.target < self.boxes.len() && !self.boxes[to.target].is_closed()
    }

    /// The number of messages pending at `to`; zero where no mailbox is.
    pub fn pending(&self, to: SendEnd) -> (n: usize)
        ensures
            n == (if to.target < self@.len() {
                self@[to.target as int].queue.len()
            } else {
                0
            }),
    {
        if to.target < self.boxes.len() {
            self.boxes[to.target].pending()
        } else {
            0
        }
    }
}

} // verus!

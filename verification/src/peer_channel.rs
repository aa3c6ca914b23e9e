//! The secondary channels: one queue of peer send-ends for each actor,
//! apart from its control mailbox.
use vstd::prelude::*;
use std::collections::VecDeque;
use crate::message::{ActorError, PeerSendEnd, SendEnd};

verus! {

/// The peers waiting at address `at`, oldest first; none where no channel is.
pub open spec fn peers_waiting(channels: Seq<Seq<SendEnd>>, at: usize) -> Seq<SendEnd> {
    if at < channels.len() {
        channels[at as int]
    } else {
        Seq::empty()
    }
}

/// `channels` after `peer` has been sent to address `to`. An address that
/// `channels` does not hold reaches nothing.
pub open spec fn after_peer_send(channels: Seq<Seq<SendEnd>>, to: usize, peer: SendEnd) -> Seq<
    Seq<SendEnd>,
> {
    if to < channels.len() {
        channels.update(to as int, channels[to as int].push(peer))
    } else {
        channels
    }
}

/// `channels` after the consumer at address `from` has taken all that was
/// waiting.
pub open spec fn after_peer_drain(channels: Seq<Seq<SendEnd>>, from: usize) -> Seq<Seq<SendEnd>> {
    if from < channels.len() {
        channels.update(from as int, Seq::empty())
    } else {
        channels
    }
}

/// The consumer side of a peer channel. Only `PeerExchange::create` makes
/// one, and it cannot be copied.
#[derive(Debug)]
pub struct PeerReceiveEnd {
    source: usize,
}

impl PeerReceiveEnd {
    /// The address of the channel that this end receives from.
    pub closed spec fn address(&self) -> usize {
        self.source
    }

    /// The address of the channel that this end receives from.
    pub fn get_address(&self) -> (at: usize)
        ensures
            at == self.address(),
    {
        self.source
    }
}

/// All the peer channels of one system, each under the address that its
/// send-ends carry. These addresses are apart from those of the control
/// mailboxes: nothing sent here reaches a mailbox, and no control message
/// reaches a peer channel.
pub struct PeerExchange {
    queues: Vec<VecDeque<SendEnd>>,
}

impl View for PeerExchange {
    type V = Seq<Seq<SendEnd>>;

    closed spec fn view(&self) -> Seq<Seq<SendEnd>> {
        Seq::new(self.queues@.len(), |i: int| self.queues@[i]@)
    }
}

impl PeerExchange {
    /// An exchange without channels.
    pub fn new() -> (channels: PeerExchange)
        ensures
            channels@ == Seq::<Seq<SendEnd>>::empty(),
    {
        let channels = PeerExchange { queues: Vec::new() };
        proof {
            assert(channels@ =~= Seq::<Seq<SendEnd>>::empty());
        }
        channels
    }

    /// The number of channels ever created here.
    pub fn len(&self) -> (n: usize)
        ensures
            n == self@.len(),
    {
        self.queues.len()
    }

    /// Creates an empty channel under the next free address and returns its
    /// two ends.
    pub fn create(&mut self) -> (ends: (PeerReceiveEnd, PeerSendEnd))
        ensures
            final(self)@ == old(self)@.push(Seq::<SendEnd>::empty()),
            ends.0.address() == old(self)@.len(),
            ends.1.target == old(self)@.len(),
    {
        let at = self.queues.len();
        self.queues.push(VecDeque::new());
        proof {
            assert(self@ =~= old(self)@.push(Seq::<SendEnd>::empty()));
        }
        (PeerReceiveEnd { source: at }, PeerSendEnd { target: at })
    }

    /// Puts `peer` at the back of the channel that `to` addresses. Fails
    /// with `MailboxClosed`, changing nothing, when there is no such
    /// channel.
    pub fn send(&mut self, to: PeerSendEnd, peer: SendEnd) -> (r: Result<(), ActorError>)
        ensures
            final(self)@ == after_peer_send(old(self)@, to.target, peer),
            r == (if to.target < old(self)@.len() {
                Ok::<(), ActorError>(())
            } else {
                Err::<(), ActorError>(ActorError::MailboxClosed)
            }),
    {
        if to.target >= self.queues.len() {
            return Err(ActorError::MailboxClosed);
        }
        self.queues[to.target].push_back(peer);
        proof {
            assert(self@ =~= after_peer_send(old(self)@, to.target, peer));
        }
        Ok(())
    }

    /// Takes the oldest waiting peer of the channel that `from` owns, or
    /// reports that none is waiting.
    pub fn try_receive(&mut self, from: &PeerReceiveEnd) -> (r: Option<SendEnd>)
        ensures
            r == (if peers_waiting(old(self)@, from.address()).len() > 0 {
                Some(peers_waiting(old(self)@, from.address())[0])
            } else {
                None
            }),
            final(self)@ == (if peers_waiting(old(self)@, from.address()).len() > 0 {
                old(self)@.update(
                    from.address() as int,
                    old(self)@[from.address() as int].drop_first(),
                )
            } else {
                old(self)@
            }),
    {
        if from.source >= self.queues.len() {
            return None;
        }
        let r = self.queues[from.source].pop_front();
        proof {
            if r.is_some() {
                assert(self@ =~= old(self)@.update(
                    from.address() as int,
                    old(self)@[from.address() as int].drop_first(),
                ));
            } else {
                assert(self@ =~= old(self)@);
            }
        }
        r
    }

    /// The number of peers waiting at `to`; zero where no channel is.
    pub fn pending(&self, to: PeerSendEnd) -> (n: usize)
        ensures
            n == peers_waiting(self@, to.target).len(),
    {
        if to.target < self.queues.len() {
            self.queues[to.target].len()
        } else {
            0
        }
    }
}

} // verus!

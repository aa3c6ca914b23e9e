//! The peers that an actor may notify.
use vstd::prelude::*;
use crate::mailbox::{accepts, deliver, Exchange, MailboxView};
use crate::message::{ActorError, ControlMessage, SendEnd};

verus! {

/// The mailboxes after `msg` has been sent to each of `peers` in turn.
pub open spec fn broadcast_result(
    net: Seq<MailboxView>,
    peers: Seq<SendEnd>,
    msg: ControlMessage,
) -> Seq<MailboxView>
    decreases peers.len(),
{
    if peers.len() == 0 {
        net
    } else {
        deliver(broadcast_result(net, peers.drop_last(), msg), peers.last().target, msg)
    }
}

/// The failures of that broadcast, in registry order: one for each position
/// whose peer did not accept `msg` when its turn came.
pub open spec fn broadcast_failures(
    net: Seq<MailboxView>,
    peers: Seq<SendEnd>,
    msg: ControlMessage,
) -> Seq<ActorError>
    decreases peers.len(),
{
    if peers.len() == 0 {
        Seq::empty()
    } else {
        let before = broadcast_result(net, peers.drop_last(), msg);
        let earlier = broadcast_failures(net, peers.drop_last(), msg);
        if accepts(before, peers.last().target) {
            earlier
        } else {
            earlier.push(
                ActorError::PeerDeliveryFailed {
                    position: (peers.len() - 1) as usize,
                    peer: peers.last(),
                },
            )
        }
    }
}

/// An ordered list of peer send-ends, owned and changed by one actor only.
/// The same peer may stand in it more than once.
pub struct PeerRegistry {
    peers: Vec<SendEnd>,
}

impl View for PeerRegistry {
    type V = Seq<SendEnd>;

    closed spec fn view(&self) -> Seq<SendEnd> {
        self.peers@
    }
}

impl PeerRegistry {
    /// A registry without peers.
    pub fn new() -> (reg: PeerRegistry)
        ensures
            reg@ == Seq::<SendEnd>::empty(),
    {
        PeerRegistry { peers: Vec::new() }
    }

    /// Appends `peer`.
    pub fn register(&mut self, peer: SendEnd)
        ensures
            final(self)@ == old(self)@.push(peer),
    {
        self.peers.push(peer);
    }

    /// The number of registered peers.
    pub fn len(&self) -> (n: usize)
        ensures
            n == self@.len(),
    {
        self.peers.len()
    }

    /// The peer at `position`, if there is one.
    pub fn get(&self, position: usize) -> (r: Option<SendEnd>)
        ensures
            r == (if position < self@.len() {
                Some(self@[position as int])
            } else {
                None
            }),
    {
        if position < self.peers.len() {
            Some(self.peers[position])
        } else {
            None
        }
    }

    /// Sends `msg` to every registered peer, in order. A peer that cannot be
    /// reached is reported in the result and does not keep the others from
    /// getting the message.
    pub fn broadcast(&self, msg: ControlMessage, net: &mut Exchange) -> (failed: Vec<ActorError>)
        ensures
            final(net)@ == broadcast_result(old(net)@, self@, msg),
            failed@ == broadcast_failures(old(net)@, self@, msg),
    {
        let mut failed: Vec<ActorError> = Vec::new();
        let mut i: usize = 0;
        while i < self.peers.len()
            invariant
                i <= self.peers.len(),
                net@ == broadcast_result(old(net)@, self@.take(i as int), msg),
                failed@ == broadcast_failures(old(net)@, self@.take(i as int), msg),
            decreases self.peers.len() - i,
        {
            let peer = self.peers[i];
            proof {
                assert(self@.take(i + 1).drop_last() =~= self@.take(i as int));
                assert(self@.take(i + 1).last() == peer);
            }
            match net.send(peer, msg) {
                Ok(()) => {},
                Err(_) => {
                    failed.push(ActorError::PeerDeliveryFailed { position: i, peer });
                },
            }
            i += 1;
        }
        proof {
            assert(self@.take(i as int) =~= self@);
        }
        failed
    }
}

} // verus!

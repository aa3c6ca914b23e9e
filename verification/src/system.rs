//! A set of actors with their mailboxes, and the handles by which callers
//! reach them. The caller decides which actor's loop runs next.
use vstd::prelude::*;
use crate::actor::{ActorState, ActorView, BaseActor, Behavior};
use crate::mailbox::{accepts, deliver, Exchange, MailboxView};
use crate::message::{ActorError, ControlMessage, PeerSendEnd, SendEnd};
use crate::peer_channel::{after_peer_send, PeerExchange};
use crate::registry::{broadcast_failures, broadcast_result};

verus! {

/// What a system is: its mailboxes and its peer channels, each by address,
/// and its actors in the order in which they were created.
pub struct SystemView<B> {
    pub net: Seq<MailboxView>,
    pub channels: Seq<Seq<SendEnd>>,
    pub actors: Seq<ActorView<B>>,
}

impl<B: Behavior> SystemView<B> {
    /// Every actor owns the mailbox and the peer channel under its own
    /// index, and its two send-ends lead there.
    pub open spec fn wf(self) -> bool {
        &&& self.actors.len() == self.net.len()
        &&& self.actors.len() == self.channels.len()
        &&& forall|i: int|
            0 <= i < self.actors.len() ==> (#[trigger] self.actors[i]).port == i
                && self.actors[i].recv_chan == i && self.actors[i].wf()
    }
}

/// The actors of one system and the exchanges that hold their mailboxes and
/// their peer channels.
pub struct ActorSystem<B> {
    net: Exchange,
    channels: PeerExchange,
    actors: Vec<BaseActor<B>>,
}

impl<B> View for ActorSystem<B> {
    type V = SystemView<B>;

    closed spec fn view(&self) -> SystemView<B> {
        SystemView {
            net: self.net@,
            channels: self.channels@,
            actors: Seq::new(self.actors@.len(), |i: int| self.actors@[i]@),
        }
    }
}

/// What a caller holds of a running actor: a send-end for control messages
/// and a send-end for peers, into the actor's peer channel.
#[derive(Clone, Copy, Debug, PartialEq, Eq, Structural)]
pub struct ActorHandle {
    pub chan: SendEnd,
    pub send_chan: PeerSendEnd,
}

impl<B: Behavior> ActorSystem<B> {
    /// A system without actors. Every system made here and changed through
    /// the functions of this module is well-formed.
    pub fn new() -> (system: ActorSystem<B>)
        ensures
            system@.net == Seq::<MailboxView>::empty(),
            system@.channels == Seq::<Seq<SendEnd>>::empty(),
            system@.actors == Seq::<ActorView<B>>::empty(),
            system@.wf(),
    {
        let system = ActorSystem {
            net: Exchange::new(),
            channels: PeerExchange::new(),
            actors: Vec::new(),
        };
        proof {
            assert(system@.actors =~= Seq::<ActorView<B>>::empty());
        }
        system
    }

    /// The number of actors ever created here.
    pub fn len(&self) -> (n: usize)
        ensures
            n == self@.actors.len(),
    {
        self.actors.len()
    }

    /// The mailboxes of the system.
    pub fn exchange(&self) -> (net: &Exchange)
        ensures
            net@ == self@.net,
    {
        &self.net
    }

    /// The peer channels of the system.
    pub fn peer_exchange(&self) -> (channels: &PeerExchange)
        ensures
            channels@ == self@.channels,
    {
        &self.channels
    }

    /// The state of the actor at `actor`, if there is one.
    pub fn state_of(&self, actor: usize) -> (state: Option<ActorState>)
        ensures
            state == (if actor < self@.actors.len() {
                Some(self@.actors[actor as int].state)
            } else {
                None
            }),
    {
        if actor < self.actors.len() {
            Some(self.actors[actor].get_state())
        } else {
            None
        }
    }

    /// The behavior of the actor at `actor`, if there is one.
    pub fn behavior_of(&self, actor: usize) -> (behavior: Option<&B>)
        ensures
            behavior == (if actor < self@.actors.len() {
                Some(&self@.actors[actor as int].behavior)
            } else {
                None
            }),
    {
        if actor < self.actors.len() {
            Some(self.actors[actor].get_behavior())
        } else {
            None
        }
    }

    /// The number of peers that the actor at `actor` has registered; zero
    /// where there is no such actor.
    pub fn peer_count(&self, actor: usize) -> (n: usize)
        ensures
            n == (if actor < self@.actors.len() {
                self@.actors[actor as int].peers.len()
            } else {
                0
            }),
    {
        if actor < self.actors.len() {
            self.actors[actor].peers().len()
        } else {
            0
        }
    }

    /// The peer that the actor at `actor` registered at `position`, if both
    /// exist.
    pub fn peer_of(&self, actor: usize, position: usize) -> (peer: Option<SendEnd>)
        ensures
            peer == (if actor < self@.actors.len() && position
                < self@.actors[actor as int].peers.len() {
                Some(self@.actors[actor as int].peers[position as int])
            } else {
                None
            }),
    {
        if actor < self.actors.len() {
            self.actors[actor].peers().get(position)
        } else {
            None
        }
    }

    /// Lets the actor at `actor` run one iteration of its loop. Returns
    /// whether it interpreted a message. No other actor and no other mailbox
    /// changes.
    pub fn step(&mut self, actor: usize) -> (handled: bool)
        ensures
            old(self)@.wf() ==> final(self)@.wf(),
            actor >= old(self)@.actors.len() ==> !handled && final(self)@ == old(self)@,
            actor < old(self)@.actors.len() ==> {
                let before = old(self)@.actors[actor as int];
                &&& handled == before.can_step(old(self)@.net)
                &&& final(self)@.actors == old(self)@.actors.update(
                    actor as int,
                    before.step(old(self)@.net, old(self)@.channels),
                )
                &&& final(self)@.net == before.step_net(old(self)@.net, old(self)@.channels)
                &&& final(self)@.channels == before.step_channels(old(self)@.channels)
            },
            final(self)@.net.len() == old(self)@.net.len(),
            final(self)@.channels.len() == old(self)@.channels.len(),
            forall|other: int|
                0 <= other < old(self)@.net.len() && old(self)@.wf() && other != actor
                    ==> final(self)@.net[other] == old(self)@.net[other]
                    && final(self)@.channels[other] == old(self)@.channels[other],
    {
        if actor >= self.actors.len() {
            return false;
        }
        let handled = self.actors[actor].listen_for_messages(&mut self.net, &mut self.channels);
        proof {
            let before = old(self)@.actors[actor as int];
            assert(self@.actors =~= old(self)@.actors.update(
                actor as int,
                before.step(old(self)@.net, old(self)@.channels),
            ));
        }
        handled
    }

    /// Lets the actor at `actor` run its loop until its mailbox is empty or
    /// it has terminated, and returns the state it is left in; `None` where
    /// there is no such actor. No other actor and no other mailbox changes.
    pub fn run(&mut self, actor: usize) -> (state: Option<ActorState>)
        ensures
            old(self)@.wf() ==> final(self)@.wf(),
            actor >= old(self)@.actors.len() ==> state.is_none() && final(self)@ == old(self)@,
            actor < old(self)@.actors.len() ==> {
                let before = old(self)@.actors[actor as int];
                &&& state == Some(before.run(old(self)@.net, old(self)@.channels).0.state)
                &&& final(self)@.actors == old(self)@.actors.update(
                    actor as int,
                    before.run(old(self)@.net, old(self)@.channels).0,
                )
                &&& final(self)@.net == before.run(old(self)@.net, old(self)@.channels).1
                &&& final(self)@.channels == before.run(old(self)@.net, old(self)@.channels).2
            },
            final(self)@.net.len() == old(self)@.net.len(),
            final(self)@.channels.len() == old(self)@.channels.len(),
            forall|other: int|
                0 <= other < old(self)@.net.len() && old(self)@.wf() && other != actor
                    ==> final(self)@.net[other] == old(self)@.net[other]
                    && final(self)@.channels[other] == old(self)@.channels[other],
    {
        if actor >= self.actors.len() {
            return None;
        }
        let state = self.actors[actor].start(&mut self.net, &mut self.channels);
        proof {
            let before = old(self)@.actors[actor as int];
            crate::laws::lemma_run_keeps_identity(before, old(self)@.net, old(self)@.channels);
            crate::laws::lemma_run_is_isolated(before, old(self)@.net, old(self)@.channels);
            assert(self@.actors =~= old(self)@.actors.update(
                actor as int,
                before.run(old(self)@.net, old(self)@.channels).0,
            ));
        }
        Some(state)
    }

    /// Sends `msg` from the actor at `actor` to each of its peers. Returns
    /// one `PeerDeliveryFailed` for each peer that could not be reached;
    /// the others have the message. No actor changes.
    pub fn broadcast_from(&mut self, actor: usize, msg: ControlMessage) -> (failed: Vec<ActorError>)
        ensures
            old(self)@.wf() ==> final(self)@.wf(),
            final(self)@.actors == old(self)@.actors,
            final(self)@.channels == old(self)@.channels,
            actor >= old(self)@.actors.len() ==> failed@.len() == 0 && final(self)@ == old(self)@,
            actor < old(self)@.actors.len() ==> {
                let peers = old(self)@.actors[actor as int].peers;
                &&& final(self)@.net == broadcast_result(old(self)@.net, peers, msg)
                &&& failed@ == broadcast_failures(old(self)@.net, peers, msg)
            },
    {
        if actor >= self.actors.len() {
            return Vec::new();
        }
        let failed = self.actors[actor].peers().broadcast(msg, &mut self.net);
        proof {
            crate::laws::lemma_broadcast_keeps_len(
                old(self)@.net,
                old(self)@.actors[actor as int].peers,
                msg,
            );
            assert(self@.actors =~= old(self)@.actors);
        }
        failed
    }
}

impl ActorHandle {
    /// Whether a peer sent through this handle would be accepted: the
    /// actor's mailbox is open and its peer channel exists.
    pub open spec fn takes_peers(self, net: Seq<MailboxView>, channels: Seq<Seq<SendEnd>>) -> bool {
        accepts(net, self.chan.target) && self.send_chan.target < channels.len()
    }

    /// Enqueues one control message in the mailbox that this handle leads
    /// to. Fails with `MailboxClosed`, and changes nothing, when that
    /// mailbox is closed.
    pub fn send_through(&self, net: &mut Exchange, msg: ControlMessage) -> (r: Result<
        (),
        ActorError,
    >)
        ensures
            final(net)@ == deliver(old(net)@, self.chan.target, msg),
            r == (if accepts(old(net)@, self.chan.target) {
                Ok::<(), ActorError>(())
            } else {
                Err::<(), ActorError>(ActorError::MailboxClosed)
            }),
    {
        net.send(self.chan, msg)
    }

    /// Puts one peer on the peer channel that this handle leads to, behind
    /// those already waiting. Fails with `MailboxClosed`, and changes
    /// nothing, when the actor's mailbox is closed.
    pub fn send_peer_through(
        &self,
        net: &Exchange,
        channels: &mut PeerExchange,
        peer: SendEnd,
    ) -> (r: Result<(), ActorError>)
        ensures
            final(channels)@ == (if self.takes_peers(net@, old(channels)@) {
                after_peer_send(old(channels)@, self.send_chan.target, peer)
            } else {
                old(channels)@
            }),
            r == (if self.takes_peers(net@, old(channels)@) {
                Ok::<(), ActorError>(())
            } else {
                Err::<(), ActorError>(ActorError::MailboxClosed)
            }),
    {
        if !net.is_open(self.chan) {
            return Err(ActorError::MailboxClosed);
        }
        channels.send(self.send_chan, peer)
    }

    /// Enqueues one control message for the actor behind this handle.
    /// Fails with `MailboxClosed`, and changes nothing, when the actor's
    /// mailbox is closed.
    pub fn send<B: Behavior>(&self, system: &mut ActorSystem<B>, msg: ControlMessage) -> (r: Result<
        (),
        ActorError,
    >)
        ensures
            final(system)@.actors == old(system)@.actors,
            final(system)@.channels == old(system)@.channels,
            final(system)@.net == deliver(old(system)@.net, self.chan.target, msg),
            r == (if accepts(old(system)@.net, self.chan.target) {
                Ok::<(), ActorError>(())
            } else {
                Err::<(), ActorError>(ActorError::MailboxClosed)
            }),
            old(system)@.wf() ==> final(system)@.wf(),
    {
        let r = self.send_through(&mut system.net, msg);
        proof {
            assert(system@.actors =~= old(system)@.actors);
        }
        r
    }

    /// Sends one peer to the actor behind this handle: the peer waits on
    /// the actor's peer channel, behind those already waiting, until the
    /// actor's loop takes it into the registry. No mailbox changes. Fails
    /// with `MailboxClosed`, and changes nothing, when the actor's mailbox
    /// is closed.
    pub fn send_peer<B: Behavior>(&self, system: &mut ActorSystem<B>, peer: SendEnd) -> (r: Result<
        (),
        ActorError,
    >)
        ensures
            final(system)@.actors == old(system)@.actors,
            final(system)@.net == old(system)@.net,
            final(system)@.channels == (if self.takes_peers(
                old(system)@.net,
                old(system)@.channels,
            ) {
                after_peer_send(old(system)@.channels, self.send_chan.target, peer)
            } else {
                old(system)@.channels
            }),
            r == (if self.takes_peers(old(system)@.net, old(system)@.channels) {
                Ok::<(), ActorError>(())
            } else {
                Err::<(), ActorError>(ActorError::MailboxClosed)
            }),
            old(system)@.wf() ==> final(system)@.wf(),
    {
        let r = self.send_peer_through(&system.net, &mut system.channels, peer);
        proof {
            assert(system@.actors =~= old(system)@.actors);
        }
        r
    }
}

/// Creates an idle actor around `behavior` in `system`, with a fresh open
/// mailbox, an empty peer channel and no peers, and returns the handle that
/// reaches it. The actor
/// itself stays inside the system.
pub fn create_actor<B: Behavior>(system: &mut ActorSystem<B>, behavior: B) -> (handle: ActorHandle)
    ensures
        old(system)@.wf() ==> final(system)@.wf(),
        handle.chan.target == old(system)@.net.len(),
        handle.send_chan.target == old(system)@.channels.len(),
        final(system)@.net == old(system)@.net.push(MailboxView::fresh()),
        final(system)@.channels == old(system)@.channels.push(Seq::<SendEnd>::empty()),
        final(system)@.actors == old(system)@.actors.push(
            ActorView {
                port: handle.chan.target,
                recv_chan: handle.send_chan.target,
                chan: handle.chan,
                send_chan: handle.send_chan,
                peers: Seq::<SendEnd>::empty(),
                behavior: behavior,
                state: ActorState::Idle,
            },
        ),
{
    let (actor, chan, send_chan) = BaseActor::new(
        &mut system.net,
        &mut system.channels,
        behavior,
    );
    system.actors.push(actor);
    proof {
        assert(system@.actors =~= old(system)@.actors.push(actor@));
    }
    ActorHandle { chan, send_chan }
}

} // verus!

//! The actor itself: user behavior, peer registry and the dispatch state
//! machine that interprets control messages.
use vstd::prelude::*;
use crate::mailbox::{
    after_close, after_receive, next_message, Exchange, MailboxView, ReceiveEnd,
};
use crate::peer_channel::{after_peer_drain, peers_waiting, PeerExchange, PeerReceiveEnd};
use crate::message::{ControlMessage, HookFailure, PeerSendEnd, SendEnd};
use crate::registry::PeerRegistry;

verus! {

/// Where an actor's dispatch loop stands.
#[derive(Clone, Copy, Debug, PartialEq, Eq, Structural)]
pub enum ActorState {
    /// No message is being interpreted.
    Idle,
    /// A message has been taken and its handling has not finished.
    Dispatching,
    /// The loop has exited for good.
    Terminated,
}

/// What one hook call leaves behind: the behavior and the peers as the hook
/// left them, and whether it succeeded.
pub struct HookOutcome<B> {
    pub behavior: B,
    pub peers: Seq<SendEnd>,
    pub ok: bool,
}

/// The user's part of an actor. Both hooks run inside the actor's own loop,
/// may change the behavior's state and the actor's peers, and must return:
/// the loop has no timeout, so a hook that does not return starves the
/// actor's mailbox. An implementation says with the two spec functions what
/// its hooks do, and the contracts of the loop are stated over them.
pub trait Behavior: Sized {
    /// The outcome of `execute` on this behavior and these peers.
    spec fn execute_spec(self, peers: Seq<SendEnd>) -> HookOutcome<Self>;

    /// The outcome of `on_receive` on this behavior and these peers.
    spec fn on_receive_spec(self, peers: Seq<SendEnd>) -> HookOutcome<Self>;

    /// Called for each `Execute` message.
    fn execute(&mut self, peers: &mut PeerRegistry) -> (r: Result<(), HookFailure>)
        ensures
            *final(self) == old(self).execute_spec(old(peers)@).behavior,
            final(peers)@ == old(self).execute_spec(old(peers)@).peers,
            r.is_ok() == old(self).execute_spec(old(peers)@).ok,
    ;

    /// Called after `execute` has succeeded.
    fn on_receive(&mut self, peers: &mut PeerRegistry) -> (r: Result<(), HookFailure>)
        ensures
            *final(self) == old(self).on_receive_spec(old(peers)@).behavior,
            final(peers)@ == old(self).on_receive_spec(old(peers)@).peers,
            r.is_ok() == old(self).on_receive_spec(old(peers)@).ok,
    ;
}

/// What an actor is: the address of its mailbox, the address of its peer
/// channel, the two send-ends it hands out, its peers in registration order,
/// its behavior and its state.
pub struct ActorView<B> {
    pub port: usize,
    pub recv_chan: usize,
    pub chan: SendEnd,
    pub send_chan: PeerSendEnd,
    pub peers: Seq<SendEnd>,
    pub behavior: B,
    pub state: ActorState,
}

impl<B: Behavior> ActorView<B> {
    /// The control send-end leads to the actor's mailbox and the peer
    /// send-end to its peer channel.
    pub open spec fn wf(self) -> bool {
        self.chan.target == self.port && self.send_chan.target == self.recv_chan
    }

    /// The actor after it has taken the peers `waiting` on its peer channel
    /// into its registry, oldest first. A terminated actor takes none.
    pub open spec fn absorb(self, waiting: Seq<SendEnd>) -> ActorView<B> {
        if self.state == ActorState::Terminated {
            self
        } else {
            ActorView { peers: self.peers + waiting, ..self }
        }
    }

    /// The actor after it has interpreted `msg`. A terminated actor
    /// interprets nothing. `Execute` runs `execute` and then, if that
    /// succeeded, `on_receive`; a failing hook terminates the actor.
    pub open spec fn dispatch(self, msg: ControlMessage) -> ActorView<B> {
        if self.state == ActorState::Terminated {
            self
        } else {
            match msg {
                ControlMessage::Execute => {
                    let run = self.behavior.execute_spec(self.peers);
                    if !run.ok {
                        ActorView {
                            behavior: run.behavior,
                            peers: run.peers,
                            state: ActorState::Terminated,
                            ..self
                        }
                    } else {
                        let note = run.behavior.on_receive_spec(run.peers);
                        ActorView {
                            behavior: note.behavior,
                            peers: note.peers,
                            state: if note.ok {
                                ActorState::Idle
                            } else {
                                ActorState::Terminated
                            },
                            ..self
                        }
                    }
                },
                ControlMessage::RegisterPeer { peer } => ActorView {
                    peers: self.peers.push(peer),
                    state: ActorState::Idle,
                    ..self
                },
                ControlMessage::Stop => ActorView { state: ActorState::Terminated, ..self },
            }
        }
    }

    /// The actor after it has interpreted each of `msgs`, first to last.
    pub open spec fn dispatch_all(self, msgs: Seq<ControlMessage>) -> ActorView<B>
        decreases msgs.len(),
    {
        if msgs.len() == 0 {
            self
        } else {
            self.dispatch(msgs[0]).dispatch_all(msgs.drop_first())
        }
    }

    /// Whether one iteration of the loop has a message to interpret.
    pub open spec fn can_step(self, net: Seq<MailboxView>) -> bool {
        self.state != ActorState::Terminated && next_message(net, self.port).is_some()
    }

    /// The actor at the start of an iteration: it has taken all that waits
    /// on its peer channel into its registry.
    pub open spec fn polled(self, channels: Seq<Seq<SendEnd>>) -> ActorView<B> {
        self.absorb(peers_waiting(channels, self.recv_chan))
    }

    /// The actor after one iteration of its loop: first it takes the waiting
    /// peers, then it interprets the next control message, if one is
    /// pending.
    pub open spec fn step(self, net: Seq<MailboxView>, channels: Seq<Seq<SendEnd>>) -> ActorView<
        B,
    > {
        if self.can_step(net) {
            self.polled(channels).dispatch(next_message(net, self.port).unwrap())
        } else {
            self.polled(channels)
        }
    }

    /// The mailboxes after that iteration: the message is gone from the
    /// actor's mailbox, and if the actor terminated, the mailbox is closed.
    pub open spec fn step_net(self, net: Seq<MailboxView>, channels: Seq<Seq<SendEnd>>) -> Seq<
        MailboxView,
    > {
        if self.can_step(net) {
            if self.step(net, channels).state == ActorState::Terminated {
                after_close(net, self.port)
            } else {
                after_receive(net, self.port)
            }
        } else {
            net
        }
    }

    /// The peer channels after that iteration: the actor's own is empty,
    /// unless the actor had terminated before.
    pub open spec fn step_channels(self, channels: Seq<Seq<SendEnd>>) -> Seq<Seq<SendEnd>> {
        if self.state == ActorState::Terminated {
            channels
        } else {
            after_peer_drain(channels, self.recv_chan)
        }
    }

    /// The actor, the mailboxes and the peer channels after the loop has run
    /// until it would have to wait or has terminated.
    pub open spec fn run(self, net: Seq<MailboxView>, channels: Seq<Seq<SendEnd>>) -> (
        ActorView<B>,
        Seq<MailboxView>,
        Seq<Seq<SendEnd>>,
    )
        decreases pending_at(net, self.port).len(),
    {
        if self.can_step(net) {
            self.step(net, channels).run(
                self.step_net(net, channels),
                self.step_channels(channels),
            )
        } else {
            (self.step(net, channels), net, self.step_channels(channels))
        }
    }
}

/// The messages pending at address `port`, oldest first.
pub open spec fn pending_at(net: Seq<MailboxView>, port: usize) -> Seq<ControlMessage> {
    if port < net.len() {
        net[port as int].queue
    } else {
        Seq::empty()
    }
}

/// One actor: the receive-ends of its mailbox and of its peer channel, a
/// peer registry and a behavior, driven by control messages.
pub struct BaseActor<B> {
    receiver: PeerRegistry,
    port: ReceiveEnd,
    recv_chan: PeerReceiveEnd,
    chan: SendEnd,
    send_chan: PeerSendEnd,
    behavior: B,
    state: ActorState,
}

impl<B> View for BaseActor<B> {
    type V = ActorView<B>;

    closed spec fn view(&self) -> ActorView<B> {
        ActorView {
            port: self.port.address(),
            recv_chan: self.recv_chan.address(),
            chan: self.chan,
            send_chan: self.send_chan,
            peers: self.receiver@,
            behavior: self.behavior,
            state: self.state,
        }
    }
}

impl<B: Behavior> BaseActor<B> {
    /// Creates an idle actor around `behavior`, with a fresh mailbox in
    /// `net`, a fresh peer channel in `channels` and no peers. Returns the
    /// actor, a send-end for control messages and a send-end for peers.
    pub fn new(net: &mut Exchange, channels: &mut PeerExchange, behavior: B) -> (made: (
        BaseActor<B>,
        SendEnd,
        PeerSendEnd,
    ))
        ensures
            final(net)@ == old(net)@.push(MailboxView::fresh()),
            final(channels)@ == old(channels)@.push(Seq::<SendEnd>::empty()),
            made.1.target == old(net)@.len(),
            made.2.target == old(channels)@.len(),
            made.0@ == (ActorView {
                port: made.1.target,
                recv_chan: made.2.target,
                chan: made.1,
                send_chan: made.2,
                peers: Seq::<SendEnd>::empty(),
                behavior: behavior,
                state: ActorState::Idle,
            }),
            made.0@.wf(),
    {
        let (port, chan) = net.create();
        let (recv_chan, send_chan) = channels.create();
        let actor = BaseActor {
            receiver: PeerRegistry::new(),
            port,
            recv_chan,
            chan,
            send_chan,
            behavior,
            state: ActorState::Idle,
        };
        (actor, chan, send_chan)
    }

    /// The receive-end of the actor's mailbox.
    pub fn get_port(&self) -> (port: &ReceiveEnd)
        ensures
            port.address() == self@.port,
    {
        &self.port
    }

    /// The receive-end of the actor's peer channel, on which peers sent to
    /// the actor wait. No control message arrives on it.
    pub fn get_recv_chan(&self) -> (port: &PeerReceiveEnd)
        ensures
            port.address() == self@.recv_chan,
    {
        &self.recv_chan
    }

    /// A send-end for control messages to this actor.
    pub fn get_chan(&self) -> (chan: &SendEnd)
        ensures
            *chan == self@.chan,
    {
        &self.chan
    }

    /// A send-end for peers to this actor's peer channel.
    pub fn get_send_chan(&self) -> (chan: &PeerSendEnd)
        ensures
            *chan == self@.send_chan,
    {
        &self.send_chan
    }

    /// The actor's registry itself, for reading and for changing: what is
    /// registered through the result is the actor's from then on, and
    /// nothing else of the actor changes.
    pub fn get_receiver(&mut self) -> (peers: &mut PeerRegistry)
        ensures
            peers@ == old(self)@.peers,
            final(self)@ == (ActorView { peers: final(peers)@, ..old(self)@ }),
    {
        &mut self.receiver
    }

    /// The actor's peers, for reading.
    pub fn peers(&self) -> (peers: &PeerRegistry)
        ensures
            peers@ == self@.peers,
    {
        &self.receiver
    }

    /// The behavior that the actor runs.
    pub fn get_behavior(&self) -> (behavior: &B)
        ensures
            *behavior == self@.behavior,
    {
        &self.behavior
    }

    /// Where the dispatch loop stands.
    pub fn get_state(&self) -> (state: ActorState)
        ensures
            state == self@.state,
    {
        self.state
    }

    /// Adds a peer, so that the actor can notify it.
    pub fn add_receiver(&mut self, a: &SendEnd)
        ensures
            final(self)@ == (ActorView { peers: old(self)@.peers.push(*a), ..old(self)@ }),
    {
        self.receiver.register(*a);
    }

    /// Interprets one control message and returns the state that this
    /// leaves the actor in. The mailbox is not touched: a caller that feeds
    /// messages in this way closes the mailbox itself once the actor has
    /// terminated, as `listen_for_messages` does.
    pub fn dispatch(&mut self, msg: ControlMessage) -> (state: ActorState)
        ensures
            final(self)@ == old(self)@.dispatch(msg),
            state == final(self)@.state,
    {
        if self.state == ActorState::Terminated {
            return ActorState::Terminated;
        }
        self.state = ActorState::Dispatching;
        match msg {
            ControlMessage::Execute => {
                match self.behavior.execute(&mut self.receiver) {
                    Err(_) => {
                        self.state = ActorState::Terminated;
                    },
                    Ok(()) => {
                        match self.behavior.on_receive(&mut self.receiver) {
                            Err(_) => {
                                self.state = ActorState::Terminated;
                            },
                            Ok(()) => {
                                self.state = ActorState::Idle;
                            },
                        }
                    },
                }
            },
            ControlMessage::RegisterPeer { peer } => {
                self.receiver.register(peer);
                self.state = ActorState::Idle;
            },
            ControlMessage::Stop => {
                self.state = ActorState::Terminated;
            },
        }
        self.state
    }

    /// The first part of an iteration, which needs the channels: takes all
    /// that waits on the actor's peer channel into the registry, oldest
    /// first, then takes the next control message from the mailbox, if one
    /// is pending. A terminated actor takes nothing.
    pub fn poll(&mut self, net: &mut Exchange, channels: &mut PeerExchange) -> (next: Option<
        ControlMessage,
    >)
        ensures
            final(self)@ == old(self)@.polled(old(channels)@),
            final(channels)@ == old(self)@.step_channels(old(channels)@),
            next == (if old(self)@.can_step(old(net)@) {
                next_message(old(net)@, old(self)@.port)
            } else {
                None
            }),
            final(net)@ == (if old(self)@.can_step(old(net)@) {
                after_receive(old(net)@, old(self)@.port)
            } else {
                old(net)@
            }),
    {
        if self.state == ActorState::Terminated {
            return None;
        }
        let mut more = true;
        while more
            invariant
                self@ == (ActorView { peers: self@.peers, ..old(self)@ }),
                self@.peers + peers_waiting(channels@, self@.recv_chan) == old(self)@.peers
                    + peers_waiting(old(channels)@, self@.recv_chan),
                channels@.len() == old(channels)@.len(),
                forall|other: int|
                    0 <= other < channels@.len() && other != self@.recv_chan ==> channels@[other]
                        == old(channels)@[other],
                !more ==> peers_waiting(channels@, self@.recv_chan).len() == 0,
            decreases
                    peers_waiting(channels@, self@.recv_chan).len() + (if more {
                        1nat
                    } else {
                        0nat
                    }),
        {
            let ghost before = self@.peers;
            let ghost waiting = peers_waiting(channels@, self@.recv_chan);
            match channels.try_receive(&self.recv_chan) {
                Some(peer) => {
                    self.receiver.register(peer);
                    proof {
                        assert(before.push(peer) + waiting.drop_first() =~= before + waiting);
                    }
                },
                None => {
                    more = false;
                },
            }
        }
        proof {
            assert(self@.peers =~= old(self)@.peers + peers_waiting(
                old(channels)@,
                self@.recv_chan,
            ));
            if self@.recv_chan < channels@.len() {
                assert(channels@[self@.recv_chan as int] =~= Seq::<SendEnd>::empty());
            }
            assert(channels@ =~= after_peer_drain(old(channels)@, self@.recv_chan));
        }
        let next = net.try_receive(&self.port);
        proof {
            if next.is_none() {
                assert(net@ =~= old(net)@);
            }
        }
        next
    }

    /// The last part of an iteration, which needs the mailboxes: closes the
    /// actor's mailbox if the actor has terminated.
    pub fn retire(&self, net: &mut Exchange)
        ensures
            final(net)@ == (if self@.state == ActorState::Terminated {
                after_close(old(net)@, self@.port)
            } else {
                old(net)@
            }),
    {
        if self.state == ActorState::Terminated {
            net.close(&self.port);
        }
    }

    /// One iteration of the dispatch loop: takes the waiting peers into the
    /// registry, then takes the next message from the actor's mailbox, if
    /// one is pending, and interprets it. When that terminates the actor,
    /// its mailbox is closed. Returns whether a message was interpreted.
    pub fn listen_for_messages(&mut self, net: &mut Exchange, channels: &mut PeerExchange) -> (handled:
        bool)
        ensures
            handled == old(self)@.can_step(old(net)@),
            final(self)@ == old(self)@.step(old(net)@, old(channels)@),
            final(net)@ == old(self)@.step_net(old(net)@, old(channels)@),
            final(channels)@ == old(self)@.step_channels(old(channels)@),
    {
        match self.poll(net, channels) {
            None => false,
            Some(msg) => {
                self.dispatch(msg);
                self.retire(net);
                proof {
                    assert(after_close(after_receive(old(net)@, self@.port), self@.port)
                        =~= after_close(old(net)@, self@.port));
                }
                true
            },
        }
    }

    /// Runs the dispatch loop until the mailbox is empty, where the loop
    /// would have to wait, or until the actor has terminated.
    pub fn start(&mut self, net: &mut Exchange, channels: &mut PeerExchange) -> (state: ActorState)
        ensures
            final(self)@ == old(self)@.run(old(net)@, old(channels)@).0,
            final(net)@ == old(self)@.run(old(net)@, old(channels)@).1,
            final(channels)@ == old(self)@.run(old(net)@, old(channels)@).2,
            state == final(self)@.state,
    {
        let mut more = true;
        while more
            invariant
                self@.port == old(self)@.port,
                more ==> self@.run(net@, channels@) == old(self)@.run(old(net)@, old(channels)@),
                !more ==> (self@, net@, channels@) == old(self)@.run(old(net)@, old(channels)@),
            decreases pending_at(net@, self@.port).len() + (if more { 1nat } else { 0nat }),
        {
            more = self.listen_for_messages(net, channels);
        }
        self.state
    }
}

} // verus!

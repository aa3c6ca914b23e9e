//! What holds of mailboxes, broadcasts and dispatch loops in general.
use vstd::prelude::*;
use crate::actor::{pending_at, ActorState, ActorView, Behavior};
use crate::mailbox::{accepts, deliver, MailboxView};
use crate::message::{ActorError, ControlMessage, SendEnd};
use crate::peer_channel::{after_peer_send, peers_waiting};
use crate::registry::{broadcast_failures, broadcast_result};
use crate::system::ActorHandle;

verus! {

/// Running an actor's loop changes neither its addresses nor its send-ends,
/// and neither adds nor removes a mailbox or a peer channel.
pub proof fn lemma_run_keeps_identity<B: Behavior>(
    a: ActorView<B>,
    net: Seq<MailboxView>,
    channels: Seq<Seq<SendEnd>>,
)
    ensures
        a.run(net, channels).0.port == a.port,
        a.run(net, channels).0.recv_chan == a.recv_chan,
        a.run(net, channels).0.chan == a.chan,
        a.run(net, channels).0.send_chan == a.send_chan,
        a.run(net, channels).1.len() == net.len(),
        a.run(net, channels).2.len() == channels.len(),
    decreases pending_at(net, a.port).len(),
{
    if a.can_step(net) {
        lemma_run_keeps_identity(
            a.step(net, channels),
            a.step_net(net, channels),
            a.step_channels(channels),
        );
    }
}

/// Isolation: whatever an actor's loop does, hook failures included, every
/// mailbox but its own and every peer channel but its own is left as it was.
pub proof fn lemma_run_is_isolated<B: Behavior>(
    a: ActorView<B>,
    net: Seq<MailboxView>,
    channels: Seq<Seq<SendEnd>>,
)
    ensures
        a.run(net, channels).1.len() == net.len(),
        a.run(net, channels).2.len() == channels.len(),
        forall|other: int|
            0 <= other < net.len() && other != a.port ==> a.run(net, channels).1[other]
                == net[other],
        forall|other: int|
            0 <= other < channels.len() && other != a.recv_chan ==> a.run(net, channels).2[other]
                == channels[other],
    decreases pending_at(net, a.port).len(),
{
    if a.can_step(net) {
        let next = a.step_net(net, channels);
        let drained = a.step_channels(channels);
        lemma_run_is_isolated(a.step(net, channels), next, drained);
        assert forall|other: int| 0 <= other < net.len() && other != a.port implies a.run(
            net,
            channels,
        ).1[other] == net[other] by {
            assert(next[other] == net[other]);
        }
        assert forall|other: int| 0 <= other < channels.len() && other != a.recv_chan implies a.run(
            net,
            channels,
        ).2[other] == channels[other] by {
            assert(drained[other] == channels[other]);
        }
    }
}

/// Isolation between actors: what an actor makes of its mailbox and its
/// peer channel does not depend on whether another actor, with a mailbox
/// and a peer channel of its own, ran before it, nor on whether that one's
/// hooks failed.
pub proof fn lemma_actors_do_not_interfere<B: Behavior>(
    a: ActorView<B>,
    b: ActorView<B>,
    net: Seq<MailboxView>,
    channels: Seq<Seq<SendEnd>>,
)
    requires
        a.port != b.port,
        a.recv_chan != b.recv_chan,
    ensures
        b.run(a.run(net, channels).1, a.run(net, channels).2).0 == b.run(net, channels).0,
        pending_at(a.run(net, channels).1, b.port) == pending_at(net, b.port),
        peers_waiting(a.run(net, channels).2, b.recv_chan) == peers_waiting(
            channels,
            b.recv_chan,
        ),
{
    lemma_run_is_isolated(a, net, channels);
    lemma_run_dispatches_in_order(b, net, channels);
    lemma_run_dispatches_in_order(b, a.run(net, channels).1, a.run(net, channels).2);
}

/// A broadcast neither adds nor removes a mailbox.
pub proof fn lemma_broadcast_keeps_len(
    net: Seq<MailboxView>,
    peers: Seq<SendEnd>,
    msg: ControlMessage,
)
    ensures
        broadcast_result(net, peers, msg).len() == net.len(),
    decreases peers.len(),
{
    if peers.len() > 0 {
        lemma_broadcast_keeps_len(net, peers.drop_last(), msg);
    }
}

/// The part of `msgs` that an open mailbox accepts: all of it, or what
/// stands up to and including the first `Stop`.
pub open spec fn accepted_prefix(msgs: Seq<ControlMessage>) -> Seq<ControlMessage>
    decreases msgs.len(),
{
    if msgs.len() == 0 {
        msgs
    } else if msgs[0].is_stop() {
        seq![msgs[0]]
    } else {
        seq![msgs[0]] + accepted_prefix(msgs.drop_first())
    }
}

/// Whether `Stop` occurs nowhere in `msgs`.
pub open spec fn stop_free(msgs: Seq<ControlMessage>) -> bool {
    forall|i: int| 0 <= i < msgs.len() ==> !(#[trigger] msgs[i]).is_stop()
}

/// Whether `merged` holds the messages of `left` and of `right`, each once,
/// those of `left` in their order and those of `right` in theirs.
pub open spec fn is_interleaving(
    merged: Seq<ControlMessage>,
    left: Seq<ControlMessage>,
    right: Seq<ControlMessage>,
) -> bool
    decreases merged.len(),
{
    if merged.len() == 0 {
        left.len() == 0 && right.len() == 0
    } else {
        ||| (left.len() > 0 && left.last() == merged.last() && is_interleaving(
            merged.drop_last(),
            left.drop_last(),
            right,
        ))
        ||| (right.len() > 0 && right.last() == merged.last() && is_interleaving(
            merged.drop_last(),
            left,
            right.drop_last(),
        ))
    }
}

/// A closed mailbox refuses every message and keeps its state, however many
/// are sent.
pub proof fn lemma_closed_refuses_all(mb: MailboxView, msgs: Seq<ControlMessage>)
    requires
        mb.closed,
    ensures
        mb.send_all(msgs) == mb,
    decreases msgs.len(),
{
    if msgs.len() > 0 {
        lemma_closed_refuses_all(mb, msgs.drop_first());
    }
}

/// Close is idempotent: once `Stop` has been sent to a mailbox, whether it
/// was accepted or the mailbox was closed before, the mailbox is closed,
/// every later send is refused, and nothing is added behind the `Stop`.
pub proof fn lemma_stop_seals(mb: MailboxView, later: Seq<ControlMessage>)
    ensures
        mb.send(ControlMessage::Stop).closed,
        mb.send(ControlMessage::Stop).send_all(later) == mb.send(ControlMessage::Stop),
        forall|msg: ControlMessage| #[trigger]
            mb.send(ControlMessage::Stop).send(msg) == mb.send(ControlMessage::Stop),
{
    lemma_closed_refuses_all(mb.send(ControlMessage::Stop), later);
}

/// The same through send-ends: after `Stop` has been sent to an address,
/// no send to that address is accepted, and none changes any mailbox.
pub proof fn lemma_stop_closes_address(
    net: Seq<MailboxView>,
    to: usize,
    msg: ControlMessage,
)
    ensures
        !accepts(deliver(net, to, ControlMessage::Stop), to),
        deliver(deliver(net, to, ControlMessage::Stop), to, msg) == deliver(
            net,
            to,
            ControlMessage::Stop,
        ),
{
    let sealed = deliver(net, to, ControlMessage::Stop);
    assert(deliver(sealed, to, msg) =~= sealed);
}

/// A closed mailbox is never reopened: it stays closed through every send,
/// to it or to another address, through every broadcast, and through every
/// iteration and every run of any actor's loop. So once `Stop` has been
/// sent to an actor, each later send to it fails, whatever happens between.
pub proof fn lemma_closed_stays_closed<B: Behavior>(
    net: Seq<MailboxView>,
    to: usize,
    a: ActorView<B>,
    channels: Seq<Seq<SendEnd>>,
    other: usize,
    peers: Seq<SendEnd>,
    msg: ControlMessage,
)
    requires
        to < net.len(),
        net[to as int].closed,
    ensures
        !accepts(deliver(net, other, msg), to),
        !accepts(broadcast_result(net, peers, msg), to),
        !accepts(a.step_net(net, channels), to),
        !accepts(a.run(net, channels).1, to),
{
    lemma_broadcast_keeps_closed(net, to, peers, msg);
    lemma_run_keeps_closed(a, net, channels, to);
}

/// A broadcast leaves a closed mailbox closed.
pub proof fn lemma_broadcast_keeps_closed(
    net: Seq<MailboxView>,
    to: usize,
    peers: Seq<SendEnd>,
    msg: ControlMessage,
)
    requires
        to < net.len(),
        net[to as int].closed,
    ensures
        broadcast_result(net, peers, msg).len() == net.len(),
        broadcast_result(net, peers, msg)[to as int].closed,
    decreases peers.len(),
{
    if peers.len() > 0 {
        lemma_broadcast_keeps_closed(net, to, peers.drop_last(), msg);
    }
}

/// An actor's loop leaves a closed mailbox closed, its own included.
pub proof fn lemma_run_keeps_closed<B: Behavior>(
    a: ActorView<B>,
    net: Seq<MailboxView>,
    channels: Seq<Seq<SendEnd>>,
    to: usize,
)
    requires
        to < net.len(),
        net[to as int].closed,
    ensures
        a.run(net, channels).1.len() == net.len(),
        a.run(net, channels).1[to as int].closed,
    decreases pending_at(net, a.port).len(),
{
    if a.can_step(net) {
        lemma_run_keeps_closed(
            a.step(net, channels),
            a.step_net(net, channels),
            a.step_channels(channels),
            to,
        );
    }
}

/// Idempotent close on the peer channel: once `Stop` has been sent through
/// a handle, no peer sent through it is accepted, whatever the peer
/// channels hold.
pub proof fn lemma_stop_refuses_peers(
    handle: ActorHandle,
    net: Seq<MailboxView>,
    channels: Seq<Seq<SendEnd>>,
)
    ensures
        !handle.takes_peers(deliver(net, handle.chan.target, ControlMessage::Stop), channels),
{
}

/// FIFO per sender: an open mailbox accepts a sender's messages up to and
/// including the first `Stop`, and holds them behind what was pending, in
/// the order in which they were sent.
pub proof fn lemma_sends_queue_in_order(mb: MailboxView, msgs: Seq<ControlMessage>)
    requires
        !mb.closed,
    ensures
        mb.send_all(msgs).queue == mb.queue + accepted_prefix(msgs),
        mb.send_all(msgs).closed == !stop_free(msgs),
    decreases msgs.len(),
{
    if msgs.len() == 0 {
        assert(mb.queue + accepted_prefix(msgs) =~= mb.queue);
    } else {
        let rest = msgs.drop_first();
        if msgs[0].is_stop() {
            lemma_closed_refuses_all(mb.send(msgs[0]), rest);
            assert(mb.queue + accepted_prefix(msgs) =~= mb.queue.push(msgs[0]));
        } else {
            lemma_sends_queue_in_order(mb.send(msgs[0]), rest);
            assert(mb.queue.push(msgs[0]) + accepted_prefix(rest) =~= mb.queue + accepted_prefix(
                msgs,
            ));
            if stop_free(rest) {
                assert forall|i: int| 0 <= i < msgs.len() implies !(#[trigger] msgs[i]).is_stop() by {
                    if i > 0 {
                        assert(rest[i - 1] == msgs[i]);
                    }
                }
            } else {
                let i = choose|i: int| 0 <= i < rest.len() && (#[trigger] rest[i]).is_stop();
                assert(msgs[i + 1] == rest[i]);
            }
        }
    }
}

/// Without a `Stop` among them, all of a sender's messages are accepted.
pub proof fn lemma_stop_free_accepts_all(msgs: Seq<ControlMessage>)
    requires
        stop_free(msgs),
    ensures
        accepted_prefix(msgs) == msgs,
    decreases msgs.len(),
{
    if msgs.len() > 0 {
        let rest = msgs.drop_first();
        assert(!msgs[0].is_stop());
        assert forall|i: int| 0 <= i < rest.len() implies !(#[trigger] rest[i]).is_stop() by {
            assert(rest[i] == msgs[i + 1]);
        }
        lemma_stop_free_accepts_all(rest);
        assert(seq![msgs[0]] + rest =~= msgs);
    }
}

/// A terminated actor stays as it is, whatever it is sent.
pub proof fn lemma_terminated_absorbs<B: Behavior>(a: ActorView<B>, msgs: Seq<ControlMessage>)
    requires
        a.state == ActorState::Terminated,
    ensures
        a.dispatch_all(msgs) == a,
    decreases msgs.len(),
{
    if msgs.len() > 0 {
        lemma_terminated_absorbs(a, msgs.drop_first());
    }
}

/// FIFO processing: an actor's loop leaves the actor as taking the waiting
/// peers, oldest first, and then interpreting the pending messages one by
/// one, oldest first, leaves it.
pub proof fn lemma_run_dispatches_in_order<B: Behavior>(
    a: ActorView<B>,
    net: Seq<MailboxView>,
    channels: Seq<Seq<SendEnd>>,
)
    ensures
        a.run(net, channels).0 == a.polled(channels).dispatch_all(pending_at(net, a.port)),
    decreases pending_at(net, a.port).len(),
{
    let pending = pending_at(net, a.port);
    let ready = a.polled(channels);
    if a.can_step(net) {
        let next = a.step(net, channels);
        let rest = a.step_net(net, channels);
        let drained = a.step_channels(channels);
        lemma_run_dispatches_in_order(next, rest, drained);
        assert(peers_waiting(drained, a.recv_chan) =~= Seq::<SendEnd>::empty());
        assert(next.peers + Seq::<SendEnd>::empty() =~= next.peers);
        assert(next.polled(drained) == next);
        if next.state == ActorState::Terminated {
            lemma_terminated_absorbs(next, pending.drop_first());
            lemma_terminated_absorbs(next, pending_at(rest, next.port));
        } else {
            assert(pending_at(rest, next.port) =~= pending.drop_first());
        }
    } else if a.state == ActorState::Terminated {
        lemma_terminated_absorbs(a, pending);
    }
}

/// FIFO per sender, end to end: when one sender sends `msgs` to an actor
/// whose mailbox is open, and the actor's loop then runs, the actor is left
/// as interpreting what was pending and then the accepted messages, each in
/// the order in which it was sent, leaves it.
pub proof fn lemma_fifo_per_sender<B: Behavior>(
    a: ActorView<B>,
    net: Seq<MailboxView>,
    channels: Seq<Seq<SendEnd>>,
    msgs: Seq<ControlMessage>,
)
    requires
        a.port < net.len(),
        !net[a.port as int].closed,
    ensures
        a.run(net.update(a.port as int, net[a.port as int].send_all(msgs)), channels).0
            == a.polled(channels).dispatch_all(net[a.port as int].queue + accepted_prefix(msgs)),
{
    let mb = net[a.port as int];
    lemma_sends_queue_in_order(mb, msgs);
    lemma_run_dispatches_in_order(a, net.update(a.port as int, mb.send_all(msgs)), channels);
}

/// FIFO on the peer channel: peers sent to an actor one after the other
/// wait in the order sent, and the next iteration of the actor's loop puts
/// them into the registry in that order, behind the peers it had. No
/// mailbox holds anything of them.
pub proof fn lemma_peers_arrive_in_order<B: Behavior>(
    a: ActorView<B>,
    channels: Seq<Seq<SendEnd>>,
    first: SendEnd,
    second: SendEnd,
)
    requires
        a.recv_chan < channels.len(),
        a.state != ActorState::Terminated,
    ensures
        a.polled(
            after_peer_send(after_peer_send(channels, a.recv_chan, first), a.recv_chan, second),
        ).peers == a.peers + channels[a.recv_chan as int] + seq![first, second],
        a.step_channels(
            after_peer_send(after_peer_send(channels, a.recv_chan, first), a.recv_chan, second),
        )[a.recv_chan as int] == Seq::<SendEnd>::empty(),
{
    let sent = after_peer_send(after_peer_send(channels, a.recv_chan, first), a.recv_chan, second);
    assert(a.peers + peers_waiting(sent, a.recv_chan) =~= a.peers + channels[a.recv_chan as int]
        + seq![first, second]);
}

/// After its loop has run, an actor has terminated or its mailbox is empty;
/// if it terminated in this run, its mailbox is closed and empty, so that
/// every later send to it is refused.
pub proof fn lemma_run_drains_or_terminates<B: Behavior>(
    a: ActorView<B>,
    net: Seq<MailboxView>,
    channels: Seq<Seq<SendEnd>>,
)
    requires
        a.port < net.len(),
    ensures
        a.run(net, channels).0.state != ActorState::Terminated ==> a.run(
            net,
            channels,
        ).1[a.port as int].queue.len() == 0 && a.run(net, channels).1[a.port as int].closed
            == net[a.port as int].closed,
        a.state != ActorState::Terminated && a.run(net, channels).0.state
            == ActorState::Terminated ==> a.run(net, channels).1[a.port as int]
            == net[a.port as int].shut(),
    decreases pending_at(net, a.port).len(),
{
    if a.can_step(net) {
        lemma_run_drains_or_terminates(
            a.step(net, channels),
            a.step_net(net, channels),
            a.step_channels(channels),
        );
    }
}

/// Partial failure of a broadcast: with a reachable first peer and an
/// unreachable second one, the first gets the message, the one failure
/// reported is that of the second, and no other mailbox changes.
pub proof fn lemma_broadcast_partial_failure(
    net: Seq<MailboxView>,
    reachable: SendEnd,
    unreachable: SendEnd,
    msg: ControlMessage,
)
    requires
        accepts(net, reachable.target),
        !accepts(net, unreachable.target),
    ensures
        broadcast_result(net, seq![reachable, unreachable], msg) == deliver(
            net,
            reachable.target,
            msg,
        ),
        broadcast_failures(net, seq![reachable, unreachable], msg) == seq![
            (ActorError::PeerDeliveryFailed { position: 1, peer: unreachable }),
        ],
{
    let both = seq![reachable, unreachable];
    let first = seq![reachable];
    assert(both.drop_last() =~= first);
    assert(first.drop_last() =~= Seq::<SendEnd>::empty());
    assert(broadcast_result(net, first.drop_last(), msg) == net);
    assert(broadcast_failures(net, first.drop_last(), msg) =~= Seq::<ActorError>::empty());
    assert(broadcast_result(net, first, msg) == deliver(net, reachable.target, msg));
    assert(broadcast_failures(net, first, msg) =~= Seq::<ActorError>::empty());
    let mid = deliver(net, reachable.target, msg);
    assert(!accepts(mid, unreachable.target));
    assert(broadcast_result(net, both, msg) =~= mid);
    assert(broadcast_failures(net, both, msg) =~= seq![
        (ActorError::PeerDeliveryFailed { position: 1, peer: unreachable }),
    ]);
}

/// How often the address `to` stands in `peers`.
pub open spec fn times_registered(peers: Seq<SendEnd>, to: usize) -> nat
    decreases peers.len(),
{
    if peers.len() == 0 {
        0
    } else if peers.last().target == to {
        times_registered(peers.drop_last(), to) + 1
    } else {
        times_registered(peers.drop_last(), to)
    }
}

/// The failures of a broadcast to `peers` if each peer is judged by the
/// mailboxes as they were before the broadcast began.
pub open spec fn unreachable_peers(net: Seq<MailboxView>, peers: Seq<SendEnd>) -> Seq<ActorError>
    decreases peers.len(),
{
    if peers.len() == 0 {
        Seq::empty()
    } else if accepts(net, peers.last().target) {
        unreachable_peers(net, peers.drop_last())
    } else {
        unreachable_peers(net, peers.drop_last()).push(
            ActorError::PeerDeliveryFailed {
                position: (peers.len() - 1) as usize,
                peer: peers.last(),
            },
        )
    }
}

/// Best-effort broadcast in general, for a message other than `Stop`: the
/// peers reported as failed are exactly those that were unreachable before
/// the broadcast, at their positions; every mailbox stays as reachable as it
/// was; an open mailbox gets the message once for each time it is
/// registered, behind what was pending; a closed one gets nothing.
pub proof fn lemma_broadcast_is_best_effort(
    net: Seq<MailboxView>,
    peers: Seq<SendEnd>,
    msg: ControlMessage,
)
    requires
        !msg.is_stop(),
    ensures
        broadcast_failures(net, peers, msg) == unreachable_peers(net, peers),
        broadcast_result(net, peers, msg).len() == net.len(),
        forall|to: usize| #[trigger]
            accepts(broadcast_result(net, peers, msg), to) == accepts(net, to),
        forall|to: usize|
            to < net.len() ==> (#[trigger] broadcast_result(net, peers, msg)[to as int]).queue
                == net[to as int].queue + Seq::new(
                if net[to as int].closed {
                    0
                } else {
                    times_registered(peers, to)
                },
                |i: int| msg,
            ),
    decreases peers.len(),
{
    let after = broadcast_result(net, peers, msg);
    if peers.len() == 0 {
        assert forall|to: usize| to < net.len() implies (#[trigger] after[to as int]).queue
            == net[to as int].queue + Seq::new(
            if net[to as int].closed {
                0
            } else {
                times_registered(peers, to)
            },
            |i: int| msg,
        ) by {
            assert(net[to as int].queue + Seq::new(0, |i: int| msg) =~= net[to as int].queue);
        }
    } else {
        let earlier = peers.drop_last();
        let before = broadcast_result(net, earlier, msg);
        let last = peers.last().target;
        lemma_broadcast_is_best_effort(net, earlier, msg);
        assert(accepts(before, last) == accepts(net, last));
        assert forall|to: usize| #[trigger] accepts(after, to) == accepts(net, to) by {
            assert(accepts(before, to) == accepts(net, to));
        }
        assert forall|to: usize| to < net.len() implies (#[trigger] after[to as int]).queue
            == net[to as int].queue + Seq::new(
            if net[to as int].closed {
                0
            } else {
                times_registered(peers, to)
            },
            |i: int| msg,
        ) by {
            let was = before[to as int];
            assert(accepts(before, to) == accepts(net, to));
            let n = if net[to as int].closed {
                0
            } else {
                times_registered(earlier, to)
            };
            assert(was.queue == net[to as int].queue + Seq::new(n, |i: int| msg));
            if to == last && !net[to as int].closed {
                assert(after[to as int].queue == was.queue.push(msg));
                assert((net[to as int].queue + Seq::new(n, |i: int| msg)).push(msg)
                    =~= net[to as int].queue + Seq::new(n + 1, |i: int| msg));
            } else {
                assert(after[to as int].queue == was.queue);
            }
        }
    }
}

/// What an interleaving of two senders' messages holds: as many messages as
/// the two sent together, and each message as often as the two sent it.
pub proof fn lemma_interleaving_counts(
    merged: Seq<ControlMessage>,
    left: Seq<ControlMessage>,
    right: Seq<ControlMessage>,
)
    requires
        is_interleaving(merged, left, right),
    ensures
        merged.len() == left.len() + right.len(),
        merged.to_multiset() == left.to_multiset().add(right.to_multiset()),
    decreases merged.len(),
{
    broadcast use vstd::seq_lib::group_to_multiset_ensures;

    if merged.len() == 0 {
        assert(left =~= Seq::<ControlMessage>::empty());
        assert(right =~= Seq::<ControlMessage>::empty());
        assert(merged =~= Seq::<ControlMessage>::empty());
        assert(merged.to_multiset() =~= left.to_multiset().add(right.to_multiset()));
    } else {
        let last = merged.last();
        assert(merged =~= merged.drop_last().push(last));
        if left.len() > 0 && left.last() == last && is_interleaving(
            merged.drop_last(),
            left.drop_last(),
            right,
        ) {
            lemma_interleaving_counts(merged.drop_last(), left.drop_last(), right);
            assert(left =~= left.drop_last().push(last));
            assert(merged.to_multiset() =~= left.to_multiset().add(right.to_multiset()));
        } else {
            lemma_interleaving_counts(merged.drop_last(), left, right.drop_last());
            assert(right =~= right.drop_last().push(last));
            assert(merged.to_multiset() =~= left.to_multiset().add(right.to_multiset()));
        }
    }
}

/// Concurrent senders: when the messages of two senders, none of them
/// `Stop`, reach an actor's open mailbox in any interleaving, the mailbox
/// holds behind what was pending exactly that interleaving: every message of
/// both senders once, each sender's messages in the order in which it sent
/// them. The actor's loop then interprets them in that order.
pub proof fn lemma_concurrent_senders<B: Behavior>(
    a: ActorView<B>,
    net: Seq<MailboxView>,
    channels: Seq<Seq<SendEnd>>,
    merged: Seq<ControlMessage>,
    left: Seq<ControlMessage>,
    right: Seq<ControlMessage>,
)
    requires
        a.port < net.len(),
        !net[a.port as int].closed,
        stop_free(merged),
        is_interleaving(merged, left, right),
    ensures
        net[a.port as int].send_all(merged).queue == net[a.port as int].queue + merged,
        !net[a.port as int].send_all(merged).closed,
        merged.len() == left.len() + right.len(),
        merged.to_multiset() == left.to_multiset().add(right.to_multiset()),
        a.run(net.update(a.port as int, net[a.port as int].send_all(merged)), channels).0
            == a.polled(channels).dispatch_all(net[a.port as int].queue + merged),
{
    lemma_sends_queue_in_order(net[a.port as int], merged);
    lemma_stop_free_accepts_all(merged);
    lemma_interleaving_counts(merged, left, right);
    lemma_fifo_per_sender(a, net, channels, merged);
}

} // verus!

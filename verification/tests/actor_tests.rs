use actor_runtime::actor::{ActorState, BaseActor};
use actor_runtime::behavior::EchoBehavior;
use actor_runtime::mailbox::Exchange;
use actor_runtime::peer_channel::PeerExchange;
use actor_runtime::message::{ActorError, ControlMessage, SendEnd};
use actor_runtime::system::{create_actor, ActorSystem};

#[test]
fn new_actor_is_idle_with_open_mailbox() {
    let mut net = Exchange::new();
    let mut channels = PeerExchange::new();
    let (_, earlier) = channels.create();
    assert_eq!(earlier.target, 0);
    let (actor, chan, send_chan) = BaseActor::new(&mut net, &mut channels, EchoBehavior::new());
    assert_eq!(actor.get_state(), ActorState::Idle);
    assert_eq!(chan.target, 0);
    assert_eq!(send_chan.target, 1);
    assert_eq!(*actor.get_chan(), chan);
    assert_eq!(*actor.get_send_chan(), send_chan);
    assert_eq!(actor.get_port().get_address(), 0);
    assert_eq!(actor.get_recv_chan().get_address(), 1);
    assert_eq!(actor.peers().len(), 0);
    assert_eq!(*actor.get_behavior(), EchoBehavior { executed: 0, received: 0, limit: None });
    assert!(net.is_open(chan));
    assert_eq!(net.len(), 1);
    assert_eq!(channels.len(), 2);
    assert_eq!(channels.pending(send_chan), 0);
}

#[test]
fn peer_sent_on_the_peer_channel_is_not_in_the_mailbox() {
    let mut net = Exchange::new();
    let mut channels = PeerExchange::new();
    let (mut actor, chan, send_chan) = BaseActor::new(&mut net, &mut channels, EchoBehavior::new());
    let (_, peer, _) = BaseActor::new(&mut net, &mut channels, EchoBehavior::new());
    assert_eq!(channels.send(send_chan, peer), Ok(()));
    assert_eq!(net.pending(chan), 0);
    assert_eq!(net.try_receive(actor.get_port()), None);
    assert_eq!(channels.pending(send_chan), 1);
    assert_eq!(channels.try_receive(actor.get_recv_chan()), Some(peer));
    assert_eq!(channels.try_receive(actor.get_recv_chan()), None);
    assert!(!actor.listen_for_messages(&mut net, &mut channels));
    assert_eq!(actor.peers().len(), 0);
}

#[test]
fn control_message_is_not_on_the_peer_channel() {
    let mut net = Exchange::new();
    let mut channels = PeerExchange::new();
    let (actor, chan, send_chan) = BaseActor::new(&mut net, &mut channels, EchoBehavior::new());
    assert_eq!(net.send(chan, ControlMessage::Execute), Ok(()));
    assert_eq!(channels.pending(send_chan), 0);
    assert_eq!(channels.try_receive(actor.get_recv_chan()), None);
    assert_eq!(net.try_receive(actor.get_port()), Some(ControlMessage::Execute));
}

#[test]
fn loop_takes_waiting_peers_before_the_next_message() {
    let mut net = Exchange::new();
    let mut channels = PeerExchange::new();
    let (mut actor, chan, send_chan) = BaseActor::new(&mut net, &mut channels, EchoBehavior::new());
    assert_eq!(net.send(chan, ControlMessage::RegisterPeer { peer: SendEnd { target: 9 } }), Ok(()));
    assert_eq!(channels.send(send_chan, SendEnd { target: 4 }), Ok(()));
    assert_eq!(channels.send(send_chan, SendEnd { target: 6 }), Ok(()));
    assert!(actor.listen_for_messages(&mut net, &mut channels));
    assert_eq!(channels.pending(send_chan), 0);
    assert_eq!(actor.peers().len(), 3);
    assert_eq!(actor.peers().get(0), Some(SendEnd { target: 4 }));
    assert_eq!(actor.peers().get(1), Some(SendEnd { target: 6 }));
    assert_eq!(actor.peers().get(2), Some(SendEnd { target: 9 }));
}

#[test]
fn poll_dispatch_and_retire_make_one_iteration() {
    let mut net = Exchange::new();
    let mut channels = PeerExchange::new();
    let (mut actor, chan, send_chan) = BaseActor::new(&mut net, &mut channels, EchoBehavior::new());
    assert_eq!(channels.send(send_chan, SendEnd { target: 2 }), Ok(()));
    assert_eq!(actor.poll(&mut net, &mut channels), None);
    assert_eq!(actor.peers().get(0), Some(SendEnd { target: 2 }));
    assert_eq!(net.send(chan, ControlMessage::Stop), Ok(()));
    let next = actor.poll(&mut net, &mut channels);
    assert_eq!(next, Some(ControlMessage::Stop));
    actor.retire(&mut net);
    assert_eq!(actor.get_state(), ActorState::Idle);
    assert_eq!(actor.dispatch(ControlMessage::Stop), ActorState::Terminated);
    actor.retire(&mut net);
    assert!(!net.is_open(chan));
    assert_eq!(actor.poll(&mut net, &mut channels), None);
}

#[test]
fn terminated_actor_leaves_waiting_peers_alone() {
    let mut net = Exchange::new();
    let mut channels = PeerExchange::new();
    let (mut actor, chan, send_chan) = BaseActor::new(&mut net, &mut channels, EchoBehavior::new());
    assert_eq!(net.send(chan, ControlMessage::Stop), Ok(()));
    assert_eq!(actor.start(&mut net, &mut channels), ActorState::Terminated);
    assert_eq!(channels.send(send_chan, SendEnd { target: 2 }), Ok(()));
    assert_eq!(actor.start(&mut net, &mut channels), ActorState::Terminated);
    assert_eq!(actor.peers().len(), 0);
    assert_eq!(channels.pending(send_chan), 1);
}

#[test]
fn get_receiver_hands_out_the_registry_itself() {
    let mut net = Exchange::new();
    let mut channels = PeerExchange::new();
    let (mut actor, chan, _) = BaseActor::new(&mut net, &mut channels, EchoBehavior::new());
    assert_eq!(actor.get_receiver().len(), 0);
    actor.get_receiver().register(SendEnd { target: 5 });
    assert_eq!(actor.get_receiver().len(), 1);
    assert_eq!(actor.get_receiver().get(0), Some(SendEnd { target: 5 }));
    actor.add_receiver(&chan);
    let registry = actor.get_receiver();
    assert_eq!(registry.len(), 2);
    assert_eq!(registry.get(0), Some(SendEnd { target: 5 }));
    assert_eq!(registry.get(1), Some(chan));
    registry.register(SendEnd { target: 6 });
    assert_eq!(actor.peers().len(), 3);
    assert_eq!(actor.peers().get(2), Some(SendEnd { target: 6 }));
    assert_eq!(actor.dispatch(ControlMessage::RegisterPeer { peer: chan }), ActorState::Idle);
    assert_eq!(actor.get_receiver().len(), 4);
    assert_eq!(actor.get_receiver().get(3), Some(chan));
    assert_eq!(actor.get_state(), ActorState::Idle);
    assert_eq!(*actor.get_chan(), chan);
}

#[test]
fn add_receiver_appends() {
    let mut net = Exchange::new();
    let mut channels = PeerExchange::new();
    let (mut actor, chan, _) = BaseActor::new(&mut net, &mut channels, EchoBehavior::new());
    actor.add_receiver(&SendEnd { target: 8 });
    actor.add_receiver(&chan);
    assert_eq!(actor.peers().len(), 2);
    assert_eq!(actor.peers().get(0), Some(SendEnd { target: 8 }));
    assert_eq!(actor.peers().get(1), Some(chan));
    assert_eq!(actor.get_state(), ActorState::Idle);
}

#[test]
fn dispatch_execute_runs_both_hooks_once() {
    let mut net = Exchange::new();
    let mut channels = PeerExchange::new();
    let (mut actor, _, _) = BaseActor::new(&mut net, &mut channels, EchoBehavior::new());
    assert_eq!(actor.dispatch(ControlMessage::Execute), ActorState::Idle);
    assert_eq!(*actor.get_behavior(), EchoBehavior { executed: 1, received: 1, limit: None });
}

#[test]
fn dispatch_register_peer_appends_and_runs_no_hook() {
    let mut net = Exchange::new();
    let mut channels = PeerExchange::new();
    let (mut actor, _, _) = BaseActor::new(&mut net, &mut channels, EchoBehavior::new());
    let peer = SendEnd { target: 3 };
    assert_eq!(actor.dispatch(ControlMessage::RegisterPeer { peer }), ActorState::Idle);
    assert_eq!(actor.peers().len(), 1);
    assert_eq!(actor.peers().get(0), Some(peer));
    assert_eq!(*actor.get_behavior(), EchoBehavior { executed: 0, received: 0, limit: None });
}

#[test]
fn dispatch_stop_terminates_for_good() {
    let mut net = Exchange::new();
    let mut channels = PeerExchange::new();
    let (mut actor, _, _) = BaseActor::new(&mut net, &mut channels, EchoBehavior::new());
    assert_eq!(actor.dispatch(ControlMessage::Stop), ActorState::Terminated);
    assert_eq!(actor.dispatch(ControlMessage::Execute), ActorState::Terminated);
    assert_eq!(
        actor.dispatch(ControlMessage::RegisterPeer { peer: SendEnd { target: 1 } }),
        ActorState::Terminated
    );
    assert_eq!(actor.peers().len(), 0);
    assert_eq!(actor.get_behavior().executed, 0);
}

#[test]
fn failing_execute_terminates_and_skips_on_receive() {
    let mut net = Exchange::new();
    let mut channels = PeerExchange::new();
    let (mut actor, _, _) = BaseActor::new(&mut net, &mut channels, EchoBehavior::with_limit(1));
    assert_eq!(actor.dispatch(ControlMessage::Execute), ActorState::Idle);
    assert_eq!(actor.dispatch(ControlMessage::Execute), ActorState::Terminated);
    assert_eq!(*actor.get_behavior(), EchoBehavior { executed: 1, received: 1, limit: Some(1) });
}

#[test]
fn listen_for_messages_takes_one_message() {
    let mut net = Exchange::new();
    let mut channels = PeerExchange::new();
    let (mut actor, chan, _) = BaseActor::new(&mut net, &mut channels, EchoBehavior::new());
    assert!(!actor.listen_for_messages(&mut net, &mut channels));
    assert_eq!(net.send(chan, ControlMessage::Execute), Ok(()));
    assert_eq!(net.send(chan, ControlMessage::Execute), Ok(()));
    assert!(actor.listen_for_messages(&mut net, &mut channels));
    assert_eq!(actor.get_behavior().executed, 1);
    assert_eq!(net.pending(chan), 1);
    assert_eq!(actor.get_state(), ActorState::Idle);
}

#[test]
fn start_drains_the_mailbox_and_stays_idle() {
    let mut net = Exchange::new();
    let mut channels = PeerExchange::new();
    let (mut actor, chan, _) = BaseActor::new(&mut net, &mut channels, EchoBehavior::new());
    for _ in 0..5 {
        assert_eq!(net.send(chan, ControlMessage::Execute), Ok(()));
    }
    assert_eq!(actor.start(&mut net, &mut channels), ActorState::Idle);
    assert_eq!(actor.get_behavior().executed, 5);
    assert_eq!(actor.get_behavior().received, 5);
    assert_eq!(net.pending(chan), 0);
    assert!(net.is_open(chan));
    assert_eq!(actor.start(&mut net, &mut channels), ActorState::Idle);
    assert_eq!(actor.get_behavior().executed, 5);
}

#[test]
fn hook_failure_closes_the_mailbox_and_drops_the_rest() {
    let mut net = Exchange::new();
    let mut channels = PeerExchange::new();
    let (mut actor, chan, _) = BaseActor::new(&mut net, &mut channels, EchoBehavior::with_limit(2));
    for _ in 0..4 {
        assert_eq!(net.send(chan, ControlMessage::Execute), Ok(()));
    }
    assert_eq!(actor.start(&mut net, &mut channels), ActorState::Terminated);
    assert_eq!(actor.get_behavior().executed, 2);
    assert_eq!(net.pending(chan), 0);
    assert!(!net.is_open(chan));
    assert_eq!(net.send(chan, ControlMessage::Execute), Err(ActorError::MailboxClosed));
}

#[test]
fn echo_executes_once_then_stops() {
    let mut system: ActorSystem<EchoBehavior> = ActorSystem::new();
    let handle = create_actor(&mut system, EchoBehavior::new());
    assert_eq!(system.state_of(0), Some(ActorState::Idle));
    assert_eq!(handle.send(&mut system, ControlMessage::Execute), Ok(()));
    assert_eq!(system.run(0), Some(ActorState::Idle));
    assert_eq!(system.behavior_of(0).map(|b| b.executed), Some(1));
    assert_eq!(handle.send(&mut system, ControlMessage::Stop), Ok(()));
    assert_eq!(system.run(0), Some(ActorState::Terminated));
    assert_eq!(handle.send(&mut system, ControlMessage::Execute), Err(ActorError::MailboxClosed));
    assert_eq!(system.behavior_of(0).map(|b| b.executed), Some(1));
}

#[test]
fn messages_of_one_sender_are_processed_in_order() {
    let mut system: ActorSystem<EchoBehavior> = ActorSystem::new();
    let handle = create_actor(&mut system, EchoBehavior::new());
    let order: Vec<usize> = vec![9, 4, 7, 4, 0, 12];
    for t in order.iter() {
        let msg = ControlMessage::RegisterPeer { peer: SendEnd { target: *t } };
        assert_eq!(handle.send(&mut system, msg), Ok(()));
    }
    assert_eq!(system.run(0), Some(ActorState::Idle));
    assert_eq!(system.peer_count(0), 6);
    for (i, t) in order.iter().enumerate() {
        assert_eq!(system.peer_of(0, i), Some(SendEnd { target: *t }));
    }
    assert_eq!(system.peer_of(0, 6), None);
}

#[test]
fn peers_of_one_sender_are_registered_in_order() {
    let mut system: ActorSystem<EchoBehavior> = ActorSystem::new();
    let handle = create_actor(&mut system, EchoBehavior::new());
    let order: Vec<usize> = vec![3, 1, 3, 8];
    for t in order.iter() {
        assert_eq!(handle.send_peer(&mut system, SendEnd { target: *t }), Ok(()));
    }
    assert_eq!(system.exchange().pending(handle.chan), 0);
    assert_eq!(system.peer_exchange().pending(handle.send_chan), 4);
    assert_eq!(system.peer_count(0), 0);
    assert!(!system.step(0));
    assert_eq!(system.peer_exchange().pending(handle.send_chan), 0);
    assert_eq!(system.peer_count(0), 4);
    for (i, t) in order.iter().enumerate() {
        assert_eq!(system.peer_of(0, i), Some(SendEnd { target: *t }));
    }
}

#[test]
fn send_peer_leaves_the_mailbox_alone_and_fails_once_it_is_closed() {
    let mut system: ActorSystem<EchoBehavior> = ActorSystem::new();
    let handle = create_actor(&mut system, EchoBehavior::new());
    assert_eq!(handle.send_peer(&mut system, SendEnd { target: 1 }), Ok(()));
    assert_eq!(system.exchange().pending(handle.chan), 0);
    assert_eq!(handle.send(&mut system, ControlMessage::Stop), Ok(()));
    assert_eq!(system.exchange().pending(handle.chan), 1);
    assert_eq!(handle.send_peer(&mut system, SendEnd { target: 2 }), Err(ActorError::MailboxClosed));
    assert_eq!(system.peer_exchange().pending(handle.send_chan), 1);
    assert_eq!(system.run(0), Some(ActorState::Terminated));
    assert_eq!(system.peer_count(0), 1);
    assert_eq!(system.peer_of(0, 0), Some(SendEnd { target: 1 }));
    assert_eq!(handle.send_peer(&mut system, SendEnd { target: 2 }), Err(ActorError::MailboxClosed));
    assert_eq!(system.peer_exchange().pending(handle.send_chan), 0);
}

#[test]
fn hook_failure_in_one_actor_leaves_the_other_running() {
    let mut system: ActorSystem<EchoBehavior> = ActorSystem::new();
    let a = create_actor(&mut system, EchoBehavior::with_limit(0));
    let b = create_actor(&mut system, EchoBehavior::new());
    assert_eq!(a.send(&mut system, ControlMessage::Execute), Ok(()));
    assert_eq!(b.send(&mut system, ControlMessage::Execute), Ok(()));
    assert_eq!(system.run(0), Some(ActorState::Terminated));
    assert_eq!(system.state_of(1), Some(ActorState::Idle));
    assert_eq!(system.exchange().pending(b.chan), 1);
    assert_eq!(system.run(1), Some(ActorState::Idle));
    assert_eq!(system.behavior_of(1).map(|x| x.executed), Some(1));
    assert_eq!(b.send(&mut system, ControlMessage::Execute), Ok(()));
    assert_eq!(system.run(1), Some(ActorState::Idle));
    assert_eq!(system.behavior_of(1).map(|x| x.executed), Some(2));
    assert_eq!(a.send(&mut system, ControlMessage::Execute), Err(ActorError::MailboxClosed));
}

#[test]
fn sends_after_stop_always_fail() {
    let mut system: ActorSystem<EchoBehavior> = ActorSystem::new();
    let handle = create_actor(&mut system, EchoBehavior::new());
    assert_eq!(handle.send(&mut system, ControlMessage::Stop), Ok(()));
    // before the actor has seen the Stop
    assert_eq!(handle.send(&mut system, ControlMessage::Execute), Err(ActorError::MailboxClosed));
    assert_eq!(handle.send_peer(&mut system, handle.chan), Err(ActorError::MailboxClosed));
    assert_eq!(handle.send(&mut system, ControlMessage::Stop), Err(ActorError::MailboxClosed));
    assert_eq!(system.run(0), Some(ActorState::Terminated));
    // and after
    for _ in 0..3 {
        assert_eq!(
            handle.send(&mut system, ControlMessage::Execute),
            Err(ActorError::MailboxClosed)
        );
        assert_eq!(handle.send_peer(&mut system, handle.chan), Err(ActorError::MailboxClosed));
    }
    assert_eq!(system.run(0), Some(ActorState::Terminated));
    assert_eq!(system.behavior_of(0).map(|b| b.executed), Some(0));
    assert_eq!(system.peer_count(0), 0);
}

#[test]
fn two_senders_of_a_hundred_messages_each() {
    let mut system: ActorSystem<EchoBehavior> = ActorSystem::new();
    let first = create_actor(&mut system, EchoBehavior::new());
    let second = first.clone();
    // the two senders take turns in an uneven pattern
    let mut sent_first: usize = 0;
    let mut sent_second: usize = 0;
    let mut turn: usize = 0;
    while sent_first < 100 || sent_second < 100 {
        let pick_first = sent_second >= 100 || (sent_first < 100 && turn % 3 != 0);
        if pick_first {
            let msg = ControlMessage::RegisterPeer { peer: SendEnd { target: sent_first } };
            assert_eq!(first.send(&mut system, msg), Ok(()));
            sent_first += 1;
        } else {
            let msg = ControlMessage::RegisterPeer { peer: SendEnd { target: 1000 + sent_second } };
            assert_eq!(second.send(&mut system, msg), Ok(()));
            sent_second += 1;
        }
        turn += 1;
    }
    assert_eq!(system.exchange().pending(first.chan), 200);
    assert_eq!(system.run(0), Some(ActorState::Idle));
    assert_eq!(system.peer_count(0), 200);
    let mut from_first = Vec::new();
    let mut from_second = Vec::new();
    for i in 0..200 {
        let p = system.peer_of(0, i).unwrap();
        if p.target < 1000 {
            from_first.push(p.target);
        } else {
            from_second.push(p.target);
        }
    }
    assert_eq!(from_first, (0..100).collect::<Vec<usize>>());
    assert_eq!(from_second, (1000..1100).collect::<Vec<usize>>());
}

#[test]
fn system_step_handles_one_message_at_a_time() {
    let mut system: ActorSystem<EchoBehavior> = ActorSystem::new();
    let handle = create_actor(&mut system, EchoBehavior::new());
    assert!(!system.step(0));
    assert_eq!(handle.send(&mut system, ControlMessage::Execute), Ok(()));
    assert_eq!(handle.send(&mut system, ControlMessage::Execute), Ok(()));
    assert!(system.step(0));
    assert_eq!(system.behavior_of(0).map(|b| b.executed), Some(1));
    assert!(system.step(0));
    assert!(!system.step(0));
    assert_eq!(system.behavior_of(0).map(|b| b.executed), Some(2));
}

#[test]
fn unknown_actor_is_reported() {
    let mut system: ActorSystem<EchoBehavior> = ActorSystem::new();
    assert_eq!(system.len(), 0);
    assert_eq!(system.run(0), None);
    assert!(!system.step(3));
    assert_eq!(system.state_of(0), None);
    assert_eq!(system.behavior_of(0), None);
    assert_eq!(system.peer_count(0), 0);
    assert_eq!(system.peer_of(0, 0), None);
    assert!(system.broadcast_from(0, ControlMessage::Execute).is_empty());
}

#[test]
fn actor_notifies_its_peers() {
    let mut system: ActorSystem<EchoBehavior> = ActorSystem::new();
    let a = create_actor(&mut system, EchoBehavior::new());
    let b = create_actor(&mut system, EchoBehavior::new());
    let c = create_actor(&mut system, EchoBehavior::new());
    assert_eq!(system.len(), 3);
    assert_eq!(a.send_peer(&mut system, b.chan), Ok(()));
    assert_eq!(a.send_peer(&mut system, c.chan), Ok(()));
    assert_eq!(system.run(0), Some(ActorState::Idle));
    assert_eq!(c.send(&mut system, ControlMessage::Stop), Ok(()));
    assert_eq!(system.run(2), Some(ActorState::Terminated));
    let failed = system.broadcast_from(0, ControlMessage::Execute);
    assert_eq!(failed, vec![ActorError::PeerDeliveryFailed { position: 1, peer: c.chan }]);
    assert_eq!(system.state_of(0), Some(ActorState::Idle));
    assert_eq!(system.run(1), Some(ActorState::Idle));
    assert_eq!(system.behavior_of(1).map(|x| x.executed), Some(1));
    assert_eq!(system.behavior_of(2).map(|x| x.executed), Some(0));
}

#[test]
fn echo_without_a_limit_never_fails_and_its_counts_saturate() {
    let mut system: ActorSystem<EchoBehavior> = ActorSystem::new();
    let handle = create_actor(
        &mut system,
        EchoBehavior { executed: u64::MAX - 1, received: u64::MAX, limit: None },
    );
    assert_eq!(handle.send(&mut system, ControlMessage::Execute), Ok(()));
    assert_eq!(handle.send(&mut system, ControlMessage::Execute), Ok(()));
    assert_eq!(system.step(0), true);
    assert_eq!(
        system.behavior_of(0),
        Some(&EchoBehavior { executed: u64::MAX, received: u64::MAX, limit: None })
    );
    assert_eq!(system.state_of(0), Some(ActorState::Idle));
    assert_eq!(system.step(0), true);
    assert_eq!(
        system.behavior_of(0),
        Some(&EchoBehavior { executed: u64::MAX, received: u64::MAX, limit: None })
    );
    assert_eq!(system.state_of(0), Some(ActorState::Idle));
    assert!(system.exchange().is_open(handle.chan));
}

#[test]
fn echo_with_the_highest_limit_fails_when_it_is_reached() {
    let mut system: ActorSystem<EchoBehavior> = ActorSystem::new();
    let handle = create_actor(
        &mut system,
        EchoBehavior { executed: u64::MAX - 1, received: 0, limit: Some(u64::MAX) },
    );
    assert_eq!(handle.send(&mut system, ControlMessage::Execute), Ok(()));
    assert_eq!(handle.send(&mut system, ControlMessage::Execute), Ok(()));
    assert_eq!(system.run(0), Some(ActorState::Terminated));
    assert_eq!(
        system.behavior_of(0),
        Some(&EchoBehavior { executed: u64::MAX, received: 1, limit: Some(u64::MAX) })
    );
    assert!(!system.exchange().is_open(handle.chan));
}

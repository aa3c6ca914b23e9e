//! The data carried between actors: send-ends, control messages and errors.
use vstd::prelude::*;

verus! {

/// The producer side of one actor's control mailbox: the address of that
/// mailbox inside an exchange. Freely copied; every copy reaches the same
/// mailbox.
#[derive(Clone, Copy, Debug, PartialEq, Eq, Structural)]
pub struct SendEnd {
    pub target: usize,
}

/// The producer side of one actor's peer channel: the address of that
/// channel inside a peer exchange. A peer handed to it waits there until the
/// actor's loop takes it into the registry.
#[derive(Clone, Copy, Debug, PartialEq, Eq, Structural)]
pub struct PeerSendEnd {
    pub target: usize,
}

/// The closed set of signals that a dispatch loop understands.
#[derive(Clone, Copy, Debug, PartialEq, Eq, Structural)]
pub enum ControlMessage {
    /// Run the behavior's hooks now.
    Execute,
    /// Terminate the actor.
    Stop,
    /// Add `peer` to the actor's registry.
    RegisterPeer { peer: SendEnd },
}

/// What can go wrong; none of these is fatal to anything but, at most, one
/// actor.
#[derive(Clone, Copy, Debug, PartialEq, Eq, Structural)]
pub enum ActorError {
    /// The target mailbox takes no more messages.
    MailboxClosed,
    /// During a broadcast, the peer at `position` of the registry could not
    /// be reached.
    PeerDeliveryFailed { position: usize, peer: SendEnd },
}

/// Returned by a hook that cannot go on; the actor that ran it terminates.
#[derive(Clone, Copy, Debug, PartialEq, Eq, Structural)]
pub struct HookFailure {}

impl ControlMessage {
    /// Whether this is `Stop`, the message that seals a mailbox.
    pub open spec fn is_stop(self) -> bool {
        self == ControlMessage::Stop
    }
}

} // verus!

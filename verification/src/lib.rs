//! A minimal actor runtime core: mailboxes, peer registries and the
//! per-actor dispatch state machine, with the scheduling left to the caller.
pub mod message;
pub mod mailbox;
pub mod peer_channel;
pub mod registry;
pub mod actor;
pub mod behavior;
pub mod system;
pub mod laws;

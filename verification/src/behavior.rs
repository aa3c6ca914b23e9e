//! A behavior that only counts what it is asked to do.
use vstd::prelude::*;
use crate::actor::{Behavior, HookOutcome};
use crate::message::{HookFailure, SendEnd};
use crate::registry::PeerRegistry;

verus! {

/// Counts the calls of its two hooks and leaves the peers alone. Without a
/// limit neither hook ever fails, and a counter that has reached its highest
/// value stays there. With a limit, `execute` fails once that many calls
/// have succeeded, which terminates the actor.
#[derive(Clone, Copy, Debug, PartialEq, Eq, Structural)]
pub struct EchoBehavior {
    pub executed: u64,
    pub received: u64,
    pub limit: Option<u64>,
}

impl EchoBehavior {
    /// A behavior that has counted nothing and whose hooks never fail.
    pub fn new() -> (b: EchoBehavior)
        ensures
            b == (EchoBehavior { executed: 0, received: 0, limit: None }),
    {
        EchoBehavior { executed: 0, received: 0, limit: None }
    }

    /// A behavior that has counted nothing and whose `execute` succeeds
    /// `limit` times.
    pub fn with_limit(limit: u64) -> (b: EchoBehavior)
        ensures
            b == (EchoBehavior { executed: 0, received: 0, limit: Some(limit) }),
    {
        EchoBehavior { executed: 0, received: 0, limit: Some(limit) }
    }

    /// Whether `execute` succeeds now.
    pub open spec fn may_execute(self) -> bool {
        match self.limit {
            Some(limit) => self.executed < limit,
            None => true,
        }
    }
}

impl Behavior for EchoBehavior {
    open spec fn execute_spec(self, peers: Seq<SendEnd>) -> HookOutcome<EchoBehavior> {
        if self.may_execute() {
            HookOutcome {
                behavior: EchoBehavior {
                    executed: if self.executed < u64::MAX {
                        (self.executed + 1) as u64
                    } else {
                        self.executed
                    },
                    ..self
                },
                peers,
                ok: true,
            }
        } else {
            HookOutcome { behavior: self, peers, ok: false }
        }
    }

    open spec fn on_receive_spec(self, peers: Seq<SendEnd>) -> HookOutcome<EchoBehavior> {
        HookOutcome {
            behavior: EchoBehavior {
                received: if self.received < u64::MAX {
                    (self.received + 1) as u64
                } else {
                    self.received
                },
                ..self
            },
            peers,
            ok: true,
        }
    }

    fn execute(&mut self, peers: &mut PeerRegistry) -> (r: Result<(), HookFailure>) {
        let allowed = match self.limit {
            Some(limit) => self.executed < limit,
            None => true,
        };
        if !allowed {
            return Err(HookFailure {  });
        }
        if self.executed < u64::MAX {
            self.executed = self.executed + 1;
        }
        Ok(())
    }

    fn on_receive(&mut self, peers: &mut PeerRegistry) -> (r: Result<(), HookFailure>) {
        if self.received < u64::MAX {
            self.received = self.received + 1;
        }
        Ok(())
    }
}

} // verus!

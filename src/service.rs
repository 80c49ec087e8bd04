//! The lifecycle of the two services: the RPC server's start is awaited
//! first, then the network engine; any failure is fatal and every ending
//! shuts the runtime down with a grace period.
use vstd::prelude::*;

use crate::result::Error;

verus! {

/// Seconds that running work gets to finish at shutdown.
pub const SHUTDOWN_GRACE_SECS: u64 = 100;

/// What the orchestrator waits for.
#[derive(Clone, Copy, Debug, PartialEq, Eq, Structural)]
pub enum Stage {
    AwaitingRpc,
    AwaitingNetwork,
    Done,
}

/// What the orchestrator does next.
#[derive(Debug, PartialEq, Eq)]
pub enum Step {
    /// Wait for the network task to end.
    AwaitNetwork,
    /// Shut the runtime down, giving running work `grace_secs`, and end the
    /// process with `outcome`.
    Shutdown { grace_secs: u64, outcome: Result<(), Error> },
}

/// The step and the next stage once the RPC server's start gave `started`.
pub open spec fn after_rpc_start(started: Result<(), Error>) -> (Step, Stage) {
    match started {
        Ok(()) => (Step::AwaitNetwork, Stage::AwaitingNetwork),
        Err(e) => (Step::Shutdown { grace_secs: SHUTDOWN_GRACE_SECS, outcome: Err(e) }, Stage::Done),
    }
}

/// The step and the next stage once the network task gave `finished`.
pub open spec fn after_network(finished: Result<(), Error>) -> (Step, Stage) {
    (Step::Shutdown { grace_secs: SHUTDOWN_GRACE_SECS, outcome: finished }, Stage::Done)
}

pub struct Orchestrator {
    stage: Stage,
}

impl Orchestrator {
    pub closed spec fn stage_spec(&self) -> Stage {
        self.stage
    }

    pub fn new() -> (r: Self)
        ensures
            r.stage_spec() == Stage::AwaitingRpc,
    {
        Orchestrator { stage: Stage::AwaitingRpc }
    }

    pub fn stage(&self) -> (r: Stage)
        ensures
            r == self.stage_spec(),
    {
        self.stage
    }

    /// The RPC server's start ended: on success the network task is awaited
    /// next; a failure ends the process with that failure.
    pub fn on_rpc_started(&mut self, started: Result<(), Error>) -> (r: Step)
        requires
            old(self).stage_spec() == Stage::AwaitingRpc,
        ensures
            (r, final(self).stage_spec()) == after_rpc_start(started),
    {
        match started {
            Ok(()) => {
                self.stage = Stage::AwaitingNetwork;
                Step::AwaitNetwork
            },
            Err(e) => {
                self.stage = Stage::Done;
                Step::Shutdown { grace_secs: SHUTDOWN_GRACE_SECS, outcome: Err(e) }
            },
        }
    }

    /// The network task ended: the process ends with its result.
    pub fn on_network_finished(&mut self, finished: Result<(), Error>) -> (r: Step)
        requires
            old(self).stage_spec() == Stage::AwaitingNetwork,
        ensures
            (r, final(self).stage_spec()) == after_network(finished),
    {
        self.stage = Stage::Done;
        Step::Shutdown { grace_secs: SHUTDOWN_GRACE_SECS, outcome: finished }
    }
}

/// A failed RPC start ends the process with that failure, after the grace
/// period, and leaves the orchestrator done: the network task is no longer
/// awaited, so its result never becomes the exit status.
pub proof fn lemma_rpc_failure_decides_exit(e: Error)
    ensures
        after_rpc_start(Err(e)).0 == (Step::Shutdown {
            grace_secs: SHUTDOWN_GRACE_SECS,
            outcome: Err(e),
        }),
        after_rpc_start(Err(e)).1 != Stage::AwaitingNetwork,
{
}

/// Every ending of the orchestrator shuts down with the same grace period
/// and carries the result of the last task it awaited.
pub proof fn lemma_every_end_shuts_down(started: Result<(), Error>, finished: Result<(), Error>)
    ensures
        started is Err ==> after_rpc_start(started).0 == (Step::Shutdown {
            grace_secs: SHUTDOWN_GRACE_SECS,
            outcome: started,
        }),
        started is Ok ==> after_rpc_start(started).1 == Stage::AwaitingNetwork,
        after_network(finished).0 == (Step::Shutdown {
            grace_secs: SHUTDOWN_GRACE_SECS,
            outcome: finished,
        }),
{
}

} // verus!

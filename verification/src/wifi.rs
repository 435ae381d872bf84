//! Keeping a Wi-Fi station connected.
//!
//! The task that owns the Wi-Fi controller goes round in phases. In each
//! phase it does one thing with the controller, in [`Action`], and what came
//! of it decides the next phase, in [`Phase::next`]. The controller itself
//! is not touched here.

use vstd::prelude::*;

verus! {

/// How long to wait after the link dropped or could not be made, in
/// milliseconds.
pub const RETRY_DELAY_MS: u64 = 5000;

/// Where the connection task stands.
#[derive(Clone, Copy, PartialEq, Eq, Structural, Debug)]
pub enum Phase {
    /// Looking at whether the station is connected.
    Observe,
    /// Connected: waiting for the link to drop.
    Linked,
    /// The link dropped: waiting before anything else is tried.
    Dropped,
    /// Looking at whether the controller is started.
    Probe,
    /// Configuring and starting the controller.
    Start,
    /// Connecting.
    Connect,
    /// Connecting failed: waiting before the next round.
    Failed,
}

/// What the connection task does with the controller in a phase.
#[derive(Clone, Copy, PartialEq, Eq, Structural, Debug)]
pub enum Action {
    /// Ask whether the station is connected.
    QueryLink,
    /// Wait until the station is disconnected.
    AwaitDisconnect,
    /// Sleep for the given number of milliseconds.
    Sleep(u64),
    /// Ask whether the controller is started.
    QueryStarted,
    /// Set the client configuration and start the controller.
    ConfigureAndStart,
    /// Connect to the configured network.
    Connect,
}

impl Phase {
    /// What is done in this phase.
    pub open spec fn action_spec(self) -> Action {
        match self {
            Phase::Observe => Action::QueryLink,
            Phase::Linked => Action::AwaitDisconnect,
            Phase::Dropped => Action::Sleep(RETRY_DELAY_MS),
            Phase::Probe => Action::QueryStarted,
            Phase::Start => Action::ConfigureAndStart,
            Phase::Connect => Action::Connect,
            Phase::Failed => Action::Sleep(RETRY_DELAY_MS),
        }
    }

    /// The phase that follows this one. `outcome` is the answer to the
    /// question that this phase asked, or whether connecting worked; the
    /// other phases do not look at it.
    pub open spec fn next_spec(self, outcome: bool) -> Phase {
        match self {
            Phase::Observe => if outcome {
                Phase::Linked
            } else {
                Phase::Probe
            },
            Phase::Linked => Phase::Dropped,
            Phase::Dropped => Phase::Probe,
            Phase::Probe => if outcome {
                Phase::Connect
            } else {
                Phase::Start
            },
            Phase::Start => Phase::Connect,
            Phase::Connect => if outcome {
                Phase::Observe
            } else {
                Phase::Failed
            },
            Phase::Failed => Phase::Observe,
        }
    }

    /// The phase in which the task starts.
    pub fn first() -> (phase: Phase)
        ensures
            phase == Phase::Observe,
    {
        Phase::Observe
    }

    /// Returns what is done in this phase.
    pub fn action(self) -> (action: Action)
        ensures
            action == self.action_spec(),
    {
        match self {
            Phase::Observe => Action::QueryLink,
            Phase::Linked => Action::AwaitDisconnect,
            Phase::Dropped | Phase::Failed => Action::Sleep(RETRY_DELAY_MS),
            Phase::Probe => Action::QueryStarted,
            Phase::Start => Action::ConfigureAndStart,
            Phase::Connect => Action::Connect,
        }
    }

    /// Returns the phase that follows this one, given what came of its
    /// action.
    pub fn next(self, outcome: bool) -> (phase: Phase)
        ensures
            phase == self.next_spec(outcome),
    {
        match self {
            Phase::Observe => if outcome {
                Phase::Linked
            } else {
                Phase::Probe
            },
            Phase::Linked => Phase::Dropped,
            Phase::Dropped => Phase::Probe,
            Phase::Probe => if outcome {
                Phase::Connect
            } else {
                Phase::Start
            },
            Phase::Start => Phase::Connect,
            Phase::Connect => if outcome {
                Phase::Observe
            } else {
                Phase::Failed
            },
            Phase::Failed => Phase::Observe,
        }
    }
}

/// The task connects only with a controller that is started: it was found
/// started, or it was just started.
pub proof fn lemma_connects_only_when_started(phase: Phase, outcome: bool)
    requires
        phase.next_spec(outcome) == Phase::Connect,
    ensures
        phase == Phase::Start || (phase == Phase::Probe && outcome),
{
}

/// After the link dropped and after a failed attempt, the task waits for
/// the retry delay before it does anything else, and every wait is that long.
pub proof fn lemma_waits_before_retrying(phase: Phase, outcome: bool)
    ensures
        phase == Phase::Linked ==> phase.next_spec(outcome).action_spec() == Action::Sleep(
            RETRY_DELAY_MS,
        ),
        phase == Phase::Connect && !outcome ==> phase.next_spec(outcome).action_spec()
            == Action::Sleep(RETRY_DELAY_MS),
        phase.action_spec() matches Action::Sleep(ms) ==> ms == RETRY_DELAY_MS,
{
}

} // verus!

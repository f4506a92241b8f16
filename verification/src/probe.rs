//! One connection attempt to one port: its outcome, its life cycle and what
//! it hands on when it resolves.

use vstd::prelude::*;

verus! {

/// How a connection attempt ended. Every failure, whatever its cause, is
/// `Closed`.
#[derive(Clone, Copy, Debug, PartialEq, Eq, Structural)]
pub enum ProbeOutcome {
    Open,
    Closed,
}

/// What a resolved probe owes the outside world: a progress pulse, and the
/// port to forward to the result channel.
#[derive(Clone, Copy, Debug, PartialEq, Eq, Structural)]
pub struct ProbeEffects {
    pub pulse: bool,
    pub forward: Option<u16>,
}

impl ProbeOutcome {
    /// The outcome of an attempt that did or did not connect.
    pub open spec fn of(connected: bool) -> ProbeOutcome {
        if connected {
            ProbeOutcome::Open
        } else {
            ProbeOutcome::Closed
        }
    }

    /// The effects of this outcome for a probe of `port`: an open port is
    /// pulsed and forwarded once, a closed one leaves no trace.
    pub open spec fn effects_of(self, port: u16) -> ProbeEffects {
        match self {
            ProbeOutcome::Open => ProbeEffects { pulse: true, forward: Some(port) },
            ProbeOutcome::Closed => ProbeEffects { pulse: false, forward: None },
        }
    }

    /// Turns the result of a connection attempt into an outcome.
    pub fn from_connect(connected: bool) -> (outcome: ProbeOutcome)
        ensures
            outcome == ProbeOutcome::of(connected),
    {
        if connected {
            ProbeOutcome::Open
        } else {
            ProbeOutcome::Closed
        }
    }

    /// Whether the port was found open.
    pub fn is_open(&self) -> (open: bool)
        ensures
            open == (*self == ProbeOutcome::Open),
    {
        match self {
            ProbeOutcome::Open => true,
            ProbeOutcome::Closed => false,
        }
    }

    /// The effects of this outcome for a probe of `port`.
    pub fn effects(&self, port: u16) -> (effects: ProbeEffects)
        ensures
            effects == self.effects_of(port),
    {
        match self {
            ProbeOutcome::Open => ProbeEffects { pulse: true, forward: Some(port) },
            ProbeOutcome::Closed => ProbeEffects { pulse: false, forward: None },
        }
    }
}

/// Where a probe task stands. `Open` and `Closed` are terminal.
#[derive(Clone, Copy, Debug, PartialEq, Eq, Structural)]
pub enum ProbeState {
    Spawned,
    Connecting,
    Open,
    Closed,
}

impl ProbeState {
    /// A resolved task has reached a terminal state.
    pub open spec fn resolved(self) -> bool {
        self == ProbeState::Open || self == ProbeState::Closed
    }

    /// The number of transitions a task in this state has still to make.
    pub open spec fn steps_left(self) -> nat {
        match self {
            ProbeState::Spawned => 2,
            ProbeState::Connecting => 1,
            ProbeState::Open => 0,
            ProbeState::Closed => 0,
        }
    }

    /// The outcome that a terminal state records.
    pub open spec fn outcome_of(self) -> Option<ProbeOutcome> {
        match self {
            ProbeState::Open => Some(ProbeOutcome::Open),
            ProbeState::Closed => Some(ProbeOutcome::Closed),
            _ => None,
        }
    }

    /// The terminal state that records `outcome`.
    pub open spec fn terminal(outcome: ProbeOutcome) -> ProbeState {
        match outcome {
            ProbeOutcome::Open => ProbeState::Open,
            ProbeOutcome::Closed => ProbeState::Closed,
        }
    }

    /// Whether the task has reached a terminal state.
    pub fn is_resolved(&self) -> (done: bool)
        ensures
            done == self.resolved(),
    {
        match self {
            ProbeState::Open => true,
            ProbeState::Closed => true,
            _ => false,
        }
    }
}

/// A probe task: one port, and how far its connection attempt has come.
#[derive(Clone, Copy, Debug, PartialEq, Eq, Structural)]
pub struct ProbeTask {
    port: u16,
    state: ProbeState,
}

impl ProbeTask {
    /// The port that the task probes.
    pub closed spec fn spec_port(&self) -> u16 {
        self.port
    }

    /// The state of the task.
    pub closed spec fn spec_state(&self) -> ProbeState {
        self.state
    }

    /// A freshly spawned task for `port`.
    pub fn new(port: u16) -> (task: ProbeTask)
        ensures
            task.port() == port,
            task.state() == ProbeState::Spawned,
    {
        ProbeTask { port, state: ProbeState::Spawned }
    }

    /// The port that the task probes.
    #[verifier::when_used_as_spec(spec_port)]
    pub fn port(&self) -> (port: u16)
        ensures
            port == self.port(),
    {
        self.port
    }

    /// The state of the task.
    #[verifier::when_used_as_spec(spec_state)]
    pub fn state(&self) -> (state: ProbeState)
        ensures
            state == self.state(),
    {
        self.state
    }

    /// The outcome of the task, once it has resolved.
    pub fn outcome(&self) -> (outcome: Option<ProbeOutcome>)
        ensures
            outcome == self.state().outcome_of(),
    {
        match self.state {
            ProbeState::Open => Some(ProbeOutcome::Open),
            ProbeState::Closed => Some(ProbeOutcome::Closed),
            _ => None,
        }
    }

    /// The task starts its connection attempt: `Spawned` becomes `Connecting`.
    /// In any other state nothing changes and `false` is returned.
    pub fn begin(&mut self) -> (started: bool)
        ensures
            started == (old(self).state() == ProbeState::Spawned),
            final(self).port() == old(self).port(),
            started ==> final(self).state() == ProbeState::Connecting,
            !started ==> final(self).state() == old(self).state(),
    {
        match self.state {
            ProbeState::Spawned => {
                self.state = ProbeState::Connecting;
                true
            },
            _ => false,
        }
    }

    /// The connection attempt has ended: `Connecting` becomes `Open` if it
    /// connected and `Closed` if it did not, and the effects owed are
    /// returned. In any other state nothing changes and `None` is returned.
    pub fn resolve(&mut self, connected: bool) -> (effects: Option<ProbeEffects>)
        ensures
            effects is Some <==> old(self).state() == ProbeState::Connecting,
            final(self).port() == old(self).port(),
            effects is Some ==> final(self).state() == ProbeState::terminal(
                ProbeOutcome::of(connected),
            ) && effects == Some(ProbeOutcome::of(connected).effects_of(old(self).port())),
            effects is None ==> final(self).state() == old(self).state(),
    {
        match self.state {
            ProbeState::Connecting => {
                let outcome = ProbeOutcome::from_connect(connected);
                self.state =
                match outcome {
                    ProbeOutcome::Open => ProbeState::Open,
                    ProbeOutcome::Closed => ProbeState::Closed,
                };
                Some(outcome.effects(self.port))
            },
            _ => None,
        }
    }
}

} // verus!

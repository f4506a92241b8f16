//! The scan run as a state machine over mathematical values.
//!
//! A `ScanView` is everything that decides how a run goes on: the phase of
//! the coordinator, the state of every probe task launched so far, the result
//! channel, and the ports collected. The coordinator moves by `advance`; a
//! probe task moves by `after_begin` and `after_resolve`, at any time after
//! its launch and in any order among the tasks.

use crate::channel::{ChannelView, Received};
use crate::probe::{ProbeEffects, ProbeOutcome, ProbeState};
use crate::range::PortRange;
use crate::target::Target;
use vstd::prelude::*;

verus! {

/// The phase of the coordinator. `Complete` is terminal.
#[derive(Clone, Copy, Debug, PartialEq, Eq, Structural)]
pub enum Phase {
    Idle,
    Launching,
    Draining,
    Complete,
}

/// What the coordinator did in one move, and so what is left for the shell
/// around it to do.
#[derive(Clone, Copy, Debug, PartialEq, Eq, Structural)]
pub enum Step {
    /// The run has begun.
    Started,
    /// A probe task for this port was set up with a producer handle of its
    /// own; the connection attempt is to be started.
    Launch(u16),
    /// Every task is launched and the coordinator has released its own
    /// producer handle.
    Released,
    /// This port came out of the channel and joined the open ports.
    Collected(u16),
    /// Nothing is pending while a probe task still holds a producer handle:
    /// there is nothing to do until a task resolves.
    Wait,
    /// The channel is disconnected and the run is complete.
    Done,
}

/// Why a probe task's event was refused.
#[derive(Clone, Copy, Debug, PartialEq, Eq, Structural)]
pub enum ScanError {
    /// No task was launched for this port.
    NotLaunched,
    /// The task has already begun its connection attempt.
    NotSpawned,
    /// The task is not in a connection attempt.
    NotConnecting,
}

/// The number of tasks that have not resolved yet.
pub open spec fn unresolved(tasks: Seq<ProbeState>) -> nat
    decreases tasks.len(),
{
    if tasks.len() == 0 {
        0
    } else {
        unresolved(tasks.drop_last()) + if tasks.last().resolved() {
            0nat
        } else {
            1nat
        }
    }
}

/// The number of transitions that the tasks have still to make, all told.
pub open spec fn steps_left(tasks: Seq<ProbeState>) -> nat
    decreases tasks.len(),
{
    if tasks.len() == 0 {
        0
    } else {
        steps_left(tasks.drop_last()) + tasks.last().steps_left()
    }
}

/// The state of a scan run.
pub struct ScanView {
    pub target: Target,
    pub range: PortRange,
    pub phase: Phase,
    /// The states of the tasks launched so far; the task at position `i`
    /// probes the port at position `i` of the range.
    pub tasks: Seq<ProbeState>,
    pub channel: ChannelView,
    /// The ports collected so far, in the order in which they arrived.
    pub open_ports: Seq<u16>,
}

impl ScanView {
    /// A run that has not begun: no task, one producer handle (the
    /// coordinator's own), nothing sent and nothing collected.
    pub open spec fn init(target: Target, range: PortRange) -> ScanView {
        ScanView {
            target,
            range,
            phase: Phase::Idle,
            tasks: Seq::empty(),
            channel: ChannelView { producers: 1, receiver: true, pending: Seq::empty() },
            open_ports: Seq::empty(),
        }
    }

    /// The number of probe tasks launched so far.
    pub open spec fn launched(self) -> nat {
        self.tasks.len()
    }

    /// Whether the coordinator still holds its own producer handle.
    pub open spec fn holds_template(self) -> bool {
        self.phase == Phase::Idle || self.phase == Phase::Launching
    }

    /// The position in the range of the task that probes `port`.
    pub open spec fn index(self, port: u16) -> int {
        port - self.range.first()
    }

    /// Whether a task was launched for `port`.
    pub open spec fn has_task(self, port: u16) -> bool {
        self.range.contains(port as int) && self.index(port) < self.tasks.len()
    }

    /// The state of the task that probes `port`, if one was launched.
    pub open spec fn task_state(self, port: u16) -> Option<ProbeState> {
        if self.has_task(port) {
            Some(self.tasks[self.index(port)])
        } else {
            None
        }
    }

    /// Whether the probe of `port` has resolved and found the port open.
    pub open spec fn found_open(self, port: u16) -> bool {
        self.task_state(port) == Some(ProbeState::Open)
    }

    /// Every port sent so far, in the order of sending: those collected,
    /// then those still in the channel.
    pub open spec fn sent(self) -> Seq<u16> {
        self.open_ports + self.channel.pending
    }

    /// The move that the coordinator makes next.
    pub open spec fn next_step(self) -> Step {
        match self.phase {
            Phase::Idle => Step::Started,
            Phase::Launching => {
                if self.tasks.len() < self.range.len() {
                    Step::Launch(self.range.port_at(self.tasks.len() as int))
                } else {
                    Step::Released
                }
            },
            Phase::Draining => {
                match self.channel.recv_result() {
                    Received::Port(port) => Step::Collected(port),
                    Received::Empty => Step::Wait,
                    Received::Disconnected => Step::Done,
                }
            },
            Phase::Complete => Step::Done,
        }
    }

    /// The run after the coordinator's next move.
    pub open spec fn advance(self) -> ScanView {
        match self.next_step() {
            Step::Started => ScanView { phase: Phase::Launching, ..self },
            Step::Launch(_) => ScanView {
                tasks: self.tasks.push(ProbeState::Spawned),
                channel: ChannelView { producers: self.channel.producers + 1, ..self.channel },
                ..self
            },
            Step::Released => ScanView {
                phase: Phase::Draining,
                channel: ChannelView {
                    producers: (self.channel.producers - 1) as nat,
                    ..self.channel
                },
                ..self
            },
            Step::Collected(port) => ScanView {
                channel: self.channel.after_recv(),
                open_ports: self.open_ports.push(port),
                ..self
            },
            Step::Wait => self,
            Step::Done => ScanView { phase: Phase::Complete, ..self },
        }
    }

    /// Whether the task for `port` may begin its connection attempt.
    pub open spec fn begin_result(self, port: u16) -> Result<(), ScanError> {
        match self.task_state(port) {
            None => Err(ScanError::NotLaunched),
            Some(ProbeState::Spawned) => Ok(()),
            Some(_) => Err(ScanError::NotSpawned),
        }
    }

    /// The run after the task for `port` was asked to begin its connection
    /// attempt.
    pub open spec fn after_begin(self, port: u16) -> ScanView {
        if self.begin_result(port) is Ok {
            ScanView {
                tasks: self.tasks.update(self.index(port), ProbeState::Connecting),
                ..self
            }
        } else {
            self
        }
    }

    /// What the end of the connection attempt to `port` brings: the effects
    /// of its outcome, if the task was in a connection attempt.
    pub open spec fn resolve_result(self, port: u16, connected: bool) -> Result<
        ProbeEffects,
        ScanError,
    > {
        match self.task_state(port) {
            None => Err(ScanError::NotLaunched),
            Some(ProbeState::Connecting) => Ok(ProbeOutcome::of(connected).effects_of(port)),
            Some(_) => Err(ScanError::NotConnecting),
        }
    }

    /// The run after the connection attempt to `port` has ended: the task is
    /// in its terminal state, an open port is in the channel, and the task's
    /// producer handle is released.
    pub open spec fn after_resolve(self, port: u16, connected: bool) -> ScanView {
        if self.resolve_result(port, connected) is Ok {
            ScanView {
                tasks: self.tasks.update(
                    self.index(port),
                    ProbeState::terminal(ProbeOutcome::of(connected)),
                ),
                channel: ChannelView {
                    producers: (self.channel.producers - 1) as nat,
                    pending: if connected {
                        self.channel.pending.push(port)
                    } else {
                        self.channel.pending
                    },
                    ..self.channel
                },
                ..self
            }
        } else {
            self
        }
    }

    /// The ports sent are the ports found open, each sent once.
    pub open spec fn sent_what_was_found(self) -> bool {
        &&& self.sent().no_duplicates()
        &&& forall|j: int|
            0 <= j < self.sent().len() ==> self.found_open(#[trigger] self.sent()[j])
        &&& forall|port: u16| #[trigger] self.found_open(port) ==> self.sent().contains(port)
    }

    /// What holds of every state that a run can reach: the phases follow the
    /// launches, the receiver is there, a producer handle is held by the
    /// coordinator until it drains and by every unresolved task, and the
    /// ports sent are the ports found open.
    pub open spec fn inv(self) -> bool {
        &&& self.range.wf()
        &&& self.tasks.len() <= self.range.len()
        &&& self.channel.receiver
        &&& self.phase == Phase::Idle ==> self.tasks.len() == 0 && self.sent().len() == 0
        &&& self.phase == Phase::Draining || self.phase == Phase::Complete ==> self.tasks.len()
            == self.range.len()
        &&& self.phase == Phase::Complete ==> self.channel.drained()
        &&& self.channel.producers == unresolved(self.tasks) + if self.holds_template() {
            1nat
        } else {
            0nat
        }
        &&& self.sent_what_was_found()
    }

    /// A bound on the number of moves that the run can still make: every
    /// move of the coordinator but `Wait`, and every accepted event of a
    /// task, lowers it.
    pub open spec fn work_left(self) -> nat {
        (if self.phase == Phase::Idle {
            1nat
        } else {
            0nat
        }) + (if self.holds_template() {
            1nat
        } else {
            0nat
        }) + (if self.phase == Phase::Complete {
            0nat
        } else {
            1nat
        }) + 5 * (self.range.len() - self.tasks.len()) as nat + 2 * steps_left(self.tasks)
            + self.channel.pending.len()
    }
}

} // verus!

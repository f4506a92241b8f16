//! The scan run in executable form: the coordinator, its probe tasks and the
//! result channel between them.
//!
//! A `Scan` makes no connection and never waits. The shell around it calls
//! `advance` for the coordinator, starts a connection attempt for every
//! `Step::Launch`, and reports with `begin` and `resolve` what became of it.

use crate::channel::{Received, ResultChannel};
use crate::model::{Phase, ScanError, ScanView, Step};
use crate::preserve::{
    lemma_advance_inv,
    lemma_begin_inv,
    lemma_init_inv,
    lemma_resolve_inv,
    lemma_unresolved_zero,
};
use crate::probe::{ProbeEffects, ProbeState, ProbeTask};
use crate::range::PortRange;
use crate::report::{summarize, Summary};
use crate::target::Target;
use crate::trace::{run, Event};
use vstd::prelude::*;

verus! {

/// A scan run.
pub struct Scan {
    target: Target,
    range: PortRange,
    phase: Phase,
    tasks: Vec<ProbeTask>,
    channel: ResultChannel,
    open_ports: Vec<u16>,
    history: Ghost<Seq<Event>>,
}

impl View for Scan {
    type V = ScanView;

    closed spec fn view(&self) -> ScanView {
        ScanView {
            target: self.target,
            range: self.range,
            phase: self.phase,
            tasks: Seq::new(self.tasks@.len(), |i: int| self.tasks@[i].state()),
            channel: self.channel@,
            open_ports: self.open_ports@,
        }
    }
}

impl Scan {
    /// Every task probes the port of the range that its position names.
    pub closed spec fn aligned(&self) -> bool {
        forall|i: int|
            0 <= i < self.tasks@.len() ==> (#[trigger] self.tasks@[i]).port()
                == self.range.port_at(i)
    }

    /// The events that the run has seen since its start, oldest first.
    pub closed spec fn history(&self) -> Seq<Event> {
        self.history@
    }

    /// A run is well formed when it is in the state to which its history
    /// leads from the start.
    pub open spec fn wf(&self) -> bool {
        &&& self@.inv()
        &&& self.aligned()
        &&& self@ == run(self@.target, self@.range, self.history())
    }

    /// A run over `range` against `target` that has not begun.
    pub fn new(target: Target, range: PortRange) -> (scan: Scan)
        requires
            range.wf(),
        ensures
            scan.wf(),
            scan@ == ScanView::init(target, range),
            scan.history() == Seq::<Event>::empty(),
    {
        let scan = Scan {
            target,
            range,
            phase: Phase::Idle,
            tasks: Vec::new(),
            channel: ResultChannel::new(),
            open_ports: Vec::new(),
            history: Ghost(Seq::empty()),
        };
        proof {
            lemma_init_inv(target, range);
            assert(scan@.tasks =~= Seq::<ProbeState>::empty());
            assert(scan@.open_ports =~= Seq::<u16>::empty());
        }
        scan
    }

    /// The coordinator makes its next move and says what it was.
    ///
    /// In order: the run begins; one probe task is launched for each port of
    /// the range, from the first upwards, each with a producer handle of its
    /// own; the coordinator releases its own handle; then the channel is
    /// drained into the open ports until it is disconnected. The move is
    /// `Wait`, and changes nothing, while the channel is empty and a task
    /// still holds its handle.
    pub fn advance(&mut self) -> (step: Step)
        requires
            old(self).wf(),
        ensures
            final(self).wf(),
            step == old(self)@.next_step(),
            final(self)@ == old(self)@.advance(),
            final(self).history() == old(self).history().push(Event::Advance),
    {
        proof {
            lemma_advance_inv(self@);
            lemma_unresolved_zero(self@.tasks);
        }
        let step = match self.phase {
            Phase::Idle => {
                self.phase = Phase::Launching;
                Step::Started
            },
            Phase::Launching => {
                let launched: usize = self.tasks.len();
                if launched < self.range.count() as usize {
                    let port: u16 = self.range.start() + launched as u16;
                    let cloned = self.channel.clone_producer();
                    assert(cloned is Ok);
                    self.tasks.push(ProbeTask::new(port));
                    Step::Launch(port)
                } else {
                    let released = self.channel.release_producer();
                    assert(released is Ok);
                    self.phase = Phase::Draining;
                    Step::Released
                }
            },
            Phase::Draining => {
                match self.channel.recv() {
                    Received::Port(port) => {
                        self.open_ports.push(port);
                        Step::Collected(port)
                    },
                    Received::Empty => Step::Wait,
                    Received::Disconnected => {
                        self.phase = Phase::Complete;
                        Step::Done
                    },
                }
            },
            Phase::Complete => Step::Done,
        };
        self.history = Ghost(self.history@.push(Event::Advance));
        proof {
            assert(self@.tasks =~= old(self)@.advance().tasks);
            assert(self@.open_ports =~= old(self)@.advance().open_ports);
            assert(self@.channel.pending =~= old(self)@.advance().channel.pending);
            assert(self.history().drop_last() =~= old(self).history());
        }
        step
    }

    /// The task for `port` begins its connection attempt.
    pub fn begin(&mut self, port: u16) -> (done: Result<(), ScanError>)
        requires
            old(self).wf(),
        ensures
            final(self).wf(),
            done == old(self)@.begin_result(port),
            final(self)@ == old(self)@.after_begin(port),
            final(self).history() == old(self).history().push(Event::Begin(port)),
    {
        proof {
            lemma_begin_inv(self@, port);
        }
        let done = match self.range.position(port) {
            None => Err(ScanError::NotLaunched),
            Some(at) => {
                let i: usize = at as usize;
                if i >= self.tasks.len() {
                    Err(ScanError::NotLaunched)
                } else {
                    let mut task: ProbeTask = self.tasks[i];
                    if task.begin() {
                        self.tasks.set(i, task);
                        Ok(())
                    } else {
                        Err(ScanError::NotSpawned)
                    }
                }
            },
        };
        self.history = Ghost(self.history@.push(Event::Begin(port)));
        proof {
            assert(self@.tasks =~= old(self)@.after_begin(port).tasks);
            assert(self.history().drop_last() =~= old(self).history());
        }
        done
    }

    /// The connection attempt to `port` has ended; `connected` says whether
    /// it succeeded. An open port is sent into the channel, and either way
    /// the task gives up its producer handle. The effects returned tell the
    /// shell whether a progress pulse is due.
    pub fn resolve(&mut self, port: u16, connected: bool) -> (done: Result<
        ProbeEffects,
        ScanError,
    >)
        requires
            old(self).wf(),
        ensures
            final(self).wf(),
            done == old(self)@.resolve_result(port, connected),
            final(self)@ == old(self)@.after_resolve(port, connected),
            final(self).history() == old(self).history().push(Event::Resolve(port, connected)),
    {
        proof {
            lemma_resolve_inv(self@, port, connected);
        }
        let done = match self.range.position(port) {
            None => Err(ScanError::NotLaunched),
            Some(at) => {
                let i: usize = at as usize;
                if i >= self.tasks.len() {
                    Err(ScanError::NotLaunched)
                } else {
                    let mut task: ProbeTask = self.tasks[i];
                    match task.resolve(connected) {
                        None => Err(ScanError::NotConnecting),
                        Some(effects) => {
                            self.tasks.set(i, task);
                            match effects.forward {
                                Some(open_port) => {
                                    let sent = self.channel.send(open_port);
                                    assert(sent is Ok);
                                },
                                None => {},
                            }
                            let released = self.channel.release_producer();
                            assert(released is Ok);
                            Ok(effects)
                        },
                    }
                }
            },
        };
        self.history = Ghost(self.history@.push(Event::Resolve(port, connected)));
        proof {
            assert(self@.tasks =~= old(self)@.after_resolve(port, connected).tasks);
            assert(self@.channel.pending =~= old(self)@.after_resolve(
                port,
                connected,
            ).channel.pending);
            assert(self.history().drop_last() =~= old(self).history());
        }
        done
    }

    /// The address that the run is aimed at.
    pub fn target(&self) -> (target: Target)
        ensures
            target == self@.target,
    {
        self.target
    }

    /// The range of ports that the run covers.
    pub fn range(&self) -> (range: PortRange)
        ensures
            range == self@.range,
    {
        self.range
    }

    /// The phase of the coordinator.
    pub fn phase(&self) -> (phase: Phase)
        ensures
            phase == self@.phase,
    {
        self.phase
    }

    /// Whether the run is complete.
    pub fn is_complete(&self) -> (complete: bool)
        ensures
            complete == (self@.phase == Phase::Complete),
    {
        match self.phase {
            Phase::Complete => true,
            _ => false,
        }
    }

    /// The number of probe tasks launched so far.
    pub fn launched(&self) -> (n: usize)
        ensures
            n == self@.launched(),
    {
        self.tasks.len()
    }

    /// The number of producer handles that are still held.
    pub fn producers(&self) -> (n: usize)
        ensures
            n == self@.channel.producers,
    {
        self.channel.producers()
    }

    /// The number of ports sent and not yet collected.
    pub fn pending(&self) -> (n: usize)
        ensures
            n == self@.channel.pending.len(),
    {
        self.channel.pending()
    }

    /// The state of the task that probes `port`, if one was launched.
    pub fn task_state(&self, port: u16) -> (state: Option<ProbeState>)
        ensures
            state == self@.task_state(port),
    {
        match self.range.position(port) {
            None => None,
            Some(at) => {
                let i: usize = at as usize;
                if i < self.tasks.len() {
                    Some(self.tasks[i].state())
                } else {
                    None
                }
            },
        }
    }

    /// The ports collected so far, in the order in which they arrived.
    pub fn open_ports(&self) -> (ports: &Vec<u16>)
        ensures
            ports@ == self@.open_ports,
    {
        &self.open_ports
    }

    /// Ends the run's life and hands out the ports that it has collected.
    pub fn into_open_ports(self) -> (ports: Vec<u16>)
        ensures
            ports@ == self@.open_ports,
    {
        self.open_ports
    }

    /// Ends the run's life and sums it up: its target and the ports that it
    /// has collected.
    pub fn into_summary(self) -> (summary: Summary)
        ensures
            summary.wf(),
            summary.target_of() == self@.target,
            summary.ports_of() == self@.open_ports,
            summary is NoneOpen <==> self@.open_ports.len() == 0,
    {
        summarize(self.target, self.open_ports)
    }
}

} // verus!

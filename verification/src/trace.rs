//! Whole runs: the states that a scan reaches from its start through any
//! sequence of events, in any interleaving of the coordinator and its tasks.

use crate::model::ScanView;
use crate::preserve::{lemma_advance_inv, lemma_begin_inv, lemma_init_inv, lemma_resolve_inv};
use crate::probe::ProbeState;
use crate::range::PortRange;
use crate::target::Target;
use vstd::prelude::*;

verus! {

/// One event of a run.
pub enum Event {
    /// The coordinator makes its next move.
    Advance,
    /// The task for this port begins its connection attempt.
    Begin(u16),
    /// The connection attempt to this port ends, connected or not.
    Resolve(u16, bool),
}

impl ScanView {
    /// The run after `event`. An event that is out of turn changes nothing.
    pub open spec fn apply(self, event: Event) -> ScanView {
        match event {
            Event::Advance => self.advance(),
            Event::Begin(port) => self.after_begin(port),
            Event::Resolve(port, connected) => self.after_resolve(port, connected),
        }
    }

    /// Every resolved task has the outcome that `listeners` calls for: open
    /// where a listener accepts connections, closed where none does.
    pub open spec fn truthful(self, listeners: Set<u16>) -> bool {
        forall|port: u16|
            match #[trigger] self.task_state(port) {
                Some(ProbeState::Open) => listeners.contains(port),
                Some(ProbeState::Closed) => !listeners.contains(port),
                _ => true,
            }
    }
}

/// The state that a run over `range` against `target` reaches from its start
/// through `events`.
pub open spec fn run(target: Target, range: PortRange, events: Seq<Event>) -> ScanView
    decreases events.len(),
{
    if events.len() == 0 {
        ScanView::init(target, range)
    } else {
        run(target, range, events.drop_last()).apply(events.last())
    }
}

/// In `events`, a connection attempt succeeds exactly where a listener of
/// `listeners` accepts connections.
pub open spec fn faithful(events: Seq<Event>, listeners: Set<u16>) -> bool {
    forall|i: int|
        0 <= i < events.len() ==> match #[trigger] events[i] {
            Event::Resolve(port, connected) => connected == listeners.contains(port),
            _ => true,
        }
}

/// An event keeps the invariant of the run.
pub proof fn lemma_apply_inv(v: ScanView, event: Event)
    requires
        v.inv(),
    ensures
        v.apply(event).inv(),
        v.apply(event).work_left() <= v.work_left(),
        v.apply(event) != v ==> v.apply(event).work_left() < v.work_left(),
        v.apply(event).range == v.range,
        v.apply(event).target == v.target,
{
    match event {
        Event::Advance => {
            lemma_advance_inv(v);
        },
        Event::Begin(port) => {
            lemma_begin_inv(v, port);
        },
        Event::Resolve(port, connected) => {
            lemma_resolve_inv(v, port, connected);
        },
    }
}

/// Every state of every run satisfies the invariant, and a run never changes
/// its target or its range.
pub proof fn lemma_run_inv(target: Target, range: PortRange, events: Seq<Event>)
    requires
        range.wf(),
    ensures
        run(target, range, events).inv(),
        run(target, range, events).range == range,
        run(target, range, events).target == target,
    decreases events.len(),
{
    if events.len() == 0 {
        lemma_init_inv(target, range);
    } else {
        lemma_run_inv(target, range, events.drop_last());
        lemma_apply_inv(run(target, range, events.drop_last()), events.last());
    }
}

/// An event that tells the truth about `listeners` keeps the tasks' outcomes
/// truthful.
pub proof fn lemma_apply_truthful(v: ScanView, event: Event, listeners: Set<u16>)
    requires
        v.inv(),
        v.truthful(listeners),
        event matches Event::Resolve(port, connected) ==> connected == listeners.contains(port),
    ensures
        v.apply(event).truthful(listeners),
{
    let w = v.apply(event);
    assert forall|port: u16|
        match #[trigger] w.task_state(port) {
            Some(ProbeState::Open) => listeners.contains(port),
            Some(ProbeState::Closed) => !listeners.contains(port),
            _ => true,
        } by {
        let before = v.task_state(port);
        if w.task_state(port) != before {
            match event {
                Event::Advance => {
                    assert(w.task_state(port) == Some(ProbeState::Spawned));
                },
                Event::Begin(begun) => {
                    assert(w.task_state(port) == Some(ProbeState::Connecting));
                },
                Event::Resolve(resolved, connected) => {
                    assert(port == resolved);
                },
            }
        }
    }
}

/// In a run whose connection attempts succeed exactly at the listeners, every
/// resolved task has the outcome that the listeners call for.
pub proof fn lemma_run_truthful(
    target: Target,
    range: PortRange,
    events: Seq<Event>,
    listeners: Set<u16>,
)
    requires
        range.wf(),
        faithful(events, listeners),
    ensures
        run(target, range, events).truthful(listeners),
    decreases events.len(),
{
    if events.len() == 0 {
        let v = ScanView::init(target, range);
        assert forall|port: u16| #[trigger] v.task_state(port) is None by {}
    } else {
        let front = events.drop_last();
        assert forall|i: int| 0 <= i < front.len() implies match #[trigger] front[i] {
            Event::Resolve(port, connected) => connected == listeners.contains(port),
            _ => true,
        } by {
            assert(front[i] == events[i]);
        }
        lemma_run_truthful(target, range, front, listeners);
        lemma_run_inv(target, range, front);
        assert(events[events.len() - 1] == events.last());
        lemma_apply_truthful(run(target, range, front), events.last(), listeners);
    }
}

} // verus!

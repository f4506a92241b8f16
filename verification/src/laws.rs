//! What holds of every scan run, whatever the order in which its probe tasks
//! resolve.

use crate::model::{unresolved, Phase, ScanView, Step};
use crate::preserve::lemma_unresolved_zero;
use crate::probe::ProbeState;
use crate::range::{PortRange, MAX};
use crate::scan::Scan;
use crate::target::Target;
use crate::trace::{faithful, lemma_apply_inv, lemma_run_inv, lemma_run_truthful, run, Event};
use vstd::prelude::*;

verus! {

/// The number of events of a run that changed its state.
pub open spec fn moves(target: Target, range: PortRange, events: Seq<Event>) -> nat
    decreases events.len(),
{
    if events.len() == 0 {
        0
    } else {
        let before = run(target, range, events.drop_last());
        moves(target, range, events.drop_last()) + if before.apply(events.last()) != before {
            1nat
        } else {
            0nat
        }
    }
}

/// The number of `Launch` moves that the coordinator made in a run.
pub open spec fn launches(target: Target, range: PortRange, events: Seq<Event>) -> nat
    decreases events.len(),
{
    if events.len() == 0 {
        0
    } else {
        let before = run(target, range, events.drop_last());
        launches(target, range, events.drop_last()) + if events.last() is Advance
            && before.next_step() is Launch {
            1nat
        } else {
            0nat
        }
    }
}

/// A run has as many probe tasks as the coordinator made `Launch` moves.
pub proof fn law_tasks_are_launches(target: Target, range: PortRange, events: Seq<Event>)
    requires
        range.wf(),
    ensures
        run(target, range, events).launched() == launches(target, range, events),
    decreases events.len(),
{
    if events.len() > 0 {
        law_tasks_are_launches(target, range, events.drop_last());
    }
}

/// One probe task is launched for each port of the range: never more tasks
/// than ports, a task for a port exactly when its position is below the
/// number launched, and once launching is over as many tasks as ports, which
/// is `end - start` where the start lies below the end.
pub proof fn law_one_task_per_port(target: Target, range: PortRange, events: Seq<Event>)
    requires
        range.wf(),
    ensures
        run(target, range, events).launched() == launches(target, range, events),
        run(target, range, events).launched() <= range.len(),
        run(target, range, events).phase == Phase::Draining || run(target, range, events).phase
            == Phase::Complete ==> run(target, range, events).launched() == range.len(),
        range.first() < range.cutoff() && (run(target, range, events).phase == Phase::Draining
            || run(target, range, events).phase == Phase::Complete) ==> run(
            target,
            range,
            events,
        ).launched() == range.cutoff() - range.first(),
        forall|port: u16|
            #[trigger] run(target, range, events).has_task(port) <==> range.contains(port as int)
                && port - range.first() < run(target, range, events).launched(),
{
    lemma_run_inv(target, range, events);
    law_tasks_are_launches(target, range, events);
}

/// When a run is complete, every probe task has resolved, nothing is left in
/// the channel, and the open ports are the ports of the range found open,
/// each of them once.
pub proof fn law_complete_run(v: ScanView)
    requires
        v.inv(),
        v.phase == Phase::Complete,
    ensures
        v.launched() == v.range.len(),
        forall|port: u16|
            v.range.contains(port as int) ==> (#[trigger] v.task_state(port)) == Some(
                ProbeState::Open,
            ) || v.task_state(port) == Some(ProbeState::Closed),
        v.channel.pending.len() == 0,
        v.channel.producers == 0,
        v.open_ports.no_duplicates(),
        forall|port: u16| #[trigger] v.open_ports.contains(port) <==> v.found_open(port),
{
    lemma_unresolved_zero(v.tasks);
    assert(v.sent() =~= v.open_ports);
    assert forall|port: u16| v.range.contains(port as int) implies (#[trigger] v.task_state(port))
        == Some(ProbeState::Open) || v.task_state(port) == Some(ProbeState::Closed) by {
        assert(v.tasks[v.index(port)].resolved());
    }
    assert forall|port: u16| #[trigger] v.open_ports.contains(port) <==> v.found_open(port) by {
        if v.open_ports.contains(port) {
            let j = choose|j: int| 0 <= j < v.open_ports.len() && v.open_ports[j] == port;
            assert(v.found_open(v.sent()[j]));
        }
    }
}

/// The open ports of a complete run are exactly the ports of the range on
/// which a listener accepts connections.
pub proof fn law_open_ports_are_listening_ports(
    target: Target,
    range: PortRange,
    events: Seq<Event>,
    listeners: Set<u16>,
)
    requires
        range.wf(),
        faithful(events, listeners),
        run(target, range, events).phase == Phase::Complete,
    ensures
        run(target, range, events).open_ports.no_duplicates(),
        forall|port: u16|
            #[trigger] run(target, range, events).open_ports.contains(port) <==> range.contains(
                port as int,
            ) && listeners.contains(port),
{
    let v = run(target, range, events);
    lemma_run_inv(target, range, events);
    lemma_run_truthful(target, range, events, listeners);
    law_complete_run(v);
    assert forall|port: u16| #[trigger]
        v.open_ports.contains(port) <==> range.contains(port as int) && listeners.contains(
            port,
        ) by {
        assert(v.open_ports.contains(port) <==> v.found_open(port));
        if range.contains(port as int) {
            assert(v.task_state(port) == Some(ProbeState::Open) || v.task_state(port) == Some(
                ProbeState::Closed,
            ));
        } else {
            assert(v.task_state(port) is None);
        }
    }
}

/// What holds of whole runs holds of a `Scan`: when it is complete and every
/// connection attempt reported to it succeeded exactly where a listener
/// accepts connections, its open ports are the listeners' ports in its range,
/// each of them once.
pub proof fn law_scan_finds_the_listeners(scan: Scan, listeners: Set<u16>)
    requires
        scan.wf(),
        faithful(scan.history(), listeners),
        scan@.phase == Phase::Complete,
    ensures
        scan@.open_ports.no_duplicates(),
        forall|port: u16|
            #[trigger] scan@.open_ports.contains(port) <==> scan@.range.contains(port as int)
                && listeners.contains(port),
{
    law_open_ports_are_listening_ports(scan@.target, scan@.range, scan.history(), listeners);
}

/// A port of the range on which a listener accepts connections is among the
/// open ports of the complete run exactly once.
pub proof fn law_listening_port_reported_once(
    target: Target,
    range: PortRange,
    events: Seq<Event>,
    listeners: Set<u16>,
    port: u16,
)
    requires
        range.wf(),
        faithful(events, listeners),
        run(target, range, events).phase == Phase::Complete,
        range.contains(port as int),
        listeners.contains(port),
    ensures
        run(target, range, events).open_ports.to_multiset().count(port) == 1,
{
    let open_ports = run(target, range, events).open_ports;
    law_open_ports_are_listening_ports(target, range, events, listeners);
    assert(open_ports.contains(port));
    open_ports.to_multiset_ensures();
    open_ports.lemma_multiset_has_no_duplicates();
}

/// A port on which no listener accepts connections is never among the open
/// ports, at no point of any run; nor is a port outside the range.
pub proof fn law_silent_port_never_reported(
    target: Target,
    range: PortRange,
    events: Seq<Event>,
    listeners: Set<u16>,
    port: u16,
)
    requires
        range.wf(),
        faithful(events, listeners),
        !listeners.contains(port) || !range.contains(port as int),
    ensures
        !run(target, range, events).open_ports.contains(port),
        !run(target, range, events).channel.pending.contains(port),
        run(target, range, events).open_ports.to_multiset().count(port) == 0,
{
    let v = run(target, range, events);
    lemma_run_inv(target, range, events);
    lemma_run_truthful(target, range, events, listeners);
    assert(!v.found_open(port)) by {
        assert(v.task_state(port) == Some(ProbeState::Open) ==> listeners.contains(port));
    }
    if v.open_ports.contains(port) {
        let j = choose|j: int| 0 <= j < v.open_ports.len() && v.open_ports[j] == port;
        assert(v.found_open(v.sent()[j]));
    }
    if v.channel.pending.contains(port) {
        let j = choose|j: int| 0 <= j < v.channel.pending.len() && v.channel.pending[j] == port;
        assert(v.found_open(v.sent()[v.open_ports.len() + j]));
    }
    v.open_ports.to_multiset_ensures();
}

/// Two complete runs over the same range against the same listeners find the
/// same open ports, though not always in the same order.
pub proof fn law_same_listeners_same_open_ports(
    target: Target,
    range: PortRange,
    first_run: Seq<Event>,
    second_run: Seq<Event>,
    listeners: Set<u16>,
)
    requires
        range.wf(),
        faithful(first_run, listeners),
        faithful(second_run, listeners),
        run(target, range, first_run).phase == Phase::Complete,
        run(target, range, second_run).phase == Phase::Complete,
    ensures
        run(target, range, first_run).open_ports.to_multiset() == run(
            target,
            range,
            second_run,
        ).open_ports.to_multiset(),
        run(target, range, first_run).open_ports.len() == run(
            target,
            range,
            second_run,
        ).open_ports.len(),
{
    let a = run(target, range, first_run).open_ports;
    let b = run(target, range, second_run).open_ports;
    law_open_ports_are_listening_ports(target, range, first_run, listeners);
    law_open_ports_are_listening_ports(target, range, second_run, listeners);
    a.to_multiset_ensures();
    b.to_multiset_ensures();
    a.lemma_multiset_has_no_duplicates();
    b.lemma_multiset_has_no_duplicates();
    assert forall|port: u16| a.to_multiset().count(port) == b.to_multiset().count(port) by {
        assert(a.contains(port) <==> b.contains(port));
    }
    assert(a.to_multiset() =~= b.to_multiset());
}

/// A run over an empty range goes from its start to its end in three moves of
/// the coordinator, none of which waits, and ends with no open port.
pub proof fn law_empty_range_runs_through(target: Target, range: PortRange)
    requires
        range.wf(),
        range.first() >= range.cutoff(),
    ensures
        ScanView::init(target, range).next_step() == Step::Started,
        ScanView::init(target, range).advance().next_step() == Step::Released,
        ScanView::init(target, range).advance().advance().next_step() == Step::Done,
        ScanView::init(target, range).advance().advance().advance().phase == Phase::Complete,
        ScanView::init(target, range).advance().advance().advance().launched() == 0,
        ScanView::init(target, range).advance().advance().advance().open_ports.len() == 0,
{
}

/// At no point of a run over an empty range is there a probe task or an open
/// port, and the coordinator never has to wait.
pub proof fn law_empty_range_never_waits(target: Target, range: PortRange, events: Seq<Event>)
    requires
        range.wf(),
        range.first() >= range.cutoff(),
    ensures
        run(target, range, events).launched() == 0,
        run(target, range, events).open_ports.len() == 0,
        run(target, range, events).next_step() != Step::Wait,
        !(run(target, range, events).next_step() is Launch),
{
    let v = run(target, range, events);
    lemma_run_inv(target, range, events);
    assert(v.tasks =~= Seq::<ProbeState>::empty());
    if v.sent().len() > 0 {
        assert(v.found_open(v.sent()[0]));
    }
    assert(v.sent().len() == v.open_ports.len() + v.channel.pending.len());
}

/// The range is half-open: a port at or above its end, and so port 65535 in
/// any range, is never probed and never reported.
pub proof fn law_end_port_not_scanned(
    target: Target,
    range: PortRange,
    events: Seq<Event>,
    port: u16,
)
    requires
        range.wf(),
        port >= range.cutoff(),
    ensures
        !run(target, range, events).has_task(port),
        run(target, range, events).next_step() != Step::Launch(port),
        !run(target, range, events).open_ports.contains(port),
        !run(target, range, events).has_task(MAX),
        run(target, range, events).next_step() != Step::Launch(MAX),
        !run(target, range, events).open_ports.contains(MAX),
{
    let v = run(target, range, events);
    lemma_run_inv(target, range, events);
    if v.open_ports.contains(port) {
        let j = choose|j: int| 0 <= j < v.open_ports.len() && v.open_ports[j] == port;
        assert(v.found_open(v.sent()[j]));
    }
    if v.open_ports.contains(MAX) {
        let j = choose|j: int| 0 <= j < v.open_ports.len() && v.open_ports[j] == MAX;
        assert(v.found_open(v.sent()[j]));
    }
}

/// The drain waits for nothing but probe tasks. As long as the coordinator
/// holds its own producer handle, the channel cannot be disconnected. Once
/// the handle is released, the coordinator waits only while a task is
/// unresolved; when all have resolved it collects what is pending and the
/// run is done, also where no port was found open.
pub proof fn law_drain_ends(target: Target, range: PortRange, events: Seq<Event>)
    requires
        range.wf(),
    ensures
        run(target, range, events).holds_template() ==> !run(
            target,
            range,
            events,
        ).channel.drained(),
        run(target, range, events).phase == Phase::Draining ==> !run(
            target,
            range,
            events,
        ).holds_template() && run(target, range, events).channel.producers == unresolved(
            run(target, range, events).tasks,
        ),
        run(target, range, events).next_step() == Step::Wait ==> unresolved(
            run(target, range, events).tasks,
        ) > 0,
        run(target, range, events).phase == Phase::Draining && unresolved(
            run(target, range, events).tasks,
        ) == 0 && run(target, range, events).channel.pending.len() == 0 ==> run(
            target,
            range,
            events,
        ).next_step() == Step::Done,
{
    lemma_run_inv(target, range, events);
}

/// A run that is not complete can always move. Unless its next move is
/// `Wait`, the coordinator moves by itself; where it is `Wait`, there is a
/// task that can begin its connection attempt, or one whose attempt can end,
/// connected or not.
pub proof fn law_progress(target: Target, range: PortRange, events: Seq<Event>)
    requires
        range.wf(),
        run(target, range, events).phase != Phase::Complete,
    ensures
        run(target, range, events).next_step() != Step::Wait ==> run(
            target,
            range,
            events,
        ).advance() != run(target, range, events),
        run(target, range, events).next_step() == Step::Wait ==> exists|port: u16|
            (#[trigger] run(target, range, events).begin_result(port)) is Ok || (run(
                target,
                range,
                events,
            ).resolve_result(port, true) is Ok && run(target, range, events).resolve_result(
                port,
                false,
            ) is Ok),
{
    let v = run(target, range, events);
    lemma_run_inv(target, range, events);
    if v.next_step() == Step::Wait {
        lemma_unresolved_zero(v.tasks);
        let i = choose|i: int| 0 <= i < v.tasks.len() && !v.tasks[i].resolved();
        let port = range.port_at(i);
        assert(v.has_task(port) && v.index(port) == i);
        assert(v.begin_result(port) is Ok || (v.resolve_result(port, true) is Ok
            && v.resolve_result(port, false) is Ok));
    } else {
        let w = v.advance();
        match v.next_step() {
            Step::Launch(_) => {
                assert(w.tasks.len() != v.tasks.len());
            },
            Step::Collected(_) => {
                assert(w.open_ports.len() != v.open_ports.len());
            },
            _ => {},
        }
    }
}

/// No run goes on for ever: the events that change its state number at most
/// three and five for each port of the range.
pub proof fn law_runs_are_finite(target: Target, range: PortRange, events: Seq<Event>)
    requires
        range.wf(),
    ensures
        moves(target, range, events) + run(target, range, events).work_left() <= 3 + 5
            * range.len(),
    decreases events.len(),
{
    if events.len() > 0 {
        let front = events.drop_last();
        law_runs_are_finite(target, range, front);
        lemma_run_inv(target, range, front);
        lemma_apply_inv(run(target, range, front), events.last());
    }
}

} // verus!

//! Proofs that every move of a scan run keeps `ScanView::inv` and lowers
//! `ScanView::work_left`.

use crate::model::{steps_left, unresolved, Phase, ScanView, Step};
use crate::probe::ProbeState;
use crate::range::PortRange;
use crate::target::Target;
use vstd::prelude::*;

verus! {

/// One more task adds its own share to the two sums over the tasks.
pub proof fn lemma_sums_push(tasks: Seq<ProbeState>, state: ProbeState)
    ensures
        unresolved(tasks.push(state)) == unresolved(tasks) + if state.resolved() {
            0nat
        } else {
            1nat
        },
        steps_left(tasks.push(state)) == steps_left(tasks) + state.steps_left(),
{
    assert(tasks.push(state).drop_last() =~= tasks);
}

/// A task that changes its state changes the two sums over the tasks by the
/// difference of its shares.
pub proof fn lemma_sums_update(tasks: Seq<ProbeState>, i: int, state: ProbeState)
    requires
        0 <= i < tasks.len(),
    ensures
        unresolved(tasks.update(i, state)) + (if tasks[i].resolved() {
            0nat
        } else {
            1nat
        }) == unresolved(tasks) + if state.resolved() {
            0nat
        } else {
            1nat
        },
        steps_left(tasks.update(i, state)) + tasks[i].steps_left() == steps_left(tasks)
            + state.steps_left(),
    decreases tasks.len(),
{
    let changed = tasks.update(i, state);
    if i == tasks.len() - 1 {
        assert(changed.drop_last() =~= tasks.drop_last());
    } else {
        assert(changed.drop_last() =~= tasks.drop_last().update(i, state));
        lemma_sums_update(tasks.drop_last(), i, state);
    }
}

/// No task is unresolved exactly when every task is resolved, and then no
/// task has a transition left to make.
pub proof fn lemma_unresolved_zero(tasks: Seq<ProbeState>)
    ensures
        unresolved(tasks) == 0 <==> forall|i: int| 0 <= i < tasks.len() ==> tasks[i].resolved(),
        unresolved(tasks) == 0 ==> steps_left(tasks) == 0,
        unresolved(tasks) <= tasks.len(),
    decreases tasks.len(),
{
    if tasks.len() > 0 {
        let front = tasks.drop_last();
        lemma_unresolved_zero(front);
        if unresolved(tasks) == 0 {
            assert forall|i: int| 0 <= i < tasks.len() implies tasks[i].resolved() by {
                if i < front.len() {
                    assert(front[i] == tasks[i]);
                }
            }
        }
        if forall|i: int| 0 <= i < tasks.len() ==> tasks[i].resolved() {
            assert forall|i: int| 0 <= i < front.len() implies front[i].resolved() by {
                assert(front[i] == tasks[i]);
            }
        }
    }
}

/// A move that neither sends a port nor changes what was found open keeps
/// the ports sent in step with the ports found open.
proof fn lemma_findings_kept(v: ScanView, w: ScanView)
    requires
        v.sent_what_was_found(),
        w.sent() =~= v.sent(),
        forall|port: u16| #[trigger] w.found_open(port) == v.found_open(port),
    ensures
        w.sent_what_was_found(),
{
    assert forall|j: int| 0 <= j < w.sent().len() implies w.found_open(#[trigger] w.sent()[j]) by {
        assert(v.found_open(v.sent()[j]));
    }
}

/// A run that has not begun satisfies the invariant.
pub proof fn lemma_init_inv(target: Target, range: PortRange)
    requires
        range.wf(),
    ensures
        ScanView::init(target, range).inv(),
{
    let v = ScanView::init(target, range);
    assert(v.sent() =~= Seq::<u16>::empty());
}

/// A move of the coordinator keeps the invariant, and every move but `Wait`
/// and the `Done` of a complete run lowers the work that is left.
pub proof fn lemma_advance_inv(v: ScanView)
    requires
        v.inv(),
    ensures
        v.advance().inv(),
        v.next_step() != Step::Wait && v.phase != Phase::Complete ==> v.advance().work_left()
            < v.work_left(),
        v.next_step() == Step::Wait || v.phase == Phase::Complete ==> v.advance() == v,
{
    let w = v.advance();
    if v.next_step() is Launch {
        lemma_sums_push(v.tasks, ProbeState::Spawned);
        assert forall|port: u16| #[trigger] w.found_open(port) == v.found_open(port) by {
            if w.has_task(port) && w.index(port) < v.tasks.len() {
                assert(w.tasks[w.index(port)] == v.tasks[v.index(port)]);
            }
        }
    }
    lemma_findings_kept(v, w);
}

/// The begin of a connection attempt keeps the invariant, and lowers the
/// work that is left if it was accepted.
pub proof fn lemma_begin_inv(v: ScanView, port: u16)
    requires
        v.inv(),
    ensures
        v.after_begin(port).inv(),
        v.begin_result(port) is Ok ==> v.after_begin(port).work_left() < v.work_left(),
        v.begin_result(port) is Err ==> v.after_begin(port) == v,
{
    let w = v.after_begin(port);
    if v.begin_result(port) is Ok {
        lemma_sums_update(v.tasks, v.index(port), ProbeState::Connecting);
        lemma_findings_kept(v, w);
    }
}

/// The end of a connection attempt keeps the invariant, and lowers the work
/// that is left if it was accepted. It is accepted only while the run is not
/// complete, and finds a producer handle to release.
pub proof fn lemma_resolve_inv(v: ScanView, port: u16, connected: bool)
    requires
        v.inv(),
    ensures
        v.after_resolve(port, connected).inv(),
        v.resolve_result(port, connected) is Ok ==> v.after_resolve(port, connected).work_left()
            < v.work_left(),
        v.resolve_result(port, connected) is Ok ==> v.channel.producers > 0
            && v.phase != Phase::Complete,
        v.resolve_result(port, connected) is Err ==> v.after_resolve(port, connected) == v,
{
    let w = v.after_resolve(port, connected);
    if v.resolve_result(port, connected) is Ok {
        let i = v.index(port);
        lemma_sums_update(v.tasks, i, w.tasks[i]);
        lemma_unresolved_zero(v.tasks);
        assert(!v.tasks[i].resolved());
        if connected {
            assert(w.sent() =~= v.sent().push(port));
            assert forall|j: int| 0 <= j < w.sent().len() implies w.found_open(
                #[trigger] w.sent()[j],
            ) by {
                if j < v.sent().len() {
                    assert(v.found_open(v.sent()[j]));
                }
            }
            assert forall|other: u16| #[trigger] w.found_open(other) implies w.sent().contains(
                other,
            ) by {
                if other == port {
                    assert(w.sent()[v.sent().len() as int] == port);
                } else {
                    assert(v.found_open(other));
                    let j = choose|j: int| 0 <= j < v.sent().len() && v.sent()[j] == other;
                    assert(w.sent()[j] == other);
                }
            }
            assert forall|a: int, b: int|
                0 <= a < w.sent().len() && 0 <= b < w.sent().len() && a != b implies w.sent()[a]
                != w.sent()[b] by {
                if a < v.sent().len() {
                    assert(v.found_open(v.sent()[a]));
                }
                if b < v.sent().len() {
                    assert(v.found_open(v.sent()[b]));
                }
            }
        } else {
            lemma_findings_kept(v, w);
        }
    }
}

} // verus!

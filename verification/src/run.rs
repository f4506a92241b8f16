//! A scan run from start to end in one call, against listeners that are
//! given as a list of ports.

use crate::model::{Phase, Step};
use crate::preserve::{
    lemma_advance_inv,
    lemma_begin_inv,
    lemma_resolve_inv,
    lemma_unresolved_zero,
};
use crate::range::PortRange;
use crate::scan::Scan;
use crate::target::Target;
use vstd::prelude::*;

verus! {

/// The test that a port passes when it is one of `listeners`.
pub open spec fn listening(listeners: Seq<u16>) -> spec_fn(u16) -> bool {
    |port: u16| listeners.contains(port)
}

/// The ports of `range` that are among `listeners`, in rising order.
pub open spec fn listening_ports(range: PortRange, listeners: Seq<u16>) -> Seq<u16> {
    range.ports().filter(listening(listeners))
}

/// Among the first `k` ports of a range, the listening ones come in rising
/// order, each is a listener's port, and none is left out.
proof fn lemma_listening_prefix(range: PortRange, listeners: Seq<u16>, k: int)
    requires
        range.wf(),
        0 <= k <= range.len(),
    ensures
        ({
            let found = range.ports().take(k).filter(listening(listeners));
            &&& forall|i: int|
                0 <= i < found.len() ==> range.first() <= #[trigger] found[i] < range.first() + k
                    && listeners.contains(found[i])
            &&& forall|i: int, j: int| 0 <= i < j < found.len() ==> found[i] < found[j]
            &&& forall|port: u16|
                range.first() <= port < range.first() + k && listeners.contains(port)
                    ==> #[trigger] found.contains(port)
        }),
    decreases k,
{
    reveal(Seq::filter);
    let prefix = range.ports().take(k);
    let found = prefix.filter(listening(listeners));
    if k > 0 {
        lemma_listening_prefix(range, listeners, k - 1);
        let shorter = range.ports().take(k - 1).filter(listening(listeners));
        let last = range.port_at(k - 1);
        assert(prefix.drop_last() =~= range.ports().take(k - 1));
        assert(prefix.last() == last);
        assert forall|port: u16|
            range.first() <= port < range.first() + k && listeners.contains(
                port,
            ) implies #[trigger] found.contains(port) by {
            if port == last {
                assert(found[found.len() - 1] == port);
            } else {
                assert(shorter.contains(port));
                let i = choose|i: int| 0 <= i < shorter.len() && shorter[i] == port;
                assert(found[i] == port);
            }
        }
    }
}

/// The listening ports of a range are the ports of the range that are among
/// the listeners, in rising order and so each of them once.
pub proof fn lemma_listening_ports(range: PortRange, listeners: Seq<u16>)
    requires
        range.wf(),
    ensures
        forall|port: u16| #[trigger]
            listening_ports(range, listeners).contains(port) <==> range.contains(port as int)
                && listeners.contains(port),
        forall|i: int, j: int|
            0 <= i < j < listening_ports(range, listeners).len() ==> listening_ports(
                range,
                listeners,
            )[i] < listening_ports(range, listeners)[j],
        listening_ports(range, listeners).no_duplicates(),
{
    lemma_listening_prefix(range, listeners, range.len() as int);
    assert(range.ports().take(range.len() as int) =~= range.ports());
    let found = listening_ports(range, listeners);
    assert forall|port: u16| #[trigger]
        found.contains(port) <==> range.contains(port as int) && listeners.contains(port) by {
        if found.contains(port) {
            let i = choose|i: int| 0 <= i < found.len() && found[i] == port;
            assert(range.first() <= found[i] < range.first() + range.len());
        }
    }
}

/// Whether `port` is one of `listeners`.
pub fn is_listening(listeners: &Vec<u16>, port: u16) -> (found: bool)
    ensures
        found == listeners@.contains(port),
{
    let mut i: usize = 0;
    while i < listeners.len()
        invariant
            i <= listeners.len(),
            forall|j: int| 0 <= j < i ==> listeners@[j] != port,
        decreases listeners.len() - i,
    {
        if listeners[i] == port {
            return true;
        }
        i = i + 1;
    }
    false
}

/// Runs a scan of `range` to its end, with a connection attempt succeeding
/// exactly on the ports of `listeners`, and returns the open ports.
///
/// Each probe resolves as soon as it is launched, so the ports come out in
/// rising order: the ports of the range that are among the listeners, each
/// once.
pub fn run_scan(target: Target, range: PortRange, listeners: &Vec<u16>) -> (open_ports: Vec<u16>)
    requires
        range.wf(),
    ensures
        open_ports@ == listening_ports(range, listeners@),
{
    let mut scan = Scan::new(target, range);
    let ghost wanted = listening(listeners@);
    proof {
        reveal(Seq::filter);
        assert(scan@.sent() =~= Seq::<u16>::empty());
        assert(range.ports().take(0) =~= Seq::<u16>::empty());
    }
    loop
        invariant_except_break
            scan@.phase != Phase::Complete,
        invariant
            scan.wf(),
            range.wf(),
            scan@.range == range,
            wanted == listening(listeners@),
            forall|i: int| 0 <= i < scan@.tasks.len() ==> (#[trigger] scan@.tasks[i]).resolved(),
            scan@.sent() == range.ports().take(scan@.launched() as int).filter(wanted),
        ensures
            scan@.phase == Phase::Complete,
        decreases scan@.work_left(),
    {
        let ghost before = scan@;
        proof {
            lemma_unresolved_zero(before.tasks);
            lemma_advance_inv(before);
        }
        let step = scan.advance();
        match step {
            Step::Launch(port) => {
                let ghost launched = scan@;
                let ghost at = before.tasks.len() as int;
                let connected = is_listening(listeners, port);
                proof {
                    lemma_begin_inv(launched, port);
                    lemma_resolve_inv(launched.after_begin(port), port, connected);
                    assert(launched.index(port) == at);
                    assert(launched.sent() =~= before.sent());
                }
                let begun = scan.begin(port);
                let resolved = scan.resolve(port, connected);
                proof {
                    assert(begun is Ok);
                    assert(resolved is Ok);
                    let ports = range.ports();
                    assert(ports.take(at + 1).drop_last() =~= ports.take(at));
                    assert(ports.take(at + 1).last() == port);
                    assert(wanted(port) == connected);
                    if connected {
                        assert(scan@.sent() =~= before.sent().push(port));
                    } else {
                        assert(scan@.sent() =~= before.sent());
                    }
                    assert(ports.take(at + 1).filter(wanted) == if connected {
                        ports.take(at).filter(wanted).push(port)
                    } else {
                        ports.take(at).filter(wanted)
                    }) by {
                        reveal(Seq::filter);
                    }
                    assert forall|i: int| 0 <= i < scan@.tasks.len() implies (
                    #[trigger] scan@.tasks[i]).resolved() by {
                        if i < at {
                            assert(scan@.tasks[i] == before.tasks[i]);
                        }
                    }
                }
            },
            Step::Done => {
                break ;
            },
            _ => {
                proof {
                    assert(scan@.sent() =~= before.sent());
                    assert(scan@.tasks =~= before.tasks);
                }
            },
        }
    }
    proof {
        assert(scan@.sent() =~= scan@.open_ports);
        assert(range.ports().take(scan@.launched() as int) =~= range.ports());
    }
    scan.into_open_ports()
}

} // verus!

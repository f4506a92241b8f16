//! Port numbers and the half-open range of ports that a scan covers.

use vstd::prelude::*;

verus! {

/// The highest port number.
pub const MAX: u16 = 65535;

/// Accepts a start port: any port but 0.
pub fn start_port_guard(input: &u16) -> (ok: bool)
    ensures
        ok == (*input > 0),
{
    *input > 0
}

/// Accepts an end port: any port up to `MAX`, which is every 16-bit value.
pub fn end_port_guard(input: &u16) -> (ok: bool)
    ensures
        ok == (*input <= MAX),
        ok,
{
    *input <= MAX
}

/// The ports `start, start + 1, .., end - 1`. The port `end` itself is not part
/// of the range, and a range whose `end` is not above its `start` is empty.
#[derive(Clone, Copy, Debug, PartialEq, Eq, Structural)]
pub struct PortRange {
    start: u16,
    end: u16,
}

impl PortRange {
    /// The first port of the range.
    pub closed spec fn first(self) -> int {
        self.start as int
    }

    /// The cutoff: the first port above the range.
    pub closed spec fn cutoff(self) -> int {
        self.end as int
    }

    /// A range starts at port 1 or above and ends at `MAX` or below.
    pub open spec fn wf(self) -> bool {
        1 <= self.first() <= MAX && 0 <= self.cutoff() <= MAX
    }

    /// Whether `port` is one of the ports of the range.
    pub open spec fn contains(self, port: int) -> bool {
        self.first() <= port < self.cutoff()
    }

    /// The number of ports in the range.
    pub open spec fn len(self) -> nat {
        if self.first() < self.cutoff() {
            (self.cutoff() - self.first()) as nat
        } else {
            0
        }
    }

    /// The port at position `i` of the range, counted from 0.
    pub open spec fn port_at(self, i: int) -> u16 {
        (self.first() + i) as u16
    }

    /// The ports of the range in rising order.
    pub open spec fn ports(self) -> Seq<u16> {
        Seq::new(self.len(), |i: int| self.port_at(i))
    }

    /// Builds the range `[start, end)`. A start port of 0 is refused.
    pub fn new(start: u16, end: u16) -> (range: Option<PortRange>)
        ensures
            range is Some <==> start > 0,
            range matches Some(r) ==> r.wf() && r.first() == start && r.cutoff() == end,
    {
        if start_port_guard(&start) && end_port_guard(&end) {
            Some(PortRange { start, end })
        } else {
            None
        }
    }

    /// The first port of the range.
    pub fn start(&self) -> (port: u16)
        ensures
            port == self.first(),
    {
        self.start
    }

    /// The cutoff of the range.
    pub fn end(&self) -> (port: u16)
        ensures
            port == self.cutoff(),
    {
        self.end
    }

    /// The number of ports in the range.
    pub fn count(&self) -> (n: u16)
        ensures
            n == self.len(),
    {
        if self.start < self.end {
            self.end - self.start
        } else {
            0
        }
    }

    /// Whether the range holds no port.
    pub fn is_empty(&self) -> (empty: bool)
        ensures
            empty == (self.len() == 0),
    {
        self.start >= self.end
    }

    /// Whether `port` is one of the ports of the range.
    pub fn covers(&self, port: u16) -> (inside: bool)
        ensures
            inside == self.contains(port as int),
    {
        self.start <= port && port < self.end
    }

    /// The position of `port` in the range, if it is one of its ports.
    pub fn position(&self, port: u16) -> (at: Option<u16>)
        ensures
            at is Some <==> self.contains(port as int),
            at matches Some(i) ==> i == port - self.first() && i < self.len() && self.port_at(
                i as int,
            ) == port,
    {
        if self.covers(port) {
            Some(port - self.start)
        } else {
            None
        }
    }

    /// The ports of the range in rising order.
    pub fn to_vec(&self) -> (list: Vec<u16>)
        ensures
            list@ == self.ports(),
    {
        let mut list: Vec<u16> = Vec::new();
        let mut port: u16 = self.start;
        while port < self.end
            invariant
                self.start <= port,
                port <= self.end || port == self.start,
                list@.len() == port - self.start,
                forall|i: int| 0 <= i < list@.len() ==> list@[i] == self.port_at(i),
            decreases self.end - port,
        {
            list.push(port);
            port = port + 1;
        }
        proof {
            assert(list@ =~= self.ports());
        }
        list
    }
}

/// Every port of a range lies at or above its start and below its cutoff, so
/// the cutoff itself, and with it port 65535, is never one of them.
pub proof fn law_ports_half_open(range: PortRange, i: int)
    requires
        range.wf(),
        0 <= i < range.ports().len(),
    ensures
        range.first() <= range.ports()[i] < range.cutoff(),
        range.ports()[i] == range.first() + i,
        range.ports()[i] < MAX,
{
}

/// No port occurs twice among the ports of a range, and a port is among them
/// exactly when the range contains it.
pub proof fn law_ports_distinct(range: PortRange)
    requires
        range.wf(),
    ensures
        range.ports().no_duplicates(),
        forall|p: u16| range.ports().contains(p) <==> range.contains(p as int),
{
    assert forall|p: u16| range.ports().contains(p) <==> range.contains(p as int) by {
        if range.contains(p as int) {
            let i: int = p - range.first();
            assert(range.ports()[i] == p);
        }
    }
}

} // verus!

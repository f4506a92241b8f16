//! The address that a scan is aimed at, and the arguments of a scan run.

use crate::range::{end_port_guard, start_port_guard, PortRange, MAX};
use vstd::prelude::*;

verus! {

/// An IP address, held as the number that its bytes spell in network order.
#[derive(Clone, Copy, Debug, PartialEq, Eq, Structural)]
pub enum Target {
    V4(u32),
    V6(u128),
}

impl Target {
    /// The IPv4 loopback address, 127.0.0.1.
    pub open spec fn loopback_spec() -> Target {
        Target::V4(0x7f00_0001)
    }

    /// The IPv4 loopback address, 127.0.0.1.
    #[verifier::when_used_as_spec(loopback_spec)]
    pub fn loopback() -> (target: Target)
        ensures
            target == Target::loopback(),
    {
        Target::V4(0x7f00_0001)
    }
}

/// The arguments of a scan run: the address to scan, the port to start at and
/// the cutoff port, which is itself not scanned.
#[derive(Clone, Copy, Debug, PartialEq, Eq, Structural)]
pub struct Arguments {
    pub address: Target,
    pub start_port: u16,
    pub end_port: u16,
}

impl Arguments {
    /// The arguments that the two port guards accept.
    pub open spec fn valid(self) -> bool {
        self.start_port > 0 && self.end_port <= MAX
    }

    /// Checks the two ports with their guards.
    pub fn is_valid(&self) -> (ok: bool)
        ensures
            ok == self.valid(),
    {
        start_port_guard(&self.start_port) && end_port_guard(&self.end_port)
    }

    /// The range of ports that these arguments ask for, if they are valid.
    pub fn range(&self) -> (range: Option<PortRange>)
        ensures
            range is Some <==> self.valid(),
            range matches Some(r) ==> r.wf() && r.first() == self.start_port && r.cutoff()
                == self.end_port,
    {
        PortRange::new(self.start_port, self.end_port)
    }
}

impl Default for Arguments {
    /// The arguments of a run that names none: the loopback address, from
    /// port 1 up to the cutoff 65535.
    fn default() -> (args: Arguments)
        ensures
            args == (Arguments { address: Target::loopback(), start_port: 1, end_port: MAX }),
    {
        Arguments { address: Target::loopback(), start_port: 1, end_port: MAX }
    }
}

} // verus!

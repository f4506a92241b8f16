//! What a scan run hands to whoever reports it.

use crate::target::Target;
use vstd::prelude::*;

verus! {

/// The result of a scan run, as the report tells it: either no port of the
/// target was found open, or these were, in the order in which they were
/// found.
#[derive(Debug, PartialEq, Eq)]
pub enum Summary {
    NoneOpen { target: Target },
    Open { target: Target, ports: Vec<u16> },
}

impl Summary {
    /// The target that the summary names.
    pub open spec fn target_of(self) -> Target {
        match self {
            Summary::NoneOpen { target } => target,
            Summary::Open { target, .. } => target,
        }
    }

    /// The open ports that the summary lists.
    pub open spec fn ports_of(self) -> Seq<u16> {
        match self {
            Summary::NoneOpen { .. } => Seq::empty(),
            Summary::Open { ports, .. } => ports@,
        }
    }

    /// A summary says `NoneOpen` exactly when it lists no port.
    pub open spec fn wf(self) -> bool {
        match self {
            Summary::NoneOpen { .. } => true,
            Summary::Open { ports, .. } => ports@.len() > 0,
        }
    }

    /// The target that the summary names.
    pub fn target(&self) -> (target: Target)
        ensures
            target == self.target_of(),
    {
        match self {
            Summary::NoneOpen { target } => *target,
            Summary::Open { target, .. } => *target,
        }
    }

    /// The number of open ports.
    pub fn count(&self) -> (count: usize)
        ensures
            count == self.ports_of().len(),
    {
        match self {
            Summary::NoneOpen { .. } => 0,
            Summary::Open { ports, .. } => ports.len(),
        }
    }
}

/// Sums up a run against `target` that collected `open_ports`.
pub fn summarize(target: Target, open_ports: Vec<u16>) -> (summary: Summary)
    ensures
        summary.wf(),
        summary.target_of() == target,
        summary.ports_of() == open_ports@,
        summary is NoneOpen <==> open_ports@.len() == 0,
{
    if open_ports.len() == 0 {
        Summary::NoneOpen { target }
    } else {
        Summary::Open { target, ports: open_ports }
    }
}

} // verus!

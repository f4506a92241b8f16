//! The decision core of a concurrent TCP port scanner.
//!
//! The crate performs no input or output. It holds the rules of a scan run:
//! which ports are probed, how the producer handles of the result channel are
//! counted, when the drain of the channel ends, and which ports are reported
//! as open. A shell around it opens the connections and tells the core what
//! happened.

pub mod channel;
pub mod laws;
pub mod model;
pub mod preserve;
pub mod probe;
pub mod range;
pub mod report;
pub mod run;
pub mod scan;
pub mod target;
pub mod trace;

pub use channel::{ChannelError, ChannelView, Received, ResultChannel};
pub use model::{Phase, ScanError, ScanView, Step};
pub use probe::{ProbeEffects, ProbeOutcome, ProbeState, ProbeTask};
pub use range::{end_port_guard, start_port_guard, PortRange, MAX};
pub use report::{summarize, Summary};
pub use run::{is_listening, run_scan};
pub use scan::Scan;
pub use target::{Arguments, Target};

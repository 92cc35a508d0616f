//! Small helpers for command-line tools: named interval timers with derived
//! throughput rates, system snapshot tables, and status-line text.
use vstd::prelude::*;

pub mod sysinfo;
pub mod timers;
pub mod verbose;

verus! {

} // verus!

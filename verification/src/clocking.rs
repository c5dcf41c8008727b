use vstd::prelude::*;

verus! {

/// The clock and reset wires that every synchronous kernel receives.
///
/// The kernels of this crate are purely combinational: the clock edge only
/// decides when their "next" outputs are latched, so none of them reads it.
#[derive(Debug, Clone, Copy, PartialEq, Eq, Structural)]
pub struct ClockReset {
    pub clock: bool,
    pub reset: bool,
}

} // verus!

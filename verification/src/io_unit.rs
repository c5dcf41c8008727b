//! Generic io sram module.
use vstd::prelude::*;

verus! {

/// The lines the CPU drives towards the I/O unit: the port-address latch
/// (`ioa_*`) and the port itself (`io_*`).
#[derive(Debug, Clone, Copy, PartialEq, Eq, Structural)]
pub struct IOSignals {
    pub ioa_we: bool,
    pub ioa_oe: bool,
    pub io_oe: bool,
    pub io_we: bool,
}

} // verus!

use vstd::prelude::*;
use crate::control_unit::State;

pub mod cpu_test;

verus! {

/// The initial contents of the CPU's registers and the control unit's
/// initial state, used to start a simulation from a chosen point.
#[derive(Clone, Debug, Default)]
pub struct CpuDefault {
    pub regs: [u128; 8],
    pub T1: u128,
    pub T2: u128,
    pub MA: u128,
    pub IR: u128,
    pub PC: u128,
    pub FR: u128,
    pub state: State,
}

} // verus!

use vstd::prelude::*;

verus! {

/// The operations that the control unit can select on the ALU.
#[allow(non_camel_case_types)]
#[derive(Debug, Clone, Copy, PartialEq, Eq, Structural)]
pub enum AluOp {
    /// `t1 + t2 + carry`
    ADC,
    /// `t1 - t2 - carry`
    SBB1,
    /// `t2 - t1 - carry`
    SBB2,
    AND,
    OR,
    XOR,
    NOT,
    SHL,
    SHR,
    SAR,
}

/// The five status flags produced by the ALU and kept in the flags register.
#[derive(Debug, Clone, Copy, PartialEq, Eq, Structural)]
pub struct AluFlags {
    /// carry
    pub c: bool,
    /// zero
    pub z: bool,
    /// sign
    pub s: bool,
    /// overflow
    pub o: bool,
    /// parity
    pub p: bool,
}

} // verus!

use vstd::prelude::*;
use crate::clocking::ClockReset;

verus! {

/// What a register of the register file is driven with in one cycle:
/// the value on its data input, its output-enable and its write-enable.
#[derive(Debug, Clone, Copy, PartialEq, Eq, Structural)]
pub struct RegInput {
    pub data_in: u16,
    pub oe: bool,
    pub we: bool,
}

impl Default for RegInput {
    fn default() -> (r: Self)
        ensures
            r == (RegInput { data_in: 0, oe: false, we: false }),
    {
        RegInput { data_in: 0, oe: false, we: false }
    }
}

/// The inputs of a single bus register: output-enable, write-enable and data.
#[derive(Debug, Clone, Copy, PartialEq, Eq, Structural)]
pub struct RegisterInput {
    pub oe: bool,
    pub we: bool,
    pub data_in: u16,
}

/// A single 16-bit bus register; `memory` is the value latched in its flip-flop.
#[derive(Debug, Clone, Copy, PartialEq, Eq, Structural)]
pub struct Register {
    pub memory: u16,
}

impl Default for Register {
    fn default() -> (r: Self)
        ensures
            r.memory == 0,
    {
        Register { memory: 0 }
    }
}

/// What a bus register drives onto the bus: its contents when it is read
/// (output enabled and not written in the same cycle), otherwise nothing (0).
pub open spec fn register_out(i: RegisterInput, q: Register) -> u16 {
    if i.oe && !i.we {
        q.memory
    } else {
        0
    }
}

/// The value the register holds after the clock edge: the data input when it
/// is written, otherwise its old contents.
pub open spec fn register_next(i: RegisterInput, q: Register) -> Register {
    if i.we {
        Register { memory: i.data_in }
    } else {
        q
    }
}

/// One cycle of a bus register: its bus output and its next contents.
pub fn register_kernel(_cr: ClockReset, _i: RegisterInput, _q: Register) -> (r: (u16, Register))
    ensures
        r.0 == register_out(_i, _q),
        r.1 == register_next(_i, _q),
{
    (
        if _i.oe && !_i.we {
            _q.memory
        } else {
            0
        },
        Register {
            memory: if _i.we {
                _i.data_in
            } else {
                _q.memory
            },
        },
    )
}

/// A value written into a register is what a later read drives onto the
/// bus, and a read leaves the register unchanged.
pub proof fn lemma_register_write_then_read(q: Register, x: u16, w_oe: bool, d: u16)
    ensures
        ({
            let w = RegisterInput { oe: w_oe, we: true, data_in: x };
            let rd = RegisterInput { oe: true, we: false, data_in: d };
            let q1 = register_next(w, q);
            &&& register_out(w, q) == 0
            &&& q1.memory == x
            &&& register_out(rd, q1) == x
            &&& register_next(rd, q1) == q1
        }),
{
}

} // verus!

use vstd::prelude::*;
use crate::clocking::ClockReset;
use crate::decode_unit::{decode, Decoded, Jcond};
use crate::register::RegInput;

verus! {

/// The eight general registers.
#[allow(non_camel_case_types)]
#[derive(Debug, Clone, Copy, PartialEq, Eq, Structural, Default)]
pub enum Reg {
    #[default]
    RA,
    RB,
    RC,
    SP,
    XA,
    XB,
    BA,
    BB,
}

/// The number that stands for each register in a 3-bit register field.
pub open spec fn reg_code(r: Reg) -> u8 {
    match r {
        Reg::RA => 0,
        Reg::RB => 1,
        Reg::RC => 2,
        Reg::SP => 3,
        Reg::XA => 4,
        Reg::XB => 5,
        Reg::BA => 6,
        Reg::BB => 7,
    }
}

/// The register that a 3-bit register field names. A 3-bit field never
/// holds more than 7; such a value is read as `RA`.
pub open spec fn reg_named(i: u8) -> Reg {
    if i == 0 {
        Reg::RA
    } else if i == 1 {
        Reg::RB
    } else if i == 2 {
        Reg::RC
    } else if i == 3 {
        Reg::SP
    } else if i == 4 {
        Reg::XA
    } else if i == 5 {
        Reg::XB
    } else if i == 6 {
        Reg::BA
    } else if i == 7 {
        Reg::BB
    } else {
        Reg::RA
    }
}

/// Decodes a 3-bit register field.
pub fn reg(i: u8) -> (r: Reg)
    ensures
        r == reg_named(i),
{
    match i {
        0 => Reg::RA,
        1 => Reg::RB,
        2 => Reg::RC,
        3 => Reg::SP,
        4 => Reg::XA,
        5 => Reg::XB,
        6 => Reg::BA,
        7 => Reg::BB,
        _ => Reg::RA,
    }
}

/// Encodes a register as its 3-bit register field.
pub fn rtb(i: Reg) -> (b: u8)
    ensures
        b == reg_code(i),
        b < 8,
{
    match i {
        Reg::RA => 0,
        Reg::RB => 1,
        Reg::RC => 2,
        Reg::SP => 3,
        Reg::XA => 4,
        Reg::XB => 5,
        Reg::BA => 6,
        Reg::BB => 7,
    }
}

/// Register fields and registers correspond one to one: decoding the
/// encoding of a register gives it back, and encoding the register that a
/// 3-bit field names gives back the field.
pub proof fn lemma_reg_encoding_roundtrip(r: Reg, i: u8)
    ensures
        reg_named(reg_code(r)) == r,
        reg_code(r) < 8,
        i < 8 ==> reg_code(reg_named(i)) == i,
{
}

/// The contents of the eight general registers, indexed by register code.
#[derive(Debug, Clone, Copy)]
pub struct RegFile {
    rg: [u16; 8],
}

impl View for RegFile {
    type V = Seq<u16>;

    closed spec fn view(&self) -> Seq<u16> {
        self.rg@
    }
}

impl Default for RegFile {
    /// All registers hold 0.
    fn default() -> (r: Self)
        ensures
            r@ == Seq::new(8, |_i: int| 0u16),
    {
        let r = RegFile { rg: [0, 0, 0, 0, 0, 0, 0, 0] };
        assert(r@ =~= Seq::new(8, |_i: int| 0u16));
        r
    }
}

impl RegFile {
    /// A register file always holds eight registers.
    pub proof fn lemma_len(&self)
        ensures
            self@.len() == 8,
    {
    }
}

/// What the register file drives onto the bus: the selected register when
/// it is read (output enabled, not written in the same cycle), otherwise 0.
pub open spec fn reg_file_out(i: RegInput, sel: Reg, q: Seq<u16>) -> u16 {
    if i.oe && !i.we {
        q[reg_code(sel) as int]
    } else {
        0
    }
}

/// The register contents after the clock edge: the selected register takes
/// the data input when it is written; every other register keeps its value.
pub open spec fn reg_file_next(i: RegInput, sel: Reg, q: Seq<u16>) -> Seq<u16> {
    if i.we {
        q.update(reg_code(sel) as int, i.data_in)
    } else {
        q
    }
}

/// One cycle of the register file: bus output and next register contents.
pub fn reg_file(_cr: ClockReset, i: (RegInput, Reg), q: RegFile) -> (r: (u16, RegFile))
    ensures
        r.0 == reg_file_out(i.0, i.1, q@),
        r.1@ == reg_file_next(i.0, i.1, q@),
{
    let mut d = RegFile { rg: [0, 0, 0, 0, 0, 0, 0, 0] };
    let x = decode(i.0.data_in);
    if let Decoded::Jcond(x) = x {
        match x {
            Jcond::Ja => {
                d.rg[0] = 0;
            },
            _ => {},
        };
    };
    d.rg = q.rg;
    let index = rtb(i.1) as usize;
    if i.0.we {
        d.rg[index] = i.0.data_in;
    };
    assert(d@ =~= reg_file_next(i.0, i.1, q@));
    (
        if i.0.oe && !i.0.we {
            d.rg[index]
        } else {
            0
        },
        d,
    )
}

/// A value written into a register is read back on the next cycle, the
/// write drives nothing onto the bus, and a read changes no register.
pub proof fn lemma_reg_file_write_then_read(q: Seq<u16>, r: Reg, x: u16, w_oe: bool, d: u16)
    requires
        q.len() == 8,
    ensures
        ({
            let w = RegInput { data_in: x, oe: w_oe, we: true };
            let rd = RegInput { data_in: d, oe: true, we: false };
            let q1 = reg_file_next(w, r, q);
            &&& reg_file_out(w, r, q) == 0
            &&& reg_file_out(rd, r, q1) == x
            &&& reg_file_next(rd, r, q1) == q1
        }),
{
}

/// Writing one register leaves every other register as it was.
pub proof fn lemma_reg_file_write_isolated(q: Seq<u16>, r: Reg, other: Reg, i: RegInput)
    requires
        q.len() == 8,
        other != r,
    ensures
        reg_file_next(i, r, q)[reg_code(other) as int] == q[reg_code(other) as int],
        reg_file_next(i, r, q).len() == 8,
{
}

} // verus!

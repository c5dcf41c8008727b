use vstd::prelude::*;
use crate::register_file::{reg, reg_named, Reg};

verus! {

/// The source operand of a two-operand instruction: a register or memory
/// location, or the immediate word that follows the instruction.
#[derive(Debug, Clone, Copy, PartialEq, Eq, Structural)]
pub enum Operand {
    MaybeDst(DstOperand),
    Imm,
}

/// A register or memory location named by an instruction.
#[derive(Debug, Clone, Copy, PartialEq, Eq, Structural)]
pub enum DstOperand {
    /// `[disp]`
    DirectAddress,
    /// `[[disp]]`
    IndirectAddress,
    /// `[reg]`
    RegisterAddress(AddrRegister),
    /// `[base+index]`
    RegSum(BaseRegister, IndexRegister),
    /// `[base+index+]`: the index register is incremented afterwards
    RegSumIncr(BaseRegister, IndexRegister),
    /// `[base+-xa]`: `xa` is decremented first
    RegSumDecr(BaseRegister),
    /// `[base+disp]`
    BasedAddr(BaseRegister),
    /// `[index+disp]`
    IndexedAddr(IndexRegister),
    /// `[base+index+disp]`
    BasedIndexedAddr(BaseRegister, IndexRegister),
    /// a register itself
    Reg(Reg),
}

/// An address register, either a base or an index register.
#[derive(Debug, Clone, Copy, PartialEq, Eq, Structural)]
pub enum AddrRegister {
    Base(BaseRegister),
    Index(IndexRegister),
}

impl Default for AddrRegister {
    fn default() -> (r: Self)
        ensures
            r == AddrRegister::Base(BaseRegister::BA),
    {
        Self::Base(BaseRegister::BA)
    }
}

#[derive(Debug, Clone, Copy, PartialEq, Eq, Structural, Default)]
pub enum BaseRegister {
    #[default]
    BA,
    BB,
}

#[derive(Debug, Clone, Copy, PartialEq, Eq, Structural, Default)]
pub enum IndexRegister {
    #[default]
    XA,
    XB,
}

impl Default for Operand {
    fn default() -> (r: Self)
        ensures
            r == Operand::Imm,
    {
        Self::Imm
    }
}

impl Default for DstOperand {
    fn default() -> (r: Self)
        ensures
            r == DstOperand::Reg(Reg::RA),
    {
        Self::Reg(Reg::RA)
    }
}

/// Two-operand operations. `Cmp` and `Test` are `Sub` and `And` that only
/// set the flags; `Mov` copies its source.
#[derive(Debug, Clone, Copy, PartialEq, Eq, Structural, Default)]
pub enum TwoOp {
    #[default]
    Add,
    Adc,
    Sub,
    Sbb,
    And,
    Or,
    Xor,
    Cmp,
    Test,
    Mov,
}

/// One-operand operations.
#[derive(Debug, Clone, Copy, PartialEq, Eq, Structural, Default)]
pub enum OneOp {
    #[default]
    Mov,
    MovI,
    Push,
    Pop,
    Call,
    Jmp,
    Inc,
    Dec,
    Neg,
    Not,
    Shl,
    Shr,
    Sar,
}

/// Control flow instructions with no effective address
///
/// Keep in mind that io port addresses are placed on the bus directly,
/// no need to pass them to control unit
#[derive(Debug, Clone, Copy, PartialEq, Eq, Structural, Default)]
pub enum CfNea {
    In,
    Out,
    Pushf,
    Popf,
    Ret,
    Iret,
    #[default]
    Hlt,
}

/// Conditional Jumps relative to Program Counter
///
/// Keep in mind that offsets are placed on the bus directly,
/// no need to pass them to control unit
#[derive(Debug, Clone, Copy, PartialEq, Eq, Structural, Default)]
pub enum Jcond {
    #[default]
    Jbe,
    /// Also JC
    Jb,
    Jle,
    Jl,
    /// Also JZ
    Je,
    Jo,
    Js,
    Jpe,
    Ja,
    /// Also JNC
    Jae,
    Jg,
    Jge,
    /// Also JNZ
    Jne,
    Jno,
    Jns,
    Jpo,
}

/// A decoded instruction word.
#[allow(inconsistent_fields)]
#[derive(Debug, Clone, Copy, PartialEq, Eq, Structural, Default)]
pub enum Decoded {
    TwoOp { op: TwoOp, src: Operand, dst: DstOperand },
    OneOp { op: OneOp, dst: DstOperand },
    CfNea(CfNea),
    Jcond(Jcond),
    #[default]
    Invalid,
}

// ---------------------------------------------------------------------------
// Fields of an instruction word
// ---------------------------------------------------------------------------

/// Bits 3..0: the instruction class.
pub open spec fn class_field(i: u16) -> u16 {
    i & 0xf
}

/// Bits 6..4: the operation within its class.
pub open spec fn op_field(i: u16) -> u16 {
    (i >> 4u16) & 7
}

/// Bits 7..4: the condition of a conditional jump.
pub open spec fn cond_field(i: u16) -> u16 {
    (i >> 4u16) & 0xf
}

/// Bit 7: direction; when set, the `mod`/`rm` operand is the source.
pub open spec fn dir_field(i: u16) -> u16 {
    (i >> 7u16) & 1
}

/// Bits 9..8: the addressing mode (`mod`).
pub open spec fn mod_field(i: u16) -> u16 {
    (i >> 8u16) & 3
}

/// Bits 12..10: the register operand.
pub open spec fn reg_field(i: u16) -> u16 {
    (i >> 10u16) & 7
}

/// Bits 15..13: the `rm` field of the addressing mode.
pub open spec fn rm_field(i: u16) -> u16 {
    (i >> 13u16) & 7
}

// ---------------------------------------------------------------------------
// Operation tables
// ---------------------------------------------------------------------------

/// The operations of the two-operand class, by operation field.
pub open spec fn two_op_of(i: u8) -> Option<TwoOp> {
    if i == 0b000 {
        Some(TwoOp::Add)
    } else if i == 0b100 {
        Some(TwoOp::Adc)
    } else if i == 0b010 {
        Some(TwoOp::Sub)
    } else if i == 0b110 {
        Some(TwoOp::Sbb)
    } else if i == 0b001 {
        Some(TwoOp::And)
    } else if i == 0b101 {
        Some(TwoOp::Or)
    } else if i == 0b011 {
        Some(TwoOp::Xor)
    } else {
        None
    }
}

fn twop(i: u8) -> (r: Option<TwoOp>)
    ensures
        r == two_op_of(i),
{
    match i {
        0b000 => Some(TwoOp::Add),
        0b100 => Some(TwoOp::Adc),
        0b010 => Some(TwoOp::Sub),
        0b110 => Some(TwoOp::Sbb),
        0b001 => Some(TwoOp::And),
        0b101 => Some(TwoOp::Or),
        0b011 => Some(TwoOp::Xor),
        _ => None,
    }
}

/// The control-flow operations with an effective address, by operation field.
pub open spec fn ea_cf_op_of(i: u8) -> Option<OneOp> {
    if i == 0b000 {
        Some(OneOp::Mov)
    } else if i == 0b010 {
        Some(OneOp::Push)
    } else if i == 0b110 {
        Some(OneOp::Pop)
    } else if i == 0b001 {
        Some(OneOp::Call)
    } else if i == 0b101 {
        Some(OneOp::Jmp)
    } else {
        None
    }
}

fn eacfg(i: u8) -> (r: Option<OneOp>)
    ensures
        r == ea_cf_op_of(i),
{
    match i {
        0b000 => Some(OneOp::Mov),
        0b010 => Some(OneOp::Push),
        0b110 => Some(OneOp::Pop),
        0b001 => Some(OneOp::Call),
        0b101 => Some(OneOp::Jmp),
        _ => None,
    }
}

/// The one-operand arithmetic operations, by operation field.
pub open spec fn one_op_of(i: u8) -> Option<OneOp> {
    if i == 0b000 {
        Some(OneOp::Inc)
    } else if i == 0b100 {
        Some(OneOp::Dec)
    } else if i == 0b010 {
        Some(OneOp::Neg)
    } else if i == 0b110 {
        Some(OneOp::Not)
    } else if i == 0b001 {
        Some(OneOp::Shl)
    } else if i == 0b101 {
        Some(OneOp::Shr)
    } else if i == 0b011 {
        Some(OneOp::Sar)
    } else {
        None
    }
}

fn oop(i: u8) -> (r: Option<OneOp>)
    ensures
        r == one_op_of(i),
{
    match i {
        0b000 => Some(OneOp::Inc),
        0b100 => Some(OneOp::Dec),
        0b010 => Some(OneOp::Neg),
        0b110 => Some(OneOp::Not),
        0b001 => Some(OneOp::Shl),
        0b101 => Some(OneOp::Shr),
        0b011 => Some(OneOp::Sar),
        _ => None,
    }
}

/// The control-flow operations without an effective address, by operation field.
pub open spec fn nea_cf_op_of(i: u8) -> Option<CfNea> {
    if i == 0b000 {
        Some(CfNea::In)
    } else if i == 0b100 {
        Some(CfNea::Out)
    } else if i == 0b010 {
        Some(CfNea::Pushf)
    } else if i == 0b110 {
        Some(CfNea::Popf)
    } else if i == 0b001 {
        Some(CfNea::Ret)
    } else if i == 0b101 {
        Some(CfNea::Iret)
    } else if i == 0b011 {
        Some(CfNea::Hlt)
    } else {
        None
    }
}

fn neacf(i: u8) -> (r: Option<CfNea>)
    ensures
        r == nea_cf_op_of(i),
{
    match i {
        0b000 => Some(CfNea::In),
        0b100 => Some(CfNea::Out),
        0b010 => Some(CfNea::Pushf),
        0b110 => Some(CfNea::Popf),
        0b001 => Some(CfNea::Ret),
        0b101 => Some(CfNea::Iret),
        0b011 => Some(CfNea::Hlt),
        _ => None,
    }
}

/// The 4-bit code of each jump condition.
pub open spec fn jcond_code(j: Jcond) -> u8 {
    match j {
        Jcond::Jbe => 0b0000,
        Jcond::Jb => 0b1000,
        Jcond::Jle => 0b0100,
        Jcond::Jl => 0b1100,
        Jcond::Je => 0b0010,
        Jcond::Jo => 0b1010,
        Jcond::Js => 0b0110,
        Jcond::Jpe => 0b1110,
        Jcond::Ja => 0b0001,
        Jcond::Jae => 0b1001,
        Jcond::Jg => 0b0101,
        Jcond::Jge => 0b1101,
        Jcond::Jne => 0b0011,
        Jcond::Jno => 0b1011,
        Jcond::Jns => 0b0111,
        Jcond::Jpo => 0b1111,
    }
}

/// The jump condition that a 4-bit condition field names. A 4-bit field
/// never holds more than 15; such a value is read as `Jbe`.
pub open spec fn jcond_named(i: u8) -> Jcond {
    if i == 0b0000 {
        Jcond::Jbe
    } else if i == 0b1000 {
        Jcond::Jb
    } else if i == 0b0100 {
        Jcond::Jle
    } else if i == 0b1100 {
        Jcond::Jl
    } else if i == 0b0010 {
        Jcond::Je
    } else if i == 0b1010 {
        Jcond::Jo
    } else if i == 0b0110 {
        Jcond::Js
    } else if i == 0b1110 {
        Jcond::Jpe
    } else if i == 0b0001 {
        Jcond::Ja
    } else if i == 0b1001 {
        Jcond::Jae
    } else if i == 0b0101 {
        Jcond::Jg
    } else if i == 0b1101 {
        Jcond::Jge
    } else if i == 0b0011 {
        Jcond::Jne
    } else if i == 0b1011 {
        Jcond::Jno
    } else if i == 0b0111 {
        Jcond::Jns
    } else if i == 0b1111 {
        Jcond::Jpo
    } else {
        Jcond::Jbe
    }
}

fn jcond(i: u8) -> (r: Jcond)
    ensures
        r == jcond_named(i),
{
    match i {
        0b0000 => Jcond::Jbe,
        0b1000 => Jcond::Jb,
        0b0100 => Jcond::Jle,
        0b1100 => Jcond::Jl,
        0b0010 => Jcond::Je,
        0b1010 => Jcond::Jo,
        0b0110 => Jcond::Js,
        0b1110 => Jcond::Jpe,
        0b0001 => Jcond::Ja,
        0b1001 => Jcond::Jae,
        0b0101 => Jcond::Jg,
        0b1101 => Jcond::Jge,
        0b0011 => Jcond::Jne,
        0b1011 => Jcond::Jno,
        0b0111 => Jcond::Jns,
        0b1111 => Jcond::Jpo,
        _ => Jcond::Jbe,
    }
}

/// The sixteen 4-bit condition codes and the sixteen jump conditions
/// correspond one to one.
pub proof fn lemma_jcond_encoding_roundtrip(j: Jcond, i: u8)
    ensures
        jcond_named(jcond_code(j)) == j,
        jcond_code(j) < 16,
        i < 16 ==> jcond_code(jcond_named(i)) == i,
{
}

// ---------------------------------------------------------------------------
// Addressing modes
// ---------------------------------------------------------------------------

/// The index register that a one-bit field names.
pub open spec fn index_named(b: u16) -> IndexRegister {
    if b == 1 {
        IndexRegister::XB
    } else {
        IndexRegister::XA
    }
}

/// The base register that a one-bit field names.
pub open spec fn base_named(b: u16) -> BaseRegister {
    if b == 1 {
        BaseRegister::BA
    } else {
        BaseRegister::BB
    }
}

fn irx(i: u16) -> (r: IndexRegister)
    ensures
        r == index_named(i),
{
    if i == 1 {
        IndexRegister::XB
    } else {
        IndexRegister::XA
    }
}

fn brx(i: u16) -> (r: BaseRegister)
    ensures
        r == base_named(i),
{
    if i == 1 {
        BaseRegister::BA
    } else {
        BaseRegister::BB
    }
}

/// The operand that the `mod` and `rm` fields name together:
///
/// | mod | rm 000..011              | rm 100..101          | rm 110..111            |
/// |-----|--------------------------|----------------------|------------------------|
/// | 11  | register `rm`            | register `rm`        | register `rm`          |
/// | 00  | `[b+x]`                  | `[x]`                | `[b]`                  |
/// | 01  | `[b+x+disp]`             | `[x+disp]`           | `[b+disp]`             |
/// | 10  | `[b+x+]`                 | `[b+-xa]`            | `[disp]` / `[[disp]]`  |
///
/// where `b` is `ba` when its selecting bit is 1 and `bb` otherwise, and `x`
/// is `xb` when its bit is 1 and `xa` otherwise.
pub open spec fn mod_rm_operand(i: u16) -> DstOperand {
    let rm = rm_field(i);
    let m = mod_field(i);
    let bit0 = rm & 1;
    let bit1 = (rm >> 1u16) & 1;
    if m == 0b11 {
        DstOperand::Reg(reg_named(rm as u8))
    } else if m == 0b01 {
        if rm < 0b100 {
            DstOperand::BasedIndexedAddr(base_named(bit1), index_named(bit0))
        } else if rm < 0b110 {
            DstOperand::IndexedAddr(index_named(bit0))
        } else {
            DstOperand::BasedAddr(base_named(bit0))
        }
    } else if m == 0b10 {
        if rm < 0b100 {
            DstOperand::RegSumIncr(base_named(bit1), index_named(bit0))
        } else if rm < 0b110 {
            DstOperand::RegSumDecr(base_named(bit0))
        } else if bit0 == 0 {
            DstOperand::DirectAddress
        } else {
            DstOperand::IndirectAddress
        }
    } else if m == 0b00 {
        if rm < 0b100 {
            DstOperand::RegSum(base_named(bit1), index_named(bit0))
        } else if rm < 0b110 {
            DstOperand::RegisterAddress(AddrRegister::Index(index_named(bit0)))
        } else {
            DstOperand::RegisterAddress(AddrRegister::Base(base_named(bit0)))
        }
    } else {
        DstOperand::Reg(Reg::RA)
    }
}

/// Decodes the mod and rm parts in one go
fn mod_rm(i: u16) -> (r: DstOperand)
    ensures
        r == mod_rm_operand(i),
{
    let rm = (i >> 13u16) & 7;
    let m = (i >> 8u16) & 3;
    let bit0 = rm & 1;
    let bit1 = (rm >> 1u16) & 1;
    match m {
        0b11 => DstOperand::Reg(reg(rm as u8)),
        0b01 => {
            if rm < 0b100 {
                DstOperand::BasedIndexedAddr(brx(bit1), irx(bit0))
            } else if rm < 0b110 {
                DstOperand::IndexedAddr(irx(bit0))
            } else {
                DstOperand::BasedAddr(brx(bit0))
            }
        },
        0b10 => {
            if rm < 0b100 {
                DstOperand::RegSumIncr(brx(bit1), irx(bit0))
            } else if rm < 0b110 {
                DstOperand::RegSumDecr(brx(bit0))
            } else if bit0 == 0 {
                DstOperand::DirectAddress
            } else {
                DstOperand::IndirectAddress
            }
        },
        0b00 => {
            if rm < 0b100 {
                DstOperand::RegSum(brx(bit1), irx(bit0))
            } else if rm < 0b110 {
                DstOperand::RegisterAddress(AddrRegister::Index(irx(bit0)))
            } else {
                DstOperand::RegisterAddress(AddrRegister::Base(brx(bit0)))
            }
        },
        _ => DstOperand::default(),
    }
}

// ---------------------------------------------------------------------------
// The decoder
// ---------------------------------------------------------------------------

/// The instruction that a 16-bit word encodes, by class (bits 3..0):
///
/// * `0000`: `Mov`/`Push`/`Pop`/`Call`/`Jmp` on the `mod`/`rm` operand;
/// * `1000`: `Inc`/`Dec`/`Neg`/`Not`/`Shl`/`Shr`/`Sar` on the `mod`/`rm` operand;
/// * `0100`: `MovI` (immediate into the `mod`/`rm` operand) when bits 6..4 are 0;
/// * `1010`: a two-operand operation between the register field and the
///   `mod`/`rm` operand, whose order bit 7 gives;
/// * `0010`: the same, but only `Sub` and `And`, which become `Cmp` and `Test`;
/// * `1110` / `0110`: as `1010` / `0010` with an immediate source and the
///   `mod`/`rm` operand as destination;
/// * `0001`: `In`/`Out`/`Pushf`/`Popf`/`Ret`/`Iret`/`Hlt`;
/// * `1001`: a conditional jump on the condition in bits 7..4.
///
/// Every other word is `Invalid`.
pub open spec fn decoded(i: u16) -> Decoded {
    let rm = mod_rm_operand(i);
    let rg = DstOperand::Reg(reg_named(reg_field(i) as u8));
    let src = if dir_field(i) == 1 {
        Operand::MaybeDst(rm)
    } else {
        Operand::MaybeDst(rg)
    };
    let dst = if dir_field(i) == 1 {
        rg
    } else {
        rm
    };
    let sel = op_field(i) as u8;
    let class = class_field(i);
    if class == 0b0000 {
        match ea_cf_op_of(sel) {
            Some(x) => Decoded::OneOp { op: x, dst: rm },
            None => Decoded::Invalid,
        }
    } else if class == 0b1000 {
        match one_op_of(sel) {
            Some(x) => Decoded::OneOp { op: x, dst: rm },
            None => Decoded::Invalid,
        }
    } else if class == 0b0100 {
        if sel == 0 {
            Decoded::OneOp { op: OneOp::MovI, dst: rm }
        } else {
            Decoded::Invalid
        }
    } else if class == 0b0010 {
        match two_op_of(sel) {
            Some(TwoOp::Sub) => Decoded::TwoOp { op: TwoOp::Cmp, src, dst },
            Some(TwoOp::And) => Decoded::TwoOp { op: TwoOp::Test, src, dst },
            _ => Decoded::Invalid,
        }
    } else if class == 0b1010 {
        match two_op_of(sel) {
            Some(x) => Decoded::TwoOp { op: x, src, dst },
            None => Decoded::Invalid,
        }
    } else if class == 0b0110 {
        match two_op_of(sel) {
            Some(TwoOp::Sub) => Decoded::TwoOp { op: TwoOp::Cmp, src: Operand::Imm, dst: rm },
            Some(TwoOp::And) => Decoded::TwoOp { op: TwoOp::Test, src: Operand::Imm, dst: rm },
            _ => Decoded::Invalid,
        }
    } else if class == 0b1110 {
        match two_op_of(sel) {
            Some(x) => Decoded::TwoOp { op: x, src: Operand::Imm, dst: rm },
            None => Decoded::Invalid,
        }
    } else if class == 0b0001 {
        match nea_cf_op_of(sel) {
            Some(x) => Decoded::CfNea(x),
            None => Decoded::Invalid,
        }
    } else if class == 0b1001 {
        Decoded::Jcond(jcond_named(cond_field(i) as u8))
    } else {
        Decoded::Invalid
    }
}

/// Decodes an instruction word.
pub fn decode(i: u16) -> (r: Decoded)
    ensures
        r == decoded(i),
{
    let rm = mod_rm(i);
    let rg = DstOperand::Reg(reg(((i >> 10u16) & 7) as u8));
    let (src, dst) = if (i >> 7u16) & 1 == 1 {
        (Operand::MaybeDst(rm), rg)
    } else {
        (Operand::MaybeDst(rg), rm)
    };
    let sel = ((i >> 4u16) & 7) as u8;
    // R3..R2..R1..R0
    match i & 0xf {
        // EA + One op + no imm + control flow
        0b0000 => {
            if let Some(x) = eacfg(sel) {
                return Decoded::OneOp { op: x, dst: rm };
            }
        },
        // EA + One op + no imm + operation
        0b1000 => {
            if let Some(x) = oop(sel) {
                return Decoded::OneOp { op: x, dst: rm };
            }
        },
        0b0100 => {
            if sel == 0b000 {
                return Decoded::OneOp { op: OneOp::MovI, dst: rm };
            }
        },
        // EA, TwoOp, no imm no save
        0b0010 => {
            if let Some(x) = twop(sel) {
                match x {
                    TwoOp::Sub => {
                        return Decoded::TwoOp { op: TwoOp::Cmp, src, dst };
                    },
                    TwoOp::And => {
                        return Decoded::TwoOp { op: TwoOp::Test, src, dst };
                    },
                    _ => {},
                }
            }
        },
        0b1010 => {
            if let Some(x) = twop(sel) {
                return Decoded::TwoOp { op: x, src, dst };
            }
        },
        0b0110 => {
            if let Some(x) = twop(sel) {
                match x {
                    TwoOp::Sub => {
                        return Decoded::TwoOp { op: TwoOp::Cmp, src: Operand::Imm, dst: rm };
                    },
                    TwoOp::And => {
                        return Decoded::TwoOp { op: TwoOp::Test, src: Operand::Imm, dst: rm };
                    },
                    _ => {},
                }
            }
        },
        0b1110 => {
            if let Some(x) = twop(sel) {
                return Decoded::TwoOp { op: x, src: Operand::Imm, dst: rm };
            }
        },
        // NEA CF
        0b0001 => {
            if let Some(x) = neacf(sel) {
                return Decoded::CfNea(x);
            }
        },
        0b1001 => {
            return Decoded::Jcond(jcond(((i >> 4u16) & 0xf) as u8));
        },
        _ => {},
    };
    Decoded::Invalid
}

} // verus!

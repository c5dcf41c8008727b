//! What the decoder makes of each instruction word, stated by the values of
//! the word's bit fields: bits 3..0 the class, bits 6..4 the operation,
//! bit 7 the direction, bits 9..8 `mod`, bits 12..10 the register and
//! bits 15..13 `rm`.

use vstd::prelude::*;
use crate::decode_unit::{
    decoded, AddrRegister, BaseRegister, CfNea, Decoded, DstOperand, IndexRegister, Jcond, OneOp,
    Operand, TwoOp,
};
use crate::register_file::Reg;

verus! {

/// The two one-bit selectors inside `rm` for each of its eight values.
proof fn lemma_rm_bits(rm: u16)
    by (bit_vector)
    ensures
        rm == 0 ==> rm & 1 == 0 && (rm >> 1u16) & 1 == 0,
        rm == 1 ==> rm & 1 == 1 && (rm >> 1u16) & 1 == 0,
        rm == 2 ==> rm & 1 == 0 && (rm >> 1u16) & 1 == 1,
        rm == 3 ==> rm & 1 == 1 && (rm >> 1u16) & 1 == 1,
        rm == 4 ==> rm & 1 == 0,
        rm == 5 ==> rm & 1 == 1,
        rm == 6 ==> rm & 1 == 0,
        rm == 7 ==> rm & 1 == 1,
{
}

/// Every field of a word is below the size of the field.
proof fn lemma_field_bounds(w: u16)
    by (bit_vector)
    ensures
        w & 0xf < 16,
        (w >> 4u16) & 7 < 8,
        (w >> 4u16) & 0xf < 16,
        (w >> 7u16) & 1 < 2,
        (w >> 8u16) & 3 < 4,
        (w >> 10u16) & 7 < 8,
        (w >> 13u16) & 7 < 8,
{
}

/// Class `1010` (two operands, result stored): operation field `000` adds,
/// `100` adds with carry, `010` subtracts, `110` subtracts with borrow, `001`
/// ands, `101` ors, `011` xors; `111` is no instruction.
pub proof fn lemma_two_operand_class(w: u16)
    requires
        w & 0xf == 0b1010,
    ensures
        (w >> 4u16) & 7 == 0b000 ==> decoded(w) matches Decoded::TwoOp { op: TwoOp::Add, .. },
        (w >> 4u16) & 7 == 0b100 ==> decoded(w) matches Decoded::TwoOp { op: TwoOp::Adc, .. },
        (w >> 4u16) & 7 == 0b010 ==> decoded(w) matches Decoded::TwoOp { op: TwoOp::Sub, .. },
        (w >> 4u16) & 7 == 0b110 ==> decoded(w) matches Decoded::TwoOp { op: TwoOp::Sbb, .. },
        (w >> 4u16) & 7 == 0b001 ==> decoded(w) matches Decoded::TwoOp { op: TwoOp::And, .. },
        (w >> 4u16) & 7 == 0b101 ==> decoded(w) matches Decoded::TwoOp { op: TwoOp::Or, .. },
        (w >> 4u16) & 7 == 0b011 ==> decoded(w) matches Decoded::TwoOp { op: TwoOp::Xor, .. },
        (w >> 4u16) & 7 == 0b111 ==> decoded(w) == Decoded::Invalid,
{
}

/// Class `1110` (immediate source, result stored in the `mod`/`rm` operand):
/// the same operation codes as class `1010`.
pub proof fn lemma_immediate_class(w: u16)
    requires
        w & 0xf == 0b1110,
    ensures
        (w >> 4u16) & 7 == 0b000 ==> decoded(w) matches Decoded::TwoOp { op: TwoOp::Add, src: Operand::Imm, .. },
        (w >> 4u16) & 7 == 0b100 ==> decoded(w) matches Decoded::TwoOp { op: TwoOp::Adc, src: Operand::Imm, .. },
        (w >> 4u16) & 7 == 0b010 ==> decoded(w) matches Decoded::TwoOp { op: TwoOp::Sub, src: Operand::Imm, .. },
        (w >> 4u16) & 7 == 0b110 ==> decoded(w) matches Decoded::TwoOp { op: TwoOp::Sbb, src: Operand::Imm, .. },
        (w >> 4u16) & 7 == 0b001 ==> decoded(w) matches Decoded::TwoOp { op: TwoOp::And, src: Operand::Imm, .. },
        (w >> 4u16) & 7 == 0b101 ==> decoded(w) matches Decoded::TwoOp { op: TwoOp::Or, src: Operand::Imm, .. },
        (w >> 4u16) & 7 == 0b011 ==> decoded(w) matches Decoded::TwoOp { op: TwoOp::Xor, src: Operand::Imm, .. },
        (w >> 4u16) & 7 == 0b111 ==> decoded(w) == Decoded::Invalid,
{
}

/// Classes `0010` and `0110` (flags only, register or immediate source):
/// subtraction is `Cmp`, and is `Test`; every other operation is invalid.
pub proof fn lemma_flags_only_classes(w: u16)
    requires
        w & 0xf == 0b0010 || w & 0xf == 0b0110,
    ensures
        (w >> 4u16) & 7 == 0b010 ==> decoded(w) matches Decoded::TwoOp { op: TwoOp::Cmp, .. },
        (w >> 4u16) & 7 == 0b001 ==> decoded(w) matches Decoded::TwoOp { op: TwoOp::Test, .. },
        (w >> 4u16) & 7 != 0b010 && (w >> 4u16) & 7 != 0b001 ==> decoded(w) == Decoded::Invalid,
        w & 0xf == 0b0110 && !(decoded(w) is Invalid) ==> decoded(w) matches Decoded::TwoOp { src: Operand::Imm, .. },
{
    lemma_field_bounds(w);
}

/// Class `0000`: `000` moves, `010` pushes, `110` pops, `001` calls, `101`
/// jumps; the other codes are invalid.
pub proof fn lemma_ea_control_class(w: u16)
    requires
        w & 0xf == 0b0000,
    ensures
        (w >> 4u16) & 7 == 0b000 ==> decoded(w) matches Decoded::OneOp { op: OneOp::Mov, .. },
        (w >> 4u16) & 7 == 0b010 ==> decoded(w) matches Decoded::OneOp { op: OneOp::Push, .. },
        (w >> 4u16) & 7 == 0b110 ==> decoded(w) matches Decoded::OneOp { op: OneOp::Pop, .. },
        (w >> 4u16) & 7 == 0b001 ==> decoded(w) matches Decoded::OneOp { op: OneOp::Call, .. },
        (w >> 4u16) & 7 == 0b101 ==> decoded(w) matches Decoded::OneOp { op: OneOp::Jmp, .. },
        (w >> 4u16) & 7 == 0b100 || (w >> 4u16) & 7 == 0b011 || (w >> 4u16) & 7 == 0b111 ==> decoded(w)
            == Decoded::Invalid,
{
}

/// Class `1000`: `000` increments, `100` decrements, `010` negates, `110`
/// complements, `001` shifts left, `101` shifts right, `011` shifts right
/// arithmetically; `111` is invalid. Class `0100` with operation `000` moves
/// an immediate; other operations are invalid.
pub proof fn lemma_one_operand_classes(w: u16)
    requires
        w & 0xf == 0b1000 || w & 0xf == 0b0100,
    ensures
        w & 0xf == 0b1000 && (w >> 4u16) & 7 == 0b000 ==> decoded(w) matches Decoded::OneOp { op: OneOp::Inc, .. },
        w & 0xf == 0b1000 && (w >> 4u16) & 7 == 0b100 ==> decoded(w) matches Decoded::OneOp { op: OneOp::Dec, .. },
        w & 0xf == 0b1000 && (w >> 4u16) & 7 == 0b010 ==> decoded(w) matches Decoded::OneOp { op: OneOp::Neg, .. },
        w & 0xf == 0b1000 && (w >> 4u16) & 7 == 0b110 ==> decoded(w) matches Decoded::OneOp { op: OneOp::Not, .. },
        w & 0xf == 0b1000 && (w >> 4u16) & 7 == 0b001 ==> decoded(w) matches Decoded::OneOp { op: OneOp::Shl, .. },
        w & 0xf == 0b1000 && (w >> 4u16) & 7 == 0b101 ==> decoded(w) matches Decoded::OneOp { op: OneOp::Shr, .. },
        w & 0xf == 0b1000 && (w >> 4u16) & 7 == 0b011 ==> decoded(w) matches Decoded::OneOp { op: OneOp::Sar, .. },
        w & 0xf == 0b1000 && (w >> 4u16) & 7 == 0b111 ==> decoded(w) == Decoded::Invalid,
        w & 0xf == 0b0100 && (w >> 4u16) & 7 == 0b000 ==> decoded(w) matches Decoded::OneOp { op: OneOp::MovI, .. },
        w & 0xf == 0b0100 && (w >> 4u16) & 7 != 0b000 ==> decoded(w) == Decoded::Invalid,
{
    lemma_field_bounds(w);
}

/// Class `0001`: `000` is `In`, `100` `Out`, `010` `Pushf`, `110` `Popf`,
/// `001` `Ret`, `101` `Iret`, `011` `Hlt`; `111` is invalid.
pub proof fn lemma_nea_control_class(w: u16)
    requires
        w & 0xf == 0b0001,
    ensures
        (w >> 4u16) & 7 == 0b000 ==> decoded(w) == Decoded::CfNea(CfNea::In),
        (w >> 4u16) & 7 == 0b100 ==> decoded(w) == Decoded::CfNea(CfNea::Out),
        (w >> 4u16) & 7 == 0b010 ==> decoded(w) == Decoded::CfNea(CfNea::Pushf),
        (w >> 4u16) & 7 == 0b110 ==> decoded(w) == Decoded::CfNea(CfNea::Popf),
        (w >> 4u16) & 7 == 0b001 ==> decoded(w) == Decoded::CfNea(CfNea::Ret),
        (w >> 4u16) & 7 == 0b101 ==> decoded(w) == Decoded::CfNea(CfNea::Iret),
        (w >> 4u16) & 7 == 0b011 ==> decoded(w) == Decoded::CfNea(CfNea::Hlt),
        (w >> 4u16) & 7 == 0b111 ==> decoded(w) == Decoded::Invalid,
{
}

/// Class `1001`: a conditional jump on the condition code in bits 7..4.
pub proof fn lemma_jump_class(w: u16)
    requires
        w & 0xf == 0b1001,
    ensures
        (w >> 4u16) & 0xf == 0b0000 ==> decoded(w) == Decoded::Jcond(Jcond::Jbe),
        (w >> 4u16) & 0xf == 0b1000 ==> decoded(w) == Decoded::Jcond(Jcond::Jb),
        (w >> 4u16) & 0xf == 0b0100 ==> decoded(w) == Decoded::Jcond(Jcond::Jle),
        (w >> 4u16) & 0xf == 0b1100 ==> decoded(w) == Decoded::Jcond(Jcond::Jl),
        (w >> 4u16) & 0xf == 0b0010 ==> decoded(w) == Decoded::Jcond(Jcond::Je),
        (w >> 4u16) & 0xf == 0b1010 ==> decoded(w) == Decoded::Jcond(Jcond::Jo),
        (w >> 4u16) & 0xf == 0b0110 ==> decoded(w) == Decoded::Jcond(Jcond::Js),
        (w >> 4u16) & 0xf == 0b1110 ==> decoded(w) == Decoded::Jcond(Jcond::Jpe),
        (w >> 4u16) & 0xf == 0b0001 ==> decoded(w) == Decoded::Jcond(Jcond::Ja),
        (w >> 4u16) & 0xf == 0b1001 ==> decoded(w) == Decoded::Jcond(Jcond::Jae),
        (w >> 4u16) & 0xf == 0b0101 ==> decoded(w) == Decoded::Jcond(Jcond::Jg),
        (w >> 4u16) & 0xf == 0b1101 ==> decoded(w) == Decoded::Jcond(Jcond::Jge),
        (w >> 4u16) & 0xf == 0b0011 ==> decoded(w) == Decoded::Jcond(Jcond::Jne),
        (w >> 4u16) & 0xf == 0b1011 ==> decoded(w) == Decoded::Jcond(Jcond::Jno),
        (w >> 4u16) & 0xf == 0b0111 ==> decoded(w) == Decoded::Jcond(Jcond::Jns),
        (w >> 4u16) & 0xf == 0b1111 ==> decoded(w) == Decoded::Jcond(Jcond::Jpo),
{
    lemma_field_bounds(w);
}

/// The other classes (`0011`, `0101`, `0111`, `1011`, `1100`, `1101`,
/// `1111`) hold no instruction.
pub proof fn lemma_unused_classes(w: u16)
    requires
        w & 0xf == 0b0011 || w & 0xf == 0b0101 || w & 0xf == 0b0111 || w & 0xf == 0b1011 || w & 0xf
            == 0b1100 || w & 0xf == 0b1101 || w & 0xf == 0b1111,
    ensures
        decoded(w) == Decoded::Invalid,
{
}


/// The operand that the addressing fields name, shown on `inc` (class
/// `1000`, operation `000`), for every `mod` and `rm`:
///
/// * `mod 00`: `rm 0xy` is `[b+x]`, `10x` is `[x]`, `11y` is `[b]`;
/// * `mod 01`: the same with a displacement added: `[b+x+disp]`, `[x+disp]`, `[b+disp]`;
/// * `mod 10`: `0xy` is `[b+x+]`, `10y` is `[b+-xa]`, `110` is `[disp]`, `111` is `[[disp]]`;
/// * `mod 11`: register `rm` (`ra rb rc sp xa xb ba bb`);
///
/// where the bit `y` selects `ba` (1) or `bb` (0) and `x` selects `xb` (1) or `xa` (0).
pub proof fn lemma_addressing_modes(w: u16)
    requires
        w & 0xf == 0b1000,
        (w >> 4u16) & 7 == 0,
    ensures
        (w >> 8u16) & 3 == 0 && (w >> 13u16) & 7 == 0 ==> decoded(w) == (Decoded::OneOp { op: OneOp::Inc, dst: DstOperand::RegSum(BaseRegister::BB, IndexRegister::XA) }),
        (w >> 8u16) & 3 == 0 && (w >> 13u16) & 7 == 1 ==> decoded(w) == (Decoded::OneOp { op: OneOp::Inc, dst: DstOperand::RegSum(BaseRegister::BB, IndexRegister::XB) }),
        (w >> 8u16) & 3 == 0 && (w >> 13u16) & 7 == 2 ==> decoded(w) == (Decoded::OneOp { op: OneOp::Inc, dst: DstOperand::RegSum(BaseRegister::BA, IndexRegister::XA) }),
        (w >> 8u16) & 3 == 0 && (w >> 13u16) & 7 == 3 ==> decoded(w) == (Decoded::OneOp { op: OneOp::Inc, dst: DstOperand::RegSum(BaseRegister::BA, IndexRegister::XB) }),
        (w >> 8u16) & 3 == 0 && (w >> 13u16) & 7 == 4 ==> decoded(w) == (Decoded::OneOp { op: OneOp::Inc, dst: DstOperand::RegisterAddress(AddrRegister::Index(IndexRegister::XA)) }),
        (w >> 8u16) & 3 == 0 && (w >> 13u16) & 7 == 5 ==> decoded(w) == (Decoded::OneOp { op: OneOp::Inc, dst: DstOperand::RegisterAddress(AddrRegister::Index(IndexRegister::XB)) }),
        (w >> 8u16) & 3 == 0 && (w >> 13u16) & 7 == 6 ==> decoded(w) == (Decoded::OneOp { op: OneOp::Inc, dst: DstOperand::RegisterAddress(AddrRegister::Base(BaseRegister::BB)) }),
        (w >> 8u16) & 3 == 0 && (w >> 13u16) & 7 == 7 ==> decoded(w) == (Decoded::OneOp { op: OneOp::Inc, dst: DstOperand::RegisterAddress(AddrRegister::Base(BaseRegister::BA)) }),
        (w >> 8u16) & 3 == 1 && (w >> 13u16) & 7 == 0 ==> decoded(w) == (Decoded::OneOp { op: OneOp::Inc, dst: DstOperand::BasedIndexedAddr(BaseRegister::BB, IndexRegister::XA) }),
        (w >> 8u16) & 3 == 1 && (w >> 13u16) & 7 == 1 ==> decoded(w) == (Decoded::OneOp { op: OneOp::Inc, dst: DstOperand::BasedIndexedAddr(BaseRegister::BB, IndexRegister::XB) }),
        (w >> 8u16) & 3 == 1 && (w >> 13u16) & 7 == 2 ==> decoded(w) == (Decoded::OneOp { op: OneOp::Inc, dst: DstOperand::BasedIndexedAddr(BaseRegister::BA, IndexRegister::XA) }),
        (w >> 8u16) & 3 == 1 && (w >> 13u16) & 7 == 3 ==> decoded(w) == (Decoded::OneOp { op: OneOp::Inc, dst: DstOperand::BasedIndexedAddr(BaseRegister::BA, IndexRegister::XB) }),
        (w >> 8u16) & 3 == 1 && (w >> 13u16) & 7 == 4 ==> decoded(w) == (Decoded::OneOp { op: OneOp::Inc, dst: DstOperand::IndexedAddr(IndexRegister::XA) }),
        (w >> 8u16) & 3 == 1 && (w >> 13u16) & 7 == 5 ==> decoded(w) == (Decoded::OneOp { op: OneOp::Inc, dst: DstOperand::IndexedAddr(IndexRegister::XB) }),
        (w >> 8u16) & 3 == 1 && (w >> 13u16) & 7 == 6 ==> decoded(w) == (Decoded::OneOp { op: OneOp::Inc, dst: DstOperand::BasedAddr(BaseRegister::BB) }),
        (w >> 8u16) & 3 == 1 && (w >> 13u16) & 7 == 7 ==> decoded(w) == (Decoded::OneOp { op: OneOp::Inc, dst: DstOperand::BasedAddr(BaseRegister::BA) }),
        (w >> 8u16) & 3 == 2 && (w >> 13u16) & 7 == 0 ==> decoded(w) == (Decoded::OneOp { op: OneOp::Inc, dst: DstOperand::RegSumIncr(BaseRegister::BB, IndexRegister::XA) }),
        (w >> 8u16) & 3 == 2 && (w >> 13u16) & 7 == 1 ==> decoded(w) == (Decoded::OneOp { op: OneOp::Inc, dst: DstOperand::RegSumIncr(BaseRegister::BB, IndexRegister::XB) }),
        (w >> 8u16) & 3 == 2 && (w >> 13u16) & 7 == 2 ==> decoded(w) == (Decoded::OneOp { op: OneOp::Inc, dst: DstOperand::RegSumIncr(BaseRegister::BA, IndexRegister::XA) }),
        (w >> 8u16) & 3 == 2 && (w >> 13u16) & 7 == 3 ==> decoded(w) == (Decoded::OneOp { op: OneOp::Inc, dst: DstOperand::RegSumIncr(BaseRegister::BA, IndexRegister::XB) }),
        (w >> 8u16) & 3 == 2 && (w >> 13u16) & 7 == 4 ==> decoded(w) == (Decoded::OneOp { op: OneOp::Inc, dst: DstOperand::RegSumDecr(BaseRegister::BB) }),
        (w >> 8u16) & 3 == 2 && (w >> 13u16) & 7 == 5 ==> decoded(w) == (Decoded::OneOp { op: OneOp::Inc, dst: DstOperand::RegSumDecr(BaseRegister::BA) }),
        (w >> 8u16) & 3 == 2 && (w >> 13u16) & 7 == 6 ==> decoded(w) == (Decoded::OneOp { op: OneOp::Inc, dst: DstOperand::DirectAddress }),
        (w >> 8u16) & 3 == 2 && (w >> 13u16) & 7 == 7 ==> decoded(w) == (Decoded::OneOp { op: OneOp::Inc, dst: DstOperand::IndirectAddress }),
        (w >> 8u16) & 3 == 3 && (w >> 13u16) & 7 == 0 ==> decoded(w) == (Decoded::OneOp { op: OneOp::Inc, dst: DstOperand::Reg(Reg::RA) }),
        (w >> 8u16) & 3 == 3 && (w >> 13u16) & 7 == 1 ==> decoded(w) == (Decoded::OneOp { op: OneOp::Inc, dst: DstOperand::Reg(Reg::RB) }),
        (w >> 8u16) & 3 == 3 && (w >> 13u16) & 7 == 2 ==> decoded(w) == (Decoded::OneOp { op: OneOp::Inc, dst: DstOperand::Reg(Reg::RC) }),
        (w >> 8u16) & 3 == 3 && (w >> 13u16) & 7 == 3 ==> decoded(w) == (Decoded::OneOp { op: OneOp::Inc, dst: DstOperand::Reg(Reg::SP) }),
        (w >> 8u16) & 3 == 3 && (w >> 13u16) & 7 == 4 ==> decoded(w) == (Decoded::OneOp { op: OneOp::Inc, dst: DstOperand::Reg(Reg::XA) }),
        (w >> 8u16) & 3 == 3 && (w >> 13u16) & 7 == 5 ==> decoded(w) == (Decoded::OneOp { op: OneOp::Inc, dst: DstOperand::Reg(Reg::XB) }),
        (w >> 8u16) & 3 == 3 && (w >> 13u16) & 7 == 6 ==> decoded(w) == (Decoded::OneOp { op: OneOp::Inc, dst: DstOperand::Reg(Reg::BA) }),
        (w >> 8u16) & 3 == 3 && (w >> 13u16) & 7 == 7 ==> decoded(w) == (Decoded::OneOp { op: OneOp::Inc, dst: DstOperand::Reg(Reg::BB) }),
{
    lemma_field_bounds(w);
    lemma_rm_bits((w >> 13u16) & 7);
}

/// The register field (bits 12..10) of a two-operand instruction names its
/// register operand, `ra rb rc sp xa xb ba bb` for `0..7`; with the direction
/// bit clear that register is the source.
pub proof fn lemma_register_field(w: u16)
    requires
        w & 0xf == 0b1010,
        (w >> 4u16) & 7 != 0b111,
        (w >> 7u16) & 1 == 0,
    ensures
        (w >> 10u16) & 7 == 0 ==> decoded(w) matches Decoded::TwoOp { src: Operand::MaybeDst(DstOperand::Reg(Reg::RA)), .. },
        (w >> 10u16) & 7 == 1 ==> decoded(w) matches Decoded::TwoOp { src: Operand::MaybeDst(DstOperand::Reg(Reg::RB)), .. },
        (w >> 10u16) & 7 == 2 ==> decoded(w) matches Decoded::TwoOp { src: Operand::MaybeDst(DstOperand::Reg(Reg::RC)), .. },
        (w >> 10u16) & 7 == 3 ==> decoded(w) matches Decoded::TwoOp { src: Operand::MaybeDst(DstOperand::Reg(Reg::SP)), .. },
        (w >> 10u16) & 7 == 4 ==> decoded(w) matches Decoded::TwoOp { src: Operand::MaybeDst(DstOperand::Reg(Reg::XA)), .. },
        (w >> 10u16) & 7 == 5 ==> decoded(w) matches Decoded::TwoOp { src: Operand::MaybeDst(DstOperand::Reg(Reg::XB)), .. },
        (w >> 10u16) & 7 == 6 ==> decoded(w) matches Decoded::TwoOp { src: Operand::MaybeDst(DstOperand::Reg(Reg::BA)), .. },
        (w >> 10u16) & 7 == 7 ==> decoded(w) matches Decoded::TwoOp { src: Operand::MaybeDst(DstOperand::Reg(Reg::BB)), .. },
{
    lemma_field_bounds(w);
}

/// Setting the direction bit leaves every other field as it was.
proof fn lemma_direction_bit_fields(w: u16)
    by (bit_vector)
    requires
        (w >> 7u16) & 1 == 0,
    ensures
        (w | 0x80) & 0xf == w & 0xf,
        ((w | 0x80) >> 4u16) & 7 == (w >> 4u16) & 7,
        ((w | 0x80) >> 7u16) & 1 == 1,
        ((w | 0x80) >> 8u16) & 3 == (w >> 8u16) & 3,
        ((w | 0x80) >> 10u16) & 7 == (w >> 10u16) & 7,
        ((w | 0x80) >> 13u16) & 7 == (w >> 13u16) & 7,
{
}

/// The direction bit swaps the operands of a two-operand instruction: with
/// it set, what was the destination becomes the source and the register that
/// was the source becomes the destination, with the same operation.
pub proof fn lemma_direction_swaps_operands(w: u16)
    requires
        w & 0xf == 0b1010,
        (w >> 4u16) & 7 != 0b111,
        (w >> 7u16) & 1 == 0,
    ensures
        decoded(w) is TwoOp,
        decoded(w | 0x80) is TwoOp,
        ({
            let a = decoded(w);
            let b = decoded(w | 0x80);
            &&& b->TwoOp_op == a->TwoOp_op
            &&& b->src == Operand::MaybeDst(a->TwoOp_dst)
            &&& Operand::MaybeDst(b->TwoOp_dst) == a->src
        }),
{
    lemma_field_bounds(w);
    lemma_direction_bit_fields(w);
}

} // verus!

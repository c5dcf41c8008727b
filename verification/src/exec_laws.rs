//! What the control unit does for each instruction, stated by concrete
//! instruction kinds, registers, ALU operations and flag values.

use vstd::prelude::*;
use crate::alu::{AluFlags, AluOp};
use crate::control_unit::{cu_step, ExecStage, LoadEaStage, LoadImmStage, LoadTempsStage, NeaStage, State};
use crate::decode_unit::{
    AddrRegister, BaseRegister, CfNea, Decoded, DstOperand, IndexRegister, Jcond, OneOp, Operand,
    TwoOp,
};
use crate::register::{register_next, RegInput, Register, RegisterInput};
use crate::register_file::{reg_code, reg_file_next, reg_file_out, Reg};

verus! {

/// Whether a conditional jump `jc` is taken under the flags `f`: execution
/// goes on to add the offset to `PC` instead of ending.
pub open spec fn jump_taken(jc: Jcond, f: AluFlags) -> bool {
    cu_step(Decoded::Jcond(jc), f, State::Exec(ExecStage::ExecStart)).0 == State::Exec(
        ExecStage::ExecJcond,
    )
}

/// Each conditional jump tests its flags: `jb` (`jc`) carry, `jae` (`jnc`) no
/// carry, `je` (`jz`) zero, `jne` (`jnz`) not zero, `jbe` carry or zero, `ja`
/// neither, `jl` sign different from overflow, `jge` sign equal to overflow,
/// `jle` zero or sign different from overflow, `jg` no zero and sign equal to
/// overflow, `jo`/`jno` overflow, `js`/`jns` sign, `jpe`/`jpo` parity.
pub proof fn lemma_jump_conditions(f: AluFlags)
    ensures
        jump_taken(Jcond::Jb, f) == f.c,
        jump_taken(Jcond::Jae, f) == !f.c,
        jump_taken(Jcond::Je, f) == f.z,
        jump_taken(Jcond::Jne, f) == !f.z,
        jump_taken(Jcond::Jbe, f) == (f.c || f.z),
        jump_taken(Jcond::Ja, f) == (!f.c && !f.z),
        jump_taken(Jcond::Jl, f) == (f.s != f.o),
        jump_taken(Jcond::Jge, f) == (f.s == f.o),
        jump_taken(Jcond::Jle, f) == (f.z || f.s != f.o),
        jump_taken(Jcond::Jg, f) == (!f.z && f.s == f.o),
        jump_taken(Jcond::Jo, f) == f.o,
        jump_taken(Jcond::Jno, f) == !f.o,
        jump_taken(Jcond::Js, f) == f.s,
        jump_taken(Jcond::Jns, f) == !f.s,
        jump_taken(Jcond::Jpe, f) == f.p,
        jump_taken(Jcond::Jpo, f) == !f.p,
{
}

/// How the conditions relate: "below or equal" is "below" or "equal", "less
/// or equal" is "less" or "equal", and "above", "greater", "greater or equal"
/// and "above or equal" are the negations of "below or equal", "less or
/// equal", "less" and "below".
pub proof fn lemma_jump_condition_relations(f: AluFlags)
    ensures
        jump_taken(Jcond::Jbe, f) == (jump_taken(Jcond::Jb, f) || jump_taken(Jcond::Je, f)),
        jump_taken(Jcond::Jle, f) == (jump_taken(Jcond::Jl, f) || jump_taken(Jcond::Je, f)),
        jump_taken(Jcond::Ja, f) == !jump_taken(Jcond::Jbe, f),
        jump_taken(Jcond::Jg, f) == !jump_taken(Jcond::Jle, f),
        jump_taken(Jcond::Jge, f) == !jump_taken(Jcond::Jl, f),
        jump_taken(Jcond::Jae, f) == !jump_taken(Jcond::Jb, f),
{
}

/// Executing a two-operand instruction selects the ALU operation that
/// computes it (`add`/`adc`: `ADC`; `sub`/`sbb`/`cmp`: `SBB1`, `t1 - t2`;
/// `and`/`test`: `AND`; `or`: `OR`; `xor`: `XOR`; `mov`: `OR` of the source
/// alone), feeds the carry flag in only for `adc`/`sbb`, stores the result in
/// `t1` except for `cmp` and `test`, updates the flags except for `mov`, and
/// goes on to store the result.
pub proof fn lemma_two_operand_execution(op: TwoOp, src: Operand, dst: DstOperand, f: AluFlags)
    ensures
        ({
            let (n, cs) = cu_step(Decoded::TwoOp { op, src, dst }, f, State::Exec(ExecStage::ExecStart));
            &&& n == State::Store
            &&& op == TwoOp::Add ==> cs.alu_sel == AluOp::ADC && !cs.alu_carry
            &&& op == TwoOp::Adc ==> cs.alu_sel == AluOp::ADC && cs.alu_carry == f.c
            &&& op == TwoOp::Sub ==> cs.alu_sel == AluOp::SBB1 && !cs.alu_carry
            &&& op == TwoOp::Sbb ==> cs.alu_sel == AluOp::SBB1 && cs.alu_carry == f.c
            &&& op == TwoOp::Cmp ==> cs.alu_sel == AluOp::SBB1 && !cs.alu_carry
            &&& op == TwoOp::And ==> cs.alu_sel == AluOp::AND
            &&& op == TwoOp::Test ==> cs.alu_sel == AluOp::AND
            &&& op == TwoOp::Or ==> cs.alu_sel == AluOp::OR
            &&& op == TwoOp::Xor ==> cs.alu_sel == AluOp::XOR
            &&& op == TwoOp::Mov ==> cs.alu_sel == AluOp::OR && !cs.t1_oe && !cs.fr_we
            &&& op != TwoOp::Mov ==> cs.t1_oe && cs.fr_we && !cs.fr_sel_bus
            &&& cs.t2_oe
            &&& (cs.t1_we && cs.alu_oe) == (op != TwoOp::Cmp && op != TwoOp::Test)
            &&& cs.exec_done
        }),
{
}

/// Executing a one-operand arithmetic instruction computes it on `t1` into
/// `t1` (`inc`: `t1 + 1`, `dec`: `t1 - 1`, `neg`: `0 - t1`, `not`, `shl`,
/// `shr`, `sar`), and `movi` copies the immediate from `t2`; all but `movi`
/// update the flags; then the result is stored.
pub proof fn lemma_one_operand_execution(op: OneOp, dst: DstOperand, f: AluFlags)
    requires
        op != OneOp::Mov && op != OneOp::Push && op != OneOp::Pop && op != OneOp::Call && op
            != OneOp::Jmp,
    ensures
        ({
            let (n, cs) = cu_step(Decoded::OneOp { op, dst }, f, State::Exec(ExecStage::ExecStart));
            &&& n == State::Store
            &&& cs.alu_oe && cs.t1_we && cs.exec_done
            &&& op == OneOp::Inc ==> cs.alu_sel == AluOp::ADC && cs.alu_carry && cs.t1_oe && !cs.t2_oe
            &&& op == OneOp::Dec ==> cs.alu_sel == AluOp::SBB1 && cs.alu_carry && cs.t1_oe && !cs.t2_oe
            &&& op == OneOp::Neg ==> cs.alu_sel == AluOp::SBB2 && !cs.alu_carry && cs.t1_oe && !cs.t2_oe
            &&& op == OneOp::Not ==> cs.alu_sel == AluOp::NOT && cs.t1_oe
            &&& op == OneOp::Shl ==> cs.alu_sel == AluOp::SHL && cs.t1_oe
            &&& op == OneOp::Shr ==> cs.alu_sel == AluOp::SHR && cs.t1_oe
            &&& op == OneOp::Sar ==> cs.alu_sel == AluOp::SAR && cs.t1_oe
            &&& op == OneOp::MovI ==> cs.alu_sel == AluOp::OR && cs.t2_oe && !cs.t1_oe && !cs.fr_we
            &&& op != OneOp::MovI ==> cs.fr_we
        }),
{
}

/// The stack: `push` and `call` read `SP` into `t2`, then write `t2 - 1`
/// back into `SP` and `MA`; `pop` reads `SP` into `t2` and `MA`, then writes
/// `t2 + 1` back into `SP` while memory is addressed.
pub proof fn lemma_stack_pointer(dst: DstOperand, f: AluFlags)
    ensures
        ({
            let (n, cs) = cu_step(Decoded::OneOp { op: OneOp::Push, dst }, f, State::Exec(ExecStage::ExecStart));
            n == State::Exec(ExecStage::ExecPush) && cs.rf_oe && cs.rf_sel == Reg::SP && cs.t2_we
        }),
        ({
            let (n, cs) = cu_step(Decoded::OneOp { op: OneOp::Call, dst }, f, State::Exec(ExecStage::ExecStart));
            n == State::Exec(ExecStage::ExecPush) && cs.rf_oe && cs.rf_sel == Reg::SP && cs.t2_we
        }),
        ({
            let (n, cs) = cu_step(Decoded::OneOp { op: OneOp::Push, dst }, f, State::Exec(ExecStage::ExecPush));
            &&& n == State::Exec(ExecStage::ExecPush2)
            &&& cs.rf_we && cs.rf_sel == Reg::SP && cs.ma_we
            &&& cs.alu_oe && cs.alu_sel == AluOp::SBB2 && cs.alu_carry && cs.t2_oe && !cs.t1_oe
        }),
        ({
            let (n, cs) = cu_step(Decoded::OneOp { op: OneOp::Pop, dst }, f, State::Exec(ExecStage::ExecStart));
            n == State::Exec(ExecStage::ExecPop) && cs.rf_oe && cs.rf_sel == Reg::SP && cs.t2_we && cs.ma_we
        }),
        ({
            let (n, cs) = cu_step(Decoded::OneOp { op: OneOp::Pop, dst }, f, State::Exec(ExecStage::ExecPop));
            &&& n == State::Exec(ExecStage::ExecPop2)
            &&& cs.rf_we && cs.rf_sel == Reg::SP && cs.ma_oe
            &&& cs.alu_oe && cs.alu_sel == AluOp::ADC && cs.alu_carry && cs.t2_oe && !cs.t1_oe
        }),
{
}

/// Storing the result: into the destination register when it is one (from
/// `t1`, or `t2` for `pop`), otherwise into memory at `MA`; then `PC` is
/// incremented.
pub proof fn lemma_store_destination(d: Decoded, f: AluFlags)
    requires
        d is TwoOp || d is OneOp,
    ensures
        ({
            let (n, cs) = cu_step(d, f, State::Store);
            let dst = if d is TwoOp { d->TwoOp_dst } else { d->OneOp_dst };
            let pop = d matches Decoded::OneOp { op: OneOp::Pop, .. };
            &&& n == State::IncPC
            &&& cs.alu_oe && cs.alu_sel == AluOp::OR
            &&& cs.t1_oe == !pop && cs.t2_oe == pop
            &&& (dst matches DstOperand::Reg(r) ==> cs.rf_we && cs.rf_sel == r && !cs.ram_we)
            &&& (!(dst is Reg) ==> cs.ram_we && cs.ma_oe && !cs.rf_we)
        }),
{
}

/// Where decoding leads: an instruction with a memory operand first computes
/// its address; otherwise one with an immediate reads it; otherwise its
/// registers are loaded. `in`/`out` start with the port address, `pushf`
/// with `SP`, `popf`/`iret`/`ret` with popping; jumps go to execution; `hlt`
/// and invalid words halt.
pub proof fn lemma_decode_dispatch(d: Decoded, f: AluFlags)
    ensures
        ({
            let n = cu_step(d, f, State::Decode).0;
            &&& d matches Decoded::TwoOp { src: Operand::MaybeDst(DstOperand::Reg(_)), dst: DstOperand::Reg(_), .. }
                ==> n == State::LoadTemps(LoadTempsStage::LoadTs)
            &&& d matches Decoded::TwoOp { src: Operand::Imm, dst: DstOperand::Reg(_), .. }
                ==> n == State::LoadImm(LoadImmStage::ImmLpc)
            &&& (d is TwoOp && !(d->TwoOp_dst is Reg)) ==> n == State::LoadEa(LoadEaStage::Lea)
            &&& (d matches Decoded::TwoOp { src: Operand::MaybeDst(m), .. } && !(m is Reg)) ==> n
                == State::LoadEa(LoadEaStage::Lea)
            &&& d matches Decoded::OneOp { op: OneOp::MovI, dst: DstOperand::Reg(_) } ==> n
                == State::LoadImm(LoadImmStage::ImmLpc)
            &&& (d matches Decoded::OneOp { op, dst: DstOperand::Reg(_) } && op != OneOp::MovI) ==> n
                == State::LoadTemps(LoadTempsStage::LoadTs)
            &&& (d is OneOp && !(d->OneOp_dst is Reg)) ==> n == State::LoadEa(LoadEaStage::Lea)
            &&& d == Decoded::CfNea(CfNea::In) ==> n == State::Nea(NeaStage::IoaL)
            &&& d == Decoded::CfNea(CfNea::Out) ==> n == State::Nea(NeaStage::IoaL)
            &&& d == Decoded::CfNea(CfNea::Pushf) ==> n == State::Nea(NeaStage::PushfSP)
            &&& d == Decoded::CfNea(CfNea::Popf) ==> n == State::Nea(NeaStage::PopSP)
            &&& d == Decoded::CfNea(CfNea::Iret) ==> n == State::Nea(NeaStage::PopSP)
            &&& d == Decoded::CfNea(CfNea::Ret) ==> n == State::Nea(NeaStage::PopSP)
            &&& d == Decoded::CfNea(CfNea::Hlt) ==> n == State::Hlt
            &&& d is Jcond ==> n == State::Exec(ExecStage::ExecStart)
            &&& d is Invalid ==> n == State::Hlt
        }),
{
}

/// The address registers: loading the base of a memory operand reads `ba`
/// or `bb` as the operand names, and loading its index reads `xa` or `xb`
/// (`[b+-xa]` always `xa`).
pub proof fn lemma_address_registers(op: OneOp, m: DstOperand, f: AluFlags)
    ensures
        ({
            let cs = cu_step(Decoded::OneOp { op, dst: m }, f, State::LoadEa(LoadEaStage::Ldb)).1;
            &&& (m matches DstOperand::BasedAddr(BaseRegister::BA) || m matches DstOperand::BasedIndexedAddr(BaseRegister::BA, _)
                || m matches DstOperand::RegSum(BaseRegister::BA, _) || m matches DstOperand::RegSumIncr(BaseRegister::BA, _)
                || m matches DstOperand::RegSumDecr(BaseRegister::BA)
                || m == DstOperand::RegisterAddress(AddrRegister::Base(BaseRegister::BA))) ==> cs.rf_oe && cs.rf_sel == Reg::BA
            &&& (m matches DstOperand::BasedAddr(BaseRegister::BB) || m matches DstOperand::BasedIndexedAddr(BaseRegister::BB, _)
                || m matches DstOperand::RegSum(BaseRegister::BB, _) || m matches DstOperand::RegSumIncr(BaseRegister::BB, _)
                || m matches DstOperand::RegSumDecr(BaseRegister::BB)
                || m == DstOperand::RegisterAddress(AddrRegister::Base(BaseRegister::BB))) ==> cs.rf_oe && cs.rf_sel == Reg::BB
        }),
        ({
            let cs = cu_step(Decoded::OneOp { op, dst: m }, f, State::LoadEa(LoadEaStage::Ldi)).1;
            &&& (m matches DstOperand::IndexedAddr(IndexRegister::XA) || m matches DstOperand::BasedIndexedAddr(_, IndexRegister::XA)
                || m matches DstOperand::RegSum(_, IndexRegister::XA) || m matches DstOperand::RegSumIncr(_, IndexRegister::XA)
                || m is RegSumDecr
                || m == DstOperand::RegisterAddress(AddrRegister::Index(IndexRegister::XA))) ==> cs.rf_oe && cs.rf_sel == Reg::XA
            &&& (m matches DstOperand::IndexedAddr(IndexRegister::XB) || m matches DstOperand::BasedIndexedAddr(_, IndexRegister::XB)
                || m matches DstOperand::RegSum(_, IndexRegister::XB) || m matches DstOperand::RegSumIncr(_, IndexRegister::XB)
                || m == DstOperand::RegisterAddress(AddrRegister::Index(IndexRegister::XB))) ==> cs.rf_oe && cs.rf_sel == Reg::XB
        }),
{
}

/// Port I/O goes through `ra`: `in` writes the port's value into `ra`, `out`
/// drives `ra` onto the bus while writing the port.
pub proof fn lemma_port_io_uses_ra(f: AluFlags)
    ensures
        ({
            let (n, cs) = cu_step(Decoded::CfNea(CfNea::In), f, State::Nea(NeaStage::IoR));
            n == State::IncPC && cs.io_oe && cs.rf_we && cs.rf_sel == Reg::RA && !cs.io_we
        }),
        ({
            let (n, cs) = cu_step(Decoded::CfNea(CfNea::Out), f, State::Nea(NeaStage::IoW));
            n == State::IncPC && cs.io_we && cs.rf_oe && cs.rf_sel == Reg::RA && !cs.rf_we
        }),
{
}

/// Without write-enable the register file keeps its contents, whatever the
/// output-enable and the data input are; with it, exactly the selected
/// register takes the data input. It drives the bus only when read without
/// being written.
pub proof fn lemma_reg_file_write_enable(i: RegInput, sel: Reg, q: Seq<u16>, other: Reg)
    requires
        q.len() == 8,
    ensures
        !i.we ==> reg_file_next(i, sel, q) == q,
        i.we ==> reg_file_next(i, sel, q)[reg_code(sel) as int] == i.data_in,
        other != sel ==> reg_file_next(i, sel, q)[reg_code(other) as int] == q[reg_code(other) as int],
        reg_file_next(i, sel, q).len() == 8,
        !(i.oe && !i.we) ==> reg_file_out(i, sel, q) == 0,
        i.oe && !i.we ==> reg_file_out(i, sel, q) == q[reg_code(sel) as int],
{
}

/// Without write-enable a bus register keeps its contents; with it, it takes
/// the data input.
pub proof fn lemma_register_write_enable(i: RegisterInput, q: Register)
    ensures
        !i.we ==> register_next(i, q) == q,
        i.we ==> register_next(i, q).memory == i.data_in,
{
}

} // verus!

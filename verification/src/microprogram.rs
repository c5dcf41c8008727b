//! The control unit's microprogram written out cycle by cycle: for each
//! state and kind of instruction, the next state, the set of control lines
//! that are on (as a bit mask, one bit per line), the register selected and
//! the ALU operation selected.

use vstd::prelude::*;
use crate::alu::{AluFlags, AluOp};
use crate::control_unit::{
    cu_step, ControlSignals, ExecStage, FetchStage, LoadEaStage, LoadImmStage, LoadTempsStage,
    NeaStage, State,
};
use crate::decode_unit::{
    AddrRegister, BaseRegister, CfNea, Decoded, DstOperand, IndexRegister, Jcond, OneOp, Operand,
    TwoOp,
};
use crate::register_file::Reg;

verus! {

/// Bit of the `rf_oe` line in [`line_mask`].
pub const L_RF_OE: u64 = 1;

/// Bit of the `rf_we` line in [`line_mask`].
pub const L_RF_WE: u64 = 2;

/// Bit of the `t1_oe` line in [`line_mask`].
pub const L_T1_OE: u64 = 4;

/// Bit of the `t1_we` line in [`line_mask`].
pub const L_T1_WE: u64 = 8;

/// Bit of the `t2_oe` line in [`line_mask`].
pub const L_T2_OE: u64 = 16;

/// Bit of the `t2_we` line in [`line_mask`].
pub const L_T2_WE: u64 = 32;

/// Bit of the `ma_oe` line in [`line_mask`].
pub const L_MA_OE: u64 = 64;

/// Bit of the `ma_we` line in [`line_mask`].
pub const L_MA_WE: u64 = 128;

/// Bit of the `ram_oe` line in [`line_mask`].
pub const L_RAM_OE: u64 = 256;

/// Bit of the `ram_we` line in [`line_mask`].
pub const L_RAM_WE: u64 = 512;

/// Bit of the `alu_carry` line in [`line_mask`].
pub const L_ALU_CARRY: u64 = 1024;

/// Bit of the `alu_oe` line in [`line_mask`].
pub const L_ALU_OE: u64 = 2048;

/// Bit of the `pc_we` line in [`line_mask`].
pub const L_PC_WE: u64 = 4096;

/// Bit of the `pc_oe` line in [`line_mask`].
pub const L_PC_OE: u64 = 8192;

/// Bit of the `ir_we` line in [`line_mask`].
pub const L_IR_WE: u64 = 16384;

/// Bit of the `ir_oe` line in [`line_mask`].
pub const L_IR_OE: u64 = 32768;

/// Bit of the `fr_we` line in [`line_mask`].
pub const L_FR_WE: u64 = 65536;

/// Bit of the `fr_oe` line in [`line_mask`].
pub const L_FR_OE: u64 = 131072;

/// Bit of the `fr_sel_bus` line in [`line_mask`].
pub const L_FR_SEL_BUS: u64 = 262144;

/// Bit of the `ioa_oe` line in [`line_mask`].
pub const L_IOA_OE: u64 = 524288;

/// Bit of the `ioa_we` line in [`line_mask`].
pub const L_IOA_WE: u64 = 1048576;

/// Bit of the `io_oe` line in [`line_mask`].
pub const L_IO_OE: u64 = 2097152;

/// Bit of the `io_we` line in [`line_mask`].
pub const L_IO_WE: u64 = 4194304;

/// Bit of the `fetch_done` line in [`line_mask`].
pub const L_FETCH_DONE: u64 = 8388608;

/// Bit of the `load_done` line in [`line_mask`].
pub const L_LOAD_DONE: u64 = 16777216;

/// Bit of the `exec_done` line in [`line_mask`].
pub const L_EXEC_DONE: u64 = 33554432;

/// Bit of the `store_done` line in [`line_mask`].
pub const L_STORE_DONE: u64 = 67108864;

/// Bit of the `instr_done` line in [`line_mask`].
pub const L_INSTR_DONE: u64 = 134217728;

/// The control lines that are on, one bit per line.
pub open spec fn line_mask(cs: ControlSignals) -> int {
    (if cs.rf_oe { L_RF_OE as int } else { 0int })
        + (if cs.rf_we { L_RF_WE as int } else { 0int })
        + (if cs.t1_oe { L_T1_OE as int } else { 0int })
        + (if cs.t1_we { L_T1_WE as int } else { 0int })
        + (if cs.t2_oe { L_T2_OE as int } else { 0int })
        + (if cs.t2_we { L_T2_WE as int } else { 0int })
        + (if cs.ma_oe { L_MA_OE as int } else { 0int })
        + (if cs.ma_we { L_MA_WE as int } else { 0int })
        + (if cs.ram_oe { L_RAM_OE as int } else { 0int })
        + (if cs.ram_we { L_RAM_WE as int } else { 0int })
        + (if cs.alu_carry { L_ALU_CARRY as int } else { 0int })
        + (if cs.alu_oe { L_ALU_OE as int } else { 0int })
        + (if cs.pc_we { L_PC_WE as int } else { 0int })
        + (if cs.pc_oe { L_PC_OE as int } else { 0int })
        + (if cs.ir_we { L_IR_WE as int } else { 0int })
        + (if cs.ir_oe { L_IR_OE as int } else { 0int })
        + (if cs.fr_we { L_FR_WE as int } else { 0int })
        + (if cs.fr_oe { L_FR_OE as int } else { 0int })
        + (if cs.fr_sel_bus { L_FR_SEL_BUS as int } else { 0int })
        + (if cs.ioa_oe { L_IOA_OE as int } else { 0int })
        + (if cs.ioa_we { L_IOA_WE as int } else { 0int })
        + (if cs.io_oe { L_IO_OE as int } else { 0int })
        + (if cs.io_we { L_IO_WE as int } else { 0int })
        + (if cs.fetch_done { L_FETCH_DONE as int } else { 0int })
        + (if cs.load_done { L_LOAD_DONE as int } else { 0int })
        + (if cs.exec_done { L_EXEC_DONE as int } else { 0int })
        + (if cs.store_done { L_STORE_DONE as int } else { 0int })
        + (if cs.instr_done { L_INSTR_DONE as int } else { 0int })
}

/// One cycle goes to `next`, with exactly the lines of `mask` on, register
/// `rf` and ALU operation `alu` selected.
pub open spec fn step_is(r: (State, ControlSignals), next: State, mask: int, rf: Reg, alu: AluOp) -> bool {
    &&& r.0 == next
    &&& line_mask(r.1) == mask
    &&& r.1.rf_sel == rf
    &&& r.1.alu_sel == alu
}

/// The general register a base register is.
pub open spec fn base_register(b: BaseRegister) -> Reg {
    if b == BaseRegister::BA { Reg::BA } else { Reg::BB }
}

/// The general register an index register is.
pub open spec fn index_register(x: IndexRegister) -> Reg {
    if x == IndexRegister::XA { Reg::XA } else { Reg::XB }
}

/// Computing the address of a memory operand, mode by mode, for a
/// destination (`dst_ins`, a one-operand instruction other than `movi`) and
/// for a source (`src_ins`, a two-operand instruction with a register
/// destination): the stages visited from `Lea`, and in each the lines on,
/// the register read or written and the ALU operation. Base and index
/// registers are `b` and `x`.
/// Address computation for `DirectAddress`.
pub proof fn lemma_address_d(op: OneOp, op2: TwoOp, r: Reg, b: BaseRegister, x: IndexRegister, f: AluFlags)
    requires
        op != OneOp::MovI,
    ensures
        step_is(cu_step(Decoded::OneOp { op, dst: DstOperand::DirectAddress }, f, State::LoadEa(LoadEaStage::Lea)), State::LoadEa(LoadEaStage::Ipc), L_T1_WE + L_PC_OE, Reg::RA, AluOp::ADC),
        step_is(cu_step(Decoded::OneOp { op, dst: DstOperand::DirectAddress }, f, State::LoadEa(LoadEaStage::Lpc)), State::LoadEa(LoadEaStage::Ipc), L_T1_WE + L_PC_OE, Reg::RA, AluOp::ADC),
        step_is(cu_step(Decoded::OneOp { op, dst: DstOperand::DirectAddress }, f, State::LoadEa(LoadEaStage::Ipc)), State::LoadEa(LoadEaStage::DispA), L_T1_OE + L_MA_WE + L_ALU_CARRY + L_ALU_OE + L_PC_WE, Reg::RA, AluOp::ADC),
        step_is(cu_step(Decoded::OneOp { op, dst: DstOperand::DirectAddress }, f, State::LoadEa(LoadEaStage::DispA)), State::LoadEa(LoadEaStage::DispL), L_MA_OE as int, Reg::RA, AluOp::ADC),
        step_is(cu_step(Decoded::OneOp { op, dst: DstOperand::DirectAddress }, f, State::LoadEa(LoadEaStage::DispL)), State::LoadTemps(LoadTempsStage::LoadTs), L_T1_WE + L_MA_WE + L_RAM_OE, Reg::RA, AluOp::ADC),
        step_is(cu_step(Decoded::TwoOp { op: op2, src: Operand::MaybeDst(DstOperand::DirectAddress), dst: DstOperand::Reg(r) }, f, State::LoadEa(LoadEaStage::Lea)), State::LoadEa(LoadEaStage::Ipc), L_T1_WE + L_PC_OE, Reg::RA, AluOp::ADC),
        step_is(cu_step(Decoded::TwoOp { op: op2, src: Operand::MaybeDst(DstOperand::DirectAddress), dst: DstOperand::Reg(r) }, f, State::LoadEa(LoadEaStage::Lpc)), State::LoadEa(LoadEaStage::Ipc), L_T1_WE + L_PC_OE, Reg::RA, AluOp::ADC),
        step_is(cu_step(Decoded::TwoOp { op: op2, src: Operand::MaybeDst(DstOperand::DirectAddress), dst: DstOperand::Reg(r) }, f, State::LoadEa(LoadEaStage::Ipc)), State::LoadEa(LoadEaStage::DispA), L_T1_OE + L_MA_WE + L_ALU_CARRY + L_ALU_OE + L_PC_WE, Reg::RA, AluOp::ADC),
        step_is(cu_step(Decoded::TwoOp { op: op2, src: Operand::MaybeDst(DstOperand::DirectAddress), dst: DstOperand::Reg(r) }, f, State::LoadEa(LoadEaStage::DispA)), State::LoadEa(LoadEaStage::DispL), L_MA_OE as int, Reg::RA, AluOp::ADC),
        step_is(cu_step(Decoded::TwoOp { op: op2, src: Operand::MaybeDst(DstOperand::DirectAddress), dst: DstOperand::Reg(r) }, f, State::LoadEa(LoadEaStage::DispL)), State::LoadTemps(LoadTempsStage::LoadTs), L_T2_WE + L_MA_WE + L_RAM_OE, Reg::RA, AluOp::ADC),
{
}

/// Address computation for `IndirectAddress`.
pub proof fn lemma_address_ii(op: OneOp, op2: TwoOp, r: Reg, b: BaseRegister, x: IndexRegister, f: AluFlags)
    requires
        op != OneOp::MovI,
    ensures
        step_is(cu_step(Decoded::OneOp { op, dst: DstOperand::IndirectAddress }, f, State::LoadEa(LoadEaStage::Lea)), State::LoadEa(LoadEaStage::Ipc), L_T1_WE + L_PC_OE, Reg::RA, AluOp::ADC),
        step_is(cu_step(Decoded::OneOp { op, dst: DstOperand::IndirectAddress }, f, State::LoadEa(LoadEaStage::Lpc)), State::LoadEa(LoadEaStage::Ipc), L_T1_WE + L_PC_OE, Reg::RA, AluOp::ADC),
        step_is(cu_step(Decoded::OneOp { op, dst: DstOperand::IndirectAddress }, f, State::LoadEa(LoadEaStage::Ipc)), State::LoadEa(LoadEaStage::DispA), L_T1_OE + L_MA_WE + L_ALU_CARRY + L_ALU_OE + L_PC_WE, Reg::RA, AluOp::ADC),
        step_is(cu_step(Decoded::OneOp { op, dst: DstOperand::IndirectAddress }, f, State::LoadEa(LoadEaStage::DispA)), State::LoadEa(LoadEaStage::DispL), L_MA_OE as int, Reg::RA, AluOp::ADC),
        step_is(cu_step(Decoded::OneOp { op, dst: DstOperand::IndirectAddress }, f, State::LoadEa(LoadEaStage::DispL)), State::LoadEa(LoadEaStage::DdispA), L_T1_WE + L_MA_WE + L_RAM_OE, Reg::RA, AluOp::ADC),
        step_is(cu_step(Decoded::OneOp { op, dst: DstOperand::IndirectAddress }, f, State::LoadEa(LoadEaStage::DdispA)), State::LoadEa(LoadEaStage::DdispL), L_MA_OE as int, Reg::RA, AluOp::ADC),
        step_is(cu_step(Decoded::OneOp { op, dst: DstOperand::IndirectAddress }, f, State::LoadEa(LoadEaStage::DdispL)), State::LoadTemps(LoadTempsStage::LoadTs), L_T1_WE + L_RAM_OE, Reg::RA, AluOp::ADC),
        step_is(cu_step(Decoded::TwoOp { op: op2, src: Operand::MaybeDst(DstOperand::IndirectAddress), dst: DstOperand::Reg(r) }, f, State::LoadEa(LoadEaStage::Lea)), State::LoadEa(LoadEaStage::Ipc), L_T1_WE + L_PC_OE, Reg::RA, AluOp::ADC),
        step_is(cu_step(Decoded::TwoOp { op: op2, src: Operand::MaybeDst(DstOperand::IndirectAddress), dst: DstOperand::Reg(r) }, f, State::LoadEa(LoadEaStage::Lpc)), State::LoadEa(LoadEaStage::Ipc), L_T1_WE + L_PC_OE, Reg::RA, AluOp::ADC),
        step_is(cu_step(Decoded::TwoOp { op: op2, src: Operand::MaybeDst(DstOperand::IndirectAddress), dst: DstOperand::Reg(r) }, f, State::LoadEa(LoadEaStage::Ipc)), State::LoadEa(LoadEaStage::DispA), L_T1_OE + L_MA_WE + L_ALU_CARRY + L_ALU_OE + L_PC_WE, Reg::RA, AluOp::ADC),
        step_is(cu_step(Decoded::TwoOp { op: op2, src: Operand::MaybeDst(DstOperand::IndirectAddress), dst: DstOperand::Reg(r) }, f, State::LoadEa(LoadEaStage::DispA)), State::LoadEa(LoadEaStage::DispL), L_MA_OE as int, Reg::RA, AluOp::ADC),
        step_is(cu_step(Decoded::TwoOp { op: op2, src: Operand::MaybeDst(DstOperand::IndirectAddress), dst: DstOperand::Reg(r) }, f, State::LoadEa(LoadEaStage::DispL)), State::LoadEa(LoadEaStage::DdispA), L_T1_WE + L_MA_WE + L_RAM_OE, Reg::RA, AluOp::ADC),
        step_is(cu_step(Decoded::TwoOp { op: op2, src: Operand::MaybeDst(DstOperand::IndirectAddress), dst: DstOperand::Reg(r) }, f, State::LoadEa(LoadEaStage::DdispA)), State::LoadEa(LoadEaStage::DdispL), L_MA_OE as int, Reg::RA, AluOp::ADC),
        step_is(cu_step(Decoded::TwoOp { op: op2, src: Operand::MaybeDst(DstOperand::IndirectAddress), dst: DstOperand::Reg(r) }, f, State::LoadEa(LoadEaStage::DdispL)), State::LoadTemps(LoadTempsStage::LoadTs), L_T2_WE + L_RAM_OE, Reg::RA, AluOp::ADC),
{
}

/// Address computation for `RegisterAddress(Base)`.
pub proof fn lemma_address_rb(op: OneOp, op2: TwoOp, r: Reg, b: BaseRegister, x: IndexRegister, f: AluFlags)
    requires
        op != OneOp::MovI,
    ensures
        step_is(cu_step(Decoded::OneOp { op, dst: DstOperand::RegisterAddress(AddrRegister::Base(b)) }, f, State::LoadEa(LoadEaStage::Lea)), State::LoadTemps(LoadTempsStage::LoadTs), L_RF_OE + L_T1_WE, base_register(b), AluOp::ADC),
        step_is(cu_step(Decoded::OneOp { op, dst: DstOperand::RegisterAddress(AddrRegister::Base(b)) }, f, State::LoadEa(LoadEaStage::Ldb)), State::LoadTemps(LoadTempsStage::LoadTs), L_RF_OE + L_T1_WE, base_register(b), AluOp::ADC),
        step_is(cu_step(Decoded::TwoOp { op: op2, src: Operand::MaybeDst(DstOperand::RegisterAddress(AddrRegister::Base(b))), dst: DstOperand::Reg(r) }, f, State::LoadEa(LoadEaStage::Lea)), State::LoadTemps(LoadTempsStage::LoadTs), L_RF_OE + L_T2_WE, base_register(b), AluOp::ADC),
        step_is(cu_step(Decoded::TwoOp { op: op2, src: Operand::MaybeDst(DstOperand::RegisterAddress(AddrRegister::Base(b))), dst: DstOperand::Reg(r) }, f, State::LoadEa(LoadEaStage::Ldb)), State::LoadTemps(LoadTempsStage::LoadTs), L_RF_OE + L_T2_WE, base_register(b), AluOp::ADC),
{
}

/// Address computation for `RegisterAddress(Index)`.
pub proof fn lemma_address_rx(op: OneOp, op2: TwoOp, r: Reg, b: BaseRegister, x: IndexRegister, f: AluFlags)
    requires
        op != OneOp::MovI,
    ensures
        step_is(cu_step(Decoded::OneOp { op, dst: DstOperand::RegisterAddress(AddrRegister::Index(x)) }, f, State::LoadEa(LoadEaStage::Lea)), State::LoadTemps(LoadTempsStage::LoadTs), L_RF_OE + L_T1_WE, index_register(x), AluOp::ADC),
        step_is(cu_step(Decoded::OneOp { op, dst: DstOperand::RegisterAddress(AddrRegister::Index(x)) }, f, State::LoadEa(LoadEaStage::Ldi)), State::LoadTemps(LoadTempsStage::LoadTs), L_RF_OE + L_T1_WE, index_register(x), AluOp::ADC),
        step_is(cu_step(Decoded::TwoOp { op: op2, src: Operand::MaybeDst(DstOperand::RegisterAddress(AddrRegister::Index(x))), dst: DstOperand::Reg(r) }, f, State::LoadEa(LoadEaStage::Lea)), State::LoadTemps(LoadTempsStage::LoadTs), L_RF_OE + L_T2_WE, index_register(x), AluOp::ADC),
        step_is(cu_step(Decoded::TwoOp { op: op2, src: Operand::MaybeDst(DstOperand::RegisterAddress(AddrRegister::Index(x))), dst: DstOperand::Reg(r) }, f, State::LoadEa(LoadEaStage::Ldi)), State::LoadTemps(LoadTempsStage::LoadTs), L_RF_OE + L_T2_WE, index_register(x), AluOp::ADC),
{
}

/// Address computation for `RegSum`.
pub proof fn lemma_address_rs(op: OneOp, op2: TwoOp, r: Reg, b: BaseRegister, x: IndexRegister, f: AluFlags)
    requires
        op != OneOp::MovI,
    ensures
        step_is(cu_step(Decoded::OneOp { op, dst: DstOperand::RegSum(b, x) }, f, State::LoadEa(LoadEaStage::Lea)), State::LoadEa(LoadEaStage::Ldi), L_RF_OE + L_T1_WE, base_register(b), AluOp::ADC),
        step_is(cu_step(Decoded::OneOp { op, dst: DstOperand::RegSum(b, x) }, f, State::LoadEa(LoadEaStage::Ldb)), State::LoadEa(LoadEaStage::Ldi), L_RF_OE + L_T1_WE, base_register(b), AluOp::ADC),
        step_is(cu_step(Decoded::OneOp { op, dst: DstOperand::RegSum(b, x) }, f, State::LoadEa(LoadEaStage::Ldi)), State::LoadEa(LoadEaStage::Sum2), L_RF_OE + L_T2_WE, index_register(x), AluOp::ADC),
        step_is(cu_step(Decoded::OneOp { op, dst: DstOperand::RegSum(b, x) }, f, State::LoadEa(LoadEaStage::Sum2)), State::LoadTemps(LoadTempsStage::LoadTs), L_T1_OE + L_T1_WE + L_T2_OE + L_ALU_OE, Reg::RA, AluOp::ADC),
        step_is(cu_step(Decoded::TwoOp { op: op2, src: Operand::MaybeDst(DstOperand::RegSum(b, x)), dst: DstOperand::Reg(r) }, f, State::LoadEa(LoadEaStage::Lea)), State::LoadEa(LoadEaStage::Ldi), L_RF_OE + L_T1_WE, base_register(b), AluOp::ADC),
        step_is(cu_step(Decoded::TwoOp { op: op2, src: Operand::MaybeDst(DstOperand::RegSum(b, x)), dst: DstOperand::Reg(r) }, f, State::LoadEa(LoadEaStage::Ldb)), State::LoadEa(LoadEaStage::Ldi), L_RF_OE + L_T1_WE, base_register(b), AluOp::ADC),
        step_is(cu_step(Decoded::TwoOp { op: op2, src: Operand::MaybeDst(DstOperand::RegSum(b, x)), dst: DstOperand::Reg(r) }, f, State::LoadEa(LoadEaStage::Ldi)), State::LoadEa(LoadEaStage::Sum2), L_RF_OE + L_T2_WE, index_register(x), AluOp::ADC),
        step_is(cu_step(Decoded::TwoOp { op: op2, src: Operand::MaybeDst(DstOperand::RegSum(b, x)), dst: DstOperand::Reg(r) }, f, State::LoadEa(LoadEaStage::Sum2)), State::LoadTemps(LoadTempsStage::LoadTs), L_T1_OE + L_T2_OE + L_T2_WE + L_ALU_OE, Reg::RA, AluOp::ADC),
{
}

/// Address computation for `RegSumIncr`.
pub proof fn lemma_address_rsi(op: OneOp, op2: TwoOp, r: Reg, b: BaseRegister, x: IndexRegister, f: AluFlags)
    requires
        op != OneOp::MovI,
    ensures
        step_is(cu_step(Decoded::OneOp { op, dst: DstOperand::RegSumIncr(b, x) }, f, State::LoadEa(LoadEaStage::Lea)), State::LoadEa(LoadEaStage::Ldi), L_RF_OE + L_T1_WE, base_register(b), AluOp::ADC),
        step_is(cu_step(Decoded::OneOp { op, dst: DstOperand::RegSumIncr(b, x) }, f, State::LoadEa(LoadEaStage::Ldb)), State::LoadEa(LoadEaStage::Ldi), L_RF_OE + L_T1_WE, base_register(b), AluOp::ADC),
        step_is(cu_step(Decoded::OneOp { op, dst: DstOperand::RegSumIncr(b, x) }, f, State::LoadEa(LoadEaStage::Ldi)), State::LoadEa(LoadEaStage::Pipd), L_RF_OE + L_T2_WE, index_register(x), AluOp::ADC),
        step_is(cu_step(Decoded::OneOp { op, dst: DstOperand::RegSumIncr(b, x) }, f, State::LoadEa(LoadEaStage::Pipd)), State::LoadEa(LoadEaStage::Sum2), L_RF_WE + L_T2_OE + L_ALU_CARRY + L_ALU_OE, index_register(x), AluOp::ADC),
        step_is(cu_step(Decoded::OneOp { op, dst: DstOperand::RegSumIncr(b, x) }, f, State::LoadEa(LoadEaStage::Sum2)), State::LoadTemps(LoadTempsStage::LoadTs), L_T1_OE + L_T1_WE + L_T2_OE + L_ALU_OE, Reg::RA, AluOp::ADC),
        step_is(cu_step(Decoded::TwoOp { op: op2, src: Operand::MaybeDst(DstOperand::RegSumIncr(b, x)), dst: DstOperand::Reg(r) }, f, State::LoadEa(LoadEaStage::Lea)), State::LoadEa(LoadEaStage::Ldi), L_RF_OE + L_T1_WE, base_register(b), AluOp::ADC),
        step_is(cu_step(Decoded::TwoOp { op: op2, src: Operand::MaybeDst(DstOperand::RegSumIncr(b, x)), dst: DstOperand::Reg(r) }, f, State::LoadEa(LoadEaStage::Ldb)), State::LoadEa(LoadEaStage::Ldi), L_RF_OE + L_T1_WE, base_register(b), AluOp::ADC),
        step_is(cu_step(Decoded::TwoOp { op: op2, src: Operand::MaybeDst(DstOperand::RegSumIncr(b, x)), dst: DstOperand::Reg(r) }, f, State::LoadEa(LoadEaStage::Ldi)), State::LoadEa(LoadEaStage::Pipd), L_RF_OE + L_T2_WE, index_register(x), AluOp::ADC),
        step_is(cu_step(Decoded::TwoOp { op: op2, src: Operand::MaybeDst(DstOperand::RegSumIncr(b, x)), dst: DstOperand::Reg(r) }, f, State::LoadEa(LoadEaStage::Pipd)), State::LoadEa(LoadEaStage::Sum2), L_RF_WE + L_T2_OE + L_ALU_CARRY + L_ALU_OE, index_register(x), AluOp::ADC),
        step_is(cu_step(Decoded::TwoOp { op: op2, src: Operand::MaybeDst(DstOperand::RegSumIncr(b, x)), dst: DstOperand::Reg(r) }, f, State::LoadEa(LoadEaStage::Sum2)), State::LoadTemps(LoadTempsStage::LoadTs), L_T1_OE + L_T2_OE + L_T2_WE + L_ALU_OE, Reg::RA, AluOp::ADC),
{
}

/// Address computation for `RegSumDecr`.
pub proof fn lemma_address_rsd(op: OneOp, op2: TwoOp, r: Reg, b: BaseRegister, x: IndexRegister, f: AluFlags)
    requires
        op != OneOp::MovI,
    ensures
        step_is(cu_step(Decoded::OneOp { op, dst: DstOperand::RegSumDecr(b) }, f, State::LoadEa(LoadEaStage::Lea)), State::LoadEa(LoadEaStage::Ldi), L_RF_OE + L_T1_WE, base_register(b), AluOp::ADC),
        step_is(cu_step(Decoded::OneOp { op, dst: DstOperand::RegSumDecr(b) }, f, State::LoadEa(LoadEaStage::Ldb)), State::LoadEa(LoadEaStage::Ldi), L_RF_OE + L_T1_WE, base_register(b), AluOp::ADC),
        step_is(cu_step(Decoded::OneOp { op, dst: DstOperand::RegSumDecr(b) }, f, State::LoadEa(LoadEaStage::Ldi)), State::LoadEa(LoadEaStage::Pipd), L_RF_OE + L_T2_WE, Reg::XA, AluOp::ADC),
        step_is(cu_step(Decoded::OneOp { op, dst: DstOperand::RegSumDecr(b) }, f, State::LoadEa(LoadEaStage::Pipd)), State::LoadEa(LoadEaStage::Sum2), L_RF_WE + L_T2_OE + L_T2_WE + L_ALU_CARRY + L_ALU_OE, Reg::XA, AluOp::SBB2),
        step_is(cu_step(Decoded::OneOp { op, dst: DstOperand::RegSumDecr(b) }, f, State::LoadEa(LoadEaStage::Sum2)), State::LoadTemps(LoadTempsStage::LoadTs), L_T1_OE + L_T1_WE + L_T2_OE + L_ALU_OE, Reg::RA, AluOp::ADC),
        step_is(cu_step(Decoded::TwoOp { op: op2, src: Operand::MaybeDst(DstOperand::RegSumDecr(b)), dst: DstOperand::Reg(r) }, f, State::LoadEa(LoadEaStage::Lea)), State::LoadEa(LoadEaStage::Ldi), L_RF_OE + L_T1_WE, base_register(b), AluOp::ADC),
        step_is(cu_step(Decoded::TwoOp { op: op2, src: Operand::MaybeDst(DstOperand::RegSumDecr(b)), dst: DstOperand::Reg(r) }, f, State::LoadEa(LoadEaStage::Ldb)), State::LoadEa(LoadEaStage::Ldi), L_RF_OE + L_T1_WE, base_register(b), AluOp::ADC),
        step_is(cu_step(Decoded::TwoOp { op: op2, src: Operand::MaybeDst(DstOperand::RegSumDecr(b)), dst: DstOperand::Reg(r) }, f, State::LoadEa(LoadEaStage::Ldi)), State::LoadEa(LoadEaStage::Pipd), L_RF_OE + L_T2_WE, Reg::XA, AluOp::ADC),
        step_is(cu_step(Decoded::TwoOp { op: op2, src: Operand::MaybeDst(DstOperand::RegSumDecr(b)), dst: DstOperand::Reg(r) }, f, State::LoadEa(LoadEaStage::Pipd)), State::LoadEa(LoadEaStage::Sum2), L_RF_WE + L_T2_OE + L_T2_WE + L_ALU_CARRY + L_ALU_OE, Reg::XA, AluOp::SBB2),
        step_is(cu_step(Decoded::TwoOp { op: op2, src: Operand::MaybeDst(DstOperand::RegSumDecr(b)), dst: DstOperand::Reg(r) }, f, State::LoadEa(LoadEaStage::Sum2)), State::LoadTemps(LoadTempsStage::LoadTs), L_T1_OE + L_T2_OE + L_T2_WE + L_ALU_OE, Reg::RA, AluOp::ADC),
{
}

/// Address computation for `BasedAddr`.
pub proof fn lemma_address_ba(op: OneOp, op2: TwoOp, r: Reg, b: BaseRegister, x: IndexRegister, f: AluFlags)
    requires
        op != OneOp::MovI,
    ensures
        step_is(cu_step(Decoded::OneOp { op, dst: DstOperand::BasedAddr(b) }, f, State::LoadEa(LoadEaStage::Lea)), State::LoadEa(LoadEaStage::Ipc), L_T1_WE + L_PC_OE, Reg::RA, AluOp::ADC),
        step_is(cu_step(Decoded::OneOp { op, dst: DstOperand::BasedAddr(b) }, f, State::LoadEa(LoadEaStage::Lpc)), State::LoadEa(LoadEaStage::Ipc), L_T1_WE + L_PC_OE, Reg::RA, AluOp::ADC),
        step_is(cu_step(Decoded::OneOp { op, dst: DstOperand::BasedAddr(b) }, f, State::LoadEa(LoadEaStage::Ipc)), State::LoadEa(LoadEaStage::DispA), L_T1_OE + L_MA_WE + L_ALU_CARRY + L_ALU_OE + L_PC_WE, Reg::RA, AluOp::ADC),
        step_is(cu_step(Decoded::OneOp { op, dst: DstOperand::BasedAddr(b) }, f, State::LoadEa(LoadEaStage::DispA)), State::LoadEa(LoadEaStage::DispL), L_MA_OE as int, Reg::RA, AluOp::ADC),
        step_is(cu_step(Decoded::OneOp { op, dst: DstOperand::BasedAddr(b) }, f, State::LoadEa(LoadEaStage::DispL)), State::LoadEa(LoadEaStage::Ldb), L_T1_WE + L_MA_WE + L_RAM_OE, Reg::RA, AluOp::ADC),
        step_is(cu_step(Decoded::OneOp { op, dst: DstOperand::BasedAddr(b) }, f, State::LoadEa(LoadEaStage::Ldb)), State::LoadEa(LoadEaStage::Sum2), L_RF_OE + L_T2_WE, base_register(b), AluOp::ADC),
        step_is(cu_step(Decoded::OneOp { op, dst: DstOperand::BasedAddr(b) }, f, State::LoadEa(LoadEaStage::Sum2)), State::LoadTemps(LoadTempsStage::LoadTs), L_T1_OE + L_T1_WE + L_T2_OE + L_ALU_OE, Reg::RA, AluOp::ADC),
        step_is(cu_step(Decoded::TwoOp { op: op2, src: Operand::MaybeDst(DstOperand::BasedAddr(b)), dst: DstOperand::Reg(r) }, f, State::LoadEa(LoadEaStage::Lea)), State::LoadEa(LoadEaStage::Ipc), L_T1_WE + L_PC_OE, Reg::RA, AluOp::ADC),
        step_is(cu_step(Decoded::TwoOp { op: op2, src: Operand::MaybeDst(DstOperand::BasedAddr(b)), dst: DstOperand::Reg(r) }, f, State::LoadEa(LoadEaStage::Lpc)), State::LoadEa(LoadEaStage::Ipc), L_T1_WE + L_PC_OE, Reg::RA, AluOp::ADC),
        step_is(cu_step(Decoded::TwoOp { op: op2, src: Operand::MaybeDst(DstOperand::BasedAddr(b)), dst: DstOperand::Reg(r) }, f, State::LoadEa(LoadEaStage::Ipc)), State::LoadEa(LoadEaStage::DispA), L_T1_OE + L_MA_WE + L_ALU_CARRY + L_ALU_OE + L_PC_WE, Reg::RA, AluOp::ADC),
        step_is(cu_step(Decoded::TwoOp { op: op2, src: Operand::MaybeDst(DstOperand::BasedAddr(b)), dst: DstOperand::Reg(r) }, f, State::LoadEa(LoadEaStage::DispA)), State::LoadEa(LoadEaStage::DispL), L_MA_OE as int, Reg::RA, AluOp::ADC),
        step_is(cu_step(Decoded::TwoOp { op: op2, src: Operand::MaybeDst(DstOperand::BasedAddr(b)), dst: DstOperand::Reg(r) }, f, State::LoadEa(LoadEaStage::DispL)), State::LoadEa(LoadEaStage::Ldb), L_T1_WE + L_MA_WE + L_RAM_OE, Reg::RA, AluOp::ADC),
        step_is(cu_step(Decoded::TwoOp { op: op2, src: Operand::MaybeDst(DstOperand::BasedAddr(b)), dst: DstOperand::Reg(r) }, f, State::LoadEa(LoadEaStage::Ldb)), State::LoadEa(LoadEaStage::Sum2), L_RF_OE + L_T2_WE, base_register(b), AluOp::ADC),
        step_is(cu_step(Decoded::TwoOp { op: op2, src: Operand::MaybeDst(DstOperand::BasedAddr(b)), dst: DstOperand::Reg(r) }, f, State::LoadEa(LoadEaStage::Sum2)), State::LoadTemps(LoadTempsStage::LoadTs), L_T1_OE + L_T2_OE + L_T2_WE + L_ALU_OE, Reg::RA, AluOp::ADC),
{
}

/// Address computation for `IndexedAddr`.
pub proof fn lemma_address_xa(op: OneOp, op2: TwoOp, r: Reg, b: BaseRegister, x: IndexRegister, f: AluFlags)
    requires
        op != OneOp::MovI,
    ensures
        step_is(cu_step(Decoded::OneOp { op, dst: DstOperand::IndexedAddr(x) }, f, State::LoadEa(LoadEaStage::Lea)), State::LoadEa(LoadEaStage::Ipc), L_T1_WE + L_PC_OE, Reg::RA, AluOp::ADC),
        step_is(cu_step(Decoded::OneOp { op, dst: DstOperand::IndexedAddr(x) }, f, State::LoadEa(LoadEaStage::Lpc)), State::LoadEa(LoadEaStage::Ipc), L_T1_WE + L_PC_OE, Reg::RA, AluOp::ADC),
        step_is(cu_step(Decoded::OneOp { op, dst: DstOperand::IndexedAddr(x) }, f, State::LoadEa(LoadEaStage::Ipc)), State::LoadEa(LoadEaStage::DispA), L_T1_OE + L_MA_WE + L_ALU_CARRY + L_ALU_OE + L_PC_WE, Reg::RA, AluOp::ADC),
        step_is(cu_step(Decoded::OneOp { op, dst: DstOperand::IndexedAddr(x) }, f, State::LoadEa(LoadEaStage::DispA)), State::LoadEa(LoadEaStage::DispL), L_MA_OE as int, Reg::RA, AluOp::ADC),
        step_is(cu_step(Decoded::OneOp { op, dst: DstOperand::IndexedAddr(x) }, f, State::LoadEa(LoadEaStage::DispL)), State::LoadEa(LoadEaStage::Ldi), L_T1_WE + L_MA_WE + L_RAM_OE, Reg::RA, AluOp::ADC),
        step_is(cu_step(Decoded::OneOp { op, dst: DstOperand::IndexedAddr(x) }, f, State::LoadEa(LoadEaStage::Ldi)), State::LoadEa(LoadEaStage::Sum2), L_RF_OE + L_T2_WE, index_register(x), AluOp::ADC),
        step_is(cu_step(Decoded::OneOp { op, dst: DstOperand::IndexedAddr(x) }, f, State::LoadEa(LoadEaStage::Sum2)), State::LoadTemps(LoadTempsStage::LoadTs), L_T1_OE + L_T1_WE + L_T2_OE + L_ALU_OE, Reg::RA, AluOp::ADC),
        step_is(cu_step(Decoded::TwoOp { op: op2, src: Operand::MaybeDst(DstOperand::IndexedAddr(x)), dst: DstOperand::Reg(r) }, f, State::LoadEa(LoadEaStage::Lea)), State::LoadEa(LoadEaStage::Ipc), L_T1_WE + L_PC_OE, Reg::RA, AluOp::ADC),
        step_is(cu_step(Decoded::TwoOp { op: op2, src: Operand::MaybeDst(DstOperand::IndexedAddr(x)), dst: DstOperand::Reg(r) }, f, State::LoadEa(LoadEaStage::Lpc)), State::LoadEa(LoadEaStage::Ipc), L_T1_WE + L_PC_OE, Reg::RA, AluOp::ADC),
        step_is(cu_step(Decoded::TwoOp { op: op2, src: Operand::MaybeDst(DstOperand::IndexedAddr(x)), dst: DstOperand::Reg(r) }, f, State::LoadEa(LoadEaStage::Ipc)), State::LoadEa(LoadEaStage::DispA), L_T1_OE + L_MA_WE + L_ALU_CARRY + L_ALU_OE + L_PC_WE, Reg::RA, AluOp::ADC),
        step_is(cu_step(Decoded::TwoOp { op: op2, src: Operand::MaybeDst(DstOperand::IndexedAddr(x)), dst: DstOperand::Reg(r) }, f, State::LoadEa(LoadEaStage::DispA)), State::LoadEa(LoadEaStage::DispL), L_MA_OE as int, Reg::RA, AluOp::ADC),
        step_is(cu_step(Decoded::TwoOp { op: op2, src: Operand::MaybeDst(DstOperand::IndexedAddr(x)), dst: DstOperand::Reg(r) }, f, State::LoadEa(LoadEaStage::DispL)), State::LoadEa(LoadEaStage::Ldi), L_T1_WE + L_MA_WE + L_RAM_OE, Reg::RA, AluOp::ADC),
        step_is(cu_step(Decoded::TwoOp { op: op2, src: Operand::MaybeDst(DstOperand::IndexedAddr(x)), dst: DstOperand::Reg(r) }, f, State::LoadEa(LoadEaStage::Ldi)), State::LoadEa(LoadEaStage::Sum2), L_RF_OE + L_T2_WE, index_register(x), AluOp::ADC),
        step_is(cu_step(Decoded::TwoOp { op: op2, src: Operand::MaybeDst(DstOperand::IndexedAddr(x)), dst: DstOperand::Reg(r) }, f, State::LoadEa(LoadEaStage::Sum2)), State::LoadTemps(LoadTempsStage::LoadTs), L_T1_OE + L_T2_OE + L_T2_WE + L_ALU_OE, Reg::RA, AluOp::ADC),
{
}

/// Address computation for `BasedIndexedAddr`.
pub proof fn lemma_address_bxa(op: OneOp, op2: TwoOp, r: Reg, b: BaseRegister, x: IndexRegister, f: AluFlags)
    requires
        op != OneOp::MovI,
    ensures
        step_is(cu_step(Decoded::OneOp { op, dst: DstOperand::BasedIndexedAddr(b, x) }, f, State::LoadEa(LoadEaStage::Lea)), State::LoadEa(LoadEaStage::Ipc), L_T1_WE + L_PC_OE, Reg::RA, AluOp::ADC),
        step_is(cu_step(Decoded::OneOp { op, dst: DstOperand::BasedIndexedAddr(b, x) }, f, State::LoadEa(LoadEaStage::Lpc)), State::LoadEa(LoadEaStage::Ipc), L_T1_WE + L_PC_OE, Reg::RA, AluOp::ADC),
        step_is(cu_step(Decoded::OneOp { op, dst: DstOperand::BasedIndexedAddr(b, x) }, f, State::LoadEa(LoadEaStage::Ipc)), State::LoadEa(LoadEaStage::DispA), L_T1_OE + L_MA_WE + L_ALU_CARRY + L_ALU_OE + L_PC_WE, Reg::RA, AluOp::ADC),
        step_is(cu_step(Decoded::OneOp { op, dst: DstOperand::BasedIndexedAddr(b, x) }, f, State::LoadEa(LoadEaStage::DispA)), State::LoadEa(LoadEaStage::DispL), L_MA_OE as int, Reg::RA, AluOp::ADC),
        step_is(cu_step(Decoded::OneOp { op, dst: DstOperand::BasedIndexedAddr(b, x) }, f, State::LoadEa(LoadEaStage::DispL)), State::LoadEa(LoadEaStage::Ldb), L_T1_WE + L_MA_WE + L_RAM_OE, Reg::RA, AluOp::ADC),
        step_is(cu_step(Decoded::OneOp { op, dst: DstOperand::BasedIndexedAddr(b, x) }, f, State::LoadEa(LoadEaStage::Ldb)), State::LoadEa(LoadEaStage::Sum1), L_RF_OE + L_T2_WE, base_register(b), AluOp::ADC),
        step_is(cu_step(Decoded::OneOp { op, dst: DstOperand::BasedIndexedAddr(b, x) }, f, State::LoadEa(LoadEaStage::Sum1)), State::LoadEa(LoadEaStage::Ldi), L_T1_OE + L_T1_WE + L_T2_OE + L_ALU_OE, Reg::RA, AluOp::ADC),
        step_is(cu_step(Decoded::OneOp { op, dst: DstOperand::BasedIndexedAddr(b, x) }, f, State::LoadEa(LoadEaStage::Ldi)), State::LoadEa(LoadEaStage::Sum2), L_RF_OE + L_T2_WE, index_register(x), AluOp::ADC),
        step_is(cu_step(Decoded::OneOp { op, dst: DstOperand::BasedIndexedAddr(b, x) }, f, State::LoadEa(LoadEaStage::Sum2)), State::LoadTemps(LoadTempsStage::LoadTs), L_T1_OE + L_T1_WE + L_T2_OE + L_ALU_OE, Reg::RA, AluOp::ADC),
        step_is(cu_step(Decoded::TwoOp { op: op2, src: Operand::MaybeDst(DstOperand::BasedIndexedAddr(b, x)), dst: DstOperand::Reg(r) }, f, State::LoadEa(LoadEaStage::Lea)), State::LoadEa(LoadEaStage::Ipc), L_T1_WE + L_PC_OE, Reg::RA, AluOp::ADC),
        step_is(cu_step(Decoded::TwoOp { op: op2, src: Operand::MaybeDst(DstOperand::BasedIndexedAddr(b, x)), dst: DstOperand::Reg(r) }, f, State::LoadEa(LoadEaStage::Lpc)), State::LoadEa(LoadEaStage::Ipc), L_T1_WE + L_PC_OE, Reg::RA, AluOp::ADC),
        step_is(cu_step(Decoded::TwoOp { op: op2, src: Operand::MaybeDst(DstOperand::BasedIndexedAddr(b, x)), dst: DstOperand::Reg(r) }, f, State::LoadEa(LoadEaStage::Ipc)), State::LoadEa(LoadEaStage::DispA), L_T1_OE + L_MA_WE + L_ALU_CARRY + L_ALU_OE + L_PC_WE, Reg::RA, AluOp::ADC),
        step_is(cu_step(Decoded::TwoOp { op: op2, src: Operand::MaybeDst(DstOperand::BasedIndexedAddr(b, x)), dst: DstOperand::Reg(r) }, f, State::LoadEa(LoadEaStage::DispA)), State::LoadEa(LoadEaStage::DispL), L_MA_OE as int, Reg::RA, AluOp::ADC),
        step_is(cu_step(Decoded::TwoOp { op: op2, src: Operand::MaybeDst(DstOperand::BasedIndexedAddr(b, x)), dst: DstOperand::Reg(r) }, f, State::LoadEa(LoadEaStage::DispL)), State::LoadEa(LoadEaStage::Ldb), L_T1_WE + L_MA_WE + L_RAM_OE, Reg::RA, AluOp::ADC),
        step_is(cu_step(Decoded::TwoOp { op: op2, src: Operand::MaybeDst(DstOperand::BasedIndexedAddr(b, x)), dst: DstOperand::Reg(r) }, f, State::LoadEa(LoadEaStage::Ldb)), State::LoadEa(LoadEaStage::Sum1), L_RF_OE + L_T2_WE, base_register(b), AluOp::ADC),
        step_is(cu_step(Decoded::TwoOp { op: op2, src: Operand::MaybeDst(DstOperand::BasedIndexedAddr(b, x)), dst: DstOperand::Reg(r) }, f, State::LoadEa(LoadEaStage::Sum1)), State::LoadEa(LoadEaStage::Ldi), L_T1_OE + L_T1_WE + L_T2_OE + L_ALU_OE, Reg::RA, AluOp::ADC),
        step_is(cu_step(Decoded::TwoOp { op: op2, src: Operand::MaybeDst(DstOperand::BasedIndexedAddr(b, x)), dst: DstOperand::Reg(r) }, f, State::LoadEa(LoadEaStage::Ldi)), State::LoadEa(LoadEaStage::Sum2), L_RF_OE + L_T2_WE, index_register(x), AluOp::ADC),
        step_is(cu_step(Decoded::TwoOp { op: op2, src: Operand::MaybeDst(DstOperand::BasedIndexedAddr(b, x)), dst: DstOperand::Reg(r) }, f, State::LoadEa(LoadEaStage::Sum2)), State::LoadTemps(LoadTempsStage::LoadTs), L_T1_OE + L_T2_OE + L_T2_WE + L_ALU_OE, Reg::RA, AluOp::ADC),
{
}

/// The cycles that are the same for every instruction: reset, the three
/// cycles of fetch (`PC -> MA`; address memory; `memory -> IR`), reading an
/// immediate (`PC -> t2`; `t2 + 1 -> PC, MA`; address memory; `memory -> t2`),
/// incrementing `PC` (`PC -> t1`; `t1 + 1 -> PC`), halting, and decoding,
/// which drives no line.
pub proof fn lemma_common_cycles(d: Decoded, f: AluFlags)
    ensures
        step_is(cu_step(d, f, State::Reset), State::Fetch(FetchStage::PcToMA), 0, Reg::RA, AluOp::ADC),
        step_is(cu_step(d, f, State::Fetch(FetchStage::PcToMA)), State::Fetch(FetchStage::MaToMem), L_MA_WE + L_PC_OE, Reg::RA, AluOp::ADC),
        step_is(cu_step(d, f, State::Fetch(FetchStage::MaToMem)), State::Fetch(FetchStage::MemToIr), L_MA_OE as int, Reg::RA, AluOp::ADC),
        step_is(cu_step(d, f, State::Fetch(FetchStage::MemToIr)), State::Decode, L_RAM_OE + L_IR_WE + L_FETCH_DONE, Reg::RA, AluOp::ADC),
        step_is(cu_step(d, f, State::Fetch(FetchStage::FetchDone)), State::Decode, L_FETCH_DONE as int, Reg::RA, AluOp::ADC),
        step_is(cu_step(d, f, State::LoadImm(LoadImmStage::ImmLpc)), State::LoadImm(LoadImmStage::ImmIpc), L_T2_WE + L_PC_OE, Reg::RA, AluOp::ADC),
        step_is(cu_step(d, f, State::LoadImm(LoadImmStage::ImmIpc)), State::LoadImm(LoadImmStage::ImmA), L_T2_OE + L_MA_WE + L_ALU_CARRY + L_ALU_OE + L_PC_WE, Reg::RA, AluOp::ADC),
        step_is(cu_step(d, f, State::LoadImm(LoadImmStage::ImmA)), State::LoadImm(LoadImmStage::ImmL), L_MA_OE as int, Reg::RA, AluOp::ADC),
        step_is(cu_step(d, f, State::LoadImm(LoadImmStage::ImmL)), State::LoadTemps(LoadTempsStage::LoadTs), L_T2_WE + L_RAM_OE, Reg::RA, AluOp::ADC),
        step_is(cu_step(d, f, State::LoadImm(LoadImmStage::ImmDone)), State::LoadTemps(LoadTempsStage::LoadTs), 0, Reg::RA, AluOp::ADC),
        step_is(cu_step(d, f, State::IncPC), State::IncPC1, L_T1_WE + L_PC_OE, Reg::RA, AluOp::ADC),
        step_is(cu_step(d, f, State::IncPC1), State::Fetch(FetchStage::PcToMA), L_T1_OE + L_ALU_CARRY + L_ALU_OE + L_PC_WE, Reg::RA, AluOp::ADC),
        step_is(cu_step(d, f, State::Hlt), State::Hlt, 0, Reg::RA, AluOp::ADC),
        cu_step(d, f, State::Decode).1 == cu_step(d, f, State::Hlt).1,
{
}

/// Loading register operands (`op rd, rs`): `rs -> t2`, then `rd -> t1`,
/// then loading ends.
pub proof fn lemma_load_register_operands(op: TwoOp, rs: Reg, rd: Reg, f: AluFlags)
    requires
        op != TwoOp::Mov,
    ensures
        step_is(cu_step(Decoded::TwoOp { op, src: Operand::MaybeDst(DstOperand::Reg(rs)), dst: DstOperand::Reg(rd) }, f, State::LoadTemps(LoadTempsStage::LoadTs)), State::LoadTemps(LoadTempsStage::LoadT1Reg), L_RF_OE + L_T2_WE, rs, AluOp::ADC),
        step_is(cu_step(Decoded::TwoOp { op, src: Operand::MaybeDst(DstOperand::Reg(rs)), dst: DstOperand::Reg(rd) }, f, State::LoadTemps(LoadTempsStage::LoadT1Reg)), State::LoadTemps(LoadTempsStage::EAToMA), L_RF_OE + L_T1_WE, rd, AluOp::ADC),
        step_is(cu_step(Decoded::TwoOp { op, src: Operand::MaybeDst(DstOperand::Reg(rs)), dst: DstOperand::Reg(rd) }, f, State::LoadTemps(LoadTempsStage::EAToMA)), State::Exec(ExecStage::ExecStart), L_LOAD_DONE as int, Reg::RA, AluOp::ADC),
        step_is(cu_step(Decoded::TwoOp { op, src: Operand::MaybeDst(DstOperand::Reg(rs)), dst: DstOperand::Reg(rd) }, f, State::LoadTemps(LoadTempsStage::LoadDone)), State::Exec(ExecStage::ExecStart), L_LOAD_DONE as int, Reg::RA, AluOp::ADC),
{
}

/// Loading for `op rd, imm` (the immediate is already in `t2`): `rd -> t1`,
/// then loading ends.
pub proof fn lemma_load_immediate_register(op: TwoOp, rd: Reg, f: AluFlags)
    requires
        op != TwoOp::Mov,
    ensures
        step_is(cu_step(Decoded::TwoOp { op, src: Operand::Imm, dst: DstOperand::Reg(rd) }, f, State::LoadTemps(LoadTempsStage::LoadTs)), State::LoadTemps(LoadTempsStage::EAToMA), L_RF_OE + L_T1_WE, rd, AluOp::ADC),
        step_is(cu_step(Decoded::TwoOp { op, src: Operand::Imm, dst: DstOperand::Reg(rd) }, f, State::LoadTemps(LoadTempsStage::EAToMA)), State::Exec(ExecStage::ExecStart), L_LOAD_DONE as int, Reg::RA, AluOp::ADC),
{
}

/// Loading for `op [m], imm` (the address of `m` is in `t1`, the immediate
/// in `t2`): the address goes to `MA` through the ALU, memory is addressed,
/// and the destination's value is read into `t1`.
pub proof fn lemma_load_immediate_memory(op: TwoOp, m: DstOperand, f: AluFlags)
    requires
        op != TwoOp::Mov,
        !(m is Reg),
    ensures
        step_is(cu_step(Decoded::TwoOp { op, src: Operand::Imm, dst: m }, f, State::LoadTemps(LoadTempsStage::LoadTs)), State::LoadTemps(LoadTempsStage::TempsMA), L_T1_OE + L_MA_WE + L_ALU_OE, Reg::RA, AluOp::OR),
        step_is(cu_step(Decoded::TwoOp { op, src: Operand::Imm, dst: m }, f, State::LoadTemps(LoadTempsStage::EAToMA)), State::LoadTemps(LoadTempsStage::TempsMA), L_T1_OE + L_MA_WE + L_ALU_OE, Reg::RA, AluOp::OR),
        step_is(cu_step(Decoded::TwoOp { op, src: Operand::Imm, dst: m }, f, State::LoadTemps(LoadTempsStage::TempsMA)), State::LoadTemps(LoadTempsStage::TempsML), L_MA_OE as int, Reg::RA, AluOp::ADC),
        step_is(cu_step(Decoded::TwoOp { op, src: Operand::Imm, dst: m }, f, State::LoadTemps(LoadTempsStage::TempsML)), State::Exec(ExecStage::ExecStart), L_T1_WE + L_RAM_OE + L_LOAD_DONE, Reg::RA, AluOp::ADC),
{
}

/// Loading for `op [m], rs`: `rs -> t2`, then the address of `m` (in `t1`)
/// goes to `MA`; `mov` stops there, the others read the destination's
/// value into `t1`.
pub proof fn lemma_load_register_to_memory(op: TwoOp, rs: Reg, m: DstOperand, f: AluFlags)
    requires
        !(m is Reg),
    ensures
        step_is(cu_step(Decoded::TwoOp { op, src: Operand::MaybeDst(DstOperand::Reg(rs)), dst: m }, f, State::LoadTemps(LoadTempsStage::LoadTs)), State::LoadTemps(LoadTempsStage::LoadT1Reg), L_RF_OE + L_T2_WE, rs, AluOp::ADC),
        op != TwoOp::Mov ==> step_is(cu_step(Decoded::TwoOp { op, src: Operand::MaybeDst(DstOperand::Reg(rs)), dst: m }, f, State::LoadTemps(LoadTempsStage::LoadT1Reg)), State::LoadTemps(LoadTempsStage::TempsMA), L_T1_OE + L_MA_WE + L_ALU_OE, Reg::RA, AluOp::OR),
        op == TwoOp::Mov ==> step_is(cu_step(Decoded::TwoOp { op, src: Operand::MaybeDst(DstOperand::Reg(rs)), dst: m }, f, State::LoadTemps(LoadTempsStage::LoadT1Reg)), State::Exec(ExecStage::ExecStart), L_T1_OE + L_MA_WE + L_ALU_OE + L_LOAD_DONE, Reg::RA, AluOp::OR),
        op != TwoOp::Mov ==> step_is(cu_step(Decoded::TwoOp { op, src: Operand::MaybeDst(DstOperand::Reg(rs)), dst: m }, f, State::LoadTemps(LoadTempsStage::TempsML)), State::Exec(ExecStage::ExecStart), L_T1_WE + L_RAM_OE + L_LOAD_DONE, Reg::RA, AluOp::ADC),
{
}

/// Loading for `op rd, [m]` (the address of `m` is in `t2`): `rd -> t1`
/// (not for `mov`), the address goes to `MA`, and the source's value is read
/// into `t2`.
pub proof fn lemma_load_memory_to_register(op: TwoOp, rd: Reg, m: DstOperand, f: AluFlags)
    requires
        !(m is Reg),
    ensures
        op != TwoOp::Mov ==> step_is(cu_step(Decoded::TwoOp { op, src: Operand::MaybeDst(m), dst: DstOperand::Reg(rd) }, f, State::LoadTemps(LoadTempsStage::LoadTs)), State::LoadTemps(LoadTempsStage::EAToMA), L_RF_OE + L_T1_WE, rd, AluOp::ADC),
        op == TwoOp::Mov ==> step_is(cu_step(Decoded::TwoOp { op, src: Operand::MaybeDst(m), dst: DstOperand::Reg(rd) }, f, State::LoadTemps(LoadTempsStage::LoadTs)), State::LoadTemps(LoadTempsStage::TempsMA), L_T2_OE + L_MA_WE + L_ALU_OE, Reg::RA, AluOp::OR),
        step_is(cu_step(Decoded::TwoOp { op, src: Operand::MaybeDst(m), dst: DstOperand::Reg(rd) }, f, State::LoadTemps(LoadTempsStage::EAToMA)), State::LoadTemps(LoadTempsStage::TempsMA), L_T2_OE + L_MA_WE + L_ALU_OE, Reg::RA, AluOp::OR),
        step_is(cu_step(Decoded::TwoOp { op, src: Operand::MaybeDst(m), dst: DstOperand::Reg(rd) }, f, State::LoadTemps(LoadTempsStage::TempsMA)), State::LoadTemps(LoadTempsStage::TempsML), L_MA_OE as int, Reg::RA, AluOp::ADC),
        step_is(cu_step(Decoded::TwoOp { op, src: Operand::MaybeDst(m), dst: DstOperand::Reg(rd) }, f, State::LoadTemps(LoadTempsStage::TempsML)), State::Exec(ExecStage::ExecStart), L_T2_WE + L_RAM_OE + L_LOAD_DONE, Reg::RA, AluOp::ADC),
{
}

/// Loading a one-operand instruction on a register `r`: `r -> t1`, except
/// for `movi`, whose loading ends at once.
pub proof fn lemma_load_one_operand_register(op: OneOp, r: Reg, f: AluFlags)
    ensures
        op != OneOp::MovI ==> step_is(cu_step(Decoded::OneOp { op, dst: DstOperand::Reg(r) }, f, State::LoadTemps(LoadTempsStage::LoadTs)), State::LoadTemps(LoadTempsStage::EAToMA), L_RF_OE + L_T1_WE, r, AluOp::ADC),
        op == OneOp::MovI ==> step_is(cu_step(Decoded::OneOp { op, dst: DstOperand::Reg(r) }, f, State::LoadTemps(LoadTempsStage::LoadTs)), State::Exec(ExecStage::ExecStart), L_LOAD_DONE as int, Reg::RA, AluOp::ADC),
        step_is(cu_step(Decoded::OneOp { op, dst: DstOperand::Reg(r) }, f, State::LoadTemps(LoadTempsStage::EAToMA)), State::Exec(ExecStage::ExecStart), L_LOAD_DONE as int, Reg::RA, AluOp::ADC),
{
}

/// Loading a one-operand instruction on memory `m` (its address in `t1`):
/// the address goes to `MA`; `movi` and `pop` stop there, the others read
/// the operand's value into `t1`.
pub proof fn lemma_load_one_operand_memory(op: OneOp, m: DstOperand, f: AluFlags)
    requires
        !(m is Reg),
    ensures
        (op == OneOp::MovI || op == OneOp::Pop) ==> step_is(cu_step(Decoded::OneOp { op, dst: m }, f, State::LoadTemps(LoadTempsStage::LoadTs)), State::Exec(ExecStage::ExecStart), L_T1_OE + L_MA_WE + L_ALU_OE + L_LOAD_DONE, Reg::RA, AluOp::OR),
        !(op == OneOp::MovI || op == OneOp::Pop) ==> step_is(cu_step(Decoded::OneOp { op, dst: m }, f, State::LoadTemps(LoadTempsStage::LoadTs)), State::LoadTemps(LoadTempsStage::TempsMA), L_T1_OE + L_MA_WE + L_ALU_OE, Reg::RA, AluOp::OR),
        !(op == OneOp::MovI || op == OneOp::Pop) ==> step_is(cu_step(Decoded::OneOp { op, dst: m }, f, State::LoadTemps(LoadTempsStage::TempsML)), State::Exec(ExecStage::ExecStart), L_T1_WE + L_RAM_OE + L_LOAD_DONE, Reg::RA, AluOp::ADC),
        (op == OneOp::MovI || op == OneOp::Pop) ==> step_is(cu_step(Decoded::OneOp { op, dst: m }, f, State::LoadTemps(LoadTempsStage::TempsML)), State::Exec(ExecStage::ExecStart), L_RAM_OE + L_LOAD_DONE, Reg::RA, AluOp::ADC),
{
}

/// The execution cycles that are the same for every instruction: a taken
/// jump reads `PC` into `t2` and writes `t1 + t2` (offset plus `PC`) to `PC`;
/// popping writes `SP + 1` to `SP` while memory is addressed, and may copy
/// `t1` into `MA`; pushing writes `SP - 1` to `SP` and `MA`; a call's last
/// cycle writes `t1` to `PC`.
pub proof fn lemma_exec_common_stages(d: Decoded, f: AluFlags)
    ensures
        step_is(cu_step(d, f, State::Exec(ExecStage::ExecJcond)), State::Exec(ExecStage::ExecJcond2), L_T2_WE + L_PC_OE, Reg::RA, AluOp::ADC),
        step_is(cu_step(d, f, State::Exec(ExecStage::ExecJcond2)), State::Fetch(FetchStage::PcToMA), L_T1_OE + L_T2_OE + L_ALU_OE + L_PC_WE + L_EXEC_DONE + L_INSTR_DONE, Reg::RA, AluOp::ADC),
        step_is(cu_step(d, f, State::Exec(ExecStage::ExecPop)), State::Exec(ExecStage::ExecPop2), L_RF_WE + L_T2_OE + L_MA_OE + L_ALU_CARRY + L_ALU_OE, Reg::SP, AluOp::ADC),
        step_is(cu_step(d, f, State::Exec(ExecStage::ExecPop3)), State::Store, L_T1_OE + L_MA_WE + L_ALU_OE + L_EXEC_DONE, Reg::RA, AluOp::OR),
        step_is(cu_step(d, f, State::Exec(ExecStage::ExecPush)), State::Exec(ExecStage::ExecPush2), L_RF_WE + L_T2_OE + L_MA_WE + L_ALU_CARRY + L_ALU_OE, Reg::SP, AluOp::SBB2),
        step_is(cu_step(d, f, State::Exec(ExecStage::ExecCall)), State::Fetch(FetchStage::PcToMA), L_T1_OE + L_ALU_OE + L_PC_WE + L_EXEC_DONE + L_INSTR_DONE, Reg::RA, AluOp::OR),
        step_is(cu_step(d, f, State::Exec(ExecStage::ExecDone)), State::Store, L_EXEC_DONE as int, Reg::RA, AluOp::ADC),
{
}

/// `push` stores `t1` at `MA` and increments `PC`; `call` stores `PC` at
/// `MA` and then jumps; `jmp` writes `t1` to `PC`; the one-operand `mov`
/// halts; `pop` reads the stack word into `t2` and, for a memory
/// destination, moves its address (`t1`) to `MA`.
pub proof fn lemma_exec_control_flow(dst: DstOperand, f: AluFlags)
    ensures
        step_is(cu_step(Decoded::OneOp { op: OneOp::Push, dst }, f, State::Exec(ExecStage::ExecPush2)), State::IncPC, L_T1_OE + L_MA_OE + L_RAM_WE + L_ALU_OE + L_EXEC_DONE, Reg::RA, AluOp::OR),
        step_is(cu_step(Decoded::OneOp { op: OneOp::Call, dst }, f, State::Exec(ExecStage::ExecPush2)), State::Exec(ExecStage::ExecCall), L_MA_OE + L_RAM_WE + L_PC_OE, Reg::RA, AluOp::ADC),
        step_is(cu_step(Decoded::OneOp { op: OneOp::Jmp, dst }, f, State::Exec(ExecStage::ExecStart)), State::Fetch(FetchStage::PcToMA), L_T1_OE + L_ALU_OE + L_PC_WE + L_EXEC_DONE + L_INSTR_DONE, Reg::RA, AluOp::OR),
        step_is(cu_step(Decoded::OneOp { op: OneOp::Mov, dst }, f, State::Exec(ExecStage::ExecStart)), State::Hlt, L_T1_OE + L_T1_WE + L_ALU_OE + L_FR_WE, Reg::RA, AluOp::ADC),
        (dst is Reg) ==> step_is(cu_step(Decoded::OneOp { op: OneOp::Pop, dst }, f, State::Exec(ExecStage::ExecPop2)), State::Store, L_T2_WE + L_RAM_OE + L_EXEC_DONE, Reg::RA, AluOp::ADC),
        !(dst is Reg) ==> step_is(cu_step(Decoded::OneOp { op: OneOp::Pop, dst }, f, State::Exec(ExecStage::ExecPop2)), State::Exec(ExecStage::ExecPop3), L_T2_WE + L_RAM_OE, Reg::RA, AluOp::ADC),
{
}

/// A conditional jump's first cycle loads the offset from `IR` into `t1` and
/// goes on to add it to `PC` when `condition` (whether the jump is taken)
/// holds; otherwise execution ends, and the store that follows finds no
/// destination and halts. Instructions without an execution sequence halt.
pub proof fn lemma_exec_jump_start(jc: Jcond, c: CfNea, f: AluFlags, condition: bool)
    requires
        condition == crate::exec_laws::jump_taken(jc, f),
    ensures
        condition ==> step_is(cu_step(Decoded::Jcond(jc), f, State::Exec(ExecStage::ExecStart)), State::Exec(ExecStage::ExecJcond), L_T1_WE + L_IR_OE, Reg::RA, AluOp::ADC),
        !condition ==> step_is(cu_step(Decoded::Jcond(jc), f, State::Exec(ExecStage::ExecStart)), State::Store, L_T1_WE + L_IR_OE + L_EXEC_DONE, Reg::RA, AluOp::ADC),
        step_is(cu_step(Decoded::Jcond(jc), f, State::Store), State::Hlt, 0, Reg::RA, AluOp::ADC),
        step_is(cu_step(Decoded::CfNea(c), f, State::Exec(ExecStage::ExecStart)), State::Hlt, 0, Reg::RA, AluOp::ADC),
        step_is(cu_step(Decoded::Invalid, f, State::Exec(ExecStage::ExecStart)), State::Hlt, 0, Reg::RA, AluOp::ADC),
{
}

/// `in`/`out`: the port number from `IR` goes to the port-address latch;
/// `in` then reads the port into `ra`, `out` writes `ra` to the port.
/// `pushf`: `SP -> t1`; `t1 - 1 -> SP, MA`; the flags go to memory.
/// `popf`/`iret`/`ret`: `SP -> t1, MA`; `popf`/`iret` write `SP + 1` back
/// and load the flags from memory (`iret` then continues as `ret`); `ret`
/// writes `SP + 1` back and loads `PC` from memory. A stage that does not
/// belong to the instruction halts.
pub proof fn lemma_nea_sequences(c: CfNea, d: Decoded, f: AluFlags)
    ensures
        step_is(cu_step(Decoded::CfNea(c), f, State::Nea(NeaStage::IoaL)), State::Nea(NeaStage::IoW), L_IR_OE + L_IOA_WE, Reg::RA, AluOp::ADC),
        c == CfNea::In ==> step_is(cu_step(Decoded::CfNea(c), f, State::Nea(NeaStage::IoW)), State::Nea(NeaStage::IoR), L_IOA_OE as int, Reg::RA, AluOp::ADC),
        c == CfNea::Out ==> step_is(cu_step(Decoded::CfNea(c), f, State::Nea(NeaStage::IoW)), State::IncPC, L_RF_OE + L_IOA_OE + L_IO_WE, Reg::RA, AluOp::ADC),
        c != CfNea::In && c != CfNea::Out ==> step_is(cu_step(Decoded::CfNea(c), f, State::Nea(NeaStage::IoW)), State::Hlt, L_IOA_OE as int, Reg::RA, AluOp::ADC),
        step_is(cu_step(Decoded::CfNea(c), f, State::Nea(NeaStage::IoR)), State::IncPC, L_RF_WE + L_IO_OE, Reg::RA, AluOp::ADC),
        step_is(cu_step(Decoded::CfNea(c), f, State::Nea(NeaStage::PushfSP)), State::Nea(NeaStage::PushfDec), L_RF_OE + L_T1_WE, Reg::SP, AluOp::ADC),
        step_is(cu_step(Decoded::CfNea(c), f, State::Nea(NeaStage::PushfDec)), State::Nea(NeaStage::PushfW), L_RF_WE + L_T1_OE + L_MA_WE + L_ALU_CARRY + L_ALU_OE, Reg::SP, AluOp::SBB1),
        step_is(cu_step(Decoded::CfNea(c), f, State::Nea(NeaStage::PushfW)), State::IncPC, L_MA_OE + L_RAM_WE + L_FR_OE, Reg::RA, AluOp::ADC),
        c == CfNea::Popf ==> step_is(cu_step(Decoded::CfNea(c), f, State::Nea(NeaStage::PopSP)), State::Nea(NeaStage::PopfMA), L_RF_OE + L_T1_WE + L_MA_WE, Reg::SP, AluOp::ADC),
        c == CfNea::Iret ==> step_is(cu_step(Decoded::CfNea(c), f, State::Nea(NeaStage::PopSP)), State::Nea(NeaStage::PopfMA), L_RF_OE + L_T1_WE + L_MA_WE, Reg::SP, AluOp::ADC),
        c == CfNea::Ret ==> step_is(cu_step(Decoded::CfNea(c), f, State::Nea(NeaStage::PopSP)), State::Nea(NeaStage::RetMA), L_RF_OE + L_T1_WE + L_MA_WE, Reg::SP, AluOp::ADC),
        c != CfNea::Popf && c != CfNea::Iret && c != CfNea::Ret ==> step_is(cu_step(Decoded::CfNea(c), f, State::Nea(NeaStage::PopSP)), State::Hlt, L_RF_OE + L_T1_WE + L_MA_WE, Reg::SP, AluOp::ADC),
        step_is(cu_step(Decoded::CfNea(c), f, State::Nea(NeaStage::PopfMA)), State::Nea(NeaStage::PopfL), L_RF_WE + L_T1_OE + L_T1_WE + L_MA_OE + L_MA_WE + L_ALU_CARRY + L_ALU_OE, Reg::SP, AluOp::ADC),
        c == CfNea::Popf ==> step_is(cu_step(Decoded::CfNea(c), f, State::Nea(NeaStage::PopfL)), State::IncPC, L_RAM_OE + L_FR_WE + L_FR_SEL_BUS, Reg::RA, AluOp::ADC),
        c == CfNea::Iret ==> step_is(cu_step(Decoded::CfNea(c), f, State::Nea(NeaStage::PopfL)), State::Nea(NeaStage::RetMA), L_RAM_OE + L_FR_WE + L_FR_SEL_BUS, Reg::RA, AluOp::ADC),
        c != CfNea::Popf && c != CfNea::Iret ==> step_is(cu_step(Decoded::CfNea(c), f, State::Nea(NeaStage::PopfL)), State::Hlt, L_RAM_OE + L_FR_WE + L_FR_SEL_BUS, Reg::RA, AluOp::ADC),
        step_is(cu_step(Decoded::CfNea(c), f, State::Nea(NeaStage::RetMA)), State::Nea(NeaStage::RetL), L_RF_WE + L_T1_OE + L_MA_OE + L_ALU_CARRY + L_ALU_OE, Reg::SP, AluOp::ADC),
        step_is(cu_step(Decoded::CfNea(c), f, State::Nea(NeaStage::RetL)), State::IncPC, L_RAM_OE + L_PC_WE, Reg::RA, AluOp::ADC),
        !(d is CfNea) ==> cu_step(d, f, State::Nea(NeaStage::IoaL)).0 == State::Hlt,
{
}

} // verus!

use vstd::prelude::*;
use crate::alu::{AluFlags, AluOp};
use crate::clocking::ClockReset;
use crate::decode_unit::{
    AddrRegister, BaseRegister, CfNea, Decoded, DstOperand, IndexRegister, Jcond, OneOp, Operand,
    TwoOp,
};
use crate::register_file::Reg;

verus! {

/// The control lines that the control unit drives in one cycle.
///
/// `*_oe` lets a unit drive its output (onto the bus, or for `t1`/`t2`
/// into the ALU, for `ma` onto the memory address); `*_we` latches the bus
/// into the unit at the clock edge. The `*_done` lines mark the last cycle
/// of each phase of an instruction.
#[derive(Debug, Clone, Copy, PartialEq, Eq, Structural)]
pub struct ControlSignals {
    pub rf_sel: Reg,
    pub rf_oe: bool,
    pub rf_we: bool,
    pub t1_oe: bool,
    pub t1_we: bool,
    pub t2_oe: bool,
    pub t2_we: bool,
    pub ma_oe: bool,
    pub ma_we: bool,
    pub ram_oe: bool,
    pub ram_we: bool,
    pub alu_carry: bool,
    pub alu_oe: bool,
    pub alu_sel: AluOp,
    pub pc_we: bool,
    pub pc_oe: bool,
    pub ir_we: bool,
    pub ir_oe: bool,
    pub fr_we: bool,
    pub fr_oe: bool,
    pub fr_sel_bus: bool,
    pub ioa_oe: bool,
    pub ioa_we: bool,
    pub io_oe: bool,
    pub io_we: bool,
    pub fetch_done: bool,
    // decode_done is not needed, just check cu_state == Decode
    pub load_done: bool,
    pub exec_done: bool,
    pub store_done: bool,
    pub instr_done: bool,
}

/// Instruction fetch: `PC -> MA`, address the memory, `memory -> IR`.
#[derive(Debug, Clone, Copy, PartialEq, Eq, Structural, Default)]
pub enum FetchStage {
    #[default]
    PcToMA,
    MaToMem,
    MemToIr,
    FetchDone,
}

/// Computing an effective address.
#[derive(Debug, Clone, Copy, PartialEq, Eq, Structural, Default)]
pub enum LoadEaStage {
    // Load EA will always start in this state
    #[default]
    Lea,
    // Load program counter into T1
    Lpc,
    // Increment program counter (assumes in T1)
    Ipc,
    DdispA,
    DdispL,
    // Displacement address in MA
    DispA,
    // Load displacement
    DispL,
    // Load index register
    Ldi,
    Pipd,
    // Load base register
    Ldb,
    // First sum
    Sum1,
    // Final sum
    Sum2,
    // Sentinel state, will get replaced with the next stage after EA load
    EaDone,
}

/// Reading the immediate word that follows an instruction.
#[derive(Debug, Clone, Copy, PartialEq, Eq, Structural, Default)]
pub enum LoadImmStage {
    #[default]
    ImmLpc,
    ImmIpc,
    ImmA,
    ImmL,
    ImmDone,
}

/// Loading the operands into the temporary registers `t1` and `t2`.
#[derive(Debug, Clone, Copy, PartialEq, Eq, Structural, Default)]
pub enum LoadTempsStage {
    #[default]
    LoadTs,
    LoadT2Reg,
    LoadT1Reg,
    EAToMA,
    TempsMA,
    TempsML,
    LoadDone,
}

/// Executing an instruction.
#[derive(Debug, Clone, Copy, PartialEq, Eq, Structural, Default)]
pub enum ExecStage {
    #[default]
    ExecStart,
    ExecDone,
    ExecPop,
    ExecPop2,
    ExecPop3,
    ExecPush,
    ExecPush2,
    ExecCall,
    ExecJcond,
    ExecJcond2,
}

/// Executing a control-flow instruction that has no effective address.
#[derive(Debug, Clone, Copy, PartialEq, Eq, Structural, Default)]
pub enum NeaStage {
    #[default]
    IoaL,
    IoW,
    IoR,
    PopSP,
    PopfMA,
    PopfL,
    RetMA,
    RetL,
    PushfSP,
    PushfDec,
    PushfW,
}

/// The state of the control unit.
#[derive(Debug, Clone, Copy, PartialEq, Eq, Structural, Default)]
pub enum State {
    #[default]
    Reset,
    Fetch(FetchStage),
    Decode,
    // Effective addres starting point
    LoadEa(LoadEaStage),
    // Immediate operand starting point
    LoadImm(LoadImmStage),
    // Only register starting point
    LoadTemps(LoadTempsStage),
    Exec(ExecStage),
    Nea(NeaStage),
    Store,
    IncPC,
    IncPC1,
    Hlt,
}

/// The control unit: the flip-flop that holds its [`State`].
#[derive(Debug, Clone, Copy)]
pub struct ControlUnit {
    state: State,
}

impl View for ControlUnit {
    type V = State;

    closed spec fn view(&self) -> State {
        self.state
    }
}

impl Default for ControlUnit {
    /// A control unit in the `Reset` state.
    fn default() -> (r: Self)
        ensures
            r@ == State::Reset,
    {
        Self { state: State::Reset }
    }
}

impl ControlUnit {
    /// A control unit that starts in the given state.
    pub fn new(init: State) -> (r: Self)
        ensures
            r@ == init,
    {
        Self { state: init }
    }
}

// ---------------------------------------------------------------------------
// The microprogram, stated stage by stage
// ---------------------------------------------------------------------------

/// No line driven: every enable off, register `RA` and the ALU's `ADC` selected.
pub open spec fn idle() -> ControlSignals {
    ControlSignals {
        rf_sel: Reg::RA,
        rf_oe: false,
        rf_we: false,
        t1_oe: false,
        t1_we: false,
        t2_oe: false,
        t2_we: false,
        ma_oe: false,
        ma_we: false,
        ram_oe: false,
        ram_we: false,
        alu_carry: false,
        alu_oe: false,
        alu_sel: AluOp::ADC,
        pc_we: false,
        pc_oe: false,
        ir_we: false,
        ir_oe: false,
        fr_we: false,
        fr_oe: false,
        fr_sel_bus: false,
        ioa_we: false,
        ioa_oe: false,
        io_we: false,
        io_oe: false,
        fetch_done: false,
        instr_done: false,
        exec_done: false,
        load_done: false,
        store_done: false,
    }
}

/// Fetch: `PC` to `MA`; `MA` addresses the memory; the memory word goes to
/// `IR`, which ends the fetch and moves on to `Decode`.
pub open spec fn fetch_step(s: FetchStage, cs: ControlSignals) -> (State, ControlSignals) {
    match s {
        FetchStage::PcToMA => (
            State::Fetch(FetchStage::MaToMem),
            ControlSignals { pc_oe: true, ma_we: true, ..cs },
        ),
        FetchStage::MaToMem => (State::Fetch(FetchStage::MemToIr), ControlSignals { ma_oe: true, ..cs }),
        FetchStage::MemToIr => (
            State::Decode,
            ControlSignals { ram_oe: true, ir_we: true, fetch_done: true, ..cs },
        ),
        FetchStage::FetchDone => (State::Decode, ControlSignals { fetch_done: true, ..cs }),
    }
}

fn stage_fetch(s: FetchStage, cs: ControlSignals) -> (r: (State, ControlSignals))
    ensures
        r == fetch_step(s, cs),
{
    match s {
        FetchStage::PcToMA => (
            State::Fetch(FetchStage::MaToMem),
            ControlSignals { pc_oe: true, ma_we: true, ..cs },
        ),
        FetchStage::MaToMem => (State::Fetch(FetchStage::MemToIr), ControlSignals { ma_oe: true, ..cs }),
        FetchStage::MemToIr => (
            State::Decode,
            ControlSignals { ram_oe: true, ir_we: true, fetch_done: true, ..cs },
        ),
        FetchStage::FetchDone => (State::Decode, ControlSignals { fetch_done: true, ..cs }),
    }
}

/// The instruction is followed by an immediate word: a two-operand
/// instruction with an immediate source, or `MovI`.
pub open spec fn has_immediate(i: Decoded) -> bool {
    ||| i matches Decoded::TwoOp { src: Operand::Imm, .. }
    ||| i matches Decoded::OneOp { op: OneOp::MovI, .. }
}

fn has_imm(i: Decoded) -> (r: bool)
    ensures
        r == has_immediate(i),
{
    if let Decoded::TwoOp { src: Operand::Imm, .. } = i {
        true
    } else if let Decoded::OneOp { op: OneOp::MovI, .. } = i {
        true
    } else {
        false
    }
}

/// The memory operand of an instruction whose address must be computed, and
/// whether it is the destination (`true`) or the source (`false`). `None`
/// when every operand is a register or an immediate.
///
/// A two-operand instruction has at most one memory operand: when its source
/// is in memory that is the one, otherwise its destination is.
pub open spec fn memory_operand(i: Decoded) -> Option<(DstOperand, bool)> {
    match i {
        Decoded::TwoOp { src, dst, .. } => {
            match src {
                Operand::MaybeDst(DstOperand::Reg(_)) | Operand::Imm => match dst {
                    DstOperand::Reg(_) => None,
                    _ => Some((dst, true)),
                },
                Operand::MaybeDst(m) => Some((m, false)),
            }
        },
        Decoded::OneOp { dst, .. } => match dst {
            DstOperand::Reg(_) => None,
            _ => Some((dst, true)),
        },
        _ => None,
    }
}

fn extract_ea(i: Decoded) -> (r: Option<(DstOperand, bool)>)
    ensures
        r == memory_operand(i),
{
    match i {
        Decoded::TwoOp { src: Operand::Imm, dst, .. } => {
            if let DstOperand::Reg(_r1) = dst {
                None
            } else {
                Some((dst, true))
            }
        },
        Decoded::TwoOp { src, dst, .. } => {
            // Imm covered by arm above
            if let Operand::MaybeDst(src) = src {
                if let DstOperand::Reg(_r) = src {
                    if let DstOperand::Reg(_r1) = dst {
                        None
                    } else {
                        Some((dst, true))
                    }
                } else {
                    Some((src, false))
                }
            } else {
                None
            }
        },
        Decoded::OneOp { dst, .. } => {
            if let DstOperand::Reg(_r1) = dst {
                None
            } else {
                Some((dst, true))
            }
        },
        _ => None,
    }
}

/// The base register an addressing mode adds, if any.
pub open spec fn base_of(i: DstOperand) -> Option<BaseRegister> {
    match i {
        DstOperand::BasedAddr(b) => Some(b),
        DstOperand::BasedIndexedAddr(b, _) => Some(b),
        DstOperand::RegSum(b, _) => Some(b),
        DstOperand::RegisterAddress(AddrRegister::Base(b)) => Some(b),
        DstOperand::RegSumIncr(b, _) => Some(b),
        DstOperand::RegSumDecr(b) => Some(b),
        _ => None,
    }
}

fn extract_base(i: DstOperand) -> (r: Option<BaseRegister>)
    ensures
        r == base_of(i),
{
    match i {
        DstOperand::BasedAddr(b) => Some(b),
        DstOperand::BasedIndexedAddr(b, _i) => Some(b),
        DstOperand::RegSum(b, _i) => Some(b),
        DstOperand::RegisterAddress(x) => match x {
            AddrRegister::Base(b) => Some(b),
            AddrRegister::Index(_x) => None,
        },
        DstOperand::RegSumIncr(b, _i) => Some(b),
        DstOperand::RegSumDecr(b) => Some(b),
        _ => None,
    }
}

/// The index register an addressing mode uses, if any (`[b+-xa]` uses `xa`).
pub open spec fn index_of(i: DstOperand) -> Option<IndexRegister> {
    match i {
        DstOperand::IndexedAddr(x) => Some(x),
        DstOperand::BasedIndexedAddr(_, x) => Some(x),
        DstOperand::RegSum(_, x) => Some(x),
        DstOperand::RegisterAddress(AddrRegister::Index(x)) => Some(x),
        DstOperand::RegSumIncr(_, x) => Some(x),
        DstOperand::RegSumDecr(_) => Some(IndexRegister::XA),
        _ => None,
    }
}

fn extract_index(i: DstOperand) -> (r: Option<IndexRegister>)
    ensures
        r == index_of(i),
{
    match i {
        DstOperand::IndexedAddr(i) => Some(i),
        DstOperand::BasedIndexedAddr(_b, i) => Some(i),
        DstOperand::RegSum(_b, i) => Some(i),
        DstOperand::RegisterAddress(x) => match x {
            AddrRegister::Base(_x) => None,
            AddrRegister::Index(i) => Some(i),
        },
        DstOperand::RegSumIncr(_b, i) => Some(i),
        DstOperand::RegSumDecr(_b) => Some(IndexRegister::XA),
        _ => None,
    }
}

/// The destination operand of an instruction that has one.
pub open spec fn destination(i: Decoded) -> Option<DstOperand> {
    match i {
        Decoded::TwoOp { dst, .. } => Some(dst),
        Decoded::OneOp { dst, .. } => Some(dst),
        _ => None,
    }
}

fn extract_dst(i: Decoded) -> (r: Option<DstOperand>)
    ensures
        r == destination(i),
{
    match i {
        Decoded::TwoOp { dst, .. } => Some(dst),
        Decoded::OneOp { dst, .. } => Some(dst),
        _ => None,
    }
}

/// The general register that an index register is.
pub open spec fn index_reg(i: IndexRegister) -> Reg {
    match i {
        IndexRegister::XA => Reg::XA,
        IndexRegister::XB => Reg::XB,
    }
}

/// The general register that a base register is.
pub open spec fn base_reg(b: BaseRegister) -> Reg {
    match b {
        BaseRegister::BA => Reg::BA,
        BaseRegister::BB => Reg::BB,
    }
}

fn itr(i: IndexRegister) -> (r: Reg)
    ensures
        r == index_reg(i),
{
    match i {
        IndexRegister::XA => Reg::XA,
        IndexRegister::XB => Reg::XB,
    }
}

fn btr(b: BaseRegister) -> (r: Reg)
    ensures
        r == base_reg(b),
{
    match b {
        BaseRegister::BA => Reg::BA,
        BaseRegister::BB => Reg::BB,
    }
}

// --- effective address ------------------------------------------------------

/// The first stage of computing the address of an operand: modes with a
/// displacement read it first, `[reg]` and the register sums load a register.
pub open spec fn ea_entry(i: DstOperand) -> LoadEaStage {
    match i {
        DstOperand::DirectAddress => LoadEaStage::Lpc,
        DstOperand::IndirectAddress => LoadEaStage::Lpc,
        DstOperand::RegisterAddress(AddrRegister::Base(_)) => LoadEaStage::Ldb,
        DstOperand::RegisterAddress(AddrRegister::Index(_)) => LoadEaStage::Ldi,
        DstOperand::RegSum(_, _) => LoadEaStage::Ldb,
        DstOperand::RegSumIncr(_, _) => LoadEaStage::Ldb,
        DstOperand::RegSumDecr(_) => LoadEaStage::Ldb,
        DstOperand::BasedAddr(_) => LoadEaStage::Lpc,
        DstOperand::IndexedAddr(_) => LoadEaStage::Lpc,
        DstOperand::BasedIndexedAddr(_, _) => LoadEaStage::Lpc,
        DstOperand::Reg(_) => LoadEaStage::EaDone,
    }
}

/// The stage after the displacement has been read.
pub open spec fn after_disp(i: DstOperand) -> LoadEaStage {
    match i {
        DstOperand::IndirectAddress => LoadEaStage::DdispA,
        DstOperand::BasedAddr(_) => LoadEaStage::Ldb,
        DstOperand::IndexedAddr(_) => LoadEaStage::Ldi,
        DstOperand::BasedIndexedAddr(_, _) => LoadEaStage::Ldb,
        _ => LoadEaStage::EaDone,
    }
}

/// Whether the displacement goes to `t1` (else `t2`): always for the modes
/// that still add to it; for `[disp]` the address goes where the operand's
/// address belongs (`t1` for a destination, `t2` for a source).
pub open spec fn disp_to_t1(i: DstOperand, is_dst: bool) -> bool {
    match i {
        DstOperand::IndirectAddress => true,
        DstOperand::BasedAddr(_) => true,
        DstOperand::IndexedAddr(_) => true,
        DstOperand::BasedIndexedAddr(_, _) => true,
        _ => is_dst,
    }
}

/// The stage after the base register has been loaded.
pub open spec fn after_base(i: DstOperand) -> LoadEaStage {
    match i {
        DstOperand::RegSum(_, _) => LoadEaStage::Ldi,
        DstOperand::RegSumIncr(_, _) => LoadEaStage::Ldi,
        DstOperand::RegSumDecr(_) => LoadEaStage::Ldi,
        DstOperand::BasedAddr(_) => LoadEaStage::Sum2,
        DstOperand::BasedIndexedAddr(_, _) => LoadEaStage::Sum1,
        _ => LoadEaStage::EaDone,
    }
}

/// Whether the base register goes to `t1` (else `t2`).
pub open spec fn base_to_t1(i: DstOperand, is_dst: bool) -> bool {
    match i {
        DstOperand::RegSum(_, _) => true,
        DstOperand::RegSumIncr(_, _) => true,
        DstOperand::RegSumDecr(_) => true,
        DstOperand::BasedAddr(_) => false,
        DstOperand::BasedIndexedAddr(_, _) => false,
        _ => is_dst,
    }
}

/// The stage after the index register has been loaded.
pub open spec fn after_index(i: DstOperand) -> LoadEaStage {
    match i {
        DstOperand::RegSum(_, _) => LoadEaStage::Sum2,
        DstOperand::RegSumIncr(_, _) => LoadEaStage::Pipd,
        DstOperand::RegSumDecr(_) => LoadEaStage::Pipd,
        DstOperand::IndexedAddr(_) => LoadEaStage::Sum2,
        DstOperand::BasedIndexedAddr(_, _) => LoadEaStage::Sum2,
        _ => LoadEaStage::EaDone,
    }
}

/// Whether the index register goes to `t1` (else `t2`).
pub open spec fn index_to_t1(i: DstOperand, is_dst: bool) -> bool {
    match i {
        DstOperand::RegSum(_, _) => false,
        DstOperand::RegSumIncr(_, _) => false,
        DstOperand::RegSumDecr(_) => false,
        DstOperand::IndexedAddr(_) => false,
        DstOperand::BasedIndexedAddr(_, _) => false,
        _ => is_dst,
    }
}

/// One cycle of computing the effective address of operand `i`, from stage
/// `s` (`Lea` stands for the entry stage of `i`). Returns the next stage, or
/// `None` when `i` is no memory operand or the stage does not apply to it.
///
/// * `Lpc`: `PC -> t1`.  `Ipc`: `PC + 1 -> PC, MA` (`MA` addresses the displacement).
/// * `DispA`, `DispL`: read the displacement into `t1` or `t2` (and `MA`).
/// * `DdispA`, `DdispL`: read the word the displacement points to (`[[disp]]`).
/// * `Ldb`, `Ldi`: load the base / index register into `t1` or `t2`.
/// * `Sum1`: `t1 + t2 -> t1`.  `Sum2`: `t1 + t2 -> t1` (destination) or `t2` (source).
/// * `Pipd`: post-increment or pre-decrement the index register.
pub open spec fn load_ea_step(s: LoadEaStage, i: DstOperand, cs: ControlSignals, is_dst: bool) -> (
    Option<LoadEaStage>,
    ControlSignals,
) {
    let stage = if s == LoadEaStage::Lea {
        ea_entry(i)
    } else {
        s
    };
    match stage {
        LoadEaStage::Lpc => (Some(LoadEaStage::Ipc), ControlSignals { t1_we: true, pc_oe: true, ..cs }),
        LoadEaStage::Ipc => (
            Some(LoadEaStage::DispA),
            ControlSignals {
                t1_oe: true,
                pc_we: true,
                ma_we: true,
                alu_carry: true,
                alu_oe: true,
                alu_sel: AluOp::ADC,
                ..cs
            },
        ),
        LoadEaStage::DispA => (Some(LoadEaStage::DispL), ControlSignals { ma_oe: true, ..cs }),
        LoadEaStage::DispL => (
            Some(after_disp(i)),
            ControlSignals {
                t1_we: disp_to_t1(i, is_dst),
                t2_we: !disp_to_t1(i, is_dst),
                ram_oe: true,
                ma_we: true,
                ..cs
            },
        ),
        LoadEaStage::DdispA => (Some(LoadEaStage::DdispL), ControlSignals { ma_oe: true, ..cs }),
        LoadEaStage::DdispL => (
            Some(LoadEaStage::EaDone),
            ControlSignals { t1_we: is_dst, t2_we: !is_dst, ram_oe: true, ..cs },
        ),
        LoadEaStage::Ldi => match index_of(i) {
            Some(x) => (
                Some(after_index(i)),
                ControlSignals {
                    t1_we: index_to_t1(i, is_dst),
                    t2_we: !index_to_t1(i, is_dst),
                    rf_oe: true,
                    rf_sel: index_reg(x),
                    ..cs
                },
            ),
            None => (
                None,
                ControlSignals { t1_we: index_to_t1(i, is_dst), t2_we: !index_to_t1(i, is_dst), rf_oe: true, ..cs },
            ),
        },
        LoadEaStage::Ldb => match base_of(i) {
            Some(b) => (
                Some(after_base(i)),
                ControlSignals {
                    t1_we: base_to_t1(i, is_dst),
                    t2_we: !base_to_t1(i, is_dst),
                    rf_oe: true,
                    rf_sel: base_reg(b),
                    ..cs
                },
            ),
            None => (
                None,
                ControlSignals { t1_we: base_to_t1(i, is_dst), t2_we: !base_to_t1(i, is_dst), rf_oe: true, ..cs },
            ),
        },
        LoadEaStage::Sum1 => (
            Some(LoadEaStage::Ldi),
            ControlSignals {
                t1_oe: true,
                t2_oe: true,
                t1_we: true,
                alu_oe: true,
                alu_sel: AluOp::ADC,
                ..cs
            },
        ),
        LoadEaStage::Sum2 => (
            Some(LoadEaStage::EaDone),
            ControlSignals {
                t1_oe: true,
                t2_oe: true,
                t1_we: is_dst,
                t2_we: !is_dst,
                alu_oe: true,
                alu_sel: AluOp::ADC,
                ..cs
            },
        ),
        LoadEaStage::Pipd => {
            let predec = i is RegSumDecr;
            let sel = if predec {
                AluOp::SBB2
            } else {
                AluOp::ADC
            };
            match index_of(i) {
                Some(x) => (
                    Some(LoadEaStage::Sum2),
                    ControlSignals {
                        t2_we: predec,
                        t2_oe: true,
                        rf_we: true,
                        alu_oe: true,
                        alu_sel: sel,
                        alu_carry: true,
                        rf_sel: index_reg(x),
                        ..cs
                    },
                ),
                None => (
                    None,
                    ControlSignals {
                        t2_we: predec,
                        t2_oe: true,
                        rf_we: true,
                        alu_oe: true,
                        alu_sel: sel,
                        alu_carry: true,
                        ..cs
                    },
                ),
            }
        },
        LoadEaStage::EaDone => (None, cs),
        LoadEaStage::Lea => (None, cs),
    }
}

fn stage_load_ea(s: LoadEaStage, i: DstOperand, cs: ControlSignals, is_dst: bool) -> (r: (
    Option<LoadEaStage>,
    ControlSignals,
))
    ensures
        r == load_ea_step(s, i, cs, is_dst),
{
    let state: LoadEaStage = match s {
        LoadEaStage::Lea => {
            match i {
                DstOperand::DirectAddress => LoadEaStage::Lpc,
                DstOperand::IndirectAddress => LoadEaStage::Lpc,
                DstOperand::RegisterAddress(x) => match x {
                    AddrRegister::Base(_x) => LoadEaStage::Ldb,
                    AddrRegister::Index(_x) => LoadEaStage::Ldi,
                },
                DstOperand::RegSum(_b, _i) => LoadEaStage::Ldb,
                DstOperand::RegSumIncr(_b, _i) => LoadEaStage::Ldb,
                DstOperand::RegSumDecr(_b) => LoadEaStage::Ldb,
                DstOperand::BasedAddr(_b) => LoadEaStage::Lpc,
                DstOperand::IndexedAddr(_i) => LoadEaStage::Lpc,
                DstOperand::BasedIndexedAddr(_b, _i) => LoadEaStage::Lpc,
                // a register has no address: no stage applies, the step is invalid
                _ => LoadEaStage::EaDone,
            }
        },
        _ => s,
    };
    let mut displ_t1 = true;
    let after_displ: LoadEaStage = match i {
        // Needs MA = disp
        DstOperand::IndirectAddress => LoadEaStage::DdispA,
        DstOperand::BasedAddr(_b) => LoadEaStage::Ldb,
        DstOperand::IndexedAddr(_i) => LoadEaStage::Ldi,
        DstOperand::BasedIndexedAddr(_b, _i) => LoadEaStage::Ldb,
        _ => {
            displ_t1 = is_dst;
            LoadEaStage::EaDone
        },
    };
    let mut ldb_t1 = true;
    let after_ldb = match i {
        DstOperand::RegSum(_b, _x) => LoadEaStage::Ldi,
        DstOperand::RegSumIncr(_b, _x) => LoadEaStage::Ldi,
        DstOperand::RegSumDecr(_b) => LoadEaStage::Ldi,
        DstOperand::BasedAddr(_b) => {
            ldb_t1 = false;
            LoadEaStage::Sum2
        },
        DstOperand::BasedIndexedAddr(_b, _i) => {
            ldb_t1 = false;
            LoadEaStage::Sum1
        },
        _ => {
            ldb_t1 = is_dst;
            LoadEaStage::EaDone
        },
    };
    let mut is_predec = false;
    let mut ldi_t1 = false;
    let after_ldi: LoadEaStage = match i {
        DstOperand::RegSum(_b, _x) => LoadEaStage::Sum2,
        DstOperand::RegSumIncr(_b, _x) => LoadEaStage::Pipd,
        DstOperand::RegSumDecr(_b) => {
            is_predec = true;
            LoadEaStage::Pipd
        },
        DstOperand::IndexedAddr(_i) => LoadEaStage::Sum2,
        DstOperand::BasedIndexedAddr(_b, _i) => LoadEaStage::Sum2,
        _ => {
            ldi_t1 = is_dst;
            LoadEaStage::EaDone
        },
    };
    match state {
        LoadEaStage::Lpc => (Some(LoadEaStage::Ipc), ControlSignals { t1_we: true, pc_oe: true, ..cs }),
        LoadEaStage::Ipc => (
            Some(LoadEaStage::DispA),
            ControlSignals {
                t1_oe: true,
                pc_we: true,
                ma_we: true,
                alu_carry: true,
                alu_oe: true,
                alu_sel: AluOp::ADC,
                ..cs
            },
        ),
        LoadEaStage::DispA => (Some(LoadEaStage::DispL), ControlSignals { ma_oe: true, ..cs }),
        LoadEaStage::DispL => (
            Some(after_displ),
            // Loading MA is not mandatory for all cases, but needed for indirect addressing
            ControlSignals { t1_we: displ_t1, t2_we: !displ_t1, ram_oe: true, ma_we: true, ..cs },
        ),
        LoadEaStage::DdispA => (Some(LoadEaStage::DdispL), ControlSignals { ma_oe: true, ..cs }),
        LoadEaStage::DdispL => (
            Some(LoadEaStage::EaDone),
            ControlSignals { t1_we: is_dst, t2_we: !is_dst, ram_oe: true, ..cs },
        ),
        LoadEaStage::Ldi => {
            if let Some(x) = extract_index(i) {
                (Some(after_ldi), ControlSignals { t1_we: ldi_t1, t2_we: !ldi_t1, rf_oe: true, rf_sel: itr(x), ..cs })
            } else {
                (None, ControlSignals { t1_we: ldi_t1, t2_we: !ldi_t1, rf_oe: true, ..cs })
            }
        },
        LoadEaStage::Ldb => {
            if let Some(x) = extract_base(i) {
                (Some(after_ldb), ControlSignals { t1_we: ldb_t1, t2_we: !ldb_t1, rf_oe: true, rf_sel: btr(x), ..cs })
            } else {
                (None, ControlSignals { t1_we: ldb_t1, t2_we: !ldb_t1, rf_oe: true, ..cs })
            }
        },
        LoadEaStage::Sum1 => (
            Some(LoadEaStage::Ldi),
            ControlSignals {
                t1_oe: true,
                t2_oe: true,
                t1_we: true,
                alu_oe: true,
                alu_sel: AluOp::ADC,
                ..cs
            },
        ),
        LoadEaStage::Sum2 => (
            Some(LoadEaStage::EaDone),
            ControlSignals {
                t1_oe: true,
                t2_oe: true,
                t1_we: is_dst,
                t2_we: !is_dst,
                alu_oe: true,
                alu_sel: AluOp::ADC,
                ..cs
            },
        ),
        LoadEaStage::Pipd => {
            let sel = if is_predec {
                AluOp::SBB2
            } else {
                AluOp::ADC
            };
            if let Some(x) = extract_index(i) {
                (
                    Some(LoadEaStage::Sum2),
                    ControlSignals {
                        t2_we: is_predec,
                        t2_oe: true,
                        rf_we: true,
                        alu_oe: true,
                        alu_sel: sel,
                        alu_carry: true,
                        rf_sel: itr(x),
                        ..cs
                    },
                )
            } else {
                (
                    None,
                    ControlSignals {
                        t2_we: is_predec,
                        t2_oe: true,
                        rf_we: true,
                        alu_oe: true,
                        alu_sel: sel,
                        alu_carry: true,
                        ..cs
                    },
                )
            }
        },
        // Neither the sentinel nor the entry stage (already replaced) names work to do
        LoadEaStage::EaDone => (None, cs),
        LoadEaStage::Lea => (None, cs),
    }
}


// --- immediate operand ------------------------------------------------------

/// Reading the immediate word: `PC -> t2`; `PC + 1 -> PC, MA`; address the
/// memory; the word goes to `t2`, then the operands are loaded.
pub open spec fn load_imm_step(s: LoadImmStage, cs: ControlSignals) -> (State, ControlSignals) {
    match s {
        LoadImmStage::ImmLpc => (
            State::LoadImm(LoadImmStage::ImmIpc),
            ControlSignals { pc_oe: true, t2_we: true, ..cs },
        ),
        LoadImmStage::ImmIpc => (
            State::LoadImm(LoadImmStage::ImmA),
            ControlSignals {
                ma_we: true,
                t2_oe: true,
                alu_carry: true,
                alu_sel: AluOp::ADC,
                alu_oe: true,
                pc_we: true,
                ..cs
            },
        ),
        LoadImmStage::ImmA => (State::LoadImm(LoadImmStage::ImmL), ControlSignals { ma_oe: true, ..cs }),
        LoadImmStage::ImmL => (
            State::LoadTemps(LoadTempsStage::LoadTs),
            ControlSignals { ram_oe: true, t2_we: true, ..cs },
        ),
        LoadImmStage::ImmDone => (State::LoadTemps(LoadTempsStage::LoadTs), cs),
    }
}

fn stage_load_imm(s: LoadImmStage, cs: ControlSignals) -> (r: (State, ControlSignals))
    ensures
        r == load_imm_step(s, cs),
{
    match s {
        LoadImmStage::ImmLpc => (
            State::LoadImm(LoadImmStage::ImmIpc),
            ControlSignals { pc_oe: true, t2_we: true, ..cs },
        ),
        LoadImmStage::ImmIpc => (
            State::LoadImm(LoadImmStage::ImmA),
            ControlSignals {
                ma_we: true,
                t2_oe: true,
                alu_carry: true,
                alu_sel: AluOp::ADC,
                alu_oe: true,
                pc_we: true,
                ..cs
            },
        ),
        LoadImmStage::ImmA => (State::LoadImm(LoadImmStage::ImmL), ControlSignals { ma_oe: true, ..cs }),
        // the immediate has been read: go on to the operands
        LoadImmStage::ImmL => (
            State::LoadTemps(LoadTempsStage::LoadTs),
            ControlSignals { ram_oe: true, t2_we: true, ..cs },
        ),
        LoadImmStage::ImmDone => (State::LoadTemps(LoadTempsStage::LoadTs), cs),
    }
}

// --- operands into t1 / t2 -------------------------------------------------

/// Instructions that only write their destination, so its old value need
/// not be read: `Mov`, `MovI`, `Pop`.
pub open spec fn writes_only(i: Decoded) -> bool {
    ||| i matches Decoded::TwoOp { op: TwoOp::Mov, .. }
    ||| i matches Decoded::OneOp { op: OneOp::MovI, .. }
    ||| i matches Decoded::OneOp { op: OneOp::Pop, .. }
}

/// Whether the memory operand is the destination (`true` when there is none).
pub open spec fn mem_is_dst(i: Decoded) -> bool {
    match memory_operand(i) {
        Some((_, d)) => d,
        None => true,
    }
}

/// Putting the computed address into `MA`: the address sits in `t1` for a
/// destination and in `t2` for a source and goes through the ALU (`OR`).
/// Then the operand is read from memory, except for an instruction that only
/// writes its memory destination. Without a memory operand, loading is over.
pub open spec fn ea_to_ma_work(i: Decoded, cs: ControlSignals) -> (State, ControlSignals) {
    if memory_operand(i) is None {
        (State::Exec(ExecStage::ExecStart), ControlSignals { load_done: true, ..cs })
    } else {
        let is_dst = mem_is_dst(i);
        let done = match i {
            Decoded::TwoOp { op: TwoOp::Mov, .. } => is_dst,
            Decoded::OneOp { op: OneOp::MovI, .. } => true,
            Decoded::OneOp { op: OneOp::Pop, .. } => true,
            _ => false,
        };
        if done {
            (
                State::Exec(ExecStage::ExecStart),
                ControlSignals {
                    t1_oe: is_dst,
                    t2_oe: !is_dst,
                    alu_oe: true,
                    alu_sel: AluOp::OR,
                    ma_we: true,
                    load_done: true,
                    ..cs
                },
            )
        } else {
            (
                State::LoadTemps(LoadTempsStage::TempsMA),
                ControlSignals {
                    t1_oe: is_dst,
                    t2_oe: !is_dst,
                    alu_oe: true,
                    alu_sel: AluOp::OR,
                    ma_we: true,
                    ..cs
                },
            )
        }
    }
}

/// Loading the destination register into `t1`, when the destination is a
/// register whose value is needed; otherwise the address goes to `MA` at once.
pub open spec fn t1_work(i: Decoded, cs: ControlSignals) -> (State, ControlSignals) {
    match i {
        Decoded::TwoOp { op: TwoOp::Mov, .. } => ea_to_ma_work(i, cs),
        Decoded::TwoOp { dst: DstOperand::Reg(x), .. } => (
            State::LoadTemps(LoadTempsStage::EAToMA),
            ControlSignals { t1_we: true, rf_oe: true, rf_sel: x, ..cs },
        ),
        Decoded::TwoOp { .. } => ea_to_ma_work(i, cs),
        Decoded::OneOp { op: OneOp::MovI, .. } => ea_to_ma_work(i, cs),
        Decoded::OneOp { dst: DstOperand::Reg(x), .. } => (
            State::LoadTemps(LoadTempsStage::EAToMA),
            ControlSignals { t1_we: true, rf_oe: true, rf_sel: x, ..cs },
        ),
        Decoded::OneOp { .. } => ea_to_ma_work(i, cs),
        _ => (State::Hlt, cs),
    }
}

/// One cycle of loading the operands of `i` into `t1` (destination) and `t2`
/// (source):
///
/// * `LoadTs`: a register source goes to `t2` (then `LoadT1Reg`); otherwise
///   the work of `LoadT1Reg` is done at once.
/// * `LoadT1Reg`: see [`t1_work`]. `EAToMA`: see [`ea_to_ma_work`].
/// * `TempsMA`: `MA` addresses the memory. `TempsML`: the operand is read into
///   `t1` (a destination that is also read) or `t2` (a source).
/// * at the end `load_done` is raised and execution starts.
///
/// An instruction with no operands to load stops the machine.
pub open spec fn load_temps_step(s: LoadTempsStage, cs: ControlSignals, i: Decoded) -> (
    State,
    ControlSignals,
) {
    match s {
        LoadTempsStage::LoadTs => match i {
            Decoded::TwoOp { src: Operand::MaybeDst(DstOperand::Reg(x)), .. } => (
                State::LoadTemps(LoadTempsStage::LoadT1Reg),
                ControlSignals { t2_we: true, rf_oe: true, rf_sel: x, ..cs },
            ),
            _ => t1_work(i, cs),
        },
        // entered only from outside the microprogram: no register was chosen
        LoadTempsStage::LoadT2Reg => (
            State::LoadTemps(LoadTempsStage::LoadT1Reg),
            ControlSignals { t2_we: true, rf_oe: true, rf_sel: Reg::RA, ..cs },
        ),
        LoadTempsStage::LoadT1Reg => t1_work(i, cs),
        LoadTempsStage::EAToMA => ea_to_ma_work(i, cs),
        LoadTempsStage::TempsMA => (
            State::LoadTemps(LoadTempsStage::TempsML),
            ControlSignals { ma_oe: true, ..cs },
        ),
        LoadTempsStage::TempsML => (
            State::Exec(ExecStage::ExecStart),
            ControlSignals {
                ram_oe: true,
                t1_we: mem_is_dst(i) && !writes_only(i),
                t2_we: !mem_is_dst(i),
                load_done: true,
                ..cs
            },
        ),
        LoadTempsStage::LoadDone => (
            State::Exec(ExecStage::ExecStart),
            ControlSignals { load_done: true, ..cs },
        ),
    }
}


fn stage_load_tmps(s: LoadTempsStage, cs: ControlSignals, i: Decoded) -> (r: (State, ControlSignals))
    ensures
        r == load_temps_step(s, cs, i),
{
    let mut invalid = false;
    // don't care: only read when the stage was entered from outside the microprogram
    let mut t2_reg = Reg::RA;
    let dst_is_addr = match i {
        Decoded::TwoOp { op: TwoOp::Mov, .. } => true,
        Decoded::OneOp { op: OneOp::MovI, .. } => true,
        Decoded::OneOp { op: OneOp::Pop, .. } => true,
        _ => false,
    };
    let state = if s == LoadTempsStage::LoadTs {
        match i {
            Decoded::TwoOp { src: s, .. } => {
                if let Operand::MaybeDst(x) = s {
                    if let DstOperand::Reg(x) = x {
                        t2_reg = x;
                        LoadTempsStage::LoadT2Reg
                    } else {
                        LoadTempsStage::LoadT1Reg
                    }
                } else {
                    LoadTempsStage::LoadT1Reg
                }
            },
            Decoded::OneOp { .. } => LoadTempsStage::LoadT1Reg,
            _ => {
                invalid = true;
                LoadTempsStage::LoadDone
            },
        }
    } else {
        s
    };
    let mut t1_reg = Reg::RA;
    let state = if state == LoadTempsStage::LoadT1Reg {
        match i {
            Decoded::TwoOp { op: TwoOp::Mov, .. } => LoadTempsStage::EAToMA,
            Decoded::TwoOp { dst: d, .. } => {
                if let DstOperand::Reg(x) = d {
                    t1_reg = x;
                    LoadTempsStage::LoadT1Reg
                } else {
                    LoadTempsStage::EAToMA
                }
            },
            Decoded::OneOp { op: OneOp::MovI, .. } => LoadTempsStage::EAToMA,
            Decoded::OneOp { dst: d, .. } => {
                if let DstOperand::Reg(x) = d {
                    t1_reg = x;
                    LoadTempsStage::LoadT1Reg
                } else {
                    LoadTempsStage::EAToMA
                }
            },
            _ => {
                invalid = true;
                LoadTempsStage::LoadDone
            },
        }
    } else {
        state
    };
    let is_dst = if let Some((_ea, d)) = extract_ea(i) {
        d
    } else {
        true
    };
    let state = if state == LoadTempsStage::EAToMA {
        if let Some((_ea, _d)) = extract_ea(i) {
            LoadTempsStage::EAToMA
        } else {
            LoadTempsStage::LoadDone
        }
    } else {
        state
    };
    match state {
        LoadTempsStage::LoadT2Reg => (
            State::LoadTemps(LoadTempsStage::LoadT1Reg),
            ControlSignals { t2_we: true, rf_oe: true, rf_sel: t2_reg, ..cs },
        ),
        LoadTempsStage::LoadT1Reg => (
            State::LoadTemps(LoadTempsStage::EAToMA),
            ControlSignals { t1_we: true, rf_oe: true, rf_sel: t1_reg, ..cs },
        ),
        LoadTempsStage::EAToMA => {
            let done = match i {
                Decoded::TwoOp { op: TwoOp::Mov, .. } => is_dst,
                Decoded::OneOp { op: OneOp::MovI, .. } => true,
                Decoded::OneOp { op: OneOp::Pop, .. } => true,
                _ => false,
            };
            if done {
                (
                    State::Exec(ExecStage::ExecStart),
                    ControlSignals {
                        t1_oe: is_dst,
                        t2_oe: !is_dst,
                        alu_oe: true,
                        alu_sel: AluOp::OR,
                        ma_we: true,
                        load_done: true,
                        ..cs
                    },
                )
            } else {
                (
                    State::LoadTemps(LoadTempsStage::TempsMA),
                    ControlSignals {
                        t1_oe: is_dst,
                        t2_oe: !is_dst,
                        alu_oe: true,
                        alu_sel: AluOp::OR,
                        ma_we: true,
                        ..cs
                    },
                )
            }
        },
        LoadTempsStage::TempsMA => (
            State::LoadTemps(LoadTempsStage::TempsML),
            ControlSignals { ma_oe: true, ..cs },
        ),
        LoadTempsStage::TempsML => (
            State::Exec(ExecStage::ExecStart),
            ControlSignals {
                ram_oe: true,
                t1_we: is_dst && !dst_is_addr,
                t2_we: !is_dst,
                load_done: true,
                ..cs
            },
        ),
        _ => {
            if invalid {
                (State::Hlt, cs)
            } else {
                (State::Exec(ExecStage::ExecStart), ControlSignals { load_done: true, ..cs })
            }
        },
    }
}


// --- execution ----------------------------------------------------------------

/// Whether a conditional jump is taken under the given flags.
pub open spec fn condition_holds(jc: Jcond, f: AluFlags) -> bool {
    match jc {
        Jcond::Jbe => f.c || f.z,
        Jcond::Jb => f.c,
        Jcond::Jle => (f.s != f.o) || f.z,
        Jcond::Jl => f.s != f.o,
        Jcond::Je => f.z,
        Jcond::Jo => f.o,
        Jcond::Js => f.s,
        Jcond::Jpe => f.p,
        Jcond::Ja => !(f.c || f.z),
        Jcond::Jae => !f.c,
        Jcond::Jg => !((f.s != f.o) || f.z),
        Jcond::Jge => f.s == f.o,
        Jcond::Jne => !f.z,
        Jcond::Jno => !f.o,
        Jcond::Jns => !f.s,
        Jcond::Jpo => !f.p,
    }
}

fn check_condition(jc: Jcond, f: AluFlags) -> (r: bool)
    ensures
        r == condition_holds(jc, f),
{
    match jc {
        Jcond::Jbe => f.c || f.z,
        Jcond::Jb => f.c,
        Jcond::Jle => (f.s != f.o) || f.z,
        Jcond::Jl => f.s != f.o,
        Jcond::Je => f.z,
        Jcond::Jo => f.o,
        Jcond::Js => f.s,
        Jcond::Jpe => f.p,
        Jcond::Ja => !(f.c || f.z),
        Jcond::Jae => !f.c,
        Jcond::Jg => !((f.s != f.o) || f.z),
        Jcond::Jge => f.s == f.o,
        Jcond::Jne => !f.z,
        Jcond::Jno => !f.o,
        Jcond::Jns => !f.s,
        Jcond::Jpo => !f.p,
    }
}

/// The ALU operation that carries out a two-operand operation.
pub open spec fn two_op_alu(x: TwoOp) -> AluOp {
    match x {
        TwoOp::Add => AluOp::ADC,
        TwoOp::Sub => AluOp::SBB1,
        TwoOp::And => AluOp::AND,
        TwoOp::Or => AluOp::OR,
        TwoOp::Xor => AluOp::XOR,
        TwoOp::Cmp => AluOp::SBB1,
        TwoOp::Test => AluOp::AND,
        TwoOp::Mov => AluOp::OR,
        TwoOp::Adc => AluOp::ADC,
        TwoOp::Sbb => AluOp::SBB1,
    }
}

/// The ALU operation that carries out a one-operand operation computed in
/// the ALU; `None` for those that are not.
pub open spec fn one_op_alu(x: OneOp) -> Option<AluOp> {
    match x {
        OneOp::Inc => Some(AluOp::ADC),
        OneOp::Dec => Some(AluOp::SBB1),
        OneOp::Neg => Some(AluOp::SBB2),
        OneOp::Not => Some(AluOp::NOT),
        OneOp::Shl => Some(AluOp::SHL),
        OneOp::Shr => Some(AluOp::SHR),
        OneOp::Sar => Some(AluOp::SAR),
        OneOp::MovI => Some(AluOp::OR),
        _ => None,
    }
}

/// One cycle of executing `i` under flags `f`:
///
/// * two-operand operations compute `t1 op t2` into `t1` and the flags
///   (`Cmp` and `Test` only the flags, `Mov` only the result), then store;
/// * `Push`/`Call`: `SP -> t2`; `SP - 1 -> SP, MA`; the value (`t1`, or for
///   `Call` the return address `PC`) goes to memory; `Call` then jumps to `t1`;
/// * `Pop`: `SP -> t2, MA`; `SP + 1 -> SP`; the word goes to `t2` (and when
///   the destination is in memory, its address `t1` to `MA`), then store;
/// * `Jmp`: `t1 -> PC`, done;
/// * other one-operand operations compute `op t1` (`MovI`: `t2`) into `t1`;
/// * a conditional jump loads its offset into `t1` and, when taken, adds it
///   to `PC`.
///
/// An instruction that cannot be executed here stops the machine.
pub open spec fn exec_step(s: ExecStage, cs: ControlSignals, i: Decoded, f: AluFlags) -> (
    State,
    ControlSignals,
) {
    match s {
        ExecStage::ExecStart => match i {
            Decoded::TwoOp { op: x, .. } => (
                State::Store,
                ControlSignals {
                    alu_oe: !(x == TwoOp::Test || x == TwoOp::Cmp),
                    t1_we: !(x == TwoOp::Test || x == TwoOp::Cmp),
                    t2_oe: true,
                    t1_oe: x != TwoOp::Mov,
                    alu_carry: (x == TwoOp::Adc || x == TwoOp::Sbb) && f.c,
                    alu_sel: two_op_alu(x),
                    fr_sel_bus: false,
                    fr_we: x != TwoOp::Mov,
                    exec_done: true,
                    ..cs
                },
            ),
            Decoded::OneOp { op: OneOp::Push, .. } => (
                State::Exec(ExecStage::ExecPush),
                ControlSignals { rf_oe: true, rf_sel: Reg::SP, t2_we: true, ..cs },
            ),
            Decoded::OneOp { op: OneOp::Pop, .. } => (
                State::Exec(ExecStage::ExecPop),
                ControlSignals { rf_oe: true, rf_sel: Reg::SP, t2_we: true, ma_we: true, ..cs },
            ),
            Decoded::OneOp { op: OneOp::Call, .. } => (
                State::Exec(ExecStage::ExecPush),
                ControlSignals { rf_oe: true, rf_sel: Reg::SP, t2_we: true, ..cs },
            ),
            Decoded::OneOp { op: OneOp::Jmp, .. } => (
                State::Fetch(FetchStage::PcToMA),
                ControlSignals {
                    t1_oe: true,
                    alu_oe: true,
                    alu_sel: AluOp::OR,
                    pc_we: true,
                    exec_done: true,
                    instr_done: true,
                    ..cs
                },
            ),
            Decoded::OneOp { op: x, .. } => match one_op_alu(x) {
                Some(sel) => (
                    State::Store,
                    ControlSignals {
                        alu_oe: true,
                        t1_we: true,
                        t1_oe: x != OneOp::MovI,
                        t2_oe: x == OneOp::MovI,
                        alu_carry: x == OneOp::Inc || x == OneOp::Dec,
                        alu_sel: sel,
                        fr_sel_bus: false,
                        fr_we: x != OneOp::MovI,
                        exec_done: true,
                        ..cs
                    },
                ),
                None => (
                    State::Hlt,
                    ControlSignals {
                        alu_oe: true,
                        t1_we: true,
                        t1_oe: x != OneOp::MovI,
                        t2_oe: x == OneOp::MovI,
                        alu_carry: x == OneOp::Inc || x == OneOp::Dec,
                        alu_sel: AluOp::ADC,
                        fr_sel_bus: false,
                        fr_we: x != OneOp::MovI,
                        ..cs
                    },
                ),
            },
            Decoded::Jcond(jc) => if condition_holds(jc, f) {
                (State::Exec(ExecStage::ExecJcond), ControlSignals { ir_oe: true, t1_we: true, ..cs })
            } else {
                (State::Store, ControlSignals { ir_oe: true, t1_we: true, exec_done: true, ..cs })
            },
            _ => (State::Hlt, cs),
        },
        ExecStage::ExecJcond => (
            State::Exec(ExecStage::ExecJcond2),
            ControlSignals { t2_we: true, pc_oe: true, ..cs },
        ),
        ExecStage::ExecJcond2 => (
            State::Fetch(FetchStage::PcToMA),
            ControlSignals {
                t1_oe: true,
                t2_oe: true,
                alu_oe: true,
                alu_sel: AluOp::ADC,
                pc_we: true,
                exec_done: true,
                instr_done: true,
                ..cs
            },
        ),
        ExecStage::ExecPop => (
            State::Exec(ExecStage::ExecPop2),
            ControlSignals {
                ma_oe: true,
                t2_oe: true,
                alu_oe: true,
                alu_sel: AluOp::ADC,
                alu_carry: true,
                rf_sel: Reg::SP,
                rf_we: true,
                ..cs
            },
        ),
        ExecStage::ExecPop2 => if memory_operand(i) is Some {
            (State::Exec(ExecStage::ExecPop3), ControlSignals { ram_oe: true, t2_we: true, ..cs })
        } else {
            (State::Store, ControlSignals { ram_oe: true, t2_we: true, exec_done: true, ..cs })
        },
        ExecStage::ExecPop3 => (
            State::Store,
            ControlSignals {
                t1_oe: true,
                alu_oe: true,
                alu_sel: AluOp::OR,
                ma_we: true,
                exec_done: true,
                ..cs
            },
        ),
        ExecStage::ExecPush => (
            State::Exec(ExecStage::ExecPush2),
            ControlSignals {
                t2_oe: true,
                alu_oe: true,
                alu_sel: AluOp::SBB2,
                alu_carry: true,
                rf_sel: Reg::SP,
                rf_we: true,
                ma_we: true,
                ..cs
            },
        ),
        ExecStage::ExecPush2 => match i {
            Decoded::OneOp { op: OneOp::Push, .. } => (
                State::IncPC,
                ControlSignals {
                    ma_oe: true,
                    ram_we: true,
                    t1_oe: true,
                    alu_oe: true,
                    alu_sel: AluOp::OR,
                    exec_done: true,
                    ..cs
                },
            ),
            Decoded::OneOp { op: OneOp::Call, .. } => (
                State::Exec(ExecStage::ExecCall),
                ControlSignals { ma_oe: true, ram_we: true, pc_oe: true, ..cs },
            ),
            _ => (State::Hlt, ControlSignals { ma_oe: true, ram_we: true, ..cs }),
        },
        ExecStage::ExecCall => (
            State::Fetch(FetchStage::PcToMA),
            ControlSignals {
                pc_we: true,
                t1_oe: true,
                alu_oe: true,
                alu_sel: AluOp::OR,
                exec_done: true,
                instr_done: true,
                ..cs
            },
        ),
        ExecStage::ExecDone => (State::Store, ControlSignals { exec_done: true, ..cs }),
    }
}


fn stage_exec(s: ExecStage, cs: ControlSignals, i: Decoded, fin: AluFlags) -> (r: (State, ControlSignals))
    ensures
        r == exec_step(s, cs, i, fin),
{
    match s {
        ExecStage::ExecStart => {
            match i {
                Decoded::TwoOp { op: x, .. } => {
                    let flags_only = x == TwoOp::Test || x == TwoOp::Cmp;
                    let alu_sel = match x {
                        TwoOp::Add => AluOp::ADC,
                        TwoOp::Sub => AluOp::SBB1,
                        TwoOp::And => AluOp::AND,
                        TwoOp::Or => AluOp::OR,
                        TwoOp::Xor => AluOp::XOR,
                        TwoOp::Cmp => AluOp::SBB1,
                        TwoOp::Test => AluOp::AND,
                        TwoOp::Mov => AluOp::OR,
                        TwoOp::Adc => AluOp::ADC,
                        TwoOp::Sbb => AluOp::SBB1,
                    };
                    (
                        State::Store,
                        ControlSignals {
                            alu_oe: !flags_only,
                            t1_we: !flags_only,
                            t2_oe: true,
                            t1_oe: x != TwoOp::Mov,
                            alu_carry: if x == TwoOp::Adc || x == TwoOp::Sbb {
                                fin.c
                            } else {
                                false
                            },
                            alu_sel,
                            fr_sel_bus: false,
                            fr_we: x != TwoOp::Mov,
                            exec_done: true,
                            ..cs
                        },
                    )
                },
                Decoded::OneOp { op: OneOp::Push, .. } => (
                    State::Exec(ExecStage::ExecPush),
                    ControlSignals { rf_oe: true, rf_sel: Reg::SP, t2_we: true, ..cs },
                ),
                Decoded::OneOp { op: OneOp::Pop, .. } => (
                    State::Exec(ExecStage::ExecPop),
                    ControlSignals { rf_oe: true, rf_sel: Reg::SP, t2_we: true, ma_we: true, ..cs },
                ),
                Decoded::OneOp { op: OneOp::Call, .. } => (
                    State::Exec(ExecStage::ExecPush),
                    ControlSignals { rf_oe: true, rf_sel: Reg::SP, t2_we: true, ..cs },
                ),
                Decoded::OneOp { op: OneOp::Jmp, .. } => (
                    State::Fetch(FetchStage::PcToMA),
                    ControlSignals {
                        t1_oe: true,
                        alu_oe: true,
                        alu_sel: AluOp::OR,
                        pc_we: true,
                        exec_done: true,
                        instr_done: true,
                        ..cs
                    },
                ),
                Decoded::OneOp { op: x, .. } => {
                    let mut invalid = false;
                    let alu_sel = match x {
                        OneOp::Inc => AluOp::ADC,
                        OneOp::Dec => AluOp::SBB1,
                        OneOp::Neg => AluOp::SBB2,
                        OneOp::Not => AluOp::NOT,
                        OneOp::Shl => AluOp::SHL,
                        OneOp::Shr => AluOp::SHR,
                        OneOp::Sar => AluOp::SAR,
                        OneOp::MovI => AluOp::OR,
                        _ => {
                            invalid = true;
                            AluOp::ADC
                        },
                    };
                    if invalid {
                        (
                            State::Hlt,
                            ControlSignals {
                                alu_oe: true,
                                t1_we: true,
                                t1_oe: x != OneOp::MovI,
                                t2_oe: x == OneOp::MovI,
                                alu_carry: x == OneOp::Inc || x == OneOp::Dec,
                                alu_sel,
                                fr_sel_bus: false,
                                fr_we: x != OneOp::MovI,
                                ..cs
                            },
                        )
                    } else {
                        (
                            State::Store,
                            ControlSignals {
                                alu_oe: true,
                                t1_we: true,
                                t1_oe: x != OneOp::MovI,
                                t2_oe: x == OneOp::MovI,
                                alu_carry: x == OneOp::Inc || x == OneOp::Dec,
                                alu_sel,
                                fr_sel_bus: false,
                                fr_we: x != OneOp::MovI,
                                exec_done: true,
                                ..cs
                            },
                        )
                    }
                },
                Decoded::Jcond(jc) => {
                    // Preload t1 with the offset just in case condition succeeds
                    if check_condition(jc, fin) {
                        (
                            State::Exec(ExecStage::ExecJcond),
                            ControlSignals { ir_oe: true, t1_we: true, ..cs },
                        )
                    } else {
                        (
                            State::Store,
                            ControlSignals { ir_oe: true, t1_we: true, exec_done: true, ..cs },
                        )
                    }
                },
                _ => (State::Hlt, cs),
            }
        },
        ExecStage::ExecJcond => (
            State::Exec(ExecStage::ExecJcond2),
            ControlSignals { t2_we: true, pc_oe: true, ..cs },
        ),
        ExecStage::ExecJcond2 => (
            State::Fetch(FetchStage::PcToMA),
            ControlSignals {
                t1_oe: true,
                t2_oe: true,
                alu_oe: true,
                alu_sel: AluOp::ADC,
                pc_we: true,
                exec_done: true,
                instr_done: true,
                ..cs
            },
        ),
        ExecStage::ExecPop => (
            State::Exec(ExecStage::ExecPop2),
            ControlSignals {
                ma_oe: true,
                t2_oe: true,
                alu_oe: true,
                alu_sel: AluOp::ADC,
                alu_carry: true,
                rf_sel: Reg::SP,
                rf_we: true,
                ..cs
            },
        ),
        ExecStage::ExecPop2 => {
            if let Some(_ea) = extract_ea(i) {
                (State::Exec(ExecStage::ExecPop3), ControlSignals { ram_oe: true, t2_we: true, ..cs })
            } else {
                (State::Store, ControlSignals { ram_oe: true, t2_we: true, exec_done: true, ..cs })
            }
        },
        ExecStage::ExecPop3 => (
            State::Store,
            ControlSignals {
                t1_oe: true,
                alu_oe: true,
                alu_sel: AluOp::OR,
                ma_we: true,
                exec_done: true,
                ..cs
            },
        ),
        ExecStage::ExecPush => (
            State::Exec(ExecStage::ExecPush2),
            ControlSignals {
                t2_oe: true,
                alu_oe: true,
                alu_sel: AluOp::SBB2,
                alu_carry: true,
                rf_sel: Reg::SP,
                rf_we: true,
                ma_we: true,
                ..cs
            },
        ),
        ExecStage::ExecPush2 => {
            match i {
                Decoded::OneOp { op: OneOp::Push, .. } => (
                    State::IncPC,
                    ControlSignals {
                        ma_oe: true,
                        ram_we: true,
                        t1_oe: true,
                        alu_oe: true,
                        alu_sel: AluOp::OR,
                        exec_done: true,
                        ..cs
                    },
                ),
                Decoded::OneOp { op: OneOp::Call, .. } => (
                    State::Exec(ExecStage::ExecCall),
                    ControlSignals { ma_oe: true, ram_we: true, pc_oe: true, ..cs },
                ),
                _ => (State::Hlt, ControlSignals { ma_oe: true, ram_we: true, ..cs }),
            }
        },
        ExecStage::ExecCall => (
            State::Fetch(FetchStage::PcToMA),
            ControlSignals {
                pc_we: true,
                t1_oe: true,
                alu_oe: true,
                alu_sel: AluOp::OR,
                exec_done: true,
                instr_done: true,
                ..cs
            },
        ),
        ExecStage::ExecDone => (State::Store, ControlSignals { exec_done: true, ..cs }),
    }
}


// --- control flow without an effective address, store, PC increment -------

/// One cycle of `In`, `Out`, `Pushf`, `Popf`, `Ret`, `Iret` (`opc`), from
/// idle lines:
///
/// * `In`/`Out`: the port number from `IR` goes to the I/O address latch;
///   then `In` reads the port into `RA` and `Out` writes `RA` to it;
/// * `Pushf`: `SP -> t1`; `SP - 1 -> SP, MA`; the flags go to memory;
/// * `Popf`/`Iret`: `SP -> t1, MA`; `SP + 1 -> SP, t1, MA`; the word read
///   goes to the flags; `Iret` then continues as `Ret`;
/// * `Ret`: `SP -> t1, MA`; `SP + 1 -> SP`; the word read goes to `PC`.
///
/// A stage that does not belong to `opc` stops the machine.
pub open spec fn nea_step(n: NeaStage, opc: CfNea) -> (State, ControlSignals) {
    let cs = idle();
    match n {
        NeaStage::IoaL => (State::Nea(NeaStage::IoW), ControlSignals { ioa_we: true, ir_oe: true, ..cs }),
        NeaStage::IoW => if opc == CfNea::In {
            (State::Nea(NeaStage::IoR), ControlSignals { ioa_oe: true, ..cs })
        } else if opc == CfNea::Out {
            (
                State::IncPC,
                ControlSignals { ioa_oe: true, io_we: true, rf_sel: Reg::RA, rf_oe: true, ..cs },
            )
        } else {
            (State::Hlt, ControlSignals { ioa_oe: true, ..cs })
        },
        NeaStage::IoR => (
            State::IncPC,
            ControlSignals { io_oe: true, rf_sel: Reg::RA, rf_we: true, ..cs },
        ),
        NeaStage::PushfSP => (
            State::Nea(NeaStage::PushfDec),
            ControlSignals { rf_sel: Reg::SP, rf_oe: true, t1_we: true, ..cs },
        ),
        NeaStage::PushfDec => (
            State::Nea(NeaStage::PushfW),
            ControlSignals {
                alu_oe: true,
                alu_sel: AluOp::SBB1,
                alu_carry: true,
                t1_oe: true,
                ma_we: true,
                rf_we: true,
                rf_sel: Reg::SP,
                ..cs
            },
        ),
        NeaStage::PushfW => (State::IncPC, ControlSignals { ma_oe: true, ram_we: true, fr_oe: true, ..cs }),
        NeaStage::PopSP => (
            if opc == CfNea::Popf || opc == CfNea::Iret {
                State::Nea(NeaStage::PopfMA)
            } else if opc == CfNea::Ret {
                State::Nea(NeaStage::RetMA)
            } else {
                State::Hlt
            },
            ControlSignals { rf_oe: true, rf_sel: Reg::SP, t1_we: true, ma_we: true, ..cs },
        ),
        NeaStage::PopfMA => (
            State::Nea(NeaStage::PopfL),
            ControlSignals {
                ma_oe: true,
                t1_oe: true,
                alu_sel: AluOp::ADC,
                alu_oe: true,
                alu_carry: true,
                t1_we: true,
                ma_we: true,
                rf_we: true,
                rf_sel: Reg::SP,
                ..cs
            },
        ),
        NeaStage::PopfL => (
            if opc == CfNea::Popf {
                State::IncPC
            } else if opc == CfNea::Iret {
                State::Nea(NeaStage::RetMA)
            } else {
                State::Hlt
            },
            ControlSignals { fr_we: true, fr_sel_bus: true, ram_oe: true, ..cs },
        ),
        NeaStage::RetMA => (
            State::Nea(NeaStage::RetL),
            ControlSignals {
                ma_oe: true,
                t1_oe: true,
                alu_sel: AluOp::ADC,
                alu_oe: true,
                alu_carry: true,
                rf_we: true,
                rf_sel: Reg::SP,
                ..cs
            },
        ),
        NeaStage::RetL => (State::IncPC, ControlSignals { pc_we: true, ram_oe: true, ..cs }),
    }
}

/// Storing the result, from idle lines: through the ALU (`OR`) from `t1`
/// (from `t2` for `Pop`) into the destination register, or into memory at
/// `MA`; then the program counter is incremented. An instruction without a
/// destination stops the machine.
pub open spec fn store_step(d: Decoded) -> (State, ControlSignals) {
    let cs = idle();
    let is_pop = d matches Decoded::OneOp { op: OneOp::Pop, .. };
    match destination(d) {
        Some(DstOperand::Reg(r)) => (
            State::IncPC,
            ControlSignals {
                t1_oe: !is_pop,
                t2_oe: is_pop,
                alu_oe: true,
                alu_sel: AluOp::OR,
                rf_we: true,
                rf_sel: r,
                ..cs
            },
        ),
        Some(_) => (
            State::IncPC,
            ControlSignals {
                t1_oe: !is_pop,
                t2_oe: is_pop,
                alu_oe: true,
                alu_sel: AluOp::OR,
                ma_oe: true,
                ram_we: true,
                ..cs
            },
        ),
        None => (State::Hlt, cs),
    }
}

/// Where the decoded instruction goes: instructions with a memory operand
/// compute its address first; otherwise those with an immediate read it,
/// and the others load their operands. Control flow without an effective
/// address has a sequence of its own, conditional jumps go to execution,
/// and `Hlt` and invalid words stop the machine.
pub open spec fn dispatch(d: Decoded) -> State {
    let operand_state = if memory_operand(d) is Some {
        State::LoadEa(LoadEaStage::Lea)
    } else if has_immediate(d) {
        State::LoadImm(LoadImmStage::ImmLpc)
    } else {
        State::LoadTemps(LoadTempsStage::LoadTs)
    };
    match d {
        Decoded::TwoOp { .. } => operand_state,
        Decoded::OneOp { .. } => operand_state,
        Decoded::CfNea(CfNea::Hlt) => State::Hlt,
        Decoded::CfNea(CfNea::In) => State::Nea(NeaStage::IoaL),
        Decoded::CfNea(CfNea::Out) => State::Nea(NeaStage::IoaL),
        Decoded::CfNea(CfNea::Pushf) => State::Nea(NeaStage::PushfSP),
        Decoded::CfNea(CfNea::Popf) => State::Nea(NeaStage::PopSP),
        Decoded::CfNea(CfNea::Iret) => State::Nea(NeaStage::PopSP),
        Decoded::CfNea(CfNea::Ret) => State::Nea(NeaStage::PopSP),
        Decoded::Jcond(_) => State::Exec(ExecStage::ExecStart),
        Decoded::Invalid => State::Hlt,
    }
}

/// The state after the effective address of `d` is computed: reading the
/// immediate, if the instruction has one, otherwise loading the operands.
pub open spec fn after_ea(d: Decoded) -> State {
    if has_immediate(d) {
        State::LoadImm(LoadImmStage::ImmLpc)
    } else {
        State::LoadTemps(LoadTempsStage::LoadTs)
    }
}

/// One clock cycle of the control unit: in state `s`, with the decoded
/// instruction register `d` and the flags `f`, the next state and the lines
/// driven in this cycle (starting from [`idle`]).
pub open spec fn cu_step(d: Decoded, f: AluFlags, s: State) -> (State, ControlSignals) {
    match s {
        State::Reset => (State::Fetch(FetchStage::PcToMA), idle()),
        State::Fetch(x) => fetch_step(x, idle()),
        State::Decode => (dispatch(d), idle()),
        State::LoadEa(l) => match memory_operand(d) {
            Some((ea, is_dst)) => {
                let r = load_ea_step(l, ea, idle(), is_dst);
                (
                    match r.0 {
                        Some(LoadEaStage::EaDone) => after_ea(d),
                        Some(x) => State::LoadEa(x),
                        None => State::Hlt,
                    },
                    r.1,
                )
            },
            None => (State::Hlt, idle()),
        },
        State::LoadImm(x) => load_imm_step(x, idle()),
        State::LoadTemps(t) => load_temps_step(t, idle(), d),
        State::Exec(e) => exec_step(e, idle(), d, f),
        State::Nea(n) => match d {
            Decoded::CfNea(opc) => nea_step(n, opc),
            _ => (State::Hlt, idle()),
        },
        State::Store => store_step(d),
        State::IncPC => (State::IncPC1, ControlSignals { pc_oe: true, t1_we: true, ..idle() }),
        State::IncPC1 => (
            State::Fetch(FetchStage::PcToMA),
            ControlSignals {
                alu_carry: true,
                alu_oe: true,
                alu_sel: AluOp::ADC,
                t1_oe: true,
                pc_we: true,
                ..idle()
            },
        ),
        State::Hlt => (State::Hlt, idle()),
    }
}


/// One clock cycle of the control unit's logic: the next state and the lines
/// driven in this cycle, in state `s` with the decoded instruction register
/// `d` and the flags `f`.
pub fn control_unit(d: Decoded, f: AluFlags, s: State) -> (r: (State, ControlSignals))
    ensures
        r == cu_step(d, f, s),
{
    let cs = ControlSignals {
        rf_sel: Reg::RA,
        rf_oe: false,
        rf_we: false,
        t1_oe: false,
        t1_we: false,
        t2_oe: false,
        t2_we: false,
        ma_oe: false,
        ma_we: false,
        ram_oe: false,
        ram_we: false,
        alu_carry: false,
        alu_oe: false,
        alu_sel: AluOp::ADC,
        pc_we: false,
        pc_oe: false,
        ir_we: false,
        ir_oe: false,
        fr_we: false,
        fr_oe: false,
        fr_sel_bus: false,
        ioa_we: false,
        ioa_oe: false,
        io_we: false,
        io_oe: false,
        fetch_done: false,
        instr_done: false,
        exec_done: false,
        load_done: false,
        store_done: false,
    };
    match s {
        State::Reset => (State::Fetch(FetchStage::PcToMA), cs),
        State::Fetch(f) => stage_fetch(f, cs),
        State::Decode => {
            let eastate = if let Some(_x) = extract_ea(d) {
                State::LoadEa(LoadEaStage::Lea)
            } else if has_imm(d) {
                State::LoadImm(LoadImmStage::ImmLpc)
            } else {
                State::LoadTemps(LoadTempsStage::LoadTs)
            };
            let next_state = match d {
                Decoded::TwoOp { .. } => eastate,
                Decoded::OneOp { .. } => eastate,
                Decoded::CfNea(CfNea::Hlt) => State::Hlt,
                Decoded::CfNea(CfNea::In) => State::Nea(NeaStage::IoaL),
                Decoded::CfNea(CfNea::Out) => State::Nea(NeaStage::IoaL),
                Decoded::CfNea(CfNea::Pushf) => State::Nea(NeaStage::PushfSP),
                Decoded::CfNea(CfNea::Popf) => State::Nea(NeaStage::PopSP),
                Decoded::CfNea(CfNea::Iret) => State::Nea(NeaStage::PopSP),
                Decoded::CfNea(CfNea::Ret) => State::Nea(NeaStage::PopSP),
                Decoded::Jcond(_x) => State::Exec(ExecStage::ExecStart),
                Decoded::Invalid => State::Hlt,
            };
            (next_state, cs)
        },
        State::LoadEa(l) => {
            if let Some((ea, is_dst)) = extract_ea(d) {
                let state_after_ea = if has_imm(d) {
                    State::LoadImm(LoadImmStage::ImmLpc)
                } else {
                    State::LoadTemps(LoadTempsStage::LoadTs)
                };
                let (state, cs2) = stage_load_ea(l, ea, cs, is_dst);
                let next_state = if let Some(ea_state) = state {
                    match ea_state {
                        LoadEaStage::EaDone => state_after_ea,
                        _ => State::LoadEa(ea_state),
                    }
                } else {
                    State::Hlt
                };
                (next_state, cs2)
            } else {
                (State::Hlt, cs)
            }
        },
        State::LoadImm(i) => stage_load_imm(i, cs),
        State::LoadTemps(t) => stage_load_tmps(t, cs, d),
        State::Exec(e) => stage_exec(e, cs, d, f),
        State::Nea(nea_state) => {
            if let Decoded::CfNea(opc) = d {
                match nea_state {
                    NeaStage::IoaL => (
                        State::Nea(NeaStage::IoW),
                        ControlSignals { ioa_we: true, ir_oe: true, ..cs },
                    ),
                    NeaStage::IoW => {
                        if opc == CfNea::In {
                            (State::Nea(NeaStage::IoR), ControlSignals { ioa_oe: true, ..cs })
                        } else if opc == CfNea::Out {
                            (
                                State::IncPC,
                                ControlSignals {
                                    ioa_oe: true,
                                    io_we: true,
                                    rf_sel: Reg::RA,
                                    rf_oe: true,
                                    ..cs
                                },
                            )
                        } else {
                            (State::Hlt, ControlSignals { ioa_oe: true, ..cs })
                        }
                    },
                    NeaStage::IoR => (
                        State::IncPC,
                        ControlSignals { io_oe: true, rf_sel: Reg::RA, rf_we: true, ..cs },
                    ),
                    NeaStage::PushfSP => (
                        State::Nea(NeaStage::PushfDec),
                        ControlSignals { rf_sel: Reg::SP, rf_oe: true, t1_we: true, ..cs },
                    ),
                    NeaStage::PushfDec => (
                        State::Nea(NeaStage::PushfW),
                        ControlSignals {
                            alu_oe: true,
                            alu_sel: AluOp::SBB1,
                            alu_carry: true,
                            t1_oe: true,
                            ma_we: true,
                            rf_we: true,
                            rf_sel: Reg::SP,
                            ..cs
                        },
                    ),
                    NeaStage::PushfW => (
                        State::IncPC,
                        ControlSignals { ma_oe: true, ram_we: true, fr_oe: true, ..cs },
                    ),
                    NeaStage::PopSP => {
                        let next_state = if opc == CfNea::Popf || opc == CfNea::Iret {
                            State::Nea(NeaStage::PopfMA)
                        } else if opc == CfNea::Ret {
                            State::Nea(NeaStage::RetMA)
                        } else {
                            State::Hlt
                        };
                        (
                            next_state,
                            ControlSignals {
                                rf_oe: true,
                                rf_sel: Reg::SP,
                                t1_we: true,
                                ma_we: true,
                                ..cs
                            },
                        )
                    },
                    NeaStage::PopfMA => (
                        State::Nea(NeaStage::PopfL),
                        // t1 and MA are loaded in case they are needed for IRET
                        ControlSignals {
                            ma_oe: true,
                            t1_oe: true,
                            alu_sel: AluOp::ADC,
                            alu_oe: true,
                            alu_carry: true,
                            t1_we: true,
                            ma_we: true,
                            rf_we: true,
                            rf_sel: Reg::SP,
                            ..cs
                        },
                    ),
                    NeaStage::PopfL => {
                        let next_state = if opc == CfNea::Popf {
                            State::IncPC
                        } else if opc == CfNea::Iret {
                            // No need to reload SP into T1
                            State::Nea(NeaStage::RetMA)
                        } else {
                            State::Hlt
                        };
                        // FR_WE by default takes from ALU, force it to take from BUS
                        (next_state, ControlSignals { fr_we: true, fr_sel_bus: true, ram_oe: true, ..cs })
                    },
                    NeaStage::RetMA => (
                        State::Nea(NeaStage::RetL),
                        ControlSignals {
                            ma_oe: true,
                            t1_oe: true,
                            alu_sel: AluOp::ADC,
                            alu_oe: true,
                            alu_carry: true,
                            rf_we: true,
                            rf_sel: Reg::SP,
                            ..cs
                        },
                    ),
                    NeaStage::RetL => (State::IncPC, ControlSignals { pc_we: true, ram_oe: true, ..cs }),
                }
            } else {
                (State::Hlt, cs)
            }
        },
        State::Store => {
            let is_pop = if let Decoded::OneOp { op: OneOp::Pop, .. } = d {
                true
            } else {
                false
            };
            if let Some(dst) = extract_dst(d) {
                match dst {
                    DstOperand::Reg(r) => (
                        State::IncPC,
                        ControlSignals {
                            t1_oe: !is_pop,
                            t2_oe: is_pop,
                            alu_oe: true,
                            alu_sel: AluOp::OR,
                            rf_we: true,
                            rf_sel: r,
                            ..cs
                        },
                    ),
                    _ => (
                        State::IncPC,
                        ControlSignals {
                            t1_oe: !is_pop,
                            t2_oe: is_pop,
                            alu_oe: true,
                            alu_sel: AluOp::OR,
                            ma_oe: true,
                            ram_we: true,
                            ..cs
                        },
                    ),
                }
            } else {
                (State::Hlt, cs)
            }
        },
        State::IncPC => (State::IncPC1, ControlSignals { pc_oe: true, t1_we: true, ..cs }),
        State::IncPC1 => (
            State::Fetch(FetchStage::PcToMA),
            ControlSignals {
                alu_carry: true,
                alu_oe: true,
                alu_sel: AluOp::ADC,
                t1_oe: true,
                pc_we: true,
                ..cs
            },
        ),
        State::Hlt => (State::Hlt, cs),
    }
}

/// The control unit as a synchronous circuit: from the decoded instruction
/// register and the flags, and its current state `q`, the lines it drives
/// this cycle and the state it latches at the clock edge.
pub fn cu_kernel(_cr: ClockReset, i: (Decoded, AluFlags), q: ControlUnit) -> (r: (
    ControlSignals,
    ControlUnit,
))
    ensures
        r.0 == cu_step(i.0, i.1, q@).1,
        r.1@ == cu_step(i.0, i.1, q@).0,
{
    let (next_state, cs) = control_unit(i.0, i.1, q.state);
    (cs, ControlUnit { state: next_state })
}

} // verus!

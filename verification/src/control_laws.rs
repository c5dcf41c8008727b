//! Properties of the control unit's microprogram that hold in every state,
//! for every instruction and every flag value.

use vstd::prelude::*;
use crate::alu::AluFlags;
use crate::control_unit::{
    condition_holds, cu_step, idle, mem_is_dst, memory_operand, writes_only, ControlSignals,
    ExecStage, FetchStage, LoadEaStage, LoadImmStage, LoadTempsStage, NeaStage, State,
};
use crate::decode_unit::{decoded, jcond_named, CfNea, Decoded};

verus! {

/// How many units drive the shared bus: the program counter, the register
/// file, the memory, the offset field of `IR`, the flags, the I/O port and
/// the ALU.
pub open spec fn bus_drivers(cs: ControlSignals) -> int {
    (if cs.pc_oe { 1int } else { 0int }) + (if cs.rf_oe { 1int } else { 0int }) + (if cs.ram_oe {
        1int
    } else {
        0int
    }) + (if cs.ir_oe { 1int } else { 0int }) + (if cs.fr_oe { 1int } else { 0int }) + (if cs.io_oe {
        1int
    } else {
        0int
    }) + (if cs.alu_oe { 1int } else { 0int })
}

/// The properties of one step `s -> r` that do not depend on where it is.
pub open spec fn sound_step(s: State, r: (State, ControlSignals)) -> bool {
    let cs = r.1;
    &&& bus_drivers(cs) <= 1
    &&& cs.ram_we ==> cs.ma_oe
    &&& !(cs.ram_we && cs.ram_oe)
    &&& cs.ir_we ==> s == State::Fetch(FetchStage::MemToIr) && r.0 == State::Decode
    &&& cs.fetch_done ==> r.0 == State::Decode
    &&& cs.load_done ==> r.0 == State::Exec(ExecStage::ExecStart)
    &&& cs.exec_done ==> s is Exec
    &&& cs.instr_done ==> r.0 == State::Fetch(FetchStage::PcToMA)
}

proof fn lemma_load_ea_sound(d: Decoded, s: LoadEaStage, f: AluFlags)
    ensures
        sound_step(State::LoadEa(s), cu_step(d, f, State::LoadEa(s))),
{
    match memory_operand(d) {
        Some((ea, is_dst)) => {
            match s {
                LoadEaStage::Lea => {},
                LoadEaStage::Lpc => {},
                LoadEaStage::Ipc => {},
                LoadEaStage::DdispA => {},
                LoadEaStage::DdispL => {},
                LoadEaStage::DispA => {},
                LoadEaStage::DispL => {},
                LoadEaStage::Ldi => {},
                LoadEaStage::Pipd => {},
                LoadEaStage::Ldb => {},
                LoadEaStage::Sum1 => {},
                LoadEaStage::Sum2 => {},
                LoadEaStage::EaDone => {},
            }
        },
        None => {},
    }
}

proof fn lemma_load_temps_sound(d: Decoded, s: LoadTempsStage, f: AluFlags)
    ensures
        sound_step(State::LoadTemps(s), cu_step(d, f, State::LoadTemps(s))),
{
    match s {
        LoadTempsStage::LoadTs => {},
        LoadTempsStage::LoadT2Reg => {},
        LoadTempsStage::LoadT1Reg => {},
        LoadTempsStage::EAToMA => {},
        LoadTempsStage::TempsMA => {},
        LoadTempsStage::TempsML => {},
        LoadTempsStage::LoadDone => {},
    }
}

proof fn lemma_exec_sound(d: Decoded, s: ExecStage, f: AluFlags)
    ensures
        sound_step(State::Exec(s), cu_step(d, f, State::Exec(s))),
{
    match s {
        ExecStage::ExecStart => {},
        ExecStage::ExecDone => {},
        ExecStage::ExecPop => {},
        ExecStage::ExecPop2 => {},
        ExecStage::ExecPop3 => {},
        ExecStage::ExecPush => {},
        ExecStage::ExecPush2 => {},
        ExecStage::ExecCall => {},
        ExecStage::ExecJcond => {},
        ExecStage::ExecJcond2 => {},
    }
}

proof fn lemma_nea_sound(d: Decoded, s: NeaStage, f: AluFlags)
    ensures
        sound_step(State::Nea(s), cu_step(d, f, State::Nea(s))),
{
    match s {
        NeaStage::IoaL => {},
        NeaStage::IoW => {},
        NeaStage::IoR => {},
        NeaStage::PopSP => {},
        NeaStage::PopfMA => {},
        NeaStage::PopfL => {},
        NeaStage::RetMA => {},
        NeaStage::RetL => {},
        NeaStage::PushfSP => {},
        NeaStage::PushfDec => {},
        NeaStage::PushfW => {},
    }
}

/// Every step of the control unit is sound.
proof fn lemma_step_sound(d: Decoded, f: AluFlags, s: State)
    ensures
        sound_step(s, cu_step(d, f, s)),
{
    match s {
        State::LoadEa(l) => lemma_load_ea_sound(d, l, f),
        State::LoadTemps(t) => lemma_load_temps_sound(d, t, f),
        State::Exec(e) => lemma_exec_sound(d, e, f),
        State::Nea(n) => lemma_nea_sound(d, n, f),
        _ => {},
    }
}

/// The bus is a wired OR of its drivers: in every cycle at most one unit
/// drives it, so what a unit latches from the bus is that unit's value.
pub proof fn lemma_single_bus_driver(d: Decoded, f: AluFlags, s: State)
    ensures
        bus_drivers(cu_step(d, f, s).1) <= 1,
{
    lemma_step_sound(d, f, s);
}

/// Memory is only written at the address held in `MA`, and only one of
/// reading and writing memory happens in a cycle.
pub proof fn lemma_memory_write_addressed(d: Decoded, f: AluFlags, s: State)
    ensures
        cu_step(d, f, s).1.ram_we ==> cu_step(d, f, s).1.ma_oe,
        !(cu_step(d, f, s).1.ram_we && cu_step(d, f, s).1.ram_oe),
{
    lemma_step_sound(d, f, s);
}

/// The instruction register is loaded only in the last cycle of a fetch,
/// which is followed by decoding; so the decoded instruction stays the same
/// from `Decode` until the next fetch.
pub proof fn lemma_ir_written_only_by_fetch(d: Decoded, f: AluFlags, s: State)
    ensures
        cu_step(d, f, s).1.ir_we ==> s == State::Fetch(FetchStage::MemToIr) && cu_step(d, f, s).0
            == State::Decode,
{
    lemma_step_sound(d, f, s);
}

/// The phase-end lines mark the transitions they name: `fetch_done` goes
/// with the move to `Decode`, `load_done` with the start of execution,
/// `exec_done` is raised only while executing, and `instr_done` only when
/// the next fetch starts.
pub proof fn lemma_phase_lines(d: Decoded, f: AluFlags, s: State)
    ensures
        cu_step(d, f, s).1.fetch_done ==> cu_step(d, f, s).0 == State::Decode,
        cu_step(d, f, s).1.load_done ==> cu_step(d, f, s).0 == State::Exec(ExecStage::ExecStart),
        cu_step(d, f, s).1.exec_done ==> s is Exec,
        cu_step(d, f, s).1.instr_done ==> cu_step(d, f, s).0 == State::Fetch(FetchStage::PcToMA),
{
    lemma_step_sound(d, f, s);
}

/// A halted control unit stays halted and drives nothing; a reset one
/// starts fetching, driving nothing in that cycle.
pub proof fn lemma_halt_and_reset(d: Decoded, f: AluFlags)
    ensures
        cu_step(d, f, State::Hlt) == (State::Hlt, idle()),
        cu_step(d, f, State::Reset) == (State::Fetch(FetchStage::PcToMA), idle()),
{
}

/// Fetching takes three cycles and does not depend on the instruction or
/// the flags: `PC -> MA`, addressing the memory, `memory -> IR`.
pub proof fn lemma_fetch_sequence(d: Decoded, f: AluFlags)
    ensures
        cu_step(d, f, State::Fetch(FetchStage::PcToMA)).0 == State::Fetch(FetchStage::MaToMem),
        cu_step(d, f, State::Fetch(FetchStage::MaToMem)).0 == State::Fetch(FetchStage::MemToIr),
        cu_step(d, f, State::Fetch(FetchStage::MemToIr)).0 == State::Decode,
        cu_step(d, f, State::Fetch(FetchStage::MemToIr)).1.ir_we,
        cu_step(d, f, State::Fetch(FetchStage::MemToIr)).1.ram_oe,
{
}

/// The flags are read only when execution starts: in every other state the
/// control unit does the same whatever the flags are.
pub proof fn lemma_flags_read_only_at_exec_start(d: Decoded, f1: AluFlags, f2: AluFlags, s: State)
    requires
        s != State::Exec(ExecStage::ExecStart),
    ensures
        cu_step(d, f1, s) == cu_step(d, f2, s),
{
}

/// A conditional jump is taken (goes on to add the offset to `PC`) exactly
/// when its condition holds under the flags.
pub proof fn lemma_conditional_jump(c: u8, f: AluFlags)
    ensures
        (cu_step(Decoded::Jcond(jcond_named(c)), f, State::Exec(ExecStage::ExecStart)).0
            == State::Exec(ExecStage::ExecJcond)) == condition_holds(jcond_named(c), f),
{
}

/// The condition codes come in complementary pairs: two codes that differ
/// only in their lowest bit (bit 4 of the instruction) test opposite
/// conditions.
pub proof fn lemma_condition_pairs(c: u8, f: AluFlags)
    requires
        c < 16,
        c % 2 == 0,
    ensures
        condition_holds(jcond_named((c + 1) as u8), f) == !condition_holds(jcond_named(c), f),
{
}


// ---------------------------------------------------------------------------
// Every instruction ends
// ---------------------------------------------------------------------------

/// An upper bound on the cycles left before the control unit next starts a
/// fetch or halts: the states of an instruction's microprogram, numbered so
/// that every step goes to a lower number.
pub open spec fn cycles_left(s: State) -> nat {
    match s {
        State::Hlt => 0,
        State::IncPC1 => 1,
        State::IncPC => 2,
        State::Store => 3,
        State::Exec(e) => match e {
            ExecStage::ExecDone => 4,
            ExecStage::ExecPop3 => 4,
            ExecStage::ExecCall => 4,
            ExecStage::ExecJcond2 => 4,
            ExecStage::ExecPop2 => 5,
            ExecStage::ExecPush2 => 5,
            ExecStage::ExecJcond => 5,
            ExecStage::ExecPop => 6,
            ExecStage::ExecPush => 6,
            ExecStage::ExecStart => 7,
        },
        State::Nea(n) => match n {
            NeaStage::RetL => 3,
            NeaStage::PushfW => 3,
            NeaStage::IoR => 3,
            NeaStage::RetMA => 4,
            NeaStage::PushfDec => 4,
            NeaStage::IoW => 4,
            NeaStage::PopfL => 5,
            NeaStage::PushfSP => 5,
            NeaStage::IoaL => 5,
            NeaStage::PopfMA => 6,
            NeaStage::PopSP => 7,
        },
        State::LoadTemps(t) => match t {
            LoadTempsStage::LoadDone => 8,
            LoadTempsStage::TempsML => 8,
            LoadTempsStage::TempsMA => 9,
            LoadTempsStage::EAToMA => 10,
            LoadTempsStage::LoadT1Reg => 11,
            LoadTempsStage::LoadT2Reg => 12,
            LoadTempsStage::LoadTs => 12,
        },
        State::LoadImm(i) => match i {
            LoadImmStage::ImmDone => 13,
            LoadImmStage::ImmL => 13,
            LoadImmStage::ImmA => 14,
            LoadImmStage::ImmIpc => 15,
            LoadImmStage::ImmLpc => 16,
        },
        State::LoadEa(l) => match l {
            LoadEaStage::EaDone => 17,
            LoadEaStage::Sum2 => 17,
            LoadEaStage::DdispL => 17,
            LoadEaStage::Pipd => 18,
            LoadEaStage::DdispA => 18,
            LoadEaStage::Ldi => 19,
            LoadEaStage::Sum1 => 20,
            LoadEaStage::Ldb => 21,
            LoadEaStage::DispL => 22,
            LoadEaStage::DispA => 23,
            LoadEaStage::Ipc => 24,
            LoadEaStage::Lpc => 25,
            LoadEaStage::Lea => 26,
        },
        State::Decode => 27,
        State::Fetch(x) => match x {
            FetchStage::FetchDone => 28,
            FetchStage::MemToIr => 28,
            FetchStage::MaToMem => 29,
            FetchStage::PcToMA => 30,
        },
        State::Reset => 31,
    }
}

/// The control unit has finished an instruction: it is about to fetch the
/// next one, or it has halted.
pub open spec fn instruction_boundary(s: State) -> bool {
    s == State::Fetch(FetchStage::PcToMA) || s == State::Hlt
}

/// Every step makes progress: it reaches an instruction boundary or lowers
/// the bound on the cycles left.
pub proof fn lemma_step_progress(d: Decoded, f: AluFlags, s: State)
    requires
        s != State::Hlt,
    ensures
        instruction_boundary(cu_step(d, f, s).0) || cycles_left(cu_step(d, f, s).0) < cycles_left(s),
{
    match s {
        State::LoadEa(l) => match l {
            LoadEaStage::Lea => {},
            LoadEaStage::Lpc => {},
            LoadEaStage::Ipc => {},
            LoadEaStage::DdispA => {},
            LoadEaStage::DdispL => {},
            LoadEaStage::DispA => {},
            LoadEaStage::DispL => {},
            LoadEaStage::Ldi => {},
            LoadEaStage::Pipd => {},
            LoadEaStage::Ldb => {},
            LoadEaStage::Sum1 => {},
            LoadEaStage::Sum2 => {},
            LoadEaStage::EaDone => {},
        },
        State::LoadTemps(t) => match t {
            LoadTempsStage::LoadTs => {},
            LoadTempsStage::LoadT2Reg => {},
            LoadTempsStage::LoadT1Reg => {},
            LoadTempsStage::EAToMA => {},
            LoadTempsStage::TempsMA => {},
            LoadTempsStage::TempsML => {},
            LoadTempsStage::LoadDone => {},
        },
        State::Exec(e) => match e {
            ExecStage::ExecStart => {},
            ExecStage::ExecDone => {},
            ExecStage::ExecPop => {},
            ExecStage::ExecPop2 => {},
            ExecStage::ExecPop3 => {},
            ExecStage::ExecPush => {},
            ExecStage::ExecPush2 => {},
            ExecStage::ExecCall => {},
            ExecStage::ExecJcond => {},
            ExecStage::ExecJcond2 => {},
        },
        State::Nea(n) => match n {
            NeaStage::IoaL => {},
            NeaStage::IoW => {},
            NeaStage::IoR => {},
            NeaStage::PopSP => {},
            NeaStage::PopfMA => {},
            NeaStage::PopfL => {},
            NeaStage::RetMA => {},
            NeaStage::RetL => {},
            NeaStage::PushfSP => {},
            NeaStage::PushfDec => {},
            NeaStage::PushfW => {},
        },
        _ => {},
    }
}

/// The state after one cycle per element of `fs`, with the instruction
/// register decoding to `d` throughout and `fs[k]` the flags in cycle `k`.
pub open spec fn run(d: Decoded, fs: Seq<AluFlags>, s: State) -> State
    decreases fs.len(),
{
    if fs.len() == 0 {
        s
    } else {
        run(d, fs.drop_first(), cu_step(d, fs[0], s).0)
    }
}

/// Every instruction ends: whatever the flags do, a control unit that has
/// not halted reaches the start of the next fetch, or halts, within
/// `cycles_left(s)` cycles (at most 31, from `Reset`), as long as the
/// instruction register holds the same instruction, which it does from
/// `Decode` until that point.
pub proof fn lemma_instruction_ends(d: Decoded, fs: Seq<AluFlags>, s: State)
    requires
        s != State::Hlt,
        fs.len() >= cycles_left(s),
    ensures
        exists|k: int| 1 <= k <= cycles_left(s) && #[trigger] instruction_boundary(run(d, fs.take(k), s)),
    decreases cycles_left(s),
{
    let n = cu_step(d, fs[0], s).0;
    lemma_step_progress(d, fs[0], s);
    assert(fs.take(1).drop_first() =~= Seq::<AluFlags>::empty());
    assert(fs.take(1)[0] == fs[0]);
    assert(run(d, fs.take(1).drop_first(), n) == n);
    assert(run(d, fs.take(1), s) == n);
    if !instruction_boundary(n) {
        lemma_instruction_ends(d, fs.drop_first(), n);
        let k = choose|k: int| 1 <= k <= cycles_left(n) && #[trigger] instruction_boundary(run(d, fs.drop_first().take(k), n));
        assert(fs.take(k + 1).drop_first() =~= fs.drop_first().take(k));
        assert(fs.take(k + 1)[0] == fs[0]);
        assert(instruction_boundary(run(d, fs.take(k + 1), s)));
    }
}


/// An instruction that only writes its memory destination (`Mov`, `MovI`,
/// `Pop`) never has that destination's old value read from memory into `t1`
/// while its operands are loaded.
pub proof fn lemma_write_only_destination_not_read(d: Decoded, f: AluFlags, t: LoadTempsStage)
    requires
        writes_only(d),
        memory_operand(d) is Some,
        mem_is_dst(d),
    ensures
        !(cu_step(d, f, State::LoadTemps(t)).1.ram_oe && cu_step(d, f, State::LoadTemps(t)).1.t1_we),
{
    match t {
        LoadTempsStage::LoadTs => {},
        LoadTempsStage::LoadT2Reg => {},
        LoadTempsStage::LoadT1Reg => {},
        LoadTempsStage::EAToMA => {},
        LoadTempsStage::TempsMA => {},
        LoadTempsStage::TempsML => {},
        LoadTempsStage::LoadDone => {},
    }
}

/// A word that is no instruction, and the `hlt` instruction, stop the
/// machine as soon as they are decoded.
pub proof fn lemma_invalid_and_hlt_stop(w: u16, f: AluFlags)
    requires
        decoded(w) == Decoded::Invalid || decoded(w) == Decoded::CfNea(CfNea::Hlt),
    ensures
        cu_step(decoded(w), f, State::Decode) == (State::Hlt, idle()),
{
}

} // verus!

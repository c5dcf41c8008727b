use cd_rhdl::alu::{AluFlags, AluOp};
use cd_rhdl::clocking::ClockReset;
use cd_rhdl::control_unit::{
    control_unit, cu_kernel, ControlSignals, ControlUnit, ExecStage, FetchStage, LoadEaStage,
    LoadImmStage, LoadTempsStage, NeaStage, State,
};
use cd_rhdl::decode_unit::{decode, CfNea, Decoded, Jcond};
use cd_rhdl::register_file::Reg;

const NO_FLAGS: AluFlags = AluFlags { c: false, z: false, s: false, o: false, p: false };

fn all_flags() -> Vec<AluFlags> {
    (0..32u8)
        .map(|b| AluFlags { c: b & 1 != 0, z: b & 2 != 0, s: b & 4 != 0, o: b & 8 != 0, p: b & 16 != 0 })
        .collect()
}

fn all_states() -> Vec<State> {
    let mut v = vec![State::Reset, State::Decode, State::Store, State::IncPC, State::IncPC1, State::Hlt];
    for f in [FetchStage::PcToMA, FetchStage::MaToMem, FetchStage::MemToIr, FetchStage::FetchDone] {
        v.push(State::Fetch(f));
    }
    for l in [
        LoadEaStage::Lea,
        LoadEaStage::Lpc,
        LoadEaStage::Ipc,
        LoadEaStage::DdispA,
        LoadEaStage::DdispL,
        LoadEaStage::DispA,
        LoadEaStage::DispL,
        LoadEaStage::Ldi,
        LoadEaStage::Pipd,
        LoadEaStage::Ldb,
        LoadEaStage::Sum1,
        LoadEaStage::Sum2,
        LoadEaStage::EaDone,
    ] {
        v.push(State::LoadEa(l));
    }
    for i in [LoadImmStage::ImmLpc, LoadImmStage::ImmIpc, LoadImmStage::ImmA, LoadImmStage::ImmL, LoadImmStage::ImmDone] {
        v.push(State::LoadImm(i));
    }
    for t in [
        LoadTempsStage::LoadTs,
        LoadTempsStage::LoadT2Reg,
        LoadTempsStage::LoadT1Reg,
        LoadTempsStage::EAToMA,
        LoadTempsStage::TempsMA,
        LoadTempsStage::TempsML,
        LoadTempsStage::LoadDone,
    ] {
        v.push(State::LoadTemps(t));
    }
    for e in [
        ExecStage::ExecStart,
        ExecStage::ExecDone,
        ExecStage::ExecPop,
        ExecStage::ExecPop2,
        ExecStage::ExecPop3,
        ExecStage::ExecPush,
        ExecStage::ExecPush2,
        ExecStage::ExecCall,
        ExecStage::ExecJcond,
        ExecStage::ExecJcond2,
    ] {
        v.push(State::Exec(e));
    }
    for n in [
        NeaStage::IoaL,
        NeaStage::IoW,
        NeaStage::IoR,
        NeaStage::PopSP,
        NeaStage::PopfMA,
        NeaStage::PopfL,
        NeaStage::RetMA,
        NeaStage::RetL,
        NeaStage::PushfSP,
        NeaStage::PushfDec,
        NeaStage::PushfW,
    ] {
        v.push(State::Nea(n));
    }
    v
}

fn bus_drivers(cs: &ControlSignals) -> u32 {
    [cs.pc_oe, cs.rf_oe, cs.ram_oe, cs.ir_oe, cs.fr_oe, cs.io_oe, cs.alu_oe].iter().filter(|b| **b).count() as u32
}

/// Runs the control unit from `s` until the next fetch starts or it halts,
/// returning the states it went through (the start excluded).
fn trace(d: Decoded, f: AluFlags, mut s: State) -> Vec<(State, ControlSignals)> {
    let mut v = Vec::new();
    for _ in 0..100 {
        let (n, cs) = control_unit(d, f, s);
        v.push((n, cs));
        s = n;
        if n == State::Fetch(FetchStage::PcToMA) || n == State::Hlt {
            break;
        }
    }
    v
}

#[test]
fn reset_then_fetch() {
    let d = decode(0x0031);
    let (s, cs) = control_unit(d, NO_FLAGS, State::Reset);
    assert_eq!(s, State::Fetch(FetchStage::PcToMA));
    assert_eq!(bus_drivers(&cs), 0);
    let (s, cs) = control_unit(d, NO_FLAGS, s);
    assert_eq!(s, State::Fetch(FetchStage::MaToMem));
    assert!(cs.pc_oe && cs.ma_we);
    let (s, cs) = control_unit(d, NO_FLAGS, s);
    assert_eq!(s, State::Fetch(FetchStage::MemToIr));
    assert!(cs.ma_oe);
    let (s, cs) = control_unit(d, NO_FLAGS, s);
    assert_eq!(s, State::Decode);
    assert!(cs.ram_oe && cs.ir_we && cs.fetch_done);
    // hlt stops the machine for good
    let (s, _) = control_unit(d, NO_FLAGS, s);
    assert_eq!(s, State::Hlt);
    let (s2, cs) = control_unit(d, NO_FLAGS, s);
    assert_eq!(s2, State::Hlt);
    assert_eq!(bus_drivers(&cs), 0);
}

#[test]
fn cu_kernel_latches_next_state() {
    let cr = ClockReset { clock: true, reset: false };
    let q = ControlUnit::default();
    let (cs, q) = cu_kernel(cr, (Decoded::Invalid, NO_FLAGS), q);
    assert!(!cs.pc_oe);
    let (cs, q) = cu_kernel(cr, (Decoded::Invalid, NO_FLAGS), q);
    assert!(cs.pc_oe && cs.ma_we);
    let q = ControlUnit::new(State::Decode);
    let (_cs, q) = cu_kernel(cr, (Decoded::Invalid, NO_FLAGS), q);
    let (cs, _q) = cu_kernel(cr, (Decoded::Invalid, NO_FLAGS), q);
    // halted: nothing driven
    assert_eq!(bus_drivers(&cs), 0);
    assert!(!cs.pc_we && !cs.ir_we);
}

#[test]
fn sub_based_memory_with_immediate() {
    // sub [ba+43], 42
    let d = decode(0xE12E);
    let t = trace(d, NO_FLAGS, State::Decode);
    let states: Vec<State> = t.iter().map(|(s, _)| *s).collect();
    assert_eq!(
        states,
        vec![
            State::LoadEa(LoadEaStage::Lea),
            State::LoadEa(LoadEaStage::Ipc),
            State::LoadEa(LoadEaStage::DispA),
            State::LoadEa(LoadEaStage::DispL),
            State::LoadEa(LoadEaStage::Ldb),
            State::LoadEa(LoadEaStage::Sum2),
            State::LoadImm(LoadImmStage::ImmLpc),
            State::LoadImm(LoadImmStage::ImmIpc),
            State::LoadImm(LoadImmStage::ImmA),
            State::LoadImm(LoadImmStage::ImmL),
            State::LoadTemps(LoadTempsStage::LoadTs),
            State::LoadTemps(LoadTempsStage::TempsMA),
            State::LoadTemps(LoadTempsStage::TempsML),
            State::Exec(ExecStage::ExecStart),
            State::Store,
            State::IncPC,
            State::IncPC1,
            State::Fetch(FetchStage::PcToMA),
        ]
    );
    // Ldb: the base register ba goes to t2, the displacement was put in t1
    let (_, ldb) = t[5];
    assert!(ldb.rf_oe && ldb.t2_we && !ldb.t1_we && ldb.rf_sel == Reg::BA);
    // Sum2: the address of the destination goes to t1
    let (_, sum2) = t[6];
    assert!(sum2.alu_oe && sum2.t1_we && sum2.alu_sel == AluOp::ADC);
    // TempsML: the memory operand is read into t1 and loading ends
    let (_, ml) = t[13];
    assert!(ml.ram_oe && ml.t1_we && !ml.t2_we && ml.load_done);
    // ExecStart: t1 - t2 into t1 and the flags
    let (_, ex) = t[14];
    assert!(ex.alu_sel == AluOp::SBB1 && ex.fr_we && ex.t1_we && ex.exec_done);
    // Store: into memory at MA
    let (_, st) = t[15];
    assert!(st.ma_oe && st.ram_we && st.t1_oe);
}

#[test]
fn mov_immediate_to_memory_skips_reading_destination() {
    // mov [ba+43], 42
    let d = decode(0xE104);
    let t = trace(d, NO_FLAGS, State::Decode);
    let load_done = t.iter().position(|(_, cs)| cs.load_done).unwrap();
    // after the immediate is read, no memory read loads t1
    let imm_read = t.iter().position(|(s, _)| *s == State::LoadTemps(LoadTempsStage::LoadTs)).unwrap();
    for (_, cs) in &t[imm_read..=load_done] {
        assert!(!(cs.ram_oe && cs.t1_we));
    }
    assert_eq!(t[load_done].0, State::Exec(ExecStage::ExecStart));
}

#[test]
fn add_register_from_post_increment_memory() {
    // add ra, [ba+xb+]
    let w: u16 = 0b1010 | (1 << 7) | (0b10 << 8) | (0 << 10) | (0b011 << 13);
    let d = decode(w);
    let t = trace(d, NO_FLAGS, State::Decode);
    let states: Vec<State> = t.iter().map(|(s, _)| *s).collect();
    assert!(states.contains(&State::LoadEa(LoadEaStage::Pipd)));
    let pipd = t.iter().position(|(s, _)| *s == State::LoadEa(LoadEaStage::Pipd)).unwrap();
    // the cycle that ends in Pipd loaded xb; Pipd itself writes xb + 1 back
    let (_, inc) = t[pipd + 1];
    assert!(inc.rf_we && inc.rf_sel == Reg::XB && inc.alu_carry && inc.alu_sel == AluOp::ADC);
    assert_eq!(t.last().unwrap().0, State::Fetch(FetchStage::PcToMA));
}

#[test]
fn conditional_jump_taken_and_not_taken() {
    let d = Decoded::Jcond(Jcond::Je);
    let z = AluFlags { z: true, ..NO_FLAGS };
    let t = trace(d, z, State::Decode);
    let states: Vec<State> = t.iter().map(|(s, _)| *s).collect();
    assert_eq!(
        states,
        vec![
            State::Exec(ExecStage::ExecStart),
            State::Exec(ExecStage::ExecJcond),
            State::Exec(ExecStage::ExecJcond2),
            State::Fetch(FetchStage::PcToMA),
        ]
    );
    assert!(t[3].1.instr_done && t[3].1.pc_we);
    // not taken: the offset is loaded, execution ends, and the store that
    // follows finds no destination, which stops the machine
    let t = trace(d, NO_FLAGS, State::Decode);
    let states: Vec<State> = t.iter().map(|(s, _)| *s).collect();
    assert_eq!(states, vec![State::Exec(ExecStage::ExecStart), State::Store, State::Hlt]);
}

#[test]
fn complementary_conditions() {
    for c in (0..16u16).step_by(2) {
        let a = match decode(0b1001 | (c << 4)) { Decoded::Jcond(j) => j, _ => unreachable!() };
        let b = match decode(0b1001 | ((c + 1) << 4)) { Decoded::Jcond(j) => j, _ => unreachable!() };
        for f in all_flags() {
            let ta = control_unit(Decoded::Jcond(a), f, State::Exec(ExecStage::ExecStart)).0
                == State::Exec(ExecStage::ExecJcond);
            let tb = control_unit(Decoded::Jcond(b), f, State::Exec(ExecStage::ExecStart)).0
                == State::Exec(ExecStage::ExecJcond);
            assert_ne!(ta, tb);
        }
    }
}

#[test]
fn call_and_ret_sequences() {
    // call bb
    let w: u16 = (0b001 << 4) | (0b11 << 8) | (0b111 << 13);
    let d = decode(w);
    let states: Vec<State> = trace(d, NO_FLAGS, State::Decode).iter().map(|(s, _)| *s).collect();
    assert_eq!(
        states,
        vec![
            State::LoadTemps(LoadTempsStage::LoadTs),
            State::LoadTemps(LoadTempsStage::EAToMA),
            State::Exec(ExecStage::ExecStart),
            State::Exec(ExecStage::ExecPush),
            State::Exec(ExecStage::ExecPush2),
            State::Exec(ExecStage::ExecCall),
            State::Fetch(FetchStage::PcToMA),
        ]
    );
    let d = Decoded::CfNea(CfNea::Ret);
    let states: Vec<State> = trace(d, NO_FLAGS, State::Decode).iter().map(|(s, _)| *s).collect();
    assert_eq!(
        states,
        vec![
            State::Nea(NeaStage::PopSP),
            State::Nea(NeaStage::RetMA),
            State::Nea(NeaStage::RetL),
            State::IncPC,
            State::IncPC1,
            State::Fetch(FetchStage::PcToMA),
        ]
    );
}

#[test]
fn every_step_is_sound_for_every_word() {
    let states = all_states();
    for w in 0..=u16::MAX {
        let d = decode(w);
        for s in &states {
            let flags = if *s == State::Exec(ExecStage::ExecStart) { all_flags() } else { vec![NO_FLAGS] };
            for f in flags {
                let (n, cs) = control_unit(d, f, *s);
                assert!(bus_drivers(&cs) <= 1, "{:?} {:?}", d, s);
                assert!(!cs.ram_we || cs.ma_oe);
                assert!(!(cs.ram_we && cs.ram_oe));
                assert!(!cs.ir_we || (*s == State::Fetch(FetchStage::MemToIr) && n == State::Decode));
                assert!(!cs.instr_done || n == State::Fetch(FetchStage::PcToMA));
                assert!(!cs.load_done || n == State::Exec(ExecStage::ExecStart));
            }
        }
    }
}

#[test]
fn every_word_ends_within_bound() {
    for w in 0..=u16::MAX {
        let d = decode(w);
        for f in [NO_FLAGS, AluFlags { c: true, z: true, s: true, o: true, p: true }] {
            let t = trace(d, f, State::Decode);
            assert!(t.len() <= 27, "{:?} took {} cycles", d, t.len());
            let last = t.last().unwrap().0;
            assert!(last == State::Fetch(FetchStage::PcToMA) || last == State::Hlt);
        }
    }
}

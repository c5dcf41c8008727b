use cd_rhdl::control_unit::State;
use cd_rhdl::cpu::CpuDefault;

#[test]
fn cpu_default_values() {
    let mut init = CpuDefault::default();
    assert_eq!(init.regs, [0u128; 8]);
    assert_eq!((init.T1, init.T2, init.MA, init.IR, init.PC, init.FR), (0, 0, 0, 0, 0, 0));
    assert_eq!(init.state, State::Reset);
    init.regs[4] = 0x69;
    let copy = init.clone();
    assert_eq!(copy.regs[4], 0x69);
}

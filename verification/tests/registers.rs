use cd_rhdl::clocking::ClockReset;
use cd_rhdl::register::{register_kernel, RegInput, Register, RegisterInput};
use cd_rhdl::register_file::{reg, reg_file, rtb, Reg, RegFile};

const CR: ClockReset = ClockReset { clock: true, reset: false };

#[test]
fn register_fields_round_trip() {
    let all = [Reg::RA, Reg::RB, Reg::RC, Reg::SP, Reg::XA, Reg::XB, Reg::BA, Reg::BB];
    for (i, r) in all.iter().enumerate() {
        assert_eq!(rtb(*r), i as u8);
        assert_eq!(reg(i as u8), *r);
        assert_eq!(reg(rtb(*r)), *r);
    }
    // a value a 3-bit field cannot hold reads as RA
    assert_eq!(reg(8), Reg::RA);
    assert_eq!(reg(255), Reg::RA);
}

#[test]
fn reg_file_write_then_read() {
    let q = RegFile::default();
    let w = RegInput { data_in: 0x69, oe: false, we: true };
    let (o, q1) = reg_file(CR, (w, Reg::XA), q);
    assert_eq!(o, 0);
    let rd = RegInput { data_in: 0, oe: true, we: false };
    let (o, q2) = reg_file(CR, (rd, Reg::XA), q1);
    assert_eq!(o, 0x69);
    // other registers are untouched
    for r in [Reg::RA, Reg::RB, Reg::RC, Reg::SP, Reg::XB, Reg::BA, Reg::BB] {
        assert_eq!(reg_file(CR, (rd, r), q2).0, 0);
    }
    // reading and writing at once drives nothing and writes
    let rw = RegInput { data_in: 7, oe: true, we: true };
    let (o, q3) = reg_file(CR, (rw, Reg::XA), q2);
    assert_eq!(o, 0);
    assert_eq!(reg_file(CR, (rd, Reg::XA), q3).0, 7);
    // without output enable nothing is driven
    let idle = RegInput::default();
    assert_eq!(reg_file(CR, (idle, Reg::XA), q3).0, 0);
}

#[test]
fn reg_file_write_ja_word() {
    // the decoder is consulted on the data input; a word decoding to a
    // conditional jump is stored like any other value
    let q = RegFile::default();
    let w = RegInput { data_in: 0x0019, oe: false, we: true };
    let (_, q1) = reg_file(CR, (w, Reg::RA), q);
    let rd = RegInput { data_in: 0, oe: true, we: false };
    assert_eq!(reg_file(CR, (rd, Reg::RA), q1).0, 0x0019);
}

#[test]
fn bus_register_cycle() {
    let q = Register::default();
    assert_eq!(q.memory, 0);
    let (o, q1) = register_kernel(CR, RegisterInput { oe: false, we: true, data_in: 15 }, q);
    assert_eq!((o, q1.memory), (0, 15));
    let (o, q2) = register_kernel(CR, RegisterInput { oe: true, we: false, data_in: 15 }, q1);
    assert_eq!((o, q2.memory), (15, 15));
    let (o, q3) = register_kernel(CR, RegisterInput { oe: false, we: false, data_in: 3 }, q2);
    assert_eq!((o, q3.memory), (0, 15));
}

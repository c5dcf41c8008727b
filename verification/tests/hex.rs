use cd_rhdl::cpu::cpu_test::hex;

#[test]
fn hex_pads_to_four_upper_case_digits() {
    assert_eq!(hex(0), "0000");
    assert_eq!(hex(0x31), "0031");
    assert_eq!(hex(0x69), "0069");
    assert_eq!(hex(0xbeef), "BEEF");
    assert_eq!(hex(0x3ff), "03FF");
    assert_eq!(hex(0x12345), "12345");
    assert_eq!(hex(u128::MAX), "FFFFFFFFFFFFFFFFFFFFFFFFFFFFFFFF");
    for v in [1u128, 9, 10, 15, 16, 255, 4096, 65535, 65536, 0xdeadbeef] {
        assert_eq!(hex(v), format!("{:04X}", v));
    }
}

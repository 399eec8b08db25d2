use abduction::gameboy::cpu::{ByteRegister, CpuFlag, Registers, WordRegister};

#[test]
fn registers_start_with_stack_at_fffe() {
    let r = Registers::new();
    assert_eq!(r.get_reg_16(WordRegister::SP), 0xFFFE);
    assert_eq!(r.get_reg_16(WordRegister::PC), 0x0000);
    assert_eq!(r.get_reg_16(WordRegister::AF), 0);
}

#[test]
fn register_pairs_are_high_byte_first() {
    let mut r = Registers::new();
    r.set_reg_16(WordRegister::BC, 0x1234);
    assert_eq!(r.get_reg_8(ByteRegister::B), 0x12);
    assert_eq!(r.get_reg_8(ByteRegister::C), 0x34);
    r.set_reg_8(ByteRegister::H, 0xAB);
    r.set_reg_8(ByteRegister::L, 0xCD);
    assert_eq!(r.get_reg_16(WordRegister::HL), 0xABCD);
}

#[test]
fn low_nibble_of_f_is_always_zero() {
    let mut r = Registers::new();
    r.set_reg_16(WordRegister::AF, 0x12FF);
    assert_eq!(r.get_reg_16(WordRegister::AF), 0x12F0);
    r.set_reg_8(ByteRegister::F, 0x3C);
    assert_eq!(r.get_reg_8(ByteRegister::F), 0x30);
}

#[test]
fn flags_are_set_and_cleared_one_by_one() {
    let mut r = Registers::new();
    r.set_flag(CpuFlag::Zero, true);
    r.set_flag(CpuFlag::Carry, true);
    assert_eq!(r.get_reg_8(ByteRegister::F), 0x90);
    assert!(r.get_flag(CpuFlag::Zero));
    assert!(!r.get_flag(CpuFlag::Negative));
    assert!(!r.get_flag(CpuFlag::Half));
    assert!(r.get_flag(CpuFlag::Carry));
    r.set_flag(CpuFlag::Zero, false);
    assert_eq!(r.get_reg_8(ByteRegister::F), 0x10);
}

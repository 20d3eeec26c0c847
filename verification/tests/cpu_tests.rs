use gabe_core::cpu::Cpu;
use gabe_core::registers::{Flag, Registers};

#[test]
fn register_read() {
    let reg = Registers::power_on();

    assert_eq!(reg.a, 0x01);
    assert_eq!(reg.f, 0xB0);
    assert_eq!(reg.b, 0x00);
    assert_eq!(reg.c, 0x13);
    assert_eq!(reg.d, 0x00);
    assert_eq!(reg.e, 0xD8);
    assert_eq!(reg.h, 0x01);
    assert_eq!(reg.l, 0x4D);
    assert_eq!(reg.sp, 0xFFFE);
    assert_eq!(reg.pc, 0x0100);

    assert_eq!(reg.get_af(), 0x01B0);
    assert_eq!(reg.get_bc(), 0x0013);
    assert_eq!(reg.get_de(), 0x00D8);
    assert_eq!(reg.get_hl(), 0x014D);
}

#[test]
fn register_write() {
    let mut reg = Registers::power_on();

    reg.set_af(0x1234);
    reg.set_bc(0x5678);
    reg.set_de(0x9001);
    reg.set_hl(0x2345);
    assert_eq!(reg.a, 0x12);
    // F's low nibble is wired to zero, so the written 0x34 reads back 0x30.
    assert_eq!(reg.f, 0x30);
    assert_eq!(reg.b, 0x56);
    assert_eq!(reg.c, 0x78);
    assert_eq!(reg.d, 0x90);
    assert_eq!(reg.e, 0x01);
    assert_eq!(reg.h, 0x23);
    assert_eq!(reg.l, 0x45);
}

#[test]
fn rl_test() {
    let mut cpu = Cpu::power_on();
    let mut v = cpu.rl(0b0110_0101);
    assert_eq!(v, 0b1100_1011);
    assert_eq!(cpu.reg.get_flag(Flag::C), false);
    v = cpu.rl(0b1100_1011);
    assert_eq!(v, 0b1001_0110);
    assert_eq!(cpu.reg.get_flag(Flag::C), true);
    v = cpu.rl(0b1001_0110);
    assert_eq!(v, 0b0010_1101);
    assert_eq!(cpu.reg.get_flag(Flag::C), true);
}

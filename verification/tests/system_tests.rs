use gabe_core::cartridge::Cartridge;
use gabe_core::cartridge::CartridgeError;
use gabe_core::cpu::Cpu;
use gabe_core::interrupt::InterruptKind;
use gabe_core::mmu::Mmu;
use gabe_core::vram::{LCDMode, Vram};

fn make_rom(mbc: u8, size_code: u8) -> Vec<u8> {
    let len = 0x8000usize << size_code;
    let mut rom = vec![0u8; len];
    rom[0x147] = mbc;
    rom[0x148] = size_code;
    rom[0x149] = 0;
    let mut x: u8 = 0;
    for i in 0x134..0x14D {
        x = x.wrapping_sub(rom[i]).wrapping_sub(1);
    }
    rom[0x14D] = x;
    rom
}

fn machine(rom: Vec<u8>) -> (Cpu, Mmu) {
    let cart = Cartridge::power_on(rom, None).expect("valid image");
    (Cpu::power_on(), Mmu::power_on(cart))
}

#[test]
fn ld_a_immediate_step() {
    let mut rom = make_rom(0, 0);
    rom[0x100] = 0x3E;
    rom[0x101] = 0x42;
    let (mut cpu, mut mmu) = machine(rom);
    let cycles = cpu.tick(&mut mmu);
    assert_eq!(cpu.reg.a, 0x42);
    assert_eq!(cpu.reg.pc, 0x0102);
    assert_eq!(cycles, 8);
}

#[test]
fn inc_a_half_carry() {
    let mut rom = make_rom(0, 0);
    rom[0x100] = 0x3C;
    let (mut cpu, mut mmu) = machine(rom);
    cpu.reg.a = 0x0F;
    cpu.reg.f = 0x00;
    cpu.tick(&mut mmu);
    assert_eq!(cpu.reg.a, 0x10);
    assert_eq!(cpu.reg.f, 0x20);
}

#[test]
fn sub_c_to_zero() {
    let mut rom = make_rom(0, 0);
    rom[0x100] = 0x91;
    let (mut cpu, mut mmu) = machine(rom);
    cpu.reg.a = 0x01;
    cpu.reg.c = 0x01;
    cpu.reg.f = 0x00;
    cpu.tick(&mut mmu);
    assert_eq!(cpu.reg.a, 0x00);
    assert_eq!(cpu.reg.f, 0xC0);
}

#[test]
fn interrupt_dispatch_vblank() {
    let rom = make_rom(0, 0);
    let (mut cpu, mut mmu) = machine(rom);
    cpu.ime = true;
    mmu.intr.write_enable(0x01);
    mmu.intr.write_flags(0x01);
    cpu.reg.pc = 0x1234;
    cpu.reg.sp = 0xFFFE;
    let cycles = cpu.tick(&mut mmu);
    assert_eq!(cpu.reg.pc, 0x0040);
    assert_eq!(cpu.reg.sp, 0xFFFC);
    assert_eq!(mmu.read_byte(0xFFFC), 0x34);
    assert_eq!(mmu.read_byte(0xFFFD), 0x12);
    assert_eq!(mmu.intr.read_flags(), 0xE0);
    assert!(!cpu.ime);
    assert_eq!(cycles, 20);
}

#[test]
fn mbc1_bank_select() {
    let mut rom = make_rom(0x01, 2);
    rom[5 * 0x4000] = 0xAB;
    let (_, mut mmu) = machine(rom);
    mmu.write_byte(0x2000, 0x05);
    assert_eq!(mmu.read_byte(0x4000), 0xAB);
}

#[test]
fn if_upper_bits_and_independence() {
    let rom = make_rom(0, 0);
    let (_, mut mmu) = machine(rom);
    mmu.write_byte(0xFF0F, 0x00);
    assert_eq!(mmu.read_byte(0xFF0F), 0xE0);
    for bit in 0..5u8 {
        mmu.write_byte(0xFF0F, 1 << bit);
        assert_eq!(mmu.read_byte(0xFF0F), 0xE0 | (1 << bit));
    }
    mmu.write_byte(0xFF0F, 0xFF);
    assert_eq!(mmu.read_byte(0xFF0F), 0xFF);
}

#[test]
fn stack_push_pop_round_trip() {
    let rom = make_rom(0, 0);
    let (mut cpu, mut mmu) = machine(rom);
    cpu.reg.sp = 0xD000;
    cpu.stack_push(&mut mmu, 0xBEEF);
    assert_eq!(cpu.reg.sp, 0xCFFE);
    let v = cpu.stack_pop(&mut mmu);
    assert_eq!(v, 0xBEEF);
    assert_eq!(cpu.reg.sp, 0xD000);
}

#[test]
fn frame_timing_one_vblank() {
    let mut ppu = Vram::power_on();
    let mut dots: usize = 0;
    let mut vblanks: usize = 0;
    while dots < 70224 {
        if let Some(ints) = ppu.update(4) {
            vblanks += ints.iter().filter(|k| **k == InterruptKind::VBlank).count();
        }
        dots += 4;
        let frame_due = dots >= 65664 && dots < 70224;
        assert_eq!(ppu.request_frame().is_some(), frame_due, "at dot {}", dots);
    }
    assert_eq!(vblanks, 1);
}

#[test]
fn register_pair_round_trip_values() {
    let mut cpu = Cpu::power_on();
    cpu.reg.set_bc(0xABCD);
    assert_eq!(cpu.reg.get_bc(), 0xABCD);
    cpu.reg.set_de(0x1357);
    assert_eq!(cpu.reg.get_de(), 0x1357);
    cpu.reg.set_hl(0xFFFF);
    assert_eq!(cpu.reg.get_hl(), 0xFFFF);
    cpu.reg.set_af(0x2460);
    assert_eq!(cpu.reg.get_af(), 0x2460);
    // The AF round trip masks F's grounded low nibble.
    cpu.reg.set_af(0x246F);
    assert_eq!(cpu.reg.get_af(), 0x2460);
}

#[test]
fn lcdc_round_trip_value() {
    let mut ppu = Vram::power_on();
    ppu.write_byte(0xFF40, 0xA5);
    assert_eq!(ppu.read_byte(0xFF40), 0xA5);
    // Bit 7 stayed high, so the controller is still in its power-on mode.
    assert_eq!(ppu.stat.mode_flag, LCDMode::Mode2);
    // Clearing bit 7 parks the controller at the top of the frame.
    ppu.write_byte(0xFF40, 0x25);
    assert_eq!(ppu.read_byte(0xFF40), 0x25);
    assert_eq!(ppu.stat.mode_flag, LCDMode::Mode0);
    assert_eq!(ppu.ly, 0);
    ppu.write_byte(0xFF47, 0x1B);
    assert_eq!(ppu.read_byte(0xFF47), 0x1B);
}

#[test]
fn rejected_images() {
    let short = vec![0u8; 0x100];
    match Cartridge::power_on(short, None) {
        Err(e) => assert_eq!(e, CartridgeError::SizeMismatch),
        Ok(_) => panic!("short image accepted"),
    }
    let mut bad_sum = make_rom(0, 0);
    bad_sum[0x14D] = bad_sum[0x14D].wrapping_add(1);
    match Cartridge::power_on(bad_sum, None) {
        Err(e) => assert_eq!(e, CartridgeError::HeaderChecksum),
        Ok(_) => panic!("bad checksum accepted"),
    }
    let weird = make_rom(0x20, 0);
    match Cartridge::power_on(weird, None) {
        Err(e) => assert_eq!(e, CartridgeError::UnsupportedMbc),
        Ok(_) => panic!("unknown controller accepted"),
    }
}

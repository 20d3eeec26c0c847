use gabe_core::cartridge::Cartridge;
use gabe_core::cpu::Cpu;
use gabe_core::mmu::Mmu;
use gabe_core::timer::Timer;
use gabe_core::vram::Vram;

fn make_rom_with_ram(mbc: u8, size_code: u8, ram_code: u8) -> Vec<u8> {
    let len = 0x8000usize << size_code;
    let mut rom = vec![0u8; len];
    rom[0x147] = mbc;
    rom[0x148] = size_code;
    rom[0x149] = ram_code;
    let mut x: u8 = 0;
    for i in 0x134..0x14D {
        x = x.wrapping_sub(rom[i]).wrapping_sub(1);
    }
    rom[0x14D] = x;
    rom
}

fn machine(rom: Vec<u8>) -> (Cpu, Mmu) {
    let cart = Cartridge::power_on(rom, None).expect("valid image");
    (Cpu::power_on(), Mmu::power_on(cart))
}

#[test]
fn timer_overflow_reloads_tma() {
    let mut t = Timer::power_on();
    t.write_byte(0xFF06, 0x42);
    t.write_byte(0xFF07, 0x05);
    t.write_byte(0xFF05, 0xFE);
    let raised = t.update(32);
    assert!(raised);
    assert_eq!(t.read_byte(0xFF05), 0x42);
}

#[test]
fn timer_div_counts_and_resets() {
    let mut t = Timer::power_on();
    t.update(256);
    assert_eq!(t.read_byte(0xFF04), 1);
    t.update(512);
    assert_eq!(t.read_byte(0xFF04), 3);
    t.write_byte(0xFF04, 0x77);
    assert_eq!(t.read_byte(0xFF04), 0);
}

#[test]
fn timer_interrupt_reaches_if() {
    let rom = make_rom_with_ram(0, 0, 0);
    let (_, mut mmu) = machine(rom);
    mmu.write_byte(0xFF06, 0x00);
    mmu.write_byte(0xFF07, 0x05);
    mmu.write_byte(0xFF05, 0xFF);
    mmu.update(16);
    assert_eq!(mmu.read_byte(0xFF0F) & 0x04, 0x04);
}

#[test]
fn joypad_matrix_read() {
    let rom = make_rom_with_ram(0, 0, 0);
    let (_, mut mmu) = machine(rom);
    // Select the action group (bit 5 low) and press A.
    mmu.write_byte(0xFF00, 0x10);
    mmu.joypad.update_key_state(gabe_core::joypad::GbKeys::A, true);
    assert_eq!(mmu.read_byte(0xFF00), 0xDE);
    // Releasing A raises the line again.
    mmu.joypad.update_key_state(gabe_core::joypad::GbKeys::A, false);
    assert_eq!(mmu.read_byte(0xFF00), 0xDF);
}

#[test]
fn joypad_press_raises_interrupt() {
    let rom = make_rom_with_ram(0, 0, 0);
    let cart = Cartridge::power_on(rom, None).unwrap();
    let mut gb = gabe_core::gameboy::Gameboy {
        cpu: Cpu::power_on(),
        mmu: Mmu::power_on(cart),
    };
    gb.mmu.write_byte(0xFF00, 0x10);
    gb.update_key_state(gabe_core::joypad::GbKeys::B, true);
    assert_eq!(gb.mmu.read_byte(0xFF0F) & 0x10, 0x10);
}

#[test]
fn oam_dma_copies_and_blacks_out() {
    let rom = make_rom_with_ram(0, 0, 0);
    let (_, mut mmu) = machine(rom);
    for i in 0..160u16 {
        mmu.write_byte(0xC000 + i, i as u8);
    }
    mmu.write_byte(0xFF46, 0xC0);
    for i in 0..160usize {
        assert_eq!(mmu.ppu.oam[i], i as u8);
    }
    // While the transfer runs, the bus answers 0xFF outside high RAM.
    assert_eq!(mmu.read_byte(0xC000), 0xFF);
    mmu.write_byte(0xFF80, 0x5A);
    assert_eq!(mmu.read_byte(0xFF80), 0x5A);
    // After 640 cycles the bus opens up again.
    mmu.update(455);
    mmu.update(185);
    assert_eq!(mmu.read_byte(0xC000), 0x00);
}

#[test]
fn echo_ram_mirrors_wram() {
    let rom = make_rom_with_ram(0, 0, 0);
    let (_, mut mmu) = machine(rom);
    mmu.write_byte(0xC123, 0xAB);
    assert_eq!(mmu.read_byte(0xE123), 0xAB);
    mmu.write_byte(0xE456, 0xCD);
    assert_eq!(mmu.read_byte(0xC456), 0xCD);
}

#[test]
fn cartridge_ram_enable_gate() {
    let rom = make_rom_with_ram(0x03, 0, 3);
    let (_, mut mmu) = machine(rom);
    // Disabled RAM drops writes and reads 0xFF.
    mmu.write_byte(0xA000, 0x11);
    assert_eq!(mmu.read_byte(0xA000), 0xFF);
    // A low nibble of 0xA in 0x0000..0x2000 enables it.
    mmu.write_byte(0x0000, 0x0A);
    mmu.write_byte(0xA000, 0x11);
    assert_eq!(mmu.read_byte(0xA000), 0x11);
    // Any other value disables it again.
    mmu.write_byte(0x0000, 0x00);
    assert_eq!(mmu.read_byte(0xA000), 0xFF);
}

#[test]
fn mbc5_nine_bit_bank() {
    let mut rom = make_rom_with_ram(0x19, 8, 0);
    rom[0x103 * 0x4000] = 0x77;
    let (_, mut mmu) = machine(rom);
    mmu.write_byte(0x2000, 0x03);
    mmu.write_byte(0x3000, 0x01);
    assert_eq!(mmu.read_byte(0x4000), 0x77);
}

#[test]
fn mbc3_linear_bank() {
    let mut rom = make_rom_with_ram(0x11, 3, 0);
    rom[0x0D * 0x4000] = 0x66;
    let (_, mut mmu) = machine(rom);
    mmu.write_byte(0x2000, 0x0D);
    assert_eq!(mmu.read_byte(0x4000), 0x66);
}

#[test]
fn halt_wakes_on_pending_interrupt() {
    let rom = make_rom_with_ram(0, 0, 0);
    let (mut cpu, mut mmu) = machine(rom);
    cpu.halted = true;
    cpu.ime = false;
    let cycles = cpu.tick(&mut mmu);
    assert_eq!(cycles, 4);
    assert!(cpu.halted);
    mmu.intr.write_enable(0x04);
    mmu.intr.write_flags(0x04);
    let cycles = cpu.tick(&mut mmu);
    assert_eq!(cycles, 4);
    assert!(!cpu.halted);
    assert!(!cpu.ime);
}

#[test]
fn ei_enables_after_one_instruction() {
    let mut rom = make_rom_with_ram(0, 0, 0);
    rom[0x100] = 0xFB;
    rom[0x101] = 0x00;
    let (mut cpu, mut mmu) = machine(rom);
    mmu.intr.write_enable(0x01);
    mmu.intr.write_flags(0x01);
    // EI itself does not dispatch.
    assert_eq!(cpu.tick(&mut mmu), 4);
    // Neither does the instruction right after it.
    assert_eq!(cpu.tick(&mut mmu), 4);
    assert!(cpu.ime);
    // The next step services the interrupt.
    assert_eq!(cpu.tick(&mut mmu), 20);
    assert_eq!(cpu.reg.pc, 0x0040);
}

#[test]
fn cb_swap_and_bit() {
    let mut rom = make_rom_with_ram(0, 0, 0);
    rom[0x100] = 0xCB;
    rom[0x101] = 0x37;
    rom[0x102] = 0xCB;
    rom[0x103] = 0x7F;
    let (mut cpu, mut mmu) = machine(rom);
    cpu.reg.a = 0xF0;
    cpu.reg.f = 0x00;
    let cycles = cpu.tick(&mut mmu);
    assert_eq!(cycles, 8);
    assert_eq!(cpu.reg.a, 0x0F);
    assert_eq!(cpu.reg.f, 0x00);
    // BIT 7,A on 0x0F: the bit is clear, so Z sets; H always sets.
    cpu.tick(&mut mmu);
    assert_eq!(cpu.reg.f, 0xA0);
}

#[test]
fn daa_after_bcd_addition() {
    let mut rom = make_rom_with_ram(0, 0, 0);
    rom[0x100] = 0xC6;
    rom[0x101] = 0x38;
    rom[0x102] = 0x27;
    let (mut cpu, mut mmu) = machine(rom);
    cpu.reg.a = 0x45;
    cpu.reg.f = 0x00;
    cpu.tick(&mut mmu);
    assert_eq!(cpu.reg.a, 0x7D);
    cpu.tick(&mut mmu);
    assert_eq!(cpu.reg.a, 0x83);
    assert_eq!(cpu.reg.f & 0x10, 0x00);
}

#[test]
fn background_renders_palette_shade() {
    let mut ppu = Vram::power_on();
    // Tile 0, row 0: low-plane bits all set, color number 1 everywhere.
    ppu.write_byte(0x8000, 0xFF);
    ppu.write_byte(0x8001, 0x00);
    // BGP 0xE4 maps color 1 to light gray.
    ppu.write_byte(0xFF47, 0xE4);
    // Walk line 0 into horizontal blank, which renders it.
    ppu.update(252);
    assert_eq!(ppu.screen_data[0], 170);
    assert_eq!(ppu.screen_data[1], 170);
    assert_eq!(ppu.screen_data[2], 170);
    // Row 1 of the tile is blank, so the next scanline renders white.
    ppu.update(204);
    ppu.update(252);
    assert_eq!(ppu.screen_data[480], 255);
}

#[test]
fn sprite_overlays_background() {
    let mut ppu = Vram::power_on();
    // Sprites on, 8x8; background off shows white.
    ppu.write_byte(0xFF40, 0x82);
    // Sprite 0 at screen (0,0), tile 0, no flips, palette 0.
    ppu.write_byte(0xFE00, 16);
    ppu.write_byte(0xFE01, 8);
    ppu.write_byte(0xFE02, 0);
    ppu.write_byte(0xFE03, 0);
    // Tile 0, row 0: color 1; OBP0 maps color 1 to light gray.
    ppu.write_byte(0x8000, 0xFF);
    ppu.write_byte(0x8001, 0x00);
    ppu.write_byte(0xFF48, 0xE4);
    ppu.update(252);
    // The sprite's eight columns; the ninth is bare background.
    assert_eq!(ppu.screen_data[0], 170);
    assert_eq!(ppu.screen_data[7 * 3], 170);
    assert_eq!(ppu.screen_data[8 * 3], 255);
}

#[test]
fn window_line_counter_is_lazy() {
    let mut ppu = Vram::power_on();
    // LCD on, window on at (7, 2), 0x8000 tile data, background off.
    ppu.write_byte(0xFF40, 0xB0);
    ppu.write_byte(0xFF4A, 2);
    ppu.write_byte(0xFF4B, 7);
    // Tile 0: row 0 color 1, row 1 color 2, row 2 color 3.
    ppu.write_byte(0x8000, 0xFF);
    ppu.write_byte(0x8001, 0x00);
    ppu.write_byte(0x8002, 0x00);
    ppu.write_byte(0x8003, 0xFF);
    ppu.write_byte(0x8004, 0xFF);
    ppu.write_byte(0x8005, 0xFF);
    // BGP 0xE4: colors 0..=3 as white, light gray, dark gray, black.
    ppu.write_byte(0xFF47, 0xE4);

    // Lines 0 and 1 sit above the window: bare white.
    ppu.update(252);
    ppu.update(204);
    ppu.update(252);
    ppu.update(204);
    assert_eq!(ppu.screen_data[0], 255);
    // Line 2 is the window's first: its private counter is 0, tile row 0.
    ppu.update(252);
    ppu.update(204);
    assert_eq!(ppu.screen_data[2 * 480], 170);
    // Line 3 draws window row 1.
    ppu.update(252);
    ppu.update(204);
    assert_eq!(ppu.screen_data[3 * 480], 85);
    // Switch the window off for two lines: the counter must stand still.
    ppu.write_byte(0xFF40, 0x90);
    ppu.update(252);
    ppu.update(204);
    ppu.update(252);
    ppu.update(204);
    assert_eq!(ppu.screen_data[4 * 480], 255);
    assert_eq!(ppu.screen_data[5 * 480], 255);
    // Back on for line 6: the window resumes at its own row 2, not at
    // a row derived from the scanline.
    ppu.write_byte(0xFF40, 0xB0);
    ppu.update(252);
    ppu.update(204);
    assert_eq!(ppu.screen_data[6 * 480], 0);
}

#[test]
fn conditional_jump_cycle_cost() {
    let mut rom = make_rom_with_ram(0, 0, 0);
    // JR NZ,+2 twice: first with Z set (not taken), then clear (taken).
    rom[0x100] = 0x20;
    rom[0x101] = 0x02;
    rom[0x102] = 0x20;
    rom[0x103] = 0x02;
    let (mut cpu, mut mmu) = machine(rom);
    cpu.reg.f = 0x80;
    assert_eq!(cpu.tick(&mut mmu), 8);
    assert_eq!(cpu.reg.pc, 0x0102);
    cpu.reg.f = 0x00;
    assert_eq!(cpu.tick(&mut mmu), 12);
    assert_eq!(cpu.reg.pc, 0x0106);
}

#[test]
fn hl_pointer_instructions() {
    let mut rom = make_rom_with_ram(0, 0, 0);
    rom[0x100] = 0x36; // LD (HL),d8
    rom[0x101] = 0x41;
    rom[0x102] = 0x34; // INC (HL)
    rom[0x103] = 0x7E; // LD A,(HL)
    let (mut cpu, mut mmu) = machine(rom);
    cpu.reg.set_hl(0xC800);
    assert_eq!(cpu.tick(&mut mmu), 12);
    assert_eq!(mmu.read_byte(0xC800), 0x41);
    assert_eq!(cpu.tick(&mut mmu), 12);
    assert_eq!(mmu.read_byte(0xC800), 0x42);
    assert_eq!(cpu.tick(&mut mmu), 8);
    assert_eq!(cpu.reg.a, 0x42);
}

#[test]
fn vram_locked_during_pixel_transfer() {
    let rom = make_rom_with_ram(0, 0, 0);
    let (_, mut mmu) = machine(rom);
    mmu.write_byte(0x8000, 0x55);
    assert_eq!(mmu.read_byte(0x8000), 0x55);
    // Advance into mode 3: reads return 0xFF and writes are dropped.
    mmu.update(100);
    assert_eq!(mmu.ppu.stat.mode_flag, gabe_core::vram::LCDMode::Mode3);
    assert_eq!(mmu.read_byte(0x8000), 0xFF);
    mmu.write_byte(0x8000, 0x99);
    // In horizontal blank the cell shows the unchanged value.
    mmu.update(200);
    assert_eq!(mmu.ppu.stat.mode_flag, gabe_core::vram::LCDMode::Mode0);
    assert_eq!(mmu.read_byte(0x8000), 0x55);
}

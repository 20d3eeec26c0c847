//! The whole machine: the processor and the bus it drives. One step runs
//! one instruction (or one interrupt service) and advances every clocked
//! device by exactly that instruction's cycles.

use crate::cartridge::checksum_to;
use crate::cartridge::declared_ram_len;
use crate::cartridge::declared_rom_len;
use crate::cartridge::mbc_of_code;
use crate::cartridge::Cartridge;
use crate::cartridge::CartridgeError;
use crate::cpu::dispatch_ready;
use crate::cpu::supported_opcode;
use crate::cpu::Cpu;
use crate::interrupt::InterruptKind;
use crate::joypad::is_action_key;
use crate::joypad::key_bit;
use crate::joypad::GbKeys;
use crate::mmu::Mmu;
use crate::vram::LCDMode;
use vstd::prelude::*;

verus! {

/// The machine: one processor, one bus.
pub struct Gameboy {
    /// The SM83 core.
    pub cpu: Cpu,
    /// The bus and every device on it.
    pub mmu: Mmu,
}

impl Gameboy {
    /// Both halves well-formed.
    pub open spec fn wf(self) -> bool {
        &&& self.cpu.wf()
        &&& self.mmu.wf()
    }

    /// Whether the next step is defined: an interrupt is about to be
    /// serviced, the core idles halted, or the opcode under PC decodes.
    /// Running into STOP or an opcode-map hole is fatal, as the host
    /// decides.
    pub open spec fn step_safe(self) -> bool {
        dispatch_ready(self.cpu, self.mmu) || self.cpu.halted || supported_opcode(
            self.mmu.spec_read(self.cpu.reg.pc),
        )
    }

    /// Build the machine around a ROM image and an optional save-RAM
    /// image. Exactly the images the cartridge parser accepts yield a
    /// machine; the rest come back as the parser's error.
    pub fn power_on(rom: Vec<u8>, save: Option<Vec<u8>>) -> (r: Result<Self, CartridgeError>)
        ensures
            rom.len() < 0x150 ==> r == Err::<Self, CartridgeError>(CartridgeError::SizeMismatch),
            rom.len() >= 0x150 && checksum_to(rom@, 0x14D) != rom[0x14D as int] ==> r == Err::<
                Self,
                CartridgeError,
            >(CartridgeError::HeaderChecksum),
            rom.len() >= 0x150 && checksum_to(rom@, 0x14D) == rom[0x14D as int] && mbc_of_code(
                rom[0x147],
            ) is None ==> r == Err::<Self, CartridgeError>(CartridgeError::UnsupportedMbc),
            rom.len() >= 0x150 && checksum_to(rom@, 0x14D) == rom[0x14D as int] && mbc_of_code(
                rom[0x147],
            ) is Some && (rom[0x148] > 8 || rom.len() != declared_rom_len(rom[0x148])
                || rom[0x149] > 5) ==> r == Err::<Self, CartridgeError>(
                CartridgeError::SizeMismatch,
            ),
            rom.len() >= 0x150 && checksum_to(rom@, 0x14D) == rom[0x14D as int] && mbc_of_code(
                rom[0x147],
            ) is Some && rom[0x148] <= 8 && rom.len() == declared_rom_len(rom[0x148])
                && rom[0x149] <= 5 ==> {
                &&& r is Ok
                &&& r->Ok_0.wf()
                &&& r->Ok_0.mmu.cart.rom@ == rom@
                &&& Some((r->Ok_0.mmu.cart.kind, r->Ok_0.mmu.cart.has_battery)) == mbc_of_code(
                    rom[0x147],
                )
                &&& r->Ok_0.mmu.cart.ram.len() == declared_ram_len(rom[0x149])
                &&& r->Ok_0.cpu.reg.pc == 0x0100
                &&& r->Ok_0.cpu.reg.sp == 0xFFFE
                &&& !r->Ok_0.cpu.ime
                &&& !r->Ok_0.cpu.halted
                &&& r->Ok_0.mmu.ppu.ly == 0
                &&& r->Ok_0.mmu.intr.iflags == 0
                &&& r->Ok_0.mmu.intr.ienable == 0
            },
    {
        match Cartridge::power_on(rom, save) {
            Err(e) => Err(e),
            Ok(cart) => Ok(Gameboy { cpu: Cpu::power_on(), mmu: Mmu::power_on(cart) }),
        }
    }

    /// Whether the next step is defined, as the host checks it before
    /// calling `step`.
    pub fn can_step(&self) -> (r: bool)
        requires
            self.wf(),
        ensures
            r == self.step_safe(),
    {
        let pending = self.mmu.intr.pending();
        if self.cpu.ime && pending != 0 {
            true
        } else if self.cpu.halted {
            true
        } else {
            let op = self.mmu.read_byte(self.cpu.reg.pc);
            !(op == 0x10 || op == 0xD3 || op == 0xDB || op == 0xDD || op == 0xE3 || op == 0xE4
                || op == 0xEB || op == 0xEC || op == 0xED || op == 0xF4 || op == 0xFC || op
                == 0xFD)
        }
    }

    /// The opcode the next step would fetch, for the host's fatal report.
    pub fn next_opcode(&self) -> (r: (u16, u8))
        requires
            self.wf(),
        ensures
            r.0 == self.cpu.reg.pc,
            r.1 == self.mmu.spec_read(self.cpu.reg.pc),
    {
        (self.cpu.reg.pc, self.mmu.read_byte(self.cpu.reg.pc))
    }

    /// Run one step: one interrupt service, one halted idle, or one
    /// instruction, then advance the clocked devices by its cycles. The
    /// post-state is the processor step's effect on the core and bus,
    /// followed by the cycle fan-out to the clocked devices. An interrupt
    /// service takes exactly twenty cycles.
    pub fn step(&mut self) -> (cycles: usize)
        requires
            old(self).wf(),
            old(self).step_safe(),
        ensures
            final(self).wf(),
            4 <= cycles <= 24,
            dispatch_ready(old(self).cpu, old(self).mmu) ==> cycles == 20,
            exists|m_mid: Mmu|
                #[trigger] crate::cpu::tick_effect(
                    old(self).cpu,
                    old(self).mmu,
                    final(self).cpu,
                    m_mid,
                    cycles,
                ) && crate::mmu::update_effect(m_mid, final(self).mmu, cycles),
            !dispatch_ready(old(self).cpu, old(self).mmu) && old(self).cpu.halted ==> cycles == 4,
            !dispatch_ready(old(self).cpu, old(self).mmu) && !old(self).cpu.halted && old(
                self,
            ).mmu.spec_read(old(self).cpu.reg.pc) != 0xCB ==> cycles
                == crate::cpu::opcode_base_cycles(old(self).mmu.spec_read(old(self).cpu.reg.pc))
                + (if crate::cpu::branch_taken(
                old(self).mmu.spec_read(old(self).cpu.reg.pc),
                old(self).cpu.reg,
            ) {
                crate::cpu::cond_extra(old(self).mmu.spec_read(old(self).cpu.reg.pc))
            } else {
                0int
            }),
    {
        let c = self.cpu.tick(&mut self.mmu);
        let ghost m_mid = self.mmu;
        self.mmu.update(c);
        proof {
            assert(crate::cpu::tick_effect(old(self).cpu, old(self).mmu, self.cpu, m_mid, c)
                && crate::mmu::update_effect(m_mid, self.mmu, c));
        }
        c
    }

    /// Press or release a key; a selected matrix line falling raises the
    /// joypad interrupt.
    pub fn update_key_state(&mut self, key: GbKeys, pressed: bool)
        requires
            old(self).wf(),
        ensures
            final(self).wf(),
            final(self).cpu == old(self).cpu,
            is_action_key(key) ==> final(self).mmu.joypad.action_pressed == (if pressed {
                old(self).mmu.joypad.action_pressed | key_bit(key)
            } else {
                old(self).mmu.joypad.action_pressed & !key_bit(key)
            }),
            !is_action_key(key) ==> final(self).mmu.joypad.direction_pressed == (if pressed {
                old(self).mmu.joypad.direction_pressed | key_bit(key)
            } else {
                old(self).mmu.joypad.direction_pressed & !key_bit(key)
            }),
            final(self).mmu.joypad.select == old(self).mmu.joypad.select,
            final(self).mmu.intr.iflags == (if old(self).mmu.joypad.spec_low_nibble() & !final(self).mmu.joypad.spec_low_nibble() & 0x0F != 0 {
                old(self).mmu.intr.iflags | 0x10
            } else {
                old(self).mmu.intr.iflags
            }),
            final(self).mmu.intr.ienable == old(self).mmu.intr.ienable,
            final(self).mmu == (Mmu {
                joypad: final(self).mmu.joypad,
                intr: final(self).mmu.intr,
                ..old(self).mmu
            }),
    {
        let raised = self.mmu.joypad.update_key_state(key, pressed);
        if raised {
            self.mmu.intr.raise(InterruptKind::Joypad);
        }
    }

    /// The frame due for display, if the controller is in vertical blank;
    /// plain white with the LCD switched off.
    pub fn request_frame(&self) -> (r: Option<Vec<u8>>)
        requires
            self.wf(),
        ensures
            !self.mmu.ppu.lcdc.lcd_enable ==> r is Some && r->0@ == Seq::<u8>::new(
                crate::vram::FRAME_BYTES as nat,
                |i: int| 255u8,
            ),
            self.mmu.ppu.lcdc.lcd_enable && self.mmu.ppu.stat.mode_flag == LCDMode::Mode1 ==> r
                is Some && r->0@ == self.mmu.ppu.screen_data@,
            self.mmu.ppu.lcdc.lcd_enable && self.mmu.ppu.stat.mode_flag != LCDMode::Mode1 ==> r
                is None,
    {
        self.mmu.ppu.request_frame()
    }

    /// Whether the header declared battery-backed RAM worth persisting.
    pub fn has_battery(&self) -> (r: bool)
        ensures
            r == self.mmu.cart.has_battery,
    {
        self.mmu.cart.has_battery
    }

    /// The cartridge-RAM image, for the host to write to the save file.
    pub fn save_data(&self) -> (r: Vec<u8>)
        ensures
            r@ == self.mmu.cart.ram@,
    {
        self.mmu.cart.save_data()
    }
}

} // verus!

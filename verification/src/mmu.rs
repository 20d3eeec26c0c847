//! The memory bus: the 16-bit address decoder that routes every CPU access
//! to the cartridge, video controller, work RAM, timer, joypad, high RAM or
//! interrupt registers, and that fans an instruction's cycles out to the
//! devices that track time.

use crate::bytes::make_zero_vec;
use crate::cartridge::Cartridge;
use crate::interrupt::intr_mask;
use crate::interrupt::InterruptController;
use crate::interrupt::InterruptKind;
use crate::joypad::Joypad;
use crate::timer::tac_enabled;
use crate::timer::tac_threshold;
use crate::timer::tima_after;
use crate::timer::tima_overflows;
use crate::timer::Timer;
use crate::vram::ppu_addr;
use crate::vram::LCDMode;
use crate::vram::Vram;
use vstd::prelude::*;

verus! {

/// The IF bits of a list of raised interrupts, OR-folded in order.
pub open spec fn intr_bits_of(s: Seq<InterruptKind>) -> u8
    decreases s.len(),
{
    if s.len() == 0 {
        0
    } else {
        intr_bits_of(s.drop_last()) | intr_mask(s.last())
    }
}

/// OR on bytes is associative.
proof fn lemma_or_assoc(a: u8, b: u8, c: u8)
    by (bit_vector)
    ensures
        (a | b) | c == a | (b | c),
{
}

/// The memory bus and the devices it owns.
pub struct Mmu {
    /// The cartridge at 0x0000..0x8000 and 0xA000..0xC000.
    pub cart: Cartridge,
    /// The LCD controller: VRAM, OAM and the 0xFF40 register file.
    pub ppu: Vram,
    /// The timer at 0xFF04..0xFF08.
    pub timer: Timer,
    /// The joypad matrix at 0xFF00.
    pub joypad: Joypad,
    /// IF at 0xFF0F and IE at 0xFFFF.
    pub intr: InterruptController,
    /// 8 KiB of work RAM at 0xC000, echoed at 0xE000.
    pub wram: Vec<u8>,
    /// 127 bytes of high RAM at 0xFF80.
    pub hram: Vec<u8>,
    /// The audio register window at 0xFF10..0xFF40, modelled as plain
    /// storage; no sound is synthesized.
    pub apu: Vec<u8>,
    /// The serial data and control bytes at 0xFF01..0xFF03, a stub.
    pub serial: Vec<u8>,
    /// The last value written to the DMA trigger 0xFF46.
    pub dma_src: u8,
    /// Cycles the current OAM transfer still blocks the bus; zero when idle.
    pub dma_cycles: usize,
}

impl Mmu {
    /// Structural invariant: every device well-formed and every buffer at
    /// its wired size.
    pub open spec fn wf(self) -> bool {
        &&& self.cart.wf()
        &&& self.ppu.wf()
        &&& self.timer.wf()
        &&& self.joypad.wf()
        &&& self.intr.wf()
        &&& self.wram.len() == 0x2000
        &&& self.hram.len() == 0x7F
        &&& self.apu.len() == 0x30
        &&& self.serial.len() == 2
        &&& self.dma_cycles <= 640
    }

    /// Whether an OAM transfer is in flight, which the CPU only survives
    /// from high RAM.
    pub open spec fn dma_active(self) -> bool {
        self.dma_cycles > 0
    }

    /// Whether the video controller currently locks the CPU out of VRAM.
    pub open spec fn vram_blocked(self) -> bool {
        self.ppu.stat.mode_flag == LCDMode::Mode3
    }

    /// Whether the video controller or a transfer locks the CPU out of OAM.
    pub open spec fn oam_blocked(self) -> bool {
        self.ppu.stat.mode_flag == LCDMode::Mode2 || self.ppu.stat.mode_flag == LCDMode::Mode3
            || self.dma_active()
    }

    /// What an OAM transfer reads at a source address: the plain decode,
    /// with no blocking, and 0xFF above the echo region.
    pub open spec fn spec_dma_read(self, addr: u16) -> u8 {
        if addr < 0x8000 {
            self.cart.spec_read_rom(addr)
        } else if addr < 0xA000 {
            self.ppu.memory[addr - 0x8000]
        } else if addr < 0xC000 {
            self.cart.spec_read_ram(addr)
        } else if addr < 0xE000 {
            self.wram[addr - 0xC000]
        } else if addr < 0xFE00 {
            self.wram[addr - 0xE000]
        } else {
            0xFF
        }
    }

    /// The byte a CPU read of any address yields: the full decode of the
    /// address space, the VRAM and OAM locks, and the transfer blackout.
    pub open spec fn spec_read(self, addr: u16) -> u8 {
        if self.dma_active() && !(0xFF80 <= addr < 0xFFFF) {
            0xFF
        } else if addr < 0x8000 {
            self.cart.spec_read_rom(addr)
        } else if addr < 0xA000 {
            if self.vram_blocked() {
                0xFF
            } else {
                self.ppu.spec_read_byte(addr)
            }
        } else if addr < 0xC000 {
            self.cart.spec_read_ram(addr)
        } else if addr < 0xE000 {
            self.wram[addr - 0xC000]
        } else if addr < 0xFE00 {
            self.wram[addr - 0xE000]
        } else if addr < 0xFEA0 {
            if self.oam_blocked() {
                0xFF
            } else {
                self.ppu.spec_read_byte(addr)
            }
        } else if addr < 0xFF00 {
            0xFF
        } else if addr == 0xFF00 {
            0xC0 | self.joypad.select | self.joypad.spec_low_nibble()
        } else if 0xFF01 <= addr <= 0xFF02 {
            self.serial[addr - 0xFF01]
        } else if 0xFF04 <= addr <= 0xFF06 {
            if addr == 0xFF04 {
                self.timer.div
            } else if addr == 0xFF05 {
                self.timer.tima
            } else {
                self.timer.tma
            }
        } else if addr == 0xFF07 {
            self.timer.tac | 0xF8
        } else if addr == 0xFF0F {
            self.intr.iflags | 0xE0
        } else if 0xFF10 <= addr <= 0xFF3F {
            self.apu[addr - 0xFF10]
        } else if addr == 0xFF46 {
            self.dma_src
        } else if ppu_addr(addr) {
            self.ppu.spec_read_byte(addr)
        } else if 0xFF80 <= addr <= 0xFFFE {
            self.hram[addr - 0xFF80]
        } else if addr == 0xFFFF {
            self.intr.ienable
        } else {
            0xFF
        }
    }

    /// A fresh bus around a cartridge, every memory cleared.
    pub fn power_on(cart: Cartridge) -> (r: Self)
        requires
            cart.wf(),
        ensures
            r.wf(),
            r.cart == cart,
            r.ppu.ly == 0,
            r.ppu.scanline_cycles == 0,
            r.ppu.stat.mode_flag == LCDMode::Mode2,
            r.ppu.lcdc.lcd_enable,
            r.timer == (Timer { div: 0, tima: 0, tma: 0, tac: 0, div_acc: 0, tima_acc: 0 }),
            r.joypad == (Joypad { select: 0x30, action_pressed: 0, direction_pressed: 0 }),
            r.intr == (InterruptController { iflags: 0, ienable: 0 }),
            r.wram@ == Seq::<u8>::new(0x2000, |i: int| 0u8),
            r.hram@ == Seq::<u8>::new(0x7F, |i: int| 0u8),
            r.dma_cycles == 0,
            r.dma_src == 0,
    {
        Mmu {
            cart,
            ppu: Vram::power_on(),
            timer: Timer::power_on(),
            joypad: Joypad::power_on(),
            intr: InterruptController::power_on(),
            wram: make_zero_vec(0x2000),
            hram: make_zero_vec(0x7F),
            apu: make_zero_vec(0x30),
            serial: make_zero_vec(2),
            dma_src: 0,
            dma_cycles: 0,
        }
    }

    /// Read one byte from the bus.
    pub fn read_byte(&self, addr: u16) -> (v: u8)
        requires
            self.wf(),
        ensures
            v == self.spec_read(addr),
    {
        if self.dma_cycles > 0 && !(0xFF80 <= addr && addr < 0xFFFF) {
            return 0xFF;
        }
        if addr < 0x8000 {
            self.cart.read_rom(addr)
        } else if addr < 0xA000 {
            if self.ppu.stat.mode_flag == LCDMode::Mode3 {
                0xFF
            } else {
                self.ppu.read_byte(addr)
            }
        } else if addr < 0xC000 {
            self.cart.read_ram(addr)
        } else if addr < 0xE000 {
            self.wram[(addr - 0xC000) as usize]
        } else if addr < 0xFE00 {
            self.wram[(addr - 0xE000) as usize]
        } else if addr < 0xFEA0 {
            if self.ppu.stat.mode_flag == LCDMode::Mode2 || self.ppu.stat.mode_flag
                == LCDMode::Mode3 || self.dma_cycles > 0 {
                0xFF
            } else {
                self.ppu.read_byte(addr)
            }
        } else if addr < 0xFF00 {
            0xFF
        } else if addr == 0xFF00 {
            self.joypad.read_byte()
        } else if 0xFF01 <= addr && addr <= 0xFF02 {
            self.serial[(addr - 0xFF01) as usize]
        } else if 0xFF04 <= addr && addr <= 0xFF07 {
            self.timer.read_byte(addr)
        } else if addr == 0xFF0F {
            self.intr.read_flags()
        } else if 0xFF10 <= addr && addr <= 0xFF3F {
            self.apu[(addr - 0xFF10) as usize]
        } else if addr == 0xFF46 {
            self.dma_src
        } else if (0xFF40 <= addr && addr <= 0xFF45) || (0xFF47 <= addr && addr <= 0xFF4B) {
            self.ppu.read_byte(addr)
        } else if 0xFF80 <= addr && addr <= 0xFFFE {
            self.hram[(addr - 0xFF80) as usize]
        } else if addr == 0xFFFF {
            self.intr.read_enable()
        } else {
            0xFF
        }
    }

    /// Read a 16-bit word, little endian: the low byte at `addr`, the high
    /// byte just above it.
    pub fn read_word(&self, addr: u16) -> (v: u16)
        requires
            self.wf(),
        ensures
            v == self.spec_read(addr.wrapping_add(1)) * 256 + self.spec_read(addr),
    {
        let lo = self.read_byte(addr);
        let hi = self.read_byte(addr.wrapping_add(1));
        proof {
            crate::registers::lemma_word_join(hi, lo);
        }
        ((hi as u16) << 8) | (lo as u16)
    }
}

} // verus!

verus! {

/// All bus state but the cartridge unchanged.
pub open spec fn same_but_cart(a: Mmu, b: Mmu) -> bool {
    &&& a.ppu == b.ppu
    &&& a.timer == b.timer
    &&& a.joypad == b.joypad
    &&& a.intr == b.intr
    &&& a.wram@ == b.wram@
    &&& a.hram@ == b.hram@
    &&& a.apu@ == b.apu@
    &&& a.serial@ == b.serial@
    &&& a.dma_src == b.dma_src
    &&& a.dma_cycles == b.dma_cycles
}

/// All bus state but the video controller unchanged.
pub open spec fn same_but_ppu(a: Mmu, b: Mmu) -> bool {
    &&& a.cart == b.cart
    &&& a.timer == b.timer
    &&& a.joypad == b.joypad
    &&& a.intr == b.intr
    &&& a.wram@ == b.wram@
    &&& a.hram@ == b.hram@
    &&& a.apu@ == b.apu@
    &&& a.serial@ == b.serial@
    &&& a.dma_src == b.dma_src
    &&& a.dma_cycles == b.dma_cycles
}

/// All bus state but one plain storage area or device unchanged.
pub open spec fn same_but_bus_byte(a: Mmu, b: Mmu) -> bool {
    &&& a.cart == b.cart
    &&& a.ppu == b.ppu
    &&& a.dma_src == b.dma_src
    &&& a.dma_cycles == b.dma_cycles
}

/// How a write to the bus changes the machine: the full decode, the VRAM
/// and OAM locks, and the transfer trigger at 0xFF46.
pub open spec fn write_effect(pre: Mmu, post: Mmu, addr: u16, val: u8) -> bool {
    if addr < 0x8000 {
        same_but_cart(pre, post) && crate::cartridge::control_write_effect(
            pre.cart,
            post.cart,
            addr,
            val,
        )
    } else if addr < 0xA000 {
        if pre.vram_blocked() {
            post == pre
        } else {
            same_but_ppu(pre, post) && crate::vram::ppu_write_effect(pre.ppu, post.ppu, addr, val)
        }
    } else if addr < 0xC000 {
        same_but_cart(pre, post) && crate::cartridge::ram_write_effect(
            pre.cart,
            post.cart,
            addr,
            val,
        )
    } else if addr < 0xE000 {
        same_but_bus_byte(pre, post) && post.timer == pre.timer && post.joypad == pre.joypad
            && post.intr == pre.intr && post.hram@ == pre.hram@ && post.apu@ == pre.apu@
            && post.serial@ == pre.serial@ && post.wram@ == pre.wram@.update(addr - 0xC000, val)
    } else if addr < 0xFE00 {
        same_but_bus_byte(pre, post) && post.timer == pre.timer && post.joypad == pre.joypad
            && post.intr == pre.intr && post.hram@ == pre.hram@ && post.apu@ == pre.apu@
            && post.serial@ == pre.serial@ && post.wram@ == pre.wram@.update(addr - 0xE000, val)
    } else if addr < 0xFEA0 {
        if pre.oam_blocked() {
            post == pre
        } else {
            same_but_ppu(pre, post) && crate::vram::ppu_write_effect(pre.ppu, post.ppu, addr, val)
        }
    } else if addr < 0xFF00 {
        post == pre
    } else if addr == 0xFF00 {
        same_but_bus_byte(pre, post) && post.timer == pre.timer && post.intr == pre.intr
            && post.wram@ == pre.wram@ && post.hram@ == pre.hram@ && post.apu@ == pre.apu@
            && post.serial@ == pre.serial@ && post.joypad == (Joypad {
            select: val & 0x30,
            ..pre.joypad
        })
    } else if 0xFF01 <= addr <= 0xFF02 {
        same_but_bus_byte(pre, post) && post.timer == pre.timer && post.joypad == pre.joypad
            && post.intr == pre.intr && post.wram@ == pre.wram@ && post.hram@ == pre.hram@
            && post.apu@ == pre.apu@ && post.serial@ == pre.serial@.update(addr - 0xFF01, val)
    } else if 0xFF04 <= addr <= 0xFF07 {
        same_but_bus_byte(pre, post) && post.joypad == pre.joypad && post.intr == pre.intr
            && post.wram@ == pre.wram@ && post.hram@ == pre.hram@ && post.apu@ == pre.apu@
            && post.serial@ == pre.serial@ && (if addr == 0xFF04 {
            post.timer == (Timer { div: 0, div_acc: 0, ..pre.timer })
        } else if addr == 0xFF05 {
            post.timer == (Timer { tima: val, ..pre.timer })
        } else if addr == 0xFF06 {
            post.timer == (Timer { tma: val, ..pre.timer })
        } else {
            post.timer == (Timer { tac: val & 0x07, ..pre.timer })
        })
    } else if addr == 0xFF0F {
        same_but_bus_byte(pre, post) && post.timer == pre.timer && post.joypad == pre.joypad
            && post.wram@ == pre.wram@ && post.hram@ == pre.hram@ && post.apu@ == pre.apu@
            && post.serial@ == pre.serial@ && post.intr == (InterruptController {
            iflags: val & 0x1F,
            ..pre.intr
        })
    } else if 0xFF10 <= addr <= 0xFF3F {
        same_but_bus_byte(pre, post) && post.timer == pre.timer && post.joypad == pre.joypad
            && post.intr == pre.intr && post.wram@ == pre.wram@ && post.hram@ == pre.hram@
            && post.serial@ == pre.serial@ && post.apu@ == pre.apu@.update(addr - 0xFF10, val)
    } else if addr == 0xFF46 {
        &&& post.cart == pre.cart
        &&& post.timer == pre.timer
        &&& post.joypad == pre.joypad
        &&& post.intr == pre.intr
        &&& post.wram@ == pre.wram@
        &&& post.hram@ == pre.hram@
        &&& post.apu@ == pre.apu@
        &&& post.serial@ == pre.serial@
        &&& post.dma_src == val
        &&& post.dma_cycles == 640
        &&& post.ppu == (Vram { oam: post.ppu.oam, ..pre.ppu })
        &&& post.ppu.oam@ == Seq::new(160, |i: int| pre.spec_dma_read((val * 256 + i) as u16))
    } else if ppu_addr(addr) {
        same_but_ppu(pre, post) && crate::vram::ppu_write_effect(pre.ppu, post.ppu, addr, val)
    } else if 0xFF80 <= addr <= 0xFFFE {
        same_but_bus_byte(pre, post) && post.timer == pre.timer && post.joypad == pre.joypad
            && post.intr == pre.intr && post.wram@ == pre.wram@ && post.apu@ == pre.apu@
            && post.serial@ == pre.serial@ && post.hram@ == pre.hram@.update(addr - 0xFF80, val)
    } else if addr == 0xFFFF {
        same_but_bus_byte(pre, post) && post.timer == pre.timer && post.joypad == pre.joypad
            && post.wram@ == pre.wram@ && post.hram@ == pre.hram@ && post.apu@ == pre.apu@
            && post.serial@ == pre.serial@ && post.intr == (InterruptController {
            ienable: val,
            ..pre.intr
        })
    } else {
        post == pre
    }
}

impl Mmu {
    /// What an OAM transfer reads at a source address.
    fn dma_read(&self, addr: u16) -> (v: u8)
        requires
            self.wf(),
        ensures
            v == self.spec_dma_read(addr),
    {
        if addr < 0x8000 {
            self.cart.read_rom(addr)
        } else if addr < 0xA000 {
            self.ppu.memory[(addr - 0x8000) as usize]
        } else if addr < 0xC000 {
            self.cart.read_ram(addr)
        } else if addr < 0xE000 {
            self.wram[(addr - 0xC000) as usize]
        } else if addr < 0xFE00 {
            self.wram[(addr - 0xE000) as usize]
        } else {
            0xFF
        }
    }

    /// Write one byte to the bus.
    pub fn write_byte(&mut self, addr: u16, val: u8)
        requires
            old(self).wf(),
        ensures
            final(self).wf(),
            write_effect(*old(self), *final(self), addr, val),
    {
        if addr < 0x8000 {
            self.cart.write_control(addr, val);
        } else if addr < 0xA000 {
            if self.ppu.stat.mode_flag != LCDMode::Mode3 {
                self.ppu.write_byte(addr, val);
            }
        } else if addr < 0xC000 {
            self.cart.write_ram(addr, val);
        } else if addr < 0xE000 {
            self.wram[(addr - 0xC000) as usize] = val;
        } else if addr < 0xFE00 {
            self.wram[(addr - 0xE000) as usize] = val;
        } else if addr < 0xFEA0 {
            if !(self.ppu.stat.mode_flag == LCDMode::Mode2 || self.ppu.stat.mode_flag
                == LCDMode::Mode3 || self.dma_cycles > 0) {
                self.ppu.write_byte(addr, val);
            }
        } else if addr < 0xFF00 {
            // Unusable region: writes fall on the floor.
        } else if addr == 0xFF00 {
            self.joypad.write_byte(val);
        } else if 0xFF01 <= addr && addr <= 0xFF02 {
            self.serial[(addr - 0xFF01) as usize] = val;
        } else if 0xFF04 <= addr && addr <= 0xFF07 {
            self.timer.write_byte(addr, val);
        } else if addr == 0xFF0F {
            self.intr.write_flags(val);
        } else if 0xFF10 <= addr && addr <= 0xFF3F {
            self.apu[(addr - 0xFF10) as usize] = val;
        } else if addr == 0xFF46 {
            let ghost pre = *old(self);
            let src: u16 = (val as u16) << 8;
            proof {
                assert((val as u16) << 8 == val * 256) by (bit_vector);
            }
            let mut i: usize = 0;
            while i < 160
                invariant
                    self.wf(),
                    i <= 160,
                    src == val * 256,
                    *self == (Mmu { ppu: self.ppu, ..pre }),
                    self.ppu == (Vram { oam: self.ppu.oam, ..pre.ppu }),
                    self.ppu.oam@.len() == 160,
                    forall|j: int|
                        0 <= j < i ==> self.ppu.oam@[j] == pre.spec_dma_read(
                            (val * 256 + j) as u16,
                        ),
                    forall|j: int| i <= j < 160 ==> self.ppu.oam@[j] == pre.ppu.oam@[j],
                decreases 160 - i,
            {
                let b = self.dma_read(src + i as u16);
                proof {
                    assert(self.spec_dma_read((src + i as u16) as u16) == pre.spec_dma_read(
                        (val * 256 + i) as u16,
                    ));
                }
                self.ppu.oam[i] = b;
                i = i + 1;
            }
            self.dma_src = val;
            self.dma_cycles = 640;
            proof {
                assert(self.ppu.oam@ =~= Seq::new(
                    160,
                    |i: int| pre.spec_dma_read((val * 256 + i) as u16),
                ));
            }
        } else if (0xFF40 <= addr && addr <= 0xFF45) || (0xFF47 <= addr && addr <= 0xFF4B) {
            self.ppu.write_byte(addr, val);
        } else if 0xFF80 <= addr && addr <= 0xFFFE {
            self.hram[(addr - 0xFF80) as usize] = val;
        } else if addr == 0xFFFF {
            self.intr.write_enable(val);
        } else {
            // Unmapped I/O: writes fall on the floor.
        }
    }

    /// Write a 16-bit word, little endian: the low byte at `addr`, the high
    /// byte just above it.
    pub fn write_word(&mut self, addr: u16, val: u16)
        requires
            old(self).wf(),
        ensures
            final(self).wf(),
            exists|mid: Mmu|
                #[trigger] write_effect(*old(self), mid, addr, (val % 256) as u8) && write_effect(
                    mid,
                    *final(self),
                    addr.wrapping_add(1),
                    (val / 256) as u8,
                ),
    {
        proof {
            crate::registers::lemma_word_shift_mask(val);
        }
        self.write_byte(addr, (val & 0xFF) as u8);
        let ghost mid = *self;
        self.write_byte(addr.wrapping_add(1), (val >> 8) as u8);
        proof {
            assert(write_effect(*old(self), mid, addr, (val % 256) as u8) && write_effect(
                mid,
                *final(self),
                addr.wrapping_add(1),
                (val / 256) as u8,
            ));
        }
    }
}

} // verus!

verus! {

/// How one cycle fan-out changes the bus: the video controller and timer
/// advance by their own laws, their interrupts land in IF, and a running
/// OAM transfer counts down; everything else stands still.
pub open spec fn update_effect(pre: Mmu, post: Mmu, cycles: usize) -> bool {
    &&& (post.cart == pre.cart)
    &&& (post.joypad == pre.joypad)
    &&& (post.wram@ == pre.wram@)
    &&& (post.hram@ == pre.hram@)
    &&& (post.apu@ == pre.apu@)
    &&& (post.serial@ == pre.serial@)
    &&& (post.dma_src == pre.dma_src)
    &&& (post.dma_cycles == (if pre.dma_cycles >= cycles {
                pre.dma_cycles - cycles
            } else {
                0
            }))
    &&& (post.intr.ienable == pre.intr.ienable)
    &&& (post.intr.iflags == (pre.intr.iflags | intr_bits_of(
                if pre.ppu.upd_active(cycles) {
                    pre.ppu.upd_interrupts(cycles)
                } else {
                    Seq::empty()
                },
            )) | (if tac_enabled(pre.timer.tac) && tima_overflows(
                pre.timer.tima,
                pre.timer.tma,
                ((pre.timer.tima_acc + cycles) as int / (tac_threshold(
                    pre.timer.tac,
                ) as int)) as nat,
            ) {
                0x04u8
            } else {
                0u8
            }))
    &&& (!pre.ppu.upd_active(cycles) ==> post.ppu == pre.ppu)
    &&& (pre.ppu.upd_active(cycles) ==> {
                &&& post.ppu.scanline_cycles == pre.ppu.upd_sc(cycles)
                &&& post.ppu.ly == pre.ppu.upd_ly(cycles)
                &&& post.ppu.stat.mode_flag == pre.ppu.upd_mode(cycles)
                &&& post.ppu.stat.lyc_ly_flag == pre.ppu.upd_coincidence(cycles)
                &&& post.ppu.stat.lyc_ly_interrupt == pre.ppu.stat.lyc_ly_interrupt
                &&& post.ppu.stat.oam_interrupt == pre.ppu.stat.oam_interrupt
                &&& post.ppu.stat.vblank_interrupt == pre.ppu.stat.vblank_interrupt
                &&& post.ppu.stat.hblank_interrupt == pre.ppu.stat.hblank_interrupt
                &&& post.ppu.lcdc == pre.ppu.lcdc
                &&& post.ppu.scroll_coords == pre.ppu.scroll_coords
                &&& post.ppu.lyc == pre.ppu.lyc
                &&& post.ppu.bgp == pre.ppu.bgp
                &&& post.ppu.obp0 == pre.ppu.obp0
                &&& post.ppu.obp1 == pre.ppu.obp1
                &&& post.ppu.window_coords == pre.ppu.window_coords
                &&& post.ppu.window_line == pre.ppu.upd_window_line(cycles)
                &&& post.ppu.memory@ == pre.ppu.memory@
                &&& post.ppu.oam@ == pre.ppu.oam@
                &&& post.ppu.screen_data@.len() == crate::vram::FRAME_BYTES
                &&& (!pre.ppu.upd_mode0_event(cycles) ==> post.ppu.screen_data@
                    == pre.ppu.screen_data@)
                &&& (pre.ppu.upd_mode0_event(cycles) ==> forall|i: int|
                    0 <= i < crate::vram::FRAME_BYTES && !(pre.ppu.upd_ly(cycles) * 480 <= i
                        < pre.ppu.upd_ly(cycles) * 480 + 480) ==> post.ppu.screen_data@[i] == pre.ppu.screen_data@[i])
                &&& (pre.ppu.upd_mode0_event(cycles) ==> forall|i: int|
                    pre.ppu.upd_ly(cycles) * 480 <= i < pre.ppu.upd_ly(cycles) * 480
                        + 480 ==> post.ppu.screen_data@[i] == crate::vram::row_pixel_rgb(
                        pre.ppu.upd_render_state(cycles),
                        pre.ppu.upd_ly(cycles),
                        (i - pre.ppu.upd_ly(cycles) * 480) / 3,
                    ))
            })
    &&& (post.timer.tma == pre.timer.tma)
    &&& (post.timer.tac == pre.timer.tac)
    &&& (post.timer.div_acc == (pre.timer.div_acc + cycles) % 256)
    &&& (post.timer.div == ((pre.timer.div + (pre.timer.div_acc + cycles)
                / 256) % 256) as u8)
    &&& (tac_enabled(pre.timer.tac) ==> {
                let k = (((pre.timer.tima_acc + cycles) as int) / (tac_threshold(
                    pre.timer.tac,
                ) as int)) as nat;
                &&& post.timer.tima_acc == (pre.timer.tima_acc + cycles) % (
                tac_threshold(pre.timer.tac) as int)
                &&& post.timer.tima == tima_after(
                    pre.timer.tima,
                    pre.timer.tma,
                    k,
                )
            })
    &&& (!tac_enabled(pre.timer.tac) ==> post.timer.tima == pre.timer.tima
                && post.timer.tima_acc == pre.timer.tima_acc)
}

impl Mmu {
    /// Fan an instruction's cycles out to the devices that track time: the
    /// video controller and timer advance, their raised interrupts are
    /// OR-ed into IF, and a running OAM transfer counts down.
    #[verifier::rlimit(100)]
    #[verifier::spinoff_prover]
    pub fn update(&mut self, cycles: usize)
        requires
            old(self).wf(),
            cycles <= 455,
        ensures
            final(self).wf(),
            update_effect(*old(self), *final(self), cycles),
    {
        let ghost pre = *old(self);
        let ppu_ints = self.ppu.update(cycles);
        let ghost after_ppu = *self;
        let ghost pseq: Seq<InterruptKind> = if pre.ppu.upd_active(cycles) {
            pre.ppu.upd_interrupts(cycles)
        } else {
            Seq::empty()
        };
        match ppu_ints {
            Some(v) => {
                let mut k: usize = 0;
                proof {
                    assert(v@.take(0) =~= Seq::<InterruptKind>::empty());
                    let f0 = pre.intr.iflags;
                    assert(f0 | 0 == f0) by (bit_vector);
                }
                while k < v.len()
                    invariant
                        k <= v.len(),
                        v@ == pseq,
                        self.intr.wf(),
                        self.intr.iflags == pre.intr.iflags | intr_bits_of(v@.take(k as int)),
                        self.intr.ienable == pre.intr.ienable,
                        *self == (Mmu { intr: self.intr, ..after_ppu }),
                    decreases v.len() - k,
                {
                    let ghost f0 = self.intr.iflags;
                    self.intr.raise(v[k]);
                    proof {
                        assert(v@.take(k as int + 1).drop_last() =~= v@.take(k as int));
                        assert(v@.take(k as int + 1).last() == v@[k as int]);
                        lemma_or_assoc(
                            pre.intr.iflags,
                            intr_bits_of(v@.take(k as int)),
                            intr_mask(v@[k as int]),
                        );
                    }
                    k = k + 1;
                }
                proof {
                    assert(v@.take(v@.len() as int) =~= v@);
                }
            },
            None => {
                proof {
                    assert(intr_bits_of(Seq::<InterruptKind>::empty()) == 0);
                    assert(pseq.len() == 0);
                    assert(pseq =~= Seq::<InterruptKind>::empty());
                    let f0 = pre.intr.iflags;
                    assert(f0 | 0 == f0) by (bit_vector);
                }
            },
        }
        proof {
            let f1 = self.intr.iflags;
            assert(f1 | 0 == f1) by (bit_vector);
        }
        let traised = self.timer.update(cycles);
        if traised {
            self.intr.raise(InterruptKind::Timer);
        }
        if self.dma_cycles >= cycles {
            self.dma_cycles = self.dma_cycles - cycles;
        } else {
            self.dma_cycles = 0;
        }
    }
}

} // verus!

verus! {

/// The plain RAM the stack normally lives in: work RAM (echo included) and
/// high RAM. Writes there always land and reads always return the cell.
pub open spec fn plain_ram(addr: u16) -> bool {
    ||| 0xC000 <= addr < 0xFE00
    ||| 0xFF80 <= addr <= 0xFFFE
}

/// The backing cell a plain-RAM address decodes to: work RAM cells first,
/// then high RAM cells, with the echo folded onto its origin.
pub open spec fn ram_index(addr: u16) -> int {
    if addr < 0xE000 {
        addr - 0xC000
    } else if addr < 0xFE00 {
        addr - 0xE000
    } else {
        0x2000 + addr - 0xFF80
    }
}

/// A write to plain RAM is read straight back, leaves every other plain
/// cell alone, and touches neither the transfer engine nor the interrupt
/// controller.
pub proof fn lemma_read_after_write(pre: Mmu, post: Mmu, addr: u16, v: u8)
    requires
        write_effect(pre, post, addr, v),
        plain_ram(addr),
        !pre.dma_active(),
        pre.wram.len() == 0x2000,
        pre.hram.len() == 0x7F,
    ensures
        post.spec_read(addr) == v,
        !post.dma_active(),
        post.intr == pre.intr,
        post.wram.len() == 0x2000,
        post.hram.len() == 0x7F,
        forall|a2: u16|
            plain_ram(a2) && ram_index(a2) != ram_index(addr) ==> post.spec_read(a2)
                == pre.spec_read(a2),
{
    assert forall|a2: u16|
        plain_ram(a2) && ram_index(a2) != ram_index(addr) implies post.spec_read(a2)
        == pre.spec_read(a2) by {
        if addr < 0xFE00 {
            assert(post.wram@ == pre.wram@.update(ram_index(addr), v));
        } else {
            assert(post.hram@ == pre.hram@.update(addr - 0xFF80, v));
        }
    }
}

} // verus!

//! The cartridge: the ROM image, battery-backed RAM, and the memory-bank
//! controller that widens the 15-bit cartridge address window to the full
//! ROM and RAM.

use crate::bytes::make_zero_vec;
use vstd::prelude::*;

verus! {

/// The bank-controller families the core supports.
#[derive(Clone, Copy, PartialEq, Eq, Structural, Debug)]
pub enum MbcKind {
    /// No controller: 32 KiB of ROM mapped flat, RAM always reachable.
    NoMbc,
    /// 5-bit ROM bank, 2-bit upper bank, and a banking-mode latch.
    Mbc1,
    /// Linear 7-bit ROM bank and a 2-bit RAM bank.
    Mbc3,
    /// 9-bit ROM bank; bank zero may be mapped into the switchable window.
    Mbc5,
}

/// Why a ROM image was rejected at construction.
#[derive(Clone, Copy, PartialEq, Eq, Structural, Debug)]
pub enum CartridgeError {
    /// The header checksum over 0x134..=0x14C does not match byte 0x14D.
    HeaderChecksum,
    /// The image is shorter than a header, or its length does not match the
    /// size the header declares.
    SizeMismatch,
    /// The cartridge-type byte names a controller the core does not support.
    UnsupportedMbc,
}

/// One wrapping step of the header checksum: `x - b - 1`.
pub open spec fn checksum_step(x: u8, b: u8) -> u8 {
    x.wrapping_sub(b).wrapping_sub(1)
}

/// The header checksum folded over bytes 0x134..i of the image.
pub open spec fn checksum_to(rom: Seq<u8>, i: int) -> u8
    decreases i,
{
    if i <= 0x134 {
        0
    } else {
        checksum_step(checksum_to(rom, i - 1), rom[i - 1])
    }
}

/// ROM length in bytes declared by header byte 0x148: 32 KiB doubled that
/// many times.
pub open spec fn declared_rom_len(code: u8) -> int {
    if code == 0 {
        0x8000
    } else if code == 1 {
        0x1_0000
    } else if code == 2 {
        0x2_0000
    } else if code == 3 {
        0x4_0000
    } else if code == 4 {
        0x8_0000
    } else if code == 5 {
        0x10_0000
    } else if code == 6 {
        0x20_0000
    } else if code == 7 {
        0x40_0000
    } else {
        0x80_0000
    }
}

/// RAM length in bytes declared by header byte 0x149.
pub open spec fn declared_ram_len(code: u8) -> int {
    if code == 0 {
        0
    } else if code == 1 {
        0x800
    } else if code == 2 {
        0x2000
    } else if code == 3 {
        0x8000
    } else if code == 4 {
        0x20000
    } else {
        0x10000
    }
}

/// The controller family and battery flag of a cartridge-type byte, if the
/// core supports it.
pub open spec fn mbc_of_code(code: u8) -> Option<(MbcKind, bool)> {
    if code == 0x00 {
        Some((MbcKind::NoMbc, false))
    } else if code == 0x01 || code == 0x02 {
        Some((MbcKind::Mbc1, false))
    } else if code == 0x03 {
        Some((MbcKind::Mbc1, true))
    } else if code == 0x08 {
        Some((MbcKind::NoMbc, false))
    } else if code == 0x09 {
        Some((MbcKind::NoMbc, true))
    } else if code == 0x0F || code == 0x10 || code == 0x13 {
        Some((MbcKind::Mbc3, true))
    } else if code == 0x11 || code == 0x12 {
        Some((MbcKind::Mbc3, false))
    } else if code == 0x19 || code == 0x1A || code == 0x1C || code == 0x1D {
        Some((MbcKind::Mbc5, false))
    } else if code == 0x1B || code == 0x1E {
        Some((MbcKind::Mbc5, true))
    } else {
        None
    }
}

/// The cartridge: ROM and RAM images plus the controller's latches.
pub struct Cartridge {
    /// The ROM image, a whole number of 16 KiB banks.
    pub rom: Vec<u8>,
    /// Cartridge RAM, sized by the header.
    pub ram: Vec<u8>,
    /// Which controller family decodes register writes.
    pub kind: MbcKind,
    /// Whether the header declares battery-backed RAM worth persisting.
    pub has_battery: bool,
    /// RAM gate: writes land and reads succeed only while enabled.
    pub ram_enable: bool,
    /// The low ROM-bank latch; never zero for MBC1 and MBC3.
    pub rom_bank_low: u8,
    /// The upper ROM-bank latch: two bits on MBC1, the ninth bank bit on MBC5.
    pub bank_hi: u8,
    /// The RAM-bank latch of MBC3 and MBC5.
    pub ram_bank: u8,
    /// The MBC1 banking-mode latch.
    pub mode: bool,
}

impl Cartridge {
    /// Structural invariant: banked sizes and latch ranges.
    pub open spec fn wf(self) -> bool {
        &&& self.rom.len() >= 0x8000
        &&& self.rom.len() % 0x4000 == 0
        &&& self.rom.len() <= 0x80_0000
        &&& self.ram.len() <= 0x2_0000
        &&& (self.kind == MbcKind::Mbc1 ==> 1 <= self.rom_bank_low < 32 && self.bank_hi < 4)
        &&& (self.kind == MbcKind::Mbc3 ==> 1 <= self.rom_bank_low < 128)
        &&& (self.kind == MbcKind::Mbc5 ==> self.bank_hi < 2)
        &&& (self.kind == MbcKind::NoMbc ==> self.rom_bank_low == 1 && self.bank_hi == 0)
        &&& self.ram_bank < 16
    }

    /// How many 16 KiB ROM banks the image holds.
    pub open spec fn bank_count(self) -> int {
        self.rom.len() as int / 0x4000
    }

    /// The bank mapped at 0x0000..0x4000: bank 0, except under MBC1's
    /// alternate banking mode, where the upper latch selects it.
    pub open spec fn bank_for_low_window(self) -> int {
        if self.kind == MbcKind::Mbc1 && self.mode {
            ((self.bank_hi as int) * 32) % self.bank_count()
        } else {
            0
        }
    }

    /// The bank mapped at 0x4000..0x8000, masked to the available count.
    pub open spec fn bank_for_high_window(self) -> int {
        match self.kind {
            MbcKind::NoMbc => 1,
            MbcKind::Mbc1 => ((self.bank_hi as int) * 32 + self.rom_bank_low) % self.bank_count(),
            MbcKind::Mbc3 => (self.rom_bank_low as int) % self.bank_count(),
            MbcKind::Mbc5 => ((self.bank_hi as int) * 256 + self.rom_bank_low)
                % self.bank_count(),
        }
    }

    /// Base offset into cartridge RAM of the selected RAM bank.
    pub open spec fn ram_base(self) -> int {
        match self.kind {
            MbcKind::NoMbc => 0,
            MbcKind::Mbc1 => if self.mode {
                (self.bank_hi as int) * 0x2000
            } else {
                0
            },
            MbcKind::Mbc3 => (self.ram_bank as int) * 0x2000,
            MbcKind::Mbc5 => (self.ram_bank as int) * 0x2000,
        }
    }

    /// The byte a CPU read of 0x0000..0x8000 yields.
    pub open spec fn spec_read_rom(self, addr: u16) -> u8 {
        if addr < 0x4000 {
            self.rom[self.bank_for_low_window() * 0x4000 + addr]
        } else {
            self.rom[self.bank_for_high_window() * 0x4000 + (addr - 0x4000)]
        }
    }

    /// Whether a RAM access decodes to a byte of cartridge RAM.
    pub open spec fn ram_reachable(self, addr: u16) -> bool {
        &&& self.ram_enable
        &&& (self.kind == MbcKind::Mbc3 ==> self.ram_bank < 4)
        &&& self.ram_base() + (addr - 0xA000) < self.ram.len()
    }

    /// The byte a CPU read of 0xA000..0xC000 yields: the selected RAM byte,
    /// or 0xFF while RAM is disabled or not decoded.
    pub open spec fn spec_read_ram(self, addr: u16) -> u8 {
        if self.ram_reachable(addr) {
            self.ram[self.ram_base() + (addr - 0xA000)]
        } else {
            0xFF
        }
    }
}


/// How a write into the RAM window changes the cartridge: the decoded RAM
/// byte is replaced while RAM is enabled and decoded, else nothing happens.
pub open spec fn ram_write_effect(pre: Cartridge, post: Cartridge, addr: u16, v: u8) -> bool {
    if pre.ram_reachable(addr) {
        post == (Cartridge { ram: post.ram, ..pre }) && post.ram@ == pre.ram@.update(
            pre.ram_base() + (addr - 0xA000),
            v,
        )
    } else {
        post == pre
    }
}

/// How a write into the ROM window programs the controller's latches.
pub open spec fn control_write_effect(pre: Cartridge, post: Cartridge, addr: u16, v: u8) -> bool {
    if pre.kind == MbcKind::NoMbc {
        post == pre
    } else if addr < 0x2000 {
        post == (Cartridge { ram_enable: v & 0x0F == 0x0A, ..pre })
    } else if pre.kind == MbcKind::Mbc1 {
        if addr < 0x4000 {
            post == (Cartridge {
                rom_bank_low: if v & 0x1F == 0 {
                    1
                } else {
                    (v & 0x1F) as u8
                },
                ..pre
            })
        } else if addr < 0x6000 {
            post == (Cartridge { bank_hi: (v & 0x03) as u8, ..pre })
        } else {
            post == (Cartridge { mode: v & 0x01 != 0, ..pre })
        }
    } else if pre.kind == MbcKind::Mbc3 {
        if addr < 0x4000 {
            post == (Cartridge {
                rom_bank_low: if v & 0x7F == 0 {
                    1
                } else {
                    (v & 0x7F) as u8
                },
                ..pre
            })
        } else if addr < 0x6000 {
            post == (Cartridge { ram_bank: (v & 0x0F) as u8, ..pre })
        } else {
            post == pre
        }
    } else {
        if addr < 0x3000 {
            post == (Cartridge { rom_bank_low: v, ..pre })
        } else if addr < 0x4000 {
            post == (Cartridge { bank_hi: (v & 0x01) as u8, ..pre })
        } else if addr < 0x6000 {
            post == (Cartridge { ram_bank: (v & 0x0F) as u8, ..pre })
        } else {
            post == pre
        }
    }
}

/// The selected high-window ROM bank multiplied out stays inside the image.
proof fn lemma_bank_offset_in_rom(bank: int, count: int, len: int)
    by (nonlinear_arith)
    requires
        len == count * 0x4000,
        0 <= bank < count,
    ensures
        bank * 0x4000 + 0x4000 <= len,
        bank * 0x4000 >= 0,
{
}

/// Division facts tying a bank index computed by `%` to the bank count.
proof fn lemma_mod_bound(x: int, m: int)
    by (nonlinear_arith)
    requires
        m > 0,
        x >= 0,
    ensures
        0 <= x % m < m,
{
}

/// The image length is exactly the bank count times the bank size.
proof fn lemma_len_is_banks(len: int)
    by (nonlinear_arith)
    requires
        len % 0x4000 == 0,
        len >= 0,
    ensures
        (len / 0x4000) * 0x4000 == len,
{
}

impl Cartridge {
    /// Parse a ROM image and optional save-RAM image into a cartridge.
    /// Rejects an image that is shorter than its header, fails the header
    /// checksum, declares an unsupported controller, or whose length
    /// disagrees with the header; exactly every other image is accepted.
    pub fn power_on(rom: Vec<u8>, save: Option<Vec<u8>>) -> (r: Result<Self, CartridgeError>)
        ensures
            rom.len() < 0x150 ==> r == Err::<Self, CartridgeError>(CartridgeError::SizeMismatch),
            rom.len() >= 0x150 && checksum_to(rom@, 0x14D) != rom[0x14D as int] ==> r == Err::<
                Self,
                CartridgeError,
            >(CartridgeError::HeaderChecksum),
            rom.len() >= 0x150 && checksum_to(rom@, 0x14D) == rom[0x14D as int] && mbc_of_code(
                rom[0x147],
            ) is None ==> r == Err::<Self, CartridgeError>(CartridgeError::UnsupportedMbc),
            rom.len() >= 0x150 && checksum_to(rom@, 0x14D) == rom[0x14D as int] && mbc_of_code(
                rom[0x147],
            ) is Some && (rom[0x148] > 8 || rom.len() != declared_rom_len(rom[0x148])
                || rom[0x149] > 5) ==> r == Err::<Self, CartridgeError>(
                CartridgeError::SizeMismatch,
            ),
            rom.len() >= 0x150 && checksum_to(rom@, 0x14D) == rom[0x14D as int] && mbc_of_code(
                rom[0x147],
            ) is Some && rom[0x148] <= 8 && rom.len() == declared_rom_len(rom[0x148])
                && rom[0x149] <= 5 ==> {
                &&& r is Ok
                &&& r->Ok_0.wf()
                &&& r->Ok_0.rom@ == rom@
                &&& Some((r->Ok_0.kind, r->Ok_0.has_battery)) == mbc_of_code(rom[0x147])
                &&& r->Ok_0.ram.len() == declared_ram_len(rom[0x149])
                &&& (match save {
                    Some(s) => if s.len() == declared_ram_len(rom[0x149]) {
                        r->Ok_0.ram@ == s@
                    } else {
                        r->Ok_0.ram@ == Seq::<u8>::new(declared_ram_len(rom[0x149]) as nat, |i: int| 0u8)
                    },
                    None => r->Ok_0.ram@ == Seq::<u8>::new(
                        declared_ram_len(rom[0x149]) as nat,
                        |i: int| 0u8,
                    ),
                })
                &&& r->Ok_0.ram_enable == (r->Ok_0.kind == MbcKind::NoMbc)
                &&& r->Ok_0.rom_bank_low == 1
                &&& r->Ok_0.bank_hi == 0
                &&& r->Ok_0.ram_bank == 0
                &&& r->Ok_0.mode == false
            },
    {
        if rom.len() < 0x150 {
            return Err(CartridgeError::SizeMismatch);
        }
        let mut x: u8 = 0;
        let mut i: usize = 0x134;
        while i < 0x14D
            invariant
                0x134 <= i <= 0x14D,
                rom.len() >= 0x150,
                x == checksum_to(rom@, i as int),
            decreases 0x14D - i,
        {
            x = x.wrapping_sub(rom[i]).wrapping_sub(1);
            i = i + 1;
        }
        if x != rom[0x14D] {
            return Err(CartridgeError::HeaderChecksum);
        }
        let code = rom[0x147];
        let (kind, has_battery): (MbcKind, bool) = if code == 0x00 {
            (MbcKind::NoMbc, false)
        } else if code == 0x01 || code == 0x02 {
            (MbcKind::Mbc1, false)
        } else if code == 0x03 {
            (MbcKind::Mbc1, true)
        } else if code == 0x08 {
            (MbcKind::NoMbc, false)
        } else if code == 0x09 {
            (MbcKind::NoMbc, true)
        } else if code == 0x0F || code == 0x10 || code == 0x13 {
            (MbcKind::Mbc3, true)
        } else if code == 0x11 || code == 0x12 {
            (MbcKind::Mbc3, false)
        } else if code == 0x19 || code == 0x1A || code == 0x1C || code == 0x1D {
            (MbcKind::Mbc5, false)
        } else if code == 0x1B || code == 0x1E {
            (MbcKind::Mbc5, true)
        } else {
            return Err(CartridgeError::UnsupportedMbc);
        };
        let rom_code = rom[0x148];
        if rom_code > 8 {
            return Err(CartridgeError::SizeMismatch);
        }
        let declared: usize = if rom_code == 0 {
            0x8000
        } else if rom_code == 1 {
            0x1_0000
        } else if rom_code == 2 {
            0x2_0000
        } else if rom_code == 3 {
            0x4_0000
        } else if rom_code == 4 {
            0x8_0000
        } else if rom_code == 5 {
            0x10_0000
        } else if rom_code == 6 {
            0x20_0000
        } else if rom_code == 7 {
            0x40_0000
        } else {
            0x80_0000
        };
        if rom.len() != declared {
            return Err(CartridgeError::SizeMismatch);
        }
        let ram_code = rom[0x149];
        if ram_code > 5 {
            return Err(CartridgeError::SizeMismatch);
        }
        let ram_len: usize = if ram_code == 0 {
            0
        } else if ram_code == 1 {
            0x800
        } else if ram_code == 2 {
            0x2000
        } else if ram_code == 3 {
            0x8000
        } else if ram_code == 4 {
            0x2_0000
        } else {
            0x1_0000
        };
        let ram: Vec<u8> = match save {
            Some(s) => if s.len() == ram_len {
                s
            } else {
                make_zero_vec(ram_len)
            },
            None => make_zero_vec(ram_len),
        };
        let cart = Cartridge {
            rom,
            ram,
            kind,
            has_battery,
            ram_enable: matches!(kind, MbcKind::NoMbc),
            rom_bank_low: 1,
            bank_hi: 0,
            ram_bank: 0,
            mode: false,
        };
        Ok(cart)
    }

    /// Read a byte from the ROM windows at 0x0000..0x8000.
    pub fn read_rom(&self, addr: u16) -> (v: u8)
        requires
            self.wf(),
            addr < 0x8000,
        ensures
            v == self.spec_read_rom(addr),
    {
        proof {
            lemma_len_is_banks(self.rom.len() as int);
        }
        let count: usize = self.rom.len() / 0x4000;
        assert(count >= 2) by (nonlinear_arith)
            requires
                count == self.rom.len() as int / 0x4000,
                self.rom.len() >= 0x8000,
        ;
        if addr < 0x4000 {
            let bank: usize = if matches!(self.kind, MbcKind::Mbc1) && self.mode {
                ((self.bank_hi as usize) * 32) % count
            } else {
                0
            };
            proof {
                lemma_mod_bound((self.bank_hi as int) * 32, count as int);
                lemma_bank_offset_in_rom(bank as int, count as int, self.rom.len() as int);
            }
            self.rom[bank * 0x4000 + addr as usize]
        } else {
            let bank: usize = match self.kind {
                MbcKind::NoMbc => 1,
                MbcKind::Mbc1 => ((self.bank_hi as usize) * 32 + self.rom_bank_low as usize)
                    % count,
                MbcKind::Mbc3 => (self.rom_bank_low as usize) % count,
                MbcKind::Mbc5 => ((self.bank_hi as usize) * 256 + self.rom_bank_low as usize)
                    % count,
            };
            proof {
                lemma_mod_bound((self.bank_hi as int) * 32 + self.rom_bank_low, count as int);
                lemma_mod_bound(self.rom_bank_low as int, count as int);
                lemma_mod_bound((self.bank_hi as int) * 256 + self.rom_bank_low, count as int);
                lemma_bank_offset_in_rom(bank as int, count as int, self.rom.len() as int);
            }
            self.rom[bank * 0x4000 + (addr as usize - 0x4000)]
        }
    }

    /// Read a byte from the cartridge-RAM window at 0xA000..0xC000.
    pub fn read_ram(&self, addr: u16) -> (v: u8)
        requires
            self.wf(),
            0xA000 <= addr < 0xC000,
        ensures
            v == self.spec_read_ram(addr),
    {
        if !self.ram_enable {
            return 0xFF;
        }
        if matches!(self.kind, MbcKind::Mbc3) && self.ram_bank >= 4 {
            return 0xFF;
        }
        let base: usize = match self.kind {
            MbcKind::NoMbc => 0,
            MbcKind::Mbc1 => if self.mode {
                (self.bank_hi as usize) * 0x2000
            } else {
                0
            },
            MbcKind::Mbc3 => (self.ram_bank as usize) * 0x2000,
            MbcKind::Mbc5 => (self.ram_bank as usize) * 0x2000,
        };
        let off = base + (addr as usize - 0xA000);
        if off < self.ram.len() {
            self.ram[off]
        } else {
            0xFF
        }
    }

    /// Write a byte into the cartridge-RAM window at 0xA000..0xC000; the
    /// write is dropped while RAM is disabled or the address not decoded.
    pub fn write_ram(&mut self, addr: u16, v: u8)
        requires
            old(self).wf(),
            0xA000 <= addr < 0xC000,
        ensures
            final(self).wf(),
            ram_write_effect(*old(self), *final(self), addr, v),
    {
        if !self.ram_enable {
            return ;
        }
        if matches!(self.kind, MbcKind::Mbc3) && self.ram_bank >= 4 {
            return ;
        }
        let base: usize = match self.kind {
            MbcKind::NoMbc => 0,
            MbcKind::Mbc1 => if self.mode {
                (self.bank_hi as usize) * 0x2000
            } else {
                0
            },
            MbcKind::Mbc3 => (self.ram_bank as usize) * 0x2000,
            MbcKind::Mbc5 => (self.ram_bank as usize) * 0x2000,
        };
        let off = base + (addr as usize - 0xA000);
        if off < self.ram.len() {
            self.ram[off] = v;
        }
    }

    /// A write into 0x0000..0x8000 programs the controller's latches.
    pub fn write_control(&mut self, addr: u16, v: u8)
        requires
            old(self).wf(),
            addr < 0x8000,
        ensures
            final(self).wf(),
            control_write_effect(*old(self), *final(self), addr, v),
    {
        match self.kind {
            MbcKind::NoMbc => {},
            MbcKind::Mbc1 => {
                if addr < 0x2000 {
                    self.ram_enable = (v & 0x0F) == 0x0A;
                } else if addr < 0x4000 {
                    let low = v & 0x1F;
                    proof {
                        assert(v & 0x1F < 32) by (bit_vector);
                    }
                    self.rom_bank_low = if low == 0 {
                        1
                    } else {
                        low
                    };
                } else if addr < 0x6000 {
                    proof {
                        assert(v & 0x03 < 4) by (bit_vector);
                    }
                    self.bank_hi = v & 0x03;
                } else {
                    self.mode = (v & 0x01) != 0;
                }
            },
            MbcKind::Mbc3 => {
                if addr < 0x2000 {
                    self.ram_enable = (v & 0x0F) == 0x0A;
                } else if addr < 0x4000 {
                    let low = v & 0x7F;
                    proof {
                        assert(v & 0x7F < 128) by (bit_vector);
                    }
                    self.rom_bank_low = if low == 0 {
                        1
                    } else {
                        low
                    };
                } else if addr < 0x6000 {
                    proof {
                        assert(v & 0x0F < 16) by (bit_vector);
                    }
                    self.ram_bank = v & 0x0F;
                } else {
                    // The clock-latch window; the core models no real-time
                    // clock, so the write is dropped.
                }
            },
            MbcKind::Mbc5 => {
                if addr < 0x2000 {
                    self.ram_enable = (v & 0x0F) == 0x0A;
                } else if addr < 0x3000 {
                    self.rom_bank_low = v;
                } else if addr < 0x4000 {
                    proof {
                        assert(v & 0x01 < 2) by (bit_vector);
                    }
                    self.bank_hi = v & 0x01;
                } else if addr < 0x6000 {
                    proof {
                        assert(v & 0x0F < 16) by (bit_vector);
                    }
                    self.ram_bank = v & 0x0F;
                } else {
                    // No latch lives above 0x6000 on this controller.
                }
            },
        }
    }

    /// The RAM image, for the host to persist when the header declares a
    /// battery.
    pub fn save_data(&self) -> (r: Vec<u8>)
        ensures
            r@ == self.ram@,
    {
        crate::bytes::clone_bytes(&self.ram)
    }
}

} // verus!

//! The SM83 processor: the register file, fetch and decode, the arithmetic
//! and rotate core with its exact flag semantics, and interrupt dispatch.

use crate::interrupt::highest_priority;
use crate::interrupt::intr_mask;
use crate::interrupt::intr_vector;
use crate::interrupt::InterruptController;
use crate::interrupt::InterruptKind;
use crate::mmu::write_effect;
use crate::mmu::Mmu;
use crate::registers::flags_byte;
use crate::registers::hi_byte;
use crate::registers::lo_byte;
use crate::registers::word_of;
use crate::registers::Flag;
use crate::registers::Registers;
use vstd::prelude::*;

verus! {

/// A masked low nibble is at most fifteen.
proof fn lemma_low_nibble(x: u8)
    by (bit_vector)
    ensures
        x & 0x0F <= 0x0F,
{
}

/// The processor: its register file, the master interrupt enable with its
/// one-instruction latency, and the halt latch.
pub struct Cpu {
    /// The register file.
    pub reg: Registers,
    /// The master interrupt enable.
    pub ime: bool,
    /// Set by HALT; the processor idles until an interrupt is pending.
    pub halted: bool,
    /// Set by EI: the enable takes effect only after the next instruction.
    pub ei_pending: bool,
    /// Set by the HALT quirk: the next opcode fetch fails to advance PC.
    pub halt_bug: bool,
}

impl Cpu {
    /// The flag register's low nibble is wired to zero.
    pub open spec fn wf(self) -> bool {
        self.reg.flags_ok()
    }

    /// The processor as the BIOS hand-off leaves it.
    pub fn power_on() -> (r: Self)
        ensures
            r.wf(),
            r.reg.a == 0x01,
            r.reg.f == 0xB0,
            r.reg.b == 0x00,
            r.reg.c == 0x13,
            r.reg.d == 0x00,
            r.reg.e == 0xD8,
            r.reg.h == 0x01,
            r.reg.l == 0x4D,
            r.reg.sp == 0xFFFE,
            r.reg.pc == 0x0100,
            !r.ime,
            !r.halted,
            !r.ei_pending,
            !r.halt_bug,
    {
        Cpu {
            reg: Registers::power_on(),
            ime: false,
            halted: false,
            ei_pending: false,
            halt_bug: false,
        }
    }

    /// Fetch the byte at PC and advance PC past it; under the HALT quirk
    /// one fetch fails to advance.
    pub fn imm(&mut self, mmu: &mut Mmu) -> (v: u8)
        requires
            old(self).wf(),
            old(mmu).wf(),
        ensures
            final(self).wf(),
            final(mmu).wf(),
            *final(mmu) == *old(mmu),
            v == old(mmu).spec_read(old(self).reg.pc),
            *final(self) == (Cpu {
                reg: (Registers {
                    pc: if old(self).halt_bug {
                        old(self).reg.pc
                    } else {
                        old(self).reg.pc.wrapping_add(1)
                    },
                    ..old(self).reg
                }),
                halt_bug: false,
                ..*old(self)
            }),
    {
        let v = mmu.read_byte(self.reg.pc);
        if self.halt_bug {
            self.halt_bug = false;
        } else {
            self.reg.pc = self.reg.pc.wrapping_add(1);
        }
        v
    }

    /// Fetch the little-endian word at PC and advance PC past it.
    pub fn imm_word(&mut self, mmu: &mut Mmu) -> (v: u16)
        requires
            old(self).wf(),
            old(mmu).wf(),
            !old(self).halt_bug,
        ensures
            final(self).wf(),
            final(mmu).wf(),
            *final(mmu) == *old(mmu),
            v == word_of(
                old(mmu).spec_read(old(self).reg.pc.wrapping_add(1)),
                old(mmu).spec_read(old(self).reg.pc),
            ),
            *final(self) == (Cpu {
                reg: (Registers { pc: old(self).reg.pc.wrapping_add(2), ..old(self).reg }),
                ..*old(self)
            }),
    {
        let lo = self.imm(mmu);
        let hi = self.imm(mmu);
        proof {
            crate::registers::lemma_word_join(hi, lo);
        }
        ((hi as u16) << 8) | (lo as u16)
    }

    /// Push a word: SP drops by two and the word lands there, low byte
    /// first.
    pub fn stack_push(&mut self, mmu: &mut Mmu, v: u16)
        requires
            old(self).wf(),
            old(mmu).wf(),
        ensures
            final(self).wf(),
            final(mmu).wf(),
            *final(self) == (Cpu {
                reg: (Registers { sp: old(self).reg.sp.wrapping_sub(2), ..old(self).reg }),
                ..*old(self)
            }),
            exists|mid: Mmu|
                #[trigger] write_effect(
                    *old(mmu),
                    mid,
                    old(self).reg.sp.wrapping_sub(2),
                    (v % 256) as u8,
                ) && write_effect(
                    mid,
                    *final(mmu),
                    old(self).reg.sp.wrapping_sub(2).wrapping_add(1),
                    (v / 256) as u8,
                ),
    {
        self.reg.sp = self.reg.sp.wrapping_sub(2);
        mmu.write_word(self.reg.sp, v);
    }

    /// Pop a word: the word at SP comes back and SP rises by two.
    pub fn stack_pop(&mut self, mmu: &mut Mmu) -> (v: u16)
        requires
            old(self).wf(),
            old(mmu).wf(),
        ensures
            final(self).wf(),
            final(mmu).wf(),
            *final(mmu) == *old(mmu),
            v == word_of(
                old(mmu).spec_read(old(self).reg.sp.wrapping_add(1)),
                old(mmu).spec_read(old(self).reg.sp),
            ),
            *final(self) == (Cpu {
                reg: (Registers { sp: old(self).reg.sp.wrapping_add(2), ..old(self).reg }),
                ..*old(self)
            }),
    {
        let lo = mmu.read_byte(self.reg.sp);
        let hi = mmu.read_byte(self.reg.sp.wrapping_add(1));
        self.reg.sp = self.reg.sp.wrapping_add(2);
        proof {
            crate::registers::lemma_word_join(hi, lo);
        }
        ((hi as u16) << 8) | (lo as u16)
    }

    /// ADD: A takes A + r; Z from the result, N clear, H from bit 3, C from
    /// bit 7.
    pub fn add(&mut self, r: u8)
        requires
            old(self).wf(),
        ensures
            final(self).wf(),
            *final(self) == (Cpu {
                reg: (Registers {
                    a: ((old(self).reg.a + r) % 256) as u8,
                    f: flags_byte(
                        (old(self).reg.a + r) % 256 == 0,
                        false,
                        (old(self).reg.a & 0x0F) + (r & 0x0F) > 0x0F,
                        old(self).reg.a + r > 0xFF,
                        old(self).reg.f,
                    ),
                    ..old(self).reg
                }),
                ..*old(self)
            }),
    {
        let a = self.reg.a;
        let v = a.wrapping_add(r);
        proof {
            lemma_low_nibble(a);
            lemma_low_nibble(r);
        }
        let h = (a & 0x0F) + (r & 0x0F) > 0x0F;
        let c = (a as u16) + (r as u16) > 0xFF;
        self.reg.set_znhc(v == 0, false, h, c);
        self.reg.a = v;
    }

    /// ADC: A takes A + r + carry, with the same flag rules as ADD.
    pub fn adc(&mut self, r: u8)
        requires
            old(self).wf(),
        ensures
            final(self).wf(),
            *final(self) == (Cpu {
                reg: (Registers {
                    a: ((old(self).reg.a + r + (if old(self).reg.spec_flag(Flag::C) {
                        1int
                    } else {
                        0int
                    })) % 256) as u8,
                    f: ({
                        let cin: int = if old(self).reg.spec_flag(Flag::C) {
                            1
                        } else {
                            0
                        };
                        flags_byte(
                            (old(self).reg.a + r + cin) % 256 == 0,
                            false,
                            (old(self).reg.a & 0x0F) + (r & 0x0F) + cin > 0x0F,
                            old(self).reg.a + r + cin > 0xFF,
                            old(self).reg.f,
                        )
                    }),
                    ..old(self).reg
                }),
                ..*old(self)
            }),
    {
        let cin: u8 = if self.reg.get_flag(Flag::C) {
            1
        } else {
            0
        };
        let a = self.reg.a;
        let v = a.wrapping_add(r).wrapping_add(cin);
        proof {
            lemma_low_nibble(a);
            lemma_low_nibble(r);
        }
        let h = (a & 0x0F) + (r & 0x0F) + cin > 0x0F;
        let c = (a as u16) + (r as u16) + (cin as u16) > 0xFF;
        self.reg.set_znhc(v == 0, false, h, c);
        self.reg.a = v;
    }

    /// SUB: A takes A - r; Z from the result, N set, H from a bit-4 borrow,
    /// C from a full borrow.
    pub fn sub(&mut self, r: u8)
        requires
            old(self).wf(),
        ensures
            final(self).wf(),
            *final(self) == (Cpu {
                reg: (Registers {
                    a: ((old(self).reg.a - r) % 256) as u8,
                    f: flags_byte(
                        (old(self).reg.a - r) % 256 == 0,
                        true,
                        (old(self).reg.a & 0x0F) < (r & 0x0F),
                        old(self).reg.a < r,
                        old(self).reg.f,
                    ),
                    ..old(self).reg
                }),
                ..*old(self)
            }),
    {
        let a = self.reg.a;
        let v = a.wrapping_sub(r);
        let h = (a & 0x0F) < (r & 0x0F);
        let c = a < r;
        self.reg.set_znhc(v == 0, true, h, c);
        self.reg.a = v;
    }

    /// SBC: A takes A - r - carry, with the same flag rules as SUB.
    pub fn sbc(&mut self, r: u8)
        requires
            old(self).wf(),
        ensures
            final(self).wf(),
            *final(self) == (Cpu {
                reg: (Registers {
                    a: ((old(self).reg.a - r - (if old(self).reg.spec_flag(Flag::C) {
                        1int
                    } else {
                        0int
                    })) % 256) as u8,
                    f: ({
                        let cin: int = if old(self).reg.spec_flag(Flag::C) {
                            1
                        } else {
                            0
                        };
                        flags_byte(
                            (old(self).reg.a - r - cin) % 256 == 0,
                            true,
                            (old(self).reg.a & 0x0F) < (r & 0x0F) + cin,
                            old(self).reg.a < r + cin,
                            old(self).reg.f,
                        )
                    }),
                    ..old(self).reg
                }),
                ..*old(self)
            }),
    {
        let cin: u8 = if self.reg.get_flag(Flag::C) {
            1
        } else {
            0
        };
        let a = self.reg.a;
        let v = a.wrapping_sub(r).wrapping_sub(cin);
        proof {
            lemma_low_nibble(a);
            lemma_low_nibble(r);
        }
        let h = (a & 0x0F) < (r & 0x0F) + cin;
        let c = (a as u16) < (r as u16) + (cin as u16);
        self.reg.set_znhc(v == 0, true, h, c);
        self.reg.a = v;
    }

    /// AND: A takes A & r; Z from the result, H set, N and C clear.
    pub fn and(&mut self, r: u8)
        requires
            old(self).wf(),
        ensures
            final(self).wf(),
            *final(self) == (Cpu {
                reg: (Registers {
                    a: old(self).reg.a & r,
                    f: flags_byte(old(self).reg.a & r == 0, false, true, false, old(self).reg.f),
                    ..old(self).reg
                }),
                ..*old(self)
            }),
    {
        let v = self.reg.a & r;
        self.reg.set_znhc(v == 0, false, true, false);
        self.reg.a = v;
    }

    /// XOR: A takes A ^ r; Z from the result, N, H and C clear.
    pub fn xor(&mut self, r: u8)
        requires
            old(self).wf(),
        ensures
            final(self).wf(),
            *final(self) == (Cpu {
                reg: (Registers {
                    a: old(self).reg.a ^ r,
                    f: flags_byte(old(self).reg.a ^ r == 0, false, false, false, old(self).reg.f),
                    ..old(self).reg
                }),
                ..*old(self)
            }),
    {
        let v = self.reg.a ^ r;
        self.reg.set_znhc(v == 0, false, false, false);
        self.reg.a = v;
    }

    /// OR: A takes A | r; Z from the result, N, H and C clear.
    pub fn or(&mut self, r: u8)
        requires
            old(self).wf(),
        ensures
            final(self).wf(),
            *final(self) == (Cpu {
                reg: (Registers {
                    a: old(self).reg.a | r,
                    f: flags_byte(old(self).reg.a | r == 0, false, false, false, old(self).reg.f),
                    ..old(self).reg
                }),
                ..*old(self)
            }),
    {
        let v = self.reg.a | r;
        self.reg.set_znhc(v == 0, false, false, false);
        self.reg.a = v;
    }

    /// CP: the flags of SUB with A kept.
    pub fn cp(&mut self, r: u8)
        requires
            old(self).wf(),
        ensures
            final(self).wf(),
            *final(self) == (Cpu {
                reg: (Registers {
                    f: flags_byte(
                        (old(self).reg.a - r) % 256 == 0,
                        true,
                        (old(self).reg.a & 0x0F) < (r & 0x0F),
                        old(self).reg.a < r,
                        old(self).reg.f,
                    ),
                    ..old(self).reg
                }),
                ..*old(self)
            }),
    {
        let a = self.reg.a;
        self.sub(r);
        self.reg.a = a;
    }

    /// INC on a byte: the incremented value comes back; Z and H from the
    /// result, N clear, C untouched.
    pub fn inc(&mut self, r: u8) -> (v: u8)
        requires
            old(self).wf(),
        ensures
            final(self).wf(),
            v == ((r + 1) % 256) as u8,
            *final(self) == (Cpu {
                reg: (Registers {
                    f: flags_byte(
                        (r + 1) % 256 == 0,
                        false,
                        (r & 0x0F) + 1 > 0x0F,
                        old(self).reg.spec_flag(Flag::C),
                        old(self).reg.f,
                    ),
                    ..old(self).reg
                }),
                ..*old(self)
            }),
    {
        let v = r.wrapping_add(1);
        let c = self.reg.get_flag(Flag::C);
        proof {
            lemma_low_nibble(r);
        }
        self.reg.set_znhc(v == 0, false, (r & 0x0F) + 1 > 0x0F, c);
        v
    }

    /// DEC on a byte: the decremented value comes back; Z and H from the
    /// result, N set, C untouched.
    pub fn dec(&mut self, r: u8) -> (v: u8)
        requires
            old(self).wf(),
        ensures
            final(self).wf(),
            v == ((r - 1) % 256) as u8,
            *final(self) == (Cpu {
                reg: (Registers {
                    f: flags_byte(
                        (r - 1) % 256 == 0,
                        true,
                        r & 0x0F == 0,
                        old(self).reg.spec_flag(Flag::C),
                        old(self).reg.f,
                    ),
                    ..old(self).reg
                }),
                ..*old(self)
            }),
    {
        let v = r.wrapping_sub(1);
        let c = self.reg.get_flag(Flag::C);
        self.reg.set_znhc(v == 0, true, r & 0x0F == 0, c);
        v
    }
}

} // verus!

verus! {

impl Cpu {
    /// Rotate left circular: bit 7 wraps to bit 0 and lands in C; Z from
    /// the result, N and H clear.
    pub fn rlc(&mut self, r: u8) -> (v: u8)
        requires
            old(self).wf(),
        ensures
            final(self).wf(),
            v == (r << 1) | (r >> 7),
            *final(self) == (Cpu {
                reg: (Registers {
                    f: flags_byte(
                        ((r << 1) | (r >> 7)) == 0,
                        false,
                        false,
                        r >> 7 == 1,
                        old(self).reg.f,
                    ),
                    ..old(self).reg
                }),
                ..*old(self)
            }),
    {
        let v = (r << 1u8) | (r >> 7u8);
        self.reg.set_znhc(v == 0, false, false, (r >> 7u8) == 1);
        v
    }

    /// Rotate right circular: bit 0 wraps to bit 7 and lands in C.
    pub fn rrc(&mut self, r: u8) -> (v: u8)
        requires
            old(self).wf(),
        ensures
            final(self).wf(),
            v == (r >> 1) | (r << 7),
            *final(self) == (Cpu {
                reg: (Registers {
                    f: flags_byte(
                        ((r >> 1) | (r << 7)) == 0,
                        false,
                        false,
                        r & 1 == 1,
                        old(self).reg.f,
                    ),
                    ..old(self).reg
                }),
                ..*old(self)
            }),
    {
        let v = (r >> 1u8) | (r << 7u8);
        self.reg.set_znhc(v == 0, false, false, (r & 1) == 1);
        v
    }

    /// Rotate left through carry: C enters bit 0, bit 7 leaves into C.
    pub fn rl(&mut self, r: u8) -> (v: u8)
        requires
            old(self).wf(),
        ensures
            final(self).wf(),
            v == (r << 1) | (if old(self).reg.spec_flag(Flag::C) {
                1u8
            } else {
                0u8
            }),
            *final(self) == (Cpu {
                reg: (Registers {
                    f: flags_byte(
                        ((r << 1) | (if old(self).reg.spec_flag(Flag::C) {
                            1u8
                        } else {
                            0u8
                        })) == 0,
                        false,
                        false,
                        r >> 7 == 1,
                        old(self).reg.f,
                    ),
                    ..old(self).reg
                }),
                ..*old(self)
            }),
    {
        let cin: u8 = if self.reg.get_flag(Flag::C) {
            1
        } else {
            0
        };
        let v = (r << 1u8) | cin;
        self.reg.set_znhc(v == 0, false, false, (r >> 7u8) == 1);
        v
    }

    /// Rotate right through carry: C enters bit 7, bit 0 leaves into C.
    pub fn rr(&mut self, r: u8) -> (v: u8)
        requires
            old(self).wf(),
        ensures
            final(self).wf(),
            v == (r >> 1) | (if old(self).reg.spec_flag(Flag::C) {
                0x80u8
            } else {
                0u8
            }),
            *final(self) == (Cpu {
                reg: (Registers {
                    f: flags_byte(
                        ((r >> 1) | (if old(self).reg.spec_flag(Flag::C) {
                            0x80u8
                        } else {
                            0u8
                        })) == 0,
                        false,
                        false,
                        r & 1 == 1,
                        old(self).reg.f,
                    ),
                    ..old(self).reg
                }),
                ..*old(self)
            }),
    {
        let cin: u8 = if self.reg.get_flag(Flag::C) {
            0x80
        } else {
            0
        };
        let v = (r >> 1u8) | cin;
        self.reg.set_znhc(v == 0, false, false, (r & 1) == 1);
        v
    }

    /// Shift left arithmetic: bit 7 leaves into C, bit 0 clears.
    pub fn sla(&mut self, r: u8) -> (v: u8)
        requires
            old(self).wf(),
        ensures
            final(self).wf(),
            v == r << 1,
            *final(self) == (Cpu {
                reg: (Registers {
                    f: flags_byte((r << 1) == 0, false, false, r >> 7 == 1, old(self).reg.f),
                    ..old(self).reg
                }),
                ..*old(self)
            }),
    {
        let v = r << 1u8;
        self.reg.set_znhc(v == 0, false, false, (r >> 7u8) == 1);
        v
    }

    /// Shift right arithmetic: bit 7 stays, bit 0 leaves into C.
    pub fn sra(&mut self, r: u8) -> (v: u8)
        requires
            old(self).wf(),
        ensures
            final(self).wf(),
            v == (r >> 1) | (r & 0x80),
            *final(self) == (Cpu {
                reg: (Registers {
                    f: flags_byte(
                        ((r >> 1) | (r & 0x80)) == 0,
                        false,
                        false,
                        r & 1 == 1,
                        old(self).reg.f,
                    ),
                    ..old(self).reg
                }),
                ..*old(self)
            }),
    {
        let v = (r >> 1u8) | (r & 0x80);
        self.reg.set_znhc(v == 0, false, false, (r & 1) == 1);
        v
    }

    /// Shift right logical: bit 7 clears, bit 0 leaves into C.
    pub fn srl(&mut self, r: u8) -> (v: u8)
        requires
            old(self).wf(),
        ensures
            final(self).wf(),
            v == r >> 1,
            *final(self) == (Cpu {
                reg: (Registers {
                    f: flags_byte((r >> 1) == 0, false, false, r & 1 == 1, old(self).reg.f),
                    ..old(self).reg
                }),
                ..*old(self)
            }),
    {
        let v = r >> 1u8;
        self.reg.set_znhc(v == 0, false, false, (r & 1) == 1);
        v
    }

    /// Swap the two nibbles; Z from the result, N, H and C clear.
    pub fn swap(&mut self, r: u8) -> (v: u8)
        requires
            old(self).wf(),
        ensures
            final(self).wf(),
            v == (r >> 4) | (r << 4),
            *final(self) == (Cpu {
                reg: (Registers {
                    f: flags_byte(((r >> 4) | (r << 4)) == 0, false, false, false, old(self).reg.f),
                    ..old(self).reg
                }),
                ..*old(self)
            }),
    {
        let v = (r >> 4u8) | (r << 4u8);
        self.reg.set_znhc(v == 0, false, false, false);
        v
    }

    /// BIT: Z is the complement of the tested bit, N clear, H set, C kept.
    pub fn bit_test(&mut self, r: u8, n: u8)
        requires
            old(self).wf(),
            n < 8,
        ensures
            final(self).wf(),
            *final(self) == (Cpu {
                reg: (Registers {
                    f: flags_byte(
                        (r >> n) & 1 == 0,
                        false,
                        true,
                        old(self).reg.spec_flag(Flag::C),
                        old(self).reg.f,
                    ),
                    ..old(self).reg
                }),
                ..*old(self)
            }),
    {
        let c = self.reg.get_flag(Flag::C);
        self.reg.set_znhc((r >> n) & 1 == 0, false, true, c);
    }

    /// ADD HL,rr: HL takes the 16-bit sum; Z kept, N clear, H from bit 11,
    /// C from bit 15.
    pub fn add_hl(&mut self, r: u16)
        requires
            old(self).wf(),
        ensures
            final(self).wf(),
            ({
                let hl = word_of(old(self).reg.h, old(self).reg.l);
                let sum = ((hl + r) % 0x10000) as u16;
                *final(self) == (Cpu {
                    reg: (Registers {
                        h: hi_byte(sum),
                        l: lo_byte(sum),
                        f: flags_byte(
                            old(self).reg.spec_flag(Flag::Z),
                            false,
                            (hl & 0x0FFF) + (r & 0x0FFF) > 0x0FFF,
                            hl + r > 0xFFFF,
                            old(self).reg.f,
                        ),
                        ..old(self).reg
                    }),
                    ..*old(self)
                })
            }),
    {
        let hl = self.reg.get_hl();
        let z = self.reg.get_flag(Flag::Z);
        proof {
            assert(hl & 0x0FFF <= 0x0FFF && r & 0x0FFF <= 0x0FFF) by (bit_vector);
        }
        let h = (hl & 0x0FFF) + (r & 0x0FFF) > 0x0FFF;
        let c = (hl as u32) + (r as u32) > 0xFFFF;
        self.reg.set_znhc(z, false, h, c);
        let v = hl.wrapping_add(r);
        self.reg.set_hl(v);
    }

    /// The signed-offset SP sum of ADD SP,r8 and LD HL,SP+r8, with its
    /// flags: Z and N clear, H and C from the unsigned low-nibble and
    /// low-byte additions.
    pub fn sp_plus_signed(&mut self, d: u8) -> (v: u16)
        requires
            old(self).wf(),
        ensures
            final(self).wf(),
            v == ((old(self).reg.sp + (if d < 0x80 {
                d as int
            } else {
                d - 0x100
            })) % 0x10000) as u16,
            *final(self) == (Cpu {
                reg: (Registers {
                    f: flags_byte(
                        false,
                        false,
                        (old(self).reg.sp & 0x000F) + (d & 0x0F) > 0x000F,
                        (old(self).reg.sp & 0x00FF) + d > 0x00FF,
                        old(self).reg.f,
                    ),
                    ..old(self).reg
                }),
                ..*old(self)
            }),
    {
        let sp = self.reg.sp;
        proof {
            lemma_low_nibble(d);
            assert(sp & 0x000F <= 0x000F && sp & 0x00FF <= 0x00FF) by (bit_vector);
            assert(sp & 0x000F == (sp as int) % 16 && sp & 0x00FF == (sp as int) % 256 && (
            d & 0x0F) == (d as int) % 16) by (bit_vector);
        }
        let h = (sp & 0x000F) + ((d & 0x0F) as u16) > 0x000F;
        let c = (sp & 0x00FF) + (d as u16) > 0x00FF;
        self.reg.set_znhc(false, false, h, c);
        let off: u16 = (d as i8) as u16;
        let v = sp.wrapping_add(off);
        proof {
            let dd = d;
            assert((dd as i8) as u16 == (if dd < 0x80 {
                dd as int
            } else {
                dd + 0xFF00
            })) by (bit_vector);
        }
        v
    }

    /// ADD SP,r8: fetch a signed offset and add it to SP, with the
    /// signed-sum flag rules.
    pub fn add_sp(&mut self, mmu: &mut Mmu)
        requires
            old(self).wf(),
            old(mmu).wf(),
            !old(self).halt_bug,
        ensures
            final(self).wf(),
            final(mmu).wf(),
            *final(mmu) == *old(mmu),
            ({
                let d = old(mmu).spec_read(old(self).reg.pc);
                *final(self) == (Cpu {
                    reg: (Registers {
                        pc: old(self).reg.pc.wrapping_add(1),
                        sp: ((old(self).reg.sp + (if d < 0x80 {
                            d as int
                        } else {
                            d - 0x100
                        })) % 0x10000) as u16,
                        f: flags_byte(
                            false,
                            false,
                            (old(self).reg.sp & 0x000F) + (d & 0x0F) > 0x000F,
                            (old(self).reg.sp & 0x00FF) + d > 0x00FF,
                            old(self).reg.f,
                        ),
                        ..old(self).reg
                    }),
                    ..*old(self)
                })
            }),
    {
        let d = self.imm(mmu);
        let v = self.sp_plus_signed(d);
        self.reg.sp = v;
    }

    /// DAA: decimal-adjust A after a BCD addition or subtraction; Z from
    /// the result, H clear, C set when the high digit adjusted, N kept.
    pub fn daa(&mut self)
        requires
            old(self).wf(),
        ensures
            final(self).wf(),
            ({
                let a0 = old(self).reg.a;
                let n = old(self).reg.spec_flag(Flag::N);
                let hf = old(self).reg.spec_flag(Flag::H);
                let cf = old(self).reg.spec_flag(Flag::C);
                let adj: int = (if cf || (!n && a0 > 0x99) {
                    0x60int
                } else {
                    0int
                }) + (if hf || (!n && a0 & 0x0F > 0x09) {
                    0x06int
                } else {
                    0int
                });
                let a1: u8 = if n {
                    ((a0 - adj) % 256) as u8
                } else {
                    ((a0 + adj) % 256) as u8
                };
                *final(self) == (Cpu {
                    reg: (Registers {
                        a: a1,
                        f: flags_byte(
                            a1 == 0,
                            n,
                            false,
                            cf || (!n && a0 > 0x99),
                            old(self).reg.f,
                        ),
                        ..old(self).reg
                    }),
                    ..*old(self)
                })
            }),
    {
        let a0 = self.reg.a;
        let n = self.reg.get_flag(Flag::N);
        let hf = self.reg.get_flag(Flag::H);
        let cf = self.reg.get_flag(Flag::C);
        proof {
            lemma_low_nibble(a0);
        }
        let high_adj = cf || (!n && a0 > 0x99);
        let low_adj = hf || (!n && (a0 & 0x0F) > 0x09);
        let adj: u8 = (if high_adj {
            0x60u8
        } else {
            0u8
        }) + (if low_adj {
            0x06u8
        } else {
            0u8
        });
        let a1 = if n {
            a0.wrapping_sub(adj)
        } else {
            a0.wrapping_add(adj)
        };
        self.reg.set_znhc(a1 == 0, n, false, high_adj);
        self.reg.a = a1;
    }

    /// The value of an 8-bit operand slot: B, C, D, E, H, L, the byte at
    /// HL, or A.
    pub fn read_r8(&self, mmu: &Mmu, idx: u8) -> (v: u8)
        requires
            self.wf(),
            mmu.wf(),
            idx < 8,
        ensures
            v == spec_r8(*self, *mmu, idx),
    {
        if idx == 0 {
            self.reg.b
        } else if idx == 1 {
            self.reg.c
        } else if idx == 2 {
            self.reg.d
        } else if idx == 3 {
            self.reg.e
        } else if idx == 4 {
            self.reg.h
        } else if idx == 5 {
            self.reg.l
        } else if idx == 6 {
            mmu.read_byte(self.reg.get_hl())
        } else {
            self.reg.a
        }
    }

    /// Store into an 8-bit operand slot; slot 6 writes the byte at HL.
    pub fn write_r8(&mut self, mmu: &mut Mmu, idx: u8, v: u8)
        requires
            old(self).wf(),
            old(mmu).wf(),
            idx < 8,
        ensures
            final(self).wf(),
            final(mmu).wf(),
            idx == 0 ==> *final(self) == (Cpu {
                reg: (Registers { b: v, ..old(self).reg }),
                ..*old(self)
            }) && *final(mmu) == *old(mmu),
            idx == 1 ==> *final(self) == (Cpu {
                reg: (Registers { c: v, ..old(self).reg }),
                ..*old(self)
            }) && *final(mmu) == *old(mmu),
            idx == 2 ==> *final(self) == (Cpu {
                reg: (Registers { d: v, ..old(self).reg }),
                ..*old(self)
            }) && *final(mmu) == *old(mmu),
            idx == 3 ==> *final(self) == (Cpu {
                reg: (Registers { e: v, ..old(self).reg }),
                ..*old(self)
            }) && *final(mmu) == *old(mmu),
            idx == 4 ==> *final(self) == (Cpu {
                reg: (Registers { h: v, ..old(self).reg }),
                ..*old(self)
            }) && *final(mmu) == *old(mmu),
            idx == 5 ==> *final(self) == (Cpu {
                reg: (Registers { l: v, ..old(self).reg }),
                ..*old(self)
            }) && *final(mmu) == *old(mmu),
            idx == 6 ==> *final(self) == *old(self) && write_effect(
                *old(mmu),
                *final(mmu),
                word_of(old(self).reg.h, old(self).reg.l),
                v,
            ),
            idx == 7 ==> *final(self) == (Cpu {
                reg: (Registers { a: v, ..old(self).reg }),
                ..*old(self)
            }) && *final(mmu) == *old(mmu),
    {
        if idx == 0 {
            self.reg.b = v;
        } else if idx == 1 {
            self.reg.c = v;
        } else if idx == 2 {
            self.reg.d = v;
        } else if idx == 3 {
            self.reg.e = v;
        } else if idx == 4 {
            self.reg.h = v;
        } else if idx == 5 {
            self.reg.l = v;
        } else if idx == 6 {
            let hl = self.reg.get_hl();
            mmu.write_byte(hl, v);
        } else {
            self.reg.a = v;
        }
    }
}

/// The value of an 8-bit operand slot.
pub open spec fn spec_r8(c: Cpu, m: Mmu, idx: u8) -> u8 {
    if idx == 0 {
        c.reg.b
    } else if idx == 1 {
        c.reg.c
    } else if idx == 2 {
        c.reg.d
    } else if idx == 3 {
        c.reg.e
    } else if idx == 4 {
        c.reg.h
    } else if idx == 5 {
        c.reg.l
    } else if idx == 6 {
        m.spec_read(word_of(c.reg.h, c.reg.l))
    } else {
        c.reg.a
    }
}

} // verus!

verus! {

/// Whether the processor decodes an opcode at all: STOP and the eleven
/// holes in the opcode map are fatal and excluded by contract.
pub open spec fn supported_opcode(op: u8) -> bool {
    !(op == 0x10 || op == 0xD3 || op == 0xDB || op == 0xDD || op == 0xE3 || op == 0xE4 || op
        == 0xEB || op == 0xEC || op == 0xED || op == 0xF4 || op == 0xFC || op == 0xFD)
}

/// Base cycle count of a primary opcode, as the classic table gives it.
pub open spec fn opcode_base_cycles(op: u8) -> int {
    if op < 0x40 {
        let col = op % 16;
        let row = op / 16;
        if col == 0 {
            if row < 2 {
                4
            } else {
                8
            }
        } else if col == 1 {
            12
        } else if col == 2 || col == 3 {
            8
        } else if col == 4 || col == 5 {
            if row == 3 {
                12
            } else {
                4
            }
        } else if col == 6 {
            if row == 3 {
                12
            } else {
                8
            }
        } else if col == 7 {
            4
        } else if col == 8 {
            if row == 0 {
                20
            } else if row == 1 {
                12
            } else {
                8
            }
        } else if col == 9 || col == 10 || col == 11 {
            8
        } else if col == 12 || col == 13 {
            4
        } else if col == 14 {
            8
        } else {
            4
        }
    } else if op < 0x80 {
        if op == 0x76 {
            4
        } else if op % 8 == 6 || (op / 8) % 8 == 6 {
            8
        } else {
            4
        }
    } else if op < 0xC0 {
        if op % 8 == 6 {
            8
        } else {
            4
        }
    } else if op == 0xC0 || op == 0xC8 || op == 0xD0 || op == 0xD8 || op == 0xC6 || op == 0xCE
        || op == 0xD6 || op == 0xDE || op == 0xE2 || op == 0xE6 || op == 0xEE || op == 0xF2 || op
        == 0xF6 || op == 0xF9 || op == 0xFE {
        8
    } else if op == 0xC1 || op == 0xC2 || op == 0xC4 || op == 0xCA || op == 0xCC || op == 0xD1
        || op == 0xD2 || op == 0xD4 || op == 0xDA || op == 0xDC || op == 0xE0 || op == 0xE1 || op
        == 0xF0 || op == 0xF1 || op == 0xF8 {
        12
    } else if op == 0xCD {
        24
    } else if op == 0xE9 || op == 0xF3 || op == 0xFB || op == 0xCB {
        4
    } else if op == 0xC3 || op == 0xC5 || op == 0xC7 || op == 0xC9 || op == 0xCF || op == 0xD5
        || op == 0xD7 || op == 0xD9 || op == 0xDF || op == 0xE5 || op == 0xE7 || op == 0xE8 || op
        == 0xEA || op == 0xEF || op == 0xF5 || op == 0xF7 || op == 0xFA || op == 0xFF {
        16
    } else {
        0
    }
}

/// Cycle count of a prefixed opcode: sixteen when it touches the byte at
/// HL, else eight.
pub open spec fn cb_cycles(cb: u8) -> int {
    if cb % 8 == 6 {
        16
    } else {
        8
    }
}

/// Whether a conditional jump, call or return takes its branch under the
/// given flags.
pub open spec fn branch_taken(op: u8, r: Registers) -> bool {
    if op == 0x20 || op == 0xC0 || op == 0xC2 || op == 0xC4 {
        !r.spec_flag(Flag::Z)
    } else if op == 0x28 || op == 0xC8 || op == 0xCA || op == 0xCC {
        r.spec_flag(Flag::Z)
    } else if op == 0x30 || op == 0xD0 || op == 0xD2 || op == 0xD4 {
        !r.spec_flag(Flag::C)
    } else if op == 0x38 || op == 0xD8 || op == 0xDA || op == 0xDC {
        r.spec_flag(Flag::C)
    } else {
        false
    }
}

/// The extra cycles a taken branch costs: four for jumps, twelve for calls
/// and returns.
pub open spec fn cond_extra(op: u8) -> int {
    if op == 0x20 || op == 0x28 || op == 0x30 || op == 0x38 || op == 0xC2 || op == 0xCA || op
        == 0xD2 || op == 0xDA {
        4
    } else if op == 0xC0 || op == 0xC8 || op == 0xD0 || op == 0xD8 || op == 0xC4 || op == 0xCC
        || op == 0xD4 || op == 0xDC {
        12
    } else {
        0
    }
}

/// The processor with one 8-bit register slot replaced; slot 6, the byte
/// at HL, lives on the bus and is not covered here.
pub open spec fn with_r8(c: Cpu, idx: u8, v: u8) -> Cpu {
    if idx == 0 {
        Cpu { reg: (Registers { b: v, ..c.reg }), ..c }
    } else if idx == 1 {
        Cpu { reg: (Registers { c: v, ..c.reg }), ..c }
    } else if idx == 2 {
        Cpu { reg: (Registers { d: v, ..c.reg }), ..c }
    } else if idx == 3 {
        Cpu { reg: (Registers { e: v, ..c.reg }), ..c }
    } else if idx == 4 {
        Cpu { reg: (Registers { h: v, ..c.reg }), ..c }
    } else if idx == 5 {
        Cpu { reg: (Registers { l: v, ..c.reg }), ..c }
    } else {
        Cpu { reg: (Registers { a: v, ..c.reg }), ..c }
    }
}

/// The processor with the flag byte replaced.
pub open spec fn with_f(c: Cpu, f: u8) -> Cpu {
    Cpu { reg: (Registers { f: f, ..c.reg }), ..c }
}

/// The processor with PC advanced past one operand byte.
pub open spec fn bump_pc(c: Cpu) -> Cpu {
    Cpu { reg: (Registers { pc: c.reg.pc.wrapping_add(1), ..c.reg }), ..c }
}

/// The processor with the BC pair replaced.
pub open spec fn with_bc(c: Cpu, v: u16) -> Cpu {
    Cpu { reg: (Registers { b: hi_byte(v), c: lo_byte(v), ..c.reg }), ..c }
}

/// The processor with the DE pair replaced.
pub open spec fn with_de(c: Cpu, v: u16) -> Cpu {
    Cpu { reg: (Registers { d: hi_byte(v), e: lo_byte(v), ..c.reg }), ..c }
}

/// The processor with the HL pair replaced.
pub open spec fn with_hl(c: Cpu, v: u16) -> Cpu {
    Cpu { reg: (Registers { h: hi_byte(v), l: lo_byte(v), ..c.reg }), ..c }
}

/// The processor with the AF pair replaced; F's low nibble stays grounded.
pub open spec fn with_af(c: Cpu, v: u16) -> Cpu {
    Cpu { reg: (Registers { a: hi_byte(v), f: lo_byte(v) & 0xF0, ..c.reg }), ..c }
}

/// The processor with the stack pointer replaced.
pub open spec fn with_sp(c: Cpu, v: u16) -> Cpu {
    Cpu { reg: (Registers { sp: v, ..c.reg }), ..c }
}

/// The processor with the program counter replaced.
pub open spec fn with_pc(c: Cpu, v: u16) -> Cpu {
    Cpu { reg: (Registers { pc: v, ..c.reg }), ..c }
}

/// The processor with PC advanced past a two-byte operand.
pub open spec fn bump2_pc(c: Cpu) -> Cpu {
    Cpu { reg: (Registers { pc: c.reg.pc.wrapping_add(2), ..c.reg }), ..c }
}

/// The arithmetic core's effect on the accumulator and flags, by the ALU
/// class of bits 5..3 of the opcode: ADD, ADC, SUB, SBC, AND, XOR, OR, CP.
pub open spec fn spec_alu(kind: u8, c: Cpu, v: u8) -> Cpu {
    let a = c.reg.a;
    let f = c.reg.f;
    if kind == 0 {
        with_r8(
            with_f(
                c,
                flags_byte(
                    (a + v) % 256 == 0,
                    false,
                    (a & 0x0F) + (v & 0x0F) > 0x0F,
                    a + v > 0xFF,
                    f,
                ),
            ),
            7,
            ((a + v) % 256) as u8,
        )
    } else if kind == 1 {
        let cin: int = if c.reg.spec_flag(Flag::C) {
            1
        } else {
            0
        };
        with_r8(
            with_f(
                c,
                flags_byte(
                    (a + v + cin) % 256 == 0,
                    false,
                    (a & 0x0F) + (v & 0x0F) + cin > 0x0F,
                    a + v + cin > 0xFF,
                    f,
                ),
            ),
            7,
            ((a + v + cin) % 256) as u8,
        )
    } else if kind == 2 {
        with_r8(
            with_f(
                c,
                flags_byte((a - v) % 256 == 0, true, (a & 0x0F) < (v & 0x0F), a < v, f),
            ),
            7,
            ((a - v) % 256) as u8,
        )
    } else if kind == 3 {
        let cin: int = if c.reg.spec_flag(Flag::C) {
            1
        } else {
            0
        };
        with_r8(
            with_f(
                c,
                flags_byte(
                    (a - v - cin) % 256 == 0,
                    true,
                    (a & 0x0F) < (v & 0x0F) + cin,
                    a < v + cin,
                    f,
                ),
            ),
            7,
            ((a - v - cin) % 256) as u8,
        )
    } else if kind == 4 {
        with_r8(with_f(c, flags_byte(a & v == 0, false, true, false, f)), 7, a & v)
    } else if kind == 5 {
        with_r8(with_f(c, flags_byte(a ^ v == 0, false, false, false, f)), 7, a ^ v)
    } else if kind == 6 {
        with_r8(with_f(c, flags_byte(a | v == 0, false, false, false, f)), 7, a | v)
    } else {
        with_f(c, flags_byte((a - v) % 256 == 0, true, (a & 0x0F) < (v & 0x0F), a < v, f))
    }
}

/// The flag byte after INC on a byte value: Z and H from the result, N
/// clear, C kept.
pub open spec fn inc_flags(c: Cpu, v0: u8) -> u8 {
    flags_byte((v0 + 1) % 256 == 0, false, (v0 & 0x0F) + 1 > 0x0F, c.reg.spec_flag(Flag::C), c.reg.f)
}

/// The flag byte after DEC on a byte value: Z and H from the result, N
/// set, C kept.
pub open spec fn dec_flags(c: Cpu, v0: u8) -> u8 {
    flags_byte((v0 - 1) % 256 == 0, true, v0 & 0x0F == 0, c.reg.spec_flag(Flag::C), c.reg.f)
}

/// What an instruction does to the processor and the bus. `c0` and `m0`
/// are the state just after the opcode fetch. Covered: every 8-bit load
/// (register, immediate, (HL) and indirect forms), the whole arithmetic
/// block in register and immediate form, INC/DEC in 8- and 16-bit form,
/// the 16-bit loads and POP, ADD HL, the accumulator rotates, CPL, SCF,
/// CCF, the absolute jumps, the high loads, DI and EI. The remainder -
/// HALT, DAA, the relative jumps, the SP-offset sums, PUSH, CALL, RET,
/// RST and the prefixed set - makes no claim here: those are pinned by
/// the exact contracts of the helpers they decode to (`daa`, `add_sp`,
/// `sp_plus_signed`, `stack_push`, `stack_pop`, the rotate and bit
/// helpers) and by the cycle and dispatch clauses.
pub open spec fn instr_effect(op: u8, c0: Cpu, m0: Mmu, c1: Cpu, m1: Mmu) -> bool {
    let hl = word_of(c0.reg.h, c0.reg.l);
    if 0x40 <= op < 0x80 && op != 0x76 {
        let v = spec_r8(c0, m0, op % 8);
        if (op / 8) % 8 == 6 {
            c1 == c0 && crate::mmu::write_effect(m0, m1, hl, v)
        } else {
            c1 == with_r8(c0, ((op / 8) % 8) as u8, v) && m1 == m0
        }
    } else if 0x80 <= op < 0xC0 {
        c1 == spec_alu(((op / 8) % 8) as u8, c0, spec_r8(c0, m0, op % 8)) && m1 == m0
    } else if op == 0xC6 || op == 0xCE || op == 0xD6 || op == 0xDE || op == 0xE6 || op == 0xEE
        || op == 0xF6 || op == 0xFE {
        c1 == spec_alu(((op / 8) % 8) as u8, bump_pc(c0), m0.spec_read(c0.reg.pc)) && m1 == m0
    } else if op < 0x40 && op % 8 == 6 {
        let v = m0.spec_read(c0.reg.pc);
        if op / 8 == 6 {
            c1 == bump_pc(c0) && crate::mmu::write_effect(m0, m1, hl, v)
        } else {
            c1 == with_r8(bump_pc(c0), (op / 8) as u8, v) && m1 == m0
        }
    } else if op < 0x40 && op % 8 == 4 {
        let t = op / 8;
        let u0 = spec_r8(c0, m0, t as u8);
        let u1 = ((u0 + 1) % 256) as u8;
        if t == 6 {
            c1 == with_f(c0, inc_flags(c0, u0)) && crate::mmu::write_effect(m0, m1, hl, u1)
        } else {
            c1 == with_r8(with_f(c0, inc_flags(c0, u0)), t as u8, u1) && m1 == m0
        }
    } else if op < 0x40 && op % 8 == 5 {
        let t = op / 8;
        let u0 = spec_r8(c0, m0, t as u8);
        let u1 = ((u0 - 1) % 256) as u8;
        if t == 6 {
            c1 == with_f(c0, dec_flags(c0, u0)) && crate::mmu::write_effect(m0, m1, hl, u1)
        } else {
            c1 == with_r8(with_f(c0, dec_flags(c0, u0)), t as u8, u1) && m1 == m0
        }
    } else if op == 0x00 {
        c1 == c0 && m1 == m0
    } else if op == 0x01 || op == 0x11 || op == 0x21 || op == 0x31 {
        let v = word_of(m0.spec_read(c0.reg.pc.wrapping_add(1)), m0.spec_read(c0.reg.pc));
        let c2 = bump2_pc(c0);
        m1 == m0 && (if op == 0x01 {
            c1 == with_bc(c2, v)
        } else if op == 0x11 {
            c1 == with_de(c2, v)
        } else if op == 0x21 {
            c1 == with_hl(c2, v)
        } else {
            c1 == with_sp(c2, v)
        })
    } else if op < 0x40 && (op % 16 == 3 || op % 16 == 0xB) {
        let cur = if op < 0x10 {
            word_of(c0.reg.b, c0.reg.c)
        } else if op < 0x20 {
            word_of(c0.reg.d, c0.reg.e)
        } else if op < 0x30 {
            hl
        } else {
            c0.reg.sp
        };
        let nv = if op % 16 == 3 {
            cur.wrapping_add(1)
        } else {
            cur.wrapping_sub(1)
        };
        m1 == m0 && (if op < 0x10 {
            c1 == with_bc(c0, nv)
        } else if op < 0x20 {
            c1 == with_de(c0, nv)
        } else if op < 0x30 {
            c1 == with_hl(c0, nv)
        } else {
            c1 == with_sp(c0, nv)
        })
    } else if op == 0x02 || op == 0x12 {
        let addr = if op == 0x02 {
            word_of(c0.reg.b, c0.reg.c)
        } else {
            word_of(c0.reg.d, c0.reg.e)
        };
        c1 == c0 && crate::mmu::write_effect(m0, m1, addr, c0.reg.a)
    } else if op == 0x0A || op == 0x1A {
        let addr = if op == 0x0A {
            word_of(c0.reg.b, c0.reg.c)
        } else {
            word_of(c0.reg.d, c0.reg.e)
        };
        c1 == with_r8(c0, 7, m0.spec_read(addr)) && m1 == m0
    } else if op == 0x22 || op == 0x32 {
        let nhl = if op == 0x22 {
            hl.wrapping_add(1)
        } else {
            hl.wrapping_sub(1)
        };
        c1 == with_hl(c0, nhl) && crate::mmu::write_effect(m0, m1, hl, c0.reg.a)
    } else if op == 0x2A || op == 0x3A {
        let nhl = if op == 0x2A {
            hl.wrapping_add(1)
        } else {
            hl.wrapping_sub(1)
        };
        c1 == with_hl(with_r8(c0, 7, m0.spec_read(hl)), nhl) && m1 == m0
    } else if op == 0x09 || op == 0x19 || op == 0x29 || op == 0x39 {
        let r = if op == 0x09 {
            word_of(c0.reg.b, c0.reg.c)
        } else if op == 0x19 {
            word_of(c0.reg.d, c0.reg.e)
        } else if op == 0x29 {
            hl
        } else {
            c0.reg.sp
        };
        let f = flags_byte(
            c0.reg.spec_flag(Flag::Z),
            false,
            (hl & 0x0FFF) + (r & 0x0FFF) > 0x0FFF,
            hl + r > 0xFFFF,
            c0.reg.f,
        );
        c1 == with_hl(with_f(c0, f), ((hl + r) % 0x10000) as u16) && m1 == m0
    } else if op == 0x07 || op == 0x0F || op == 0x17 || op == 0x1F {
        let a = c0.reg.a;
        let v: u8 = if op == 0x07 {
            (a << 1) | (a >> 7)
        } else if op == 0x0F {
            (a >> 1) | (a << 7)
        } else if op == 0x17 {
            (a << 1) | (if c0.reg.spec_flag(Flag::C) {
                1u8
            } else {
                0u8
            })
        } else {
            (a >> 1) | (if c0.reg.spec_flag(Flag::C) {
                0x80u8
            } else {
                0u8
            })
        };
        let carry = if op == 0x07 || op == 0x17 {
            a >> 7 == 1
        } else {
            a & 1 == 1
        };
        c1 == with_r8(with_f(c0, flags_byte(false, false, false, carry, c0.reg.f)), 7, v) && m1
            == m0
    } else if op == 0x2F {
        let f = flags_byte(c0.reg.spec_flag(Flag::Z), true, true, c0.reg.spec_flag(Flag::C), c0.reg.f);
        c1 == with_r8(with_f(c0, f), 7, !c0.reg.a) && m1 == m0
    } else if op == 0x37 || op == 0x3F {
        let nc = if op == 0x37 {
            true
        } else {
            !c0.reg.spec_flag(Flag::C)
        };
        c1 == with_f(c0, flags_byte(c0.reg.spec_flag(Flag::Z), false, false, nc, c0.reg.f)) && m1
            == m0
    } else if op == 0xC3 {
        c1 == with_pc(
            c0,
            word_of(m0.spec_read(c0.reg.pc.wrapping_add(1)), m0.spec_read(c0.reg.pc)),
        ) && m1 == m0
    } else if op == 0xC2 || op == 0xCA || op == 0xD2 || op == 0xDA {
        let a = word_of(m0.spec_read(c0.reg.pc.wrapping_add(1)), m0.spec_read(c0.reg.pc));
        m1 == m0 && (if branch_taken(op, c0.reg) {
            c1 == with_pc(c0, a)
        } else {
            c1 == bump2_pc(c0)
        })
    } else if op == 0xE9 {
        c1 == with_pc(c0, hl) && m1 == m0
    } else if op == 0xE0 {
        let d = m0.spec_read(c0.reg.pc);
        c1 == bump_pc(c0) && crate::mmu::write_effect(m0, m1, (0xFF00 + d) as u16, c0.reg.a)
    } else if op == 0xF0 {
        let d = m0.spec_read(c0.reg.pc);
        c1 == with_r8(bump_pc(c0), 7, m0.spec_read((0xFF00 + d) as u16)) && m1 == m0
    } else if op == 0xE2 {
        c1 == c0 && crate::mmu::write_effect(m0, m1, (0xFF00 + c0.reg.c) as u16, c0.reg.a)
    } else if op == 0xF2 {
        c1 == with_r8(c0, 7, m0.spec_read((0xFF00 + c0.reg.c) as u16)) && m1 == m0
    } else if op == 0xEA {
        let addr = word_of(m0.spec_read(c0.reg.pc.wrapping_add(1)), m0.spec_read(c0.reg.pc));
        c1 == bump2_pc(c0) && crate::mmu::write_effect(m0, m1, addr, c0.reg.a)
    } else if op == 0xFA {
        let addr = word_of(m0.spec_read(c0.reg.pc.wrapping_add(1)), m0.spec_read(c0.reg.pc));
        c1 == with_r8(bump2_pc(c0), 7, m0.spec_read(addr)) && m1 == m0
    } else if op == 0xC1 || op == 0xD1 || op == 0xE1 || op == 0xF1 {
        let v = word_of(m0.spec_read(c0.reg.sp.wrapping_add(1)), m0.spec_read(c0.reg.sp));
        let c2 = with_sp(c0, c0.reg.sp.wrapping_add(2));
        m1 == m0 && (if op == 0xC1 {
            c1 == with_bc(c2, v)
        } else if op == 0xD1 {
            c1 == with_de(c2, v)
        } else if op == 0xE1 {
            c1 == with_hl(c2, v)
        } else {
            c1 == with_af(c2, v)
        })
    } else if op == 0xF9 {
        c1 == with_sp(c0, hl) && m1 == m0
    } else if op == 0xF3 {
        c1 == (Cpu { ime: false, ei_pending: false, ..c0 }) && m1 == m0
    } else if op == 0xFB {
        c1 == (Cpu { ei_pending: true, ..c0 }) && m1 == m0
    } else {
        true
    }
}

/// Whether the processor services an interrupt before fetching: the master
/// enable is on and some enabled interrupt is pending.
pub open spec fn dispatch_ready(c: Cpu, m: Mmu) -> bool {
    c.ime && m.intr.spec_pending() != 0
}

} // verus!

verus! {

impl Cpu {
    /// Decode and run one fetched opcode, with its operand fetches, and
    /// return its cycle cost from the classic tables, conditional extras
    /// included.
    #[verifier::rlimit(100)]
    #[verifier::spinoff_prover]
    pub fn execute(&mut self, mmu: &mut Mmu, op: u8) -> (cycles: usize)
        requires
            old(self).wf(),
            old(mmu).wf(),
            !old(self).halt_bug,
            supported_opcode(op),
        ensures
            final(self).wf(),
            final(mmu).wf(),
            op != 0xCB ==> cycles == opcode_base_cycles(op) + (if branch_taken(
                op,
                old(self).reg,
            ) {
                cond_extra(op)
            } else {
                0int
            }),
            op == 0xCB ==> cycles == cb_cycles(old(mmu).spec_read(old(self).reg.pc)),
            4 <= cycles <= 24,
            instr_effect(op, *old(self), *old(mmu), *final(self), *final(mmu)),
    {
        if op < 0x40 {
            self.execute_misc(mmu, op)
        } else if op < 0x80 {
            self.execute_load(mmu, op)
        } else if op < 0xC0 {
            self.execute_arith(mmu, op)
        } else {
            self.execute_control(mmu, op)
        }
    }

    /// Decode the 0x00..0x40 quarter: 16-bit and immediate loads, the
    /// accumulator rotates, relative jumps, INC/DEC, DAA and the flag ops.
    #[verifier::rlimit(100)]
    #[verifier::spinoff_prover]
    fn execute_misc(&mut self, mmu: &mut Mmu, op: u8) -> (cycles: usize)
        requires
            old(self).wf(),
            old(mmu).wf(),
            !old(self).halt_bug,
            supported_opcode(op),
            op < 0x40,
        ensures
            final(self).wf(),
            final(mmu).wf(),
            cycles == opcode_base_cycles(op) + (if branch_taken(op, old(self).reg) {
                cond_extra(op)
            } else {
                0int
            }),
            4 <= cycles <= 24,
            instr_effect(op, *old(self), *old(mmu), *final(self), *final(mmu)),
    {
        if op == 0x00 {
            return 4;
        } else if op == 0x01 {
            let v = self.imm_word(mmu);
            self.reg.set_bc(v);
            return 12;
        } else if op == 0x02 {
            let addr = self.reg.get_bc();
            let a = self.reg.a;
            mmu.write_byte(addr, a);
            return 8;
        } else if op == 0x03 {
            let v = self.reg.get_bc().wrapping_add(1);
            self.reg.set_bc(v);
            return 8;
        } else if op == 0x04 {
            let v = self.inc(self.reg.b);
            self.reg.b = v;
            return 4;
        } else if op == 0x05 {
            let v = self.dec(self.reg.b);
            self.reg.b = v;
            return 4;
        } else if op == 0x06 {
            let v = self.imm(mmu);
            self.reg.b = v;
            return 8;
        } else if op == 0x07 {
            let a = self.reg.a;
            let v = (a << 1u8) | (a >> 7u8);
            self.reg.set_znhc(false, false, false, (a >> 7u8) == 1);
            self.reg.a = v;
            return 4;
        } else if op == 0x08 {
            let addr = self.imm_word(mmu);
            let sp = self.reg.sp;
            mmu.write_word(addr, sp);
            return 20;
        } else if op == 0x09 {
            let v = self.reg.get_bc();
            self.add_hl(v);
            return 8;
        } else if op == 0x0A {
            let addr = self.reg.get_bc();
            self.reg.a = mmu.read_byte(addr);
            return 8;
        } else if op == 0x0B {
            let v = self.reg.get_bc().wrapping_sub(1);
            self.reg.set_bc(v);
            return 8;
        } else if op == 0x0C {
            let v = self.inc(self.reg.c);
            self.reg.c = v;
            return 4;
        } else if op == 0x0D {
            let v = self.dec(self.reg.c);
            self.reg.c = v;
            return 4;
        } else if op == 0x0E {
            let v = self.imm(mmu);
            self.reg.c = v;
            return 8;
        } else if op == 0x0F {
            let a = self.reg.a;
            let v = (a >> 1u8) | (a << 7u8);
            self.reg.set_znhc(false, false, false, (a & 1) == 1);
            self.reg.a = v;
            return 4;
        } else if op == 0x11 {
            let v = self.imm_word(mmu);
            self.reg.set_de(v);
            return 12;
        } else if op == 0x12 {
            let addr = self.reg.get_de();
            let a = self.reg.a;
            mmu.write_byte(addr, a);
            return 8;
        } else if op == 0x13 {
            let v = self.reg.get_de().wrapping_add(1);
            self.reg.set_de(v);
            return 8;
        } else if op == 0x14 {
            let v = self.inc(self.reg.d);
            self.reg.d = v;
            return 4;
        } else if op == 0x15 {
            let v = self.dec(self.reg.d);
            self.reg.d = v;
            return 4;
        } else if op == 0x16 {
            let v = self.imm(mmu);
            self.reg.d = v;
            return 8;
        } else if op == 0x17 {
            let a = self.reg.a;
            let cin: u8 = if self.reg.get_flag(Flag::C) {
                1
            } else {
                0
            };
            let v = (a << 1u8) | cin;
            self.reg.set_znhc(false, false, false, (a >> 7u8) == 1);
            self.reg.a = v;
            return 4;
        } else if op == 0x18 {
            let d = self.imm(mmu);
            self.reg.pc = self.reg.pc.wrapping_add((d as i8) as u16);
            return 12;
        } else if op == 0x19 {
            let v = self.reg.get_de();
            self.add_hl(v);
            return 8;
        } else if op == 0x1A {
            let addr = self.reg.get_de();
            self.reg.a = mmu.read_byte(addr);
            return 8;
        } else if op == 0x1B {
            let v = self.reg.get_de().wrapping_sub(1);
            self.reg.set_de(v);
            return 8;
        } else if op == 0x1C {
            let v = self.inc(self.reg.e);
            self.reg.e = v;
            return 4;
        } else if op == 0x1D {
            let v = self.dec(self.reg.e);
            self.reg.e = v;
            return 4;
        } else if op == 0x1E {
            let v = self.imm(mmu);
            self.reg.e = v;
            return 8;
        } else if op == 0x1F {
            let a = self.reg.a;
            let cin: u8 = if self.reg.get_flag(Flag::C) {
                0x80
            } else {
                0
            };
            let v = (a >> 1u8) | cin;
            self.reg.set_znhc(false, false, false, (a & 1) == 1);
            self.reg.a = v;
            return 4;
        } else if op == 0x20 {
            let d = self.imm(mmu);
            if !self.reg.get_flag(Flag::Z) {
                self.reg.pc = self.reg.pc.wrapping_add((d as i8) as u16);
                return 12;
            }
            return 8;
        } else if op == 0x21 {
            let v = self.imm_word(mmu);
            self.reg.set_hl(v);
            return 12;
        } else if op == 0x22 {
            let addr = self.reg.get_hl();
            let a = self.reg.a;
            mmu.write_byte(addr, a);
            self.reg.set_hl(addr.wrapping_add(1));
            return 8;
        } else if op == 0x23 {
            let v = self.reg.get_hl().wrapping_add(1);
            self.reg.set_hl(v);
            return 8;
        } else if op == 0x24 {
            let v = self.inc(self.reg.h);
            self.reg.h = v;
            return 4;
        } else if op == 0x25 {
            let v = self.dec(self.reg.h);
            self.reg.h = v;
            return 4;
        } else if op == 0x26 {
            let v = self.imm(mmu);
            self.reg.h = v;
            return 8;
        } else if op == 0x27 {
            self.daa();
            return 4;
        } else if op == 0x28 {
            let d = self.imm(mmu);
            if self.reg.get_flag(Flag::Z) {
                self.reg.pc = self.reg.pc.wrapping_add((d as i8) as u16);
                return 12;
            }
            return 8;
        } else if op == 0x29 {
            let v = self.reg.get_hl();
            self.add_hl(v);
            return 8;
        } else if op == 0x2A {
            let addr = self.reg.get_hl();
            self.reg.a = mmu.read_byte(addr);
            self.reg.set_hl(addr.wrapping_add(1));
            return 8;
        } else if op == 0x2B {
            let v = self.reg.get_hl().wrapping_sub(1);
            self.reg.set_hl(v);
            return 8;
        } else if op == 0x2C {
            let v = self.inc(self.reg.l);
            self.reg.l = v;
            return 4;
        } else if op == 0x2D {
            let v = self.dec(self.reg.l);
            self.reg.l = v;
            return 4;
        } else if op == 0x2E {
            let v = self.imm(mmu);
            self.reg.l = v;
            return 8;
        } else if op == 0x2F {
            let z = self.reg.get_flag(Flag::Z);
            let c = self.reg.get_flag(Flag::C);
            self.reg.set_znhc(z, true, true, c);
            self.reg.a = !self.reg.a;
            return 4;
        } else if op == 0x30 {
            let d = self.imm(mmu);
            if !self.reg.get_flag(Flag::C) {
                self.reg.pc = self.reg.pc.wrapping_add((d as i8) as u16);
                return 12;
            }
            return 8;
        } else if op == 0x31 {
            let v = self.imm_word(mmu);
            self.reg.sp = v;
            return 12;
        } else if op == 0x32 {
            let addr = self.reg.get_hl();
            let a = self.reg.a;
            mmu.write_byte(addr, a);
            self.reg.set_hl(addr.wrapping_sub(1));
            return 8;
        } else if op == 0x33 {
            self.reg.sp = self.reg.sp.wrapping_add(1);
            return 8;
        } else if op == 0x34 {
            let addr = self.reg.get_hl();
            let v0 = mmu.read_byte(addr);
            let v = self.inc(v0);
            mmu.write_byte(addr, v);
            return 12;
        } else if op == 0x35 {
            let addr = self.reg.get_hl();
            let v0 = mmu.read_byte(addr);
            let v = self.dec(v0);
            mmu.write_byte(addr, v);
            return 12;
        } else if op == 0x36 {
            let v = self.imm(mmu);
            let addr = self.reg.get_hl();
            mmu.write_byte(addr, v);
            return 12;
        } else if op == 0x37 {
            let z = self.reg.get_flag(Flag::Z);
            self.reg.set_znhc(z, false, false, true);
            return 4;
        } else if op == 0x38 {
            let d = self.imm(mmu);
            if self.reg.get_flag(Flag::C) {
                self.reg.pc = self.reg.pc.wrapping_add((d as i8) as u16);
                return 12;
            }
            return 8;
        } else if op == 0x39 {
            let v = self.reg.sp;
            self.add_hl(v);
            return 8;
        } else if op == 0x3A {
            let addr = self.reg.get_hl();
            self.reg.a = mmu.read_byte(addr);
            self.reg.set_hl(addr.wrapping_sub(1));
            return 8;
        } else if op == 0x3B {
            self.reg.sp = self.reg.sp.wrapping_sub(1);
            return 8;
        } else if op == 0x3C {
            let v = self.inc(self.reg.a);
            self.reg.a = v;
            return 4;
        } else if op == 0x3D {
            let v = self.dec(self.reg.a);
            self.reg.a = v;
            return 4;
        } else if op == 0x3E {
            let v = self.imm(mmu);
            self.reg.a = v;
            return 8;
        } else {
            let z = self.reg.get_flag(Flag::Z);
            let c = self.reg.get_flag(Flag::C);
            self.reg.set_znhc(z, false, false, !c);
            return 4;
        }
    }

    /// Decode the 0x40..0x80 quarter: the register-to-register loads and
    /// HALT.
    #[verifier::rlimit(100)]
    #[verifier::spinoff_prover]
    fn execute_load(&mut self, mmu: &mut Mmu, op: u8) -> (cycles: usize)
        requires
            old(self).wf(),
            old(mmu).wf(),
            !old(self).halt_bug,
            supported_opcode(op),
            0x40 <= op < 0x80,
        ensures
            final(self).wf(),
            final(mmu).wf(),
            cycles == opcode_base_cycles(op) + (if branch_taken(op, old(self).reg) {
                cond_extra(op)
            } else {
                0int
            }),
            4 <= cycles <= 24,
            instr_effect(op, *old(self), *old(mmu), *final(self), *final(mmu)),
    {
        if op == 0x76 {
            if self.ime {
                self.halted = true;
            } else {
                let p = mmu.intr.pending();
                if p != 0 {
                    self.halt_bug = true;
                } else {
                    self.halted = true;
                }
            }
            return 4;
        }
        let src = op % 8;
        let dst = (op / 8) % 8;
        let v = self.read_r8(mmu, src);
        self.write_r8(mmu, dst, v);
        if src == 6 || dst == 6 {
            return 8;
        }
        return 4;
    }

    /// Decode the 0x80..0xC0 quarter: the arithmetic core on register
    /// operands.
    #[verifier::rlimit(100)]
    #[verifier::spinoff_prover]
    fn execute_arith(&mut self, mmu: &mut Mmu, op: u8) -> (cycles: usize)
        requires
            old(self).wf(),
            old(mmu).wf(),
            !old(self).halt_bug,
            supported_opcode(op),
            0x80 <= op < 0xC0,
        ensures
            final(self).wf(),
            final(mmu).wf(),
            cycles == opcode_base_cycles(op) + (if branch_taken(op, old(self).reg) {
                cond_extra(op)
            } else {
                0int
            }),
            4 <= cycles <= 24,
            instr_effect(op, *old(self), *old(mmu), *final(self), *final(mmu)),
    {
        let src = op % 8;
        let v = self.read_r8(mmu, src);
        let kind = (op / 8) % 8;
        if kind == 0 {
            self.add(v);
        } else if kind == 1 {
            self.adc(v);
        } else if kind == 2 {
            self.sub(v);
        } else if kind == 3 {
            self.sbc(v);
        } else if kind == 4 {
            self.and(v);
        } else if kind == 5 {
            self.xor(v);
        } else if kind == 6 {
            self.or(v);
        } else {
            self.cp(v);
        }
        if src == 6 {
            return 8;
        }
        return 4;
    }

    /// Decode the 0xC0.. quarter: jumps, calls, returns, the stack, the
    /// prefixed set, the high loads and the interrupt-enable instructions.
    #[verifier::rlimit(100)]
    #[verifier::spinoff_prover]
    fn execute_control(&mut self, mmu: &mut Mmu, op: u8) -> (cycles: usize)
        requires
            old(self).wf(),
            old(mmu).wf(),
            !old(self).halt_bug,
            supported_opcode(op),
            op >= 0xC0,
        ensures
            final(self).wf(),
            final(mmu).wf(),
            op != 0xCB ==> cycles == opcode_base_cycles(op) + (if branch_taken(
                op,
                old(self).reg,
            ) {
                cond_extra(op)
            } else {
                0int
            }),
            op == 0xCB ==> cycles == cb_cycles(old(mmu).spec_read(old(self).reg.pc)),
            4 <= cycles <= 24,
            instr_effect(op, *old(self), *old(mmu), *final(self), *final(mmu)),
    {
        if op == 0xC0 || op == 0xC8 || op == 0xD0 || op == 0xD8 {
            let taken = if op == 0xC0 {
                !self.reg.get_flag(Flag::Z)
            } else if op == 0xC8 {
                self.reg.get_flag(Flag::Z)
            } else if op == 0xD0 {
                !self.reg.get_flag(Flag::C)
            } else {
                self.reg.get_flag(Flag::C)
            };
            if taken {
                let a = self.stack_pop(mmu);
                self.reg.pc = a;
                return 20;
            }
            return 8;
        } else if op == 0xC1 {
            let v = self.stack_pop(mmu);
            self.reg.set_bc(v);
            return 12;
        } else if op == 0xD1 {
            let v = self.stack_pop(mmu);
            self.reg.set_de(v);
            return 12;
        } else if op == 0xE1 {
            let v = self.stack_pop(mmu);
            self.reg.set_hl(v);
            return 12;
        } else if op == 0xF1 {
            let v = self.stack_pop(mmu);
            self.reg.set_af(v);
            return 12;
        } else if op == 0xC2 || op == 0xCA || op == 0xD2 || op == 0xDA {
            let a = self.imm_word(mmu);
            let taken = if op == 0xC2 {
                !self.reg.get_flag(Flag::Z)
            } else if op == 0xCA {
                self.reg.get_flag(Flag::Z)
            } else if op == 0xD2 {
                !self.reg.get_flag(Flag::C)
            } else {
                self.reg.get_flag(Flag::C)
            };
            if taken {
                self.reg.pc = a;
                return 16;
            }
            return 12;
        } else if op == 0xC3 {
            let a = self.imm_word(mmu);
            self.reg.pc = a;
            return 16;
        } else if op == 0xC4 || op == 0xCC || op == 0xD4 || op == 0xDC {
            let a = self.imm_word(mmu);
            let taken = if op == 0xC4 {
                !self.reg.get_flag(Flag::Z)
            } else if op == 0xCC {
                self.reg.get_flag(Flag::Z)
            } else if op == 0xD4 {
                !self.reg.get_flag(Flag::C)
            } else {
                self.reg.get_flag(Flag::C)
            };
            if taken {
                let pc = self.reg.pc;
                self.stack_push(mmu, pc);
                self.reg.pc = a;
                return 24;
            }
            return 12;
        } else if op == 0xC5 {
            let v = self.reg.get_bc();
            self.stack_push(mmu, v);
            return 16;
        } else if op == 0xD5 {
            let v = self.reg.get_de();
            self.stack_push(mmu, v);
            return 16;
        } else if op == 0xE5 {
            let v = self.reg.get_hl();
            self.stack_push(mmu, v);
            return 16;
        } else if op == 0xF5 {
            let v = self.reg.get_af();
            self.stack_push(mmu, v);
            return 16;
        } else if op == 0xC6 {
            let v = self.imm(mmu);
            self.add(v);
            return 8;
        } else if op == 0xCE {
            let v = self.imm(mmu);
            self.adc(v);
            return 8;
        } else if op == 0xD6 {
            let v = self.imm(mmu);
            self.sub(v);
            return 8;
        } else if op == 0xDE {
            let v = self.imm(mmu);
            self.sbc(v);
            return 8;
        } else if op == 0xE6 {
            let v = self.imm(mmu);
            self.and(v);
            return 8;
        } else if op == 0xEE {
            let v = self.imm(mmu);
            self.xor(v);
            return 8;
        } else if op == 0xF6 {
            let v = self.imm(mmu);
            self.or(v);
            return 8;
        } else if op == 0xFE {
            let v = self.imm(mmu);
            self.cp(v);
            return 8;
        } else if op == 0xC7 || op == 0xCF || op == 0xD7 || op == 0xDF || op == 0xE7 || op
            == 0xEF || op == 0xF7 || op == 0xFF {
            let pc = self.reg.pc;
            self.stack_push(mmu, pc);
            self.reg.pc = ((op - 0xC7) as u16 / 8) * 8;
            return 16;
        } else if op == 0xC9 {
            let a = self.stack_pop(mmu);
            self.reg.pc = a;
            return 16;
        } else if op == 0xD9 {
            let a = self.stack_pop(mmu);
            self.reg.pc = a;
            self.ime = true;
            return 16;
        } else if op == 0xCB {
            let cb = self.imm(mmu);
            let target = cb % 8;
            let v = self.read_r8(mmu, target);
            let kind = cb / 8;
            if kind < 8 {
                let nv = if kind == 0 {
                    self.rlc(v)
                } else if kind == 1 {
                    self.rrc(v)
                } else if kind == 2 {
                    self.rl(v)
                } else if kind == 3 {
                    self.rr(v)
                } else if kind == 4 {
                    self.sla(v)
                } else if kind == 5 {
                    self.sra(v)
                } else if kind == 6 {
                    self.swap(v)
                } else {
                    self.srl(v)
                };
                self.write_r8(mmu, target, nv);
            } else if kind < 16 {
                self.bit_test(v, kind - 8);
            } else if kind < 24 {
                let nv = v & !(1u8 << (kind - 16));
                self.write_r8(mmu, target, nv);
            } else {
                let nv = v | (1u8 << (kind - 24));
                self.write_r8(mmu, target, nv);
            }
            if target == 6 {
                return 16;
            }
            return 8;
        } else if op == 0xE0 {
            let n = self.imm(mmu);
            let a = self.reg.a;
            mmu.write_byte(0xFF00 + n as u16, a);
            return 12;
        } else if op == 0xF0 {
            let n = self.imm(mmu);
            self.reg.a = mmu.read_byte(0xFF00 + n as u16);
            return 12;
        } else if op == 0xE2 {
            let a = self.reg.a;
            let c = self.reg.c;
            mmu.write_byte(0xFF00 + c as u16, a);
            return 8;
        } else if op == 0xF2 {
            let c = self.reg.c;
            self.reg.a = mmu.read_byte(0xFF00 + c as u16);
            return 8;
        } else if op == 0xE8 {
            self.add_sp(mmu);
            return 16;
        } else if op == 0xF8 {
            let d = self.imm(mmu);
            let v = self.sp_plus_signed(d);
            self.reg.set_hl(v);
            return 12;
        } else if op == 0xE9 {
            let a = self.reg.get_hl();
            self.reg.pc = a;
            return 4;
        } else if op == 0xF9 {
            let v = self.reg.get_hl();
            self.reg.sp = v;
            return 8;
        } else if op == 0xEA {
            let addr = self.imm_word(mmu);
            let a = self.reg.a;
            mmu.write_byte(addr, a);
            return 16;
        } else if op == 0xFA {
            let addr = self.imm_word(mmu);
            self.reg.a = mmu.read_byte(addr);
            return 16;
        } else if op == 0xCD {
            let a = self.imm_word(mmu);
            let pc = self.reg.pc;
            self.stack_push(mmu, pc);
            self.reg.pc = a;
            return 24;
        } else if op == 0xF3 {
            self.ime = false;
            self.ei_pending = false;
            return 4;
        } else if op == 0xFB {
            self.ei_pending = true;
            return 4;
        } else {
            proof {
                assert(false);
            }
            return 4;
        }
    }
}

} // verus!

verus! {

/// The processor as the fetch phase of a step leaves it: a pending EI has
/// taken effect, the opcode fetch advanced PC (unless the HALT quirk ate
/// the advance), and the quirk flag is spent.
pub open spec fn spec_fetched(c: Cpu) -> Cpu {
    Cpu {
        reg: (Registers {
            pc: if c.halt_bug {
                c.reg.pc
            } else {
                c.reg.pc.wrapping_add(1)
            },
            ..c.reg
        }),
        ime: c.ime || c.ei_pending,
        ei_pending: false,
        halt_bug: false,
        ..c
    }
}

/// The bus just after dispatch acknowledges the winning interrupt: its IF
/// bit cleared, everything else untouched.
pub open spec fn dispatch_acked(m: Mmu) -> Mmu {
    Mmu {
        intr: (InterruptController {
            iflags: m.intr.iflags & !intr_mask(highest_priority(m.intr.spec_pending())),
            ienable: m.intr.ienable,
        }),
        ..m
    }
}

/// A write to an address other than the interrupt registers leaves the
/// interrupt controller alone.
proof fn lemma_write_preserves_intr(pre: Mmu, post: Mmu, addr: u16, v: u8)
    requires
        crate::mmu::write_effect(pre, post, addr, v),
        addr != 0xFF0F,
        addr != 0xFFFF,
    ensures
        post.intr == pre.intr,
{
}

/// What one processor step does, by its three cases: interrupt dispatch
/// in twenty cycles, a four-cycle halted idle, or one fetched instruction
/// with its table cycle cost and, for the regular decode classes, its
/// exact effect.
pub open spec fn tick_effect(c0: Cpu, m0: Mmu, c1: Cpu, m1: Mmu, cycles: usize) -> bool {
    &&& (dispatch_ready(c0, m0) ==> {
                &&& cycles == 20
                &&& c1 == (Cpu {
                    reg: (Registers {
                        pc: intr_vector(highest_priority(m0.intr.spec_pending())),
                        sp: c0.reg.sp.wrapping_sub(2),
                        ..c0.reg
                    }),
                    ime: false,
                    halted: false,
                    ..c0
                })
                &&& exists|mid: Mmu|
                    #[trigger] crate::mmu::write_effect(
                        dispatch_acked(m0),
                        mid,
                        c0.reg.sp.wrapping_sub(2),
                        (c0.reg.pc % 256) as u8,
                    ) && crate::mmu::write_effect(
                        mid,
                        m1,
                        c0.reg.sp.wrapping_sub(2).wrapping_add(1),
                        (c0.reg.pc / 256) as u8,
                    )
                &&& (c0.reg.sp.wrapping_sub(2) != 0xFF0F && c0.reg.sp.wrapping_sub(
                    2,
                ) != 0xFFFF && c0.reg.sp.wrapping_sub(2).wrapping_add(1) != 0xFF0F && c0.reg.sp.wrapping_sub(2).wrapping_add(1) != 0xFFFF ==> m1.intr
                    == dispatch_acked(m0).intr)
            })
    &&& (!dispatch_ready(c0, m0) && c0.halted ==> {
                &&& cycles == 4
                &&& m1 == m0
                &&& c1 == (Cpu {
                    halted: m0.intr.spec_pending() == 0,
                    ime: c0.ime || c0.ei_pending,
                    ei_pending: false,
                    ..c0
                })
            })
    &&& (!dispatch_ready(c0, m0) && !c0.halted ==> ({
                let op = m0.spec_read(c0.reg.pc);
                let pc1 = if c0.halt_bug {
                    c0.reg.pc
                } else {
                    c0.reg.pc.wrapping_add(1)
                };
                &&& (op != 0xCB ==> cycles == opcode_base_cycles(op) + (if branch_taken(
                    op,
                    c0.reg,
                ) {
                    cond_extra(op)
                } else {
                    0int
                }))
                &&& (op == 0xCB ==> cycles == cb_cycles(m0.spec_read(pc1)))
                &&& instr_effect(op, spec_fetched(c0), m0, c1, m1)
            }))
}

impl Cpu {
    /// Run one step of the processor: service the highest-priority pending
    /// interrupt in twenty cycles, or idle for four while halted, or fetch,
    /// decode and run one instruction. The returned cycle count is what the
    /// bus must be advanced by.
    #[verifier::rlimit(100)]
    #[verifier::spinoff_prover]
    pub fn tick(&mut self, mmu: &mut Mmu) -> (cycles: usize)
        requires
            old(self).wf(),
            old(mmu).wf(),
            dispatch_ready(*old(self), *old(mmu)) || old(self).halted || supported_opcode(
                old(mmu).spec_read(old(self).reg.pc),
            ),
        ensures
            final(self).wf(),
            final(mmu).wf(),
            4 <= cycles <= 24,
            tick_effect(*old(self), *old(mmu), *final(self), *final(mmu), cycles),
    {
        let pending = mmu.intr.pending();
        if self.ime && pending != 0 {
            let k = if pending & 0x01 != 0 {
                InterruptKind::VBlank
            } else if pending & 0x02 != 0 {
                InterruptKind::LcdStat
            } else if pending & 0x04 != 0 {
                InterruptKind::Timer
            } else if pending & 0x08 != 0 {
                InterruptKind::Serial
            } else {
                InterruptKind::Joypad
            };
            proof {
                assert(k == highest_priority(old(mmu).intr.spec_pending()));
            }
            mmu.intr.acknowledge(k);
            proof {
                assert(*mmu == dispatch_acked(*old(mmu)));
            }
            self.ime = false;
            self.halted = false;
            let pc = self.reg.pc;
            self.stack_push(mmu, pc);
            proof {
                assert(exists|mid: Mmu|
                    #[trigger] crate::mmu::write_effect(
                        dispatch_acked(*old(mmu)),
                        mid,
                        old(self).reg.sp.wrapping_sub(2),
                        (old(self).reg.pc % 256) as u8,
                    ) && crate::mmu::write_effect(
                        mid,
                        *mmu,
                        old(self).reg.sp.wrapping_sub(2).wrapping_add(1),
                        (old(self).reg.pc / 256) as u8,
                    ));
            }
            self.reg.pc = match k {
                InterruptKind::VBlank => 0x40,
                InterruptKind::LcdStat => 0x48,
                InterruptKind::Timer => 0x50,
                InterruptKind::Serial => 0x58,
                InterruptKind::Joypad => 0x60,
            };
            proof {
                let sp2 = old(self).reg.sp.wrapping_sub(2);
                let pc0 = old(self).reg.pc;
                let now = *mmu;
                let m1 = dispatch_acked(*old(mmu));
                if sp2 != 0xFF0F && sp2 != 0xFFFF && sp2.wrapping_add(1) != 0xFF0F
                    && sp2.wrapping_add(1) != 0xFFFF {
                    assert forall|mid: Mmu|
                        #[trigger] crate::mmu::write_effect(m1, mid, sp2, (pc0 % 256) as u8)
                            && crate::mmu::write_effect(
                            mid,
                            now,
                            sp2.wrapping_add(1),
                            (pc0 / 256) as u8,
                        ) implies now.intr == m1.intr by {
                        lemma_write_preserves_intr(m1, mid, sp2, (pc0 % 256) as u8);
                        lemma_write_preserves_intr(mid, now, sp2.wrapping_add(1), (pc0 / 256) as u8);
                    }
                }
            }
            return 20;
        }
        if self.ei_pending {
            self.ime = true;
            self.ei_pending = false;
        }
        if self.halted {
            let wake = mmu.intr.pending();
            if wake != 0 {
                self.halted = false;
            }
            return 4;
        }
        let op = self.imm(mmu);
        proof {
            assert(*self == spec_fetched(*old(self)));
        }
        let c = self.execute(mmu, op);
        c
    }
}

} // verus!

verus! {

/// Round-trip law of the stack: pushing a word and popping it straight
/// back yields the pushed word, and the stack pointer ends where it began.
/// The two pushed bytes must land in plain RAM - work RAM, its echo or
/// high RAM - with no OAM transfer in flight, which is where a running
/// program keeps its stack; pushes into ROM or a locked device do not obey
/// a read-back law on the real bus either.
pub proof fn lemma_stack_push_pop_round_trip(m0: Mmu, mid: Mmu, m2: Mmu, sp: u16, v: u16)
    requires
        !m0.dma_active(),
        m0.wram.len() == 0x2000,
        m0.hram.len() == 0x7F,
        crate::mmu::plain_ram(sp.wrapping_sub(2)),
        crate::mmu::plain_ram(sp.wrapping_sub(2).wrapping_add(1)),
        crate::mmu::write_effect(m0, mid, sp.wrapping_sub(2), (v % 256) as u8),
        crate::mmu::write_effect(mid, m2, sp.wrapping_sub(2).wrapping_add(1), (v / 256) as u8),
    ensures
        word_of(
            m2.spec_read(sp.wrapping_sub(2).wrapping_add(1)),
            m2.spec_read(sp.wrapping_sub(2)),
        ) == v,
        sp.wrapping_sub(2).wrapping_add(2) == sp,
{
    let a1 = sp.wrapping_sub(2);
    let a2 = sp.wrapping_sub(2).wrapping_add(1);
    crate::mmu::lemma_read_after_write(m0, mid, a1, (v % 256) as u8);
    crate::mmu::lemma_read_after_write(mid, m2, a2, (v / 256) as u8);
    assert(crate::mmu::ram_index(a1) != crate::mmu::ram_index(a2));
    assert(m2.spec_read(a1) == (v % 256) as u8);
    assert(m2.spec_read(a2) == (v / 256) as u8);
    crate::registers::lemma_word_split_join(v);
}

} // verus!

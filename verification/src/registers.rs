//! The SM83 register file: eight 8-bit registers that pair up into four
//! 16-bit registers, plus the 16-bit stack pointer and program counter.

use vstd::prelude::*;

verus! {

/// The four observable flag bits held in the high nibble of register F:
/// Z (bit 7), N (bit 6), H (bit 5), C (bit 4).
#[derive(Clone, Copy)]
pub enum Flag {
    /// Zero flag, set when an operation results in zero.
    Z,
    /// Negative flag, set when a subtraction was performed.
    N,
    /// Half-carry flag, set on a carry from bit 3 to bit 4.
    H,
    /// Carry flag, set on a carry out of bit 7.
    C,
}

/// The bit of register F that a flag occupies.
pub open spec fn flag_mask(fl: Flag) -> u8 {
    match fl {
        Flag::Z => 0x80,
        Flag::N => 0x40,
        Flag::H => 0x20,
        Flag::C => 0x10,
    }
}

/// The register file. Registers pair as AF, BC, DE and HL, each readable and
/// writable as the big-endian concatenation of its two halves.
pub struct Registers {
    pub a: u8,
    pub f: u8,
    pub b: u8,
    pub c: u8,
    pub d: u8,
    pub e: u8,
    pub h: u8,
    pub l: u8,
    pub sp: u16,
    pub pc: u16,
}

/// The 16-bit value formed by a high and a low 8-bit half.
pub open spec fn word_of(hi: u8, lo: u8) -> u16 {
    (hi * 256 + lo) as u16
}

/// High byte of a 16-bit value.
pub open spec fn hi_byte(v: u16) -> u8 {
    (v / 256) as u8
}

/// Low byte of a 16-bit value.
pub open spec fn lo_byte(v: u16) -> u8 {
    (v % 256) as u8
}

/// Register F with the four flag bits replaced; the low nibble is kept.
pub open spec fn flags_byte(z: bool, n: bool, h: bool, c: bool, old_f: u8) -> u8 {
    (if z { 0x80u8 } else { 0u8 }) | (if n { 0x40u8 } else { 0u8 })
        | (if h { 0x20u8 } else { 0u8 }) | (if c { 0x10u8 } else { 0u8 }) | (old_f & 0x0F)
}

/// Splitting a 16-bit value into bytes and recombining them is the identity.
pub proof fn lemma_word_split_join(v: u16)
    ensures
        word_of(hi_byte(v), lo_byte(v)) == v,
        hi_byte(v) < 256,
        lo_byte(v) < 256,
{
    assert(word_of(hi_byte(v), lo_byte(v)) == v) by (nonlinear_arith);
}

/// Shifting a 16-bit value right by 8 yields its high byte, and masking with
/// 0xFF yields its low byte.
pub proof fn lemma_word_shift_mask(v: u16)
    by (bit_vector)
    ensures
        v >> 8 == v / 256,
        v & 0xFF == v % 256,
{
}

/// Joining two bytes by shift-and-or equals the arithmetic combination.
pub proof fn lemma_word_join(hi: u8, lo: u8)
    by (bit_vector)
    ensures
        ((hi as u16) << 8) | (lo as u16) == hi * 256 + lo,
{
}

impl Registers {
    /// True when the low nibble of F is zero; the hardware wires those four
    /// bits to ground, so every reachable register file satisfies this.
    pub open spec fn flags_ok(self) -> bool {
        self.f & 0x0F == 0
    }

    /// Whether a flag bit of F is set.
    pub open spec fn spec_flag(self, fl: Flag) -> bool {
        self.f & flag_mask(fl) != 0
    }

    /// The register file as the BIOS hand-off leaves it, with execution about
    /// to begin at 0x0100.
    pub fn power_on() -> (r: Self)
        ensures
            r.a == 0x01,
            r.f == 0xB0,
            r.b == 0x00,
            r.c == 0x13,
            r.d == 0x00,
            r.e == 0xD8,
            r.h == 0x01,
            r.l == 0x4D,
            r.sp == 0xFFFE,
            r.pc == 0x0100,
            r.flags_ok(),
    {
        let r = Registers {
            a: 0x01,
            f: 0xB0,
            b: 0x00,
            c: 0x13,
            d: 0x00,
            e: 0xD8,
            h: 0x01,
            l: 0x4D,
            sp: 0xFFFE,
            pc: 0x0100,
        };
        proof {
            assert(0xB0u8 & 0x0F == 0) by (bit_vector);
        }
        r
    }

    /// A as the high byte and F as the low byte.
    pub fn get_af(&self) -> (v: u16)
        ensures
            v == word_of(self.a, self.f),
    {
        let v = ((self.a as u16) << 8) | (self.f as u16);
        proof {
            lemma_word_join(self.a, self.f);
        }
        v
    }

    /// B as the high byte and C as the low byte.
    pub fn get_bc(&self) -> (v: u16)
        ensures
            v == word_of(self.b, self.c),
    {
        let v = ((self.b as u16) << 8) | (self.c as u16);
        proof {
            lemma_word_join(self.b, self.c);
        }
        v
    }

    /// D as the high byte and E as the low byte.
    pub fn get_de(&self) -> (v: u16)
        ensures
            v == word_of(self.d, self.e),
    {
        let v = ((self.d as u16) << 8) | (self.e as u16);
        proof {
            lemma_word_join(self.d, self.e);
        }
        v
    }

    /// H as the high byte and L as the low byte.
    pub fn get_hl(&self) -> (v: u16)
        ensures
            v == word_of(self.h, self.l),
    {
        let v = ((self.h as u16) << 8) | (self.l as u16);
        proof {
            lemma_word_join(self.h, self.l);
        }
        v
    }

    /// Store a 16-bit value into the AF pair, A from the high byte and F
    /// from the low byte. F's low four bits are wired to ground, so they
    /// are masked away whatever was written.
    pub fn set_af(&mut self, val: u16)
        ensures
            *final(self) == (Registers {
                a: hi_byte(val),
                f: lo_byte(val) & 0xF0,
                ..*old(self)
            }),
            final(self).flags_ok(),
    {
        proof {
            lemma_word_shift_mask(val);
            let lo = lo_byte(val);
            assert((lo & 0xF0) & 0x0F == 0) by (bit_vector);
        }
        self.a = (val >> 8) as u8;
        self.f = ((val & 0xFF) as u8) & 0xF0;
    }

    /// Store a 16-bit value into the BC pair.
    pub fn set_bc(&mut self, val: u16)
        ensures
            *final(self) == (Registers { b: hi_byte(val), c: lo_byte(val), ..*old(self) }),
    {
        proof {
            lemma_word_shift_mask(val);
        }
        self.b = (val >> 8) as u8;
        self.c = (val & 0xFF) as u8;
    }

    /// Store a 16-bit value into the DE pair.
    pub fn set_de(&mut self, val: u16)
        ensures
            *final(self) == (Registers { d: hi_byte(val), e: lo_byte(val), ..*old(self) }),
    {
        proof {
            lemma_word_shift_mask(val);
        }
        self.d = (val >> 8) as u8;
        self.e = (val & 0xFF) as u8;
    }

    /// Store a 16-bit value into the HL pair.
    pub fn set_hl(&mut self, val: u16)
        ensures
            *final(self) == (Registers { h: hi_byte(val), l: lo_byte(val), ..*old(self) }),
    {
        proof {
            lemma_word_shift_mask(val);
        }
        self.h = (val >> 8) as u8;
        self.l = (val & 0xFF) as u8;
    }

    /// Set or clear one flag bit of F, leaving every other bit alone.
    pub fn set_flag(&mut self, fl: Flag, v: bool)
        ensures
            v ==> *final(self) == (Registers { f: old(self).f | flag_mask(fl), ..*old(self) }),
            !v ==> *final(self) == (Registers { f: old(self).f & !flag_mask(fl), ..*old(self) }),
    {
        let m = match fl {
            Flag::Z => 0x80u8,
            Flag::N => 0x40u8,
            Flag::H => 0x20u8,
            Flag::C => 0x10u8,
        };
        if v {
            self.f = self.f | m;
        } else {
            self.f = self.f & !m;
        }
    }

    /// Whether one flag bit of F is set.
    pub fn get_flag(&mut self, fl: Flag) -> (r: bool)
        ensures
            *final(self) == *old(self),
            r == old(self).spec_flag(fl),
    {
        let m = match fl {
            Flag::Z => 0x80u8,
            Flag::N => 0x40u8,
            Flag::H => 0x20u8,
            Flag::C => 0x10u8,
        };
        (self.f & m) != 0
    }

    /// Replace all four flag bits at once, keeping the low nibble of F.
    pub fn set_znhc(&mut self, z: bool, n: bool, h: bool, c: bool)
        ensures
            *final(self) == (Registers { f: flags_byte(z, n, h, c, old(self).f), ..*old(self) }),
            old(self).flags_ok() ==> final(self).flags_ok(),
    {
        let low = self.f & 0x0F;
        self.f = (if z { 0x80u8 } else { 0u8 }) | (if n { 0x40u8 } else { 0u8 })
            | (if h { 0x20u8 } else { 0u8 }) | (if c { 0x10u8 } else { 0u8 }) | low;
        proof {
            let f0 = old(self).f;
            assert(f0 & 0x0F == 0 ==> flags_byte(z, n, h, c, f0) & 0x0F == 0) by (bit_vector);
        }
    }
}

/// Round-trip law for every register pair: storing a 16-bit value into a
/// pair and reading the pair back yields the value that was written - for
/// AF, the value with F's grounded low nibble masked away. Each `set`
/// leaves the pair holding the value's two bytes, and each `get` recombines
/// exactly those two fields.
pub proof fn lemma_pair_round_trip(r: Registers, v: u16)
    ensures
        word_of((Registers { a: hi_byte(v), f: lo_byte(v) & 0xF0, ..r }).a, (Registers {
            a: hi_byte(v),
            f: lo_byte(v) & 0xF0,
            ..r
        }).f) == v & 0xFFF0,
        word_of((Registers { b: hi_byte(v), c: lo_byte(v), ..r }).b, (Registers {
            b: hi_byte(v),
            c: lo_byte(v),
            ..r
        }).c) == v,
        word_of((Registers { d: hi_byte(v), e: lo_byte(v), ..r }).d, (Registers {
            d: hi_byte(v),
            e: lo_byte(v),
            ..r
        }).e) == v,
        word_of((Registers { h: hi_byte(v), l: lo_byte(v), ..r }).h, (Registers {
            h: hi_byte(v),
            l: lo_byte(v),
            ..r
        }).l) == v,
{
    lemma_word_split_join(v);
    assert(((v / 256) as u8) * 256 + (((v % 256) as u8) & 0xF0) == (v & 0xFFF0)) by (bit_vector);
}

} // verus!

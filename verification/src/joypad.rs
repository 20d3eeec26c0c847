//! The joypad: the 0xFF00 matrix register with its two select lines, and the
//! interrupt raised when a selected matrix line falls.

use vstd::prelude::*;

verus! {

/// The eight buttons of the pad.
#[derive(Clone, Copy, PartialEq, Eq, Structural, Debug)]
pub enum GbKeys {
    A,
    B,
    Select,
    Start,
    Up,
    Down,
    Left,
    Right,
}

/// Whether a key sits in the action group (A, B, Select, Start) rather than
/// the direction group.
pub open spec fn is_action_key(k: GbKeys) -> bool {
    k == GbKeys::A || k == GbKeys::B || k == GbKeys::Select || k == GbKeys::Start
}

/// The matrix-line bit of a key within its group.
pub open spec fn key_bit(k: GbKeys) -> u8 {
    match k {
        GbKeys::A => 0x01,
        GbKeys::B => 0x02,
        GbKeys::Select => 0x04,
        GbKeys::Start => 0x08,
        GbKeys::Right => 0x01,
        GbKeys::Left => 0x02,
        GbKeys::Up => 0x04,
        GbKeys::Down => 0x08,
    }
}

/// Joypad state: the two select lines as last written, and the pressed mask
/// of each key group.
pub struct Joypad {
    /// Bits 4 and 5 of 0xFF00 as last written; a low bit selects its group.
    pub select: u8,
    /// Pressed keys of the action group, one bit each, 1 = pressed.
    pub action_pressed: u8,
    /// Pressed keys of the direction group, one bit each, 1 = pressed.
    pub direction_pressed: u8,
}

impl Joypad {
    /// Only the live bits of each stored byte are used.
    pub open spec fn wf(self) -> bool {
        &&& self.select & 0x30 == self.select
        &&& self.action_pressed & 0x0F == self.action_pressed
        &&& self.direction_pressed & 0x0F == self.direction_pressed
    }

    /// The active-low low nibble of 0xFF00: a zero bit is a pressed key of a
    /// selected group.
    pub open spec fn spec_low_nibble(self) -> u8 {
        (!((if self.select & 0x20 == 0 {
            self.action_pressed
        } else {
            0
        }) | (if self.select & 0x10 == 0 {
            self.direction_pressed
        } else {
            0
        }))) & 0x0F
    }

    /// Nothing pressed and nothing selected at power-on.
    pub fn power_on() -> (r: Self)
        ensures
            r == (Joypad { select: 0x30, action_pressed: 0, direction_pressed: 0 }),
            r.wf(),
    {
        let r = Joypad { select: 0x30, action_pressed: 0, direction_pressed: 0 };
        proof {
            assert(0x30u8 & 0x30 == 0x30 && 0u8 & 0x0F == 0) by (bit_vector);
        }
        r
    }

    /// Read 0xFF00: the two unwired high bits as ones, the select lines as
    /// written, and the selected matrix lines active-low.
    pub fn read_byte(&self) -> (v: u8)
        ensures
            v == 0xC0 | self.select | self.spec_low_nibble(),
    {
        let lines = (if self.select & 0x20 == 0 {
            self.action_pressed
        } else {
            0
        }) | (if self.select & 0x10 == 0 {
            self.direction_pressed
        } else {
            0
        });
        0xC0 | self.select | ((!lines) & 0x0F)
    }

    /// Write 0xFF00: only the two select bits are stored.
    pub fn write_byte(&mut self, v: u8)
        requires
            old(self).wf(),
        ensures
            final(self).wf(),
            *final(self) == (Joypad { select: v & 0x30, ..*old(self) }),
    {
        self.select = v & 0x30;
        proof {
            assert((v & 0x30) & 0x30 == v & 0x30) by (bit_vector);
        }
    }

    /// Press or release one key. Reports whether any selected matrix line
    /// fell from high to low, which raises the joypad interrupt.
    pub fn update_key_state(&mut self, key: GbKeys, pressed: bool) -> (raised: bool)
        requires
            old(self).wf(),
        ensures
            final(self).wf(),
            final(self).select == old(self).select,
            is_action_key(key) ==> final(self).direction_pressed == old(self).direction_pressed
                && final(self).action_pressed == (if pressed {
                old(self).action_pressed | key_bit(key)
            } else {
                old(self).action_pressed & !key_bit(key)
            }),
            !is_action_key(key) ==> final(self).action_pressed == old(self).action_pressed
                && final(self).direction_pressed == (if pressed {
                old(self).direction_pressed | key_bit(key)
            } else {
                old(self).direction_pressed & !key_bit(key)
            }),
            raised == (old(self).spec_low_nibble() & !final(self).spec_low_nibble() & 0x0F != 0),
    {
        let before = self.read_byte();
        let (is_action, bit): (bool, u8) = match key {
            GbKeys::A => (true, 0x01),
            GbKeys::B => (true, 0x02),
            GbKeys::Select => (true, 0x04),
            GbKeys::Start => (true, 0x08),
            GbKeys::Right => (false, 0x01),
            GbKeys::Left => (false, 0x02),
            GbKeys::Up => (false, 0x04),
            GbKeys::Down => (false, 0x08),
        };
        if is_action {
            if pressed {
                self.action_pressed = self.action_pressed | bit;
            } else {
                self.action_pressed = self.action_pressed & !bit;
            }
        } else {
            if pressed {
                self.direction_pressed = self.direction_pressed | bit;
            } else {
                self.direction_pressed = self.direction_pressed & !bit;
            }
        }
        proof {
            let a0 = old(self).action_pressed;
            let d0 = old(self).direction_pressed;
            assert(a0 & 0x0F == a0 && bit <= 8 ==> ((a0 | bit) & 0x0F == (a0 | bit) && (a0 & !bit)
                & 0x0F == (a0 & !bit))) by (bit_vector);
            assert(d0 & 0x0F == d0 && bit <= 8 ==> ((d0 | bit) & 0x0F == (d0 | bit) && (d0 & !bit)
                & 0x0F == (d0 & !bit))) by (bit_vector);
        }
        let after = self.read_byte();
        let raised = (before & !after & 0x0F) != 0;
        proof {
            let s = self.select;
            let m0 = (if s & 0x20 == 0 {
                old(self).action_pressed
            } else {
                0u8
            }) | (if s & 0x10 == 0 {
                old(self).direction_pressed
            } else {
                0u8
            });
            let m1 = (if s & 0x20 == 0 {
                self.action_pressed
            } else {
                0u8
            }) | (if s & 0x10 == 0 {
                self.direction_pressed
            } else {
                0u8
            });
            assert(s & 0x30 == s ==> ((0xC0 | s | ((!m0) & 0x0F)) & !(0xC0 | s | ((!m1) & 0x0F))
                & 0x0F) == (((!m0) & 0x0F) & !((!m1) & 0x0F) & 0x0F)) by (bit_vector);
        }
        raised
    }
}

} // verus!

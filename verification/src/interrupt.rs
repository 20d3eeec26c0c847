//! The interrupt controller: the pending register IF, the enable register IE,
//! and the fixed priority order in which pending interrupts are serviced.

use vstd::prelude::*;

verus! {

/// The five interrupt sources, in priority order: the lowest-numbered pending
/// interrupt is serviced first.
#[derive(Clone, Copy, PartialEq, Eq, Structural, Debug)]
pub enum InterruptKind {
    /// Bit 0, vector 0x40: start of the vertical blanking period.
    VBlank,
    /// Bit 1, vector 0x48: LCD status condition.
    LcdStat,
    /// Bit 2, vector 0x50: timer overflow.
    Timer,
    /// Bit 3, vector 0x58: serial transfer completion.
    Serial,
    /// Bit 4, vector 0x60: joypad line going low.
    Joypad,
}

/// The IF bit of an interrupt source.
pub open spec fn intr_mask(k: InterruptKind) -> u8 {
    match k {
        InterruptKind::VBlank => 0x01,
        InterruptKind::LcdStat => 0x02,
        InterruptKind::Timer => 0x04,
        InterruptKind::Serial => 0x08,
        InterruptKind::Joypad => 0x10,
    }
}

/// The service vector of an interrupt source.
pub open spec fn intr_vector(k: InterruptKind) -> u16 {
    match k {
        InterruptKind::VBlank => 0x40,
        InterruptKind::LcdStat => 0x48,
        InterruptKind::Timer => 0x50,
        InterruptKind::Serial => 0x58,
        InterruptKind::Joypad => 0x60,
    }
}

/// The highest-priority source among a non-empty set of pending bits: the
/// lowest set bit of the masked byte wins.
pub open spec fn highest_priority(pending: u8) -> InterruptKind {
    if pending & 0x01 != 0 {
        InterruptKind::VBlank
    } else if pending & 0x02 != 0 {
        InterruptKind::LcdStat
    } else if pending & 0x04 != 0 {
        InterruptKind::Timer
    } else if pending & 0x08 != 0 {
        InterruptKind::Serial
    } else {
        InterruptKind::Joypad
    }
}

/// Pending (IF) and enabled (IE) interrupt state. Only the low five bits of
/// IF exist in hardware; the upper three always read back as ones.
pub struct InterruptController {
    /// The pending register IF, stored masked to its five live bits.
    pub iflags: u8,
    /// The enable register IE; all eight bits are stored as written.
    pub ienable: u8,
}

impl InterruptController {
    /// Only the five live bits of IF are ever stored.
    pub open spec fn wf(self) -> bool {
        self.iflags & 0x1F == self.iflags
    }

    /// The set of interrupts that are both pending and enabled.
    pub open spec fn spec_pending(self) -> u8 {
        self.iflags & self.ienable & 0x1F
    }

    /// Both registers clear, as the hardware comes up.
    pub fn power_on() -> (r: Self)
        ensures
            r.iflags == 0,
            r.ienable == 0,
            r.wf(),
    {
        let r = InterruptController { iflags: 0, ienable: 0 };
        proof {
            assert(0u8 & 0x1F == 0) by (bit_vector);
        }
        r
    }

    /// Read IF: the five live bits, with the three unwired upper bits
    /// reading as ones.
    pub fn read_flags(&self) -> (v: u8)
        ensures
            v == self.iflags | 0xE0,
    {
        self.iflags | 0xE0
    }

    /// Write IF: only the low five bits are stored.
    pub fn write_flags(&mut self, v: u8)
        ensures
            final(self).iflags == v & 0x1F,
            final(self).ienable == old(self).ienable,
            final(self).wf(),
    {
        self.iflags = v & 0x1F;
        proof {
            assert((v & 0x1F) & 0x1F == v & 0x1F) by (bit_vector);
        }
    }

    /// Read IE as stored.
    pub fn read_enable(&self) -> (v: u8)
        ensures
            v == self.ienable,
    {
        self.ienable
    }

    /// Write IE; every bit is stored.
    pub fn write_enable(&mut self, v: u8)
        ensures
            final(self).ienable == v,
            final(self).iflags == old(self).iflags,
            old(self).wf() ==> final(self).wf(),
    {
        self.ienable = v;
    }

    /// A device raises an interrupt: its IF bit is set, all else unchanged.
    pub fn raise(&mut self, k: InterruptKind)
        ensures
            final(self).iflags == old(self).iflags | intr_mask(k),
            final(self).ienable == old(self).ienable,
            old(self).wf() ==> final(self).wf(),
    {
        let m: u8 = match k {
            InterruptKind::VBlank => 0x01,
            InterruptKind::LcdStat => 0x02,
            InterruptKind::Timer => 0x04,
            InterruptKind::Serial => 0x08,
            InterruptKind::Joypad => 0x10,
        };
        self.iflags = self.iflags | m;
        proof {
            let f0 = old(self).iflags;
            assert(f0 & 0x1F == f0 && m < 0x20 ==> (f0 | m) & 0x1F == (f0 | m))
                by (bit_vector);
        }
    }

    /// Clear the IF bit of one interrupt source, as interrupt dispatch does.
    pub fn acknowledge(&mut self, k: InterruptKind)
        ensures
            final(self).iflags == old(self).iflags & !intr_mask(k),
            final(self).ienable == old(self).ienable,
            old(self).wf() ==> final(self).wf(),
    {
        let m: u8 = match k {
            InterruptKind::VBlank => 0x01,
            InterruptKind::LcdStat => 0x02,
            InterruptKind::Timer => 0x04,
            InterruptKind::Serial => 0x08,
            InterruptKind::Joypad => 0x10,
        };
        self.iflags = self.iflags & !m;
        proof {
            let f0 = old(self).iflags;
            assert(f0 & 0x1F == f0 ==> (f0 & !m) & 0x1F == (f0 & !m)) by (bit_vector);
        }
    }

    /// The pending-and-enabled bits, as the CPU polls them before each
    /// instruction.
    pub fn pending(&self) -> (v: u8)
        ensures
            v == self.spec_pending(),
    {
        self.iflags & self.ienable & 0x1F
    }

    /// The highest-priority pending-and-enabled interrupt, if any.
    pub fn next_pending(&self) -> (r: Option<InterruptKind>)
        ensures
            self.spec_pending() == 0 ==> r is None,
            self.spec_pending() != 0 ==> r == Some(highest_priority(self.spec_pending())),
    {
        let p = self.pending();
        if p == 0 {
            None
        } else if p & 0x01 != 0 {
            Some(InterruptKind::VBlank)
        } else if p & 0x02 != 0 {
            Some(InterruptKind::LcdStat)
        } else if p & 0x04 != 0 {
            Some(InterruptKind::Timer)
        } else if p & 0x08 != 0 {
            Some(InterruptKind::Serial)
        } else {
            Some(InterruptKind::Joypad)
        }
    }
}

/// The five live bits of IF are settable independently: writing any value
/// stores exactly its five low bits, and reading yields them with the three
/// upper bits as ones, whatever the controller held before.
pub proof fn lemma_if_bits_independent(s: InterruptController, v: u8)
    ensures
        (InterruptController { iflags: v & 0x1F, ..s }).iflags | 0xE0 == (v | 0xE0),
        forall|bit: u8|
            bit < 5 ==> (#[trigger] ((v & 0x1F) >> bit) & 1) == (v >> bit) & 1,
{
    assert((v & 0x1F) | 0xE0 == v | 0xE0) by (bit_vector);
    assert forall|bit: u8| bit < 5 implies (#[trigger] ((v & 0x1F) >> bit) & 1) == (v >> bit)
        & 1 by {
        assert(bit < 5 ==> ((v & 0x1F) >> bit) & 1 == (v >> bit) & 1) by (bit_vector);
    }
}

} // verus!

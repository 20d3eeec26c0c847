//! The timer: the free-running divider DIV, the programmable counter TIMA
//! with its modulo TMA and control TAC, and the overflow interrupt.

use vstd::prelude::*;

verus! {

/// Cycles per TIMA increment for each of the four TAC clock selections.
pub open spec fn tac_threshold(tac: u8) -> usize {
    if tac & 0x03 == 0 {
        1024
    } else if tac & 0x03 == 1 {
        16
    } else if tac & 0x03 == 2 {
        64
    } else {
        256
    }
}

/// Whether TAC bit 2 enables the TIMA counter.
pub open spec fn tac_enabled(tac: u8) -> bool {
    tac & 0x04 != 0
}

/// TIMA after `k` increments: each step adds one, and a step past 255 reloads
/// the counter from TMA.
pub open spec fn tima_after(tima: u8, tma: u8, k: nat) -> u8
    decreases k,
{
    if k == 0 {
        tima
    } else {
        let prev = tima_after(tima, tma, (k - 1) as nat);
        if prev == 255 {
            tma
        } else {
            (prev + 1) as u8
        }
    }
}

/// Whether any of `k` increments stepped past 255.
pub open spec fn tima_overflows(tima: u8, tma: u8, k: nat) -> bool
    decreases k,
{
    k > 0 && (tima_after(tima, tma, (k - 1) as nat) == 255 || tima_overflows(
        tima,
        tma,
        (k - 1) as nat,
    ))
}

/// Timer state: the four memory-mapped registers and the two internal cycle
/// accumulators that divide the machine clock down to them.
pub struct Timer {
    /// 0xFF04, incremented every 256 cycles; any write resets it to zero.
    pub div: u8,
    /// 0xFF05, incremented at the TAC-selected rate while enabled.
    pub tima: u8,
    /// 0xFF06, the value TIMA reloads on overflow.
    pub tma: u8,
    /// 0xFF07, clock select and enable; only the low three bits exist.
    pub tac: u8,
    /// Cycles accumulated toward the next DIV increment.
    pub div_acc: usize,
    /// Cycles accumulated toward the next TIMA increment.
    pub tima_acc: usize,
}

impl Timer {
    /// The accumulators stay below one full period.
    pub open spec fn wf(self) -> bool {
        &&& self.div_acc < 256
        &&& self.tima_acc < 1024
        &&& self.tac & 0x07 == self.tac
    }

    /// All registers clear at power-on.
    pub fn power_on() -> (r: Self)
        ensures
            r == (Timer { div: 0, tima: 0, tma: 0, tac: 0, div_acc: 0, tima_acc: 0 }),
            r.wf(),
    {
        let r = Timer { div: 0, tima: 0, tma: 0, tac: 0, div_acc: 0, tima_acc: 0 };
        proof {
            assert(0u8 & 0x07 == 0) by (bit_vector);
        }
        r
    }

    /// Read one of the four timer registers; the unwired upper bits of TAC
    /// read as ones.
    pub fn read_byte(&self, addr: u16) -> (v: u8)
        requires
            0xFF04 <= addr <= 0xFF07,
        ensures
            addr == 0xFF04 ==> v == self.div,
            addr == 0xFF05 ==> v == self.tima,
            addr == 0xFF06 ==> v == self.tma,
            addr == 0xFF07 ==> v == self.tac | 0xF8,
    {
        if addr == 0xFF04 {
            self.div
        } else if addr == 0xFF05 {
            self.tima
        } else if addr == 0xFF06 {
            self.tma
        } else {
            self.tac | 0xF8
        }
    }

    /// Write one of the four timer registers. A write to DIV clears the
    /// divider and its accumulator, whatever the value written.
    pub fn write_byte(&mut self, addr: u16, v: u8)
        requires
            0xFF04 <= addr <= 0xFF07,
            old(self).wf(),
        ensures
            final(self).wf(),
            addr == 0xFF04 ==> *final(self) == (Timer { div: 0, div_acc: 0, ..*old(self) }),
            addr == 0xFF05 ==> *final(self) == (Timer { tima: v, ..*old(self) }),
            addr == 0xFF06 ==> *final(self) == (Timer { tma: v, ..*old(self) }),
            addr == 0xFF07 ==> *final(self) == (Timer { tac: v & 0x07, ..*old(self) }),
    {
        if addr == 0xFF04 {
            self.div = 0;
            self.div_acc = 0;
        } else if addr == 0xFF05 {
            self.tima = v;
        } else if addr == 0xFF06 {
            self.tma = v;
        } else {
            self.tac = v & 0x07;
            proof {
                assert((v & 0x07) & 0x07 == v & 0x07) by (bit_vector);
            }
        }
    }

    /// Advance the timer by an instruction's cycle count. DIV steps once per
    /// 256 cycles; while enabled, TIMA steps once per TAC period, reloading
    /// from TMA and reporting an interrupt on overflow.
    pub fn update(&mut self, cycles: usize) -> (raised: bool)
        requires
            old(self).wf(),
            cycles <= 1024,
        ensures
            final(self).wf(),
            final(self).tma == old(self).tma,
            final(self).tac == old(self).tac,
            final(self).div_acc == (old(self).div_acc + cycles) % 256,
            final(self).div == ((old(self).div + (old(self).div_acc + cycles) / 256) % 256) as u8,
            tac_enabled(old(self).tac) ==> {
                let k = (((old(self).tima_acc + cycles) as int) / (tac_threshold(
                    old(self).tac,
                ) as int)) as nat;
                &&& final(self).tima_acc == (old(self).tima_acc + cycles) % (tac_threshold(
                    old(self).tac,
                ) as int)
                &&& final(self).tima == tima_after(old(self).tima, old(self).tma, k)
                &&& raised == tima_overflows(old(self).tima, old(self).tma, k)
            },
            !tac_enabled(old(self).tac) ==> {
                &&& final(self).tima == old(self).tima
                &&& final(self).tima_acc == old(self).tima_acc
                &&& !raised
            },
    {
        let ghost div0 = self.div;
        let ghost dacc0 = self.div_acc;
        self.div_acc = self.div_acc + cycles;
        let ghost mut dj: nat = 0;
        while self.div_acc >= 256
            invariant
                dacc0 + cycles == dj * 256 + self.div_acc,
                self.div == ((div0 + dj) % 256) as u8,
                self.tima == old(self).tima,
                self.tima_acc == old(self).tima_acc,
                self.tma == old(self).tma,
                self.tac == old(self).tac,
            decreases self.div_acc,
        {
            self.div_acc = self.div_acc - 256;
            self.div = self.div.wrapping_add(1);
            proof {
                dj = dj + 1;
            }
        }
        proof {
            assert(dj == (dacc0 + cycles) / 256 && self.div_acc == (dacc0 + cycles) % 256) by (
            nonlinear_arith)
                requires
                    dacc0 + cycles == dj * 256 + self.div_acc,
                    self.div_acc < 256,
            ;
        }
        let enabled = (self.tac & 0x04) != 0;
        let mut raised = false;
        if enabled {
            let sel = self.tac & 0x03;
            let thr: usize = if sel == 0 {
                1024
            } else if sel == 1 {
                16
            } else if sel == 2 {
                64
            } else {
                256
            };
            assert(thr == tac_threshold(self.tac));
            let ghost t0 = self.tima;
            let ghost tacc0 = self.tima_acc;
            let ghost div_now = self.div;
            let ghost dacc_now = self.div_acc;
            self.tima_acc = self.tima_acc + cycles;
            let ghost mut tj: nat = 0;
            while self.tima_acc >= thr
                invariant
                    16 <= thr <= 1024,
                    tacc0 + cycles == tj * thr + self.tima_acc,
                    self.tima == tima_after(t0, self.tma, tj),
                    raised == tima_overflows(t0, self.tma, tj),
                    self.div == div_now,
                    self.div_acc == dacc_now,
                    self.tma == old(self).tma,
                    self.tac == old(self).tac,
                decreases self.tima_acc,
            {
                self.tima_acc = self.tima_acc - thr;
                if self.tima == 255 {
                    self.tima = self.tma;
                    raised = true;
                } else {
                    self.tima = self.tima + 1;
                }
                proof {
                    assert((tj + 1) * thr == tj * thr + thr) by (nonlinear_arith);
                    tj = tj + 1;
                }
            }
            proof {
                assert(tj == (tacc0 + cycles) / (thr as int) && self.tima_acc == (tacc0 + cycles)
                    % (thr as int)) by (nonlinear_arith)
                    requires
                        tacc0 + cycles == tj * thr + self.tima_acc,
                        self.tima_acc < thr,
                        16 <= thr <= 1024,
                ;
            }
        }
        raised
    }
}

} // verus!

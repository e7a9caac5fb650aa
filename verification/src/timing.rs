//! The LCD mode clock, the timer, and interrupt dispatch.
use vstd::prelude::*;
use crate::cpu::Cpu;
use crate::mem::MemState;
use crate::state::{CpuState, bool_bit};
use crate::bits::{w16, lemma_bytes};

verus! {

/// Address of the LCD line counter (LY).
pub const LY: u16 = 0xFF44;

/// Timer input period, in machine cycles, for a speed setting.
pub open spec fn timer_period(speed: u8) -> usize {
    if speed == 0 {
        64
    } else if speed == 1 {
        1
    } else if speed == 2 {
        4
    } else {
        16
    }
}

/// A counter byte plus one, wrapping to 0 after 0xFF.
pub open spec fn inc8(x: u8) -> u8 {
    if x == 0xFF {
        0
    } else {
        (x + 1) as u8
    }
}

/// Whether bit `k` of `p` is set.
pub open spec fn bit(p: u8, k: u8) -> bool {
    (p >> k) & 1 == 1
}

/// The lowest of the four interrupts that are both enabled and requested.
pub open spec fn first_pending(p: u8) -> Option<u8> {
    if bit(p, 0) {
        Some(0u8)
    } else if bit(p, 1) {
        Some(1u8)
    } else if bit(p, 2) {
        Some(2u8)
    } else if bit(p, 3) {
        Some(3u8)
    } else {
        None
    }
}

impl CpuState {
    /// The LCD mode machine after four more clock cycles: OAM read (2, 80
    /// cycles), VRAM read (3, 172), HBlank (0, 204; moves to the next line,
    /// to VBlank after line 142), VBlank (1, 456 per line, back to OAM
    /// read after line 153).
    pub open spec fn lcd_tick(self) -> CpuState {
        if self.screen_mode == 0 {
            self.hblank_tick()
        } else if self.screen_mode == 1 {
            self.vblank_tick()
        } else if self.screen_mode == 2 {
            if self.clock + 4 >= 80 {
                CpuState { clock: 0, screen_mode: 3, ..self }
            } else {
                CpuState { clock: (self.clock + 4) as usize, ..self }
            }
        } else {
            if self.clock + 4 >= 172 {
                CpuState { clock: 0, screen_mode: 0, ..self }
            } else {
                CpuState { clock: (self.clock + 4) as usize, ..self }
            }
        }
    }

    /// HBlank: after 204 cycles the next line starts; reaching line 143
    /// enters VBlank and requests the VBlank interrupt.
    #[verifier::opaque]
    pub open spec fn hblank_tick(self) -> CpuState {
        let ly1 = inc8(self.mem.ram[0xFF44]);
        let m1 = MemState { ram: self.mem.ram.update(0xFF44, ly1), ..self.mem };
        if self.clock + 4 >= 204 {
            if ly1 == 143 {
                CpuState { clock: 0, drawing: true, screen_mode: 1, mem: m1.with_interrupt(0), ..self }
            } else {
                CpuState { clock: 0, screen_mode: 2, mem: m1, ..self }
            }
        } else {
            CpuState { clock: (self.clock + 4) as usize, ..self }
        }
    }

    /// VBlank: a line every 456 cycles; after line 153 back to line 0 and
    /// OAM read.
    #[verifier::opaque]
    pub open spec fn vblank_tick(self) -> CpuState {
        let ly = self.mem.ram[0xFF44];
        if self.clock + 4 >= 456 {
            if 153 <= ly < 255 {
                CpuState {
                    clock: 0,
                    screen_mode: 2,
                    mem: MemState { ram: self.mem.ram.update(0xFF44, 0), ..self.mem },
                    ..self
                }
            } else {
                CpuState { clock: 0, mem: MemState { ram: self.mem.ram.update(0xFF44, inc8(ly)), ..self.mem }, ..self }
            }
        } else {
            CpuState { clock: (self.clock + 4) as usize, ..self }
        }
    }

    /// The timer after the LCD step, when enabled (bit 2 of TAC, 0xFF07):
    /// DIV (0xFF04) counts every 16 machine cycles of the LCD clock, TIMA
    /// (0xFF05) at the selected period and, on overflow, reloads from TMA
    /// (0xFF06) and requests the timer interrupt.
    pub open spec fn timer_tick(self) -> CpuState {
        let tc = self.mem.read(0xFF07);
        let tclock = self.clock / 4;
        if (tc / 4) % 2 == 1 {
            let m1 = if tclock % 16 == 0 {
                self.mem.write(0xFF04, inc8(self.mem.read(0xFF04)))
            } else {
                self.mem
            };
            if tclock % timer_period(tc % 4) == 0 {
                let count = inc8(m1.read(0xFF05));
                let m2 = if count == 0 { m1.with_interrupt(2) } else { m1 };
                let reload = if count == 0 { m2.read(0xFF06) } else { count };
                CpuState { mem: m2.write(0xFF05, reload), ..self }
            } else {
                CpuState { mem: m1, ..self }
            }
        } else {
            self
        }
    }

    /// One call of the clock: the LCD step, then the timer.
    pub open spec fn clock_step(self) -> CpuState {
        self.lcd_tick().timer_tick()
    }

    /// The delayed interrupt enable of `EI` counting down.
    pub open spec fn ime_step(self) -> CpuState {
        if self.mem.ime_delay == 0 {
            self
        } else if self.mem.ime_delay == 1 {
            CpuState { interrupts_enabled: true, mem: MemState { ime_delay: 0, ..self.mem }, ..self }
        } else {
            CpuState { mem: MemState { ime_delay: 1, ..self.mem }, ..self }
        }
    }

    /// The interrupts both requested (IF, 0xFF0F) and enabled (IE, 0xFFFF).
    pub open spec fn pending(self) -> u8 {
        self.mem.read(0xFF0F) & self.mem.read(0xFFFF)
    }

    /// Serving the lowest pending interrupt, once the enable delay has run:
    /// with interrupts enabled, its request is cleared and its handler
    /// (0x40, 0x48, 0x50, 0x58) called; a halted CPU instead wakes up and
    /// moves on.
    pub open spec fn dispatch(self) -> CpuState {
        if !self.interrupts_enabled && !self.halted {
            self
        } else {
            match first_pending(self.pending()) {
                None => self,
                Some(n) => if !self.halted {
                    self.wr(0xFF0F, self.mem.read(0xFF0F) ^ (1u8 << n)).interrupt_call((0x40 + 8 * n) as u16)
                } else {
                    CpuState { halted: false, ..self }.skip(1)
                },
            }
        }
    }

    /// One call of interrupt handling.
    pub open spec fn interrupt_step(self) -> CpuState {
        self.ime_step().dispatch()
    }

    /// Whether interrupt handling is defined: a handler call needs the two
    /// stack bytes to be writable.
    pub open spec fn can_interrupt(self) -> bool {
        let s = self.ime_step();
        (s.interrupts_enabled && !s.halted && first_pending(s.pending()) is Some) ==> s.push_writable(s.pc)
    }
}

impl Cpu {
    /// Advances the LCD mode clock by four cycles and runs the timer.
    pub fn run_clock(&mut self)
        requires
            old(self).wf(),
        ensures
            final(self).wf(),
            final(self)@ == old(self)@.clock_step(),
    {
        self.lcd_tick();
        self.timer_tick();
    }

    fn lcd_tick(&mut self)
        requires
            old(self).wf(),
        ensures
            final(self).wf(),
            final(self)@ == old(self)@.lcd_tick(),
    {
        if self.screen_mode == 0 {
            self.lcd_hblank();
        } else if self.screen_mode == 1 {
            self.lcd_vblank();
        } else if self.screen_mode == 2 {
            self.clock += 4;
            if self.clock >= 80 {
                self.clock = 0;
                self.screen_mode = 3;
            }
        } else {
            self.clock += 4;
            if self.clock >= 172 {
                self.clock = 0;
                self.screen_mode = 0;
            }
        }
    }

    /// Mode 0: at the end of the line, the next line or VBlank.
    fn lcd_hblank(&mut self)
        requires
            old(self).wf(),
            old(self).screen_mode == 0,
        ensures
            final(self).wf(),
            final(self)@ == old(self)@.hblank_tick(),
    {
        proof {
            reveal(CpuState::hblank_tick);
        }
        let ghost s0 = self@;
        self.clock += 4;
        if self.clock >= 204 {
            self.clock = 0;
            let ly = self.mem.mem[0xff44];
            self.mem.mem.set(0xff44, ly.wrapping_add(1));
            let ghost m1 = self.mem@;
            assert(m1 == MemState { ram: s0.mem.ram.update(0xFF44, inc8(ly)), ..s0.mem });
            if self.mem.mem[0xff44] == 143 {
                self.drawing = true;
                self.screen_mode = 1;
                self.mem.request_interrupt(0);
            } else {
                self.screen_mode = 2;
            }
        }
    }

    /// Mode 1: one VBlank line; after line 153 back to line 0.
    fn lcd_vblank(&mut self)
        requires
            old(self).wf(),
            old(self).screen_mode == 1,
        ensures
            final(self).wf(),
            final(self)@ == old(self)@.vblank_tick(),
    {
        if self.clock + 4 >= 456 {
            self.vblank_line_end();
        } else {
            proof {
                reveal(CpuState::vblank_tick);
            }
            self.clock += 4;
        }
    }

    /// The end of a VBlank line: the next line, or line 0 after line 153.
    fn vblank_line_end(&mut self)
        requires
            old(self).wf(),
            old(self).screen_mode == 1,
            old(self).clock + 4 >= 456,
        ensures
            final(self).wf(),
            final(self)@ == old(self)@.vblank_tick(),
    {
        let ly = self.mem.mem[0xff44];
        if ly.wrapping_add(1) > 153 {
            self.vblank_restart();
        } else {
            self.vblank_next_line();
        }
    }

    /// After line 153: back to line 0 and OAM read.
    fn vblank_restart(&mut self)
        requires
            old(self).wf(),
            old(self).screen_mode == 1,
            old(self).clock + 4 >= 456,
            153 <= old(self).mem.mem@[0xFF44] < 255,
        ensures
            final(self).wf(),
            final(self)@ == old(self)@.vblank_tick(),
    {
        proof {
            reveal(CpuState::vblank_tick);
        }
        self.clock = 0;
        self.screen_mode = 2;
        self.mem.mem.set(0xff44, 0);
    }

    /// The next VBlank line.
    fn vblank_next_line(&mut self)
        requires
            old(self).wf(),
            old(self).screen_mode == 1,
            old(self).clock + 4 >= 456,
            !(153 <= old(self).mem.mem@[0xFF44] < 255),
        ensures
            final(self).wf(),
            final(self)@ == old(self)@.vblank_tick(),
    {
        proof {
            reveal(CpuState::vblank_tick);
        }
        self.clock = 0;
        let ly = self.mem.mem[0xff44];
        self.mem.mem.set(0xff44, ly.wrapping_add(1));
    }

    fn timer_tick(&mut self)
        requires
            old(self).wf(),
        ensures
            final(self).wf(),
            final(self)@ == old(self)@.timer_tick(),
    {
        let tcontrol = self.mem.readbyte(0xFF07);
        let tspeed = tcontrol % 4;
        let tclock = self.clock / 4;
        if (tcontrol / 4) % 2 == 1 {
            if tclock % 16 == 0 {
                let div = self.mem.readbyte(0xFF04);
                self.mem.writebyte(0xFF04, div.wrapping_add(1));
            }
            let a: usize = if tspeed == 0 {
                64
            } else if tspeed == 1 {
                1
            } else if tspeed == 2 {
                4
            } else {
                16
            };
            let mut count = self.mem.readbyte(0xFF05);
            if tclock % a == 0 {
                count = count.wrapping_add(1);
                if count == 0 {
                    self.mem.request_interrupt(2);
                    count = self.mem.readbyte(0xFF06);
                }
                self.mem.writebyte(0xFF05, count);
            }
        }
    }

    /// Counts down the `EI` delay; interrupts are enabled when it ends.
    fn ime_countdown(&mut self)
        requires
            old(self).wf(),
        ensures
            final(self).wf(),
            final(self)@ == old(self)@.ime_step(),
    {
        if self.mem.ime_delay == 1 {
            self.interrupts_enabled = true;
            self.mem.ime_delay = 0;
        } else if self.mem.ime_delay == 2 {
            self.mem.ime_delay = 1;
        }
    }

    /// The lowest of the four interrupts set in `p`, or 4 for none.
    fn lowest_pending(p: u8) -> (n: u8)
        ensures
            n <= 4,
            n < 4 ==> first_pending(p) == Some(n),
            n == 4 ==> first_pending(p) is None,
    {
        let mut n: u8 = 0;
        while n < 4 && (p >> n) & 1 != 1
            invariant
                n <= 4,
                forall|k: u8| k < n ==> !bit(p, k),
            decreases 4 - n,
        {
            n = n + 1;
        }
        proof {
            if n == 4 {
                assert(!bit(p, 0) && !bit(p, 1) && !bit(p, 2) && !bit(p, 3));
            } else if n == 3 {
                assert(!bit(p, 0) && !bit(p, 1) && !bit(p, 2));
            } else if n == 2 {
                assert(!bit(p, 0) && !bit(p, 1));
            } else if n == 1 {
                assert(!bit(p, 0));
            }
        }
        n
    }

    /// Serves the lowest pending interrupt (see `CpuState::dispatch`).
    fn dispatch(&mut self)
        requires
            old(self).wf(),
            (old(self).interrupts_enabled && !old(self).halted && first_pending(old(self)@.pending()) is Some)
                ==> old(self)@.push_writable(old(self)@.pc),
        ensures
            final(self).wf(),
            final(self)@ == old(self)@.dispatch(),
    {
        if !self.interrupts_enabled && !self.halted {
            return;
        }
        let e = self.mem.readbyte(0xFFFF);
        let f = self.mem.readbyte(0xFF0F);
        let n = Self::lowest_pending(f & e);
        if n < 4 {
            let a: u16 = 0x40 + 8 * n as u16;
            if !self.halted {
                self.mem.writebyte(0xFF0F, f ^ 1 << n);
                proof {
                    reveal(MemState::write);
                    assert(w16(self@.pc + bool_bit(self@.halted)) == self@.pc);
                }
                self.call_interrupt(a);
            } else {
                self.halted = false;
                self.regs.pc.v = self.regs.pc.v.wrapping_add(1);
            }
        }
    }

    /// Counts down the `EI` delay and serves the lowest pending interrupt.
    pub fn interrupts(&mut self)
        requires
            old(self).wf(),
            old(self)@.can_interrupt(),
        ensures
            final(self).wf(),
            final(self)@ == old(self)@.interrupt_step(),
    {
        self.ime_countdown();
        self.dispatch();
    }

    /// Whether interrupt handling is defined (see `CpuState::can_interrupt`):
    /// `interrupts` may be called exactly when this holds.
    pub fn can_interrupt(&self) -> (r: bool)
        requires
            self.wf(),
        ensures
            r == self@.can_interrupt(),
    {
        proof {
            reveal(MemState::read);
        }
        let ie = self.interrupts_enabled || self.mem.ime_delay == 1;
        let p = self.mem.readbyte(0xFF0F) & self.mem.readbyte(0xFFFF);
        if ie && !self.halted && Self::lowest_pending(p) < 4 {
            let pc = self.regs.pc.v;
            proof {
                lemma_bytes(pc, 0);
            }
            self.mem.writable2(self.regs.sp.v.wrapping_sub(2), (pc & 0xFF) as u8, (pc >> 8) as u8)
        } else {
            true
        }
    }
}

} // verus!

//! The decisions of the emulator's main loop: which part of a loaded file
//! is the cartridge, when to draw a frame and when to read host events.
use vstd::prelude::*;
use crate::cpu::Cpu;
use crate::state::CpuState;

verus! {

/// Frames skipped between two drawn frames, and loop rounds between two
/// looks at the host events.
pub const SKIP: u32 = 10;

/// The length of the cartridge image taken from a file of `file_len`
/// bytes: all but its last byte, at most 1 MiB.
pub fn rom_image_len(file_len: usize) -> (r: usize)
    requires
        file_len >= 1,
    ensures
        r == if file_len - 1 < 0x100000 { file_len - 1 } else { 0x100000 },
{
    if 0x100000 < file_len - 1 {
        0x100000
    } else {
        file_len - 1
    }
}

/// Counters of the main loop.
pub struct Pacing {
    pub draw_t: u32,
    pub events_t: u32,
}

impl Pacing {
    pub fn new() -> (p: Pacing)
        ensures
            p.draw_t == 0,
            p.events_t == 0,
    {
        Pacing { draw_t: 0, events_t: 0 }
    }

    /// Called after each instruction with the LCD control register: when
    /// the LCD is on and a frame has just finished, the frame is taken
    /// (`drawing` cleared) and every eleventh one is to be drawn.
    pub fn frame_due(&mut self, cpu: &mut Cpu, lcdc: u8) -> (draw: bool)
        requires
            old(self).draw_t <= SKIP,
        ensures
            final(self).draw_t <= SKIP,
            final(self).events_t == old(self).events_t,
            ({
                let taken = old(cpu).drawing && lcdc >> 7u8 == 1;
                &&& final(cpu)@ == (CpuState { drawing: if taken { false } else { old(cpu).drawing }, ..old(cpu)@ })
                &&& draw == (taken && old(self).draw_t == SKIP)
                &&& final(self).draw_t == if !taken {
                    old(self).draw_t
                } else if old(self).draw_t < SKIP {
                    (old(self).draw_t + 1) as u32
                } else {
                    0
                }
            }),
    {
        if cpu.drawing && lcdc >> 7 == 1 {
            cpu.drawing = false;
            if self.draw_t < SKIP {
                self.draw_t += 1;
                false
            } else {
                self.draw_t = 0;
                true
            }
        } else {
            false
        }
    }

    /// Called once per loop round: whether host events are to be read now
    /// (every eleventh round).
    pub fn events_due(&mut self) -> (due: bool)
        requires
            old(self).events_t <= SKIP,
        ensures
            final(self).events_t <= SKIP,
            final(self).draw_t == old(self).draw_t,
            due == (old(self).events_t == SKIP),
            final(self).events_t == if due { 0 } else { (old(self).events_t + 1) as u32 },
    {
        if self.events_t < SKIP {
            self.events_t += 1;
            false
        } else {
            self.events_t = 0;
            true
        }
    }
}

} // verus!

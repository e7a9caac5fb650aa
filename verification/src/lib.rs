//! A Game Boy (DMG) emulator core: registers, the memory bus with its
//! cartridge bank controller, the instruction interpreter, the LCD/timer
//! clock and interrupt dispatch, plus the pure parts of video decoding and
//! input handling.
use vstd::prelude::*;

pub mod bits;
pub mod reg;
pub mod mem;
pub mod state;
pub mod cpu;
pub mod timing;
pub mod laws;
pub mod arith;
pub mod video;
pub mod input;
pub mod run;
pub mod wallclock;

verus! {
} // verus!

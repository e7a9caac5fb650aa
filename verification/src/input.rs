//! Keyboard input: how a host event changes the joypad state.
use vstd::prelude::*;
use crate::cpu::Cpu;
use crate::state::CpuState;
use crate::mem::{Mem, MemState};

verus! {

/// The keys the emulator listens to.
#[derive(PartialEq, Eq, Structural, Clone, Copy, Debug)]
pub enum Key {
    Escape,
    Return,
    Backspace,
    Z,
    X,
    Up,
    Down,
    Right,
    Left,
    Other,
}

/// A host event, as far as the emulator cares.
#[derive(PartialEq, Eq, Structural, Clone, Copy, Debug)]
pub enum Event {
    /// No event is waiting.
    Nothing,
    /// The window was closed.
    Quit,
    /// A key went down (`true`) or up (`false`).
    Key(Key, bool),
    Other,
}

/// What the event loop does after an event: 1 = no event was waiting,
/// 2 = quit, 0 = keep reading events.
pub open spec fn event_code(e: Event) -> isize {
    match e {
        Event::Nothing => 1,
        Event::Quit => 2,
        Event::Key(Key::Escape, _) => 2,
        _ => 0,
    }
}

/// The joypad state after key `k` went down or up: Return is Start,
/// Backspace Select, Z is A, X is B, and the arrows the pad.
pub open spec fn press(m: MemState, k: Key, p: bool) -> MemState {
    MemState {
        kstart: if k == Key::Return { p } else { m.kstart },
        kselect: if k == Key::Backspace { p } else { m.kselect },
        ka: if k == Key::Z { p } else { m.ka },
        kb: if k == Key::X { p } else { m.kb },
        kup: if k == Key::Up { p } else { m.kup },
        kdown: if k == Key::Down { p } else { m.kdown },
        kright: if k == Key::Right { p } else { m.kright },
        kleft: if k == Key::Left { p } else { m.kleft },
        ..m
    }
}

/// The machine after event `e`.
pub open spec fn after_event(s: CpuState, e: Event) -> CpuState {
    match e {
        Event::Key(k, p) => CpuState { mem: press(s.mem, k, p), ..s },
        _ => s,
    }
}

/// Applies a host event to the joypad and says what the event loop does
/// next (see `event_code`).
pub fn events(cpu: &mut Cpu, e: Event) -> (r: isize)
    ensures
        r == event_code(e),
        final(cpu)@ == after_event(old(cpu)@, e),
        final(cpu).wf() == old(cpu).wf(),
{
    match e {
        Event::Nothing => 1,
        Event::Quit => 2,
        Event::Key(Key::Escape, _) => 2,
        Event::Key(k, p) => {
            set_key(cpu, k, p);
            0
        },
        Event::Other => 0,
    }
}

/// Records that key `k` went down (`p`) or up.
fn set_key(cpu: &mut Cpu, k: Key, p: bool)
    ensures
        final(cpu)@ == (CpuState { mem: press(old(cpu)@.mem, k, p), ..old(cpu)@ }),
{
    press_key(&mut cpu.mem, k, p);
}

fn press_key(m: &mut Mem, k: Key, p: bool)
    ensures
        final(m)@ == press(old(m)@, k, p),
{
    match k {
        Key::Return => m.kstart = p,
        Key::Backspace => m.kselect = p,
        Key::Z => m.ka = p,
        Key::X => m.kb = p,
        Key::Up => m.kup = p,
        Key::Down => m.kdown = p,
        Key::Right => m.kright = p,
        Key::Left => m.kleft = p,
        _ => {},
    }
}

} // verus!

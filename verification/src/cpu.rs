//! The CPU: registers, flags and the instruction helpers.
use vstd::prelude::*;
use crate::bits::{
    hi, lo, with_hi, with_lo, w8, w16, flag, f_after, af_after, lemma_flag_bits, lemma_bytes,
    ZF, NF, HF, CF,
};
use crate::mem::{Mem, MemState, cart_mbc, lemma_write_two, lemma_writes_ok_two};
use crate::reg::{Reg, Regs};
use crate::state::{CpuState, lemma_alu_result, sext8, sext16, bool_bit, rlc8, rrc8, rl8, rr8};

verus! {

/// Whether `op` is one of the codes that are not instructions.
pub fn is_invalid_op(op: u8) -> (r: bool)
    ensures
        r == CpuState::invalid_op(op),
{
    op == 0xD3 || op == 0xDB || op == 0xDD || op == 0xE3 || op == 0xE4 || op == 0xEB || op == 0xEC
        || op == 0xED || op == 0xF4 || op == 0xFC || op == 0xFD
}

/// The emulated machine: CPU registers, the bus, and the LCD/timer clock.
pub struct Cpu {
    pub regs: Regs,
    pub mem: Mem,
    pub clock: usize,
    pub screen_mode: u8,
    pub drawing: bool,
    pub interrupts_enabled: bool,
    pub last_op: u8,
    pub halted: bool,
    pub log: bool,
}

impl View for Cpu {
    type V = CpuState;

    open spec fn view(&self) -> CpuState {
        CpuState {
            af: self.regs.af.v,
            bc: self.regs.bc.v,
            de: self.regs.de.v,
            hl: self.regs.hl.v,
            sp: self.regs.sp.v,
            pc: self.regs.pc.v,
            mem: self.mem@,
            clock: self.clock,
            screen_mode: self.screen_mode,
            drawing: self.drawing,
            interrupts_enabled: self.interrupts_enabled,
            last_op: self.last_op,
            halted: self.halted,
            log: self.log,
        }
    }
}

impl Cpu {
    pub open spec fn wf(&self) -> bool {
        self@.wf()
    }

    /// A machine at power-on with the cartridge image `rom`, whose type byte
    /// (at 0x147) must be supported; `log` asks for an instruction trace.
    pub fn new(rom: Vec<u8>, log: bool) -> (c: Cpu)
        requires
            rom.len() > 0x147,
            cart_mbc(rom@[0x147]) is Some,
        ensures
            c.wf(),
            c@ == CpuState::initial(rom@, log),
    {
        Cpu {
            regs: Regs::new(),
            mem: Mem::new(rom),
            clock: 0,
            screen_mode: 0,
            drawing: false,
            interrupts_enabled: false,
            last_op: 0,
            halted: false,
            log,
        }
    }

    /// Schedules interrupts to be enabled after the next instruction.
    pub fn ei(&mut self)
        requires
            old(self).wf(),
        ensures
            final(self).wf(),
            final(self)@ == (CpuState { mem: MemState { ime_delay: 2, ..old(self)@.mem }, ..old(self)@ }),
    {
        self.mem.ime_delay = 2;
    }

    /// Disables interrupts.
    pub fn di(&mut self)
        ensures
            final(self)@ == (CpuState { interrupts_enabled: false, ..old(self)@ }),
    {
        self.interrupts_enabled = false;
    }

    // ------------------------------------------------------------------
    // Flags.

    pub fn check_carry_flag(&self) -> (r: bool)
        ensures
            r == self@.cf(),
    {
        self.regs.af.get_low() & CF == CF
    }

    pub fn check_zero_flag(&self) -> (r: bool)
        ensures
            r == self@.zf(),
    {
        self.regs.af.get_low() & ZF == ZF
    }

    pub fn check_addsub_flag(&self) -> (r: bool)
        ensures
            r == self@.nf(),
    {
        self.regs.af.get_low() & NF == NF
    }

    pub fn check_hc_flag(&self) -> (r: bool)
        ensures
            r == self@.hf(),
    {
        self.regs.af.get_low() & HF == HF
    }

    pub fn set_carry_flag(&mut self, v: bool)
        ensures
            old(self)@.flags_changed(final(self)@, None, None, None, Some(v)),
    {
        let l = self.regs.af.get_low();
        proof {
            lemma_flag_bits(l, CF);
        }
        let n = if v { l | CF } else { l & !CF };
        self.regs.af.set_low(n);
    }

    pub fn set_zero_flag(&mut self, v: bool)
        ensures
            old(self)@.flags_changed(final(self)@, Some(v), None, None, None),
    {
        let l = self.regs.af.get_low();
        proof {
            lemma_flag_bits(l, ZF);
        }
        let n = if v { l | ZF } else { l & !ZF };
        self.regs.af.set_low(n);
    }

    pub fn set_addsub_flag(&mut self, v: bool)
        ensures
            old(self)@.flags_changed(final(self)@, None, Some(v), None, None),
    {
        let l = self.regs.af.get_low();
        proof {
            lemma_flag_bits(l, NF);
        }
        let n = if v { l | NF } else { l & !NF };
        self.regs.af.set_low(n);
    }

    pub fn set_hc_flag(&mut self, v: bool)
        ensures
            old(self)@.flags_changed(final(self)@, None, None, Some(v), None),
    {
        let l = self.regs.af.get_low();
        proof {
            lemma_flag_bits(l, HF);
        }
        let n = if v { l | HF } else { l & !HF };
        self.regs.af.set_low(n);
    }

    /// Carry of an addition that took `old` to `new`; returns `new`.
    pub fn ca8(&mut self, t: (u8, u8)) -> (r: u8)
        ensures
            r == t.1,
            old(self)@.flags_changed(final(self)@, None, None, None, Some(t.1 < t.0)),
    {
        let (old, new) = t;
        self.set_carry_flag(new < old);
        new
    }

    /// Carry (borrow) of a subtraction that took `old` to `new`; returns `new`.
    pub fn cs8(&mut self, t: (u8, u8)) -> (r: u8)
        ensures
            r == t.1,
            old(self)@.flags_changed(final(self)@, None, None, None, Some(t.1 > t.0)),
    {
        let (old, new) = t;
        self.set_carry_flag(new > old);
        new
    }

    /// Zero flag of an 8-bit result.
    pub fn z8(&mut self, val: u8)
        ensures
            old(self)@.flags_changed(final(self)@, Some(val == 0), None, None, None),
    {
        self.set_zero_flag(val == 0);
    }

    /// Flags of an 8-bit increment that gave `t.1`.
    pub fn incflags(&mut self, t: (u8, u8))
        ensures
            old(self)@.flags_changed(final(self)@, Some(t.1 == 0), Some(false), Some(t.1 & 0xF == 0), None),
    {
        let (_, r) = t;
        self.z8(r);
        self.set_addsub_flag(false);
        self.set_hc_flag((r & 0xF) == 0);
    }

    /// Flags of an 8-bit addition that took `t.0` to `t.1`.
    pub fn addflags(&mut self, t: (u8, u8))
        ensures
            old(self)@.flags_changed(
                final(self)@,
                Some(t.1 == 0),
                Some(false),
                Some((t.1 & 0xF) < (t.0 & 0xF)),
                Some(t.1 < t.0),
            ),
    {
        let (a, f) = t;
        self.ca8(t);
        self.incflags(t);
        self.set_hc_flag((f & 0xF) < (a & 0xF));
    }

    /// Flags of a 16-bit addition that took `t.0` to `t.1`.
    pub fn addflags16(&mut self, t: (u16, u16))
        ensures
            old(self)@.flags_changed(final(self)@, None, Some(false), Some((t.1 & 0xFFF) < (t.0 & 0xFFF)), None),
    {
        self.set_addsub_flag(false);
        let (a, f) = t;
        self.set_hc_flag((f & 0xFFF) < (a & 0xFFF));
    }

    /// Flags of an 8-bit decrement that gave `t.1`.
    pub fn decflags(&mut self, t: (u8, u8))
        ensures
            old(self)@.flags_changed(final(self)@, Some(t.1 == 0), Some(true), Some(t.1 & 0xF == 0xF), None),
    {
        let (_, r) = t;
        self.z8(r);
        self.set_addsub_flag(true);
        self.set_hc_flag((r & 0xF) == 0xF);
    }

    /// Flags of an 8-bit subtraction that took `t.0` to `t.1`.
    pub fn subflags(&mut self, t: (u8, u8))
        ensures
            old(self)@.flags_changed(
                final(self)@,
                Some(t.1 == 0),
                Some(true),
                Some((t.0 & 0xF) < (t.1 & 0xF)),
                Some(t.1 > t.0),
            ),
    {
        self.cs8(t);
        self.decflags(t);
        let (a, f) = t;
        self.set_hc_flag((a & 0xF) < (f & 0xF));
    }

    // ------------------------------------------------------------------
    // Accumulator arithmetic and logic.

    /// ADD: the accumulator plus `b`.
    pub fn add_a(&mut self, b: u8)
        ensures
            final(self)@ == old(self)@.op_add(b),
    {
        let f = self.regs.af.add_high(b);
        self.addflags(f);
        proof {
            lemma_alu_result(old(self)@, self@, f.1, Some(f.1 == 0), Some(false), Some((f.1 & 0xF) < (f.0 & 0xF)), Some(f.1 < f.0));
        }
    }

    /// SUB: the accumulator minus `b`.
    pub fn sub_a(&mut self, b: u8)
        ensures
            final(self)@ == old(self)@.op_sub(b),
    {
        let f = self.regs.af.sub_high(b);
        self.subflags(f);
        proof {
            lemma_alu_result(old(self)@, self@, f.1, Some(f.1 == 0), Some(true), Some((f.0 & 0xF) < (f.1 & 0xF)), Some(f.1 > f.0));
        }
    }

    /// ADC: the accumulator plus `b` plus the carry.
    pub fn adc(&mut self, b: u8)
        ensures
            final(self)@ == old(self)@.op_adc(b),
    {
        let c: u8 = if self.check_carry_flag() { 1 } else { 0 };
        let a = self.regs.af.get_high();
        let f = self.regs.af.add_high(b.wrapping_add(c));
        self.addflags(f);
        let adc: u32 = a as u32 + b as u32 + c as u32;
        proof {
            crate::bits::lemma_nibble(a);
            crate::bits::lemma_nibble(b);
        }
        self.set_carry_flag(adc > 0xFF);
        let h = (a & 0xF) + (b & 0xF) + c > 0xF;
        self.set_hc_flag(h);
        proof {
            assert(f.1 == w8(a + b + c));
            lemma_alu_result(old(self)@, self@, f.1, Some(f.1 == 0), Some(false), Some(h), Some(adc > 0xFF));
        }
    }

    /// SBC: the accumulator minus `b` minus the carry.
    pub fn sbc(&mut self, b: u8)
        ensures
            final(self)@ == old(self)@.op_sbc(b),
    {
        let c = self.check_carry_flag();
        let cb: u8 = if c { 1 } else { 0 };
        let a = self.regs.af.get_high();
        let f = self.regs.af.sub_high(b.wrapping_add(cb));
        self.subflags(f);
        proof {
            crate::bits::lemma_nibble(a);
            crate::bits::lemma_nibble(b);
        }
        let h: bool = ((a & 0xF) as i32 - (b & 0xF) as i32 - cb as i32) < 0;
        let sbc: i32 = a as i32 - b as i32 - cb as i32;
        self.set_carry_flag(sbc < 0);
        self.set_hc_flag(h);
        proof {
            assert(f.1 == w8(a - b - cb));
            lemma_alu_result(old(self)@, self@, f.1, Some(f.1 == 0), Some(true), Some(h), Some(sbc < 0));
        }
    }

    /// AND with `v`.
    pub fn and(&mut self, v: u8)
        ensures
            final(self)@ == old(self)@.op_and(v),
    {
        let a = self.regs.af.get_high() & v;
        self.set_zero_flag(a == 0);
        self.set_carry_flag(false);
        self.set_addsub_flag(false);
        self.set_hc_flag(true);
        self.regs.af.set_high(a);
        proof {
            lemma_alu_result(old(self)@, self@, a, Some(a == 0), Some(false), Some(true), Some(false));
        }
    }

    /// OR with `v`.
    pub fn or(&mut self, v: u8)
        ensures
            final(self)@ == old(self)@.op_or(v),
    {
        let a = self.regs.af.get_high() | v;
        self.set_zero_flag(a == 0);
        self.set_carry_flag(false);
        self.set_addsub_flag(false);
        self.set_hc_flag(false);
        self.regs.af.set_high(a);
        proof {
            lemma_alu_result(old(self)@, self@, a, Some(a == 0), Some(false), Some(false), Some(false));
        }
    }

    /// XOR with `v`.
    pub fn xor(&mut self, v: u8)
        ensures
            final(self)@ == old(self)@.op_xor(v),
    {
        let a = self.regs.af.get_high() ^ v;
        self.set_zero_flag(a == 0);
        self.set_carry_flag(false);
        self.set_addsub_flag(false);
        self.set_hc_flag(false);
        self.regs.af.set_high(a);
        proof {
            lemma_alu_result(old(self)@, self@, a, Some(a == 0), Some(false), Some(false), Some(false));
        }
    }

    /// CP: the flags of subtracting `v`, the accumulator kept.
    pub fn cp(&mut self, v: u8)
        ensures
            final(self)@ == old(self)@.op_cp(v),
    {
        let a = self.regs.af.get_high();
        self.set_zero_flag(a == v);
        self.set_carry_flag(a < v);
        self.set_addsub_flag(true);
        self.set_hc_flag(a & 0xf < a.wrapping_sub(v) & 0xf);
        proof {
            lemma_alu_result(old(self)@, self@, a, Some(a == v), Some(true), Some(a & 0xf < w8(a - v) & 0xf), Some(a < v));
        }
    }

    /// The ALU operation with index `k` (ADD ADC SUB SBC AND XOR OR CP) on `b`.
    pub fn alu_op(&mut self, k: u8, b: u8)
        requires
            k < 8,
        ensures
            final(self)@ == old(self)@.alu_op(k, b),
    {
        if k == 0 {
            self.add_a(b)
        } else if k == 1 {
            self.adc(b)
        } else if k == 2 {
            self.sub_a(b)
        } else if k == 3 {
            self.sbc(b)
        } else if k == 4 {
            self.and(b)
        } else if k == 5 {
            self.xor(b)
        } else if k == 6 {
            self.or(b)
        } else {
            self.cp(b)
        }
    }

    // ------------------------------------------------------------------
    // Rotations.

    /// RLC: rotate left, bit 7 into the carry.
    pub fn rlc(&mut self, x: u8) -> (r: u8)
        ensures
            r == rlc8(x),
            old(self)@.flags_changed(final(self)@, Some(r == 0), Some(false), Some(false), Some(r & 1 == 1)),
    {
        let a = (x << 1) | (x >> 7);
        self.set_carry_flag(a & 1 == 1);
        self.set_zero_flag(a == 0);
        self.set_addsub_flag(false);
        self.set_hc_flag(false);
        a
    }

    /// RRC: rotate right, bit 0 into the carry.
    pub fn rrc(&mut self, x: u8) -> (r: u8)
        ensures
            r == rrc8(x),
            old(self)@.flags_changed(final(self)@, Some(r == 0), Some(false), Some(false), Some(r >> 7u8 == 1)),
    {
        let a = (x >> 1) | (x << 7);
        self.set_carry_flag(a >> 7 == 1);
        self.set_zero_flag(a == 0);
        self.set_addsub_flag(false);
        self.set_hc_flag(false);
        a
    }

    /// RL: rotate left through the carry.
    pub fn rl(&mut self, x: u8) -> (r: u8)
        ensures
            r == rl8(x, old(self)@.cf()),
            old(self)@.flags_changed(final(self)@, Some(r == 0), Some(false), Some(false), Some(x >> 7u8 == 1)),
    {
        let b = x >> 7;
        let r = x << 1 | (if self.check_carry_flag() { 1 } else { 0 });
        self.set_carry_flag(b == 1);
        self.set_zero_flag(r == 0);
        self.set_addsub_flag(false);
        self.set_hc_flag(false);
        r
    }

    /// RR: rotate right through the carry.
    pub fn rr(&mut self, x: u8) -> (r: u8)
        ensures
            r == rr8(x, old(self)@.cf()),
            old(self)@.flags_changed(final(self)@, Some(r == 0), Some(false), Some(false), Some(x & 1 == 1)),
    {
        let b = x & 1;
        let r = x >> 1 | (if self.check_carry_flag() { 1u8 } else { 0u8 }) << 7;
        self.set_carry_flag(b == 1);
        self.set_zero_flag(r == 0);
        self.set_addsub_flag(false);
        self.set_hc_flag(false);
        r
    }

    // ------------------------------------------------------------------
    // Stack and control flow.

    /// Pushes `v`: SP drops by two and `v` goes there, low byte first.
    pub fn push(&mut self, v: u16)
        requires
            old(self).wf(),
            old(self)@.push_writable(v),
        ensures
            final(self).wf(),
            final(self)@ == old(self)@.push(v),
    {
        self.regs.sp.v = self.regs.sp.v.wrapping_sub(2);
        let m: [u8; 2] = [(v & 0xFF) as u8, (v >> 8) as u8];
        proof {
            lemma_write_two(self.mem@, self.regs.sp.v, lo(v), hi(v));
            lemma_writes_ok_two(self.mem@, self.regs.sp.v, lo(v), hi(v));
            assert(m@ =~= seq![lo(v), hi(v)]);
            assert(w16(self.regs.sp.v + 0) == w16(old(self).regs.sp.v - 2));
            assert(w16(self.regs.sp.v + 1) == w16(old(self).regs.sp.v - 1));
        }
        self.mem.write(self.regs.sp.v, &m);
    }

    /// Pops the 16-bit value on top of the stack.
    pub fn pop(&mut self) -> (r: u16)
        requires
            old(self).wf(),
            old(self)@.pop_readable(),
        ensures
            final(self).wf(),
            final(self)@ == old(self)@.drop2(),
            r == old(self)@.top(),
    {
        let l = self.mem.readbyte(self.regs.sp.v);
        self.regs.sp.v = self.regs.sp.v.wrapping_add(1);
        let h = self.mem.readbyte(self.regs.sp.v);
        self.regs.sp.v = self.regs.sp.v.wrapping_add(1);
        ((h as u16) << 8) | (l as u16)
    }

    /// Calls `v`, pushing the address of the next instruction.
    pub fn call(&mut self, v: u16)
        requires
            old(self).wf(),
            old(self)@.push_writable(w16(old(self)@.pc + 1)),
        ensures
            final(self).wf(),
            final(self)@ == old(self)@.call(v),
    {
        let a = self.regs.pc.v.wrapping_add(1);
        self.push(a);
        self.regs.pc.v = v.wrapping_sub(1);
    }

    /// Enters the interrupt handler at `v`.
    pub fn call_interrupt(&mut self, v: u16)
        requires
            old(self).wf(),
            old(self)@.push_writable(w16(old(self)@.pc + bool_bit(old(self)@.halted))),
        ensures
            final(self).wf(),
            final(self)@ == old(self)@.interrupt_call(v),
    {
        let r = self.regs.pc.v.wrapping_add(if self.halted { 1 } else { 0 });
        self.push(r);
        self.regs.pc.v = v;
    }

    /// Returns to the address on top of the stack.
    pub fn ret(&mut self)
        requires
            old(self).wf(),
            old(self)@.pop_readable(),
        ensures
            final(self).wf(),
            final(self)@ == old(self)@.ret(),
    {
        let p = self.pop();
        self.regs.pc.v = p.wrapping_sub(1);
    }

    /// Relative jump by the signed byte `v`.
    pub fn jr(&mut self, v: u8)
        ensures
            final(self)@ == old(self)@.jr(v),
    {
        let p = self.regs.pc.v;
        let t = if v < 128 { p.wrapping_add(v as u16) } else { p.wrapping_sub(256 - v as u16) };
        self.regs.pc.v = t.wrapping_add(1);
    }

    // ------------------------------------------------------------------
    // 8-bit operands.

    /// Operand `i`: B, C, D, E, H, L, (HL), A.
    pub fn get_reg8(&self, i: u8) -> (r: u8)
        requires
            self.wf(),
            i < 8,
            self@.reg8_readable(i),
        ensures
            r == self@.reg8(i),
    {
        if i == 0 {
            self.regs.bc.get_high()
        } else if i == 1 {
            self.regs.bc.get_low()
        } else if i == 2 {
            self.regs.de.get_high()
        } else if i == 3 {
            self.regs.de.get_low()
        } else if i == 4 {
            self.regs.hl.get_high()
        } else if i == 5 {
            self.regs.hl.get_low()
        } else if i == 6 {
            self.mem.readbyte(self.regs.hl.v)
        } else {
            self.regs.af.get_high()
        }
    }

    /// Stores `v` in operand `i`.
    pub fn set_reg8(&mut self, i: u8, v: u8)
        requires
            old(self).wf(),
            i < 8,
            old(self)@.reg8_writable(i, v),
        ensures
            final(self).wf(),
            final(self)@ == old(self)@.set_reg8(i, v),
    {
        if i == 0 {
            self.regs.bc.set_high(v)
        } else if i == 1 {
            self.regs.bc.set_low(v)
        } else if i == 2 {
            self.regs.de.set_high(v)
        } else if i == 3 {
            self.regs.de.set_low(v)
        } else if i == 4 {
            self.regs.hl.set_high(v)
        } else if i == 5 {
            self.regs.hl.set_low(v)
        } else if i == 6 {
            let a = self.regs.hl.v;
            self.mem.writebyte(a, v)
        } else {
            self.regs.af.set_high(v)
        }
    }

    // ------------------------------------------------------------------
    // The CB-prefixed operations.

    /// CB operation `n` on the byte `x`: sets the flags and returns the
    /// result (RLC RRC RL RR SLA SRA SWAP SRL, then BIT, RES, SET).
    pub fn cb_op(&mut self, n: u8, x: u8) -> (r: u8)
        ensures
            r == old(self)@.cb_value(n, x),
            final(self)@ == old(self)@.cb_flags(n, x),
    {
        let ghost s0 = self@;
        let ghost a0 = hi(self.regs.af.v);
        if n < 0x8 {
            let r = self.rlc(x);
            proof { lemma_alu_result(s0, self@, a0, Some(r == 0), Some(false), Some(false), Some(r & 1 == 1)); }
            r
        } else if n < 0x10 {
            let r = self.rrc(x);
            proof { lemma_alu_result(s0, self@, a0, Some(r == 0), Some(false), Some(false), Some(r >> 7u8 == 1)); }
            r
        } else if n < 0x18 {
            let r = self.rl(x);
            proof { lemma_alu_result(s0, self@, a0, Some(r == 0), Some(false), Some(false), Some(x >> 7u8 == 1)); }
            r
        } else if n < 0x20 {
            let r = self.rr(x);
            proof { lemma_alu_result(s0, self@, a0, Some(r == 0), Some(false), Some(false), Some(x & 1 == 1)); }
            r
        } else if n < 0x28 {
            self.set_addsub_flag(false);
            self.set_hc_flag(false);
            self.set_carry_flag(x >> 7 == 1);
            let r = x << 1;
            self.set_zero_flag(r == 0);
            proof { lemma_alu_result(s0, self@, a0, Some(r == 0), Some(false), Some(false), Some(x >> 7u8 == 1)); }
            r
        } else if n < 0x30 {
            self.set_addsub_flag(false);
            self.set_hc_flag(false);
            self.set_carry_flag(x & 1 == 1);
            let r = (x & 0x80) | (x >> 1);
            self.set_zero_flag(r == 0);
            proof { lemma_alu_result(s0, self@, a0, Some(r == 0), Some(false), Some(false), Some(x & 1 == 1)); }
            r
        } else if n < 0x38 {
            self.set_carry_flag(false);
            self.set_addsub_flag(false);
            self.set_hc_flag(false);
            let r = x << 4 | x >> 4;
            self.set_zero_flag(r == 0);
            proof { lemma_alu_result(s0, self@, a0, Some(r == 0), Some(false), Some(false), Some(false)); }
            r
        } else if n < 0x40 {
            self.set_carry_flag(x & 1 == 1);
            self.set_addsub_flag(false);
            self.set_hc_flag(false);
            let r = x >> 1;
            self.set_zero_flag(r == 0);
            proof { lemma_alu_result(s0, self@, a0, Some(r == 0), Some(false), Some(false), Some(x & 1 == 1)); }
            r
        } else if n < 0x80 {
            let b = (n / 8) % 8;
            let c = (x >> b) & 1;
            self.set_zero_flag(c != 1);
            self.set_addsub_flag(false);
            self.set_hc_flag(true);
            proof { lemma_alu_result(s0, self@, a0, Some(c != 1), Some(false), Some(true), None); }
            x
        } else if n < 0xC0 {
            let b = (n / 8) % 8;
            x & (0xFF ^ (1 << b))
        } else {
            let b = (n / 8) % 8;
            x | (1 << b)
        }
    }

    /// The CB-prefixed instruction whose second byte is `n`.
    fn exec_cb(&mut self, n: u8)
        requires
            old(self).wf(),
            old(self)@.cb_ok(n),
        ensures
            final(self).wf(),
            final(self)@ == old(self)@.exec_cb(n),
    {
        proof {
            reveal(CpuState::exec_cb);
            reveal(CpuState::cb_ok);
        }
        let i = n % 8;
        let x = self.get_reg8(i);
        let r = self.cb_op(n, x);
        if n < 0x40 || n > 0x80 {
            self.set_reg8(i, r);
        }
        self.regs.pc.v = self.regs.pc.v.wrapping_add(1);
    }

    /// Instructions 0x40..0xBF: loads between operands, HALT, and the ALU
    /// on an operand.
    fn exec_mid(&mut self, op: u8)
        requires
            old(self).wf(),
            0x40 <= op < 0xC0,
            old(self)@.mid_ok(op),
        ensures
            final(self).wf(),
            final(self)@ == old(self)@.exec_mid(op),
    {
        proof {
            reveal(CpuState::exec_mid);
            reveal(CpuState::mid_ok);
        }
        let b = self.get_reg8(op % 8);
        if op < 0x80 {
            if op == 0x76 {
                self.halted = true;
                self.regs.pc.v = self.regs.pc.v.wrapping_sub(1);
            } else {
                self.set_reg8((op / 8) % 8, b);
            }
        } else {
            self.alu_op((op / 8) % 8, b);
        }
    }

    /// Increments operand `i` modulo 256; returns its old and new value.
    pub fn inc_reg8(&mut self, i: u8) -> (r: (u8, u8))
        requires
            old(self).wf(),
            i < 8,
            old(self)@.reg8_readable(i),
            old(self)@.reg8_writable(i, w8(old(self)@.reg8(i) + 1)),
        ensures
            final(self).wf(),
            r.0 == old(self)@.reg8(i),
            r.1 == w8(r.0 + 1),
            final(self)@ == old(self)@.set_reg8(i, r.1),
    {
        if i == 0 {
            self.regs.bc.inc_high()
        } else if i == 1 {
            self.regs.bc.inc_low()
        } else if i == 2 {
            self.regs.de.inc_high()
        } else if i == 3 {
            self.regs.de.inc_low()
        } else if i == 4 {
            self.regs.hl.inc_high()
        } else if i == 5 {
            self.regs.hl.inc_low()
        } else if i == 6 {
            let addr = self.regs.hl.v;
            let a = self.mem.readbyte(addr);
            self.mem.writebyte(addr, a.wrapping_add(1));
            (a, a.wrapping_add(1))
        } else {
            self.regs.af.inc_high()
        }
    }

    /// Decrements operand `i` modulo 256; returns its old and new value.
    pub fn dec_reg8(&mut self, i: u8) -> (r: (u8, u8))
        requires
            old(self).wf(),
            i < 8,
            old(self)@.reg8_readable(i),
            old(self)@.reg8_writable(i, w8(old(self)@.reg8(i) - 1)),
        ensures
            final(self).wf(),
            r.0 == old(self)@.reg8(i),
            r.1 == w8(r.0 - 1),
            final(self)@ == old(self)@.set_reg8(i, r.1),
    {
        if i == 0 {
            self.regs.bc.dec_high()
        } else if i == 1 {
            self.regs.bc.dec_low()
        } else if i == 2 {
            self.regs.de.dec_high()
        } else if i == 3 {
            self.regs.de.dec_low()
        } else if i == 4 {
            self.regs.hl.dec_high()
        } else if i == 5 {
            self.regs.hl.dec_low()
        } else if i == 6 {
            let addr = self.regs.hl.v;
            let a = self.mem.readbyte(addr);
            self.mem.writebyte(addr, a.wrapping_sub(1));
            (a, a.wrapping_sub(1))
        } else {
            self.regs.af.dec_high()
        }
    }

    /// The pair with index `p`: BC, DE, HL, SP.
    pub fn get_pair(&self, p: u8) -> (r: u16)
        ensures
            r == self@.pair(p),
    {
        if p == 0 {
            self.regs.bc.v
        } else if p == 1 {
            self.regs.de.v
        } else if p == 2 {
            self.regs.hl.v
        } else {
            self.regs.sp.v
        }
    }

    pub fn set_pair(&mut self, p: u8, v: u16)
        ensures
            final(self)@ == old(self)@.set_pair(p, v),
    {
        if p == 0 {
            self.regs.bc.v = v
        } else if p == 1 {
            self.regs.de.v = v
        } else if p == 2 {
            self.regs.hl.v = v
        } else {
            self.regs.sp.v = v
        }
    }

    /// DAA after an addition (the N flag clear).
    #[verifier::rlimit(30)]
    fn daa_after_add(&mut self)
        requires
            !old(self)@.nf(),
        ensures
            final(self)@ == old(self)@.op_daa(),
    {
        let ghost s0 = self@;
        let mut a = self.regs.af.get_high();
        if a > 0x99 || self.check_carry_flag() {
            a = a.wrapping_add(0x60);
            self.set_carry_flag(true);
        }
        let ghost c1 = self@.cf();
        if a & 0xF > 0x9 || self.check_hc_flag() {
            a = a.wrapping_add(0x6);
            self.set_hc_flag(false);
        }
        let ghost h2 = self@.hf();
        self.regs.af.set_high(a);
        self.set_zero_flag(a == 0);
        proof {
            lemma_alu_result(s0, self@, a, Some(a == 0), None, Some(h2), Some(c1));
        }
    }

    /// DAA after a subtraction (the N flag set).
    fn daa_after_sub(&mut self)
        requires
            old(self)@.nf(),
        ensures
            final(self)@ == old(self)@.op_daa(),
    {
        let ghost s0 = self@;
        let mut a = self.regs.af.get_high();
        if self.check_carry_flag() && self.check_hc_flag() {
            a = a.wrapping_add(0x9A);
            self.set_hc_flag(false);
        } else if self.check_carry_flag() {
            a = a.wrapping_add(0xA0);
        } else if self.check_hc_flag() {
            a = a.wrapping_add(0xFA);
            self.set_hc_flag(false);
        }
        let ghost h1 = self@.hf();
        self.regs.af.set_high(a);
        self.set_zero_flag(a == 0);
        proof {
            lemma_alu_result(s0, self@, a, Some(a == 0), None, Some(h1), None);
        }
    }

    /// DAA: decimal adjust of the accumulator.
    pub fn daa(&mut self)
        ensures
            final(self)@ == old(self)@.op_daa(),
    {
        if !self.check_addsub_flag() {
            self.daa_after_add();
        } else {
            self.daa_after_sub();
        }
    }

    /// The rotations of the accumulator (RLCA RRCA RLA RRA, `k` = 0..3);
    /// they always clear the zero flag.
    fn rotate_a(&mut self, k: u8)
        requires
            k < 4,
        ensures
            k == 0 ==> final(self)@ == old(self)@.exec_low(0x07, 0, 0),
            k == 1 ==> final(self)@ == old(self)@.exec_low(0x0F, 0, 0),
            k == 2 ==> final(self)@ == old(self)@.exec_low(0x17, 0, 0),
            k == 3 ==> final(self)@ == old(self)@.exec_low(0x1F, 0, 0),
    {
        proof {
            reveal(CpuState::exec_low);
            reveal(CpuState::low_ok);
        }
        let ghost s0 = self@;
        let a = self.regs.af.get_high();
        if k == 0 {
            let b = self.rlc(a);
            self.regs.af.set_high(b);
            self.set_zero_flag(false);
            proof { lemma_alu_result(s0, self@, b, Some(false), Some(false), Some(false), Some(b & 1 == 1)); }
        } else if k == 1 {
            let b = self.rrc(a);
            self.regs.af.set_high(b);
            self.set_zero_flag(false);
            proof { lemma_alu_result(s0, self@, b, Some(false), Some(false), Some(false), Some(b >> 7u8 == 1)); }
        } else if k == 2 {
            let b = self.rl(a);
            self.regs.af.set_high(b);
            self.set_zero_flag(false);
            proof { lemma_alu_result(s0, self@, b, Some(false), Some(false), Some(false), Some(a >> 7u8 == 1)); }
        } else {
            let b = self.rr(a);
            self.regs.af.set_high(b);
            self.set_zero_flag(false);
            proof { lemma_alu_result(s0, self@, b, Some(false), Some(false), Some(false), Some(a & 1 == 1)); }
        }
    }

    /// Instructions 0x00..0x3F other than the operand and pair families.
    #[verifier::rlimit(40)]
    fn exec_low_misc(&mut self, op: u8, n: u8, nn: u16)
        requires
            old(self).wf(),
            op < 0x40,
            op % 8 != 4 && op % 8 != 5 && op % 8 != 6,
            op % 16 != 1 && op % 16 != 3 && op % 16 != 9 && op % 16 != 0xB,
            old(self)@.low_ok(op, n, nn),
        ensures
            final(self).wf(),
            final(self)@ == old(self)@.exec_low(op, n, nn),
    {
        proof {
            reveal(CpuState::exec_low);
            reveal(CpuState::low_ok);
        }
        let ghost s0 = self@;
        if op == 0x02 {
            let a = self.regs.bc.v;
            let v = self.regs.af.get_high();
            self.mem.writebyte(a, v);
        } else if op == 0x12 {
            let a = self.regs.de.v;
            let v = self.regs.af.get_high();
            self.mem.writebyte(a, v);
        } else if op == 0x22 {
            let addr = self.regs.hl.v;
            let v = self.regs.af.get_high();
            self.mem.writebyte(addr, v);
            self.regs.hl.v = self.regs.hl.v.wrapping_add(1);
        } else if op == 0x32 {
            let addr = self.regs.hl.v;
            let v = self.regs.af.get_high();
            self.mem.writebyte(addr, v);
            self.regs.hl.v = self.regs.hl.v.wrapping_sub(1);
        } else if op == 0x0A {
            let v = self.mem.readbyte(self.regs.bc.v);
            self.regs.af.set_high(v);
        } else if op == 0x1A {
            let v = self.mem.readbyte(self.regs.de.v);
            self.regs.af.set_high(v);
        } else if op == 0x2A {
            let addr = self.regs.hl.v;
            let v = self.mem.readbyte(addr);
            self.regs.af.set_high(v);
            self.regs.hl.v = self.regs.hl.v.wrapping_add(1);
        } else if op == 0x3A {
            let addr = self.regs.hl.v;
            let v = self.mem.readbyte(addr);
            self.regs.af.set_high(v);
            self.regs.hl.v = self.regs.hl.v.wrapping_sub(1);
        } else if op == 0x07 {
            self.rotate_a(0);
        } else if op == 0x0F {
            self.rotate_a(1);
        } else if op == 0x17 {
            self.rotate_a(2);
        } else if op == 0x1F {
            self.rotate_a(3);
        } else if op == 0x08 {
            let bytes = self.regs.sp.to_bytes();
            proof {
                assert(w16(nn + 0) == nn);
                lemma_writes_ok_two(self.mem@, nn, lo(self.regs.sp.v), hi(self.regs.sp.v));
            }
            self.mem.write(nn, &bytes);
            self.regs.pc.v = self.regs.pc.v.wrapping_add(2);
        } else if op == 0x18 {
            self.jr(n);
        } else if op == 0x20 || op == 0x28 || op == 0x30 || op == 0x38 {
            let taken = if op == 0x20 {
                !self.check_zero_flag()
            } else if op == 0x28 {
                self.check_zero_flag()
            } else if op == 0x30 {
                !self.check_carry_flag()
            } else {
                self.check_carry_flag()
            };
            if taken {
                self.jr(n)
            } else {
                self.regs.pc.v = self.regs.pc.v.wrapping_add(1)
            }
        } else if op == 0x27 {
            self.daa();
        } else if op == 0x2F {
            let a = self.regs.af.get_high();
            self.regs.af.set_high(a ^ 0xFF);
            self.set_addsub_flag(true);
            self.set_hc_flag(true);
            proof {
                lemma_alu_result(s0, self@, a ^ 0xFF, None, Some(true), Some(true), None);
            }
        } else if op == 0x37 {
            self.set_carry_flag(true);
            self.set_addsub_flag(false);
            self.set_hc_flag(false);
            proof {
                lemma_alu_result(s0, self@, hi(s0.af), None, Some(false), Some(false), Some(true));
            }
        } else if op == 0x3F {
            let c = self.check_carry_flag();
            self.set_carry_flag(!c);
            self.set_addsub_flag(false);
            self.set_hc_flag(false);
            proof {
                lemma_alu_result(s0, self@, hi(s0.af), None, Some(false), Some(false), Some(!c));
            }
        }
    }

    /// Instructions 0x00..0x3F.
    fn exec_low(&mut self, op: u8, n: u8, nn: u16)
        requires
            old(self).wf(),
            op < 0x40,
            old(self)@.low_ok(op, n, nn),
        ensures
            final(self).wf(),
            final(self)@ == old(self)@.exec_low(op, n, nn),
    {
        proof {
            reveal(CpuState::exec_low);
            reveal(CpuState::low_ok);
        }
        let i = op / 8;
        let p = op / 16;
        if op % 8 == 4 {
            let t = self.inc_reg8(i);
            let ghost mid = self@;
            self.incflags(t);
            proof {
                lemma_alu_result(mid, self@, hi(mid.af), Some(t.1 == 0), Some(false), Some(t.1 & 0xF == 0), None);
            }
        } else if op % 8 == 5 {
            let t = self.dec_reg8(i);
            let ghost mid = self@;
            self.decflags(t);
            proof {
                lemma_alu_result(mid, self@, hi(mid.af), Some(t.1 == 0), Some(true), Some(t.1 & 0xF == 0xF), None);
            }
        } else if op % 8 == 6 {
            self.set_reg8(i, n);
            self.regs.pc.v = self.regs.pc.v.wrapping_add(1);
        } else if op % 16 == 1 {
            self.set_pair(p, nn);
            self.regs.pc.v = self.regs.pc.v.wrapping_add(2);
        } else if op % 16 == 3 {
            let v = self.get_pair(p);
            self.set_pair(p, v.wrapping_add(1));
        } else if op % 16 == 0xB {
            let v = self.get_pair(p);
            self.set_pair(p, v.wrapping_sub(1));
        } else if op % 16 == 9 {
            let ghost s0 = self@;
            let v = self.get_pair(p);
            let r = self.regs.hl.add(v);
            let ghost mid = self@;
            self.addflags16(r);
            proof {
                lemma_alu_result(mid, self@, hi(mid.af), None, Some(false), Some((r.1 & 0xFFF) < (r.0 & 0xFFF)), None);
            }
        } else {
            self.exec_low_misc(op, n, nn);
        }
    }

    /// Condition `k`: NZ, Z, NC, C.
    pub fn cond(&self, k: u8) -> (r: bool)
        ensures
            r == self@.cond(k),
    {
        if k == 0 {
            !self.check_zero_flag()
        } else if k == 1 {
            self.check_zero_flag()
        } else if k == 2 {
            !self.check_carry_flag()
        } else {
            self.check_carry_flag()
        }
    }

    /// Returns and jumps among 0xC0..0xDF.
    #[verifier::rlimit(30)]
    fn exec_jump(&mut self, op: u8, n: u8, nn: u16)
        requires
            old(self).wf(),
            op == 0xC0 || op == 0xC8 || op == 0xD0 || op == 0xD8 || op == 0xC2 || op == 0xCA || op == 0xD2
                || op == 0xDA || op == 0xC3 || op == 0xC9 || op == 0xD9,
            old(self)@.high_ok(op, n, nn),
        ensures
            final(self).wf(),
            final(self)@ == old(self)@.exec_flow(op, nn),
    {
        proof {
            reveal(CpuState::exec_flow);
            reveal(CpuState::high_ok);
        }
        let k = (op / 8) % 4;
        if op == 0xC0 || op == 0xC8 || op == 0xD0 || op == 0xD8 {
            if self.cond(k) {
                self.ret();
            }
        } else if op == 0xC2 || op == 0xCA || op == 0xD2 || op == 0xDA {
            if self.cond(k) {
                self.regs.pc.v = nn.wrapping_sub(1);
            } else {
                self.regs.pc.v = self.regs.pc.v.wrapping_add(2);
            }
        } else if op == 0xC3 {
            self.regs.pc.v = nn.wrapping_sub(1);
        } else if op == 0xC9 {
            self.ret();
        } else {
            // 0xD9 RETI
            self.ei();
            self.ret();
        }
    }

    /// Calls, pushes and pops among 0xC0..0xDF.
    #[verifier::rlimit(30)]
    fn exec_call(&mut self, op: u8, n: u8, nn: u16)
        requires
            old(self).wf(),
            op == 0xC4 || op == 0xCC || op == 0xD4 || op == 0xDC || op == 0xCD || op == 0xC1 || op == 0xD1
                || op == 0xC5 || op == 0xD5,
            old(self)@.high_ok(op, n, nn),
        ensures
            final(self).wf(),
            final(self)@ == old(self)@.exec_flow(op, nn),
    {
        proof {
            reveal(CpuState::exec_flow);
            reveal(CpuState::high_ok);
        }
        let k = (op / 8) % 4;
        if op == 0xC4 || op == 0xCC || op == 0xD4 || op == 0xDC {
            let taken = self.cond(k);
            self.regs.pc.v = self.regs.pc.v.wrapping_add(2);
            if taken {
                self.call(nn);
            }
        } else if op == 0xCD {
            self.regs.pc.v = self.regs.pc.v.wrapping_add(2);
            self.call(nn);
        } else if op == 0xC1 {
            let v = self.pop();
            self.regs.bc.v = v;
        } else if op == 0xD1 {
            let v = self.pop();
            self.regs.de.v = v;
        } else if op == 0xC5 {
            let v = self.regs.bc.v;
            self.push(v);
        } else {
            let v = self.regs.de.v;
            self.push(v);
        }
    }

    /// The signed value of a byte.
    fn to_i8(n: u8) -> (r: i8)
        ensures
            r == sext8(n),
    {
        if n < 128 {
            n as i8
        } else {
            (n as i16 - 256) as i8
        }
    }

    /// A byte sign-extended to 16 bits.
    fn sext16_exec(n: u8) -> (r: u16)
        ensures
            r == sext16(n),
    {
        if n < 128 {
            n as u16
        } else {
            n as u16 | 0xFF00
        }
    }

    /// Flags of `SP + e`: carry and half carry out of the low byte.
    fn sp_offset_flags(&mut self, x: u16)
        ensures
            old(self)@.flags_changed(
                final(self)@,
                Some(false),
                Some(false),
                Some(x & 0x10 == 0x10),
                Some(x & 0x100 == 0x100),
            ),
    {
        self.set_hc_flag(x & 0x10 == 0x10);
        self.set_carry_flag(x & 0x100 == 0x100);
        self.set_zero_flag(false);
        self.set_addsub_flag(false);
    }

    /// Stack, I/O-page and absolute loads among 0xE0..0xFF.
    #[verifier::rlimit(30)]
    fn exec_load(&mut self, op: u8, n: u8, nn: u16)
        requires
            old(self).wf(),
            op == 0xE0 || op == 0xE1 || op == 0xE2 || op == 0xE5 || op == 0xEA || op == 0xF0 || op == 0xF1
                || op == 0xF2 || op == 0xF5 || op == 0xFA,
            old(self)@.high_ok(op, n, nn),
        ensures
            final(self).wf(),
            final(self)@ == old(self)@.exec_misc(op, n, nn),
    {
        proof {
            reveal(CpuState::exec_misc);
            reveal(CpuState::high_ok);
        }
        if op == 0xE0 {
            let addr: u16 = 0xFF00 + n as u16;
            let v = self.regs.af.get_high();
            self.mem.writebyte(addr, v);
            self.regs.pc.v = self.regs.pc.v.wrapping_add(1);
        } else if op == 0xE1 {
            let v = self.pop();
            self.regs.hl.v = v;
        } else if op == 0xE2 {
            let addr: u16 = 0xFF00 + self.regs.bc.get_low() as u16;
            let v = self.regs.af.get_high();
            self.mem.writebyte(addr, v);
        } else if op == 0xE5 {
            let v = self.regs.hl.v;
            self.push(v);
        } else if op == 0xEA {
            let v = self.regs.af.get_high();
            self.mem.writebyte(nn, v);
            self.regs.pc.v = self.regs.pc.v.wrapping_add(2);
        } else if op == 0xF0 {
            let addr: u16 = 0xFF00 + n as u16;
            let v = self.mem.readbyte(addr);
            self.regs.af.set_high(v);
            self.regs.pc.v = self.regs.pc.v.wrapping_add(1);
        } else if op == 0xF1 {
            let v = self.pop();
            self.regs.af.v = v;
            self.regs.af.v = self.regs.af.v & 0xFFF0;
        } else if op == 0xF2 {
            let addr: u16 = 0xFF00 + self.regs.bc.get_low() as u16;
            let v = self.mem.readbyte(addr);
            self.regs.af.set_high(v);
        } else if op == 0xF5 {
            let v = self.regs.af.v;
            self.push(v);
        } else {
            // 0xFA
            self.regs.pc.v = self.regs.pc.v.wrapping_add(2);
            let v = self.mem.readbyte(nn);
            self.regs.af.set_high(v);
        }
    }

    /// SP arithmetic, `JP (HL)` and the interrupt switches among 0xE0..0xFF.
    #[verifier::rlimit(30)]
    fn exec_sp(&mut self, op: u8, n: u8, nn: u16)
        requires
            old(self).wf(),
            op == 0xE8 || op == 0xE9 || op == 0xF3 || op == 0xF8 || op == 0xF9 || op == 0xFB,
        ensures
            final(self).wf(),
            final(self)@ == old(self)@.exec_misc(op, n, nn),
    {
        proof {
            reveal(CpuState::exec_misc);
        }
        if op == 0xE8 {
            let sp1 = self.regs.sp.v;
            let sn = Self::to_i8(n);
            self.regs.sp.addi8(sn);
            let sp2 = self.regs.sp.v;
            let ghost mid = self@;
            let f = sp1 ^ Self::sext16_exec(n) ^ sp2;
            self.sp_offset_flags(f);
            proof {
                lemma_alu_result(mid, self@, hi(mid.af), Some(false), Some(false), Some(f & 0x10 == 0x10), Some(f & 0x100 == 0x100));
            }
            self.regs.pc.v = self.regs.pc.v.wrapping_add(1);
        } else if op == 0xE9 {
            self.regs.pc.v = self.regs.hl.v.wrapping_sub(1);
        } else if op == 0xF3 {
            self.di();
        } else if op == 0xF8 {
            let sp = self.regs.sp.v;
            let sn = Self::to_i8(n);
            let r = sp.wrapping_add_signed(sn as i16);
            let f = sp ^ Self::sext16_exec(n) ^ r;
            let ghost s0 = self@;
            self.sp_offset_flags(f);
            proof {
                lemma_alu_result(s0, self@, hi(s0.af), Some(false), Some(false), Some(f & 0x10 == 0x10), Some(f & 0x100 == 0x100));
            }
            self.regs.hl.v = r;
            self.regs.pc.v = self.regs.pc.v.wrapping_add(1);
        } else if op == 0xF9 {
            self.regs.sp.v = self.regs.hl.v;
        } else {
            // 0xFB EI
            self.ei();
        }
    }

    /// Instructions 0xC0..0xFF but 0xCB.
    fn exec_high(&mut self, op: u8, n: u8, nn: u16)
        requires
            old(self).wf(),
            0xC0 <= op,
            op != 0xCB,
            old(self)@.high_ok(op, n, nn),
        ensures
            final(self).wf(),
            final(self)@ == old(self)@.exec_high(op, n, nn),
    {
        proof {
            reveal(CpuState::exec_high);
            reveal(CpuState::high_ok);
        }
        if op % 8 == 6 {
            self.alu_op((op / 8) % 8, n);
            self.regs.pc.v = self.regs.pc.v.wrapping_add(1);
        } else if op % 8 == 7 {
            self.call((op - 0xC7) as u16);
        } else if op == 0xC4 || op == 0xCC || op == 0xD4 || op == 0xDC || op == 0xCD || op == 0xC1 || op == 0xD1
            || op == 0xC5 || op == 0xD5 {
            self.exec_call(op, n, nn);
        } else if op < 0xE0 {
            self.exec_jump(op, n, nn);
        } else if op == 0xE8 || op == 0xE9 || op == 0xF3 || op == 0xF8 || op == 0xF9 || op == 0xFB {
            self.exec_sp(op, n, nn);
        } else {
            self.exec_load(op, n, nn);
        }
    }

    /// The opcode at `pc` and the two bytes after it.
    pub fn fetch(&self) -> (r: (u8, u8, u16))
        requires
            self.wf(),
            self@.mem.readable(self@.pc),
            self@.mem.readable(w16(self@.pc + 1)),
            self@.mem.readable(w16(self@.pc + 2)),
        ensures
            r.0 == self@.rd(self@.pc),
            r.1 == self@.imm8(),
            r.2 == self@.imm16(),
    {
        let pc = self.regs.pc.v;
        let op: u8 = self.mem.readbyte(pc);
        let n: u8 = self.mem.readbyte(pc.wrapping_add(1));
        let h: u8 = self.mem.readbyte(pc.wrapping_add(2));
        let nn: u16 = ((h as u16) << 8) | (n as u16);
        (op, n, nn)
    }

    /// Executes instruction `op` with operands `n`, `nn`, leaving `pc` on
    /// its last byte.
    fn execute(&mut self, op: u8, n: u8, nn: u16)
        requires
            old(self).wf(),
            old(self)@.op_ok(op, n, nn),
        ensures
            final(self).wf(),
            final(self)@ == old(self)@.exec_op(op, n, nn),
    {
        if op < 0x40 {
            self.exec_low(op, n, nn);
        } else if op < 0xC0 {
            self.exec_mid(op);
        } else if op == 0xCB {
            self.exec_cb(n);
        } else {
            self.exec_high(op, n, nn);
        }
    }

    /// Executes the instruction at `pc` and moves past it.
    pub fn next(&mut self)
        requires
            old(self).wf(),
            old(self)@.can_step(),
        ensures
            final(self).wf(),
            final(self)@ == old(self)@.step(),
    {
        let (op, n, nn) = self.fetch();
        self.execute(op, n, nn);
        self.regs.pc.v = self.regs.pc.v.wrapping_add(1);
        self.last_op = op;
    }

    // ------------------------------------------------------------------
    // Checks that a step is defined.

    fn reg8_readable(&self, i: u8) -> (r: bool)
        requires
            self.wf(),
        ensures
            r == self@.reg8_readable(i),
    {
        i != 6 || self.mem.readable(self.regs.hl.v)
    }

    fn reg8_writable(&self, i: u8, v: u8) -> (r: bool)
        requires
            self.wf(),
        ensures
            r == self@.reg8_writable(i, v),
    {
        i != 6 || self.mem.writable(self.regs.hl.v, v)
    }

    fn push_writable(&self, v: u16) -> (r: bool)
        requires
            self.wf(),
        ensures
            r == self@.push_writable(v),
    {
        proof {
            lemma_bytes(v, 0);
        }
        self.mem.writable2(self.regs.sp.v.wrapping_sub(2), (v & 0xFF) as u8, (v >> 8) as u8)
    }

    fn pop_readable(&self) -> (r: bool)
        requires
            self.wf(),
        ensures
            r == self@.pop_readable(),
    {
        self.mem.readable(self.regs.sp.v) && self.mem.readable(self.regs.sp.v.wrapping_add(1))
    }

    fn low_ok(&self, op: u8, n: u8, nn: u16) -> (r: bool)
        requires
            self.wf(),
            op < 0x40,
        ensures
            r == self@.low_ok(op, n, nn),
    {
        proof {
            reveal(CpuState::low_ok);
            lemma_bytes(self.regs.sp.v, 0);
        }
        let i = op / 8;
        let lo3 = op % 8;
        let hl = self.regs.hl.v;
        let a = self.regs.af.get_high();
        let sp = self.regs.sp.v;
        if op == 0x10 {
            false
        } else if lo3 == 4 {
            self.reg8_readable(i) && self.reg8_writable(i, self.get_reg8(i).wrapping_add(1))
        } else if lo3 == 5 {
            self.reg8_readable(i) && self.reg8_writable(i, self.get_reg8(i).wrapping_sub(1))
        } else if lo3 == 6 {
            self.reg8_writable(i, n)
        } else if op == 0x02 {
            self.mem.writable(self.regs.bc.v, a)
        } else if op == 0x12 {
            self.mem.writable(self.regs.de.v, a)
        } else if op == 0x22 || op == 0x32 {
            self.mem.writable(hl, a)
        } else if op == 0x0A {
            self.mem.readable(self.regs.bc.v)
        } else if op == 0x1A {
            self.mem.readable(self.regs.de.v)
        } else if op == 0x2A || op == 0x3A {
            self.mem.readable(hl)
        } else if op == 0x08 {
            self.mem.writable2(nn, (sp & 0xFF) as u8, (sp >> 8) as u8)
        } else {
            true
        }
    }

    fn mid_ok(&self, op: u8) -> (r: bool)
        requires
            self.wf(),
        ensures
            r == self@.mid_ok(op),
    {
        proof {
            reveal(CpuState::mid_ok);
        }
        self.reg8_readable(op % 8) && (!(op < 0x80 && op != 0x76) || self.reg8_writable(
            (op / 8) % 8,
            self.get_reg8(op % 8),
        ))
    }

    fn cb_ok(&self, n: u8) -> (r: bool)
        requires
            self.wf(),
        ensures
            r == self@.cb_ok(n),
    {
        proof {
            reveal(CpuState::cb_ok);
        }
        let i = n % 8;
        if !self.reg8_readable(i) {
            false
        } else if n < 0x40 || n > 0x80 {
            let x = self.get_reg8(i);
            self.reg8_writable(i, self.cb_result(n, x))
        } else {
            true
        }
    }

    /// The result byte of CB operation `n` on `x`, flags left alone.
    fn cb_result(&self, n: u8, x: u8) -> (r: u8)
        ensures
            r == self@.cb_value(n, x),
    {
        let b = (n / 8) % 8;
        let c: u8 = if self.check_carry_flag() { 1 } else { 0 };
        if n < 0x08 {
            (x << 1u8) | (x >> 7u8)
        } else if n < 0x10 {
            (x >> 1u8) | (x << 7u8)
        } else if n < 0x18 {
            (x << 1u8) | c
        } else if n < 0x20 {
            (x >> 1u8) | (c << 7u8)
        } else if n < 0x28 {
            x << 1u8
        } else if n < 0x30 {
            (x & 0x80) | (x >> 1u8)
        } else if n < 0x38 {
            (x << 4u8) | (x >> 4u8)
        } else if n < 0x40 {
            x >> 1u8
        } else if n < 0x80 {
            x
        } else if n < 0xC0 {
            x & (0xFF ^ (1u8 << b))
        } else {
            x | (1u8 << b)
        }
    }

    fn high_ok(&self, op: u8, n: u8, nn: u16) -> (r: bool)
        requires
            self.wf(),
        ensures
            r == self@.high_ok(op, n, nn),
    {
        proof {
            reveal(CpuState::high_ok);
        }
        let k = (op / 8) % 4;
        let pc = self.regs.pc.v;
        let a = self.regs.af.get_high();
        let c = self.cond(k);
        if is_invalid_op(op) {
            false
        } else if op % 8 == 7 {
            self.push_writable(pc.wrapping_add(1))
        } else if op == 0xC0 || op == 0xC8 || op == 0xD0 || op == 0xD8 {
            !c || self.pop_readable()
        } else if op == 0xC4 || op == 0xCC || op == 0xD4 || op == 0xDC {
            !c || self.push_writable(pc.wrapping_add(2).wrapping_add(1))
        } else if op == 0xC1 || op == 0xD1 || op == 0xE1 || op == 0xF1 || op == 0xC9 || op == 0xD9 {
            self.pop_readable()
        } else if op == 0xC5 || op == 0xD5 {
            self.push_writable(self.get_pair((op / 16) % 4))
        } else if op == 0xE5 {
            self.push_writable(self.regs.hl.v)
        } else if op == 0xF5 {
            self.push_writable(self.regs.af.v)
        } else if op == 0xCD {
            self.push_writable(pc.wrapping_add(2).wrapping_add(1))
        } else if op == 0xEA {
            self.mem.writable(nn, a)
        } else if op == 0xE0 {
            self.mem.writable(0xFF00u16 + n as u16, a)
        } else if op == 0xE2 {
            self.mem.writable(0xFF00u16 + self.regs.bc.get_low() as u16, a)
        } else if op == 0xFA {
            self.mem.readable(nn)
        } else {
            true
        }
    }

    /// Whether executing the next instruction is defined (see
    /// `CpuState::can_step`): `next` may be called exactly when this holds.
    pub fn can_step(&self) -> (r: bool)
        requires
            self.wf(),
        ensures
            r == self@.can_step(),
    {
        let pc = self.regs.pc.v;
        if !(self.mem.readable(pc) && self.mem.readable(pc.wrapping_add(1)) && self.mem.readable(
            pc.wrapping_add(2),
        )) {
            return false;
        }
        let (op, n, nn) = self.fetch();
        if op < 0x40 {
            self.low_ok(op, n, nn)
        } else if op < 0xC0 {
            self.mid_ok(op)
        } else if op == 0xCB {
            self.cb_ok(n)
        } else {
            self.high_ok(op, n, nn)
        }
    }
}

} // verus!

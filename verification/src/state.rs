//! The abstract CPU state and the meaning of each instruction.
use vstd::prelude::*;
use crate::bits::{
    hi, lo, with_hi, with_lo, join, w8, w16, flag, make_af, opt_or, f_after, lemma_af_result, ZF, NF, HF,
    CF,
};
use crate::mem::MemState;

verus! {

/// The value of a byte read as a two's-complement signed number.
pub open spec fn sext8(n: u8) -> int {
    if n < 128 {
        n as int
    } else {
        n - 256
    }
}

/// The byte `n` sign-extended to 16 bits.
pub open spec fn sext16(n: u8) -> u16 {
    if n < 128 {
        n as u16
    } else {
        (n as u16) | 0xFF00
    }
}

pub open spec fn bool_bit(b: bool) -> u8 {
    if b { 1u8 } else { 0u8 }
}

/// Rotations and shifts of one byte.
pub open spec fn rlc8(x: u8) -> u8 {
    (x << 1u8) | (x >> 7u8)
}

pub open spec fn rrc8(x: u8) -> u8 {
    (x >> 1u8) | (x << 7u8)
}

pub open spec fn rl8(x: u8, c: bool) -> u8 {
    (x << 1u8) | bool_bit(c)
}

pub open spec fn rr8(x: u8, c: bool) -> u8 {
    (x >> 1u8) | (bool_bit(c) << 7u8)
}

/// The whole machine as the instructions see it.
pub struct CpuState {
    pub af: u16,
    pub bc: u16,
    pub de: u16,
    pub hl: u16,
    pub sp: u16,
    pub pc: u16,
    pub mem: MemState,
    pub clock: usize,
    pub screen_mode: u8,
    pub drawing: bool,
    pub interrupts_enabled: bool,
    pub last_op: u8,
    pub halted: bool,
    pub log: bool,
}

impl CpuState {
    /// The machine at power-on with cartridge `rom`.
    pub open spec fn initial(rom: Seq<u8>, log: bool) -> CpuState {
        CpuState {
            af: 0x01B0,
            bc: 0x0013,
            de: 0x00D8,
            hl: 0x014D,
            sp: 0xFFFE,
            pc: 0x0100,
            mem: MemState::initial(rom, rom[0x147]),
            clock: 0,
            screen_mode: 0,
            drawing: false,
            interrupts_enabled: false,
            last_op: 0,
            halted: false,
            log,
        }
    }

    /// `new` differs from `self` in the AF pair alone.
    pub open spec fn only_af(self, new: CpuState) -> bool {
        new == CpuState { af: new.af, ..self }
    }

    /// `new` differs from `self` in the flags alone, as given.
    pub open spec fn flags_changed(
        self,
        new: CpuState,
        z: Option<bool>,
        n: Option<bool>,
        h: Option<bool>,
        c: Option<bool>,
    ) -> bool {
        &&& self.only_af(new)
        &&& hi(new.af) == hi(self.af)
        &&& f_after(self.af, new.af, z, n, h, c)
    }

    pub open spec fn wf(self) -> bool {
        &&& self.mem.wf()
        &&& self.screen_mode <= 3
        &&& self.clock < 456
    }

    pub open spec fn a(self) -> u8 {
        hi(self.af)
    }

    pub open spec fn zf(self) -> bool {
        flag(self.af, ZF)
    }

    pub open spec fn nf(self) -> bool {
        flag(self.af, NF)
    }

    pub open spec fn hf(self) -> bool {
        flag(self.af, HF)
    }

    pub open spec fn cf(self) -> bool {
        flag(self.af, CF)
    }

    pub open spec fn rd(self, a: u16) -> u8 {
        self.mem.read(a)
    }

    pub open spec fn wr(self, a: u16, v: u8) -> CpuState {
        CpuState { mem: self.mem.write(a, v), ..self }
    }

    /// The accumulator set to `r` and the given flags changed.
    pub open spec fn alu(
        self,
        r: u8,
        z: Option<bool>,
        n: Option<bool>,
        h: Option<bool>,
        c: Option<bool>,
    ) -> CpuState {
        CpuState {
            af: make_af(
                r,
                opt_or(z, self.zf()),
                opt_or(n, self.nf()),
                opt_or(h, self.hf()),
                opt_or(c, self.cf()),
                lo(self.af),
            ),
            ..self
        }
    }

    /// Only the given flags changed.
    pub open spec fn flags(self, z: Option<bool>, n: Option<bool>, h: Option<bool>, c: Option<bool>) -> CpuState {
        self.alu(self.a(), z, n, h, c)
    }

    pub open spec fn with_pc(self, pc: u16) -> CpuState {
        CpuState { pc, ..self }
    }

    pub open spec fn skip(self, k: int) -> CpuState {
        self.with_pc(w16(self.pc + k))
    }

    /// The 8-bit operand with index `i`: B, C, D, E, H, L, (HL), A.
    pub open spec fn reg8(self, i: u8) -> u8 {
        if i == 0 {
            hi(self.bc)
        } else if i == 1 {
            lo(self.bc)
        } else if i == 2 {
            hi(self.de)
        } else if i == 3 {
            lo(self.de)
        } else if i == 4 {
            hi(self.hl)
        } else if i == 5 {
            lo(self.hl)
        } else if i == 6 {
            self.rd(self.hl)
        } else {
            hi(self.af)
        }
    }

    pub open spec fn set_reg8(self, i: u8, v: u8) -> CpuState {
        if i == 0 {
            CpuState { bc: with_hi(self.bc, v), ..self }
        } else if i == 1 {
            CpuState { bc: with_lo(self.bc, v), ..self }
        } else if i == 2 {
            CpuState { de: with_hi(self.de, v), ..self }
        } else if i == 3 {
            CpuState { de: with_lo(self.de, v), ..self }
        } else if i == 4 {
            CpuState { hl: with_hi(self.hl, v), ..self }
        } else if i == 5 {
            CpuState { hl: with_lo(self.hl, v), ..self }
        } else if i == 6 {
            self.wr(self.hl, v)
        } else {
            CpuState { af: with_hi(self.af, v), ..self }
        }
    }

    /// Whether reading operand `i` is defined.
    pub open spec fn reg8_readable(self, i: u8) -> bool {
        i == 6 ==> self.mem.readable(self.hl)
    }

    /// Whether writing `v` to operand `i` is defined.
    pub open spec fn reg8_writable(self, i: u8, v: u8) -> bool {
        i == 6 ==> self.mem.writable(self.hl, v)
    }

    /// The 16-bit pair with index `i`: BC, DE, HL, SP.
    pub open spec fn pair(self, i: u8) -> u16 {
        if i == 0 {
            self.bc
        } else if i == 1 {
            self.de
        } else if i == 2 {
            self.hl
        } else {
            self.sp
        }
    }

    pub open spec fn set_pair(self, i: u8, v: u16) -> CpuState {
        if i == 0 {
            CpuState { bc: v, ..self }
        } else if i == 1 {
            CpuState { de: v, ..self }
        } else if i == 2 {
            CpuState { hl: v, ..self }
        } else {
            CpuState { sp: v, ..self }
        }
    }

    /// The flag condition with index `k`: NZ, Z, NC, C.
    pub open spec fn cond(self, k: u8) -> bool {
        if k == 0 {
            !self.zf()
        } else if k == 1 {
            self.zf()
        } else if k == 2 {
            !self.cf()
        } else {
            self.cf()
        }
    }

    /// Pushes `v` on the stack: SP drops by two, low byte at SP.
    pub open spec fn push(self, v: u16) -> CpuState {
        let sp = w16(self.sp - 2);
        CpuState { sp, mem: self.mem.write(sp, lo(v)).write(w16(sp + 1), hi(v)), ..self }
    }

    /// Whether pushing `v` is defined.
    pub open spec fn push_writable(self, v: u16) -> bool {
        self.mem.writable2(w16(self.sp - 2), lo(v), hi(v))
    }

    /// The 16-bit value on top of the stack.
    pub open spec fn top(self) -> u16 {
        join(self.rd(w16(self.sp + 1)), self.rd(self.sp))
    }

    pub open spec fn pop_readable(self) -> bool {
        self.mem.readable(self.sp) && self.mem.readable(w16(self.sp + 1))
    }

    /// The stack with its top value removed (see `top`).
    pub open spec fn drop2(self) -> CpuState {
        CpuState { sp: w16(self.sp + 2), ..self }
    }

    /// Calls `v`: pushes the address of the next instruction; `pc` is left
    /// one short of `v`, as the step adds one at its end.
    pub open spec fn call(self, v: u16) -> CpuState {
        self.push(w16(self.pc + 1)).with_pc(w16(v - 1))
    }

    /// Enters an interrupt handler at `v`: pushes `pc`, or the address after
    /// it when halted.
    pub open spec fn interrupt_call(self, v: u16) -> CpuState {
        self.push(w16(self.pc + bool_bit(self.halted))).with_pc(v)
    }

    /// Returns to the address on top of the stack.
    pub open spec fn ret(self) -> CpuState {
        self.drop2().with_pc(w16(self.top() - 1))
    }

    /// Relative jump by the signed byte `n`.
    pub open spec fn jr(self, n: u8) -> CpuState {
        self.with_pc(w16(self.pc + sext8(n) + 1))
    }

    // ------------------------------------------------------------------
    // 8-bit arithmetic and logic on the accumulator.

    pub open spec fn op_add(self, b: u8) -> CpuState {
        let a = self.a();
        let r = w8(a + b);
        self.alu(r, Some(r == 0), Some(false), Some((r & 0xF) < (a & 0xF)), Some(r < a))
    }

    pub open spec fn op_adc(self, b: u8) -> CpuState {
        let a = self.a();
        let c = bool_bit(self.cf());
        let r = w8(a + b + c);
        self.alu(
            r,
            Some(r == 0),
            Some(false),
            Some((a & 0xF) + (b & 0xF) + c > 0xF),
            Some(a + b + c > 0xFF),
        )
    }

    pub open spec fn op_sub(self, b: u8) -> CpuState {
        let a = self.a();
        let r = w8(a - b);
        self.alu(r, Some(r == 0), Some(true), Some((a & 0xF) < (r & 0xF)), Some(r > a))
    }

    pub open spec fn op_sbc(self, b: u8) -> CpuState {
        let a = self.a();
        let c = bool_bit(self.cf());
        let r = w8(a - b - c);
        self.alu(
            r,
            Some(r == 0),
            Some(true),
            Some((a & 0xF) - (b & 0xF) - c < 0),
            Some(a - b - c < 0),
        )
    }

    pub open spec fn op_and(self, b: u8) -> CpuState {
        let r = self.a() & b;
        self.alu(r, Some(r == 0), Some(false), Some(true), Some(false))
    }

    pub open spec fn op_xor(self, b: u8) -> CpuState {
        let r = self.a() ^ b;
        self.alu(r, Some(r == 0), Some(false), Some(false), Some(false))
    }

    pub open spec fn op_or(self, b: u8) -> CpuState {
        let r = self.a() | b;
        self.alu(r, Some(r == 0), Some(false), Some(false), Some(false))
    }

    pub open spec fn op_cp(self, b: u8) -> CpuState {
        let a = self.a();
        self.flags(Some(a == b), Some(true), Some((a & 0xF) < (w8(a - b) & 0xF)), Some(a < b))
    }

    /// The ALU operation with index `k`: ADD ADC SUB SBC AND XOR OR CP.
    pub open spec fn alu_op(self, k: u8, b: u8) -> CpuState {
        if k == 0 {
            self.op_add(b)
        } else if k == 1 {
            self.op_adc(b)
        } else if k == 2 {
            self.op_sub(b)
        } else if k == 3 {
            self.op_sbc(b)
        } else if k == 4 {
            self.op_and(b)
        } else if k == 5 {
            self.op_xor(b)
        } else if k == 6 {
            self.op_or(b)
        } else {
            self.op_cp(b)
        }
    }

    /// Flags of an 8-bit increment that gave `r`.
    pub open spec fn inc_flags(self, r: u8) -> CpuState {
        self.flags(Some(r == 0), Some(false), Some(r & 0xF == 0), None)
    }

    /// Flags of an 8-bit decrement that gave `r`.
    pub open spec fn dec_flags(self, r: u8) -> CpuState {
        self.flags(Some(r == 0), Some(true), Some(r & 0xF == 0xF), None)
    }

    /// Decimal adjust of the accumulator after a BCD addition or subtraction.
    pub open spec fn op_daa(self) -> CpuState {
        let a0 = self.a();
        if !self.nf() {
            let a1: u8 = if a0 > 0x99 || self.cf() { w8(a0 + 0x60) } else { a0 };
            let c1 = if a0 > 0x99 || self.cf() { true } else { self.cf() };
            let adj = (a1 & 0xF) > 0x9 || self.hf();
            let a2: u8 = if adj { w8(a1 + 0x6) } else { a1 };
            let h2 = if adj { false } else { self.hf() };
            self.alu(a2, Some(a2 == 0), None, Some(h2), Some(c1))
        } else if self.cf() && self.hf() {
            let a1 = w8(a0 + 0x9A);
            self.alu(a1, Some(a1 == 0), None, Some(false), None)
        } else if self.cf() {
            let a1 = w8(a0 + 0xA0);
            self.alu(a1, Some(a1 == 0), None, None, None)
        } else if self.hf() {
            let a1 = w8(a0 + 0xFA);
            self.alu(a1, Some(a1 == 0), None, Some(false), None)
        } else {
            self.alu(a0, Some(a0 == 0), None, None, None)
        }
    }

    /// SP plus a signed byte, with the flags of `ADD SP,e` / `LD HL,SP+e`.
    pub open spec fn sp_offset(self, n: u8) -> (u16, CpuState) {
        let r = w16(self.sp + sext8(n));
        let x = self.sp ^ sext16(n) ^ r;
        (r, self.flags(Some(false), Some(false), Some(x & 0x10 == 0x10), Some(x & 0x100 == 0x100)))
    }

    // ------------------------------------------------------------------
    // The CB-prefixed operations on one byte.

    /// Result byte of CB operation `n` on `x`.
    pub open spec fn cb_value(self, n: u8, x: u8) -> u8 {
        let b = (n / 8) % 8;
        if n < 0x08 {
            rlc8(x)
        } else if n < 0x10 {
            rrc8(x)
        } else if n < 0x18 {
            rl8(x, self.cf())
        } else if n < 0x20 {
            rr8(x, self.cf())
        } else if n < 0x28 {
            x << 1u8
        } else if n < 0x30 {
            (x & 0x80) | (x >> 1u8)
        } else if n < 0x38 {
            (x << 4u8) | (x >> 4u8)
        } else if n < 0x40 {
            x >> 1u8
        } else if n < 0x80 {
            x
        } else if n < 0xC0 {
            x & (0xFF ^ (1u8 << b))
        } else {
            x | (1u8 << b)
        }
    }

    /// The flags after CB operation `n` on `x`.
    pub open spec fn cb_flags(self, n: u8, x: u8) -> CpuState {
        let r = self.cb_value(n, x);
        let b = (n / 8) % 8;
        if n < 0x08 {
            self.flags(Some(r == 0), Some(false), Some(false), Some(r & 1 == 1))
        } else if n < 0x10 {
            self.flags(Some(r == 0), Some(false), Some(false), Some(r >> 7u8 == 1))
        } else if n < 0x18 {
            self.flags(Some(r == 0), Some(false), Some(false), Some(x >> 7u8 == 1))
        } else if n < 0x20 {
            self.flags(Some(r == 0), Some(false), Some(false), Some(x & 1 == 1))
        } else if n < 0x28 {
            self.flags(Some(r == 0), Some(false), Some(false), Some(x >> 7u8 == 1))
        } else if n < 0x30 {
            self.flags(Some(r == 0), Some(false), Some(false), Some(x & 1 == 1))
        } else if n < 0x38 {
            self.flags(Some(r == 0), Some(false), Some(false), Some(false))
        } else if n < 0x40 {
            self.flags(Some(r == 0), Some(false), Some(false), Some(x & 1 == 1))
        } else if n < 0x80 {
            self.flags(Some((x >> b) & 1 != 1), Some(false), Some(true), None)
        } else {
            self
        }
    }

    /// Whether CB operation `n` stores its result back (BIT does not, and
    /// neither does `RES 0,B`, whose code is 0x80).
    pub open spec fn cb_writes_back(n: u8) -> bool {
        n < 0x40 || n > 0x80
    }

    /// The CB-prefixed instruction with second byte `n`.
    #[verifier::opaque]
    pub open spec fn exec_cb(self, n: u8) -> CpuState {
        let i = n % 8;
        let x = self.reg8(i);
        let s1 = self.cb_flags(n, x);
        let s2 = if Self::cb_writes_back(n) { s1.set_reg8(i, self.cb_value(n, x)) } else { s1 };
        s2.skip(1)
    }

    #[verifier::opaque]
    pub open spec fn cb_ok(self, n: u8) -> bool {
        let i = n % 8;
        &&& self.reg8_readable(i)
        &&& Self::cb_writes_back(n) ==> self.reg8_writable(i, self.cb_value(n, self.reg8(i)))
    }

    // ------------------------------------------------------------------
    // Instructions 0x00..0x3F.

    #[verifier::opaque]
    pub open spec fn exec_low(self, op: u8, n: u8, nn: u16) -> CpuState {
        let i = op / 8;
        let p = op / 16;
        let lo3 = op % 8;
        let lo4 = op % 16;
        if lo3 == 4 {
            let r = w8(self.reg8(i) + 1);
            self.set_reg8(i, r).inc_flags(r)
        } else if lo3 == 5 {
            let r = w8(self.reg8(i) - 1);
            self.set_reg8(i, r).dec_flags(r)
        } else if lo3 == 6 {
            self.set_reg8(i, n).skip(1)
        } else if lo4 == 1 {
            self.set_pair(p, nn).skip(2)
        } else if lo4 == 3 {
            self.set_pair(p, w16(self.pair(p) + 1))
        } else if lo4 == 0xB {
            self.set_pair(p, w16(self.pair(p) - 1))
        } else if lo4 == 9 {
            let o = self.hl;
            let r = w16(o + self.pair(p));
            CpuState { hl: r, ..self }.flags(None, Some(false), Some((r & 0xFFF) < (o & 0xFFF)), None)
        } else if op == 0x02 {
            self.wr(self.bc, self.a())
        } else if op == 0x12 {
            self.wr(self.de, self.a())
        } else if op == 0x22 {
            CpuState { hl: w16(self.hl + 1), ..self.wr(self.hl, self.a()) }
        } else if op == 0x32 {
            CpuState { hl: w16(self.hl - 1), ..self.wr(self.hl, self.a()) }
        } else if op == 0x0A {
            self.set_reg8(7, self.rd(self.bc))
        } else if op == 0x1A {
            self.set_reg8(7, self.rd(self.de))
        } else if op == 0x2A {
            CpuState { hl: w16(self.hl + 1), ..self.set_reg8(7, self.rd(self.hl)) }
        } else if op == 0x3A {
            CpuState { hl: w16(self.hl - 1), ..self.set_reg8(7, self.rd(self.hl)) }
        } else if op == 0x07 {
            let r = rlc8(self.a());
            self.alu(r, Some(false), Some(false), Some(false), Some(r & 1 == 1))
        } else if op == 0x0F {
            let r = rrc8(self.a());
            self.alu(r, Some(false), Some(false), Some(false), Some(r >> 7u8 == 1))
        } else if op == 0x17 {
            let x = self.a();
            self.alu(rl8(x, self.cf()), Some(false), Some(false), Some(false), Some(x >> 7u8 == 1))
        } else if op == 0x1F {
            let x = self.a();
            self.alu(rr8(x, self.cf()), Some(false), Some(false), Some(false), Some(x & 1 == 1))
        } else if op == 0x08 {
            CpuState { mem: self.mem.write_bytes(nn, seq![lo(self.sp), hi(self.sp)]), ..self }.skip(2)
        } else if op == 0x18 {
            self.jr(n)
        } else if op == 0x20 || op == 0x28 || op == 0x30 || op == 0x38 {
            if self.cond((op / 8) % 4) {
                self.jr(n)
            } else {
                self.skip(1)
            }
        } else if op == 0x27 {
            self.op_daa()
        } else if op == 0x2F {
            self.alu(self.a() ^ 0xFF, None, Some(true), Some(true), None)
        } else if op == 0x37 {
            self.flags(None, Some(false), Some(false), Some(true))
        } else if op == 0x3F {
            self.flags(None, Some(false), Some(false), Some(!self.cf()))
        } else {
            // 0x00 NOP
            self
        }
    }

    #[verifier::opaque]
    pub open spec fn low_ok(self, op: u8, n: u8, nn: u16) -> bool {
        let i = op / 8;
        let lo3 = op % 8;
        &&& op != 0x10
        &&& lo3 == 4 ==> self.reg8_readable(i) && self.reg8_writable(i, w8(self.reg8(i) + 1))
        &&& lo3 == 5 ==> self.reg8_readable(i) && self.reg8_writable(i, w8(self.reg8(i) - 1))
        &&& lo3 == 6 ==> self.reg8_writable(i, n)
        &&& op == 0x02 ==> self.mem.writable(self.bc, self.a())
        &&& op == 0x12 ==> self.mem.writable(self.de, self.a())
        &&& (op == 0x22 || op == 0x32) ==> self.mem.writable(self.hl, self.a())
        &&& op == 0x0A ==> self.mem.readable(self.bc)
        &&& op == 0x1A ==> self.mem.readable(self.de)
        &&& (op == 0x2A || op == 0x3A) ==> self.mem.readable(self.hl)
        &&& op == 0x08 ==> self.mem.writable2(nn, lo(self.sp), hi(self.sp))
    }

    // ------------------------------------------------------------------
    // Instructions 0x40..0xBF: loads between operands and the ALU.

    #[verifier::opaque]
    pub open spec fn exec_mid(self, op: u8) -> CpuState {
        let b = self.reg8(op % 8);
        if op < 0x80 {
            if op == 0x76 {
                CpuState { halted: true, ..self }.skip(-1)
            } else {
                self.set_reg8((op / 8) % 8, b)
            }
        } else {
            self.alu_op((op / 8) % 8, b)
        }
    }

    #[verifier::opaque]
    pub open spec fn mid_ok(self, op: u8) -> bool {
        &&& self.reg8_readable(op % 8)
        &&& (op < 0x80 && op != 0x76) ==> self.reg8_writable((op / 8) % 8, self.reg8(op % 8))
    }

    // ------------------------------------------------------------------
    // Instructions 0xC0..0xFF (but 0xCB).

    /// Codes that are not instructions.
    pub open spec fn invalid_op(op: u8) -> bool {
        op == 0xD3 || op == 0xDB || op == 0xDD || op == 0xE3 || op == 0xE4 || op == 0xEB || op == 0xEC
            || op == 0xED || op == 0xF4 || op == 0xFC || op == 0xFD
    }

    #[verifier::opaque]
    pub open spec fn exec_high(self, op: u8, n: u8, nn: u16) -> CpuState {
        if op % 8 == 6 {
            self.alu_op((op / 8) % 8, n).skip(1)
        } else if op % 8 == 7 {
            self.call((op - 0xC7) as u16)
        } else if op < 0xE0 {
            self.exec_flow(op, nn)
        } else {
            self.exec_misc(op, n, nn)
        }
    }

    /// Instructions 0xC0..0xDF that return, jump, call, push or pop.
    #[verifier::opaque]
    pub open spec fn exec_flow(self, op: u8, nn: u16) -> CpuState {
        let k = (op / 8) % 4;
        let p = (op / 16) % 4;
        if op == 0xC0 || op == 0xC8 || op == 0xD0 || op == 0xD8 {
            if self.cond(k) {
                self.ret()
            } else {
                self
            }
        } else if op == 0xC2 || op == 0xCA || op == 0xD2 || op == 0xDA {
            if self.cond(k) {
                self.with_pc(w16(nn - 1))
            } else {
                self.skip(2)
            }
        } else if op == 0xC4 || op == 0xCC || op == 0xD4 || op == 0xDC {
            if self.cond(k) {
                self.skip(2).call(nn)
            } else {
                self.skip(2)
            }
        } else if op == 0xC1 || op == 0xD1 {
            self.drop2().set_pair(p, self.top())
        } else if op == 0xC5 || op == 0xD5 {
            self.push(self.pair(p))
        } else if op == 0xC3 {
            self.with_pc(w16(nn - 1))
        } else if op == 0xC9 {
            self.ret()
        } else if op == 0xCD {
            self.skip(2).call(nn)
        } else {
            // 0xD9 RETI
            CpuState { mem: MemState { ime_delay: 2, ..self.mem }, ..self }.ret()
        }
    }

    /// Instructions 0xE0..0xFF other than the ALU-immediate and restart ones.
    #[verifier::opaque]
    pub open spec fn exec_misc(self, op: u8, n: u8, nn: u16) -> CpuState {
        if op == 0xE1 {
            self.drop2().set_pair(2, self.top())
        } else if op == 0xF1 {
            CpuState { af: self.top() & 0xFFF0, ..self.drop2() }
        } else if op == 0xE5 {
            self.push(self.hl)
        } else if op == 0xF5 {
            self.push(self.af)
        } else if op == 0xE0 {
            self.wr((0xFF00 + n) as u16, self.a()).skip(1)
        } else if op == 0xE2 {
            self.wr((0xFF00 + lo(self.bc)) as u16, self.a())
        } else if op == 0xE8 {
            let (r, s) = self.sp_offset(n);
            CpuState { sp: r, ..s }.skip(1)
        } else if op == 0xE9 {
            self.with_pc(w16(self.hl - 1))
        } else if op == 0xEA {
            self.wr(nn, self.a()).skip(2)
        } else if op == 0xF0 {
            self.set_reg8(7, self.rd((0xFF00 + n) as u16)).skip(1)
        } else if op == 0xF2 {
            self.set_reg8(7, self.rd((0xFF00 + lo(self.bc)) as u16))
        } else if op == 0xF3 {
            CpuState { interrupts_enabled: false, ..self }
        } else if op == 0xF8 {
            let (r, s) = self.sp_offset(n);
            CpuState { hl: r, ..s }.skip(1)
        } else if op == 0xF9 {
            CpuState { sp: self.hl, ..self }
        } else if op == 0xFA {
            self.skip(2).set_reg8(7, self.rd(nn))
        } else {
            // 0xFB EI
            CpuState { mem: MemState { ime_delay: 2, ..self.mem }, ..self }
        }
    }

    #[verifier::opaque]
    pub open spec fn high_ok(self, op: u8, n: u8, nn: u16) -> bool {
        let k = (op / 8) % 4;
        let lo3 = op % 8;
        &&& !Self::invalid_op(op)
        &&& lo3 == 7 ==> self.push_writable(w16(self.pc + 1))
        &&& (op == 0xC0 || op == 0xC8 || op == 0xD0 || op == 0xD8) && self.cond(k) ==> self.pop_readable()
        &&& (op == 0xC4 || op == 0xCC || op == 0xD4 || op == 0xDC) && self.cond(k) ==> self.push_writable(
            w16(w16(self.pc + 2) + 1),
        )
        &&& (op == 0xC1 || op == 0xD1 || op == 0xE1 || op == 0xF1 || op == 0xC9 || op == 0xD9) ==> self.pop_readable()
        &&& (op == 0xC5 || op == 0xD5) ==> self.push_writable(self.pair((op / 16) % 4))
        &&& op == 0xE5 ==> self.push_writable(self.hl)
        &&& op == 0xF5 ==> self.push_writable(self.af)
        &&& op == 0xCD ==> self.push_writable(w16(w16(self.pc + 2) + 1))
        &&& op == 0xEA ==> self.mem.writable(nn, self.a())
        &&& op == 0xE0 ==> self.mem.writable((0xFF00 + n) as u16, self.a())
        &&& op == 0xE2 ==> self.mem.writable((0xFF00 + lo(self.bc)) as u16, self.a())
        &&& op == 0xFA ==> self.mem.readable(nn)
    }

    // ------------------------------------------------------------------
    // One whole instruction.

    /// The operand bytes after the opcode.
    pub open spec fn imm8(self) -> u8 {
        self.rd(w16(self.pc + 1))
    }

    pub open spec fn imm16(self) -> u16 {
        join(self.rd(w16(self.pc + 2)), self.imm8())
    }

    /// The effect of the instruction with code `op` and operands `n`, `nn`,
    /// before the program counter moves past it.
    pub open spec fn exec_op(self, op: u8, n: u8, nn: u16) -> CpuState {
        if op < 0x40 {
            self.exec_low(op, n, nn)
        } else if op < 0xC0 {
            self.exec_mid(op)
        } else if op == 0xCB {
            self.exec_cb(n)
        } else {
            self.exec_high(op, n, nn)
        }
    }

    pub open spec fn op_ok(self, op: u8, n: u8, nn: u16) -> bool {
        if op < 0x40 {
            self.low_ok(op, n, nn)
        } else if op < 0xC0 {
            self.mid_ok(op)
        } else if op == 0xCB {
            self.cb_ok(n)
        } else {
            self.high_ok(op, n, nn)
        }
    }

    /// Whether executing the next instruction is defined: its bytes can be
    /// fetched, it is an instruction, and every access it makes is defined.
    pub open spec fn can_step(self) -> bool {
        &&& self.mem.readable(self.pc)
        &&& self.mem.readable(w16(self.pc + 1))
        &&& self.mem.readable(w16(self.pc + 2))
        &&& self.op_ok(self.rd(self.pc), self.imm8(), self.imm16())
    }

    /// The machine after executing the instruction at `pc`.
    pub open spec fn step(self) -> CpuState {
        let op = self.rd(self.pc);
        let s = self.exec_op(op, self.imm8(), self.imm16());
        CpuState { pc: w16(s.pc + 1), last_op: op, ..s }
    }
}

/// A state reached from `old` by changing AF alone, whose accumulator is
/// `r` and whose flags are as given, is `old.alu(r, ..)`.
pub proof fn lemma_alu_result(
    old: CpuState,
    new: CpuState,
    r: u8,
    z: Option<bool>,
    n: Option<bool>,
    h: Option<bool>,
    c: Option<bool>,
)
    requires
        old.only_af(new),
        hi(new.af) == r,
        f_after(old.af, new.af, z, n, h, c),
    ensures
        new == old.alu(r, z, n, h, c),
{
    lemma_af_result(old.af, new.af, r, z, n, h, c);
}

} // verus!

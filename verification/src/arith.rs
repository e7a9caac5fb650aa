//! What the accumulator arithmetic, logic, rotate, shift and bit
//! instructions compute, stated as arithmetic on their operands.
use vstd::prelude::*;
use crate::bits::{lo, w8, w16, opt_or, lemma_make_af};
use crate::state::{CpuState, sext8};

verus! {

/// An ALU result reads back as the accumulator and flags it was built from.
broadcast proof fn lemma_alu_reads(
    s: CpuState,
    r: u8,
    z: Option<bool>,
    n: Option<bool>,
    h: Option<bool>,
    c: Option<bool>,
)
    ensures
        (#[trigger] s.alu(r, z, n, h, c)).a() == r,
        s.alu(r, z, n, h, c).zf() == opt_or(z, s.zf()),
        s.alu(r, z, n, h, c).nf() == opt_or(n, s.nf()),
        s.alu(r, z, n, h, c).hf() == opt_or(h, s.hf()),
        s.alu(r, z, n, h, c).cf() == opt_or(c, s.cf()),
{
    lemma_make_af(r, opt_or(z, s.zf()), opt_or(n, s.nf()), opt_or(h, s.hf()), opt_or(c, s.cf()), lo(s.af));
}

proof fn lemma_add_bits(a: u8, b: u8)
    by (bit_vector)
    ensures
        ((w8(a + b) & 0xF) < (a & 0xF)) == ((a & 0xF) + (b & 0xF) >= 16),
        (w8(a + b) < a) == (a + b >= 256),
        (a & 0xF) == a % 16,
        (b & 0xF) == b % 16,
{
}

proof fn lemma_sub_bits(a: u8, b: u8)
    by (bit_vector)
    ensures
        ((a & 0xF) < (w8(a - b) & 0xF)) == ((a & 0xF) < (b & 0xF)),
        (w8(a - b) > a) == (a < b),
        (a & 0xF) == a % 16,
        (b & 0xF) == b % 16,
{
}

/// Addition: `ADD` gives the sum modulo 256, carry when the sum reaches
/// 256, half carry when the low nibbles' sum reaches 16; `ADC` adds the
/// carry flag as well, and with the carry clear it is `ADD`.
pub proof fn lemma_add_adc(s: CpuState, b: u8)
    ensures
        ({
            let a = s.a() as int;
            let c: int = if s.cf() { 1 } else { 0 };
            let t = s.op_add(b);
            let u = s.op_adc(b);
            &&& t.a() == (a + b) % 256
            &&& t.cf() == (a + b >= 256)
            &&& t.hf() == (a % 16 + b % 16 >= 16)
            &&& t.zf() == ((a + b) % 256 == 0)
            &&& !t.nf()
            &&& u.a() == (a + b + c) % 256
            &&& u.cf() == (a + b + c >= 256)
            &&& u.hf() == (a % 16 + b % 16 + c >= 16)
            &&& u.zf() == ((a + b + c) % 256 == 0)
            &&& !u.nf()
            &&& !s.cf() ==> u == t
        }),
{
    broadcast use lemma_alu_reads;
    lemma_add_bits(s.a(), b);
    assert(w8(s.a() + b + 0) == w8(s.a() + b));
}

/// Subtraction: `SUB` gives the difference modulo 256, carry when it
/// borrows, half carry when the low nibble borrows; `SBC` subtracts the
/// carry flag as well; `CP` sets the flags of `SUB` but keeps the
/// accumulator.
pub proof fn lemma_sub_sbc_cp(s: CpuState, b: u8)
    ensures
        ({
            let a = s.a() as int;
            let c: int = if s.cf() { 1 } else { 0 };
            let t = s.op_sub(b);
            let u = s.op_sbc(b);
            let v = s.op_cp(b);
            &&& t.a() == (a - b + 256) % 256
            &&& t.cf() == (a < b)
            &&& t.hf() == (a % 16 < b % 16)
            &&& t.zf() == (a == b)
            &&& t.nf()
            &&& u.a() == (a - b - c + 512) % 256
            &&& u.cf() == (a < b + c)
            &&& u.hf() == (a % 16 < b % 16 + c)
            &&& u.zf() == ((a - b - c + 512) % 256 == 0)
            &&& u.nf()
            &&& v.a() == a
            &&& v.cf() == t.cf() && v.hf() == t.hf() && v.zf() == t.zf() && v.nf()
        }),
{
    broadcast use lemma_alu_reads;
    lemma_sub_bits(s.a(), b);
    crate::bits::lemma_nibble(s.a());
    crate::bits::lemma_nibble(b);
}

/// `AND`, `XOR` and `OR` combine the accumulator with the operand bit by
/// bit; zero tells whether the result is 0, carry and N are clear, and half
/// carry is set by `AND` alone.
pub proof fn lemma_logic(s: CpuState, b: u8)
    ensures
        forall|i: u8|
            i < 8 ==> {
                &&& ((s.op_and(b).a() >> i) & 1 == 1) == ((s.a() >> i) & 1 == 1 && (b >> i) & 1 == 1)
                &&& ((s.op_or(b).a() >> i) & 1 == 1) == ((s.a() >> i) & 1 == 1 || (b >> i) & 1 == 1)
                &&& ((s.op_xor(b).a() >> i) & 1 == 1) == ((s.a() >> i) & 1 != (b >> i) & 1)
            },
        s.op_and(b).zf() == (s.op_and(b).a() == 0) && s.op_and(b).hf() && !s.op_and(b).cf() && !s.op_and(b).nf(),
        s.op_or(b).zf() == (s.op_or(b).a() == 0) && !s.op_or(b).hf() && !s.op_or(b).cf() && !s.op_or(b).nf(),
        s.op_xor(b).zf() == (s.op_xor(b).a() == 0) && !s.op_xor(b).hf() && !s.op_xor(b).cf() && !s.op_xor(b).nf(),
        s.op_xor(s.a()).a() == 0,
{
    broadcast use lemma_alu_reads;
    assert forall|i: u8| i < 8 implies {
        &&& ((s.op_and(b).a() >> i) & 1 == 1) == ((s.a() >> i) & 1 == 1 && (b >> i) & 1 == 1)
        &&& ((s.op_or(b).a() >> i) & 1 == 1) == ((s.a() >> i) & 1 == 1 || (b >> i) & 1 == 1)
        &&& ((s.op_xor(b).a() >> i) & 1 == 1) == ((s.a() >> i) & 1 != (b >> i) & 1)
    } by {
        lemma_logic_bits(s.a(), b, i);
    }
    lemma_xor_self(s.a());
}

proof fn lemma_logic_bits(a: u8, b: u8, i: u8)
    by (bit_vector)
    requires
        i < 8,
    ensures
        (((a & b) >> i) & 1 == 1) == ((a >> i) & 1 == 1 && (b >> i) & 1 == 1),
        (((a | b) >> i) & 1 == 1) == ((a >> i) & 1 == 1 || (b >> i) & 1 == 1),
        (((a ^ b) >> i) & 1 == 1) == ((a >> i) & 1 != (b >> i) & 1),
{
}

proof fn lemma_xor_self(a: u8)
    by (bit_vector)
    ensures
        a ^ a == 0,
{
}

/// The ALU operation with index `k` (the bits 3..5 of its opcode) is, in
/// order, ADD, ADC, SUB, SBC, AND, XOR, OR, CP.
pub proof fn lemma_alu_index(s: CpuState, b: u8)
    ensures
        ({
            let a = s.a() as int;
            let c: int = if s.cf() { 1 } else { 0 };
            &&& s.alu_op(0, b).a() == (a + b) % 256 && !s.alu_op(0, b).nf()
            &&& s.alu_op(1, b).a() == (a + b + c) % 256 && !s.alu_op(1, b).nf()
            &&& s.alu_op(2, b).a() == (a - b + 256) % 256 && s.alu_op(2, b).nf()
            &&& s.alu_op(3, b).a() == (a - b - c + 512) % 256 && s.alu_op(3, b).nf()
            &&& s.alu_op(4, b).a() == s.a() & b && s.alu_op(4, b).hf()
            &&& s.alu_op(5, b).a() == s.a() ^ b && !s.alu_op(5, b).hf()
            &&& s.alu_op(6, b).a() == s.a() | b && !s.alu_op(6, b).hf()
            &&& s.alu_op(7, b).a() == a && s.alu_op(7, b).zf() == (a == b) && s.alu_op(7, b).nf()
        }),
{
    broadcast use lemma_alu_reads;
    lemma_add_adc(s, b);
    lemma_sub_sbc_cp(s, b);
}

/// The value 2^b of bit `b` of a byte.
pub open spec fn bit_value(b: u8) -> u8 {
    if b == 0 {
        1
    } else if b == 1 {
        2
    } else if b == 2 {
        4
    } else if b == 3 {
        8
    } else if b == 4 {
        16
    } else if b == 5 {
        32
    } else if b == 6 {
        64
    } else {
        128
    }
}

proof fn lemma_shift_bits(x: u8, c: u8)
    by (bit_vector)
    requires
        c <= 1,
    ensures
        ((x << 1u8) | (x >> 7u8)) == ((2 * x + x / 128) % 256) as u8,
        ((x >> 1u8) | (x << 7u8)) == (x / 2 + (x % 2) * 128) as u8,
        ((x << 1u8) | c) == ((2 * x + c) % 256) as u8,
        ((x >> 1u8) | (c << 7u8)) == (x / 2 + c * 128) as u8,
        (x << 1u8) == ((2 * x) % 256) as u8,
        ((x << 4u8) | (x >> 4u8)) == ((x % 16) * 16 + x / 16) as u8,
        (x >> 1u8) == x / 2,
        (x >> 7u8 == 1) == (x >= 128),
        (x & 1 == 1) == (x % 2 == 1),
        (((x << 1u8) | (x >> 7u8)) & 1 == 1) == (x >= 128),
        (((x >> 1u8) | (x << 7u8)) >> 7u8 == 1) == (x % 2 == 1),
{
}

proof fn lemma_sra_bits(x: u8)
    by (bit_vector)
    ensures
        ((x & 0x80) | (x >> 1u8)) >= 128 <==> x >= 128,
        x < 128 ==> x == (2 * ((x & 0x80) | (x >> 1u8)) + x % 2) as u8,
        x >= 128 ==> x == (2 * ((x & 0x80) | (x >> 1u8)) + x % 2 - 256) as u8,
{
}

proof fn lemma_bit_ops(x: u8, b: u8)
    by (bit_vector)
    requires
        b < 8,
    ensures
        (1u8 << b) == bit_value(b),
        ((x >> b) & 1 != 1) == ((x / bit_value(b)) % 2 == 0),
        (x & (0xFF ^ (1u8 << b))) == (x - ((x / bit_value(b)) % 2) * bit_value(b)) as u8,
        (x | (1u8 << b)) == (x + (1 - (x / bit_value(b)) % 2) * bit_value(b)) as u8,
        0 <= x - ((x / bit_value(b)) % 2) * bit_value(b) <= 255,
        0 <= x + (1 - (x / bit_value(b)) % 2) * bit_value(b) <= 255,
{
}

/// The CB-prefixed operations on a byte `x`, with `b` the bit number
/// (bits 3..5 of the second opcode byte) and `c` the carry flag:
/// rotates through or around the carry, shifts (SRA halves the signed
/// value, rounding down; SRL the unsigned one), nibble swap, and the bit
/// test, reset and set of bit `b`.
pub proof fn lemma_cb_ops(s: CpuState, n: u8, x: u8)
    ensures
        ({
            let r = s.cb_value(n, x) as int;
            let xi = x as int;
            let c: int = if s.cf() { 1 } else { 0 };
            let t = s.cb_flags(n, x);
            let w = bit_value((n / 8) % 8) as int;
            &&& n < 0x08 ==> r == (2 * xi + xi / 128) % 256 && t.cf() == (xi >= 128)
            &&& 0x08 <= n < 0x10 ==> r == xi / 2 + (xi % 2) * 128 && t.cf() == (xi % 2 == 1)
            &&& 0x10 <= n < 0x18 ==> r == (2 * xi + c) % 256 && t.cf() == (xi >= 128)
            &&& 0x18 <= n < 0x20 ==> r == xi / 2 + c * 128 && t.cf() == (xi % 2 == 1)
            &&& 0x20 <= n < 0x28 ==> r == (2 * xi) % 256 && t.cf() == (xi >= 128)
            &&& 0x28 <= n < 0x30 ==> sext8(x) == 2 * sext8(r as u8) + xi % 2 && (r >= 128) == (xi >= 128)
                && t.cf() == (xi % 2 == 1)
            &&& 0x30 <= n < 0x38 ==> r == (xi % 16) * 16 + xi / 16 && !t.cf()
            &&& 0x38 <= n < 0x40 ==> r == xi / 2 && t.cf() == (xi % 2 == 1)
            &&& n < 0x40 ==> t.zf() == (r == 0) && !t.nf() && !t.hf() && t.a() == s.a()
            &&& 0x40 <= n < 0x80 ==> r == xi && t.zf() == ((xi / w) % 2 == 0) && !t.nf() && t.hf() && t.cf()
                == s.cf() && t.a() == s.a()
            &&& 0x80 <= n < 0xC0 ==> r == xi - ((xi / w) % 2) * w && t == s
            &&& 0xC0 <= n ==> r == xi + (1 - (xi / w) % 2) * w && t == s
        }),
{
    broadcast use lemma_alu_reads;
    let c: u8 = if s.cf() { 1 } else { 0 };
    lemma_shift_bits(x, c);
    lemma_sra_bits(x);
    lemma_bit_ops(x, (n / 8) % 8);
    assert(crate::state::bool_bit(s.cf()) == c);
}

/// The ALU instructions 0x80..0xBF: bits 3..5 of the opcode choose the
/// operation (see `lemma_alu_index`) and bits 0..2 the operand (B, C, D,
/// E, H, L, (HL), A); only A and F change, and PC moves to the next byte.
pub proof fn lemma_alu_instruction(s: CpuState)
    requires
        0x80 <= s.rd(s.pc) < 0xC0,
    ensures
        ({
            let op = s.rd(s.pc);
            let t = s.step();
            &&& t.af == s.alu_op((op / 8) % 8, s.reg8(op % 8)).af
            &&& t.bc == s.bc && t.de == s.de && t.hl == s.hl && t.sp == s.sp && t.mem == s.mem
            &&& t.pc == w16(s.pc + 1)
        }),
{
    reveal(CpuState::exec_mid);
    lemma_alu_keeps_others(s, ((s.rd(s.pc) / 8) % 8) as u8, s.reg8(s.rd(s.pc) % 8));
}

proof fn lemma_alu_keeps_others(s: CpuState, k: u8, b: u8)
    ensures
        s.alu_op(k, b).bc == s.bc,
        s.alu_op(k, b).de == s.de,
        s.alu_op(k, b).hl == s.hl,
        s.alu_op(k, b).sp == s.sp,
        s.alu_op(k, b).pc == s.pc,
        s.alu_op(k, b).mem == s.mem,
{
}

/// The loads 0x40..0x7F but HALT (0x76): bits 3..5 name the destination
/// and bits 0..2 the source among B, C, D, E, H, L, (HL), A; the
/// destination, when a register, then holds the source's value, and PC
/// moves to the next byte.
pub proof fn lemma_load_instruction(s: CpuState)
    requires
        0x40 <= s.rd(s.pc) < 0x80,
        s.rd(s.pc) != 0x76,
        (s.rd(s.pc) / 8) % 8 != 6,
    ensures
        ({
            let op = s.rd(s.pc);
            let t = s.step();
            &&& t.reg8((op / 8) % 8) == s.reg8(op % 8)
            &&& t.sp == s.sp && t.mem == s.mem
            &&& t.pc == w16(s.pc + 1)
        }),
{
    reveal(CpuState::exec_mid);
    let op = s.rd(s.pc);
    crate::bits::lemma_bytes(s.bc, s.reg8(op % 8));
    crate::bits::lemma_bytes(s.de, s.reg8(op % 8));
    crate::bits::lemma_bytes(s.hl, s.reg8(op % 8));
    crate::bits::lemma_bytes(s.af, s.reg8(op % 8));
}

/// `INC r` and `DEC r` (opcodes with bits 0..2 equal to 4 or 5, below
/// 0x40, on a register operand): the operand goes up or down by one modulo
/// 256; zero tells whether it became 0, half carry whether the low nibble
/// wrapped, N whether it was a decrement, and carry is kept.
pub proof fn lemma_inc_dec_instruction(s: CpuState)
    requires
        s.rd(s.pc) < 0x40,
        s.rd(s.pc) % 8 == 4 || s.rd(s.pc) % 8 == 5,
        s.rd(s.pc) / 8 != 6,
    ensures
        ({
            let op = s.rd(s.pc);
            let i = op / 8;
            let x = s.reg8(i) as int;
            let t = s.step();
            &&& op % 8 == 4 ==> t.reg8(i) == (x + 1) % 256 && t.hf() == (x % 16 == 15) && !t.nf()
            &&& op % 8 == 5 ==> t.reg8(i) == (x + 255) % 256 && t.hf() == (x % 16 == 0) && t.nf()
            &&& t.zf() == (t.reg8(i) == 0)
            &&& t.cf() == s.cf()
            &&& t.pc == w16(s.pc + 1)
        }),
{
    broadcast use lemma_alu_reads;
    reveal(CpuState::exec_low);
    let op = s.rd(s.pc);
    let i = op / 8;
    let x = s.reg8(i);
    lemma_inc_bits(x);
    let r1 = w8(x + 1);
    let r2 = w8(x - 1);
    crate::bits::lemma_bytes(s.bc, r1);
    crate::bits::lemma_bytes(s.de, r1);
    crate::bits::lemma_bytes(s.hl, r1);
    crate::bits::lemma_bytes(s.af, r1);
    crate::bits::lemma_bytes(s.bc, r2);
    crate::bits::lemma_bytes(s.de, r2);
    crate::bits::lemma_bytes(s.hl, r2);
    crate::bits::lemma_bytes(s.af, r2);
    crate::bits::lemma_make_af(r1, r1 == 0, false, r1 & 0xF == 0, s.cf(), lo(s.af));
    crate::bits::lemma_make_af(r2, r2 == 0, true, r2 & 0xF == 0xF, s.cf(), lo(s.af));
}

proof fn lemma_inc_bits(x: u8)
    by (bit_vector)
    ensures
        (w8(x + 1) & 0xF == 0) == (x % 16 == 15),
        (w8(x - 1) & 0xF == 0xF) == (x % 16 == 0),
        w8(x - 1) == ((x + 255) % 256) as u8,
{
}

proof fn lemma_w16_round(x: u16)
    ensures
        w16(w16(x - 1) + 1) == x,
{
}

/// The jumps: `JP nn` (0xC3) goes to `nn`; `JR e` (0x18) goes to the
/// address after it plus `e` read as a signed byte; the conditional forms
/// (0xC2, 0xCA, 0xD2, 0xDA and 0x20, 0x28, 0x30, 0x38) jump exactly when
/// their condition holds (NZ, Z, NC, C, from bits 3..4 of the opcode) and
/// otherwise move past their operands. SP and memory are kept.
pub proof fn lemma_jump_instructions(s: CpuState)
    ensures
        ({
            let op = s.rd(s.pc);
            let nn = s.imm16();
            let e = s.imm8() as int;
            let rel = w16(s.pc + 2 + (if e < 128 { e } else { e - 256 }));
            let k = (op / 8) % 4;
            let taken = if k == 0 { !s.zf() } else if k == 1 { s.zf() } else if k == 2 { !s.cf() } else { s.cf() };
            let t = s.step();
            &&& op == 0xC3 ==> t.pc == nn
            &&& op == 0x18 ==> t.pc == rel
            &&& (op == 0xC2 || op == 0xCA || op == 0xD2 || op == 0xDA) ==> t.pc == if taken {
                nn
            } else {
                w16(s.pc + 3)
            }
            &&& (op == 0x20 || op == 0x28 || op == 0x30 || op == 0x38) ==> t.pc == if taken {
                rel
            } else {
                w16(s.pc + 2)
            }
            &&& (op == 0xC3 || op == 0x18 || op == 0xC2 || op == 0xCA || op == 0xD2 || op == 0xDA || op == 0x20
                || op == 0x28 || op == 0x30 || op == 0x38) ==> t.sp == s.sp && t.mem == s.mem && t.af == s.af
        }),
{
    reveal(CpuState::exec_low);
    reveal(CpuState::exec_high);
    reveal(CpuState::exec_flow);
    lemma_w16_round(s.imm16());
}

/// Calls, returns and restarts: `CALL nn` (0xCD) goes to `nn`, `RST`
/// (0xC7, 0xCF, ..., 0xFF) to `op - 0xC7`; both move SP down by two and,
/// when those two stack bytes are plain memory, leave the address of the
/// next instruction on top of the stack. `RET` (0xC9) goes to the address
/// on top of the stack and moves SP up by two.
pub proof fn lemma_call_return_instructions(s: CpuState)
    requires
        s.wf(),
    ensures
        ({
            let op = s.rd(s.pc);
            let t = s.step();
            let plain_stack = crate::laws::plain(w16(s.sp - 2)) && crate::laws::plain(w16(s.sp - 1));
            &&& op == 0xCD ==> t.pc == s.imm16() && t.sp == w16(s.sp - 2) && (plain_stack ==> t.top() == w16(
                s.pc + 3,
            ))
            &&& (op >= 0xC0 && op % 8 == 7) ==> t.pc == op - 0xC7 && t.sp == w16(s.sp - 2) && (plain_stack
                ==> t.top() == w16(s.pc + 1))
            &&& op == 0xC9 ==> t.pc == s.top() && t.sp == w16(s.sp + 2)
        }),
{
    reveal(CpuState::exec_high);
    reveal(CpuState::exec_flow);
    let op = s.rd(s.pc);
    lemma_w16_round(s.imm16());
    lemma_w16_round(s.top());
    if op == 0xCD {
        let s2 = s.skip(2);
        crate::laws::lemma_push_pop_if_plain(s2, w16(s2.pc + 1));
        assert(w16(w16(s.pc + 2) + 1) == w16(s.pc + 3));
    }
    if op >= 0xC0 && op % 8 == 7 {
        crate::laws::lemma_push_pop_if_plain(s, w16(s.pc + 1));
        lemma_w16_round((op - 0xC7) as u16);
    }
}

proof fn lemma_add16_bits(o: u16, v: u16)
    by (bit_vector)
    ensures
        ((w16(o + v) & 0xFFF) < (o & 0xFFF)) == (o % 4096 + v % 4096 >= 4096),
{
}

/// The 16-bit pair instructions below 0x40 (pair from bits 4..5: BC, DE,
/// HL, SP): `LD rr,nn` loads `nn`, `INC rr` and `DEC rr` add or subtract
/// one modulo 65536 without touching the flags, and `ADD HL,rr` adds the
/// pair to HL modulo 65536, with half carry when bits 0..11 overflow, N
/// clear, and zero and carry kept.
pub proof fn lemma_pair_instructions(s: CpuState)
    ensures
        ({
            let op = s.rd(s.pc);
            let p = op / 16;
            let t = s.step();
            &&& (op < 0x40 && op % 16 == 1) ==> t.pair(p) == s.imm16() && t.af == s.af
            &&& (op < 0x40 && op % 16 == 3) ==> t.pair(p) == (s.pair(p) + 1) % 65536 && t.af == s.af
            &&& (op < 0x40 && op % 16 == 0xB) ==> t.pair(p) == (s.pair(p) + 65535) % 65536 && t.af == s.af
            &&& (op < 0x40 && op % 16 == 9) ==> {
                &&& t.hl == (s.hl + s.pair(p)) % 65536
                &&& t.hf() == (s.hl % 4096 + s.pair(p) % 4096 >= 4096)
                &&& !t.nf() && t.zf() == s.zf() && t.cf() == s.cf() && t.a() == s.a()
            }
        }),
{
    let op = s.rd(s.pc);
    if op < 0x40 && op % 16 == 9 {
        lemma_add_hl(s);
    } else if op < 0x40 && (op % 16 == 1 || op % 16 == 3 || op % 16 == 0xB) {
        lemma_pair_load_step(s);
    }
}

proof fn lemma_pair_load_step(s: CpuState)
    requires
        s.rd(s.pc) < 0x40,
        s.rd(s.pc) % 16 == 1 || s.rd(s.pc) % 16 == 3 || s.rd(s.pc) % 16 == 0xB,
    ensures
        ({
            let op = s.rd(s.pc);
            let p = op / 16;
            let t = s.step();
            &&& op % 16 == 1 ==> t.pair(p) == s.imm16() && t.af == s.af
            &&& op % 16 == 3 ==> t.pair(p) == (s.pair(p) + 1) % 65536 && t.af == s.af
            &&& op % 16 == 0xB ==> t.pair(p) == (s.pair(p) + 65535) % 65536 && t.af == s.af
        }),
{
    reveal(CpuState::exec_low);
}

proof fn lemma_add_hl(s: CpuState)
    requires
        s.rd(s.pc) < 0x40,
        s.rd(s.pc) % 16 == 9,
    ensures
        ({
            let p = s.rd(s.pc) / 16;
            let t = s.step();
            &&& t.hl == (s.hl + s.pair(p)) % 65536
            &&& t.hf() == (s.hl % 4096 + s.pair(p) % 4096 >= 4096)
            &&& !t.nf() && t.zf() == s.zf() && t.cf() == s.cf() && t.a() == s.a()
        }),
{
    broadcast use lemma_alu_reads;
    reveal(CpuState::exec_low);
    let p = s.rd(s.pc) / 16;
    lemma_add16_bits(s.hl, s.pair(p));
}

/// `PUSH rr` (0xC5, 0xD5, 0xE5, 0xF5 for BC, DE, HL, AF) moves SP down by
/// two and, when those stack bytes are plain memory, leaves the pair on
/// top; `POP rr` (0xC1, 0xD1, 0xE1) loads the pair from the top of the
/// stack and `POP AF` (0xF1) loads AF with the four low bits of F clear;
/// each pop moves SP up by two.
pub proof fn lemma_stack_instructions(s: CpuState)
    requires
        s.wf(),
    ensures
        ({
            let op = s.rd(s.pc);
            let t = s.step();
            let plain_stack = crate::laws::plain(w16(s.sp - 2)) && crate::laws::plain(w16(s.sp - 1));
            let pushed: u16 = if op == 0xC5 { s.bc } else if op == 0xD5 { s.de } else if op == 0xE5 { s.hl } else { s.af };
            &&& (op == 0xC5 || op == 0xD5 || op == 0xE5 || op == 0xF5) ==> t.sp == w16(s.sp - 2) && (plain_stack
                ==> t.top() == pushed)
            &&& op == 0xC1 ==> t.bc == s.top() && t.sp == w16(s.sp + 2)
            &&& op == 0xD1 ==> t.de == s.top() && t.sp == w16(s.sp + 2)
            &&& op == 0xE1 ==> t.hl == s.top() && t.sp == w16(s.sp + 2)
            &&& op == 0xF1 ==> t.af == s.top() - s.top() % 16 && t.sp == w16(s.sp + 2)
        }),
{
    reveal(CpuState::exec_high);
    reveal(CpuState::exec_flow);
    reveal(CpuState::exec_misc);
    let op = s.rd(s.pc);
    let pushed: u16 = if op == 0xC5 { s.bc } else if op == 0xD5 { s.de } else if op == 0xE5 { s.hl } else { s.af };
    crate::laws::lemma_push_pop_if_plain(s, pushed);
    lemma_mask_low(s.top());
}

proof fn lemma_mask_low(x: u16)
    by (bit_vector)
    ensures
        x & 0xFFF0 == x - x % 16,
{
}

/// The one-byte accumulator and flag instructions: `RLCA`, `RRCA`, `RLA`,
/// `RRA` rotate A as the CB rotates do but always clear zero; `CPL`
/// complements A and sets N and H; `SCF` sets carry and `CCF` flips it,
/// both clearing N and H.
pub proof fn lemma_accumulator_instructions(s: CpuState)
    requires
        s.rd(s.pc) == 0x07 || s.rd(s.pc) == 0x0F || s.rd(s.pc) == 0x17 || s.rd(s.pc) == 0x1F || s.rd(s.pc)
            == 0x2F || s.rd(s.pc) == 0x37 || s.rd(s.pc) == 0x3F,
    ensures
        ({
            let op = s.rd(s.pc);
            let a = s.a() as int;
            let c: int = if s.cf() { 1 } else { 0 };
            let t = s.step();
            &&& op == 0x07 ==> t.a() == (2 * a + a / 128) % 256 && t.cf() == (a >= 128)
            &&& op == 0x0F ==> t.a() == a / 2 + (a % 2) * 128 && t.cf() == (a % 2 == 1)
            &&& op == 0x17 ==> t.a() == (2 * a + c) % 256 && t.cf() == (a >= 128)
            &&& op == 0x1F ==> t.a() == a / 2 + c * 128 && t.cf() == (a % 2 == 1)
            &&& (op == 0x07 || op == 0x0F || op == 0x17 || op == 0x1F) ==> !t.zf() && !t.nf() && !t.hf()
            &&& op == 0x2F ==> t.a() == 255 - a && t.nf() && t.hf() && t.zf() == s.zf() && t.cf() == s.cf()
            &&& op == 0x37 ==> t.cf() && !t.nf() && !t.hf() && t.zf() == s.zf() && t.a() == a
            &&& op == 0x3F ==> t.cf() == !s.cf() && !t.nf() && !t.hf() && t.zf() == s.zf() && t.a() == a
            &&& t.pc == w16(s.pc + 1)
        }),
{
    broadcast use lemma_alu_reads;
    reveal(CpuState::exec_low);
    let c: u8 = if s.cf() { 1 } else { 0 };
    lemma_shift_bits(s.a(), c);
    lemma_complement(s.a());
    assert(crate::state::bool_bit(s.cf()) == c);
}

proof fn lemma_complement(a: u8)
    by (bit_vector)
    ensures
        (a ^ 0xFF) == (255 - a) as u8,
{
}

/// `HALT` (0x76) stops the CPU with PC left on it; `DI` (0xF3) disables
/// interrupts at once; `EI` (0xFB) arms the two-round enable delay.
pub proof fn lemma_control_instructions(s: CpuState)
    ensures
        ({
            let op = s.rd(s.pc);
            let t = s.step();
            &&& op == 0x76 ==> t.halted && t.pc == s.pc
            &&& op == 0xF3 ==> !t.interrupts_enabled && t.pc == w16(s.pc + 1)
            &&& op == 0xFB ==> t.mem.ime_delay == 2 && t.interrupts_enabled == s.interrupts_enabled && t.pc == w16(
                s.pc + 1,
            )
        }),
{
    reveal(CpuState::exec_mid);
    reveal(CpuState::exec_high);
    reveal(CpuState::exec_misc);
}

/// Loads between A and memory: `LD (HL+),A` and `LD (HL-),A` (0x22, 0x32)
/// store A at HL and then move HL up or down by one; `LD A,(HL+)` and
/// `LD A,(HL-)` (0x2A, 0x3A) load A from HL and move HL the same way;
/// `LD A,(BC)`, `LD A,(DE)` (0x0A, 0x1A) load A from BC, DE; `LDH A,(n)`
/// (0xF0) loads from 0xFF00 + n and `LDH (n),A` (0xE0) stores there; when
/// the stored-to address is plain memory, it reads back as A.
pub proof fn lemma_memory_loads(s: CpuState)
    requires
        s.wf(),
    ensures
        ({
            let op = s.rd(s.pc);
            let t = s.step();
            let io = (0xFF00 + s.imm8()) as u16;
            &&& (op == 0x22 || op == 0x32) ==> t.hl == (if op == 0x22 { w16(s.hl + 1) } else { w16(s.hl - 1) })
                && (crate::laws::plain(s.hl) ==> t.rd(s.hl) == s.a())
            &&& (op == 0x2A || op == 0x3A) ==> t.hl == (if op == 0x2A { w16(s.hl + 1) } else { w16(s.hl - 1) })
                && t.a() == s.rd(s.hl)
            &&& op == 0x0A ==> t.a() == s.rd(s.bc)
            &&& op == 0x1A ==> t.a() == s.rd(s.de)
            &&& op == 0xF0 ==> t.a() == s.rd(io) && t.pc == w16(s.pc + 2)
            &&& op == 0xE0 ==> (crate::laws::plain(io) ==> t.rd(io) == s.a()) && t.pc == w16(s.pc + 2)
        }),
{
    let op = s.rd(s.pc);
    if op == 0x22 || op == 0x32 || op == 0x2A || op == 0x3A || op == 0x0A || op == 0x1A {
        lemma_low_loads(s);
    } else if op == 0xF0 || op == 0xE0 {
        lemma_io_loads(s);
    }
}

proof fn lemma_low_loads(s: CpuState)
    requires
        s.wf(),
        s.rd(s.pc) == 0x22 || s.rd(s.pc) == 0x32 || s.rd(s.pc) == 0x2A || s.rd(s.pc) == 0x3A || s.rd(s.pc)
            == 0x0A || s.rd(s.pc) == 0x1A,
    ensures
        ({
            let op = s.rd(s.pc);
            let t = s.step();
            &&& (op == 0x22 || op == 0x32) ==> t.hl == (if op == 0x22 { w16(s.hl + 1) } else { w16(s.hl - 1) })
                && (crate::laws::plain(s.hl) ==> t.rd(s.hl) == s.a())
            &&& (op == 0x2A || op == 0x3A) ==> t.hl == (if op == 0x2A { w16(s.hl + 1) } else { w16(s.hl - 1) })
                && t.a() == s.rd(s.hl)
            &&& op == 0x0A ==> t.a() == s.rd(s.bc)
            &&& op == 0x1A ==> t.a() == s.rd(s.de)
        }),
{
    reveal(CpuState::exec_low);
    if crate::laws::plain(s.hl) {
        crate::laws::lemma_read_after_write(s.mem, s.hl, s.a(), s.hl);
    }
    crate::bits::lemma_bytes(s.af, s.rd(s.hl));
    crate::bits::lemma_bytes(s.af, s.rd(s.bc));
    crate::bits::lemma_bytes(s.af, s.rd(s.de));
}

proof fn lemma_io_loads(s: CpuState)
    requires
        s.wf(),
        s.rd(s.pc) == 0xF0 || s.rd(s.pc) == 0xE0,
    ensures
        ({
            let op = s.rd(s.pc);
            let t = s.step();
            let io = (0xFF00 + s.imm8()) as u16;
            &&& op == 0xF0 ==> t.a() == s.rd(io) && t.pc == w16(s.pc + 2)
            &&& op == 0xE0 ==> (crate::laws::plain(io) ==> t.rd(io) == s.a()) && t.pc == w16(s.pc + 2)
        }),
{
    reveal(CpuState::exec_high);
    reveal(CpuState::exec_misc);
    let io = (0xFF00 + s.imm8()) as u16;
    if crate::laws::plain(io) {
        crate::laws::lemma_read_after_write(s.mem, io, s.a(), io);
    }
    crate::bits::lemma_bytes(s.af, s.rd(io));
}

proof fn lemma_sp_offset_bits(sp: u16, n: u8)
    by (bit_vector)
    ensures
        ({
            let r = if n < 128 { w16(sp + n) } else { w16(sp + n - 256) };
            let x = sp ^ (if n < 128 { n as u16 } else { (n as u16) | 0xFF00 }) ^ r;
            &&& (x & 0x10 == 0x10) == (sp % 16 + n % 16 >= 16)
            &&& (x & 0x100 == 0x100) == (sp % 256 + n >= 256)
        }),
{
}

/// `ADD SP,e` (0xE8) and `LD HL,SP+e` (0xF8): SP plus `e` read as a signed
/// byte, modulo 65536, goes to SP or HL; half carry and carry are those of
/// adding `e` as an unsigned byte to the low byte of SP (out of bit 3 and
/// bit 7), and zero and N are clear.
pub proof fn lemma_sp_offset_instructions(s: CpuState)
    requires
        s.rd(s.pc) == 0xE8 || s.rd(s.pc) == 0xF8,
    ensures
        ({
            let op = s.rd(s.pc);
            let e = s.imm8() as int;
            let r = (s.sp + (if e < 128 { e } else { e - 256 }) + 65536) % 65536;
            let t = s.step();
            &&& op == 0xE8 ==> t.sp == r && t.hl == s.hl
            &&& op == 0xF8 ==> t.hl == r && t.sp == s.sp
            &&& t.hf() == (s.sp % 16 + e % 16 >= 16)
            &&& t.cf() == (s.sp % 256 + e >= 256)
            &&& !t.zf() && !t.nf() && t.a() == s.a()
            &&& t.pc == w16(s.pc + 2)
        }),
{
    broadcast use lemma_alu_reads;
    reveal(CpuState::exec_high);
    reveal(CpuState::exec_misc);
    lemma_sp_offset_bits(s.sp, s.imm8());
}

} // verus!

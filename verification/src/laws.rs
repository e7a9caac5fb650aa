//! Properties that hold across operations of the machine.
use vstd::prelude::*;
use crate::bits::{hi, lo, join, w16, w8, with_hi, opt_or, lemma_bytes};
use crate::mem::MemState;
use crate::state::{CpuState, rlc8, rrc8, bool_bit};
use crate::timing::{first_pending, bit, inc8};
use crate::input::{Key, Event, after_event};
use crate::arith::bit_value;
use crate::video::{bg_blit, sprite_blits_of, sheet_pixel, shade};
use crate::mem::key_bit;

verus! {

/// An address that behaves as plain memory: not ROM or a bank register
/// (below 0x7FFF), not the joypad (0xFF00), not the serial control (0xFF02).
pub open spec fn plain(a: u16) -> bool {
    a >= 0x7FFF && a != 0xFF00 && a != 0xFF02
}

/// Reading an address gives back what was last written to it when that
/// address is plain memory; a write leaves every other address, the
/// bank state and readability unchanged, and, unless it sets the serial
/// data byte (0xFF01), which writes are defined.
pub proof fn lemma_read_after_write(m: MemState, a: u16, v: u8, b: u16)
    requires
        m.wf(),
        plain(a),
    ensures
        m.write(a, v).wf(),
        m.write(a, v).read(b) == (if b == a { v } else { m.read(b) }),
        m.write(a, v).readable(b) == m.readable(b),
        a != 0xFF01 ==> forall|w: u8| #[trigger] m.write(a, v).writable(b, w) == m.writable(b, w),
        m.write(a, v).rom == m.rom,
{
    reveal(MemState::write);
    reveal(MemState::read);
}

/// Writes to the ROM area only set bank controller registers: the
/// 64 KiB memory and the cartridge image stay as they were.
pub proof fn lemma_rom_write_keeps_memory(m: MemState, a: u16, v: u8)
    requires
        a < 0x7FFF,
    ensures
        m.write(a, v).ram == m.ram,
        m.write(a, v).rom == m.rom,
        m.write(a, v).mbc_type == m.mbc_type,
{
    reveal(MemState::write);
}

/// With controller 1 the selected ROM bank is never bank 0.
pub proof fn lemma_mbc1_bank_nonzero(m: MemState)
    requires
        m.mbc_type == 1,
    ensures
        m.rom_bank() != 0,
{
}

/// Selecting a ROM bank on controller 1 (ROM/RAM mode bit clear): after
/// `v` is written to 0x2000..0x3FFF the bank is `v & 0x1F`, or 1 for 0, and
/// a read of 0x4000..0x7FFE shows the byte of that bank at the same
/// offset, as far as the bank's offset fits the bus's 16-bit arithmetic.
pub proof fn lemma_mbc1_bank_switch(m: MemState, a: u16, v: u8, b: u16)
    requires
        m.mbc_type == 1,
        !m.mbc_romram,
        0x2000 <= a < 0x4000,
        0x4000 <= b < 0x7FFF,
    ensures
        ({
            let m2 = m.write(a, v);
            let bank: int = if v & 0x1F == 0 { 1 } else { (v & 0x1F) as int };
            &&& m2.rom_bank() == bank
            &&& m2.rom == m.rom
            &&& (bank * 0x4000 + (b - 0x4000) < 0x10000 && m2.readable(b)) ==> m2.read(b) == m.rom[bank
                * 0x4000 + (b - 0x4000)]
        }),
{
    reveal(MemState::write);
    reveal(MemState::read);
    let m2 = m.write(a, v);
    assert(m2.mbc_rom_low == v & 0x1F);
    assert(v & 0x1F <= 0x1F) by (bit_vector);
    let bank: int = m2.rom_bank() as int;
    assert(1 <= bank <= 0x1F);
    assert(w16(bank - 1) == bank - 1);
    if bank * 0x4000 + (b - 0x4000) < 0x10000 {
        assert(0x4000 * (bank - 1) < 0x10000);
        assert(w16(0x4000 * (bank - 1)) == 0x4000 * (bank - 1));
        assert(m2.banked_index(b) == bank * 0x4000 + (b - 0x4000));
    }
}

/// The two top bits of the joypad register always read as 1.
pub proof fn lemma_joypad_top_bits(m: MemState)
    ensures
        m.read(0xFF00) & 0xC0 == 0xC0,
{
    reveal(MemState::read);
    lemma_or_c0(m.joypad_low());
}

proof fn lemma_or_c0(x: u8)
    by (bit_vector)
    ensures
        (x | 0xC0) & 0xC0 == 0xC0,
{
}

/// Popping what was just pushed gives the value back and restores SP,
/// when the two stack bytes are plain memory.
pub proof fn lemma_push_pop(s: CpuState, v: u16)
    requires
        s.wf(),
        plain(w16(s.sp - 2)),
        plain(w16(s.sp - 1)),
    ensures
        s.push(v).wf(),
        s.push(v).pop_readable(),
        s.push(v).top() == v,
        s.push(v).drop2().sp == s.sp,
{
    let sp = w16(s.sp - 2);
    let sp1 = w16(sp + 1);
    assert(sp1 == w16(s.sp - 1));
    let m1 = s.mem.write(sp, lo(v));
    lemma_read_after_write(s.mem, sp, lo(v), sp);
    lemma_read_after_write(s.mem, sp, lo(v), sp1);
    lemma_read_after_write(m1, sp1, hi(v), sp);
    lemma_read_after_write(m1, sp1, hi(v), sp1);
    lemma_bytes(v, 0);
}

/// `lemma_push_pop`, stated for every state: when the two stack bytes are
/// plain memory, the top after a push is the pushed value.
pub(crate) proof fn lemma_push_pop_if_plain(s: CpuState, v: u16)
    requires
        s.wf(),
    ensures
        (plain(w16(s.sp - 2)) && plain(w16(s.sp - 1))) ==> s.push(v).top() == v,
{
    if plain(w16(s.sp - 2)) && plain(w16(s.sp - 1)) {
        lemma_push_pop(s, v);
    }
}

/// Rotating left and then right (or right, then left) gives the byte back.
pub proof fn lemma_rotate_inverse(x: u8)
    by (bit_vector)
    ensures
        rrc8(rlc8(x)) == x,
        rlc8(rrc8(x)) == x,
{
}

/// Swapping the nibbles twice gives the byte back.
pub proof fn lemma_swap_twice(s: CpuState, x: u8)
    ensures
        s.cb_value(0x37, s.cb_value(0x37, x)) == x,
{
    lemma_swap_bits(x);
}

proof fn lemma_swap_bits(x: u8)
    by (bit_vector)
    ensures
        (((x << 4u8) | (x >> 4u8)) << 4u8) | (((x << 4u8) | (x >> 4u8)) >> 4u8) == x,
{
}

/// After `RES b` the bit tests clear (the zero flag set by `BIT b`); after
/// `SET b` it tests set.
pub proof fn lemma_res_set_bit(s: CpuState, b: u8, x: u8)
    requires
        b < 8,
    ensures
        s.cb_flags((0x40 + 8 * b) as u8, s.cb_value((0x81 + 8 * b) as u8, x)).zf(),
        !s.cb_flags((0x40 + 8 * b) as u8, s.cb_value((0xC0 + 8 * b) as u8, x)).zf(),
{
    crate::bits::lemma_make_af(s.a(), true, false, true, s.cf(), lo(s.af));
    crate::bits::lemma_make_af(s.a(), false, false, true, s.cf(), lo(s.af));
    lemma_res_set_bits(x, b);
}

proof fn lemma_res_set_bits(x: u8, b: u8)
    by (bit_vector)
    requires
        b < 8,
    ensures
        ((x & (0xFF ^ (1u8 << b))) >> b) & 1 != 1,
        ((x | (1u8 << b)) >> b) & 1 == 1,
{
}

/// `EI` takes effect after two rounds of interrupt handling: the first
/// leaves interrupts as they were, the second enables them.
pub proof fn lemma_ei_delay(s: CpuState)
    requires
        s.mem.ime_delay == 2,
    ensures
        s.ime_step().interrupts_enabled == s.interrupts_enabled,
        s.ime_step().ime_step().interrupts_enabled,
        s.ime_step().ime_step().mem.ime_delay == 0,
{
}

/// A served interrupt jumps to its vector 0x40 + 8n and moves SP down by
/// two; when the two stack bytes are plain memory other than the request
/// register (IF), its request bit reads clear afterwards and the top of the
/// stack holds the interrupted address.
pub proof fn lemma_interrupt_vector(s: CpuState)
    requires
        s.wf(),
        s.interrupts_enabled,
        !s.halted,
        first_pending(s.pending()) is Some,
    ensures
        ({
            let n = first_pending(s.pending())->0;
            &&& s.dispatch().pc == 0x40 + 8 * n
            &&& s.dispatch().sp == w16(s.sp - 2)
            &&& (plain(w16(s.sp - 2)) && plain(w16(s.sp - 1)) && w16(s.sp - 2) != 0xFF0F && w16(s.sp - 1)
                != 0xFF0F) ==> {
                &&& !bit(s.dispatch().mem.read(0xFF0F), n)
                &&& s.dispatch().top() == s.pc
            }
        }),
{
    let n = first_pending(s.pending())->0;
    let f = s.mem.read(0xFF0F);
    let ie = s.mem.read(0xFFFF);
    if plain(w16(s.sp - 2)) && plain(w16(s.sp - 1)) && w16(s.sp - 2) != 0xFF0F && w16(s.sp - 1) != 0xFF0F {
        let s1 = s.wr(0xFF0F, f ^ (1u8 << n));
        lemma_read_after_write(s.mem, 0xFF0F, f ^ (1u8 << n), 0xFF0F);
        assert(s1.wf());
        let sp = w16(s.sp - 2);
        let m1 = s1.mem.write(sp, lo(s.pc));
        lemma_read_after_write(s1.mem, sp, lo(s.pc), 0xFF0F);
        lemma_read_after_write(m1, w16(sp + 1), hi(s.pc), 0xFF0F);
        assert(w16(sp + 1) == w16(s.sp - 1));
        lemma_push_pop(s1, s.pc);
        assert(w16(s.pc + bool_bit(false)) == s.pc);
        lemma_clear_pending_bit(f, ie, n);
    }
}

proof fn lemma_clear_pending_bit(f: u8, ie: u8, n: u8)
    by (bit_vector)
    requires
        n < 4,
        ((f & ie) >> n) & 1 == 1,
    ensures
        ((f ^ (1u8 << n)) >> n) & 1 != 1,
{
}

/// The LCD goes through its modes in order: OAM read (2), VRAM read (3),
/// HBlank (0), then OAM read again or, at the end of the frame, VBlank (1),
/// which is followed by OAM read; a tick either stays or moves one step.
pub proof fn lemma_lcd_mode_order(s: CpuState)
    requires
        s.wf(),
    ensures
        ({
            let m = s.lcd_tick().screen_mode;
            ||| m == s.screen_mode
            ||| (s.screen_mode == 2 && m == 3)
            ||| (s.screen_mode == 3 && m == 0)
            ||| (s.screen_mode == 0 && (m == 1 || m == 2))
            ||| (s.screen_mode == 1 && m == 2)
        }),
        s.lcd_tick().screen_mode == 1 && s.screen_mode == 0 ==> s.lcd_tick().drawing,
{
    reveal(CpuState::hblank_tick);
    reveal(CpuState::vblank_tick);
}

/// Whether key `k` is one of the eight Game Boy keys.
pub open spec fn pad_key(k: Key) -> bool {
    k != Key::Escape && k != Key::Other
}

/// The key group that has `k`: the buttons (`true`: A, B, Select, Start)
/// or the direction pad.
pub open spec fn key_group(k: Key) -> bool {
    k == Key::Z || k == Key::X || k == Key::Backspace || k == Key::Return
}

/// The bit of the joypad register that shows key `k`.
pub open spec fn key_index(k: Key) -> u8 {
    if k == Key::Z || k == Key::Right {
        0
    } else if k == Key::X || k == Key::Left {
        1
    } else if k == Key::Backspace || k == Key::Up {
        2
    } else {
        3
    }
}

/// A key event shows in the joypad register: while the key's group is
/// selected, its bit reads 0 after the key went down and 1 after it went up.
pub proof fn lemma_key_reads_back(s: CpuState, k: Key, p: bool)
    requires
        pad_key(k),
        s.mem.buttons == key_group(k),
    ensures
        ((after_event(s, Event::Key(k, p)).mem.read(0xFF00) >> key_index(k)) & 1 == 0) == p,
{
    reveal(MemState::read);
    let m = after_event(s, Event::Key(k, p)).mem;
    if m.buttons {
        lemma_joypad_bits(key_bit(m.ka), key_bit(m.kb), key_bit(m.kselect), key_bit(m.kstart), 0x10);
    } else {
        lemma_joypad_bits(key_bit(m.kright), key_bit(m.kleft), key_bit(m.kup), key_bit(m.kdown), 0x20);
    }
}

proof fn lemma_joypad_bits(k0: u8, k1: u8, k2: u8, k3: u8, g: u8)
    by (bit_vector)
    requires
        k0 <= 1,
        k1 <= 1,
        k2 <= 1,
        k3 <= 1,
        g == 0x10 || g == 0x20,
    ensures
        (((k0 | (k1 << 1u8) | (k2 << 2u8) | (k3 << 3u8) | g) | 0xC0u8) >> 0u8) & 1 == k0,
        (((k0 | (k1 << 1u8) | (k2 << 2u8) | (k3 << 3u8) | g) | 0xC0u8) >> 1u8) & 1 == k1,
        (((k0 | (k1 << 1u8) | (k2 << 2u8) | (k3 << 3u8) | g) | 0xC0u8) >> 2u8) & 1 == k2,
        (((k0 | (k1 << 1u8) | (k2 << 2u8) | (k3 << 3u8) | g) | 0xC0u8) >> 3u8) & 1 == k3,
{
}

/// Whether `a` and `b` hold the same cartridge image and controller type.
pub open spec fn same_cartridge(a: CpuState, b: CpuState) -> bool {
    a.mem.rom == b.mem.rom && a.mem.mbc_type == b.mem.mbc_type
}

broadcast proof fn lemma_write_keeps_cart(m: MemState, a: u16, v: u8)
    ensures
        (#[trigger] m.write(a, v)).rom == m.rom,
        m.write(a, v).mbc_type == m.mbc_type,
{
    reveal(MemState::write);
}

proof fn lemma_write_bytes_keeps_cart(m: MemState, a: u16, bs: Seq<u8>)
    ensures
        m.write_bytes(a, bs).rom == m.rom,
        m.write_bytes(a, bs).mbc_type == m.mbc_type,
    decreases bs.len(),
{
    broadcast use lemma_write_keeps_cart;
    if bs.len() > 0 {
        lemma_write_bytes_keeps_cart(m, a, bs.drop_last());
    }
}

proof fn lemma_low_keeps_cart(s: CpuState, op: u8, n: u8, nn: u16)
    ensures
        same_cartridge(s.exec_low(op, n, nn), s),
{
    broadcast use lemma_write_keeps_cart;
    reveal(CpuState::exec_low);
    lemma_write_bytes_keeps_cart(s.mem, nn, seq![lo(s.sp), hi(s.sp)]);
}

proof fn lemma_high_keeps_cart(s: CpuState, op: u8, n: u8, nn: u16)
    ensures
        same_cartridge(s.exec_high(op, n, nn), s),
{
    broadcast use lemma_write_keeps_cart;
    reveal(CpuState::exec_high);
    reveal(CpuState::exec_flow);
    reveal(CpuState::exec_misc);
}

proof fn lemma_mid_keeps_cart(s: CpuState, op: u8)
    ensures
        same_cartridge(s.exec_mid(op), s),
{
    broadcast use lemma_write_keeps_cart;
    reveal(CpuState::exec_mid);
}

proof fn lemma_cb_keeps_cart(s: CpuState, n: u8)
    ensures
        same_cartridge(s.exec_cb(n), s),
{
    broadcast use lemma_write_keeps_cart;
    reveal(CpuState::exec_cb);
}

proof fn lemma_op_keeps_cart(s: CpuState, op: u8, n: u8, nn: u16)
    ensures
        same_cartridge(s.exec_op(op, n, nn), s),
{
    lemma_low_keeps_cart(s, op, n, nn);
    lemma_mid_keeps_cart(s, op);
    lemma_cb_keeps_cart(s, n);
    lemma_high_keeps_cart(s, op, n, nn);
}

proof fn lemma_lcd_keeps_cart(s: CpuState)
    ensures
        same_cartridge(s.lcd_tick(), s),
{
    reveal(CpuState::hblank_tick);
    reveal(CpuState::vblank_tick);
}

proof fn lemma_timer_keeps_cart(s: CpuState)
    ensures
        same_cartridge(s.timer_tick(), s),
{
    broadcast use lemma_write_keeps_cart;
}

proof fn lemma_clock_keeps_cart(s: CpuState)
    ensures
        same_cartridge(s.clock_step(), s),
{
    lemma_lcd_keeps_cart(s);
    lemma_timer_keeps_cart(s.lcd_tick());
}

proof fn lemma_interrupt_keeps_cart(s: CpuState)
    ensures
        same_cartridge(s.interrupt_step(), s),
{
    broadcast use lemma_write_keeps_cart;
}

/// The cartridge image and its controller type never change: not by an
/// instruction, a clock tick, interrupt handling or a host event.
pub proof fn lemma_cartridge_fixed(s: CpuState, e: Event)
    ensures
        same_cartridge(s.step(), s),
        same_cartridge(s.clock_step(), s),
        same_cartridge(s.interrupt_step(), s),
        same_cartridge(after_event(s, e), s),
{
    lemma_op_keeps_cart(s, s.rd(s.pc), s.imm8(), s.imm16());
    lemma_clock_keeps_cart(s);
    lemma_interrupt_keeps_cart(s);
}

// ----------------------------------------------------------------------
// Frame timing.

/// The machine after `n` LCD ticks of four cycles each.
#[verifier::opaque]
pub open spec fn lcd_ticks(s: CpuState, n: nat) -> CpuState
    decreases n,
{
    if n == 0 {
        s
    } else {
        lcd_ticks(s.lcd_tick(), (n - 1) as nat)
    }
}

/// Cycles the LCD stays in mode `m` per line: HBlank 204, VBlank 456,
/// OAM read 80, VRAM read 172.
pub open spec fn mode_cycles(m: u8) -> int {
    if m == 0 {
        204
    } else if m == 1 {
        456
    } else if m == 2 {
        80
    } else {
        172
    }
}

/// `s` at the start (clock 0) of line `ly` in LCD mode `mode`.
pub open spec fn line_start(s: CpuState, ly: u8, mode: u8) -> CpuState {
    CpuState { clock: 0, screen_mode: mode, mem: MemState { ram: s.mem.ram.update(0xFF44, ly), ..s.mem }, ..s }
}

proof fn lemma_ticks_add(s: CpuState, a: nat, b: nat)
    ensures
        lcd_ticks(s, a + b) == lcd_ticks(lcd_ticks(s, a), b),
    decreases a,
{
    reveal(lcd_ticks);
    if a > 0 {
        lemma_ticks_add(s.lcd_tick(), (a - 1) as nat, b);
        assert(lcd_ticks(s, a + b) == lcd_ticks(s.lcd_tick(), (a + b - 1) as nat));
    }
}

proof fn lemma_count(s: CpuState, k: nat)
    requires
        s.screen_mode <= 3,
        s.clock + 4 * k < mode_cycles(s.screen_mode),
    ensures
        lcd_ticks(s, k) == (CpuState { clock: (s.clock + 4 * k) as usize, ..s }),
    decreases k,
{
    reveal(lcd_ticks);
    if k > 0 {
        reveal(CpuState::hblank_tick);
        reveal(CpuState::vblank_tick);
        let s1 = CpuState { clock: (s.clock + 4) as usize, ..s };
        assert(s.lcd_tick() == s1);
        lemma_count(s1, (k - 1) as nat);
    }
}

/// A whole mode from clock 0: its last tick is the one that moves on.
proof fn lemma_phase(s: CpuState)
    requires
        s.screen_mode <= 3,
        s.clock == 0,
    ensures
        lcd_ticks(s, (mode_cycles(s.screen_mode) / 4) as nat) == (CpuState {
            clock: (mode_cycles(s.screen_mode) - 4) as usize,
            ..s
        }).lcd_tick(),
{
    let k = (mode_cycles(s.screen_mode) / 4 - 1) as nat;
    let last = CpuState { clock: (mode_cycles(s.screen_mode) - 4) as usize, ..s };
    lemma_count(s, k);
    lemma_ticks_add(s, k, 1);
    reveal(lcd_ticks);
    assert(lcd_ticks(last.lcd_tick(), 0) == last.lcd_tick());
    assert(lcd_ticks(last, 1) == last.lcd_tick());
}

proof fn lemma_mode_ends(s: CpuState)
    requires
        s.wf(),
        s.clock == 0,
        s.screen_mode == 2 || s.screen_mode == 3,
    ensures
        lcd_ticks(s, (mode_cycles(s.screen_mode) / 4) as nat) == (CpuState {
            screen_mode: if s.screen_mode == 2 { 3u8 } else { 0u8 },
            ..s
        }),
{
    lemma_phase(s);
}

proof fn lemma_hblank_end(s: CpuState, l: u8)
    requires
        s.wf(),
        l <= 142,
    ensures
        (CpuState { clock: 200, ..line_start(s, l, 0) }).lcd_tick() == if l < 142 {
            line_start(s, (l + 1) as u8, 2)
        } else {
            line_start(CpuState { drawing: true, mem: s.mem.with_interrupt(0), ..s }, 143, 1)
        },
{
    let c = CpuState { clock: 200, ..line_start(s, l, 0) };
    assert(c.mem.ram[0xFF44] == l);
    assert(inc8(l) == l + 1);
    if l < 142 {
        lemma_hblank_next_line(s, l);
    } else {
        lemma_hblank_to_vblank(s);
    }
}

proof fn lemma_hblank_next_line(s: CpuState, l: u8)
    requires
        s.wf(),
        l < 142,
    ensures
        (CpuState { clock: 200, ..line_start(s, l, 0) }).lcd_tick() == line_start(s, (l + 1) as u8, 2),
{
    reveal(CpuState::hblank_tick);
    let c = CpuState { clock: 200, ..line_start(s, l, 0) };
    let ly1 = inc8(c.mem.ram[0xFF44]);
    assert(ly1 == l + 1);
    let m1 = MemState { ram: c.mem.ram.update(0xFF44, ly1), ..c.mem };
    assert(c.hblank_tick() == CpuState { clock: 0, screen_mode: 2, mem: m1, ..c });
    assert(m1.ram =~= s.mem.ram.update(0xFF44, (l + 1) as u8));
}

proof fn lemma_hblank_to_vblank(s: CpuState)
    requires
        s.wf(),
    ensures
        (CpuState { clock: 200, ..line_start(s, 142, 0) }).lcd_tick() == line_start(
            CpuState { drawing: true, mem: s.mem.with_interrupt(0), ..s },
            143,
            1,
        ),
{
    reveal(CpuState::hblank_tick);
    let c = CpuState { clock: 200, ..line_start(s, 142, 0) };
    let ly1 = inc8(c.mem.ram[0xFF44]);
    assert(ly1 == 143);
    let m1 = MemState { ram: c.mem.ram.update(0xFF44, ly1), ..c.mem };
    assert(c.hblank_tick() == CpuState { clock: 0, drawing: true, screen_mode: 1, mem: m1.with_interrupt(0), ..c });
    let s2 = CpuState { drawing: true, mem: s.mem.with_interrupt(0), ..s };
    assert(m1.ram[0xFF0F] == s.mem.ram[0xFF0F]);
    assert(m1.with_interrupt(0).ram =~= line_start(s2, 143, 1).mem.ram);
}

/// OAM read, VRAM read and HBlank of line `l`: 114 ticks.
proof fn lemma_drawn_line(s: CpuState, l: u8)
    requires
        s.wf(),
        l <= 142,
    ensures
        lcd_ticks(line_start(s, l, 2), 114) == if l < 142 {
            line_start(s, (l + 1) as u8, 2)
        } else {
            line_start(CpuState { drawing: true, mem: s.mem.with_interrupt(0), ..s }, 143, 1)
        },
{
    let a = line_start(s, l, 2);
    let b = line_start(s, l, 3);
    let c = line_start(s, l, 0);
    lemma_mode_ends(a);
    lemma_mode_ends(b);
    lemma_phase(c);
    lemma_hblank_end(s, l);
    lemma_ticks_add(a, 20, 94);
    lemma_ticks_add(b, 43, 51);
}

/// The last tick of a VBlank line.
#[verifier::rlimit(60)]
proof fn lemma_vblank_end(s: CpuState, l: u8)
    requires
        s.wf(),
        143 <= l <= 153,
    ensures
        (CpuState { clock: 452, ..line_start(s, l, 1) }).lcd_tick() == if l < 153 {
            line_start(s, (l + 1) as u8, 1)
        } else {
            line_start(s, 0, 2)
        },
{
    reveal(CpuState::vblank_tick);
    let a = CpuState { clock: 452, ..line_start(s, l, 1) };
    assert(a.mem.ram[0xFF44] == l);
    if l < 153 {
        assert(inc8(l) == l + 1);
        assert(a.vblank_tick() == CpuState {
            clock: 0,
            mem: MemState { ram: a.mem.ram.update(0xFF44, (l + 1) as u8), ..a.mem },
            ..a
        });
        assert(a.mem.ram.update(0xFF44, (l + 1) as u8) =~= s.mem.ram.update(0xFF44, (l + 1) as u8));
    } else {
        assert(a.vblank_tick() == CpuState {
            clock: 0,
            screen_mode: 2,
            mem: MemState { ram: a.mem.ram.update(0xFF44, 0), ..a.mem },
            ..a
        });
        assert(a.mem.ram.update(0xFF44, 0) =~= s.mem.ram.update(0xFF44, 0));
    }
}

/// A line of VBlank: 114 ticks.
proof fn lemma_blank_line(s: CpuState, l: u8)
    requires
        s.wf(),
        143 <= l <= 153,
    ensures
        lcd_ticks(line_start(s, l, 1), 114) == if l < 153 {
            line_start(s, (l + 1) as u8, 1)
        } else {
            line_start(s, 0, 2)
        },
{
    lemma_phase(line_start(s, l, 1));
    lemma_vblank_end(s, l);
}

proof fn lemma_drawn_lines(s: CpuState, l: u8)
    requires
        s.wf(),
        l <= 142,
    ensures
        lcd_ticks(line_start(s, 0, 2), (114 * l) as nat) == line_start(s, l, 2),
    decreases l,
{
    if l == 0 {
        reveal(lcd_ticks);
    } else {
        lemma_drawn_lines(s, (l - 1) as u8);
        lemma_ticks_add(line_start(s, 0, 2), (114 * (l - 1)) as nat, 114);
        lemma_drawn_line(s, (l - 1) as u8);
    }
}

proof fn lemma_blank_lines(s: CpuState, l: u8)
    requires
        s.wf(),
        143 <= l <= 153,
    ensures
        lcd_ticks(line_start(s, 143, 1), (114 * (l - 143)) as nat) == line_start(s, l, 1),
    decreases l,
{
    if l == 143 {
        reveal(lcd_ticks);
    } else {
        lemma_blank_lines(s, (l - 1) as u8);
        lemma_ticks_add(line_start(s, 143, 1), (114 * (l - 1 - 143)) as nat, 114);
        lemma_blank_line(s, (l - 1) as u8);
    }
}

/// `s` with the frame marked for drawing and the VBlank interrupt requested.
pub open spec fn frame_done(s: CpuState) -> CpuState {
    CpuState { drawing: true, mem: s.mem.with_interrupt(0), ..s }
}

/// The 143 drawn lines, the last of which enters VBlank.
proof fn lemma_frame_drawn(s: CpuState)
    requires
        s.wf(),
    ensures
        lcd_ticks(line_start(s, 0, 2), 16302) == line_start(frame_done(s), 143, 1),
{
    lemma_drawn_lines(s, 142);
    lemma_drawn_line(s, 142);
    lemma_ticks_add(line_start(s, 0, 2), 16188, 114);
}

/// The 11 VBlank lines, the last of which goes back to line 0.
proof fn lemma_frame_blank(s: CpuState)
    requires
        s.wf(),
    ensures
        lcd_ticks(line_start(s, 143, 1), 1254) == line_start(s, 0, 2),
{
    lemma_blank_lines(s, 153);
    lemma_blank_line(s, 153);
    lemma_ticks_add(line_start(s, 143, 1), 1140, 114);
}

/// A frame is 154 lines of 456 cycles: from the start of line 0 in OAM
/// read, 17556 LCD ticks later the LCD is at the start of line 0 in OAM
/// read again, with the frame marked for drawing and the VBlank interrupt
/// requested, and nothing else changed.
pub proof fn lemma_frame(s: CpuState)
    requires
        s.wf(),
    ensures
        lcd_ticks(line_start(s, 0, 2), 154 * 114) == line_start(frame_done(s), 0, 2),
{
    lemma_frame_drawn(s);
    lemma_frame_blank(frame_done(s));
    lemma_ticks_add(line_start(s, 0, 2), 16302, 1254);
}

/// The timer leaves the LCD alone: one call of the clock moves the LCD
/// mode, its cycle count, the line counter and the drawing mark exactly as
/// `lcd_tick` does.
pub proof fn lemma_clock_moves_lcd(s: CpuState)
    requires
        s.wf(),
    ensures
        s.clock_step().clock == s.lcd_tick().clock,
        s.clock_step().screen_mode == s.lcd_tick().screen_mode,
        s.clock_step().drawing == s.lcd_tick().drawing,
        s.clock_step().mem.ram[0xFF44] == s.lcd_tick().mem.ram[0xFF44],
{
    reveal(CpuState::hblank_tick);
    reveal(CpuState::vblank_tick);
    assert(s.lcd_tick().mem.ram.len() == 0x10000);
    lemma_timer_keeps_lcd(s.lcd_tick());
}

proof fn lemma_timer_keeps_lcd(t: CpuState)
    requires
        t.mem.ram.len() == 0x10000,
    ensures
        t.timer_tick().clock == t.clock,
        t.timer_tick().screen_mode == t.screen_mode,
        t.timer_tick().drawing == t.drawing,
        t.timer_tick().mem.ram[0xFF44] == t.mem.ram[0xFF44],
{
    reveal(MemState::write);
}

// ----------------------------------------------------------------------
// The low nibble of F.

proof fn lemma_lo_nibble(x: u16)
    by (bit_vector)
    ensures
        x & 0xF == ((x & 0xFF) as u8) & 0xF,
{
}

broadcast proof fn lemma_alu_keeps_nibble(
    s: CpuState,
    r: u8,
    z: Option<bool>,
    n: Option<bool>,
    h: Option<bool>,
    c: Option<bool>,
)
    ensures
        (#[trigger] s.alu(r, z, n, h, c)).af & 0xF == s.af & 0xF,
{
    let t = s.alu(r, z, n, h, c);
    crate::bits::lemma_make_af(r, opt_or(z, s.zf()), opt_or(n, s.nf()), opt_or(h, s.hf()), opt_or(c, s.cf()), lo(s.af));
    lemma_lo_nibble(t.af);
    lemma_lo_nibble(s.af);
    lemma_nib_idem(lo(s.af));
}

proof fn lemma_nib_idem(l: u8)
    by (bit_vector)
    ensures
        (l & 0xF) & 0xF == l & 0xF,
{
}

broadcast proof fn lemma_with_hi_keeps_nibble(v: u16, b: u8)
    by (bit_vector)
    ensures
        (#[trigger] with_hi(v, b)) & 0xF == v & 0xF,
{
}

proof fn lemma_masked_nibble(x: u16)
    by (bit_vector)
    ensures
        (x & 0xFFF0) & 0xF == 0,
{
}

proof fn lemma_low_keeps_nibble(s: CpuState, op: u8, n: u8, nn: u16)
    ensures
        s.exec_low(op, n, nn).af & 0xF == s.af & 0xF,
{
    broadcast use {lemma_alu_keeps_nibble, lemma_with_hi_keeps_nibble};
    reveal(CpuState::exec_low);
}

proof fn lemma_mid_keeps_nibble(s: CpuState, op: u8)
    ensures
        s.exec_mid(op).af & 0xF == s.af & 0xF,
{
    broadcast use {lemma_alu_keeps_nibble, lemma_with_hi_keeps_nibble};
    reveal(CpuState::exec_mid);
}

proof fn lemma_cb_keeps_nibble(s: CpuState, n: u8)
    ensures
        s.exec_cb(n).af & 0xF == s.af & 0xF,
{
    broadcast use {lemma_alu_keeps_nibble, lemma_with_hi_keeps_nibble};
    reveal(CpuState::exec_cb);
}

proof fn lemma_high_keeps_nibble(s: CpuState, op: u8, n: u8, nn: u16)
    ensures
        s.exec_high(op, n, nn).af & 0xF == if op == 0xF1 { 0 } else { s.af & 0xF },
{
    broadcast use {lemma_alu_keeps_nibble, lemma_with_hi_keeps_nibble};
    reveal(CpuState::exec_high);
    reveal(CpuState::exec_flow);
    reveal(CpuState::exec_misc);
    lemma_masked_nibble(s.top());
}

/// No instruction sets the low nibble of F: every one keeps it, but
/// `POP AF`, which clears it; the clock and interrupt handling leave AF
/// alone. So a nibble that is zero (as at power-on) stays zero.
pub proof fn lemma_step_keeps_f_nibble(s: CpuState)
    ensures
        s.step().af & 0xF == if s.rd(s.pc) == 0xF1 { 0 } else { s.af & 0xF },
        s.clock_step().af == s.af,
        s.interrupt_step().af == s.af,
        s.af & 0xF == 0 ==> s.step().af & 0xF == 0,
{
    let op = s.rd(s.pc);
    lemma_low_keeps_nibble(s, op, s.imm8(), s.imm16());
    lemma_mid_keeps_nibble(s, op);
    lemma_cb_keeps_nibble(s, s.imm8());
    lemma_high_keeps_nibble(s, op, s.imm8(), s.imm16());
    reveal(CpuState::hblank_tick);
    reveal(CpuState::vblank_tick);
}

// ----------------------------------------------------------------------
// Decimal arithmetic.

/// Whether byte `x` is packed BCD: both nibbles at most 9.
pub open spec fn bcd(x: u8) -> bool {
    (x >> 4u8) <= 9 && (x & 0xF) <= 9
}

/// The number 0..99 that the packed BCD byte `x` stands for.
pub open spec fn bcd_value(x: u8) -> int {
    10 * ((x >> 4u8) as int) + ((x & 0xF) as int)
}

proof fn lemma_bcd_add_bits(a: u8, b: u8)
    by (bit_vector)
    requires
        (a >> 4u8) <= 9,
        (a & 0xF) <= 9,
        (b >> 4u8) <= 9,
        (b & 0xF) <= 9,
    ensures
        ({
            let r = w8(a + b);
            let h = (r & 0xF) < (a & 0xF);
            let c = r < a;
            let a1: u8 = if r > 0x99 || c { w8(r + 0x60) } else { r };
            let c1 = r > 0x99 || c;
            let adj = (a1 & 0xF) > 0x9 || h;
            let a2: u8 = if adj { w8(a1 + 0x6) } else { a1 };
            let h2 = if adj { false } else { h };
            let sum = 10 * (a >> 4u8) + (a & 0xF) + 10 * (b >> 4u8) + (b & 0xF);
            &&& (a2 >> 4u8) <= 9
            &&& (a2 & 0xF) <= 9
            &&& 10 * (a2 >> 4u8) + (a2 & 0xF) == sum % 100
            &&& c1 == (sum >= 100)
            &&& !h2
        }),
{
}

proof fn lemma_bcd_sub_bits(a: u8, b: u8)
    by (bit_vector)
    requires
        (a >> 4u8) <= 9,
        (a & 0xF) <= 9,
        (b >> 4u8) <= 9,
        (b & 0xF) <= 9,
    ensures
        ({
            let r = w8(a - b);
            let h = (a & 0xF) < (r & 0xF);
            let c = r > a;
            let a2: u8 = if c && h {
                w8(r + 0x9A)
            } else if c {
                w8(r + 0xA0)
            } else if h {
                w8(r + 0xFA)
            } else {
                r
            };
            let x = 10 * (a >> 4u8) + (a & 0xF);
            let y = 10 * (b >> 4u8) + (b & 0xF);
            &&& (a2 >> 4u8) <= 9
            &&& (a2 & 0xF) <= 9
            &&& 10 * (a2 >> 4u8) + (a2 & 0xF) == (x - y + 100) % 100
            &&& c == (x < y)
        }),
{
}

/// `ADD` then `DAA` on packed BCD is decimal addition: the accumulator is
/// the BCD of the sum modulo 100, carry tells whether the sum reached 100,
/// zero whether the result is 0, and N and H are clear.
pub proof fn lemma_bcd_add(s: CpuState, b: u8)
    requires
        bcd(s.a()),
        bcd(b),
    ensures
        ({
            let t = s.op_add(b).op_daa();
            &&& bcd(t.a())
            &&& bcd_value(t.a()) == (bcd_value(s.a()) + bcd_value(b)) % 100
            &&& t.cf() == (bcd_value(s.a()) + bcd_value(b) >= 100)
            &&& t.zf() == (t.a() == 0)
            &&& !t.nf()
            &&& !t.hf()
        }),
{
    let a = s.a();
    let r = w8(a + b);
    let h = (r & 0xF) < (a & 0xF);
    let c = r < a;
    let t1 = s.op_add(b);
    crate::bits::lemma_make_af(r, r == 0, false, h, c, lo(s.af));
    assert(t1.a() == r && !t1.nf() && t1.hf() == h && t1.cf() == c);
    lemma_bcd_add_bits(a, b);
    let a1: u8 = if r > 0x99 || c { w8(r + 0x60) } else { r };
    let c1 = r > 0x99 || c;
    let adj = (a1 & 0xF) > 0x9 || h;
    let a2: u8 = if adj { w8(a1 + 0x6) } else { a1 };
    let h2 = if adj { false } else { h };
    crate::bits::lemma_make_af(a2, a2 == 0, false, h2, c1, lo(t1.af));
}

/// `SUB` then `DAA` on packed BCD is decimal subtraction: the accumulator
/// is the BCD of the difference modulo 100, carry tells whether it
/// borrowed, zero whether the result is 0, N is set and H clear.
pub proof fn lemma_bcd_sub(s: CpuState, b: u8)
    requires
        bcd(s.a()),
        bcd(b),
    ensures
        ({
            let t = s.op_sub(b).op_daa();
            &&& bcd(t.a())
            &&& bcd_value(t.a()) == (bcd_value(s.a()) - bcd_value(b) + 100) % 100
            &&& t.cf() == (bcd_value(s.a()) < bcd_value(b))
            &&& t.zf() == (t.a() == 0)
            &&& t.nf()
            &&& !t.hf()
        }),
{
    let a = s.a();
    let r = w8(a - b);
    let h = (a & 0xF) < (r & 0xF);
    let c = r > a;
    let t1 = s.op_sub(b);
    crate::bits::lemma_make_af(r, r == 0, true, h, c, lo(s.af));
    assert(t1.a() == r && t1.nf() && t1.hf() == h && t1.cf() == c);
    lemma_bcd_sub_bits(a, b);
    let a2: u8 = if c && h {
        w8(r + 0x9A)
    } else if c {
        w8(r + 0xA0)
    } else if h {
        w8(r + 0xFA)
    } else {
        r
    };
    let h2 = if c || h { false } else { h };
    crate::bits::lemma_make_af(a2, a2 == 0, true, h2, c, lo(t1.af));
}

/// Writing a run of bytes is writing them one by one, in order: the first
/// `k + 1` bytes are the first `k` followed by byte `k` at address
/// `a + k` (wrapping past 0xFFFF), defined when the first `k` are and that
/// write is; writing no bytes changes nothing.
pub proof fn lemma_write_bytes_in_order(m: MemState, a: u16, bs: Seq<u8>, k: int)
    requires
        0 <= k < bs.len(),
    ensures
        m.write_bytes(a, Seq::<u8>::empty()) == m,
        m.write_bytes(a, bs.subrange(0, k + 1)) == m.write_bytes(a, bs.subrange(0, k)).write(
            w16(a + k),
            bs[k],
        ),
        m.writes_ok(a, bs.subrange(0, k + 1)) == (m.writes_ok(a, bs.subrange(0, k)) && m.write_bytes(
            a,
            bs.subrange(0, k),
        ).writable(w16(a + k), bs[k])),
{
    assert(bs.subrange(0, k + 1).drop_last() =~= bs.subrange(0, k));
}

// ----------------------------------------------------------------------
// Interrupt priority, timer rate, screen layout.

proof fn lemma_pending_bits(p: u8, n: u8, m: u8)
    by (bit_vector)
    requires
        n < 4,
        m < 4,
    ensures
        ((p >> n) & 1 == 1) == ((p / bit_value(n)) % 2 == 1),
        ((p >> n) & 1 == 1 && p % bit_value(n) == 0 && (p >> m) & 1 == 1 && p % bit_value(m) == 0) ==> n == m,
        (!((p >> 0u8) & 1 == 1) && !((p >> 1u8) & 1 == 1) && !((p >> 2u8) & 1 == 1) && !((p >> 3u8) & 1 == 1))
            == (p % 16 == 0),
        ((p >> 0u8) & 1 == 1) ==> p % 1 == 0,
        (!((p >> 0u8) & 1 == 1) && (p >> 1u8) & 1 == 1) ==> p % 2 == 0,
        (!((p >> 0u8) & 1 == 1) && !((p >> 1u8) & 1 == 1) && (p >> 2u8) & 1 == 1) ==> p % 4 == 0,
        (!((p >> 0u8) & 1 == 1) && !((p >> 1u8) & 1 == 1) && !((p >> 2u8) & 1 == 1) && (p >> 3u8) & 1 == 1)
            ==> p % 8 == 0,
{
}

/// The interrupt chosen among the pending ones `p` (IF & IE) is the
/// lowest-numbered: its bit is set in `p` and every lower bit is clear
/// (`p` is a multiple of its bit's value); there is none exactly when
/// none of the four low bits is set.
pub proof fn lemma_first_pending_lowest(p: u8)
    ensures
        match first_pending(p) {
            Some(n) => n < 4 && (p / bit_value(n)) % 2 == 1 && p % bit_value(n) == 0,
            None => p % 16 == 0,
        },
{
    lemma_pending_bits(p, 0, 0);
    lemma_pending_bits(p, 1, 1);
    lemma_pending_bits(p, 2, 2);
    lemma_pending_bits(p, 3, 3);
}

/// Interrupt priority: with interrupts enabled and the CPU running, when
/// `n` is the lowest-numbered interrupt both requested and enabled, the
/// handler at 0x40 + 8n is the one entered.
pub proof fn lemma_interrupt_priority(s: CpuState, n: u8)
    requires
        s.wf(),
        s.interrupts_enabled,
        !s.halted,
        n < 4,
        (s.pending() / bit_value(n)) % 2 == 1,
        s.pending() % bit_value(n) == 0,
    ensures
        s.dispatch().pc == 0x40 + 8 * n,
{
    let p = s.pending();
    lemma_first_pending_lowest(p);
    lemma_pending_bits(p, n, n);
    if first_pending(p) is None {
        lemma_pending_bits(p, 0, 0);
        lemma_pending_bits(p, 1, 1);
        lemma_pending_bits(p, 2, 2);
        lemma_pending_bits(p, 3, 3);
        assert(false);
    }
    let m = first_pending(p)->0;
    lemma_pending_bits(p, n, m);
    lemma_pending_bits(p, m, m);
    lemma_interrupt_vector(s);
}

/// The timer rate: with the timer on (bit 2 of TAC, 0xFF07) at speed
/// `TAC % 4`, a clock call counts TIMA (0xFF05) when the LCD clock divided
/// by four is a multiple of 64, 1, 4 or 16 for speeds 0, 1, 2, 3, and
/// otherwise leaves it; a count past 0xFF reloads TMA (0xFF06) and
/// requests the timer interrupt. With the timer off nothing changes.
pub proof fn lemma_timer_rate(s: CpuState)
    requires
        s.wf(),
    ensures
        ({
            let tac = s.mem.read(0xFF07);
            let tima = s.mem.read(0xFF05);
            let k = tac % 4;
            let period: int = if k == 0 { 64 } else if k == 1 { 1 } else if k == 2 { 4 } else { 16 };
            let counts = (s.clock as int / 4) % period == 0;
            let t = s.timer_tick();
            &&& (tac / 4) % 2 == 0 ==> t == s
            &&& ((tac / 4) % 2 == 1 && !counts) ==> t.mem.read(0xFF05) == tima
            &&& ((tac / 4) % 2 == 1 && counts && tima < 0xFF) ==> t.mem.read(0xFF05) == tima + 1
            &&& ((tac / 4) % 2 == 1 && counts && tima == 0xFF) ==> t.mem.read(0xFF05) == s.mem.read(0xFF06)
                && (t.mem.read(0xFF0F) / 4) % 2 == 1
        }),
{
    reveal(MemState::read);
    reveal(MemState::write);
    lemma_if_bit2(s.mem.ram[0xFF0F]);
}

proof fn lemma_if_bit2(f: u8)
    by (bit_vector)
    ensures
        ((f | (1u8 << 2u8)) / 4) % 2 == 1,
{
}

/// The background layout: the map byte of row `r`, column `c` (at
/// 0x1800 + 32r + c, or 0x1C00 + 32r + c when LCD control bit 3 is set)
/// is drawn at (8c, 8r) from the tile whose number it holds, counted from
/// 0x8000 when LCD control bit 4 is set and as a signed offset from tile
/// 256 (0x9000) otherwise; tile `t` sits at (8 (t % 16), 8 (t / 16)) of
/// its sheet, whose tile 0 is at 0x8800 in the signed case.
pub proof fn lemma_background_layout(vram: Seq<u8>, lcdc: u8, r: int, c: int)
    requires
        0 <= r < 32,
        0 <= c < 32,
    ensures
        ({
            let map: int = if (lcdc / 8) % 2 == 1 { 0x1C00 } else { 0x1800 };
            let raw = vram[map + 32 * r + c] as int;
            let t: int = if (lcdc / 16) % 2 == 1 { raw } else { (raw + 128) % 256 };
            let b = bg_blit(vram, lcdc, 32 * r + c);
            &&& b.dx == 8 * c
            &&& b.dy == 8 * r
            &&& b.sx == 8 * (t % 16)
            &&& b.sy == 8 * (t / 16)
        }),
{
    lemma_lcdc_bits(lcdc);
    assert((32 * r + c) % 32 == c && (32 * r + c) / 32 == r);
}

proof fn lemma_lcdc_bits(l: u8)
    by (bit_vector)
    ensures
        ((l >> 3u8) & 1 == 1) == ((l / 8) % 2 == 1),
        ((l >> 4u8) & 1 == 1) == ((l / 16) % 2 == 1),
{
}

/// Sprite layout: entry `i` of the attribute table (Y, X, tile, flags at
/// 4i..4i+3) is drawn when 16 <= Y <= 176 and 8 <= X <= 176, with its top
/// left corner at (X - 8, Y - 16), from tile `t` at (8 (t % 16), 8 (t / 16))
/// of the sheet; an 8 x 16 sprite uses the even tile `t` and, 8 pixels
/// lower, tile `t + 1`. Any other entry draws nothing.
pub proof fn lemma_sprite_layout(oam: Seq<u8>, tall: bool, i: int)
    requires
        0 <= i < 40,
        oam.len() >= 160,
    ensures
        ({
            let y = oam[4 * i] - 16;
            let x = oam[4 * i + 1] - 8;
            let raw = oam[4 * i + 2] as int;
            let t = if tall { raw - raw % 2 } else { raw };
            let bl = sprite_blits_of(oam, tall, i);
            &&& (0 <= y <= 160 && 0 <= x <= 168) ==> {
                &&& bl.len() == if tall { 2int } else { 1int }
                &&& bl[0].dx == x && bl[0].dy == y
                &&& bl[0].sx == 8 * (t % 16) && bl[0].sy == 8 * (t / 16)
                &&& tall ==> bl[1].dx == x && bl[1].dy == y + 8 && bl[1].sx == 8 * ((t + 1) % 16) && bl[1].sy
                    == 8 * ((t + 1) / 16)
            }
            &&& !(0 <= y <= 160 && 0 <= x <= 168) ==> bl.len() == 0
        }),
{
    lemma_even_tile(oam[4 * i + 2]);
}

proof fn lemma_even_tile(x: u8)
    by (bit_vector)
    ensures
        (x & 0xFE) == x - x % 2,
{
}

proof fn lemma_shade_bits(l: u8, h: u8, px: u8)
    by (bit_vector)
    requires
        px < 8,
    ensures
        shade(l, h, px) == ((l / bit_value((7 - px) as u8)) % 2 + 2 * ((h / bit_value((7 - px) as u8)) % 2)) as u8,
        (l / bit_value((7 - px) as u8)) % 2 + 2 * ((h / bit_value((7 - px) as u8)) % 2) < 4,
{
}

/// Tile sheet layout: pixel `px` of line `line` of tile `t` lies at column
/// 8 (t % 16) + px, row 8 (t / 16) + line of the 128-pixel-wide sheet; its
/// shade takes its low bit from bit 7 - px of byte `base + 16t + 2 line`
/// and its high bit from the byte after, and shades 0, 1, 2, 3 are white,
/// light grey, dark grey and black.
pub proof fn lemma_sheet_layout(vram: Seq<u8>, base: int, t: int, line: int, px: int)
    requires
        0 <= t < 256,
        0 <= line < 8,
        0 <= px < 8,
    ensures
        ({
            let a = base + 16 * t + 2 * line;
            let w = bit_value((7 - px) as u8) as int;
            let sh = (vram[a] as int / w) % 2 + 2 * ((vram[a + 1] as int / w) % 2);
            let colour: u32 = if sh == 0 {
                0xFFFFFF
            } else if sh == 1 {
                0xAAAAAA
            } else if sh == 2 {
                0x555555
            } else {
                0
            };
            sheet_pixel(vram, base, (8 * (t / 16) + line) * 128 + 8 * (t % 16) + px) == colour
        }),
{
    let i = (8 * (t / 16) + line) * 128 + 8 * (t % 16) + px;
    let x = 8 * (t % 16) + px;
    let y = 8 * (t / 16) + line;
    assert(0 <= x < 128 && 0 <= y < 128) by {
        assert(0 <= t % 16 < 16);
        assert(0 <= t / 16 < 16);
    }
    assert(i % 128 == x && i / 128 == y) by (nonlinear_arith)
        requires
            i == y * 128 + x,
            0 <= x < 128,
            0 <= y,
    ;
    assert((y / 8) * 16 + x / 8 == t && y % 8 == line && x % 8 == px) by (nonlinear_arith)
        requires
            x == 8 * (t % 16) + px,
            y == 8 * (t / 16) + line,
            0 <= px < 8,
            0 <= line < 8,
            0 <= t,
            t == 16 * (t / 16) + t % 16,
    ;
    let a = base + 16 * t + 2 * line;
    lemma_shade_bits(vram[a], vram[a + 1], px as u8);
}

/// The divider: with the timer on, a clock call counts DIV (0xFF04) up by
/// one modulo 256 when the LCD clock divided by four is a multiple of 16,
/// and otherwise leaves it.
pub proof fn lemma_divider_rate(s: CpuState)
    requires
        s.wf(),
        (s.mem.read(0xFF07) / 4) % 2 == 1,
    ensures
        s.timer_tick().mem.read(0xFF04) == if (s.clock as int / 4) % 16 == 0 {
            (s.mem.read(0xFF04) + 1) % 256
        } else {
            s.mem.read(0xFF04) as int
        },
{
    reveal(MemState::read);
    reveal(MemState::write);
}

/// Selecting a ROM bank on controllers 3 and 5: controller 3 takes the low
/// seven bits of a byte written to 0x2000..0x3FFF; controller 5 takes a
/// whole byte written to 0x2000..0x2FFF as the low bank bits and adds 0x200
/// while a nonzero byte was last written to 0x3000..0x3FFF.
pub proof fn lemma_mbc3_mbc5_bank_switch(m: MemState, a: u16, v: u8)
    requires
        0x2000 <= a < 0x4000,
    ensures
        m.mbc_type == 3 ==> m.write(a, v).rom_bank() == v % 128,
        (m.mbc_type == 5 && a < 0x3000) ==> m.write(a, v).rom_bank() == v + if m.mbc_romram { 0x200int } else { 0 },
        (m.mbc_type == 5 && a >= 0x3000) ==> m.write(a, v).rom_bank() == m.mbc_rom_low + if v != 0 {
            0x200int
        } else {
            0
        },
{
    reveal(MemState::write);
    lemma_bank_bits(v, m.mbc_rom_low);
}

proof fn lemma_bank_bits(v: u8, l: u8)
    by (bit_vector)
    ensures
        (v & 0x7F) == v % 128,
        ((v as u16) | 0x200u16) == v + 0x200,
        ((l as u16) | 0x200u16) == l + 0x200,
{
}

} // verus!

//! The memory bus: cartridge ROM with its bank controller, the 64 KiB
//! address space, the joypad register and the serial port.
use vstd::prelude::*;
use crate::bits::{join, w16};

verus! {

/// The bank controller that a cartridge type byte (header offset 0x147)
/// selects, or `None` for the types this emulator refuses.
pub open spec fn cart_mbc(t: u8) -> Option<u8> {
    if t == 0 {
        Some(0u8)
    } else if 0x01 <= t <= 0x03 {
        Some(1u8)
    } else if 0x05 <= t <= 0x06 {
        Some(2u8)
    } else if 0x08 <= t <= 0x09 {
        Some(0u8)
    } else if 0x0F <= t <= 0x13 {
        Some(3u8)
    } else if 0x15 <= t <= 0x17 {
        Some(4u8)
    } else if 0x19 <= t <= 0x1E {
        Some(5u8)
    } else {
        None
    }
}

/// The bank controller for cartridge type byte `t` (see `cart_mbc`).
pub fn cart_controller(t: u8) -> (r: Option<u8>)
    ensures
        r == cart_mbc(t),
{
    if t == 0 {
        Some(0)
    } else if 0x01 <= t && t <= 0x03 {
        Some(1)
    } else if 0x05 <= t && t <= 0x06 {
        Some(2)
    } else if 0x08 <= t && t <= 0x09 {
        Some(0)
    } else if 0x0F <= t && t <= 0x13 {
        Some(3)
    } else if 0x15 <= t && t <= 0x17 {
        Some(4)
    } else if 0x19 <= t && t <= 0x1E {
        Some(5)
    } else {
        None
    }
}

/// The joypad bit of a key: 0 while pressed, 1 while released.
pub open spec fn key_bit(pressed: bool) -> u8 {
    if pressed { 0u8 } else { 1u8 }
}

/// The abstract state of the bus.
pub struct MemState {
    pub mbc_type: u8,
    pub mbc_rom_low: u8,
    pub mbc_ram_n: u8,
    pub mbc_romram: bool,
    pub mbc_ram_enable: bool,
    /// The 64 KiB address space (ROM addresses hold nothing used).
    pub ram: Seq<u8>,
    /// The cartridge image.
    pub rom: Seq<u8>,
    /// Which key group the joypad register shows: buttons or directions.
    pub buttons: bool,
    pub kup: bool,
    pub kdown: bool,
    pub kright: bool,
    pub kleft: bool,
    pub ka: bool,
    pub kb: bool,
    pub kselect: bool,
    pub kstart: bool,
    /// Instructions left until an `EI` takes effect.
    pub ime_delay: u8,
    /// Bytes sent out through the serial port, oldest first.
    pub serial: Seq<u8>,
}

impl MemState {
    pub open spec fn wf(self) -> bool {
        &&& self.ram.len() == 0x10000
        &&& self.mbc_type <= 5
        &&& self.ime_delay <= 2
    }

    /// The bus as a cartridge of type byte `t` starts it.
    pub open spec fn initial(rom: Seq<u8>, t: u8) -> MemState {
        MemState {
            mbc_type: cart_mbc(t)->0,
            mbc_rom_low: 0,
            mbc_ram_n: 0,
            mbc_romram: false,
            mbc_ram_enable: false,
            ram: Seq::new(
                0x10000,
                |i: int|
                    if i == 0xFF40 {
                        0x91u8
                    } else if i == 0xFF47 {
                        0xFCu8
                    } else if i == 0xFF48 || i == 0xFF49 || i == 0xFF4D {
                        0xFFu8
                    } else {
                        0u8
                    },
            ),
            rom,
            buttons: false,
            kup: false,
            kdown: false,
            kright: false,
            kleft: false,
            ka: false,
            kb: false,
            kselect: false,
            kstart: false,
            ime_delay: 0,
            serial: Seq::empty(),
        }
    }

    /// Whether `rom_bank` is defined: controllers 1, 3 and 5 have one.
    pub open spec fn has_rom_bank(self) -> bool {
        self.mbc_type == 1 || self.mbc_type == 3 || self.mbc_type == 5
    }

    /// The ROM bank that addresses 0x3FFF..0x7FFE show.
    pub open spec fn rom_bank(self) -> u16 {
        if self.mbc_type == 1 {
            let n: u8 = if self.mbc_romram {
                self.mbc_rom_low | (self.mbc_ram_n << 5u8)
            } else {
                self.mbc_rom_low
            };
            if n == 0 {
                1
            } else {
                n as u16
            }
        } else if self.mbc_type == 3 {
            self.mbc_rom_low as u16
        } else {
            if self.mbc_romram {
                self.mbc_rom_low as u16 | 0x200u16
            } else {
                self.mbc_rom_low as u16
            }
        }
    }

    /// The RAM bank number.
    pub open spec fn ram_bank(self) -> u8 {
        if self.mbc_type == 1 && self.mbc_romram {
            0
        } else {
            self.mbc_ram_n
        }
    }

    /// Index into the cartridge image of a banked address, in the
    /// 16-bit arithmetic of the bus.
    pub open spec fn banked_index(self, a: u16) -> u16 {
        w16(a + w16(0x4000 * w16(self.rom_bank() - 1)))
    }

    /// The joypad register as the key group selected shows it.
    pub open spec fn joypad(self) -> u8 {
        self.joypad_low() | 0xC0u8
    }

    /// The joypad register but its two top bits.
    pub open spec fn joypad_low(self) -> u8 {
        if self.buttons {
            key_bit(self.ka) | (key_bit(self.kb) << 1u8) | (key_bit(self.kselect) << 2u8) | (key_bit(
                self.kstart,
            ) << 3u8) | 0x10u8
        } else {
            key_bit(self.kright) | (key_bit(self.kleft) << 1u8) | (key_bit(self.kup) << 2u8) | (key_bit(
                self.kdown,
            ) << 3u8) | 0x20u8
        }
    }

    /// Whether reading address `a` is defined: the ROM byte it maps to
    /// exists and, for a banked address, the controller has a ROM bank.
    pub open spec fn readable(self, a: u16) -> bool {
        if a < 0x3FFF {
            a < self.rom.len()
        } else if a < 0x7FFF {
            if self.mbc_type > 0 {
                self.has_rom_bank() && self.banked_index(a) < self.rom.len()
            } else {
                a < self.rom.len()
            }
        } else {
            true
        }
    }

    /// The byte at address `a`.
    #[verifier::opaque]
    pub open spec fn read(self, a: u16) -> u8 {
        if a < 0x3FFF {
            self.rom[a as int]
        } else if a < 0x7FFF {
            if self.mbc_type > 0 {
                self.rom[self.banked_index(a) as int]
            } else {
                self.rom[a as int]
            }
        } else if a == 0xFF00 {
            self.joypad()
        } else {
            self.ram[a as int]
        }
    }

    /// Whether writing `v` to address `a` is defined: controller 4 has no
    /// ROM bank to report for writes to 0x6000..0x7FFE, and a transfer
    /// started on the serial port (0x81 to 0xFF02) must send a byte that is
    /// text on its own (below 0x80).
    pub open spec fn writable(self, a: u16, v: u8) -> bool {
        &&& !(self.mbc_type == 4 && 0x6000 <= a < 0x7FFF)
        &&& !(a == 0xFF02 && v == 0x81 && self.ram[0xFF01] >= 0x80)
    }

    /// Whether writing `x` to `a` and then `y` to the next address is
    /// defined (the first write may set the serial data byte).
    pub open spec fn writable2(self, a: u16, x: u8, y: u8) -> bool {
        let b = w16(a + 1);
        let c = if a == 0xFF01 { x } else { self.ram[0xFF01] };
        &&& self.writable(a, x)
        &&& !(self.mbc_type == 4 && 0x6000 <= b < 0x7FFF)
        &&& !(b == 0xFF02 && y == 0x81 && c >= 0x80)
    }

    /// Whether writing `bs` to consecutive addresses from `a` on is defined,
    /// each write in the state the earlier ones left.
    pub open spec fn writes_ok(self, a: u16, bs: Seq<u8>) -> bool
        decreases bs.len(),
    {
        if bs.len() == 0 {
            true
        } else {
            &&& self.writes_ok(a, bs.drop_last())
            &&& self.write_bytes(a, bs.drop_last()).writable(w16(a + bs.len() - 1), bs.last())
        }
    }

    /// The bus with interrupt `n` requested in the IF register (0xFF0F).
    pub open spec fn with_interrupt(self, n: u8) -> MemState {
        MemState { ram: self.ram.update(0xFF0F, self.ram[0xFF0F] | (1u8 << n)), ..self }
    }

    /// The bus after writing `v` to address `a`.
    #[verifier::opaque]
    pub open spec fn write(self, a: u16, v: u8) -> MemState {
        let t = self.mbc_type;
        if a < 0x2000 {
            if t == 1 || t == 5 {
                MemState { mbc_ram_enable: v == 0xA, ..self }
            } else {
                self
            }
        } else if a < 0x4000 {
            if t == 5 {
                if a < 0x3000 {
                    MemState { mbc_rom_low: v, ..self }
                } else {
                    MemState { mbc_romram: v != 0, ..self }
                }
            } else if t == 1 {
                MemState { mbc_rom_low: v & 0x1F, ..self }
            } else if t == 3 {
                MemState { mbc_rom_low: v & 0x7F, ..self }
            } else {
                self
            }
        } else if a < 0x6000 {
            if t == 1 {
                MemState { mbc_ram_n: v & 0x3, ..self }
            } else if t == 3 {
                MemState { mbc_romram: v != 0, ..self }
            } else if t == 5 {
                MemState { mbc_ram_n: v & 0xF, ..self }
            } else {
                self
            }
        } else if a < 0x7FFF {
            if t != 2 && t != 0 {
                MemState { mbc_romram: v & 1 == 1, ..self }
            } else {
                self
            }
        } else if a == 0xFF00 {
            if (v >> 4u8) & 1 == 0 {
                MemState { buttons: false, ..self }
            } else if (v >> 5u8) & 1 == 0 {
                MemState { buttons: true, ..self }
            } else {
                self
            }
        } else if a == 0xFF02 {
            if v == 0x81 {
                MemState { serial: self.serial.push(self.ram[0xFF01]), ..self }.with_interrupt(2)
            } else {
                self
            }
        } else {
            MemState { ram: self.ram.update(a as int, v), ..self }
        }
    }

    /// The bus after writing `bs` to consecutive addresses from `a` on
    /// (wrapping past 0xFFFF).
    pub open spec fn write_bytes(self, a: u16, bs: Seq<u8>) -> MemState
        decreases bs.len(),
    {
        if bs.len() == 0 {
            self
        } else {
            self.write_bytes(a, bs.drop_last()).write(w16(a + bs.len() - 1), bs.last())
        }
    }

    /// The little-endian 16-bit value at `a`.
    pub open spec fn read16(self, a: u16) -> u16 {
        join(self.read(w16(a + 1)), self.read(a))
    }
}

/// Writing two bytes is writing one and then the other at the next address.
pub proof fn lemma_write_two(m: MemState, a: u16, x: u8, y: u8)
    ensures
        m.write_bytes(a, seq![x, y]) == m.write(a, x).write(w16(a + 1), y),
{
    assert(seq![x, y].drop_last() =~= seq![x]);
    assert(seq![x].drop_last() =~= Seq::<u8>::empty());
    assert(w16(a + 0) == a);
    assert(m.write_bytes(a, Seq::<u8>::empty()) == m);
    assert(m.write_bytes(a, seq![x]) == m.write(a, x));
    assert(m.write_bytes(a, seq![x, y]) == m.write_bytes(a, seq![x]).write(w16(a + 1), y));
}

/// `writable2` is the second write checked in the state the first left.
pub proof fn lemma_writable2(m: MemState, a: u16, x: u8, y: u8)
    requires
        m.wf(),
    ensures
        m.writable2(a, x, y) == (m.writable(a, x) && m.write(a, x).writable(w16(a + 1), y)),
        m.write(a, x).wf(),
{
    reveal(MemState::write);
}

/// The writes of a prefix of `bs` are defined when those of `bs` are.
pub proof fn lemma_writes_ok_prefix(m: MemState, a: u16, bs: Seq<u8>, k: int)
    requires
        m.writes_ok(a, bs),
        0 <= k <= bs.len(),
    ensures
        m.writes_ok(a, bs.subrange(0, k)),
    decreases bs.len(),
{
    if k < bs.len() {
        assert(bs.drop_last().subrange(0, k) =~= bs.subrange(0, k));
        lemma_writes_ok_prefix(m, a, bs.drop_last(), k);
    } else {
        assert(bs.subrange(0, k) =~= bs);
    }
}

/// Writing two bytes is defined exactly when `writable2` says so.
pub proof fn lemma_writes_ok_two(m: MemState, a: u16, x: u8, y: u8)
    requires
        m.wf(),
    ensures
        m.writes_ok(a, seq![x, y]) == m.writable2(a, x, y),
{
    let e = Seq::<u8>::empty();
    assert(seq![x, y].drop_last() =~= seq![x]);
    assert(seq![x].drop_last() =~= e);
    assert(w16(a + 0) == a);
    assert(w16(a + 2 - 1) == w16(a + 1));
    assert(m.write_bytes(a, e) == m);
    assert(m.writes_ok(a, e));
    assert(m.write_bytes(a, seq![x]) == m.write(a, x));
    assert(m.writes_ok(a, seq![x]) == m.writable(a, x));
    assert(m.writes_ok(a, seq![x, y]) == (m.writes_ok(a, seq![x]) && m.write(a, x).writable(w16(a + 1), y)));
    lemma_writable2(m, a, x, y);
}

/// The memory bus.
pub struct Mem {
    pub mbc_type: u8,
    pub mbc_rom_low: u8,
    pub mbc_ram_n: u8,
    pub mbc_romram: bool,
    pub mbc_ram_enable: bool,
    pub mem: Vec<u8>,
    pub rom: Vec<u8>,
    pub buttons: bool,
    pub kup: bool,
    pub kdown: bool,
    pub kright: bool,
    pub kleft: bool,
    pub ka: bool,
    pub kb: bool,
    pub kselect: bool,
    pub kstart: bool,
    pub ime_delay: u8,
    pub serial: Vec<u8>,
}

impl View for Mem {
    type V = MemState;

    open spec fn view(&self) -> MemState {
        MemState {
            mbc_type: self.mbc_type,
            mbc_rom_low: self.mbc_rom_low,
            mbc_ram_n: self.mbc_ram_n,
            mbc_romram: self.mbc_romram,
            mbc_ram_enable: self.mbc_ram_enable,
            ram: self.mem@,
            rom: self.rom@,
            buttons: self.buttons,
            kup: self.kup,
            kdown: self.kdown,
            kright: self.kright,
            kleft: self.kleft,
            ka: self.ka,
            kb: self.kb,
            kselect: self.kselect,
            kstart: self.kstart,
            ime_delay: self.ime_delay,
            serial: self.serial@,
        }
    }
}

fn key_bit_exec(pressed: bool) -> (r: u8)
    ensures
        r == key_bit(pressed),
{
    if pressed { 0 } else { 1 }
}

impl Mem {
    pub open spec fn wf(&self) -> bool {
        self@.wf()
    }

    /// A bus for the cartridge image `rom`; the controller comes from the
    /// type byte at 0x147, which must be one this emulator supports.
    pub fn new(rom: Vec<u8>) -> (m: Mem)
        requires
            rom.len() > 0x147,
            cart_mbc(rom@[0x147]) is Some,
        ensures
            m.wf(),
            m@ == MemState::initial(rom@, rom@[0x147]),
    {
        let mut mem: Vec<u8> = vec![0u8; 0x10000];
        mem.set(0xFF40, 0x91);
        mem.set(0xFF47, 0xFC);
        mem.set(0xFF48, 0xFF);
        mem.set(0xFF49, 0xFF);
        mem.set(0xFF4D, 0xFF);
        mem.set(0xFFFF, 0);
        let t = rom[0x147];
        let mbc_type: u8 = match cart_controller(t) {
            Some(k) => k,
            None => 0,
        };
        let m = Mem {
            mbc_type,
            mbc_rom_low: 0,
            mbc_ram_n: 0,
            mbc_ram_enable: false,
            mbc_romram: false,
            mem,
            rom,
            buttons: false,
            kup: false,
            kdown: false,
            kright: false,
            kleft: false,
            ka: false,
            kb: false,
            kselect: false,
            kstart: false,
            ime_delay: 0,
            serial: Vec::new(),
        };
        assert(m.mem@ =~= MemState::initial(m.rom@, t).ram);
        m
    }

    /// The ROM bank that addresses 0x3FFF..0x7FFE show; defined for the
    /// controllers that have one.
    pub fn rom_bank(&self) -> (r: u16)
        requires
            self@.has_rom_bank(),
        ensures
            r == self@.rom_bank(),
    {
        if self.mbc_type == 1 {
            let mut n = if self.mbc_romram {
                self.mbc_rom_low | self.mbc_ram_n << 5u8
            } else {
                self.mbc_rom_low
            };
            if n == 0 {
                n = 1;
            }
            n as u16
        } else if self.mbc_type == 3 {
            self.mbc_rom_low as u16
        } else {
            if self.mbc_romram {
                self.mbc_rom_low as u16 | 0x200
            } else {
                self.mbc_rom_low as u16
            }
        }
    }

    pub fn ram_bank(&self) -> (r: u8)
        ensures
            r == self@.ram_bank(),
    {
        if self.mbc_type == 1 {
            if self.mbc_romram {
                0
            } else {
                self.mbc_ram_n
            }
        } else {
            self.mbc_ram_n
        }
    }

    /// The byte at `offset`.
    pub fn readbyte(&self, offset: u16) -> (r: u8)
        requires
            self.wf(),
            self@.readable(offset),
        ensures
            r == self@.read(offset),
    {
        proof {
            reveal(MemState::read);
        }
        if offset < 0x3FFF {
            self.rom[offset as usize]
        } else if offset < 0x7FFF {
            if self.mbc_type > 0 {
                let bank = self.rom_bank();
                let i = offset.wrapping_add(0x4000u16.wrapping_mul(bank.wrapping_sub(1)));
                self.rom[i as usize]
            } else {
                self.rom[offset as usize]
            }
        } else if offset == 0xFF00 {
            let a = if self.buttons {
                key_bit_exec(self.ka) | key_bit_exec(self.kb) << 1 | key_bit_exec(self.kselect) << 2
                    | key_bit_exec(self.kstart) << 3 | 0x10
            } else {
                key_bit_exec(self.kright) | key_bit_exec(self.kleft) << 1 | key_bit_exec(self.kup) << 2
                    | key_bit_exec(self.kdown) << 3 | 0x20
            };
            a | 0xC0
        } else {
            self.mem[offset as usize]
        }
    }

    /// Sets bit `n` of the IF register directly.
    fn raise(&mut self, n: u8)
        requires
            old(self).wf(),
            n < 8,
        ensures
            final(self)@ == old(self)@.with_interrupt(n),
    {
        let f = self.mem[0xFF0F];
        self.mem.set(0xFF0F, f | 1 << n);
    }

    /// A write below 0x7FFF: it sets the bank controller registers.
    #[verifier::rlimit(40)]
    fn write_control(&mut self, offset: u16, value: u8)
        requires
            old(self).wf(),
            offset < 0x7FFF,
        ensures
            final(self).wf(),
            final(self)@ == old(self)@.write(offset, value),
    {
        proof {
            reveal(MemState::write);
        }
        let mtype = self.mbc_type;
        if offset < 0x2000 {
            if mtype == 1 || mtype == 5 {
                self.mbc_ram_enable = value == 0xA;
            }
        } else if offset < 0x4000 {
            if mtype == 5 {
                if offset < 0x3000 {
                    self.mbc_rom_low = value;
                } else {
                    self.mbc_romram = value != 0;
                }
            } else if mtype == 1 {
                self.mbc_rom_low = value & 0b11111;
            } else if mtype == 3 {
                self.mbc_rom_low = value & 0b1111111;
            }
        } else if offset < 0x6000 {
            if mtype == 1 {
                self.mbc_ram_n = value & 0b11;
            } else if mtype == 3 {
                self.mbc_romram = value != 0;
            } else if mtype == 5 {
                self.mbc_ram_n = value & 0xF;
            }
        } else {
            if mtype != 2 && mtype != 0 {
                self.mbc_romram = value & 1 == 1;
            }
        }
    }

    /// Writes `value` to `offset`: bank controller registers below 0x7FFF,
    /// the joypad select at 0xFF00, the serial control at 0xFF02 (0x81 sends
    /// the byte at 0xFF01, which must be below 0x80, and requests the serial
    /// interrupt), plain memory elsewhere.
    #[verifier::rlimit(40)]
    pub fn writebyte(&mut self, offset: u16, value: u8)
        requires
            old(self).wf(),
            old(self)@.writable(offset, value),
        ensures
            final(self).wf(),
            final(self)@ == old(self)@.write(offset, value),
            final(self).mbc_type == old(self).mbc_type,
    {
        proof {
            reveal(MemState::write);
        }
        if offset < 0x7FFF {
            self.write_control(offset, value);
        } else if offset == 0xFF00 {
            if value >> 4 & 1 == 0 {
                self.buttons = false
            } else if value >> 5 & 1 == 0 {
                self.buttons = true
            }
        } else if offset == 0xFF02 {
            if value == 0x81 {
                let c = self.mem[0xFF01];
                self.serial.push(c);
                self.raise(2);
            }
        } else {
            self.mem.set(offset as usize, value);
        }
    }

    /// Writes `bytes` to consecutive addresses from `offset` on.
    pub fn write(&mut self, offset: u16, bytes: &[u8])
        requires
            old(self).wf(),
            old(self)@.writes_ok(offset, bytes@),
        ensures
            final(self).wf(),
            final(self)@ == old(self)@.write_bytes(offset, bytes@),
    {
        let mut i: usize = 0;
        let mut a: u16 = offset;
        while i < bytes.len()
            invariant
                self.wf(),
                i <= bytes@.len(),
                a == w16(offset + i),
                self.mbc_type == old(self).mbc_type,
                old(self)@.writes_ok(offset, bytes@),
                self@ == old(self)@.write_bytes(offset, bytes@.subrange(0, i as int)),
            decreases bytes@.len() - i,
        {
            let b = bytes[i];
            proof {
                lemma_writes_ok_prefix(old(self)@, offset, bytes@, i + 1);
                assert(bytes@.subrange(0, i + 1).drop_last() =~= bytes@.subrange(0, i as int));
            }
            self.writebyte(a, b);
            a = a.wrapping_add(1);
            i = i + 1;
        }
        assert(bytes@.subrange(0, bytes@.len() as int) =~= bytes@);
    }

    /// The little-endian 16-bit value at `offset`.
    pub fn read16(&self, offset: u16) -> (r: u16)
        requires
            self.wf(),
            self@.readable(offset),
            self@.readable(w16(offset + 1)),
        ensures
            r == self@.read16(offset),
    {
        (self.readbyte(offset.wrapping_add(1)) as u16) << 8 | self.readbyte(offset) as u16
    }

    /// Requests interrupt `n` by setting its bit in the IF register.
    pub fn request_interrupt(&mut self, n: u8)
        requires
            old(self).wf(),
            n < 8,
        ensures
            final(self).wf(),
            final(self)@ == old(self)@.with_interrupt(n),
    {
        proof {
            reveal(MemState::read);
            reveal(MemState::write);
        }
        let f = self.readbyte(0xFF0F);
        self.writebyte(0xFF0F, f | 1 << n);
    }

    /// Whether reading `a` is defined (see `MemState::readable`).
    pub fn readable(&self, a: u16) -> (r: bool)
        requires
            self.wf(),
        ensures
            r == self@.readable(a),
    {
        if a < 0x3FFF {
            (a as usize) < self.rom.len()
        } else if a < 0x7FFF {
            if self.mbc_type > 0 {
                if self.mbc_type == 1 || self.mbc_type == 3 || self.mbc_type == 5 {
                    let bank = self.rom_bank();
                    let i = a.wrapping_add(0x4000u16.wrapping_mul(bank.wrapping_sub(1)));
                    (i as usize) < self.rom.len()
                } else {
                    false
                }
            } else {
                (a as usize) < self.rom.len()
            }
        } else {
            true
        }
    }

    /// Whether writing `v` to `a` is defined (see `MemState::writable`).
    pub fn writable(&self, a: u16, v: u8) -> (r: bool)
        requires
            self.wf(),
        ensures
            r == self@.writable(a, v),
    {
        !(self.mbc_type == 4 && 0x6000 <= a && a < 0x7FFF) && !(a == 0xFF02 && v == 0x81 && self.mem[0xFF01]
            >= 0x80)
    }

    /// Whether writing `x` to `a` and then `y` to the next address is
    /// defined (see `MemState::writable2`).
    pub fn writable2(&self, a: u16, x: u8, y: u8) -> (r: bool)
        requires
            self.wf(),
        ensures
            r == self@.writable2(a, x, y),
    {
        let b = a.wrapping_add(1);
        let c = if a == 0xFF01 { x } else { self.mem[0xFF01] };
        self.writable(a, x) && !(self.mbc_type == 4 && 0x6000 <= b && b < 0x7FFF) && !(b == 0xFF02 && y
            == 0x81 && c >= 0x80)
    }
}

} // verus!

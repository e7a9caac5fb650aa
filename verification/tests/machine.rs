use rustgb::cpu::Cpu;
use rustgb::mem::{cart_controller, Mem};
use rustgb::reg::{Reg, Regs};

/// A 32 KiB cartridge of type `cart` with `code` at 0x100.
fn rom_with(cart: u8, code: &[u8]) -> Vec<u8> {
    let mut rom = vec![0u8; 0x8000];
    rom[0x147] = cart;
    for (i, b) in code.iter().enumerate() {
        rom[0x100 + i] = *b;
    }
    rom
}

fn cpu_with(code: &[u8]) -> Cpu {
    Cpu::new(rom_with(0, code), false)
}

fn a_of(cpu: &Cpu) -> u8 {
    (cpu.regs.af.v >> 8) as u8
}

fn f_of(cpu: &Cpu) -> u8 {
    (cpu.regs.af.v & 0xFF) as u8
}

// ---------------------------------------------------------------- registers

#[test]
fn reg_halves() {
    let mut r = Reg { v: 0x1234 };
    assert_eq!(r.get_high(), 0x12);
    assert_eq!(r.get_low(), 0x34);
    r.set_high(0xAB);
    assert_eq!(r.v, 0xAB34);
    r.set_low(0xCD);
    assert_eq!(r.v, 0xABCD);
    assert_eq!(r.to_bytes(), [0xCD, 0xAB]);
}

#[test]
fn reg_wrapping_arithmetic() {
    let mut r = Reg { v: 0xFFFF };
    assert_eq!(r.inc_high(), (0xFF, 0x00));
    assert_eq!(r.v, 0x00FF);
    assert_eq!(r.inc_low(), (0xFF, 0x00));
    assert_eq!(r.v, 0x0000);
    assert_eq!(r.dec_high(), (0x00, 0xFF));
    assert_eq!(r.dec_low(), (0x00, 0xFF));
    assert_eq!(r.v, 0xFFFF);
    assert_eq!(r.add(2), (0xFFFF, 0x0001));
    assert_eq!(r.addi8(-2), (0x0001, 0xFFFF));
    assert_eq!(r.addi8(0x10), (0xFFFF, 0x000F));
    let mut q = Reg { v: 0x1000 };
    assert_eq!(q.add_high(0xF5), (0x10, 0x05));
    assert_eq!(q.sub_high(0x06), (0x05, 0xFF));
}

#[test]
fn regs_power_on() {
    let r = Regs::new();
    assert_eq!(
        (r.af.v, r.bc.v, r.de.v, r.hl.v, r.sp.v, r.pc.v),
        (0x01B0, 0x0013, 0x00D8, 0x014D, 0xFFFE, 0x0100)
    );
}

// ---------------------------------------------------------------- memory

#[test]
fn mem_power_on() {
    let m = Mem::new(rom_with(0, &[]));
    assert_eq!(m.mbc_type, 0);
    assert_eq!(m.mem.len(), 0x10000);
    assert_eq!(m.mem[0xFF40], 0x91);
    assert_eq!(m.mem[0xFF47], 0xFC);
    assert_eq!(m.mem[0xFF48], 0xFF);
    assert_eq!(m.mem[0xFF49], 0xFF);
    assert_eq!(m.mem[0xFF4D], 0xFF);
    assert_eq!(m.mem[0xFFFF], 0);
    assert_eq!(m.ime_delay, 0);
}

#[test]
fn cart_types_select_controllers() {
    let cases = [
        (0x00, 0), (0x01, 1), (0x03, 1), (0x05, 2), (0x06, 2), (0x08, 0), (0x09, 0),
        (0x0F, 3), (0x13, 3), (0x15, 4), (0x17, 4), (0x19, 5), (0x1E, 5),
    ];
    for (t, mbc) in cases.iter() {
        assert_eq!(Mem::new(rom_with(*t, &[])).mbc_type, *mbc, "type {:X}", t);
    }
}

#[test]
fn rom_and_ram_reads() {
    let mut rom = rom_with(0, &[0x42]);
    rom[0x3FFE] = 7;
    rom[0x5000] = 9;
    let mut m = Mem::new(rom);
    assert_eq!(m.readbyte(0x100), 0x42);
    assert_eq!(m.readbyte(0x3FFE), 7);
    assert_eq!(m.readbyte(0x5000), 9);
    m.writebyte(0xC000, 0x55);
    assert_eq!(m.readbyte(0xC000), 0x55);
    m.writebyte(0x7FFF, 0x66);
    assert_eq!(m.mem[0x7FFF], 0x66);
}

#[test]
fn mbc1_banking() {
    let mut rom = vec![0u8; 0x10000];
    rom[0x147] = 0x01;
    rom[0x4000] = 0x11;
    rom[0x8000] = 0x22;
    rom[0xC000] = 0x33;
    let mut m = Mem::new(rom);
    // bank 0 selects bank 1
    assert_eq!(m.rom_bank(), 1);
    assert_eq!(m.readbyte(0x4000), 0x11);
    m.writebyte(0x2000, 2);
    assert_eq!(m.rom_bank(), 2);
    assert_eq!(m.readbyte(0x4000), 0x22);
    m.writebyte(0x2000, 0xE3);
    assert_eq!(m.mbc_rom_low, 0x03);
    assert_eq!(m.readbyte(0x4000), 0x33);
    m.writebyte(0x4000, 0xFF);
    assert_eq!(m.mbc_ram_n, 3);
    assert_eq!(m.ram_bank(), 3);
    m.writebyte(0x6000, 1);
    assert!(m.mbc_romram);
    assert_eq!(m.rom_bank(), 0x63);
    assert_eq!(m.ram_bank(), 0);
    m.writebyte(0x0000, 0x0A);
    assert!(m.mbc_ram_enable);
    m.writebyte(0x0000, 0x00);
    assert!(!m.mbc_ram_enable);
}

#[test]
fn mbc3_and_mbc5_banks() {
    let mut m3 = Mem::new(rom_with(0x13, &[]));
    m3.writebyte(0x2000, 0xFF);
    assert_eq!(m3.rom_bank(), 0x7F);
    m3.writebyte(0x4000, 1);
    assert!(m3.mbc_romram);
    let mut m5 = Mem::new(rom_with(0x19, &[]));
    m5.writebyte(0x2000, 0x12);
    assert_eq!(m5.rom_bank(), 0x12);
    m5.writebyte(0x3000, 1);
    assert_eq!(m5.rom_bank(), 0x212);
    m5.writebyte(0x4000, 0x1F);
    assert_eq!(m5.mbc_ram_n, 0xF);
}

#[test]
fn joypad_register() {
    let mut m = Mem::new(rom_with(0, &[]));
    m.kup = true;
    m.ka = true;
    // directions shown
    m.writebyte(0xFF00, 0x20);
    assert_eq!(m.readbyte(0xFF00), 0xC0 | 0x20 | 0b1011);
    // buttons shown
    m.writebyte(0xFF00, 0x10);
    assert_eq!(m.readbyte(0xFF00), 0xC0 | 0x10 | 0b1110);
    // neither bit clear: selection kept
    m.writebyte(0xFF00, 0x30);
    assert_eq!(m.readbyte(0xFF00), 0xC0 | 0x10 | 0b1110);
}

#[test]
fn serial_output_and_interrupt() {
    let mut m = Mem::new(rom_with(0, &[]));
    m.writebyte(0xFF01, b'H');
    m.writebyte(0xFF02, 0x81);
    m.writebyte(0xFF01, b'i');
    m.writebyte(0xFF02, 0x80);
    assert_eq!(m.serial, vec![b'H']);
    assert_eq!(m.mem[0xFF0F], 0x04);
}

#[test]
fn request_interrupt_sets_bit() {
    let mut m = Mem::new(rom_with(0, &[]));
    m.request_interrupt(0);
    m.request_interrupt(3);
    assert_eq!(m.mem[0xFF0F], 0x09);
}

#[test]
fn write_bytes_and_read16() {
    let mut m = Mem::new(rom_with(0, &[]));
    m.write(0xC100, &[0x34, 0x12, 0x78]);
    assert_eq!(m.read16(0xC100), 0x1234);
    assert_eq!(m.read16(0xC101), 0x7812);
    m.write(0xFFFF, &[0x01, 0x02]);
    assert_eq!(m.mem[0xFFFF], 0x01);
    assert_eq!(m.mem[0x0000], 0x00);
}

#[test]
fn read_after_write_law() {
    // a plain address reads back what was written; its neighbour keeps its value
    let mut m = Mem::new(rom_with(0, &[]));
    m.writebyte(0xD000, 0x5A);
    m.writebyte(0xD001, 0xA5);
    assert_eq!(m.readbyte(0xD000), 0x5A);
    assert_eq!(m.readbyte(0xD001), 0xA5);
    m.writebyte(0xD000, 0x01);
    assert_eq!(m.readbyte(0xD000), 0x01);
    assert_eq!(m.readbyte(0xD001), 0xA5);
}

#[test]
fn rom_writes_keep_memory_law() {
    let mut m = Mem::new(rom_with(0x01, &[]));
    let before = m.mem.clone();
    m.writebyte(0x2000, 5);
    m.writebyte(0x0000, 0x0A);
    assert_eq!(m.mem, before);
}

// ---------------------------------------------------------------- cpu

#[test]
fn cpu_power_on() {
    let cpu = cpu_with(&[]);
    assert_eq!(cpu.regs.pc.v, 0x100);
    assert_eq!(cpu.regs.sp.v, 0xFFFE);
    assert!(!cpu.halted && !cpu.interrupts_enabled && !cpu.drawing);
    assert_eq!(cpu.screen_mode, 0);
    assert_eq!(cpu.clock, 0);
}

#[test]
fn nop_and_loads() {
    // NOP; LD BC,0x1234; LD D,0x56; LD A,D; LD (HL),A; LD E,(HL)
    let mut cpu = cpu_with(&[0x00, 0x01, 0x34, 0x12, 0x16, 0x56, 0x7A, 0x77, 0x5E]);
    cpu.regs.hl.v = 0xC000;
    cpu.next();
    assert_eq!(cpu.regs.pc.v, 0x101);
    cpu.next();
    assert_eq!(cpu.regs.bc.v, 0x1234);
    assert_eq!(cpu.regs.pc.v, 0x104);
    cpu.next();
    assert_eq!(cpu.regs.de.v >> 8, 0x56);
    cpu.next();
    assert_eq!(a_of(&cpu), 0x56);
    cpu.next();
    assert_eq!(cpu.mem.mem[0xC000], 0x56);
    cpu.next();
    assert_eq!(cpu.regs.de.v, 0x5656);
    assert_eq!(cpu.regs.pc.v, 0x109);
    assert_eq!(cpu.last_op, 0x5E);
}

#[test]
fn inc_dec_flags() {
    // INC B twice from 0xFF; DEC C from 0x10
    let mut cpu = cpu_with(&[0x04, 0x04, 0x0D]);
    cpu.regs.bc.v = 0xFF10;
    cpu.regs.af.v = 0x0010; // carry set, kept by INC/DEC
    cpu.next();
    assert_eq!(cpu.regs.bc.v, 0x0010);
    assert_eq!(f_of(&cpu), 0x80 | 0x20 | 0x10);
    cpu.next();
    assert_eq!(cpu.regs.bc.v, 0x0110);
    assert_eq!(f_of(&cpu), 0x10);
    cpu.next();
    assert_eq!(cpu.regs.bc.v, 0x010F);
    assert_eq!(f_of(&cpu), 0x40 | 0x20 | 0x10);
}

#[test]
fn add_sub_and_compare() {
    // ADD A,B; SUB 0x10; CP 0x05; ADC A,0x00; SBC A,0x01
    let mut cpu = cpu_with(&[0x80, 0xD6, 0x10, 0xFE, 0x05, 0xCE, 0x00, 0xDE, 0x01]);
    cpu.regs.af.v = 0x3A00;
    cpu.regs.bc.v = 0xC600;
    cpu.next();
    assert_eq!(a_of(&cpu), 0x00);
    assert_eq!(f_of(&cpu), 0x80 | 0x20 | 0x10);
    cpu.next();
    assert_eq!(a_of(&cpu), 0xF0);
    assert_eq!(f_of(&cpu), 0x40 | 0x10);
    cpu.next();
    assert_eq!(a_of(&cpu), 0xF0);
    assert_eq!(f_of(&cpu), 0x40 | 0x20);
    cpu.next();
    assert_eq!(a_of(&cpu), 0xF0);
    assert_eq!(f_of(&cpu), 0x00);
    cpu.next();
    assert_eq!(a_of(&cpu), 0xEF);
    assert_eq!(f_of(&cpu), 0x40 | 0x20);
}

#[test]
fn logic_ops() {
    // AND 0x0F; OR 0x80; XOR A
    let mut cpu = cpu_with(&[0xE6, 0x0F, 0xF6, 0x80, 0xAF]);
    cpu.regs.af.v = 0x3C00;
    cpu.next();
    assert_eq!(cpu.regs.af.v, 0x0C20);
    cpu.next();
    assert_eq!(cpu.regs.af.v, 0x8C00);
    cpu.next();
    assert_eq!(cpu.regs.af.v, 0x0080);
}

#[test]
fn low_nibble_of_f_kept() {
    // the low nibble of F is not touched by flag updates
    let mut cpu = cpu_with(&[0x37]);
    cpu.regs.af.v = 0x1205;
    cpu.next();
    assert_eq!(cpu.regs.af.v, 0x1215);
}

fn daa_of(af: u16) -> u16 {
    let mut cpu = cpu_with(&[0x27]);
    cpu.regs.af.v = af;
    cpu.regs.bc.v = 0;
    cpu.next();
    cpu.regs.af.v
}

#[test]
fn daa_cases() {
    assert_eq!(daa_of(0x0A00), 0x1000);
    assert_eq!(daa_of(0x9A00), 0x0090);
    assert_eq!(daa_of(0x4500), 0x4500);
    assert_eq!(daa_of(0x0F40), 0x0F40);
    assert_eq!(daa_of(0x0060), 0xFA40);
    assert_eq!(daa_of(0x0070), 0x9A50);
    assert_eq!(daa_of(0x0050), 0xA050);
}

#[test]
fn daa_sweep() {
    // DAA at 0x100 on every AF value with a clear low nibble of F, BC = 0:
    // the accumulator result always leaves the flags' low nibble clear,
    // and the step always moves PC by one
    let mut cpu = cpu_with(&[0x27]);
    for i in 0..0xFFFFu32 {
        let af = (i as u16) & 0xFFF0;
        cpu.regs.pc.v = 0x100;
        cpu.regs.af.v = af;
        cpu.regs.bc.v = 0;
        cpu.next();
        assert_eq!(cpu.regs.pc.v, 0x101);
        assert_eq!(cpu.regs.af.v & 0x000F, 0);
        assert_eq!(cpu.regs.af.v & 0x0040, af & 0x0040);
    }
}

#[test]
fn main_test_instr() {
    // A 0x200-byte cartridge of zeros with DAA at 0x100, stepped 0xFFFF
    // times with AF = i & 0xFFF0 and BC = 0 before each step. Execution
    // runs DAA and then the NOPs after it; at 0x1FE the operand bytes lie
    // past the end of the cartridge, so from there on no step is defined.
    let mut rom = vec![0u8; 0x200];
    rom[0x100] = 0x27;
    let mut cpu = Cpu::new(rom, false);
    let mut steps: u32 = 0;
    for i_ in 0..0xFFFFu32 {
        let i = i_ as u16;
        cpu.regs.af.v = i & 0xFFF0;
        cpu.regs.bc.v = 0;
        println!("input: {:04X}, {:04X}", cpu.regs.af.v, cpu.regs.bc.v);
        if !cpu.can_step() {
            break;
        }
        cpu.next();
        steps += 1;
    }
    assert_eq!(steps, 0x1FE - 0x100);
    assert_eq!(cpu.regs.pc.v, 0x1FE);
}

#[test]
fn rotations_of_a() {
    // RLCA; RRCA; RLA; RRA
    let mut cpu = cpu_with(&[0x07, 0x0F, 0x17, 0x1F]);
    cpu.regs.af.v = 0x8180;
    cpu.next();
    assert_eq!(cpu.regs.af.v, 0x0310);
    cpu.next();
    assert_eq!(cpu.regs.af.v, 0x8110);
    cpu.next();
    assert_eq!(cpu.regs.af.v, 0x0310);
    cpu.next();
    assert_eq!(cpu.regs.af.v, 0x8110);
}

#[test]
fn cb_operations() {
    // SWAP B; BIT 7,B; RES 7,B; BIT 7,B; SET 0,(HL); SRL A
    let mut cpu = cpu_with(&[0xCB, 0x30, 0xCB, 0x78, 0xCB, 0xB8, 0xCB, 0x78, 0xCB, 0xC6, 0xCB, 0x3F]);
    cpu.regs.bc.v = 0x1F00;
    cpu.regs.hl.v = 0xC000;
    cpu.regs.af.v = 0x0300;
    cpu.next();
    assert_eq!(cpu.regs.bc.v, 0xF100);
    assert_eq!(cpu.regs.pc.v, 0x102);
    cpu.next();
    assert_eq!(f_of(&cpu) & 0xE0, 0x20);
    cpu.next();
    assert_eq!(cpu.regs.bc.v, 0x7100);
    cpu.next();
    assert_eq!(f_of(&cpu) & 0xE0, 0xA0);
    cpu.next();
    assert_eq!(cpu.mem.mem[0xC000], 0x01);
    cpu.next();
    assert_eq!(cpu.regs.af.v, 0x0110);
}

#[test]
fn cb_res_zero_b_is_not_stored() {
    // RES 0,B has code 0x80, which the interpreter computes but does not store
    let mut cpu = cpu_with(&[0xCB, 0x80, 0xCB, 0x81]);
    cpu.regs.bc.v = 0x0101;
    cpu.next();
    assert_eq!(cpu.regs.bc.v, 0x0101);
    cpu.next();
    assert_eq!(cpu.regs.bc.v, 0x0100);
}

#[test]
fn rotate_inverse_law() {
    // RLC then RRC gives each byte back
    for x in 0..=255u8 {
        let mut cpu = cpu_with(&[0xCB, 0x00, 0xCB, 0x08]);
        cpu.regs.bc.v = (x as u16) << 8;
        cpu.next();
        cpu.next();
        assert_eq!(cpu.regs.bc.v >> 8, x as u16);
    }
}

#[test]
fn push_pop_law() {
    // PUSH BC; POP DE
    let mut cpu = cpu_with(&[0xC5, 0xD1]);
    cpu.regs.bc.v = 0xBEEF;
    cpu.next();
    assert_eq!(cpu.regs.sp.v, 0xFFFC);
    assert_eq!(cpu.mem.mem[0xFFFC], 0xEF);
    assert_eq!(cpu.mem.mem[0xFFFD], 0xBE);
    cpu.next();
    assert_eq!(cpu.regs.de.v, 0xBEEF);
    assert_eq!(cpu.regs.sp.v, 0xFFFE);
}

#[test]
fn pop_af_masks_flags() {
    let mut cpu = cpu_with(&[0xF1]);
    cpu.regs.sp.v = 0xC000;
    cpu.mem.mem[0xC000] = 0xFF;
    cpu.mem.mem[0xC001] = 0x12;
    cpu.next();
    assert_eq!(cpu.regs.af.v, 0x12F0);
    assert_eq!(cpu.regs.sp.v, 0xC002);
}

#[test]
fn call_and_return() {
    // CALL 0x0200; at 0x200: RET
    let mut rom = rom_with(0, &[0xCD, 0x00, 0x02]);
    rom[0x200] = 0xC9;
    let mut cpu = Cpu::new(rom, false);
    cpu.next();
    assert_eq!(cpu.regs.pc.v, 0x200);
    assert_eq!(cpu.regs.sp.v, 0xFFFC);
    assert_eq!(cpu.mem.read16(0xFFFC), 0x103);
    cpu.next();
    assert_eq!(cpu.regs.pc.v, 0x103);
    assert_eq!(cpu.regs.sp.v, 0xFFFE);
}

#[test]
fn conditional_flow() {
    // JR NZ,+2 (taken); ...; JR Z,-2 (not taken); JP 0x0150; RST 0x28
    let mut rom = rom_with(0, &[0x20, 0x02, 0x00, 0x00, 0x28, 0xFE, 0xC3, 0x50, 0x01]);
    rom[0x150] = 0xEF;
    let mut cpu = Cpu::new(rom, false);
    cpu.regs.af.v = 0x0000;
    cpu.next();
    assert_eq!(cpu.regs.pc.v, 0x104);
    cpu.next();
    assert_eq!(cpu.regs.pc.v, 0x106);
    cpu.next();
    assert_eq!(cpu.regs.pc.v, 0x150);
    cpu.next();
    assert_eq!(cpu.regs.pc.v, 0x28);
    assert_eq!(cpu.mem.read16(cpu.regs.sp.v), 0x151);
}

#[test]
fn jr_backwards() {
    // JR -2 jumps onto itself
    let mut cpu = cpu_with(&[0x18, 0xFE]);
    cpu.next();
    assert_eq!(cpu.regs.pc.v, 0x100);
}

#[test]
fn sp_offset_instructions() {
    // LD HL,SP+0x01; ADD SP,-1
    let mut cpu = cpu_with(&[0xF8, 0x01, 0xE8, 0xFF]);
    cpu.regs.sp.v = 0x00FF;
    cpu.next();
    assert_eq!(cpu.regs.hl.v, 0x0100);
    assert_eq!(f_of(&cpu), 0x30);
    cpu.next();
    assert_eq!(cpu.regs.sp.v, 0x00FE);
    assert_eq!(f_of(&cpu), 0x30);
}

#[test]
fn add_hl_pairs() {
    // ADD HL,DE
    let mut cpu = cpu_with(&[0x19]);
    cpu.regs.hl.v = 0x0FFF;
    cpu.regs.de.v = 0x0001;
    cpu.regs.af.v = 0x0080;
    cpu.next();
    assert_eq!(cpu.regs.hl.v, 0x1000);
    assert_eq!(f_of(&cpu), 0xA0);
}

#[test]
fn halt_keeps_pc() {
    let mut cpu = cpu_with(&[0x76]);
    cpu.regs.hl.v = 0xC000;
    cpu.next();
    assert!(cpu.halted);
    assert_eq!(cpu.regs.pc.v, 0x100);
    cpu.next();
    assert_eq!(cpu.regs.pc.v, 0x100);
}

#[test]
fn io_page_loads() {
    // LDH (0x80),A; LDH A,(0x81); LD (C),A
    let mut cpu = cpu_with(&[0xE0, 0x80, 0xF0, 0x81, 0xE2]);
    cpu.regs.af.v = 0x4200;
    cpu.regs.bc.v = 0x0082;
    cpu.mem.mem[0xFF81] = 0x99;
    cpu.next();
    assert_eq!(cpu.mem.mem[0xFF80], 0x42);
    cpu.next();
    assert_eq!(a_of(&cpu), 0x99);
    cpu.next();
    assert_eq!(cpu.mem.mem[0xFF82], 0x99);
}

#[test]
fn ld_nn_sp() {
    let mut cpu = cpu_with(&[0x08, 0x00, 0xC0]);
    cpu.regs.sp.v = 0xABCD;
    cpu.next();
    assert_eq!(cpu.mem.mem[0xC000], 0xCD);
    assert_eq!(cpu.mem.mem[0xC001], 0xAB);
    assert_eq!(cpu.regs.pc.v, 0x103);
}

// ---------------------------------------------------------------- interrupts and clock

#[test]
fn ei_takes_effect_after_delay_law() {
    let mut cpu = cpu_with(&[0xFB, 0x00, 0x00]);
    cpu.next();
    assert_eq!(cpu.mem.ime_delay, 2);
    cpu.interrupts();
    assert!(!cpu.interrupts_enabled);
    assert_eq!(cpu.mem.ime_delay, 1);
    cpu.interrupts();
    assert!(cpu.interrupts_enabled);
    assert_eq!(cpu.mem.ime_delay, 0);
}

#[test]
fn interrupt_dispatch_vector() {
    let mut cpu = cpu_with(&[0x00]);
    cpu.interrupts_enabled = true;
    cpu.mem.mem[0xFFFF] = 0x05;
    cpu.mem.mem[0xFF0F] = 0x06;
    cpu.regs.pc.v = 0x1234;
    cpu.interrupts();
    // bit 2 (timer) is the lowest both enabled and requested
    assert_eq!(cpu.regs.pc.v, 0x50);
    assert_eq!(cpu.mem.mem[0xFF0F], 0x02);
    assert_eq!(cpu.mem.read16(cpu.regs.sp.v), 0x1234);
}

#[test]
fn interrupt_wakes_halted_cpu() {
    let mut cpu = cpu_with(&[0x00]);
    cpu.halted = true;
    cpu.mem.mem[0xFFFF] = 0x01;
    cpu.mem.mem[0xFF0F] = 0x01;
    cpu.regs.pc.v = 0x200;
    cpu.interrupts();
    assert!(!cpu.halted);
    assert_eq!(cpu.regs.pc.v, 0x201);
    assert_eq!(cpu.mem.mem[0xFF0F], 0x01);
}

#[test]
fn no_interrupt_when_disabled() {
    let mut cpu = cpu_with(&[0x00]);
    cpu.mem.mem[0xFFFF] = 0x01;
    cpu.mem.mem[0xFF0F] = 0x01;
    let pc = cpu.regs.pc.v;
    cpu.interrupts();
    assert_eq!(cpu.regs.pc.v, pc);
}

#[test]
fn lcd_mode_cycle_law() {
    let mut cpu = cpu_with(&[]);
    cpu.screen_mode = 2;
    let mut modes = vec![cpu.screen_mode];
    for _ in 0..2000 {
        cpu.run_clock();
        if *modes.last().unwrap() != cpu.screen_mode {
            modes.push(cpu.screen_mode);
        }
    }
    assert_eq!(&modes[0..5], &[2, 3, 0, 2, 3]);
    assert!(cpu.clock < 456);
}

#[test]
fn lcd_enters_vblank_at_line_143() {
    let mut cpu = cpu_with(&[]);
    cpu.mem.mem[0xFF44] = 142;
    cpu.clock = 200;
    cpu.run_clock();
    assert_eq!(cpu.mem.mem[0xFF44], 143);
    assert_eq!(cpu.screen_mode, 1);
    assert!(cpu.drawing);
    assert_eq!(cpu.mem.mem[0xFF0F] & 1, 1);
    // after line 153 back to line 0
    cpu.mem.mem[0xFF44] = 153;
    cpu.clock = 452;
    cpu.run_clock();
    assert_eq!(cpu.mem.mem[0xFF44], 0);
    assert_eq!(cpu.screen_mode, 2);
}

#[test]
fn timer_overflow_reloads_and_interrupts() {
    let mut cpu = cpu_with(&[]);
    cpu.mem.mem[0xFF07] = 0x05; // enabled, period 1
    cpu.mem.mem[0xFF05] = 0xFF;
    cpu.mem.mem[0xFF06] = 0xAB;
    cpu.screen_mode = 2;
    cpu.clock = 0;
    cpu.run_clock();
    assert_eq!(cpu.mem.mem[0xFF05], 0xAB);
    assert_eq!(cpu.mem.mem[0xFF0F] & 0x04, 0x04);
    cpu.run_clock();
    assert_eq!(cpu.mem.mem[0xFF05], 0xAC);
}

#[test]
fn timer_disabled_counts_nothing() {
    let mut cpu = cpu_with(&[]);
    cpu.mem.mem[0xFF07] = 0x01;
    cpu.mem.mem[0xFF05] = 0x10;
    for _ in 0..100 {
        cpu.run_clock();
    }
    assert_eq!(cpu.mem.mem[0xFF05], 0x10);
    assert_eq!(cpu.mem.mem[0xFF04], 0);
}

// ------------------------------------------------------- defined steps

#[test]
fn stop_and_invalid_codes_are_not_steps() {
    assert!(cpu_with(&[0x00]).can_step());
    assert!(!cpu_with(&[0x10]).can_step());
    for op in [0xD3u8, 0xDB, 0xDD, 0xE3, 0xE4, 0xEB, 0xEC, 0xED, 0xF4, 0xFC, 0xFD].iter() {
        assert!(rustgb::cpu::is_invalid_op(*op));
        assert!(!cpu_with(&[*op]).can_step(), "op {:X}", op);
    }
    assert!(!rustgb::cpu::is_invalid_op(0xC3));
    assert!(cpu_with(&[0xC3, 0x00, 0x02]).can_step());
}

#[test]
fn fetch_past_cartridge_is_not_a_step() {
    let mut rom = vec![0u8; 0x200];
    rom[0x147] = 0;
    let mut cpu = Cpu::new(rom, false);
    cpu.regs.pc.v = 0x1FD;
    assert!(cpu.can_step());
    cpu.regs.pc.v = 0x1FE;
    assert!(!cpu.can_step());
    assert!(cpu.mem.readable(0x1FF));
    assert!(!cpu.mem.readable(0x200));
    assert!(cpu.mem.readable(0xC000));
}

#[test]
fn controller_four_rejects_upper_rom_writes() {
    // LD (0x6000),A on a cartridge of type 0x15
    let mut cpu = Cpu::new(rom_with(0x15, &[0xEA, 0x00, 0x60]), false);
    assert!(!cpu.mem.writable(0x6000, 0));
    assert!(cpu.mem.writable(0x5FFF, 0));
    assert!(!cpu.can_step());
    // the same write is defined on a controller-1 cartridge
    cpu = Cpu::new(rom_with(0x01, &[0xEA, 0x00, 0x60]), false);
    assert!(cpu.can_step());
    cpu.next();
    assert_eq!(cpu.mem.mbc_romram, true);
}

#[test]
fn cart_controller_values() {
    assert_eq!(cart_controller(0x00), Some(0));
    assert_eq!(cart_controller(0x03), Some(1));
    assert_eq!(cart_controller(0x06), Some(2));
    assert_eq!(cart_controller(0x09), Some(0));
    assert_eq!(cart_controller(0x10), Some(3));
    assert_eq!(cart_controller(0x16), Some(4));
    assert_eq!(cart_controller(0x1B), Some(5));
    assert_eq!(cart_controller(0x0B), None);
    assert_eq!(cart_controller(0x04), None);
    assert_eq!(cart_controller(0x1F), None);
}

#[test]
fn interrupt_needs_writable_stack() {
    let mut cpu = Cpu::new(rom_with(0x15, &[0x00]), false);
    cpu.interrupts_enabled = true;
    cpu.mem.mem[0xFFFF] = 0x01;
    cpu.mem.mem[0xFF0F] = 0x01;
    cpu.regs.sp.v = 0x6002;
    assert!(!cpu.can_interrupt());
    cpu.regs.sp.v = 0xFFFE;
    assert!(cpu.can_interrupt());
    cpu.mem.mem[0xFF0F] = 0x00;
    cpu.regs.sp.v = 0x6002;
    assert!(cpu.can_interrupt());
}

#[test]
fn frame_takes_17556_ticks_law() {
    let mut cpu = cpu_with(&[]);
    cpu.screen_mode = 2;
    cpu.clock = 0;
    cpu.mem.mem[0xFF44] = 0;
    cpu.mem.mem[0xFF0F] = 0;
    for _ in 0..16302 {
        assert!(!cpu.drawing);
        cpu.run_clock();
    }
    // the tick that ends line 142 enters VBlank
    assert_eq!(cpu.screen_mode, 1);
    assert_eq!(cpu.mem.mem[0xFF44], 143);
    assert!(cpu.drawing);
    for _ in 16302..17556 {
        cpu.run_clock();
    }
    assert_eq!(cpu.screen_mode, 2);
    assert_eq!(cpu.clock, 0);
    assert_eq!(cpu.mem.mem[0xFF44], 0);
    assert_eq!(cpu.mem.mem[0xFF0F], 0x01);
}

#[test]
fn mbc1_bank_zero_selects_one_law() {
    let mut rom = vec![0u8; 0x10000];
    rom[0x147] = 0x01;
    rom[0x4123] = 0x5A;
    rom[0xC123] = 0xA5;
    let mut m = Mem::new(rom);
    m.writebyte(0x3FFF, 3);
    assert_eq!(m.rom_bank(), 3);
    assert_eq!(m.readbyte(0x4123), 0xA5);
    m.writebyte(0x2000, 0x20);
    assert_eq!(m.rom_bank(), 1);
    assert_eq!(m.readbyte(0x4123), 0x5A);
}

#[test]
fn cartridge_fixed_law() {
    // LD (0x2000),A; LD (0x0100),A; LD (HL),A with HL = 0x4000; then a clock
    // tick and interrupt handling
    let mut cpu = Cpu::new(rom_with(0x01, &[0xEA, 0x00, 0x20, 0xEA, 0x00, 0x01, 0x77]), false);
    let rom = cpu.mem.rom.clone();
    cpu.regs.hl.v = 0x4000;
    for _ in 0..3 {
        assert!(cpu.can_step());
        cpu.next();
        cpu.run_clock();
        cpu.interrupts();
    }
    assert_eq!(cpu.mem.rom, rom);
    assert_eq!(cpu.mem.mbc_type, 1);
}

#[test]
fn serial_byte_must_be_text() {
    // LD A,0x81; LDH (0x02),A: starts a transfer of the byte at 0xFF01
    let mut cpu = cpu_with(&[0x3E, 0x81, 0xE0, 0x02]);
    cpu.mem.mem[0xFF01] = 0xC3;
    cpu.next();
    assert!(!cpu.mem.writable(0xFF02, 0x81));
    assert!(cpu.mem.writable(0xFF02, 0x80));
    assert!(!cpu.can_step());
    cpu.mem.mem[0xFF01] = b'A';
    assert!(cpu.can_step());
    cpu.next();
    assert_eq!(cpu.mem.serial, vec![b'A']);
    assert_eq!(cpu.mem.mem[0xFF0F] & 0x04, 0x04);
}

#[test]
fn push_onto_serial_registers() {
    // PUSH BC with SP = 0xFF03: writes C to 0xFF01, then B to 0xFF02
    let mut cpu = cpu_with(&[0xC5]);
    cpu.regs.sp.v = 0xFF03;
    cpu.regs.bc.v = 0x81C3;
    assert!(!cpu.can_step());
    cpu.regs.bc.v = 0x8141;
    assert!(cpu.can_step());
    cpu.next();
    assert_eq!(cpu.mem.serial, vec![0x41]);
}

#[test]
fn bcd_add_then_daa_law() {
    // ADD A,B; DAA over all packed BCD pairs
    for x in 0..100u32 {
        for y in 0..100u32 {
            let a = ((x / 10) << 4 | (x % 10)) as u8;
            let b = ((y / 10) << 4 | (y % 10)) as u8;
            let mut cpu = cpu_with(&[0x80, 0x27]);
            cpu.regs.af.v = (a as u16) << 8;
            cpu.regs.bc.v = (b as u16) << 8;
            cpu.next();
            cpu.next();
            let r = a_of(&cpu);
            let s = (x + y) % 100;
            assert_eq!(r, ((s / 10) << 4 | (s % 10)) as u8, "{} + {}", x, y);
            assert_eq!(f_of(&cpu) & 0x10 != 0, x + y >= 100);
            assert_eq!(f_of(&cpu) & 0x80 != 0, r == 0);
            assert_eq!(f_of(&cpu) & 0x60, 0);
            assert_eq!(cpu.regs.pc.v, 0x102);
        }
    }
}

#[test]
fn bcd_sub_then_daa_law() {
    // SUB B; DAA over all packed BCD pairs
    for x in 0..100u32 {
        for y in 0..100u32 {
            let a = ((x / 10) << 4 | (x % 10)) as u8;
            let b = ((y / 10) << 4 | (y % 10)) as u8;
            let mut cpu = cpu_with(&[0x90, 0x27]);
            cpu.regs.af.v = (a as u16) << 8;
            cpu.regs.bc.v = (b as u16) << 8;
            cpu.next();
            cpu.next();
            let r = a_of(&cpu);
            let d = (x + 100 - y) % 100;
            assert_eq!(r, ((d / 10) << 4 | (d % 10)) as u8, "{} - {}", x, y);
            assert_eq!(f_of(&cpu) & 0x10 != 0, x < y);
            assert_eq!(f_of(&cpu) & 0x80 != 0, r == 0);
            assert_eq!(f_of(&cpu) & 0x60, 0x40);
        }
    }
}

#[test]
fn f_low_nibble_stays_clear_law() {
    // PUSH BC (with C's low nibble set); POP AF; ADD A,B; SCF; DAA
    let mut cpu = cpu_with(&[0xC5, 0xF1, 0x80, 0x37, 0x27]);
    cpu.regs.bc.v = 0x12FF;
    for _ in 0..5 {
        cpu.next();
        assert_eq!(cpu.regs.af.v & 0x000F, 0);
        cpu.run_clock();
        cpu.interrupts();
        assert_eq!(cpu.regs.af.v & 0x000F, 0);
    }
}

#[test]
fn write_goes_byte_by_byte_law() {
    // a run over the serial data and control registers: the transfer sees
    // the byte written just before it
    let mut m = Mem::new(rom_with(0, &[]));
    m.write(0xFF01, &[b'Z', 0x81, 0x44]);
    assert_eq!(m.serial, vec![b'Z']);
    assert_eq!(m.mem[0xFF03], 0x44);
    let mut n = Mem::new(rom_with(0, &[]));
    n.writebyte(0xFF01, b'Z');
    n.writebyte(0xFF02, 0x81);
    n.writebyte(0xFF03, 0x44);
    assert_eq!(n.serial, m.serial);
    assert_eq!(n.mem, m.mem);
}

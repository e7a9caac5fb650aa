use rustgb::cpu::Cpu;
use rustgb::input::{events, Event, Key};
use rustgb::run::{rom_image_len, Pacing};
use rustgb::wallclock::{current_time_millis, millis_of};
use rustgb::video::{background_blits, bg_tile_number, sprite_blits, sprite_mode, tile_sheet, bg_uses_signed_tiles, Blit};

fn cpu() -> Cpu {
    let mut rom = vec![0u8; 0x8000];
    rom[0x147] = 0;
    Cpu::new(rom, false)
}

#[test]
fn key_events() {
    let mut c = cpu();
    assert_eq!(events(&mut c, Event::Nothing), 1);
    assert_eq!(events(&mut c, Event::Quit), 2);
    assert_eq!(events(&mut c, Event::Key(Key::Escape, true)), 2);
    assert_eq!(events(&mut c, Event::Key(Key::Return, true)), 0);
    assert!(c.mem.kstart);
    assert_eq!(events(&mut c, Event::Key(Key::Z, true)), 0);
    assert!(c.mem.ka);
    assert_eq!(events(&mut c, Event::Key(Key::Z, false)), 0);
    assert!(!c.mem.ka);
    events(&mut c, Event::Key(Key::Left, true));
    events(&mut c, Event::Key(Key::Backspace, true));
    events(&mut c, Event::Key(Key::X, true));
    events(&mut c, Event::Key(Key::Up, true));
    events(&mut c, Event::Key(Key::Down, true));
    events(&mut c, Event::Key(Key::Right, true));
    assert!(c.mem.kleft && c.mem.kselect && c.mem.kb && c.mem.kup && c.mem.kdown && c.mem.kright);
    assert_eq!(events(&mut c, Event::Key(Key::Other, true)), 0);
    assert_eq!(events(&mut c, Event::Other), 0);
}

#[test]
fn rom_image_length() {
    assert_eq!(rom_image_len(1), 0);
    assert_eq!(rom_image_len(0x8001), 0x8000);
    assert_eq!(rom_image_len(0x300000), 0x100000);
}

#[test]
fn frame_pacing() {
    let mut c = cpu();
    let mut p = Pacing::new();
    let mut drawn = 0;
    for _ in 0..22 {
        c.drawing = true;
        if p.frame_due(&mut c, 0x91) {
            drawn += 1;
        }
        assert!(!c.drawing);
    }
    assert_eq!(drawn, 2);
    // LCD off: the frame is not taken
    c.drawing = true;
    assert!(!p.frame_due(&mut c, 0x11));
    assert!(c.drawing);
    let mut due = 0;
    for _ in 0..33 {
        if p.events_due() {
            due += 1;
        }
    }
    assert_eq!(due, 3);
}

#[test]
fn wall_clock() {
    assert_eq!(millis_of(12, 345_678_901), 357_678);
    assert_eq!(millis_of(0, 999), 0);
    assert!(current_time_millis() <= 60 * 1000 + 999_999);
}

#[test]
fn tile_colours() {
    let mut vram = vec![0u8; 0x2000];
    // tile 0 of the sheet from 0x8000, line 0: shades 3,2,1,0,0,0,0,0
    vram[0] = 0b1010_0000;
    vram[1] = 0b1100_0000;
    let sheet = tile_sheet(&vram, 0);
    assert_eq!(sheet.len(), 128 * 128);
    assert_eq!(&sheet[0..5], &[0x000000, 0x555555, 0xAAAAAA, 0xFFFFFF, 0xFFFFFF]);
    // tile 17 sits at column 1, row 1
    vram[17 * 16 + 2 * 3] = 0x80;
    let sheet = tile_sheet(&vram, 0);
    assert_eq!(sheet[(8 + 3) * 128 + 8], 0xAAAAAA);
    // the sheet from 0x8800 starts 0x800 further
    vram[0x800] = 0xFF;
    vram[0x801] = 0xFF;
    let sheet = tile_sheet(&vram, 0x800);
    assert_eq!(&sheet[0..8], &[0; 8]);
}

#[test]
fn tile_sheets_of_tile_data_alone() {
    // 0x1800 bytes: the tile data, no background maps
    let mut vram = vec![0u8; 0x1800];
    vram[0x17FE] = 0x01;
    vram[0x17FF] = 0x01;
    let sheet = tile_sheet(&vram, 0x800);
    // last tile (255), last line, last pixel
    assert_eq!(sheet[127 * 128 + 127], 0x000000);
    assert_eq!(sheet[127 * 128 + 126], 0xFFFFFF);
    let sheet = tile_sheet(&vram[..0x1000], 0);
    assert_eq!(sheet.len(), 128 * 128);
}

#[test]
fn background_map() {
    assert_eq!(bg_tile_number(0x00, true), 128);
    assert_eq!(bg_tile_number(0x7F, true), 255);
    assert_eq!(bg_tile_number(0x80, true), 0);
    assert_eq!(bg_tile_number(0xFF, true), 127);
    assert_eq!(bg_tile_number(0x80, false), 128);
    assert!(bg_uses_signed_tiles(0x81));
    assert!(!bg_uses_signed_tiles(0x91));
    let mut vram = vec![0u8; 0x2000];
    vram[0x1800 + 33] = 0x11;
    vram[0x1C00] = 0x23;
    let b = background_blits(&vram, 0x91);
    assert_eq!(b.len(), 1024);
    assert_eq!(b[33], Blit { sx: 8, sy: 8, dx: 8, dy: 8 });
    assert_eq!(b[0], Blit { sx: 0, sy: 0, dx: 0, dy: 0 });
    let b = background_blits(&vram, 0x99);
    assert_eq!(b[0], Blit { sx: 24, sy: 16, dx: 0, dy: 0 });
    let b = background_blits(&vram, 0x81);
    assert_eq!(b[0], Blit { sx: 0, sy: 64, dx: 0, dy: 0 });
}

#[test]
fn sprites() {
    assert_eq!(sprite_mode(0x93), (true, false));
    assert_eq!(sprite_mode(0x95), (false, true));
    let mut oam = vec![0u8; 160];
    // sprite 0 visible at (8, 16) with tile 0x13; sprite 1 off screen
    oam[0] = 16 + 16;
    oam[1] = 8 + 8;
    oam[2] = 0x13;
    oam[4] = 0;
    oam[5] = 50;
    let s = sprite_blits(&oam, false);
    assert_eq!(s, vec![Blit { sx: 24, sy: 8, dx: 8, dy: 16 }]);
    let s = sprite_blits(&oam, true);
    assert_eq!(s, vec![Blit { sx: 16, sy: 8, dx: 8, dy: 16 }, Blit { sx: 24, sy: 8, dx: 8, dy: 24 }]);
}

#[test]
fn key_reads_back_law() {
    let mut c = cpu();
    // buttons selected (bit 5 clear)
    c.mem.writebyte(0xFF00, 0x10);
    events(&mut c, Event::Key(Key::Return, true));
    assert_eq!((c.mem.readbyte(0xFF00) >> 3) & 1, 0);
    events(&mut c, Event::Key(Key::Return, false));
    assert_eq!((c.mem.readbyte(0xFF00) >> 3) & 1, 1);
    // directions selected (bit 4 clear)
    c.mem.writebyte(0xFF00, 0x20);
    events(&mut c, Event::Key(Key::Left, true));
    assert_eq!((c.mem.readbyte(0xFF00) >> 1) & 1, 0);
    assert_eq!(c.mem.readbyte(0xFF00), 0xC0 | 0x20 | 0b1101);
}

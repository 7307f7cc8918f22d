use gbcore::gameboy::mmu::Mmu;
use gbcore::gameboy::ppu::Ppu;
use gbcore::gameboy::rom::Rom;
use gbcore::graphics::display::{Dims, Event, EventKind, Key, KeyState};
use gbcore::graphics::{Control, Palette, Shade, Stat, StatMode, Tile};

const WHITE: u32 = 0xFF9BBC0F;
const LIGHT: u32 = 0xFF8C8C8C;
const DARK: u32 = 0xFF505050;
const BLACK: u32 = 0xFF000000;

#[test]
fn shades_have_codes_and_colors() {
    assert_eq!(Shade::from_u8(0), Shade::White);
    assert_eq!(Shade::from_u8(1), Shade::LightGray);
    assert_eq!(Shade::from_u8(2), Shade::DarkGray);
    assert_eq!(Shade::from_u8(3), Shade::Black);
    for code in 0..4u8 {
        assert_eq!(Shade::from_u8(code).to_u8(), code);
    }
    assert_eq!(Shade::White.to_rgb(), (155, 188, 15));
    assert_eq!(Shade::LightGray.to_rgb(), (140, 140, 140));
    assert_eq!(Shade::DarkGray.to_rgb(), (80, 80, 80));
    assert_eq!(Shade::Black.to_rgb(), (0, 0, 0));
    assert_eq!(Shade::White.to_argb(), WHITE);
    assert_eq!(Shade::LightGray.to_argb(), LIGHT);
    assert_eq!(Shade::DarkGray.to_argb(), DARK);
    assert_eq!(Shade::Black.to_argb(), BLACK);
}

#[test]
fn control_maps_bits_to_fields() {
    let mut control = Control::new();
    assert_eq!(control.read_u8(), 0);
    control.write_u8(0x91);
    assert!(control.lcd_enable);
    assert!(control.bg_data_select);
    assert!(control.bg_display);
    assert!(!control.tilemap_select && !control.display_enable);
    assert!(!control.bg_tilemap_select && !control.obj_size && !control.obj_enable);
    assert_eq!(control.read_u8(), 0x91);
    for byte in [0x00u8, 0x01, 0x02, 0x04, 0x08, 0x10, 0x20, 0x40, 0x80, 0xFF, 0xA5] {
        control.write_u8(byte);
        assert_eq!(control.read_u8(), byte);
    }
}

#[test]
fn stat_keeps_its_low_bits_on_write() {
    let mut stat = Stat::new();
    assert_eq!(stat.read_u8(), 0);
    stat.coincidence_flag = true;
    stat.mode = StatMode::Transfer;
    stat.write_u8(0xF8);
    assert_eq!(stat.read_u8(), 0x7F);
    stat.write_u8(0x07);
    assert_eq!(stat.read_u8(), 0x07);
    assert_eq!(stat.mode, StatMode::Transfer);
    assert!(stat.coincidence_flag);
    for code in 0..4u8 {
        assert_eq!(StatMode::from_u8(code).to_u8(), code);
    }
    assert_eq!(StatMode::from_u8(1), StatMode::Vblank);
}

#[test]
fn palettes_map_indices_to_shades() {
    let mut palette = Palette::new();
    assert_eq!(palette.read_u8(), 0x00);
    assert_eq!(palette.shade(0), Shade::White);
    palette.write_u8(0xE4);
    assert_eq!(palette.read_u8(), 0xE4);
    assert_eq!(palette.shade(0), Shade::White);
    assert_eq!(palette.shade(1), Shade::LightGray);
    assert_eq!(palette.shade(2), Shade::DarkGray);
    assert_eq!(palette.shade(3), Shade::Black);
    palette.write_u8(0x1B);
    assert_eq!(palette.shade(0), Shade::Black);
    assert_eq!(palette.shade(3), Shade::White);
    for byte in [0x00u8, 0xFF, 0xFC, 0x5A] {
        palette.write_u8(byte);
        assert_eq!(palette.read_u8(), byte);
    }
}

#[test]
fn tiles_decode_byte_pairs() {
    let tile = Tile::new(&[0b1010_0000, 0b1100_0000, 0xFF, 0x00, 0x00, 0xFF, 0x01]);
    assert_eq!(tile.lines.len(), 3);
    assert_eq!(tile.lines[0], [3, 2, 1, 0, 0, 0, 0, 0]);
    assert_eq!(tile.lines[1], [1; 8]);
    assert_eq!(tile.lines[2], [2; 8]);
    assert_eq!(Tile::new(&[]).lines.len(), 0);
}

#[test]
fn one_picture_in_154_steps() {
    let mut ppu = Ppu::new();
    assert_eq!(ppu.ly(), 0);
    let mut pictures = 0;
    let mut blanks = 0;
    for step in 0..154 {
        let event = ppu.step();
        if let Some(frame) = event.frame {
            assert_eq!(step, 0);
            assert_eq!(frame.len(), 160 * 144);
            pictures += 1;
        }
        if event.vblank {
            assert_eq!(step, 144);
            blanks += 1;
        }
        assert_eq!(ppu.ly() as usize, (step + 1) % 154);
    }
    assert_eq!(pictures, 1);
    assert_eq!(blanks, 1);
    assert_eq!(ppu.ly(), 0);
    assert!(ppu.step().frame.is_some());
}

#[test]
fn the_status_register_follows_the_line() {
    let mut ppu = Ppu::new();
    assert_eq!(ppu.read_u8(0xFF41) & 0x07, 0x04);
    ppu.write_u8(0xFF45, 2);
    assert_eq!(ppu.read_u8(0xFF41) & 0x07, 0x00);
    ppu.step();
    ppu.step();
    assert_eq!(ppu.read_u8(0xFF44), 2);
    assert_eq!(ppu.read_u8(0xFF41) & 0x07, 0x04);
    for _ in 2..144 {
        ppu.step();
    }
    assert_eq!(ppu.read_u8(0xFF44), 144);
    assert_eq!(ppu.read_u8(0xFF41) & 0x03, 0x01);
    for _ in 144..153 {
        ppu.step();
        assert_eq!(ppu.read_u8(0xFF41) & 0x03, 0x01);
    }
    ppu.step();
    assert_eq!(ppu.read_u8(0xFF44), 0);
    assert_eq!(ppu.read_u8(0xFF41) & 0x03, 0x00);
}

#[test]
fn the_line_counter_is_read_only() {
    let mut ppu = Ppu::new();
    ppu.step();
    ppu.write_u8(0xFF44, 99);
    assert_eq!(ppu.read_u8(0xFF44), 1);
}

#[test]
fn registers_of_the_picture_unit() {
    let mut ppu = Ppu::new();
    for (addr, byte) in [
        (0xFF40u16, 0x91u8),
        (0xFF42, 0x12),
        (0xFF43, 0x34),
        (0xFF45, 0x56),
        (0xFF46, 0x78),
        (0xFF47, 0xE4),
        (0xFF48, 0x1B),
        (0xFF49, 0xFF),
        (0xFF4A, 0x9A),
        (0xFF4B, 0xBC),
    ] {
        ppu.write_u8(addr, byte);
        assert_eq!(ppu.read_u8(addr), byte);
    }
    ppu.write_u8(0xFF41, 0xFF);
    assert_eq!(ppu.read_u8(0xFF41), 0x78);
    ppu.write_u8(0x8123, 0x42);
    assert_eq!(ppu.read_u8(0x8123), 0x42);
    ppu.write_u8(0xFE10, 0x43);
    assert_eq!(ppu.read_u8(0xFE10), 0x43);
}

/// A picture unit with tile 1 striped in the four colors, shown in the
/// second tile of the first row of the map at 0x9800, and an identity
/// palette.
fn striped() -> Ppu {
    let mut ppu = Ppu::new();
    ppu.write_u8(0xFF40, 0x91);
    ppu.write_u8(0xFF47, 0xE4);
    for row in 0..8u16 {
        ppu.write_u8(0x8010 + 2 * row, 0b0101_0101);
        ppu.write_u8(0x8011 + 2 * row, 0b0011_0011);
    }
    ppu.write_u8(0x9801, 1);
    ppu
}

#[test]
fn a_scanline_draws_the_background() {
    let mut ppu = striped();
    assert!(ppu.step().frame.is_some());
    let frame = ppu.frame();
    assert_eq!(frame.len(), 160 * 144);
    assert_eq!(&frame[0..8], &[WHITE; 8]);
    assert_eq!(&frame[8..16], &[WHITE, LIGHT, DARK, BLACK, WHITE, LIGHT, DARK, BLACK]);
    assert_eq!(&frame[16..24], &[WHITE; 8]);
    assert!(frame[160..].iter().all(|pixel| *pixel == WHITE));
    ppu.step();
    let frame = ppu.frame();
    assert_eq!(&frame[168..176], &[WHITE, LIGHT, DARK, BLACK, WHITE, LIGHT, DARK, BLACK]);
}

#[test]
fn the_background_scrolls_vertically() {
    let mut ppu = striped();
    ppu.write_u8(0xFF42, 8);
    ppu.step();
    assert!(ppu.frame()[0..160].iter().all(|pixel| *pixel == WHITE));
    let mut ppu = striped();
    ppu.write_u8(0xFF42, 0xF8);
    ppu.step();
    assert!(ppu.frame()[0..160].iter().all(|pixel| *pixel == WHITE));
    for _ in 1..9 {
        ppu.step();
    }
    assert_eq!(ppu.frame()[8 * 160 + 9], LIGHT);
}

#[test]
fn signed_tile_numbers_and_the_second_map() {
    let mut ppu = Ppu::new();
    ppu.write_u8(0xFF40, 0x88);
    ppu.write_u8(0xFF47, 0xE4);
    ppu.write_u8(0x9C00, 0x80);
    ppu.write_u8(0x9C01, 0x7F);
    ppu.write_u8(0x8800, 0xFF);
    ppu.write_u8(0x8801, 0xFF);
    ppu.write_u8(0x97F0, 0xFF);
    ppu.write_u8(0x97F1, 0x00);
    ppu.step();
    let frame = ppu.frame();
    assert_eq!(&frame[0..8], &[BLACK; 8]);
    assert_eq!(&frame[8..16], &[LIGHT; 8]);
    let tile = ppu.get_tile(0x80);
    assert_eq!(tile.lines[0], [3; 8]);
    assert_eq!(ppu.tile_line(0), &[0x80, 0x7F, 0, 0, 0, 0, 0, 0, 0, 0, 0, 0, 0, 0, 0, 0, 0, 0, 0, 0]);
}

#[test]
fn the_picture_unit_keeps_time_in_machine_cycles() {
    let mut ppu = Ppu::new();
    for _ in 0..113 {
        let event = ppu.tick();
        assert!(event.frame.is_none() && !event.vblank);
        assert_eq!(ppu.ly(), 0);
    }
    assert!(ppu.tick().frame.is_some());
    assert_eq!(ppu.ly(), 1);
}

#[test]
fn the_vertical_blank_requests_its_interrupt() {
    let mut mmu = Mmu::new(Rom::new(vec![0; 0x8000]));
    for _ in 0..144 * 114 {
        mmu.step();
    }
    assert_eq!(mmu.read(0xFF44), 144);
    assert_eq!(mmu.read(0xFF0F) & 1, 0);
    assert!(mmu.has_frame());
    for _ in 0..114 {
        mmu.step();
    }
    assert_eq!(mmu.read(0xFF44), 145);
    assert_eq!(mmu.read(0xFF0F) & 1, 1);
    let frame = mmu.take_frame().unwrap();
    assert_eq!(frame.len(), 160 * 144);
    assert!(!mmu.has_frame());
    assert!(mmu.take_frame().is_none());
}

#[test]
fn keys_that_changed_give_events() {
    let recorded = KeyState::default();
    assert_eq!(recorded.get_events(&recorded), vec![]);
    let now = KeyState { q: true, p: false, h: true, space: false };
    assert_eq!(
        recorded.get_events(&now),
        vec![Event { kind: EventKind::KeyUp(Key::H) }, Event { kind: EventKind::KeyUp(Key::Q) }]
    );
    assert_eq!(
        now.get_events(&recorded),
        vec![Event { kind: EventKind::KeyDown(Key::H) }, Event { kind: EventKind::KeyDown(Key::Q) }]
    );
    let all = KeyState { q: true, p: true, h: true, space: true };
    assert_eq!(
        all.get_events(&recorded),
        vec![
            Event { kind: EventKind::KeyDown(Key::H) },
            Event { kind: EventKind::KeyDown(Key::Space) },
            Event { kind: EventKind::KeyDown(Key::P) },
            Event { kind: EventKind::KeyDown(Key::Q) },
        ]
    );
}

#[test]
fn the_picture_is_160_by_144() {
    let dims = Dims::default();
    assert_eq!((dims.width, dims.height), (160, 144));
}

#[test]
fn tiles_are_drawn_as_text() {
    let tile = Tile::new(&[0b1010_0000, 0b1100_0000, 0xFF, 0x00]);
    assert_eq!(tile.render(), "3 2 1 _ _ _ _ _\n1 1 1 1 1 1 1 1");
    assert_eq!(Tile::new(&[]).render(), "");
    let tile = Tile { lines: vec![[0, 9, 10, 99, 100, 255, 1, 0]] };
    assert_eq!(tile.render(), "_ 9 10 99 100 255 1 _");
}

#[test]
fn shades_convert_to_codes_and_pixels() {
    let code: u8 = Shade::DarkGray.into();
    assert_eq!(code, 2);
    assert_eq!(u8::from(Shade::White), 0);
    assert_eq!(u8::from(Shade::Black), 3);
    let pixel: u32 = Shade::Black.into();
    assert_eq!(pixel, BLACK);
    assert_eq!(u32::from(Shade::White), WHITE);
}

#[test]
fn the_bus_owns_the_picture_unit() {
    let mut mmu = Mmu::new(Rom::new(vec![0; 0x8000]));
    mmu.write(0x8000, 0x12);
    mmu.write(0xFF47, 0xE4);
    assert_eq!(mmu.ppu().read_u8(0x8000), 0x12);
    assert_eq!(mmu.ppu().read_u8(0xFF47), 0xE4);
    assert_eq!(mmu.ppu().ly(), 0);
}

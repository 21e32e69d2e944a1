use ferrum::cpu::interrupts::InterruptFlags;
use ferrum::ppu::fetcher::{Fetcher, FetcherState};
use ferrum::ppu::fifo::Fifo;
use ferrum::ppu::lcd::{Color, PpuMode};
use ferrum::ppu::{Ppu, FRAME_CYCLES, SCREEN_WIDTH};

#[test]
fn lcd_off_does_nothing() {
    let mut p = Ppu::new();
    let mut f = InterruptFlags::new();
    assert_eq!(p.cycle(10_000, &mut f), 0);
    assert_eq!(p.read8(0xFF44), 0);
    assert_eq!(p.mode, PpuMode::AccessOAM);
    assert_eq!(f.data, 0);
}

#[test]
fn lines_take_456_cycles() {
    let mut p = Ppu::new();
    let mut f = InterruptFlags::new();
    p.write8(0xFF40, 0x80);
    p.cycle(80, &mut f);
    assert_eq!(p.mode, PpuMode::AccessVRAM);
    p.cycle(172, &mut f);
    assert_eq!(p.mode, PpuMode::HBlank);
    p.cycle(204, &mut f);
    assert_eq!(p.read8(0xFF44), 1);
    assert_eq!(p.mode, PpuMode::AccessOAM);
}

#[test]
fn vblank_after_144_lines_and_frame_wraps() {
    let mut p = Ppu::new();
    let mut f = InterruptFlags::new();
    p.write8(0xFF40, 0x80);
    p.cycle(144 * 456, &mut f);
    assert_eq!(p.read8(0xFF44), 144);
    assert_eq!(p.mode, PpuMode::VBlank);
    assert_eq!(f.data & 0x01, 0x01);
    assert!(p.updated);
    p.cycle(9 * 456, &mut f);
    assert_eq!(p.read8(0xFF44), 153);
    p.cycle(456, &mut f);
    assert_eq!(p.read8(0xFF44), 0);
    assert_eq!(p.mode, PpuMode::AccessOAM);
}

#[test]
fn a_whole_frame_returns_to_the_same_point() {
    let mut p = Ppu::new();
    let mut f = InterruptFlags::new();
    p.write8(0xFF40, 0x80);
    p.cycle(12_345, &mut f);
    let (ly, mode, clock) = (p.ly, p.mode, p.clock);
    p.cycle(FRAME_CYCLES, &mut f);
    assert_eq!((p.ly, p.mode, p.clock), (ly, mode, clock));
}

#[test]
fn lyc_match_requests_stat() {
    let mut p = Ppu::new();
    let mut f = InterruptFlags::new();
    p.write8(0xFF45, 2);
    p.write8(0xFF41, 0x40);
    p.write8(0xFF40, 0x80);
    p.cycle(456, &mut f);
    assert_eq!(f.data & 0x02, 0);
    p.cycle(456, &mut f);
    assert_eq!(f.data & 0x02, 0x02);
    assert_eq!(p.read8(0xFF41) & 0x04, 0x04);
}

#[test]
fn vram_blocked_while_drawing() {
    let mut p = Ppu::new();
    let mut f = InterruptFlags::new();
    p.write8(0x8000, 0x11);
    p.write8(0xFF40, 0x80);
    p.cycle(80, &mut f);
    assert_eq!(p.read8(0x8000), 0xFF);
    p.write8(0x8000, 0x22);
    p.cycle(172, &mut f);
    assert_eq!(p.read8(0x8000), 0x11);
}

#[test]
fn background_pixels_through_palette() {
    let mut p = Ppu::new();
    let mut f = InterruptFlags::new();
    // Tile 1 (8000 method): first row, leftmost pixel colour 3, next colour 1.
    p.write8(0x8010, 0b1100_0000);
    p.write8(0x8011, 0b1000_0000);
    // Map entry (0,0) uses tile 1.
    p.write8(0x9800, 0x01);
    // Palette: colour 3 -> shade 3, colour 1 -> shade 2, colour 0 -> shade 0.
    p.write8(0xFF47, 0b1110_1000);
    p.write8(0xFF40, 0x91);
    p.cycle(80 + 172, &mut f);
    assert_eq!(p.buffer[0], 3);
    assert_eq!(p.buffer[1], 2);
    assert_eq!(p.buffer[2], 0);
    assert_eq!(p.buffer[SCREEN_WIDTH], 0);
}

#[test]
fn sprite_draws_over_background() {
    let mut p = Ppu::new();
    let mut f = InterruptFlags::new();
    // Tile 2: first row all colour 1.
    p.write8(0x8020, 0xFF);
    // Sprite 0 at screen (4, 0), tile 2.
    p.write8(0xFE00, 16);
    p.write8(0xFE01, 12);
    p.write8(0xFE02, 2);
    p.write8(0xFE03, 0);
    p.write8(0xFF48, 0b0000_1100);
    p.write8(0xFF40, 0x93);
    p.cycle(80 + 172, &mut f);
    assert_eq!(p.buffer[3], 0);
    assert_eq!(p.buffer[4], 3);
    assert_eq!(p.buffer[11], 3);
    assert_eq!(p.buffer[12], 0);
}

#[test]
fn colours_map_to_greys() {
    assert_eq!(Color::from_u8(0).to_u32(), 0x00FF_FFFF);
    assert_eq!(Color::from_u8(3).to_u32(), 0);
    assert_eq!(Color::from_u8(2), Color::DarkGray);
}

#[test]
fn fifo_is_first_in_first_out() {
    let mut q = Fifo::new();
    for v in 0..16u8 {
        q.push(v);
    }
    assert_eq!(q.size(), 16);
    assert_eq!(q.pop(), 0);
    q.push(16);
    for v in 1..17u8 {
        assert_eq!(q.pop(), v);
    }
    assert_eq!(q.size(), 0);
    q.push(5);
    q.clear();
    assert_eq!(q.size(), 0);
}

#[test]
fn fetcher_pushes_a_tile_row() {
    let mut vram = vec![0u8; 0x2000];
    vram[0x1800] = 1;
    vram[0x10] = 0b1000_0001;
    vram[0x11] = 0b1000_0000;
    let mut fe = Fetcher::new();
    fe.start(0x1800, 0);
    for _ in 0..8 {
        fe.tick(&vram);
    }
    assert_eq!(fe.state, FetcherState::ReadTileId);
    assert_eq!(fe.tile_id, 1);
    assert_eq!(fe.fifo.size(), 8);
    assert_eq!(fe.fifo.pop(), 3);
    for _ in 0..6 {
        assert_eq!(fe.fifo.pop(), 0);
    }
    assert_eq!(fe.fifo.pop(), 1);
}

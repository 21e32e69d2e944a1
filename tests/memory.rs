use ferrum::cartridge::mbc1::Mbc1;
use ferrum::cartridge::{Cartridge, CartridgeError, CartridgeType, RamSize};
use ferrum::cpu::interrupts::{Flags, InterruptFlags};
use ferrum::mmu::Mmu;
use ferrum::timer::clock::Clock;
use ferrum::timer::Timer;

fn rom_only() -> Cartridge {
    let mut rom = vec![0u8; 0x8000];
    rom[0x134] = b'T';
    rom[0x135] = b'E';
    rom[0x136] = b'T';
    rom[0x137] = b'R';
    rom[0x138] = b'I';
    rom[0x139] = b'S';
    Cartridge::new(rom).unwrap()
}

fn mmu() -> Mmu {
    Mmu::new(rom_only(), Vec::new())
}

/// An MBC1 image of `banks` 16 KiB banks, each starting with its number.
fn banked_rom(banks: usize) -> Vec<u8> {
    let mut rom = vec![0u8; banks * 0x4000];
    for b in 0..banks {
        rom[b * 0x4000] = b as u8;
    }
    rom[0x147] = 0x03;
    rom[0x149] = 0x03;
    rom
}

#[test]
fn word_round_trip_in_ram() {
    let mut m = mmu();
    for addr in [0xC000u16, 0xCFFF, 0xDFFE, 0xFF80, 0xFFFD] {
        m.write16(addr, 0xBEEF);
        assert_eq!(m.read16(addr), 0xBEEF);
        assert_eq!(m.read8(addr), 0xEF);
        assert_eq!(m.read8(addr.wrapping_add(1)), 0xBE);
    }
}

#[test]
fn echo_ram_mirrors_work_ram() {
    let mut m = mmu();
    m.write8(0xC123, 0x5A);
    assert_eq!(m.read8(0xE123), 0x5A);
    m.write8(0xF456, 0xA5);
    assert_eq!(m.read8(0xD456), 0xA5);
}

#[test]
fn prohibited_range_reads_zero_and_ignores_writes() {
    let mut m = mmu();
    m.write8(0xFEA0, 0x12);
    assert_eq!(m.read8(0xFEA0), 0x00);
    assert_eq!(m.read8(0xFEFF), 0x00);
}

#[test]
fn rom_ignores_writes() {
    let mut m = mmu();
    let before = m.read8(0x0134);
    m.write8(0x0134, 0xAA);
    assert_eq!(m.read8(0x0134), before);
    assert_eq!(m.read8(0xA000), 0xFF);
}

#[test]
fn title_is_read_from_header() {
    let m = mmu();
    assert_eq!(m.rom_title(), "TETRIS");
}

#[test]
fn serial_port_collects_bytes() {
    let mut m = mmu();
    m.write8(0xFF01, b'o');
    m.write8(0xFF02, 0x81);
    m.write8(0xFF01, b'k');
    m.write8(0xFF02, 0x81);
    assert_eq!(m.take_serial(), b"ok".to_vec());
    assert!(m.take_serial().is_empty());
}

#[test]
fn cartridge_errors() {
    assert_eq!(Cartridge::new(vec![0u8; 0x100]).err(), Some(CartridgeError::TooShort));
    let mut rom = vec![0u8; 0x8000];
    rom[0x147] = 0x05;
    assert_eq!(Cartridge::new(rom).err(), Some(CartridgeError::UnsupportedMapper(0x05)));
    let mut rom = vec![0u8; 0x8000];
    rom[0x147] = 0x04;
    assert_eq!(Cartridge::new(rom).err(), Some(CartridgeError::UnsupportedMapper(0x04)));
}

#[test]
fn header_codes() {
    assert_eq!(CartridgeType::from_u8(0x01), Some(CartridgeType::Mbc1));
    assert_eq!(CartridgeType::from_u8(0xFF), Some(CartridgeType::HuC1RamBattery));
    assert_eq!(CartridgeType::from_u8(0x04), None);
    assert_eq!(RamSize::from_u8(0x03).unwrap().bytes(), 0x8000);
    assert!(RamSize::from_u8(0x06).is_none());
}

#[test]
fn mbc1_bank_zero_selects_bank_one() {
    let mut c = Cartridge::new(banked_rom(0x22)).unwrap();
    c.write8(0x2000, 0x05);
    assert_eq!(c.read8(0x4000), 0x05);
    c.write8(0x2000, 0x00);
    assert_eq!(c.read8(0x4000), 0x01);
    c.write8(0x2000, 0x20);
    assert_eq!(c.read8(0x4000), 0x01);
}

#[test]
fn mbc1_high_bits_skip_bank_0x20() {
    let mut c = Cartridge::new(banked_rom(0x22)).unwrap();
    c.write8(0x4000, 0x01);
    c.write8(0x2000, 0x00);
    assert_eq!(c.read8(0x4000), 0x21);
    c.write8(0x2000, 0x20);
    assert_eq!(c.read8(0x4000), 0x21);
}

#[test]
fn mbc1_bank_register_values() {
    let mut m = Mbc1::new(banked_rom(4), vec![0u8; 0x8000]);
    assert_eq!(m.rom_bank(), 1);
    m.write8(0x2000, 0x00);
    assert_eq!(m.rom_bank(), 1);
    m.write8(0x4000, 0x02);
    assert_eq!(m.rom_bank(), 0x41);
    assert_eq!(m.ram_bank(), 0);
    m.write8(0x6000, 0x01);
    assert_eq!(m.rom_bank(), 0x01);
    assert_eq!(m.ram_bank(), 2);
    m.write8(0x6000, 0x07);
    assert_eq!(m.ram_bank(), 2);
}

#[test]
fn mbc1_ram_needs_enabling() {
    let mut c = Cartridge::new(banked_rom(4)).unwrap();
    c.write8(0xA000, 0x12);
    assert_eq!(c.read8(0xA000), 0xFF);
    c.write8(0x0000, 0x1A);
    c.write8(0xA000, 0x12);
    assert_eq!(c.read8(0xA000), 0x12);
    c.write8(0x0000, 0x00);
    assert_eq!(c.read8(0xA000), 0xFF);
}

#[test]
fn interrupt_flags_set_bits() {
    let mut f = InterruptFlags::new();
    f.set(Flags::Timer);
    f.set(Flags::VBlank);
    assert_eq!(f.data, 0x05);
    f.set(Flags::Joypad);
    assert_eq!(f.data, 0x15);
}

#[test]
fn clock_counts_periods() {
    let mut c = Clock::new(16);
    assert_eq!(c.cycle(40), 2);
    assert_eq!(c.n, 8);
    assert_eq!(c.cycle(8), 1);
    assert_eq!(c.n, 0);
}

#[test]
fn div_counts_every_256_cycles_and_resets() {
    let mut t = Timer::new();
    let mut f = InterruptFlags::new();
    t.cycle(255, &mut f);
    assert_eq!(t.get(0xFF04), 0);
    t.cycle(1, &mut f);
    assert_eq!(t.get(0xFF04), 1);
    t.cycle(512, &mut f);
    assert_eq!(t.get(0xFF04), 3);
    t.set(0xFF04, 0x77);
    assert_eq!(t.get(0xFF04), 0);
}

#[test]
fn tima_overflow_reloads_and_requests_interrupt() {
    let mut t = Timer::new();
    let mut f = InterruptFlags::new();
    t.set(0xFF06, 0xF0);
    t.set(0xFF05, 0xFE);
    t.set(0xFF07, 0x05);
    t.cycle(16, &mut f);
    assert_eq!(t.get(0xFF05), 0xFF);
    assert_eq!(f.data, 0);
    t.cycle(16, &mut f);
    assert_eq!(t.get(0xFF05), 0xF0);
    assert_eq!(f.data, 0x04);
}

#[test]
fn tima_stops_while_disabled() {
    let mut t = Timer::new();
    let mut f = InterruptFlags::new();
    t.set(0xFF07, 0x01);
    t.cycle(64, &mut f);
    assert_eq!(t.get(0xFF05), 0);
}

#[test]
fn changing_clock_select_reloads_tima() {
    let mut t = Timer::new();
    t.set(0xFF07, 0x04);
    t.set(0xFF06, 0x33);
    t.set(0xFF07, 0x06);
    assert_eq!(t.get(0xFF05), 0x33);
    assert_eq!(t.tima_clock.period, 64);
}

#[test]
fn timer_registers_through_memory_map() {
    let mut m = mmu();
    m.write8(0xFF06, 0x42);
    assert_eq!(m.read8(0xFF06), 0x42);
    m.write8(0xFF0F, 0x00);
    m.write8(0xFF05, 0xFF);
    m.write8(0xFF07, 0x05);
    assert_eq!(m.cycle(16), 16);
    assert_eq!(m.read8(0xFF05), 0x42);
    assert_eq!(m.read8(0xFF0F) & 0x04, 0x04);
}

#[test]
fn header_lookups_through_cartridge() {
    let c = Cartridge::new(banked_rom(4)).unwrap();
    assert_eq!(c.mbc(), Some(CartridgeType::Mbc1RamBattery));
    assert_eq!(c.ram_size().unwrap().bytes(), 0x8000);
    let r = rom_only();
    assert_eq!(r.mbc(), Some(CartridgeType::RomOnly));
    assert_eq!(r.title(), "TETRIS");
}

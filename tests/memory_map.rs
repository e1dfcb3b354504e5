use rustyboy::cartridge::Cartridge;
use rustyboy::error::EmuError;
use rustyboy::memory::MemoryBus;

fn image(kind: u8, banks: usize) -> Vec<u8> {
    let mut rom = vec![0u8; banks * 0x4000];
    rom[0x0147] = kind;
    for bank in 0..banks {
        rom[bank * 0x4000] = bank as u8;
    }
    rom
}

#[test]
fn mbc3_ram_enable_and_persist() {
    let mut cart = Cartridge::new(image(0x13, 4));
    assert_eq!(cart.read_byte(0xA000), 0xFF);
    assert_eq!(cart.write_byte(0xA000, 0x55), Ok(()));
    assert_eq!(cart.write_byte(0x0000, 0x0A), Ok(()));
    assert_eq!(cart.read_byte(0xA000), 0x00);
    assert_eq!(cart.write_byte(0xA000, 0x55), Ok(()));
    assert_eq!(cart.write_byte(0xBFFF, 0x66), Ok(()));
    assert_eq!(cart.read_byte(0xA000), 0x55);
    assert_eq!(cart.read_byte(0xBFFF), 0x66);
}

#[test]
fn mbc3_ram_banks_are_separate() {
    let mut cart = Cartridge::new(image(0x13, 4));
    cart.write_byte(0x0000, 0x0A).unwrap();
    cart.write_byte(0xA010, 0x11).unwrap();
    cart.write_byte(0x4000, 0x02).unwrap();
    assert_eq!(cart.read_byte(0xA010), 0x00);
    cart.write_byte(0xA010, 0x22).unwrap();
    cart.write_byte(0x4000, 0x00).unwrap();
    assert_eq!(cart.read_byte(0xA010), 0x11);
    cart.write_byte(0x0000, 0x00).unwrap();
    assert_eq!(cart.read_byte(0xA010), 0xFF);
}

#[test]
fn mbc3_rom_bank_zero_maps_bank_one() {
    let mut cart = Cartridge::new(image(0x11, 4));
    assert_eq!(cart.read_byte(0x4000), 1);
    cart.write_byte(0x2000, 3).unwrap();
    assert_eq!(cart.read_byte(0x4000), 3);
    cart.write_byte(0x2000, 0).unwrap();
    assert_eq!(cart.read_byte(0x4000), 1);
    cart.write_byte(0x2000, 0x82).unwrap();
    assert_eq!(cart.read_byte(0x4000), 2);
    assert_eq!(cart.read_byte(0x0000), 0);
}

#[test]
fn mbc5_nine_bit_bank() {
    let mut rom = image(0x19, 0x106);
    rom[0x105 * 0x4000] = 0xAB;
    rom[0x105 * 0x4000 + 0x3FFF] = 0xCD;
    let mut cart = Cartridge::new(rom);
    assert_eq!(cart.write_byte(0x2000, 0x05), Ok(()));
    assert_eq!(cart.read_byte(0x4000), 5);
    assert_eq!(cart.write_byte(0x3000, 0x01), Ok(()));
    assert_eq!(cart.read_byte(0x4000), 0xAB);
    assert_eq!(cart.read_byte(0x7FFF), 0xCD);
}

#[test]
fn mbc2_ram_toggle_and_bank_select() {
    let mut cart = Cartridge::new(image(0x05, 8));
    assert_eq!(cart.write_byte(0x0000, 0x00), Ok(()));
    cart.write_byte(0xA000, 0x77).unwrap();
    assert_eq!(cart.read_byte(0xA000), 0x77);
    assert_eq!(cart.write_byte(0x0100, 0x00), Ok(()));
    assert_eq!(cart.read_byte(0xA000), 0xFF);
    assert_eq!(cart.write_byte(0x2100, 0x17), Ok(()));
    assert_eq!(cart.read_byte(0x4000), 7);
    assert_eq!(cart.write_byte(0x2000, 0x03), Err(EmuError::ReadOnlyWrite { addr: 0x2000, val: 0x03 }));
}

#[test]
fn rom_bank_past_image_is_reported() {
    let mut cart = Cartridge::new(image(0x13, 4));
    assert_eq!(cart.write_byte(0x2000, 0x04), Err(EmuError::RomBankOutOfRange { offset: 0x10000 }));
}

#[test]
fn ram_bank_select_uses_low_four_bits() {
    let mut cart = Cartridge::new(image(0x1A, 4));
    cart.write_byte(0x0000, 0x0A).unwrap();
    assert_eq!(cart.write_byte(0x4000, 0x02), Ok(()));
    cart.write_byte(0xA000, 0x5A).unwrap();
    assert_eq!(cart.write_byte(0x4000, 0x00), Ok(()));
    assert_eq!(cart.read_byte(0xA000), 0x00);
    assert_eq!(cart.write_byte(0x4000, 0x12), Ok(()));
    assert_eq!(cart.read_byte(0xA000), 0x5A);
    let mut mbc3 = Cartridge::new(image(0x13, 4));
    assert_eq!(mbc3.write_byte(0x4000, 0x10), Ok(()));
    assert_eq!(mbc3.write_byte(0x7FFF, 0xFF), Ok(()));
}

#[test]
fn controller_write_outside_windows_is_reported() {
    let mut cart = Cartridge::new(image(0x1B, 4));
    assert_eq!(cart.write_byte(0x6000, 0x01), Err(EmuError::ReadOnlyWrite { addr: 0x6000, val: 0x01 }));
}

#[test]
fn mbc1_and_no_controller_writes_are_reported() {
    let mut mbc1 = Cartridge::new(image(0x01, 4));
    assert_eq!(mbc1.write_byte(0x2000, 0x01), Err(EmuError::NoBankController { addr: 0x2000, val: 0x01 }));
    assert_eq!(mbc1.write_byte(0xA000, 0x01), Err(EmuError::NoBankController { addr: 0xA000, val: 0x01 }));
    let mut plain = Cartridge::new(image(0x00, 2));
    assert_eq!(plain.write_byte(0xA000, 0x01), Err(EmuError::NoBankController { addr: 0xA000, val: 0x01 }));
}

#[test]
fn short_image_reads_open_bus() {
    let cart = Cartridge::new(vec![0xC3, 0x50]);
    assert_eq!(cart.read_byte(0x0000), 0xC3);
    assert_eq!(cart.read_byte(0x0002), 0xFF);
    assert_eq!(cart.read_byte(0x4000), 0xFF);
}

#[test]
fn bus_routes_every_region() {
    let mut bus = MemoryBus::new();
    for &(addr, val) in &[(0x8000u16, 1u8), (0x9FFF, 2), (0xC000, 3), (0xFE00, 4), (0xFE9F, 5), (0xFF00, 6), (0xFF7F, 7), (0xFF80, 8), (0xFFFE, 9), (0xFFFF, 10)] {
        assert_eq!(bus.write_byte(addr, val), Ok(()));
        assert_eq!(bus.read_byte(addr), val);
    }
}

#[test]
fn echo_ram_mirrors_work_ram() {
    let mut bus = MemoryBus::new();
    bus.write_byte(0xC123, 0x42).unwrap();
    assert_eq!(bus.read_byte(0xE123), 0x42);
    bus.write_byte(0xFDFF, 0x24).unwrap();
    assert_eq!(bus.read_byte(0xDDFF), 0x24);
}

#[test]
fn unusable_region_reads_zero() {
    let mut bus = MemoryBus::new();
    assert_eq!(bus.write_byte(0xFEA0, 0x99), Ok(()));
    assert_eq!(bus.read_byte(0xFEA0), 0);
    assert_eq!(bus.read_byte(0xFEFF), 0);
}

#[test]
fn bus_words_are_little_endian() {
    let mut bus = MemoryBus::new();
    assert_eq!(bus.write_word(0xC000, 0xA1B2), Ok(()));
    assert_eq!(bus.read_byte(0xC000), 0xB2);
    assert_eq!(bus.read_byte(0xC001), 0xA1);
    assert_eq!(bus.read_word(0xC000), 0xA1B2);
}

#[test]
fn bus_over_cartridge() {
    let mut bus = MemoryBus::with_cartridge(Cartridge::new(image(0x13, 4)));
    assert_eq!(bus.read_byte(0x4000), 1);
    bus.write_byte(0x2000, 2).unwrap();
    assert_eq!(bus.read_byte(0x4000), 2);
    bus.write_byte(0x0000, 0x0A).unwrap();
    bus.write_byte(0xA000, 0x31).unwrap();
    assert_eq!(bus.read_byte(0xA000), 0x31);
}

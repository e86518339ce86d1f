//! The memory bus policy and the raw cartridge buffer.

use lr35902::bus::Bus;
use lr35902::rom::Rom;

#[test]
fn rom_get_and_set_byte() {
    let mut rom = Rom::new(vec![1, 2, 3, 4]);
    assert_eq!(rom.get_byte(0), 1);
    assert_eq!(rom.get_byte(3), 4);
    rom.set_byte(1, 0x99);
    assert_eq!(rom.get_byte(1), 0x99);
}

#[test]
fn bus_backs_the_whole_address_space() {
    let bus = Bus::new(Rom::new(vec![0xAA, 0xBB]));
    assert_eq!(bus.read_byte(0x0000), 0xAA);
    assert_eq!(bus.read_byte(0x0001), 0xBB);
    assert_eq!(bus.read_byte(0x0002), 0xFF, "past the image reads the unmapped sentinel");
    assert_eq!(bus.read_byte(0xFFFF), 0xFF);
}

#[test]
fn writes_to_the_cartridge_region_are_ignored() {
    let mut bus = Bus::new(Rom::new(vec![0x11; 0x8000]));
    bus.write_byte(0x0100, 0x55);
    assert_eq!(bus.read_byte(0x0100), 0x11);
    bus.write_byte(0x7FFF, 0x55);
    assert_eq!(bus.read_byte(0x7FFF), 0x11);
}

#[test]
fn writes_from_the_ram_region_up_are_stored() {
    let mut bus = Bus::new(Rom::new(vec![]));
    bus.write_byte(0x8000, 0x12);
    bus.write_byte(0xC000, 0x34);
    bus.write_byte(0xFFFF, 0x56);
    assert_eq!(bus.read_byte(0x8000), 0x12);
    assert_eq!(bus.read_byte(0xC000), 0x34);
    assert_eq!(bus.read_byte(0xFFFF), 0x56);
}

#[test]
fn an_image_longer_than_the_address_space_is_truncated() {
    let mut raw = vec![0u8; 0x11000];
    raw[0xFFFF] = 0x42;
    raw[0x10000] = 0x77;
    let bus = Bus::new(Rom::new(raw));
    assert_eq!(bus.read_byte(0xFFFF), 0x42);
}

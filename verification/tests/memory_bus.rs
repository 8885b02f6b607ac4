use sm83_core::bus::{MemoryBus, MAX_ROM_SIZE};

#[test]
fn every_address_decodes_and_reads_without_failing() {
    let bus = MemoryBus::new();
    for addr in 0..=0xFFFFu16 {
        let v = bus.read(addr);
        // Backed regions are zeroed at construction; unbacked ones are open
        // bus (0xFF).
        let open_bus = (0xA000..0xC000).contains(&addr) || (0xFEA0..0xFF00).contains(&addr)
            || (0xFF00..0xFF80).contains(&addr);
        assert_eq!(v, if open_bus { 0xFF } else { 0x00 });
    }
}

#[test]
fn echo_region_aliases_wram_in_both_directions() {
    let mut bus = MemoryBus::new();
    for a in 0xE000..=0xFDFFu16 {
        let v = (a % 251) as u8;
        bus.write(a, v);
        assert_eq!(bus.read(a - 0x2000), v);
        bus.write(a - 0x2000, v.wrapping_add(1));
        assert_eq!(bus.read(a), v.wrapping_add(1));
    }
}

#[test]
fn unusable_region_reads_fixed_value_and_discards_writes() {
    let mut bus = MemoryBus::new();
    assert_eq!(bus.read(0xFEA0), 0xFF);
    bus.write(0xFEA0, 0x00);
    assert_eq!(bus.read(0xFEA0), 0xFF);
}

#[test]
fn external_ram_and_io_ports_are_open_bus() {
    let mut bus = MemoryBus::new();
    bus.write(0xA123, 0x42);
    assert_eq!(bus.read(0xA123), 0xFF);
    bus.write(0xFF42, 0x42);
    assert_eq!(bus.read(0xFF42), 0xFF);
}

#[test]
fn rom_region_discards_cpu_writes() {
    let mut bus = MemoryBus::new();
    bus.write(0x0000, 0x42);
    bus.write(0x4000, 0x42);
    assert_eq!(bus.read(0x0000), 0x00);
    assert_eq!(bus.read(0x4000), 0x00);
}

#[test]
fn oam_hram_and_interrupt_enable_are_readable_and_writable() {
    let mut bus = MemoryBus::new();
    bus.write(0xFE00, 0x11);
    bus.write(0xFE9F, 0x22);
    assert_eq!(bus.read(0xFE00), 0x11);
    assert_eq!(bus.read(0xFE9F), 0x22);
    bus.write(0xFF80, 0x33);
    bus.write(0xFFFE, 0x44);
    assert_eq!(bus.read(0xFF80), 0x33);
    assert_eq!(bus.read(0xFFFE), 0x44);
    bus.write(0xFFFF, 0x55);
    assert_eq!(bus.read(0xFFFF), 0x55);
}

#[test]
fn rom_bank_selector_picks_the_window_at_0x4000() {
    let mut bus = MemoryBus::new();
    let mut image = vec![0u8; 0x8001];
    image[0x0000] = 0x10;
    image[0x4000] = 0x11;
    image[0x8000] = 0x12;
    bus.load_rom(&image).unwrap();
    // Bank 1 is selected at construction.
    assert_eq!(bus.read(0x0000), 0x10);
    assert_eq!(bus.read(0x4000), 0x11);
    assert!(bus.set_rom_bank(2));
    assert_eq!(bus.read(0x4000), 0x12);
    assert!(bus.set_rom_bank(0));
    assert_eq!(bus.read(0x4000), 0x10);
    assert!(!bus.set_rom_bank(0x200));
    assert_eq!(bus.read(0x4000), 0x10);
}

#[test]
fn wram_bank_selector_picks_the_window_at_0xd000() {
    let mut bus = MemoryBus::new();
    bus.write(0xD000, 0xA1);
    assert!(bus.set_wram_bank(2));
    assert_eq!(bus.read(0xD000), 0x00);
    bus.write(0xD000, 0xA2);
    assert!(bus.set_wram_bank(1));
    assert_eq!(bus.read(0xD000), 0xA1);
    // Bank 0 is fixed at 0xC000 and cannot be selected here; 8 is out of
    // range.
    assert!(!bus.set_wram_bank(0));
    assert!(!bus.set_wram_bank(8));
    assert_eq!(bus.read(0xD000), 0xA1);
}

#[test]
fn vram_bank_selector_picks_the_window_at_0x8000() {
    let mut bus = MemoryBus::new();
    bus.write(0x9FFF, 0xB1);
    assert!(bus.set_vram_bank(1));
    assert_eq!(bus.read(0x9FFF), 0x00);
    bus.write(0x9FFF, 0xB2);
    assert!(bus.set_vram_bank(0));
    assert_eq!(bus.read(0x9FFF), 0xB1);
    assert!(!bus.set_vram_bank(2));
}

#[test]
fn bus_load_rom_rejects_an_oversized_image() {
    let mut bus = MemoryBus::new();
    let image = vec![0x42u8; MAX_ROM_SIZE + 1];
    assert!(bus.load_rom(&image).is_err());
    assert_eq!(bus.read(0x0000), 0x00);
}

#[test]
fn bus_load_rom_accepts_an_image_of_the_full_capacity() {
    let mut bus = MemoryBus::new();
    let mut image = vec![0u8; MAX_ROM_SIZE];
    image[MAX_ROM_SIZE - 1] = 0x99;
    bus.load_rom(&image).unwrap();
    assert!(bus.set_rom_bank(0x1FF));
    assert_eq!(bus.read(0x7FFF), 0x99);
}

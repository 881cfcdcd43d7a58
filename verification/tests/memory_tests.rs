use gbcore::memory::MemoryBank;
use gbcore::memory::MemoryError;
use gbcore::memory::MemoryMapping;
use gbcore::memory::PagedMemoryBank;
use gbcore::memory::ROM_PAGE_SIZE;

#[test]
fn test_bank_write_read8() {
    let mut bank = MemoryBank::new(100);
    bank.write(5, 123).unwrap();
    assert_eq!(bank.read8(5).unwrap(), 123);
}

#[test]
fn test_bank_starts_zero_filled() {
    let bank = MemoryBank::new(100);
    assert_eq!(bank.read8(0).unwrap(), 0);
    assert_eq!(bank.read8(99).unwrap(), 0);
}

#[test]
fn test_bank_write_out_of_bounds() {
    let mut bank = MemoryBank::new(100);
    assert_eq!(bank.write(100, 0), Err(MemoryError::OutOfBounds));
    // The failed write changed nothing.
    assert_eq!(bank.read8(99).unwrap(), 0);
}

#[test]
fn test_bank_read_out_of_bounds() {
    let bank = MemoryBank::new(100);
    assert_eq!(bank.read8(100), Err(MemoryError::OutOfBounds));
}

#[test]
fn test_paged_bank_write_read8() {
    let mut bank = PagedMemoryBank::new(100, 5);
    bank.get_page_mut(4).unwrap().write(5, 123).unwrap();
    bank.get_page_mut(3).unwrap().write(3, 1).unwrap();
    assert_eq!(bank.get_page(4).unwrap().read8(5).unwrap(), 123);
    assert_eq!(bank.get_page(3).unwrap().read8(3).unwrap(), 1);
}

#[test]
fn test_paged_bank_page_out_of_range() {
    let mut bank = PagedMemoryBank::new(100, 5);
    assert!(bank.get_page(4).is_ok());
    assert!(matches!(bank.get_page(5), Err(MemoryError::PageOutOfRange)));
    assert!(matches!(bank.get_page(100), Err(MemoryError::PageOutOfRange)));
    assert!(matches!(
        bank.get_page_mut(5),
        Err(MemoryError::PageOutOfRange)
    ));
}

#[test]
fn test_load_rom() {
    const NUM_PAGES: usize = 4;
    const ADDRESS_OFFSET: usize = 50;
    let mut bytes = vec![1; ROM_PAGE_SIZE * NUM_PAGES];
    bytes[ADDRESS_OFFSET] = 2;
    bytes[ROM_PAGE_SIZE + ADDRESS_OFFSET] = 3;
    bytes[ROM_PAGE_SIZE * 2 + ADDRESS_OFFSET] = 4;

    let mut mapping = MemoryMapping::new();
    mapping.load_rom(bytes);
    // The switchable bank holds NUM_PAGES - 1 pages: the last index is
    // valid and the next one is not.
    assert!(mapping.get_bank(0x4000, NUM_PAGES - 2).is_ok());
    assert_eq!(
        mapping.read8(0x4000, NUM_PAGES - 1),
        Err(MemoryError::PageOutOfRange)
    );
    assert_eq!(mapping.read8(ADDRESS_OFFSET as u16, 0).unwrap(), 2);
    assert_eq!(mapping.read8(0x4000 + ADDRESS_OFFSET as u16, 0).unwrap(), 3);
    assert_eq!(mapping.read8(0x4000 + ADDRESS_OFFSET as u16, 1).unwrap(), 4);
}

#[test]
fn test_load_rom_short_image_single_page() {
    let mut mapping = MemoryMapping::new();
    mapping.load_rom(vec![7; 100]);
    assert_eq!(mapping.read8(0, 0).unwrap(), 7);
    assert_eq!(mapping.read8(99, 0).unwrap(), 7);
    // Bytes past the image stay zero in the final partial page.
    assert_eq!(mapping.read8(100, 0).unwrap(), 0);
    // One page in total means no switchable page at all.
    assert_eq!(mapping.read8(0x4000, 0), Err(MemoryError::PageOutOfRange));
}

#[test]
fn test_load_rom_partial_second_page() {
    let mut bytes = vec![9; ROM_PAGE_SIZE + 10];
    bytes[ROM_PAGE_SIZE + 5] = 42;
    let mut mapping = MemoryMapping::new();
    mapping.load_rom(bytes);
    assert_eq!(mapping.read8(0x4000 + 5, 0).unwrap(), 42);
    assert_eq!(mapping.read8(0x4000 + 9, 0).unwrap(), 9);
    // The partial page is zero past the image's end.
    assert_eq!(mapping.read8(0x4000 + 10, 0).unwrap(), 0);
    assert_eq!(mapping.read8(0x4000, 1), Err(MemoryError::PageOutOfRange));
}

#[test]
fn test_mapping_write_then_read_each_region() {
    let mut mapping = MemoryMapping::new();
    // Fixed ROM window, video RAM, cartridge RAM, fixed work RAM.
    for &addr in &[0x0000u16, 0x8000, 0x9FFF, 0xA000, 0xBFFF, 0xC000, 0xCFFF] {
        mapping.write(addr, 0, 0x5A).unwrap();
        assert_eq!(mapping.read8(addr, 0).unwrap(), 0x5A);
    }
    // Writes land at region-relative offsets: the same offset in another
    // region stays untouched.
    mapping.write(0x8000, 0, 0x11).unwrap();
    assert_eq!(mapping.read8(0xA000, 0).unwrap(), 0x5A);
}

#[test]
fn test_mapping_work_ram_pages_independent() {
    let mut mapping = MemoryMapping::new();
    mapping.write(0xD000, 3, 9).unwrap();
    assert_eq!(mapping.read8(0xD000, 3).unwrap(), 9);
    assert_eq!(mapping.read8(0xD000, 2).unwrap(), 0);
    // Seven switchable work RAM pages: index 7 is out of range.
    assert_eq!(mapping.read8(0xD000, 6).unwrap(), 0);
    assert_eq!(mapping.read8(0xD000, 7), Err(MemoryError::PageOutOfRange));
    assert_eq!(
        mapping.write(0xD000, 7, 1),
        Err(MemoryError::PageOutOfRange)
    );
}

#[test]
fn test_mapping_unmapped_addresses() {
    let mut mapping = MemoryMapping::new();
    assert_eq!(mapping.read8(0xE000, 0), Err(MemoryError::AddressOutOfRange));
    assert_eq!(mapping.read8(0xFFFF, 0), Err(MemoryError::AddressOutOfRange));
    assert_eq!(
        mapping.write(0xE000, 0, 1),
        Err(MemoryError::AddressOutOfRange)
    );
    assert_eq!(
        mapping.read16(0xFF00, 0),
        Err(MemoryError::AddressOutOfRange)
    );
}

#[test]
fn test_read16_little_endian_composition() {
    let mut mapping = MemoryMapping::new();
    mapping.write(0xC000, 0, 0x34).unwrap();
    mapping.write(0xC001, 0, 0x12).unwrap();
    let word = mapping.read16(0xC000, 0).unwrap();
    assert_eq!(word, 0x1234);
    let low = mapping.read8(0xC000, 0).unwrap() as u16;
    let high = mapping.read8(0xC001, 0).unwrap() as u16;
    assert_eq!(word, low | (high << 8));
}

#[test]
fn test_read16_rejects_region_straddle() {
    let mapping = MemoryMapping::new();
    // The last byte of a region has no second byte in the same region.
    assert_eq!(mapping.read16(0x3FFF, 0), Err(MemoryError::OutOfBounds));
    assert_eq!(mapping.read16(0x9FFF, 0), Err(MemoryError::OutOfBounds));
    assert!(mapping.read16(0x3FFE, 0).is_ok());
}

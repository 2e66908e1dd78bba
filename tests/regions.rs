use gb_link::mmap::{classify, BlockName, IoRegister, MemoryMap, RegionId};
use gb_link::Gameboy;

#[test]
fn classify_region_starts() {
    assert_eq!(classify(0x0000), Some((RegionId::Rom0, 0x4000, true)));
    assert_eq!(classify(0x8000), Some((RegionId::Vram, 0x2000, true)));
    assert_eq!(classify(0xFFFF), Some((RegionId::Ie, 1, true)));
    assert_eq!(classify(0xE000), Some((RegionId::Echo, 0x1E00, true)));
    assert_eq!(classify(0xFF80), Some((RegionId::Hram, 0x7F, true)));
}

#[test]
fn classify_inside_a_region() {
    assert_eq!(classify(0x8001), Some((RegionId::Vram, 0x2000, false)));
    assert_eq!(classify(0xFF01), Some((RegionId::Io, 0x80, false)));
    assert_eq!(classify(0xFEFF), Some((RegionId::Reserved, 0x60, false)));
}

#[test]
fn classify_past_the_end() {
    assert_eq!(classify(0x10000), None);
}

#[test]
fn region_and_io_tables() {
    let mmap = MemoryMap::new();
    assert_eq!(mmap.region_at(0xA000), Some(RegionId::Exram));
    assert_eq!(mmap.region_at(0xA001), None);
    assert_eq!(mmap.io_range_at(0xFF01), Some(IoRegister::Serial));
    assert_eq!(mmap.io_range_at(0xFF03), None);
    assert_eq!(mmap.block_at(0xFF00), Some(BlockName::Region(RegionId::Io)));
    assert_eq!(mmap.block_at(0xFF70), Some(BlockName::Io(IoRegister::WramBankSelect)));
    assert_eq!(RegionId::Oam.size(), 0xA0);
    assert_eq!(IoRegister::Audio.size(), 0x17);
}

#[test]
fn dump_lists_blocks_in_address_order() {
    let gb = Gameboy::new();
    let blocks = gb.dump_memory();
    let names: Vec<BlockName> = blocks.iter().map(|b| b.name).collect();
    let expected = vec![
        BlockName::Region(RegionId::Rom0),
        BlockName::Region(RegionId::Rom1),
        BlockName::Region(RegionId::Vram),
        BlockName::Region(RegionId::Exram),
        BlockName::Region(RegionId::Wram),
        BlockName::Region(RegionId::Echo),
        BlockName::Region(RegionId::Oam),
        BlockName::Region(RegionId::Reserved),
        BlockName::Region(RegionId::Io),
        BlockName::Io(IoRegister::Serial),
        BlockName::Io(IoRegister::Timer),
        BlockName::Io(IoRegister::Interrupts),
        BlockName::Io(IoRegister::Audio),
        BlockName::Io(IoRegister::Wave),
        BlockName::Io(IoRegister::Lcd),
        BlockName::Io(IoRegister::VramBankSelect),
        BlockName::Io(IoRegister::DisableBootRom),
        BlockName::Io(IoRegister::VramDma),
        BlockName::Io(IoRegister::BjObj),
        BlockName::Io(IoRegister::WramBankSelect),
        BlockName::Region(RegionId::Hram),
        BlockName::Region(RegionId::Ie),
    ];
    assert_eq!(names, expected);
}

#[test]
fn dump_marks_large_regions_without_contents() {
    let mut gb = Gameboy::new();
    gb.write_byte(0x0000, 0x31).unwrap();
    let blocks = gb.dump_memory();
    assert_eq!(blocks[0].name, BlockName::Region(RegionId::Rom0));
    assert!(blocks[0].contents.is_none());
    for block in &blocks[..6] {
        assert!(block.contents.is_none());
    }
}

#[test]
fn dump_lists_small_region_bytes() {
    let mut gb = Gameboy::new();
    gb.write_byte(0xFE00, 0x11).unwrap();
    gb.write_byte(0xFE9F, 0x22).unwrap();
    gb.write_byte(0xFFFF, 0x33).unwrap();
    gb.write_byte(0xFF01, 0x44).unwrap();
    gb.write_byte(0xFF02, 0x55).unwrap();
    let blocks = gb.dump_memory();
    let oam = blocks[6].contents.as_ref().unwrap();
    assert_eq!(oam.len(), 0xA0);
    assert_eq!(oam[0], 0x11);
    assert_eq!(oam[0x9F], 0x22);
    let io = blocks[8].contents.as_ref().unwrap();
    assert_eq!(io.len(), 0x80);
    assert_eq!(blocks[9].contents, Some(vec![0x44, 0x55]));
    assert_eq!(blocks[21].contents, Some(vec![0x33]));
    assert_eq!(blocks[20].contents.as_ref().unwrap().len(), 0x7F);
}

#[test]
fn io_dump_covers_window_eight_per_row() {
    let mut gb = Gameboy::new();
    for i in 0..0x80u16 {
        gb.write_byte(0xFF00 + i, i as u8).unwrap();
    }
    gb.write_byte(0xFF80, 0xEE).unwrap();
    let rows = gb.dump_io_region();
    assert_eq!(rows.len(), 16);
    for (k, row) in rows.iter().enumerate() {
        let expected: Vec<u8> = (0..8).map(|j| (8 * k + j) as u8).collect();
        assert_eq!(row, &expected);
    }
    let mmap = MemoryMap::new();
    let bytes = vec![7u8; 0x10000];
    let flat = mmap.dump_io(&bytes);
    assert!(flat.iter().all(|r| r == &vec![7u8; 8]));
}

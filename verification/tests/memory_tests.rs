use aarch64_paging::idmap::IdMap;
use aarch64_paging::paging::{Attributes, MemoryRegion};
use kernel::memory::init_arm64::MairRegister;
use kernel::uart::Arch;
use kernel::memory::paging::{ARM64MemorySetup, MemoryKind, MemoryMapEntry, MemorySetup};

const NORMAL: usize = 0xf05;
const DEVICE: usize = 0x40_0000_0000_0401;

/// Every descriptor over `[start, end)` as (region start, region end, flags, output address).
fn walk(map: &IdMap, start: usize, end: usize) -> Vec<(usize, usize, usize, usize)> {
    let mut seen = Vec::new();
    map.walk_range(&MemoryRegion::new(start, end), &mut |r, d, _level| {
        seen.push((r.start().0, r.end().0, d.flags().bits(), d.output_address().0));
        Ok(())
    })
    .unwrap();
    seen
}

#[test]
fn mair_value_of_new_register() {
    let mair = MairRegister::new();
    assert_eq!(mair.value(), 0x4_0000_44ff);
}

#[test]
fn mair_bytes_sit_at_their_indices() {
    let v = MairRegister::new().value();
    assert_eq!((v >> (8 * MairRegister::MT_NORMAL)) & 0xff, 0xff);
    assert_eq!((v >> (8 * MairRegister::MT_NORMAL_NO_CACHING)) & 0xff, 0x44);
    assert_eq!((v >> (8 * MairRegister::MT_DEVICE_NGNRNE)) & 0xff, 0x00);
    assert_eq!((v >> (8 * MairRegister::MT_DEVICE_NGNRE)) & 0xff, 0x04);
    assert_eq!((v >> 16) & 0xff, 0);
    assert_eq!(v >> 40, 0);
}

#[test]
fn attributes_by_kind() {
    assert_eq!(ARM64MemorySetup::attributes_for(MemoryKind::Usable), NORMAL as u64);
    assert_eq!(ARM64MemorySetup::attributes_for(MemoryKind::Reserved), DEVICE as u64);
    assert_eq!(ARM64MemorySetup::attributes_for(MemoryKind::Other), DEVICE as u64);
    let normal = Attributes::VALID
        | Attributes::ATTRIBUTE_INDEX_1
        | Attributes::INNER_SHAREABLE
        | Attributes::ACCESSED
        | Attributes::NON_GLOBAL;
    let device =
        Attributes::VALID | Attributes::ATTRIBUTE_INDEX_0 | Attributes::ACCESSED | Attributes::UXN;
    assert_eq!(normal.bits(), NORMAL);
    assert_eq!(device.bits(), DEVICE);
}

#[test]
fn mappable_edges() {
    let e = |base: u64, length: u64| MemoryMapEntry { base, length, kind: MemoryKind::Usable };
    assert!(!e(0, 0).mappable());
    assert!(e(0, 1).mappable());
    assert!(e(0x40_0000_0000, 0x40_0000_0000).mappable());
    assert!(!e(0x40_0000_0000, 0x40_0000_0001).mappable());
    assert!(!e(u64::MAX, 2).mappable());
    assert!(e(0x80_0000_0000, 0).mappable());
    assert!(!e(0x80_0000_0000, 1).mappable());
    assert!(e(0x7f_ffff_ffff, 1).mappable());
}

#[test]
fn usable_entry_is_mapped_normal() {
    let setup = ARM64MemorySetup::new();
    let entry = MemoryMapEntry { base: 0x4000_0000, length: 0x3000, kind: MemoryKind::Usable };
    let map = setup.map_entry(&entry);
    assert_eq!(map.size(), 1 << 39);
    let seen = walk(&map, 0x4000_0000, 0x4000_3000);
    assert_eq!(seen.len(), 3);
    for (start, end, flags, pa) in seen {
        assert_eq!(end - start, 0x1000);
        assert_eq!(pa, start);
        assert_eq!(flags & !2, NORMAL);
    }
    for (_, _, flags, _) in walk(&map, 0x4000_3000, 0x4000_4000) {
        assert_eq!(flags & 1, 0);
    }
}

#[test]
fn reserved_entry_is_mapped_device() {
    let setup = ARM64MemorySetup::new();
    let entry = MemoryMapEntry { base: 0x900_0000, length: 0x1000, kind: MemoryKind::Reserved };
    let map = setup.map_entry(&entry);
    let seen = walk(&map, 0x900_0000, 0x900_1000);
    assert_eq!(seen.len(), 1);
    assert_eq!(seen[0].2 & !2, DEVICE);
    assert_eq!(seen[0].3, 0x900_0000);
}

#[test]
fn unaligned_entry_covers_whole_pages() {
    let setup = ARM64MemorySetup::new();
    let entry = MemoryMapEntry { base: 0x4000_0100, length: 0x1000, kind: MemoryKind::Other };
    let map = setup.map_entry(&entry);
    let seen = walk(&map, 0x4000_0000, 0x4000_2000);
    assert_eq!(seen.len(), 2);
    for (start, _, flags, pa) in seen {
        assert_eq!(pa, start);
        assert_eq!(flags & !2, DEVICE);
    }
    for (_, _, flags, _) in walk(&map, 0x3fff_f000, 0x4000_0000) {
        assert_eq!(flags & 1, 0);
    }
}

#[test]
fn memory_setup_maps_every_entry() {
    let entries = vec![
        MemoryMapEntry { base: 0x4000_0000, length: 0x1000, kind: MemoryKind::Usable },
        MemoryMapEntry { base: 0x800_0000, length: 0x2000, kind: MemoryKind::Reserved },
        MemoryMapEntry { base: 0x1000, length: 0x1000, kind: MemoryKind::Other },
    ];
    let maps = MemorySetup::new(Arch::Aarch64).map(&entries);
    assert_eq!(maps.len(), 3);
    assert_eq!(walk(&maps[0], 0x4000_0000, 0x4000_1000)[0].2 & !2, NORMAL);
    assert_eq!(walk(&maps[1], 0x800_1000, 0x800_2000)[0].2 & !2, DEVICE);
    assert_eq!(walk(&maps[2], 0x1000, 0x2000)[0].2 & !2, DEVICE);
    assert_eq!(walk(&maps[0], 0x1000, 0x2000)[0].2 & 1, 0);
}

#[test]
fn memory_setup_of_empty_map() {
    let maps = MemorySetup::new(Arch::Aarch64).map(&Vec::new());
    assert!(maps.is_empty());
}

#[test]
fn attribute_fields_by_kind() {
    let normal = ARM64MemorySetup::attributes_for(MemoryKind::Usable);
    let device = ARM64MemorySetup::attributes_for(MemoryKind::Other);
    assert_eq!((normal >> 2) & 7, 1);
    assert_eq!((normal >> 8) & 3, 3);
    assert_eq!(normal & (1 << 54), 0);
    assert_eq!((device >> 2) & 7, 0);
    assert_eq!((device >> 8) & 3, 0);
    assert_ne!(device & (1 << 54), 0);
    assert_eq!(normal & 2, 0);
    assert_eq!(device & 2, 0);
}

use kernel::boot::{paging_mode_message, PagingMode};
use kernel::devicetree::DTBReader;
use kernel::hw::Pointer;

#[test]
fn pointer_addresses() {
    let p = Pointer::new(0x900_0000);
    assert_eq!(p.addr, 0x900_0000);
    assert_eq!(p.offset_address(0), 0x900_0000);
    assert_eq!(p.offset_address(0xffff_8000_0000_0000), 0xffff_8000_0900_0000);
}

#[test]
fn paging_mode_messages() {
    assert_eq!(paging_mode_message(PagingMode::FourLevel), "Using FOUR_LEVEL paging mode");
    assert_eq!(paging_mode_message(PagingMode::FiveLevel), "Using FIVE_LEVEL paging mode");
    assert_eq!(paging_mode_message(PagingMode::Other), "Using unknown paging mode");
}

/// A device tree blob with the given reserved-memory entries and an empty structure block.
fn blob(reserved: &[(u64, u64)]) -> Vec<u8> {
    let rsv_offset = 40u32;
    let struct_offset = rsv_offset + 16 * (reserved.len() as u32 + 1);
    let struct_size = 4u32;
    let strings_offset = struct_offset + struct_size;
    let total = strings_offset;
    let mut b = Vec::with_capacity(total as usize);
    for v in [0xD00D_FEEDu32, total, struct_offset, strings_offset, rsv_offset, 17, 16, 0, 0, struct_size] {
        b.extend_from_slice(&v.to_be_bytes());
    }
    for &(a, s) in reserved {
        b.extend_from_slice(&a.to_be_bytes());
        b.extend_from_slice(&s.to_be_bytes());
    }
    b.extend_from_slice(&[0u8; 16]);
    b.extend_from_slice(&9u32.to_be_bytes());
    b
}

#[test]
fn reserved_memory_of_a_blob() {
    let data = blob(&[(0x4000_0000, 0x1000), (0x8000_0000, 0x20_0000)]);
    assert_eq!(data.as_ptr() as usize % 8, 0);
    let reader = DTBReader::new(0x4000_0000, &data).unwrap();
    assert_eq!(reader.list_reserved_mem(), vec![(0x4000_0000, 0x1000), (0x8000_0000, 0x20_0000)]);
}

#[test]
fn blob_without_reserved_memory() {
    let data = blob(&[]);
    let reader = DTBReader::new(0, &data).unwrap();
    assert!(reader.list_reserved_mem().is_empty());
}

#[test]
fn bad_blob_is_refused() {
    let mut data = blob(&[]);
    data[0] = 0;
    assert!(DTBReader::new(0, &data).is_none());
}

#[test]
fn reader_from_what_was_parsed() {
    let data = blob(&[(0x1000, 0x2000)]);
    let parsed = dtb::Reader::read(&data).ok();
    let reader = DTBReader::from_parsed(0x4000_0000, parsed).unwrap();
    assert_eq!(reader.list_reserved_mem(), vec![(0x1000, 0x2000)]);
    assert!(DTBReader::from_parsed(0x4000_0000, None).is_none());
}

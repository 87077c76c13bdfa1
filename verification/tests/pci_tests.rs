use kernel::pci::{HeaderType, PCIInterface, PciScan, ScanAction, ScanStage};

#[test]
fn config_addresses() {
    let pci = PCIInterface::new();
    assert_eq!(pci.read_config_address(0, 0, 0, 0), 0x8000_0000);
    assert_eq!(pci.read_config_address(1, 2, 3, 4), 0x8001_1304);
    assert_eq!(pci.read_config_address(255, 31, 7, 0xff), 0x80ff_ffff);
    assert_eq!(pci.read_config_address(0, 0, 0, 0x0E), 0x8000_000E);
}

#[test]
fn config_word_of_two_bytes() {
    let pci = PCIInterface::new();
    assert_eq!(pci.config_word(0xAB, 0x00), 0xAB);
    assert_eq!(pci.config_word(0x86, 0x80), 0x8086);
    assert_eq!(pci.config_word(0xFF, 0xFF), 0xFFFF);
}

#[test]
fn vendor_and_header_decoding() {
    let pci = PCIInterface::new();
    assert!(!pci.check_vendor(0xFFFF));
    assert!(pci.check_vendor(0x8086));
    assert_eq!(pci.get_vendor_id(0x1234), 0x1234);
    assert_eq!(pci.get_header_type(0x80), HeaderType { header_type: 0x80, multi_function: true });
    assert_eq!(pci.get_header_type(0x1201), HeaderType { header_type: 0x01, multi_function: false });
    assert_eq!(pci.check_device(0xFFFF, 0x80), (false, false));
    assert_eq!(pci.check_device(0x8086, 0x80), (true, true));
    assert_eq!(pci.check_device(0x8086, 0x00), (true, false));
}

/// Runs a scan against `cfg`, collecting the reads and the reports.
fn run(pci: &PCIInterface, cfg: impl Fn(u32) -> u8) -> (Vec<u32>, Vec<(u8, u8, u16, u16)>, usize) {
    let mut scan = pci.test();
    let mut reads = Vec::new();
    let mut reports = Vec::new();
    let mut steps = 0;
    loop {
        match scan.action(pci) {
            ScanAction::Read { address } => {
                reads.push(address);
                scan.on_read(pci, cfg(address), cfg(address + 1));
            }
            ScanAction::Report { bus, device, vendor_id, device_id } => {
                reports.push((bus, device, vendor_id, device_id));
                scan.on_reported();
            }
            ScanAction::Done => break,
        }
        steps += 1;
    }
    (reads, reports, steps)
}

#[test]
fn scan_reads_each_slot_in_order() {
    let pci = PCIInterface::new();
    let (reads, reports, steps) = run(&pci, |a| (a & 0xff) as u8);
    assert_eq!(&reads[0..4], &[0x8000_0000, 0x8000_000E, 0x8000_0000, 0x8000_0002]);
    assert_eq!(&reads[4..8], &[0x8000_0800, 0x8000_080E, 0x8000_0800, 0x8000_0802]);
    assert_eq!(reports.len(), 256 * 32);
    assert_eq!(reports[0], (0, 0, 0x0100, 0x0302));
    assert_eq!(reports[33], (1, 1, 0x0100, 0x0302));
    assert_eq!(reports[8191], (255, 31, 0x0100, 0x0302));
    assert_eq!(steps, 256 * 32 * 5);
}

#[test]
fn empty_config_space_reports_nothing() {
    let pci = PCIInterface::new();
    let (reads, reports, steps) = run(&pci, |_| 0xFF);
    assert!(reports.is_empty());
    assert_eq!(steps, 256 * 32);
    assert_eq!(reads[1], 0x8000_0800);
}

#[test]
fn only_present_devices_are_reported() {
    let pci = PCIInterface::new();
    let slot = pci.read_config_address(2, 5, 0, 0);
    let (_, reports, steps) = run(&pci, |a| match a.wrapping_sub(slot) {
        0 => 0x86,
        1 => 0x80,
        2 => 0x10,
        3 => 0x12,
        _ => 0xFF,
    });
    assert_eq!(reports, vec![(2, 5, 0x8086, 0x1210)]);
    assert_eq!(steps, 256 * 32 + 4);
}

#[test]
fn scan_step_by_step() {
    let pci = PCIInterface::new();
    let mut scan = pci.test();
    assert_eq!(scan, PciScan { bus: 0, device: 0, stage: ScanStage::Vendor });
    scan.on_read(&pci, 0x86, 0x80);
    assert_eq!(scan.stage, ScanStage::Header);
    scan.on_read(&pci, 0x80, 0x00);
    assert_eq!(scan.stage, ScanStage::VendorAgain);
    scan.on_read(&pci, 0x86, 0x80);
    assert_eq!(scan.stage, ScanStage::DeviceId { vendor_id: 0x8086 });
    scan.on_read(&pci, 0x10, 0x12);
    assert_eq!(scan.action(&pci), ScanAction::Report { bus: 0, device: 0, vendor_id: 0x8086, device_id: 0x1210 });
    scan.on_reported();
    assert_eq!(scan, PciScan { bus: 0, device: 1, stage: ScanStage::Vendor });
}

#[test]
fn scan_wraps_to_next_bus_and_ends() {
    let pci = PCIInterface::new();
    let mut scan = PciScan { bus: 3, device: 31, stage: ScanStage::Report { vendor_id: 1, device_id: 2 } };
    scan.on_reported();
    assert_eq!(scan, PciScan { bus: 4, device: 0, stage: ScanStage::Vendor });
    let mut last = PciScan { bus: 255, device: 31, stage: ScanStage::Report { vendor_id: 1, device_id: 2 } };
    last.on_reported();
    assert_eq!(last.stage, ScanStage::Finished);
    assert_eq!(last.action(&pci), ScanAction::Done);
}

#[test]
fn config_address_fields_read_back() {
    let pci = PCIInterface::new();
    for (bus, device, function, offset) in [(7u8, 19u8, 5u8, 0x3Cu8), (255, 31, 7, 255), (0, 1, 0, 2)] {
        let a = pci.read_config_address(bus, device, function, offset);
        assert_ne!(a & 0x8000_0000, 0);
        assert_eq!((a >> 16) & 0xff, bus as u32);
        assert_eq!((a >> 11) & 0x1f, device as u32);
        assert_eq!((a >> 8) & 0x7, function as u32);
        assert_eq!(a & 0xff, offset as u32);
    }
}

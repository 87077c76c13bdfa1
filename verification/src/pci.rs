use vstd::prelude::*;

verus! {

/// The vendor id that a configuration read answers when no device is present.
pub const NO_DEVICE: u16 = 0xFFFF;

/// A device slot on a PCI bus.
#[derive(Clone, Copy)]
pub struct Device {
    pub bus: u8,
    pub device: u8,
    pub functions: [u8; 8],
    pub vendor_id: u16,
    pub device_id: u16,
}

impl Device {
    /// The slot holds no device: every field zero, both ids `NO_DEVICE`.
    pub open spec fn is_vacant(&self) -> bool {
        &&& self.bus == 0
        &&& self.device == 0
        &&& forall|i: int| 0 <= i < 8 ==> self.functions@[i] == 0
        &&& self.vendor_id == NO_DEVICE
        &&& self.device_id == NO_DEVICE
    }
}

impl Default for Device {
    fn default() -> (r: Self)
        ensures
            r.is_vacant(),
    {
        Device { bus: 0, device: 0, functions: [0u8; 8], vendor_id: 0xFFFF, device_id: 0xFFFF }
    }
}

/// A PCI bus with its 32 device slots.
#[derive(Clone, Copy)]
pub struct Bus {
    pub bus_number: u8,
    pub devices: [Device; 32],
}

impl Bus {
    /// Bus number zero, every slot vacant.
    pub open spec fn is_vacant(&self) -> bool {
        &&& self.bus_number == 0
        &&& forall|i: int| 0 <= i < 32 ==> (#[trigger] self.devices@[i]).is_vacant()
    }
}

impl Default for Bus {
    fn default() -> (r: Self)
        ensures
            r.is_vacant(),
    {
        let d = Device::default();
        Bus { bus_number: 0, devices: [d; 32] }
    }
}

/// The header type of a configuration space, and whether the device has
/// several functions.
#[derive(Clone, Copy, PartialEq, Eq, Structural, Debug)]
pub struct HeaderType {
    pub header_type: u8,
    pub multi_function: bool,
}

/// The configuration-space address of `offset` in `function` of `device` on
/// `bus`: the enable bit, then the bus, device, function and offset fields.
pub open spec fn config_address_spec(bus: u8, device: u8, function: u8, offset: u8) -> u32 {
    0x8000_0000u32 | ((bus as u32) << 16u32) | ((device as u32) << 11u32) | ((function as u32) << 8u32)
        | (offset as u32)
}

/// The 16-bit configuration word made of the byte at its address (`lo`) and
/// the byte after it (`hi`), little-endian.
pub open spec fn config_word_spec(lo: u8, hi: u8) -> u16 {
    (lo as int + 256 * (hi as int)) as u16
}

/// The header type decoded from the word read at offset `0x0E`.
pub open spec fn header_type_spec(word: u16) -> HeaderType {
    HeaderType { header_type: word as u8, multi_function: (word as u8) & 0x80 != 0 }
}

/// The header type is the low byte of the word read at offset `0x0E`, and
/// whether the device has several functions rests on bit 7 of that byte
/// alone: two words that agree on it get the same answer, whatever the rest
/// of the byte, set meaning several functions and clear meaning one.
pub proof fn lemma_header_type_fields(w: u16, v: u16)
    ensures
        header_type_spec(w).header_type as int == w % 256,
        (w as u8) & 0x80 == (v as u8) & 0x80 ==> header_type_spec(w).multi_function
            == header_type_spec(v).multi_function,
        header_type_spec(0x80).multi_function,
        !header_type_spec(0).multi_function,
{
    assert(w as u8 == w % 256) by (bit_vector);
    assert((0x80u16 as u8) & 0x80 != 0 && (0u16 as u8) & 0x80 == 0) by (bit_vector);
}

/// The PCI configuration space interface.
pub struct PCIInterface {
    buses: [Bus; 256],
}

impl PCIInterface {
    /// The recorded buses, by bus number.
    pub closed spec fn buses(&self) -> Seq<Bus> {
        self.buses@
    }

    /// No bus has been recorded yet: all 256 buses are vacant.
    pub open spec fn is_vacant(&self) -> bool {
        &&& self.buses().len() == 256
        &&& forall|i: int| 0 <= i < 256 ==> (#[trigger] self.buses()[i]).is_vacant()
    }

    pub fn new() -> (r: Self)
        ensures
            r.is_vacant(),
    {
        let b = Bus::default();
        PCIInterface { buses: [b; 256] }
    }

    /// The address at which a configuration word is read.
    pub fn read_config_address(&self, bus: u8, device: u8, function: u8, offset: u8) -> (r: u32)
        ensures
            r == config_address_spec(bus, device, function, offset),
    {
        0x8000_0000u32 | ((bus as u32) << 16u32) | ((device as u32) << 11u32) | ((function as u32) << 8u32)
            | (offset as u32)
    }

    /// The configuration word made of the byte read at its address and the
    /// byte read after it.
    pub fn config_word(&self, lo: u8, hi: u8) -> (r: u16)
        ensures
            r == config_word_spec(lo, hi),
    {
        let w = (lo as u16) | ((hi as u16) << 8u16);
        assert(w == (lo as u16) + 256 * (hi as u16)) by (bit_vector)
            requires
                w == (lo as u16) | ((hi as u16) << 8u16),
        ;
        w
    }

    /// Whether a vendor id announces a device.
    pub fn check_vendor(&self, vendor_id: u16) -> (r: bool)
        ensures
            r == (vendor_id != NO_DEVICE),
    {
        vendor_id != 0xFFFF
    }

    /// The header type held by the word read at offset `0x0E`.
    pub fn get_header_type(&self, word: u16) -> (r: HeaderType)
        ensures
            r == header_type_spec(word),
    {
        let header_type = word as u8;
        HeaderType { header_type, multi_function: (header_type & 0x80) != 0 }
    }

    /// The vendor id held by the word read at offset 0.
    pub fn get_vendor_id(&self, word: u16) -> (r: u16)
        ensures
            r == word,
    {
        word
    }

    /// Whether a device is present and whether it has several functions,
    /// from its vendor word and its header-type word (the header word counts
    /// only when a device is present).
    pub fn check_device(&self, vendor_word: u16, header_word: u16) -> (r: (bool, bool))
        ensures
            r == (if vendor_word == NO_DEVICE {
                (false, false)
            } else {
                (true, header_type_spec(header_word).multi_function)
            }),
            r.1 ==> r.0,
    {
        let vendor_id = self.get_vendor_id(vendor_word);
        if vendor_id == 0xFFFF {
            return (false, false);
        }
        let header_type = self.get_header_type(header_word);
        (true, header_type.multi_function)
    }
}

/// For a device number below 32 and a function number below 8, the fields of
/// a configuration address read back what went in, and the enable bit is set:
/// distinct slots never share an address.
pub proof fn lemma_config_address_fields(bus: u8, device: u8, function: u8, offset: u8)
    requires
        device < 32,
        function < 8,
    ensures
        config_address_spec(bus, device, function, offset) & 0x8000_0000 != 0,
        (config_address_spec(bus, device, function, offset) >> 16u32) & 0xff == bus as u32,
        (config_address_spec(bus, device, function, offset) >> 11u32) & 0x1f == device as u32,
        (config_address_spec(bus, device, function, offset) >> 8u32) & 0x7 == function as u32,
        config_address_spec(bus, device, function, offset) & 0xff == offset as u32,
{
    let b = bus as u32;
    let d = device as u32;
    let f = function as u32;
    let o = offset as u32;
    let a = config_address_spec(bus, device, function, offset);
    assert(a == 0x8000_0000u32 | (b << 16u32) | (d << 11u32) | (f << 8u32) | o);
    assert(a & 0x8000_0000 != 0 && (a >> 16u32) & 0xff == b && (a >> 11u32) & 0x1f == d && (a >> 8u32)
        & 0x7 == f && a & 0xff == o) by (bit_vector)
        requires
            b < 256,
            d < 32,
            f < 8,
            o < 256,
            a == 0x8000_0000u32 | (b << 16u32) | (d << 11u32) | (f << 8u32) | o,
    ;
}

/// Where a scan of the configuration space stands for the current slot.
#[derive(Clone, Copy, PartialEq, Eq, Structural, Debug)]
pub enum ScanStage {
    /// The vendor id is to be read, to learn whether a device is present.
    Vendor,
    /// The header type is to be read.
    Header,
    /// The vendor id is to be read again, for the report.
    VendorAgain,
    /// The device id is to be read.
    DeviceId { vendor_id: u16 },
    /// The device is to be reported.
    Report { vendor_id: u16, device_id: u16 },
    /// Every slot has been examined.
    Finished,
}

/// What the scan asks of its driver next.
#[derive(Clone, Copy, PartialEq, Eq, Structural, Debug)]
pub enum ScanAction {
    /// Read the 16-bit configuration word at `address` (the byte there and
    /// the byte after it) and hand it back.
    Read { address: u32 },
    /// Report a present device.
    Report { bus: u8, device: u8, vendor_id: u16, device_id: u16 },
    /// The scan is over.
    Done,
}

/// A scan over device 0 to 31 of bus 0 to 255, function 0, one slot after
/// another.
#[derive(Clone, Copy, PartialEq, Eq, Structural, Debug)]
pub struct PciScan {
    pub bus: u16,
    pub device: u8,
    pub stage: ScanStage,
}

/// The number of device slots on all buses.
pub open spec fn slot_count() -> int {
    8192
}

impl ScanStage {
    /// How many more steps the current slot can take at most.
    pub open spec fn rank(self) -> nat {
        match self {
            ScanStage::Vendor => 4,
            ScanStage::Header => 3,
            ScanStage::VendorAgain => 2,
            ScanStage::DeviceId { .. } => 1,
            ScanStage::Report { .. } => 0,
            ScanStage::Finished => 0,
        }
    }
}

impl PciScan {
    pub open spec fn wf(self) -> bool {
        &&& self.bus <= 256
        &&& self.device < 32
        &&& (self.stage is Finished <==> self.bus == 256)
        &&& (self.stage is Finished ==> self.device == 0)
        &&& (self.stage matches ScanStage::DeviceId { vendor_id } ==> vendor_id != NO_DEVICE)
        &&& (self.stage matches ScanStage::Report { vendor_id, .. } ==> vendor_id != NO_DEVICE)
    }

    /// The index of the current slot, counting bus by bus.
    pub open spec fn position(self) -> int {
        self.bus * 32 + self.device
    }

    /// A bound on the steps left before the scan is over.
    pub open spec fn remaining(self) -> nat {
        ((slot_count() - self.position()) * 5 + self.stage.rank()) as nat
    }

    /// The start of the next slot, or the end of the scan after the last one.
    pub open spec fn next_slot(self) -> PciScan {
        if self.device + 1 < 32 {
            PciScan { bus: self.bus, device: (self.device + 1) as u8, stage: ScanStage::Vendor }
        } else if self.bus + 1 < 256 {
            PciScan { bus: (self.bus + 1) as u16, device: 0, stage: ScanStage::Vendor }
        } else {
            PciScan { bus: 256, device: 0, stage: ScanStage::Finished }
        }
    }

    pub open spec fn spec_action(self) -> ScanAction {
        let bus = self.bus as u8;
        match self.stage {
            ScanStage::Vendor => ScanAction::Read { address: config_address_spec(bus, self.device, 0, 0) },
            ScanStage::Header => ScanAction::Read { address: config_address_spec(bus, self.device, 0, 0x0E) },
            ScanStage::VendorAgain => ScanAction::Read { address: config_address_spec(bus, self.device, 0, 0) },
            ScanStage::DeviceId { .. } => ScanAction::Read { address: config_address_spec(bus, self.device, 0, 2) },
            ScanStage::Report { vendor_id, device_id } => ScanAction::Report {
                bus,
                device: self.device,
                vendor_id,
                device_id,
            },
            ScanStage::Finished => ScanAction::Done,
        }
    }

    /// The scan after the word asked for by a read was handed back, as its two bytes.
    pub open spec fn spec_after_read(self, lo: u8, hi: u8) -> PciScan {
        let word = config_word_spec(lo, hi);
        match self.stage {
            ScanStage::Vendor => if word != NO_DEVICE {
                PciScan { stage: ScanStage::Header, ..self }
            } else {
                self.next_slot()
            },
            ScanStage::Header => PciScan { stage: ScanStage::VendorAgain, ..self },
            ScanStage::VendorAgain => if word == NO_DEVICE {
                self.next_slot()
            } else {
                PciScan { stage: ScanStage::DeviceId { vendor_id: word }, ..self }
            },
            ScanStage::DeviceId { vendor_id } => PciScan {
                stage: ScanStage::Report { vendor_id, device_id: word },
                ..self
            },
            _ => self,
        }
    }

    /// One step of the scan against a configuration space whose byte at each
    /// address is `cfg(address)`; a read takes the bytes at its address and
    /// the next one.
    pub open spec fn step_with(self, cfg: spec_fn(u32) -> u8) -> PciScan {
        match self.spec_action() {
            ScanAction::Read { address } => self.spec_after_read(cfg(address), cfg((address + 1) as u32)),
            ScanAction::Report { .. } => self.next_slot(),
            ScanAction::Done => self,
        }
    }

    /// `n` steps of the scan against the configuration space `cfg`.
    pub open spec fn steps_with(self, cfg: spec_fn(u32) -> u8, n: nat) -> PciScan
        decreases n,
    {
        if n == 0 {
            self
        } else {
            self.step_with(cfg).steps_with(cfg, (n - 1) as nat)
        }
    }

    /// What the scan asks for next.
    pub fn action(&self, pci: &PCIInterface) -> (r: ScanAction)
        requires
            self.wf(),
        ensures
            r == self.spec_action(),
    {
        let bus = self.bus as u8;
        match self.stage {
            ScanStage::Vendor => ScanAction::Read { address: pci.read_config_address(bus, self.device, 0, 0) },
            ScanStage::Header => ScanAction::Read { address: pci.read_config_address(bus, self.device, 0, 0x0E) },
            ScanStage::VendorAgain => ScanAction::Read { address: pci.read_config_address(bus, self.device, 0, 0) },
            ScanStage::DeviceId { .. } => ScanAction::Read { address: pci.read_config_address(bus, self.device, 0, 2) },
            ScanStage::Report { vendor_id, device_id } => ScanAction::Report {
                bus,
                device: self.device,
                vendor_id,
                device_id,
            },
            ScanStage::Finished => ScanAction::Done,
        }
    }

    /// Moves to the start of the next slot.
    fn advance_slot(&mut self)
        requires
            old(self).wf(),
            !(old(self).stage is Finished),
        ensures
            *final(self) == old(self).next_slot(),
    {
        if self.device + 1 < 32 {
            self.device = self.device + 1;
            self.stage = ScanStage::Vendor;
        } else if self.bus + 1 < 256 {
            self.bus = self.bus + 1;
            self.device = 0;
            self.stage = ScanStage::Vendor;
        } else {
            self.bus = 256;
            self.device = 0;
            self.stage = ScanStage::Finished;
        }
    }

    /// Takes the two bytes of the word that the last `Read` action asked for:
    /// `lo` at its address, `hi` after it.
    pub fn on_read(&mut self, pci: &PCIInterface, lo: u8, hi: u8)
        requires
            old(self).wf(),
            old(self).spec_action() is Read,
        ensures
            *final(self) == old(self).spec_after_read(lo, hi),
            final(self).wf(),
            final(self).remaining() < old(self).remaining(),
            final(self).position() == old(self).position() || (final(self).position() == old(self).position()
                + 1 && (final(self).stage is Vendor || final(self).stage is Finished)),
    {
        let word = pci.config_word(lo, hi);
        match self.stage {
            ScanStage::Vendor => {
                if pci.check_vendor(word) {
                    self.stage = ScanStage::Header;
                } else {
                    self.advance_slot();
                }
            },
            ScanStage::Header => {
                let _header_type = pci.get_header_type(word);
                self.stage = ScanStage::VendorAgain;
            },
            ScanStage::VendorAgain => {
                let vendor_id = pci.get_vendor_id(word);
                if vendor_id == 0xFFFF {
                    self.advance_slot();
                } else {
                    self.stage = ScanStage::DeviceId { vendor_id };
                }
            },
            ScanStage::DeviceId { vendor_id } => {
                self.stage = ScanStage::Report { vendor_id, device_id: word };
            },
            _ => {},
        }
    }

    /// Notes that the device asked for by the last `Report` action was
    /// reported, and moves on to the next slot.
    pub fn on_reported(&mut self)
        requires
            old(self).wf(),
            old(self).spec_action() is Report,
        ensures
            *final(self) == old(self).next_slot(),
            final(self).wf(),
            final(self).remaining() < old(self).remaining(),
            final(self).position() == old(self).position() + 1,
    {
        self.advance_slot();
    }
}

impl PCIInterface {
    /// Starts a scan of every device slot, at device 0 of bus 0.
    pub fn test(&self) -> (r: PciScan)
        ensures
            r == (PciScan { bus: 0, device: 0, stage: ScanStage::Vendor }),
            r.wf(),
            r.position() == 0,
    {
        PciScan { bus: 0, device: 0, stage: ScanStage::Vendor }
    }
}

/// Every step of a scan that is not over brings it closer to its end, and
/// keeps it well formed.
pub proof fn lemma_scan_step(s: PciScan, cfg: spec_fn(u32) -> u8)
    requires
        s.wf(),
        !(s.stage is Finished),
    ensures
        s.step_with(cfg).wf(),
        s.step_with(cfg).remaining() < s.remaining(),
{
}

/// Against any configuration space, a well-formed scan is over within
/// `remaining()` steps.
pub proof fn lemma_scan_finishes(s: PciScan, cfg: spec_fn(u32) -> u8)
    requires
        s.wf(),
    ensures
        s.steps_with(cfg, s.remaining()).stage is Finished,
    decreases s.remaining(),
{
    if s.stage is Finished {
        lemma_finished_stays(s, cfg, s.remaining());
    } else {
        lemma_scan_step(s, cfg);
        let t = s.step_with(cfg);
        lemma_scan_finishes(t, cfg);
        let k = (s.remaining() - 1 - t.remaining()) as nat;
        lemma_finished_stays(t.steps_with(cfg, t.remaining()), cfg, k);
        lemma_steps_add(t, cfg, t.remaining(), k);
    }
}

/// A finished scan stays finished.
proof fn lemma_finished_stays(s: PciScan, cfg: spec_fn(u32) -> u8, n: nat)
    requires
        s.stage is Finished,
    ensures
        s.steps_with(cfg, n) == s,
    decreases n,
{
    if n > 0 {
        lemma_finished_stays(s, cfg, (n - 1) as nat);
    }
}

/// Steps compose.
proof fn lemma_steps_add(s: PciScan, cfg: spec_fn(u32) -> u8, a: nat, b: nat)
    ensures
        s.steps_with(cfg, a).steps_with(cfg, b) == s.steps_with(cfg, a + b),
    decreases a,
{
    if a > 0 {
        lemma_steps_add(s.step_with(cfg), cfg, (a - 1) as nat, b);
    }
}

/// Each slot in turn: when the vendor word read at offset 0 announces a
/// device, the scan reads the header type, reads the vendor id again, reads
/// the device id, reports the device with those ids as its fifth step, and
/// then moves to the next slot; otherwise (a vendor word of `0xFFFF`, no
/// device) it moves to the next slot at once, having read nothing but that
/// word: an empty slot is never reported.
pub proof fn lemma_scan_slot(s: PciScan, cfg: spec_fn(u32) -> u8)
    requires
        s.wf(),
        s.stage is Vendor,
    ensures
        ({
            let a0 = config_address_spec(s.bus as u8, s.device, 0, 0);
            let a2 = config_address_spec(s.bus as u8, s.device, 0, 2);
            let vendor = config_word_spec(cfg(a0), cfg((a0 + 1) as u32));
            let device_id = config_word_spec(cfg(a2), cfg((a2 + 1) as u32));
            if vendor != NO_DEVICE {
                &&& s.steps_with(cfg, 4).spec_action() == (ScanAction::Report {
                    bus: s.bus as u8,
                    device: s.device,
                    vendor_id: vendor,
                    device_id,
                })
                &&& s.steps_with(cfg, 5) == s.next_slot()
            } else {
                s.steps_with(cfg, 1) == s.next_slot()
            }
        }),
{
    let s1 = s.step_with(cfg);
    let s2 = s1.step_with(cfg);
    let s3 = s2.step_with(cfg);
    let s4 = s3.step_with(cfg);
    assert(s.steps_with(cfg, 1) == s1.steps_with(cfg, 0));
    assert(s.steps_with(cfg, 3) == s3) by {
        assert(s2.steps_with(cfg, 1) == s3.steps_with(cfg, 0));
        assert(s1.steps_with(cfg, 2) == s2.steps_with(cfg, 1));
    }
    let s5 = s4.step_with(cfg);
    assert(s.steps_with(cfg, 4) == s4) by {
        assert(s3.steps_with(cfg, 1) == s4.steps_with(cfg, 0));
        assert(s2.steps_with(cfg, 2) == s3.steps_with(cfg, 1));
        assert(s1.steps_with(cfg, 3) == s2.steps_with(cfg, 2));
    }
    assert(s.steps_with(cfg, 5) == s5) by {
        assert(s4.steps_with(cfg, 1) == s5.steps_with(cfg, 0));
        assert(s3.steps_with(cfg, 2) == s4.steps_with(cfg, 1));
        assert(s2.steps_with(cfg, 3) == s3.steps_with(cfg, 2));
        assert(s1.steps_with(cfg, 4) == s2.steps_with(cfg, 3));
    }
}

} // verus!

use vstd::prelude::*;

use aarch64_paging::idmap::IdMap;
use aarch64_paging::paging::{Attributes, MemoryRegion, TranslationRegime};
use aarch64_paging::MapError;

use crate::uart::Arch;

verus! {

// ---------------------------------------------------------------------------
// The page-table library, as far as this kernel uses it.
// ---------------------------------------------------------------------------

#[verifier::external_type_specification]
#[verifier::external_body]
pub struct ExIdMap(IdMap);

/// What an identity-mapping page table holds: for each page-aligned virtual
/// address covered by a valid block or page descriptor, the physical address
/// that the page translates to and the attribute bits of that descriptor (the
/// table/page marker bit left out).
pub uninterp spec fn idmap_pages(m: IdMap) -> Map<usize, (usize, u64)>;

/// The translation regimes of the page-table library.
#[derive(PartialEq, Eq, Structural, Clone, Copy, Debug)]
pub enum Regime {
    El3,
    El2,
    El2And0,
    El1And0,
}

/// What a page table was created with: the size in bytes of the virtual
/// address space it can map (fixed by its root level), its ASID and its
/// translation regime.
#[derive(PartialEq, Eq, Structural, Clone, Copy, Debug)]
pub struct TableConfig {
    pub span: u64,
    pub asid: usize,
    pub regime: Regime,
}

/// The settings that a page table was created with.
pub uninterp spec fn idmap_config(m: IdMap) -> TableConfig;

/// Whether the table has been activated (loaded into a translation table
/// base register) and not deactivated since.
pub uninterp spec fn idmap_active(m: IdMap) -> bool;

/// The page size used by the page-table library.
pub open spec fn page_size() -> int {
    4096
}

/// `value` rounded down to a page boundary.
pub open spec fn page_round_down(value: int) -> int {
    value - value % page_size()
}

/// `value` rounded up to a page boundary.
pub open spec fn page_round_up(value: int) -> int {
    ((value + page_size() - 1) / page_size()) * page_size()
}

/// The bytes of virtual address space covered by a table whose root is at
/// `level`.
pub open spec fn span_of_root_level(level: int) -> u64 {
    if level == 0 {
        0x1_0000_0000_0000
    } else if level == 1 {
        0x80_0000_0000
    } else if level == 2 {
        0x4000_0000
    } else {
        0x20_0000
    }
}

/// Every page in `[start, end)`, each mapped to itself with `flags`.
pub open spec fn pages_in(start: int, end: int, flags: u64) -> Map<usize, (usize, u64)> {
    Map::new(|va: usize| start <= va < end && va % 4096 == 0, |va: usize| (va, flags))
}

/// The bits of a descriptor that hold its output address (bits 12 to 47).
pub open spec fn output_address_bits() -> u64 {
    0x0000_ffff_ffff_f000
}

/// The valid bit of a descriptor.
pub open spec fn valid_bit() -> u64 {
    1
}

/// The attribute bit that marks a descriptor as a table or page descriptor.
pub open spec fn table_or_page_bit() -> u64 {
    2
}

/// Why the page-table library refused to map a range.
#[derive(PartialEq, Eq, Structural, Clone, Copy, Debug)]
pub enum PagingError {
    AddressRange,
    InvalidVirtualAddress,
    RegionBackwards,
    PteUpdateFault,
    InvalidFlags,
    BreakBeforeMakeViolation,
}

/// What `IdMap::map_range` answers for a table that is not active, as its
/// checks decide it: the flags first, then the direction of the region, then
/// its bounds.
pub open spec fn inactive_map_result(size: nat, start: usize, end: usize, flags: u64) -> Result<(), PagingError> {
    let lo = page_round_down(start as int);
    let hi = page_round_up(end as int);
    if flags & table_or_page_bit() != 0 {
        Err(PagingError::InvalidFlags)
    } else if hi < lo {
        Err(PagingError::RegionBackwards)
    } else if lo >= 0x8000_0000_0000_0000 {
        Err(PagingError::AddressRange)
    } else if hi > size {
        Err(PagingError::AddressRange)
    } else {
        Ok(())
    }
}

/// Calls `IdMap::new` with `asid`, `rootlevel` and the translation regime
/// `regime`. The library creates an empty root table at `rootlevel`; it
/// panics for a level above 3, and for a nonzero ASID in a regime without
/// ASIDs (EL3 and EL2), hence the `requires`. The new table maps nothing, is
/// not active, keeps the ASID and regime it was given, and spans the address
/// space of its root level.
#[verifier::external_body]
fn new_identity_map(asid: usize, rootlevel: usize, regime: Regime) -> (r: IdMap)
    requires
        rootlevel <= 3,
        regime == Regime::El3 || regime == Regime::El2 ==> asid == 0,
    ensures
        idmap_pages(r).dom().is_empty(),
        idmap_config(r) == (TableConfig { span: span_of_root_level(rootlevel as int), asid, regime }),
        !idmap_active(r),
{
    let translation_regime = match regime {
        Regime::El3 => TranslationRegime::El3,
        Regime::El2 => TranslationRegime::El2,
        Regime::El2And0 => TranslationRegime::El2And0,
        Regime::El1And0 => TranslationRegime::El1And0,
    };
    IdMap::new(asid, rootlevel, translation_regime)
}

/// Calls `IdMap::map_range` on `MemoryRegion::new(start, end)` with the
/// attribute bits `flags` (64 bits, as the library's attribute type holds
/// on every target it compiles for). `MemoryRegion::new` rounds `start` down and `end`
/// up to a page boundary (it overflows for `end == 0` and for an `end` whose
/// rounding passes `usize::MAX`, hence the `requires`). The library stores
/// the flags in the same word as the output address (bits 12 to 47) and
/// treats a descriptor without the valid bit as unmapped, so the flags are
/// required to be valid and to leave the address bits clear. On success every
/// page of the rounded region is mapped to itself with `flags`, and no other
/// page changes; on failure the table is unchanged. For a table that is not active
/// the answer is decided by the checks in `inactive_map_result`; for an active
/// one the library may in addition refuse a change that would break
/// break-before-make, which depends on the descriptors already present and is
/// left unsaid here.
#[verifier::external_body]
fn identity_map_range(m: &mut IdMap, start: usize, end: usize, flags: u64) -> (r: Result<(), PagingError>)
    requires
        0 < end,
        page_round_up(end as int) <= usize::MAX,
        flags & output_address_bits() == 0,
        flags & valid_bit() == valid_bit(),
    ensures
        idmap_config(*final(m)) == idmap_config(*old(m)),
        idmap_active(*final(m)) == idmap_active(*old(m)),
        r is Err ==> idmap_pages(*final(m)) == idmap_pages(*old(m)),
        r is Ok ==> idmap_pages(*final(m)) == idmap_pages(*old(m)).union_prefer_right(
            pages_in(page_round_down(start as int), page_round_up(end as int), flags),
        ),
        !idmap_active(*old(m)) ==> r == inactive_map_result(
            idmap_config(*old(m)).span as nat,
            start,
            end,
            flags,
        ),
{
    match m.map_range(&MemoryRegion::new(start, end), Attributes::from_bits_retain(flags as usize)) {
        Ok(()) => Ok(()),
        Err(MapError::AddressRange(_)) => Err(PagingError::AddressRange),
        Err(MapError::InvalidVirtualAddress(_)) => Err(PagingError::InvalidVirtualAddress),
        Err(MapError::RegionBackwards(_)) => Err(PagingError::RegionBackwards),
        Err(MapError::PteUpdateFault(_)) => Err(PagingError::PteUpdateFault),
        Err(MapError::InvalidFlags(_)) => Err(PagingError::InvalidFlags),
        Err(MapError::BreakBeforeMakeViolation(_)) => Err(PagingError::BreakBeforeMakeViolation),
    }
}

/// The attribute flags of the page-table library that this kernel uses.
#[derive(PartialEq, Eq, Structural, Clone, Copy, Debug)]
pub enum AttributeFlag {
    Valid,
    AttributeIndex0,
    AttributeIndex1,
    InnerShareable,
    Accessed,
    NonGlobal,
    Uxn,
}

/// The bits of each flag as the page-table library defines them.
pub open spec fn flag_bits(flag: AttributeFlag) -> u64 {
    match flag {
        AttributeFlag::Valid => 0x1,
        AttributeFlag::AttributeIndex0 => 0x0,
        AttributeFlag::AttributeIndex1 => 0x4,
        AttributeFlag::InnerShareable => 0x300,
        AttributeFlag::Accessed => 0x400,
        AttributeFlag::NonGlobal => 0x800,
        AttributeFlag::Uxn => 0x40_0000_0000_0000,
    }
}

/// Returns the bits of the `Attributes` constant that `flag` names:
/// `VALID = 1 << 0`, `ATTRIBUTE_INDEX_0 = 0 << 2`, `ATTRIBUTE_INDEX_1 = 1 << 2`,
/// `INNER_SHAREABLE = 3 << 8`, `ACCESSED = 1 << 10`, `NON_GLOBAL = 1 << 11`,
/// `UXN = 1 << 54`, as the library's source defines them (the library's
/// attribute type holds 64 bits: it does not compile for a narrower `usize`).
#[verifier::external_body]
fn attribute_bits(flag: AttributeFlag) -> (r: u64)
    ensures
        r == flag_bits(flag),
{
    match flag {
        AttributeFlag::Valid => Attributes::VALID.bits() as u64,
        AttributeFlag::AttributeIndex0 => Attributes::ATTRIBUTE_INDEX_0.bits() as u64,
        AttributeFlag::AttributeIndex1 => Attributes::ATTRIBUTE_INDEX_1.bits() as u64,
        AttributeFlag::InnerShareable => Attributes::INNER_SHAREABLE.bits() as u64,
        AttributeFlag::Accessed => Attributes::ACCESSED.bits() as u64,
        AttributeFlag::NonGlobal => Attributes::NON_GLOBAL.bits() as u64,
        AttributeFlag::Uxn => Attributes::UXN.bits() as u64,
    }
}

// ---------------------------------------------------------------------------
// The kernel's identity mappings of the boot memory map.
// ---------------------------------------------------------------------------

/// The kinds of memory-map entry that the mapping distinguishes.
#[derive(PartialEq, Eq, Structural, Clone, Copy, Debug)]
pub enum MemoryKind {
    /// Freely usable RAM.
    Usable,
    /// Permanently reserved memory.
    Reserved,
    /// Any other kind of entry.
    Other,
}

/// One entry of the boot memory map: `length` bytes starting at `base`.
#[derive(PartialEq, Eq, Structural, Clone, Copy, Debug)]
pub struct MemoryMapEntry {
    pub base: u64,
    pub length: u64,
    pub kind: MemoryKind,
}

/// The largest address, exclusive, that a table with a level-1 root can map.
pub open spec fn level1_span() -> int {
    0x80_0000_0000
}

impl MemoryMapEntry {
    /// The first byte after the entry.
    pub open spec fn end(self) -> int {
        self.base + self.length
    }

    /// Whether the entry can be identity mapped by a table with a level-1
    /// root: its end neither overflows nor is zero, and its end rounded up to
    /// a page lies within the table's span and within `usize`.
    pub open spec fn spec_mappable(self) -> bool {
        &&& 0 < self.end()
        &&& self.end() <= level1_span()
        &&& page_round_up(self.end()) <= usize::MAX
    }

    /// Whether an entry can be mapped rests on its base and length alone,
    /// not on its kind: usable RAM, reserved memory and every other kind are
    /// all mapped (each with its own attributes). An entry can be mapped when
    /// its end is above zero, at most the table's span and a page short of the
    /// top of `usize`, and only when its end is above zero and within the span.
    pub proof fn lemma_mappable_ignores_kind(self, other: MemoryMapEntry)
        ensures
            self.base == other.base && self.length == other.length ==> self.spec_mappable()
                == other.spec_mappable(),
            0 < self.end() <= 0x80_0000_0000 && self.end() + 4095 <= usize::MAX ==> self.spec_mappable(),
            self.spec_mappable() ==> 0 < self.end() <= 0x80_0000_0000,
    {
        lemma_page_round_up_bounds(self.end());
    }

    /// Decides `spec_mappable`.
    pub fn mappable(&self) -> (r: bool)
        ensures
            r == self.spec_mappable(),
    {
        match self.base.checked_add(self.length) {
            None => {
                assert(self.end() > u64::MAX);
                false
            },
            Some(end) => {
                if end == 0 || end > 0x80_0000_0000u64 {
                    false
                } else {
                    proof {
                        lemma_page_round_up_bounds(end as int);
                    }
                    (end as u128) + 4095 <= (usize::MAX as u128)
                }
            },
        }
    }
}

/// Rounding up to a page adds less than a page.
proof fn lemma_page_round_up_bounds(v: int)
    requires
        0 <= v,
    ensures
        v <= page_round_up(v) <= v + 4095,
        page_round_up(v) % 4096 == 0,
{
    assert(v <= ((v + 4095) / 4096) * 4096 <= v + 4095) by (nonlinear_arith)
        requires
            0 <= v,
    ;
    assert((((v + 4095) / 4096) * 4096) % 4096 == 0) by (nonlinear_arith);
}

/// The attributes of normal memory, as the kernel maps usable RAM: valid,
/// memory attribute index 1, inner shareable, accessed, not global.
pub open spec fn normal_cacheable_spec() -> u64 {
    flag_bits(AttributeFlag::Valid) | flag_bits(AttributeFlag::AttributeIndex1)
        | flag_bits(AttributeFlag::InnerShareable) | flag_bits(AttributeFlag::Accessed)
        | flag_bits(AttributeFlag::NonGlobal)
}

/// The attributes of device memory, as the kernel maps every other entry:
/// valid, memory attribute index 0, accessed, execute-never.
pub open spec fn device_attr_spec() -> u64 {
    flag_bits(AttributeFlag::Valid) | flag_bits(AttributeFlag::AttributeIndex0)
        | flag_bits(AttributeFlag::Accessed) | flag_bits(AttributeFlag::Uxn)
}

/// The attributes with which an entry of `kind` is mapped.
pub open spec fn attributes_spec(kind: MemoryKind) -> u64 {
    match kind {
        MemoryKind::Usable => normal_cacheable_spec(),
        MemoryKind::Reserved => device_attr_spec(),
        MemoryKind::Other => device_attr_spec(),
    }
}

/// The memory attribute index (bits 2 to 4) of attribute bits.
pub open spec fn attribute_index(bits: u64) -> u64 {
    (bits >> 2u64) & 7
}

/// The shareability field (bits 8 and 9) of attribute bits.
pub open spec fn shareability(bits: u64) -> u64 {
    (bits >> 8u64) & 3
}

/// The settings of each table the kernel builds: a level-1 root, ASID 1, the
/// non-secure EL1&0 regime.
pub open spec fn entry_table_config() -> TableConfig {
    TableConfig { span: 0x80_0000_0000, asid: 1, regime: Regime::El1And0 }
}

/// The pages that the kernel maps for `entry`, each to itself, with their attributes.
pub open spec fn entry_pages(entry: MemoryMapEntry) -> Map<usize, (usize, u64)> {
    pages_in(page_round_down(entry.base as int), page_round_up(entry.end()), attributes_spec(entry.kind))
}

pub proof fn lemma_attribute_values()
    ensures
        normal_cacheable_spec() == 0xf05,
        device_attr_spec() == 0x40_0000_0000_0401,
{
    assert(0x1u64 | 0x4u64 | 0x300u64 | 0x400u64 | 0x800u64 == 0xf05u64) by (bit_vector);
    assert(0x1u64 | 0x0u64 | 0x400u64 | 0x40_0000_0000_0000u64 == 0x40_0000_0000_0401u64)
        by (bit_vector);
}

/// Usable RAM is mapped as valid, accessed, inner-shareable normal memory of
/// attribute index 1 that may be executed; every other entry as valid,
/// accessed, non-shareable memory of attribute index 0 that may not be
/// executed. Both are valid, and neither carries the table/page marker that
/// the page-table library refuses in mapping flags nor any bit of the output
/// address field.
pub proof fn lemma_attributes_by_kind(kind: MemoryKind)
    ensures
        attributes_spec(kind) & flag_bits(AttributeFlag::Valid) != 0,
        attributes_spec(kind) & flag_bits(AttributeFlag::Accessed) != 0,
        attributes_spec(kind) & table_or_page_bit() == 0,
        attributes_spec(kind) & output_address_bits() == 0,
        attributes_spec(kind) & valid_bit() == valid_bit(),
        kind == MemoryKind::Usable ==> {
            &&& attribute_index(attributes_spec(kind)) == 1
            &&& shareability(attributes_spec(kind)) == 3
            &&& attributes_spec(kind) & flag_bits(AttributeFlag::Uxn) == 0
            &&& attributes_spec(kind) & flag_bits(AttributeFlag::NonGlobal) != 0
        },
        kind != MemoryKind::Usable ==> {
            &&& attribute_index(attributes_spec(kind)) == 0
            &&& shareability(attributes_spec(kind)) == 0
            &&& attributes_spec(kind) & flag_bits(AttributeFlag::Uxn) != 0
        },
{
    lemma_attribute_values();
    let n: u64 = 0xf05;
    let d: u64 = 0x40_0000_0000_0401;
    assert(n & 1 != 0 && n & 0x400 != 0 && n & 2 == 0 && (n >> 2u64) & 7 == 1 && (n >> 8u64) & 3 == 3
        && n & 0x40_0000_0000_0000 == 0 && n & 0x800 != 0 && n & 0x0000_ffff_ffff_f000 == 0 && n & 1 == 1)
        by (bit_vector)
        requires
            n == 0xf05,
    ;
    assert(d & 1 != 0 && d & 0x400 != 0 && d & 2 == 0 && (d >> 2u64) & 7 == 0 && (d >> 8u64) & 3 == 0
        && d & 0x40_0000_0000_0000 != 0 && d & 0x0000_ffff_ffff_f000 == 0 && d & 1 == 1) by (bit_vector)
        requires
            d == 0x40_0000_0000_0401,
    ;
}

/// The mapping of the boot memory map for AArch64.
pub struct ARM64MemorySetup {}

impl ARM64MemorySetup {
    pub fn new() -> (r: Self) {
        ARM64MemorySetup {  }
    }

    /// The attributes of normal cacheable memory.
    fn normal_cacheable() -> (r: u64)
        ensures
            r == normal_cacheable_spec(),
    {
        attribute_bits(AttributeFlag::Valid) | attribute_bits(AttributeFlag::AttributeIndex1)
            | attribute_bits(AttributeFlag::InnerShareable) | attribute_bits(AttributeFlag::Accessed)
            | attribute_bits(AttributeFlag::NonGlobal)
    }

    /// The attributes of device memory.
    fn device_attr() -> (r: u64)
        ensures
            r == device_attr_spec(),
    {
        attribute_bits(AttributeFlag::Valid) | attribute_bits(AttributeFlag::AttributeIndex0)
            | attribute_bits(AttributeFlag::Accessed) | attribute_bits(AttributeFlag::Uxn)
    }

    /// The attributes with which an entry of `kind` is mapped.
    pub fn attributes_for(kind: MemoryKind) -> (r: u64)
        ensures
            r == attributes_spec(kind),
    {
        match kind {
            MemoryKind::Usable => Self::normal_cacheable(),
            MemoryKind::Reserved => Self::device_attr(),
            MemoryKind::Other => Self::device_attr(),
        }
    }

    /// Builds a fresh identity map (a level-1 root, ASID 1, the EL1&0 regime)
    /// that maps each page of `entry` to itself with the attributes of its
    /// kind. The table is not activated.
    pub fn map_entry(&self, entry: &MemoryMapEntry) -> (r: IdMap)
        requires
            entry.spec_mappable(),
        ensures
            idmap_pages(r) == entry_pages(*entry),
            idmap_config(r) == entry_table_config(),
            !idmap_active(r),
    {
        let mut idmap = new_identity_map(1, 1, Regime::El1And0);
        let start = entry.base as usize;
        let end = (entry.base + entry.length) as usize;
        let flags = Self::attributes_for(entry.kind);
        proof {
            lemma_attributes_by_kind(entry.kind);
            lemma_page_round_up_bounds(end as int);
            assert(page_round_down(start as int) <= start);
            assert(start <= end);
        }
        let result = identity_map_range(&mut idmap, start, end, flags);
        proof {
            assert(result is Ok);
            assert(idmap_pages(idmap) =~= entry_pages(*entry));
        }
        idmap
    }

    /// Maps every entry of the memory map, in order, each into a page table of
    /// its own. The tables are returned inactive; activating them is up to the
    /// caller.
    pub fn map(&self, entries: &Vec<MemoryMapEntry>) -> (r: Vec<IdMap>)
        requires
            forall|i: int| 0 <= i < entries.len() ==> (#[trigger] entries[i]).spec_mappable(),
        ensures
            r.len() == entries.len(),
            forall|i: int| 0 <= i < r.len() ==> idmap_pages(#[trigger] r[i]) == entry_pages(entries[i]),
            forall|i: int| 0 <= i < r.len() ==> idmap_config(#[trigger] r[i]) == entry_table_config(),
            forall|i: int| 0 <= i < r.len() ==> !idmap_active(#[trigger] r[i]),
    {
        let mut maps: Vec<IdMap> = Vec::new();
        let mut i: usize = 0;
        while i < entries.len()
            invariant
                i <= entries.len(),
                maps.len() == i,
                forall|j: int| 0 <= j < entries.len() ==> (#[trigger] entries[j]).spec_mappable(),
                forall|j: int| 0 <= j < i ==> idmap_pages(#[trigger] maps[j]) == entry_pages(entries[j]),
                forall|j: int| 0 <= j < i ==> idmap_config(#[trigger] maps[j]) == entry_table_config(),
                forall|j: int| 0 <= j < i ==> !idmap_active(#[trigger] maps[j]),
            decreases entries.len() - i,
        {
            let idmap = self.map_entry(&entries[i]);
            maps.push(idmap);
            i = i + 1;
        }
        maps
    }
}

/// The memory setup of the architecture the kernel runs on.
pub struct MemorySetup {
    setup_api: ARM64MemorySetup,
}

impl MemorySetup {
    /// The memory setup for `arch`. Only AArch64 has one: the setup for
    /// x86_64 is unimplemented and RISC-V has none.
    pub fn new(arch: Arch) -> (r: Self)
        requires
            arch == Arch::Aarch64,
    {
        let api = ARM64MemorySetup::new();
        MemorySetup { setup_api: api }
    }

    /// Identity maps every entry of the boot memory map, one page table per
    /// entry, in order: usable RAM as normal memory, every other entry as
    /// device memory.
    pub fn map(&self, entries: &Vec<MemoryMapEntry>) -> (r: Vec<IdMap>)
        requires
            forall|i: int| 0 <= i < entries.len() ==> (#[trigger] entries[i]).spec_mappable(),
        ensures
            r.len() == entries.len(),
            forall|i: int| 0 <= i < r.len() ==> idmap_pages(#[trigger] r[i]) == entry_pages(entries[i]),
            forall|i: int| 0 <= i < r.len() ==> idmap_config(#[trigger] r[i]) == entry_table_config(),
            forall|i: int| 0 <= i < r.len() ==> !idmap_active(#[trigger] r[i]),
    {
        self.setup_api.map(entries)
    }
}

} // verus!

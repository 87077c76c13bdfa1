use vstd::prelude::*;

use dtb::Reader;

verus! {

#[verifier::external_type_specification]
#[verifier::external_body]
pub struct ExReader<'a>(dtb::Reader<'a>);

/// The reserved-memory entries of a parsed device tree blob, in the order of
/// the blob, each as its address and its size.
pub uninterp spec fn dtb_reserved_entries(r: Reader) -> Seq<(u64, u64)>;

/// The big-endian 32-bit word at byte `at` of `b`.
pub open spec fn be_u32(b: Seq<u8>, at: int) -> int {
    ((b[at] as int) * 0x100_0000 + (b[at + 1] as int) * 0x1_0000 + (b[at + 2] as int) * 0x100 + (
    b[at + 3] as int))
}

/// The big-endian 64-bit word at byte `at` of `b`.
pub open spec fn be_u64(b: Seq<u8>, at: int) -> u64 {
    (be_u32(b, at) * 0x1_0000_0000 + be_u32(b, at + 4)) as u64
}

/// The reserved-memory entries of a blob from byte `pos` on: pairs of
/// big-endian addresses and sizes, up to the first all-zero pair.
pub open spec fn reserved_from(b: Seq<u8>, pos: int) -> Seq<(u64, u64)>
    decreases b.len() - pos,
{
    if pos < 0 || pos + 16 > b.len() {
        Seq::empty()
    } else {
        let entry = (be_u64(b, pos), be_u64(b, pos + 8));
        if entry.0 == 0 && entry.1 == 0 {
            Seq::empty()
        } else {
            seq![entry] + reserved_from(b, pos + 16)
        }
    }
}

/// The reserved-memory entries of a device tree blob: those of the block
/// whose offset the header holds at byte 16.
pub open spec fn blob_reserved(b: Seq<u8>) -> Seq<(u64, u64)> {
    reserved_from(b, be_u32(b, 16))
}

/// Calls `Reader::read` on `blob`. Whether the parse succeeds depends on the
/// blob's bytes and also on its address (the library refuses a blob that is
/// not 8-byte aligned), so success is not promised; the library's error is
/// dropped. A reader it returns holds the reserved-memory entries of the blob:
/// the library reads them at the offset in the header, big-endian, and only
/// succeeds when an all-zero entry ends them within the blob.
#[verifier::external_body]
fn read_blob<'a>(blob: &'a [u8]) -> (r: Option<Reader<'a>>)
    ensures
        r matches Some(rd) ==> dtb_reserved_entries(rd) == blob_reserved(blob@),
{
    Reader::read(blob).ok()
}

/// Calls `Reader::reserved_mem_entries` and collects what the iterator yields,
/// each entry as its address and size, in order.
#[verifier::external_body]
fn reserved_entries(r: &Reader) -> (v: Vec<(u64, u64)>)
    ensures
        v@ == dtb_reserved_entries(*r),
{
    r.reserved_mem_entries().map(|e| (e.address, e.size)).collect()
}

/// A reader of the device tree blob that the firmware left in memory.
pub struct DTBReader<'a> {
    dtb_addr: usize,
    reader: Reader<'a>,
}

impl<'a> DTBReader<'a> {
    pub closed spec fn address(&self) -> usize {
        self.dtb_addr
    }

    /// The reserved-memory entries of the blob.
    pub closed spec fn reserved(&self) -> Seq<(u64, u64)> {
        dtb_reserved_entries(self.reader)
    }

    /// The reader of the blob found at `dtb_addr`, from what the device tree
    /// library made of it: `None` when the library refused the blob, else a
    /// reader at `dtb_addr` whose reserved-memory entries are the parsed ones.
    pub fn from_parsed(dtb_addr: usize, parsed: Option<Reader<'a>>) -> (r: Option<Self>)
        ensures
            r is Some <==> parsed is Some,
            r matches Some(d) ==> d.address() == dtb_addr && d.reserved() == dtb_reserved_entries(
                parsed->Some_0,
            ),
    {
        match parsed {
            Some(reader) => Some(DTBReader { dtb_addr, reader }),
            None => None,
        }
    }

    /// Parses the blob `blob`, found at `dtb_addr`; `None` when the library
    /// refuses it. Whether it does depends on the blob's address as well as
    /// on its bytes; a reader it returns lists the blob's reserved entries.
    pub fn new(dtb_addr: usize, blob: &'a [u8]) -> (r: Option<Self>)
        ensures
            r matches Some(d) ==> d.address() == dtb_addr && d.reserved() == blob_reserved(blob@),
    {
        Self::from_parsed(dtb_addr, read_blob(blob))
    }

    /// The reserved-memory regions of the blob, each as its start address and
    /// its size, in the order of the blob.
    pub fn list_reserved_mem(&self) -> (r: Vec<(u64, u64)>)
        ensures
            r@ == self.reserved(),
    {
        reserved_entries(&self.reader)
    }
}

} // verus!

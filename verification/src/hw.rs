use vstd::prelude::*;

verus! {

/// A physical address of a device register or of memory.
pub struct Pointer {
    pub addr: usize,
}

impl Pointer {
    pub fn new(addr: usize) -> (r: Self)
        ensures
            r.addr == addr,
    {
        Pointer { addr }
    }

    /// The address at which the pointed-to byte is accessed through a mapping
    /// that starts `offset` bytes up: the higher-half direct map for reads,
    /// no offset for writes.
    pub fn offset_address(&self, offset: u64) -> (r: usize)
        requires
            self.addr + offset <= usize::MAX,
        ensures
            r == self.addr + offset,
    {
        self.addr + offset as usize
    }
}

} // verus!

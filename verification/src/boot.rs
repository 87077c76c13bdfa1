use vstd::prelude::*;

verus! {

/// The paging modes that the bootloader can report.
#[derive(Clone, Copy, PartialEq, Eq, Structural, Debug)]
pub enum PagingMode {
    FourLevel,
    FiveLevel,
    Other,
}

/// The line that the kernel prints about the paging mode it boots in.
pub fn paging_mode_message(mode: PagingMode) -> (r: &'static str)
    ensures
        mode == PagingMode::FourLevel ==> r@ == "Using FOUR_LEVEL paging mode"@,
        mode == PagingMode::FiveLevel ==> r@ == "Using FIVE_LEVEL paging mode"@,
        mode == PagingMode::Other ==> r@ == "Using unknown paging mode"@,
{
    match mode {
        PagingMode::FourLevel => "Using FOUR_LEVEL paging mode",
        PagingMode::FiveLevel => "Using FIVE_LEVEL paging mode",
        PagingMode::Other => "Using unknown paging mode",
    }
}

} // verus!

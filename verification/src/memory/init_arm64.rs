use vstd::prelude::*;

verus! {

/// The memory attribute encodings that are programmed into `MAIR_EL1`.
pub struct MairRegister {
    mt_normal: u8,
    mt_normal_no_caching: u8,
    mt_device_ngnrne: u8,
    mt_device_ngnre: u8,
}

impl MairRegister {
    /// Index of normal, write-back cacheable memory.
    pub const MT_NORMAL: usize = 0;
    /// Index of normal, non-cacheable memory.
    pub const MT_NORMAL_NO_CACHING: usize = 1;
    /// Index of Device-nGnRnE memory.
    pub const MT_DEVICE_NGNRNE: usize = 3;
    /// Index of Device-nGnRE memory.
    pub const MT_DEVICE_NGNRE: usize = 4;

    /// The attribute byte stored for normal cacheable memory.
    pub closed spec fn normal(&self) -> u8 {
        self.mt_normal
    }

    /// The attribute byte stored for normal non-cacheable memory.
    pub closed spec fn normal_no_caching(&self) -> u8 {
        self.mt_normal_no_caching
    }

    /// The attribute byte stored for Device-nGnRnE memory.
    pub closed spec fn device_ngnrne(&self) -> u8 {
        self.mt_device_ngnrne
    }

    /// The attribute byte stored for Device-nGnRE memory.
    pub closed spec fn device_ngnre(&self) -> u8 {
        self.mt_device_ngnre
    }

    pub fn new() -> (r: Self)
        ensures
            r.normal() == 0xff,
            r.normal_no_caching() == 0x44,
            r.device_ngnrne() == 0x00,
            r.device_ngnre() == 0x04,
            r.spec_value() == 0x4_0000_44ff,
    {
        assert((0xffu64 << 0u64) | (0x44u64 << 8u64) | (0u64 << 24u64) | (4u64 << 32u64) == 0x4_0000_44ffu64)
            by (bit_vector);
        Self {
            mt_normal: 0xff,
            mt_normal_no_caching: 0x44,
            mt_device_ngnrne: 0x00,
            mt_device_ngnre: 0x04,
        }
    }
}

impl MairRegister {
    /// `attr` placed in the byte of `MAIR_EL1` that belongs to attribute
    /// index `index`.
    pub open spec fn spec_mair_attr(attr: u64, index: usize) -> u64 {
        attr << (8 * index) as u64
    }

    /// The value programmed into `MAIR_EL1`: each attribute byte at its index.
    pub open spec fn spec_value(&self) -> u64 {
        Self::spec_mair_attr(self.normal() as u64, 0)
            | Self::spec_mair_attr(self.normal_no_caching() as u64, 1)
            | Self::spec_mair_attr(self.device_ngnrne() as u64, 3)
            | Self::spec_mair_attr(self.device_ngnre() as u64, 4)
    }

    /// The byte of a `MAIR_EL1` value that describes attribute index `index`.
    pub open spec fn attribute_at(mair: u64, index: usize) -> u64 {
        (mair >> (8 * index) as u64) & 0xff
    }

    fn mair_attr(attr: u64, index: usize) -> (r: u64)
        requires
            index < 8,
        ensures
            r == Self::spec_mair_attr(attr, index),
    {
        attr << (8 * index) as u64
    }

    /// The value that `setup` stores into `MAIR_EL1`.
    pub fn value(&self) -> (r: u64)
        ensures
            r == self.spec_value(),
    {
        Self::mair_attr(self.mt_normal as u64, Self::MT_NORMAL) | Self::mair_attr(
            self.mt_normal_no_caching as u64,
            Self::MT_NORMAL_NO_CACHING,
        ) | Self::mair_attr(self.mt_device_ngnrne as u64, Self::MT_DEVICE_NGNRNE)
            | Self::mair_attr(self.mt_device_ngnre as u64, Self::MT_DEVICE_NGNRE)
    }

    /// Reading the programmed value back at each index gives the attribute
    /// byte stored for that index, and the indices that hold no attribute
    /// read as zero.
    pub proof fn lemma_value_decodes(&self)
        ensures
            Self::attribute_at(self.spec_value(), Self::MT_NORMAL) == self.normal(),
            Self::attribute_at(self.spec_value(), Self::MT_NORMAL_NO_CACHING) == self.normal_no_caching(),
            Self::attribute_at(self.spec_value(), Self::MT_DEVICE_NGNRNE) == self.device_ngnrne(),
            Self::attribute_at(self.spec_value(), Self::MT_DEVICE_NGNRE) == self.device_ngnre(),
            Self::attribute_at(self.spec_value(), 2) == 0,
            Self::attribute_at(self.spec_value(), 5) == 0,
            Self::attribute_at(self.spec_value(), 6) == 0,
            Self::attribute_at(self.spec_value(), 7) == 0,
    {
        let a = self.normal() as u64;
        let b = self.normal_no_caching() as u64;
        let c = self.device_ngnrne() as u64;
        let d = self.device_ngnre() as u64;
        let v = self.spec_value();
        assert(v == (a << 0u64) | (b << 8u64) | (c << 24u64) | (d << 32u64));
        assert(((v >> 0u64) & 0xff) == a && ((v >> 8u64) & 0xff) == b && ((v >> 24u64) & 0xff) == c
            && ((v >> 32u64) & 0xff) == d && ((v >> 16u64) & 0xff) == 0 && ((v >> 40u64) & 0xff) == 0
            && ((v >> 48u64) & 0xff) == 0 && ((v >> 56u64) & 0xff) == 0) by (bit_vector)
            requires
                a < 256,
                b < 256,
                c < 256,
                d < 256,
                v == (a << 0u64) | (b << 8u64) | (c << 24u64) | (d << 32u64),
        ;
    }
}

} // verus!

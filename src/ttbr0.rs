//! TTBR0 (*Translation Table Base Register 0*).

use vstd::prelude::*;

use crate::bits::{bit_of, field_of, get_bit, get_field, lemma_low_masks, low_mask, put_bit, put_field, with_bit_of, with_field_of};

verus! {

/// Outer cacheability attributes
#[derive(Clone, Copy, Debug, PartialEq, Eq, Structural)]
pub enum Region {
    /// Normal memory, Outer Non-cacheable
    NonCacheable,
    /// Normal memory, Outer Write-Back Write-Allocate Cacheable
    WriteBackWriteAllocateCacheable,
    /// Normal memory, Outer Write-Through Cacheable
    WriteThroughCacheable,
    /// Normal memory, Outer Write-Back no Write-Allocate Cacheable
    WriteBackNoWriteAllocateCacheable,
}

impl Region {
    /// The 2-bit encoding of this value.
    pub open spec fn raw_spec(self) -> u32 {
        match self {
            Region::NonCacheable => 0,
            Region::WriteBackWriteAllocateCacheable => 1,
            Region::WriteThroughCacheable => 2,
            Region::WriteBackNoWriteAllocateCacheable => 3,
        }
    }

    /// The value whose encoding is `v` (every 2-bit pattern names one).
    pub open spec fn from_raw_spec(v: u32) -> Region {
        if v == 0 {
            Region::NonCacheable
        } else if v == 1 {
            Region::WriteBackWriteAllocateCacheable
        } else if v == 2 {
            Region::WriteThroughCacheable
        } else {
            Region::WriteBackNoWriteAllocateCacheable
        }
    }

    /// Decodes a 2-bit pattern.
    pub fn new_with_raw_value(v: u8) -> (r: Region)
        requires
            v < 4,
        ensures
            r == Region::from_raw_spec(v as u32),
    {
        match v {
            0 => Region::NonCacheable,
            1 => Region::WriteBackWriteAllocateCacheable,
            2 => Region::WriteThroughCacheable,
            _ => Region::WriteBackNoWriteAllocateCacheable,
        }
    }

    /// The 2-bit pattern of this value.
    pub fn raw_value(&self) -> (r: u8)
        ensures
            r as u32 == self.raw_spec(),
    {
        match self {
            Region::NonCacheable => 0,
            Region::WriteBackWriteAllocateCacheable => 1,
            Region::WriteThroughCacheable => 2,
            Region::WriteBackNoWriteAllocateCacheable => 3,
        }
    }
}

/// Every 2-bit pattern decodes to exactly one `Region`, which encodes
/// back to that pattern; decoding cannot fail.
pub proof fn lemma_region_exhaustive(v: u32)
    requires
        v < 4,
    ensures
        Region::from_raw_spec(v).raw_spec() == v,
        forall|e: Region| #[trigger] Region::from_raw_spec(e.raw_spec()) == e,
{
}

/// TTBR0 (*Translation Table Base Register 0*)
#[derive(Clone, Copy, Debug, PartialEq, Eq, Structural)]
pub struct Ttbr0 {
    raw: u32,
}

impl Ttbr0 {
    /// The raw register value.
    pub closed spec fn raw_spec(self) -> u32 {
        self.raw
    }

    /// Wraps a raw value as it stands.
    pub fn new_with_raw_value(raw: u32) -> (r: Ttbr0)
        ensures
            r.raw_spec() == raw,
    {
        Ttbr0 { raw }
    }

    /// The raw value.
    pub fn raw_value(&self) -> (r: u32)
        ensures
            r == self.raw_spec(),
    {
        self.raw
    }

    /// Translation table base 0 address (bits 31:7; the usable width depends on TTBCR.N)
    pub fn addr(&self) -> (r: u32)
        ensures
            r as u32 == field_of(self.raw_spec(), 7, 25),
    {
        proof {
            lemma_low_masks();
        }
        get_field(self.raw, 7, 25)
    }

    /// This value with `addr` set to `v`; every other bit is kept.
    pub fn with_addr(self, v: u32) -> (r: Ttbr0)
        requires
            (v as u32) <= low_mask(25),
        ensures
            r.raw_spec() == with_field_of(self.raw_spec(), 7, 25, v as u32),
    {
        Ttbr0 { raw: put_field(self.raw, 7, 25, v as u32) }
    }

    /// Inner Region
    pub fn irgn(&self) -> (r: bool)
        ensures
            r == bit_of(self.raw_spec(), 6),
    {
        get_bit(self.raw, 6)
    }

    /// This value with `irgn` set to `v`; every other bit is kept.
    pub fn with_irgn(self, v: bool) -> (r: Ttbr0)
        ensures
            r.raw_spec() == with_bit_of(self.raw_spec(), 6, v),
    {
        Ttbr0 { raw: put_bit(self.raw, 6, v) }
    }

    /// Not Outer Shareable (ignored when `s` is clear)
    pub fn nos(&self) -> (r: bool)
        ensures
            r == bit_of(self.raw_spec(), 5),
    {
        get_bit(self.raw, 5)
    }

    /// This value with `nos` set to `v`; every other bit is kept.
    pub fn with_nos(self, v: bool) -> (r: Ttbr0)
        ensures
            r.raw_spec() == with_bit_of(self.raw_spec(), 5, v),
    {
        Ttbr0 { raw: put_bit(self.raw, 5, v) }
    }

    /// Region bits: the Outer cacheability attributes for translation table walks
    pub fn rgn(&self) -> (r: Region)
        ensures
            r == Region::from_raw_spec(field_of(self.raw_spec(), 3, 2)),
    {
        proof {
            lemma_low_masks();
        }
        Region::new_with_raw_value(get_field(self.raw, 3, 2) as u8)
    }

    /// This value with `rgn` set to `v`; every other bit is kept.
    pub fn with_rgn(self, v: Region) -> (r: Ttbr0)
        ensures
            r.raw_spec() == with_field_of(self.raw_spec(), 3, 2, v.raw_spec()),
    {
        Ttbr0 { raw: put_field(self.raw, 3, 2, v.raw_value() as u32) }
    }

    /// Shareable
    pub fn s(&self) -> (r: bool)
        ensures
            r == bit_of(self.raw_spec(), 1),
    {
        get_bit(self.raw, 1)
    }

    /// This value with `s` set to `v`; every other bit is kept.
    pub fn with_s(self, v: bool) -> (r: Ttbr0)
        ensures
            r.raw_spec() == with_bit_of(self.raw_spec(), 1, v),
    {
        Ttbr0 { raw: put_bit(self.raw, 1, v) }
    }

    /// Cacheable (Inner)
    pub fn c(&self) -> (r: bool)
        ensures
            r == bit_of(self.raw_spec(), 0),
    {
        get_bit(self.raw, 0)
    }

    /// This value with `c` set to `v`; every other bit is kept.
    pub fn with_c(self, v: bool) -> (r: Ttbr0)
        ensures
            r.raw_spec() == with_bit_of(self.raw_spec(), 0, v),
    {
        Ttbr0 { raw: put_bit(self.raw, 0, v) }
    }

    /// Get the address
    ///
    /// Returns a full 32-bit memory address: the register with its low seven
    /// bits cleared.
    pub fn get_address(&self) -> (r: usize)
        ensures
            r == self.raw_spec() & 0xFFFF_FF80,
    {
        (self.raw & 0xFFFF_FF80) as usize
    }

    /// Set the address
    ///
    /// Pass a full 32-bit memory address. It will be shifted before being
    /// stored in this value; its low seven bits are dropped.
    pub fn set_address(&mut self, address: usize)
        requires
            address <= u32::MAX,
        ensures
            final(self).raw_spec() == with_field_of(old(self).raw_spec(), 7, 25, (address >> 7) as u32),
    {
        *self = self.with_address(address);
    }

    /// Change the address
    ///
    /// Pass a full 32-bit memory address. It will be shifted before being
    /// stored in the returned value; its low seven bits are dropped.
    pub fn with_address(self, address: usize) -> (r: Ttbr0)
        requires
            address <= u32::MAX,
        ensures
            r.raw_spec() == with_field_of(self.raw_spec(), 7, 25, (address >> 7) as u32),
    {
        let a = address as u32;
        assert(a >> 7u32 <= 0x1FF_FFFFu32) by (bit_vector);
        proof {
            lemma_low_masks();
        }
        self.with_addr(a >> 7)
    }
}

} // verus!

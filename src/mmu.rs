//! MMU programming on a VMSA (Virtual Memory System Architecture) platform:
//! level-1 section descriptors and the attribute bundles they encode.

use vstd::prelude::*;

use crate::bits::{
    bit_of, field_of, flag, flag_bit, get_bit, get_field, lemma_low_masks, low_mask,
};

verus! {

/// Number of 1 MiB pages in a 4 GiB virtual address space
pub const NUM_L1_PAGE_TABLE_ENTRIES: usize = 4096;

/// Bits of a physical address below the 1 MiB section granule.
pub const SECTION_OFFSET_MASK: u32 = 0x000F_FFFF;

/// Access permissions for a region of memory (the APX:AP bits).
#[derive(Clone, Copy, Debug, PartialEq, Eq, Structural)]
pub enum AccessPermissions {
    PermissionFault,
    PrivilegedOnly,
    NoUserWrite,
    FullAccess,
    _Reserved1,
    PrivilegedReadOnly,
    ReadOnly,
    _Reserved2,
}

impl AccessPermissions {
    /// The 3-bit encoding `APX:AP` of these permissions.
    pub open spec fn raw_spec(self) -> u32 {
        match self {
            AccessPermissions::PermissionFault => 0,
            AccessPermissions::PrivilegedOnly => 1,
            AccessPermissions::NoUserWrite => 2,
            AccessPermissions::FullAccess => 3,
            AccessPermissions::_Reserved1 => 4,
            AccessPermissions::PrivilegedReadOnly => 5,
            AccessPermissions::ReadOnly => 6,
            AccessPermissions::_Reserved2 => 7,
        }
    }

    /// The permissions whose encoding is `v` (every 3-bit pattern names one).
    pub open spec fn from_raw_spec(v: u32) -> AccessPermissions {
        if v == 0 {
            AccessPermissions::PermissionFault
        } else if v == 1 {
            AccessPermissions::PrivilegedOnly
        } else if v == 2 {
            AccessPermissions::NoUserWrite
        } else if v == 3 {
            AccessPermissions::FullAccess
        } else if v == 4 {
            AccessPermissions::_Reserved1
        } else if v == 5 {
            AccessPermissions::PrivilegedReadOnly
        } else if v == 6 {
            AccessPermissions::ReadOnly
        } else {
            AccessPermissions::_Reserved2
        }
    }

    /// Decodes a 3-bit `APX:AP` pattern.
    pub fn new_with_raw_value(v: u8) -> (r: AccessPermissions)
        requires
            v < 8,
        ensures
            r == AccessPermissions::from_raw_spec(v as u32),
            r.raw_spec() == v,
    {
        match v {
            0 => AccessPermissions::PermissionFault,
            1 => AccessPermissions::PrivilegedOnly,
            2 => AccessPermissions::NoUserWrite,
            3 => AccessPermissions::FullAccess,
            4 => AccessPermissions::_Reserved1,
            5 => AccessPermissions::PrivilegedReadOnly,
            6 => AccessPermissions::ReadOnly,
            _ => AccessPermissions::_Reserved2,
        }
    }

    /// The 3-bit `APX:AP` pattern of these permissions.
    pub fn raw_value(&self) -> (r: u8)
        ensures
            r as u32 == self.raw_spec(),
    {
        match self {
            AccessPermissions::PermissionFault => 0,
            AccessPermissions::PrivilegedOnly => 1,
            AccessPermissions::NoUserWrite => 2,
            AccessPermissions::FullAccess => 3,
            AccessPermissions::_Reserved1 => 4,
            AccessPermissions::PrivilegedReadOnly => 5,
            AccessPermissions::ReadOnly => 6,
            AccessPermissions::_Reserved2 => 7,
        }
    }

    /// Builds the permissions from the APX bit and the 2-bit AP field.
    pub fn new(apx: bool, ap: u8) -> (r: AccessPermissions)
        requires
            ap < 4,
        ensures
            r.raw_spec() == 4 * flag(apx) + ap,
    {
        let v: u8 = if apx {
            4 + ap
        } else {
            ap
        };
        AccessPermissions::new_with_raw_value(v)
    }

    /// AP bits for the given access permission.
    pub fn ap(&self) -> (r: u8)
        ensures
            r as u32 == self.raw_spec() % 4,
    {
        self.raw_value() % 4
    }

    /// APX bit for the given access permission.
    pub fn apx(&self) -> (r: bool)
        ensures
            r == (self.raw_spec() >= 4),
    {
        self.raw_value() > 3
    }
}

/// The type of an L1 Entry
#[derive(Clone, Copy, Debug, PartialEq, Eq, Structural)]
pub enum L1EntryType {
    /// Access generates an abort exception. Indicates an unmapped virtual address.
    Fault,
    /// Entry points to a L2 translation table, allowing 1 MB of memory to be further divided
    PageTable,
    /// Maps a 1 MB region to a physical address.
    Section,
    /// Special 1MB section entry which requires 16 entries in the translation table.
    Supersection,
}

impl L1EntryType {
    /// The 2-bit encoding of this entry type.
    pub open spec fn raw_spec(self) -> u32 {
        match self {
            L1EntryType::Fault => 0,
            L1EntryType::PageTable => 1,
            L1EntryType::Section => 2,
            L1EntryType::Supersection => 3,
        }
    }

    /// The entry type whose encoding is `v` (every 2-bit pattern names one).
    pub open spec fn from_raw_spec(v: u32) -> L1EntryType {
        if v == 0 {
            L1EntryType::Fault
        } else if v == 1 {
            L1EntryType::PageTable
        } else if v == 2 {
            L1EntryType::Section
        } else {
            L1EntryType::Supersection
        }
    }

    /// Decodes a 2-bit entry-type pattern.
    pub fn new_with_raw_value(v: u8) -> (r: L1EntryType)
        requires
            v < 4,
        ensures
            r == L1EntryType::from_raw_spec(v as u32),
            r.raw_spec() == v,
    {
        match v {
            0 => L1EntryType::Fault,
            1 => L1EntryType::PageTable,
            2 => L1EntryType::Section,
            _ => L1EntryType::Supersection,
        }
    }

    /// The 2-bit pattern of this entry type.
    pub fn raw_value(&self) -> (r: u8)
        ensures
            r as u32 == self.raw_spec(),
    {
        match self {
            L1EntryType::Fault => 0,
            L1EntryType::PageTable => 1,
            L1EntryType::Section => 2,
            L1EntryType::Supersection => 3,
        }
    }
}

/// Represents an invalid L1 Entry: the entry type that was found instead.
#[derive(Clone, Copy, Debug, PartialEq, Eq, Structural)]
pub struct InvalidL1EntryType(pub L1EntryType);

/// A physical address that is not aligned to the 1 MiB section granule.
#[derive(Clone, Copy, Debug, PartialEq, Eq, Structural)]
pub struct UnalignedSectionAddress(pub u32);

/// The TEX, C and B bits of a region.
///
/// The B (Bufferable), C (Cacheable), and TEX (Type extension) bit names are
/// inherited from earlier versions of the architecture. These names no longer
/// adequately describe the function of the B, C, and TEX bits.
#[derive(Clone, Copy, Debug, PartialEq, Eq, Structural)]
pub struct MemoryRegionAttributesRaw {
    /// TEX bits (3 bits)
    pub type_extensions: u8,
    pub c: bool,
    pub b: bool,
}

impl MemoryRegionAttributesRaw {
    /// The TEX field fits in its 3 bits.
    pub open spec fn wf(self) -> bool {
        self.type_extensions < 8
    }

    pub fn new(type_extensions: u8, c: bool, b: bool) -> (r: MemoryRegionAttributesRaw)
        requires
            type_extensions < 8,
        ensures
            r == (MemoryRegionAttributesRaw { type_extensions, c, b }),
            r.wf(),
    {
        MemoryRegionAttributesRaw { type_extensions, c, b }
    }
}

/// Whether/how a region is cacheable
#[derive(Clone, Copy, Debug, PartialEq, Eq, Structural)]
pub enum CacheableMemoryAttribute {
    NonCacheable,
    WriteBackWriteAlloc,
    WriteThroughNoWriteAlloc,
    WriteBackNoWriteAlloc,
}

impl CacheableMemoryAttribute {
    /// The 2-bit encoding of this cache policy.
    pub open spec fn raw_spec(self) -> u32 {
        match self {
            CacheableMemoryAttribute::NonCacheable => 0,
            CacheableMemoryAttribute::WriteBackWriteAlloc => 1,
            CacheableMemoryAttribute::WriteThroughNoWriteAlloc => 2,
            CacheableMemoryAttribute::WriteBackNoWriteAlloc => 3,
        }
    }

    /// The 2-bit pattern of this cache policy.
    pub fn raw_value(&self) -> (r: u8)
        ensures
            r as u32 == self.raw_spec(),
    {
        match self {
            CacheableMemoryAttribute::NonCacheable => 0,
            CacheableMemoryAttribute::WriteBackWriteAlloc => 1,
            CacheableMemoryAttribute::WriteThroughNoWriteAlloc => 2,
            CacheableMemoryAttribute::WriteBackNoWriteAlloc => 3,
        }
    }
}

/// Memory attributes for a region
#[derive(Clone, Copy, Debug, PartialEq, Eq, Structural)]
pub enum MemoryRegionAttributes {
    StronglyOrdered,
    ShareableDevice,
    OuterAndInnerWriteThroughNoWriteAlloc,
    OuterAndInnerWriteBackNoWriteAlloc,
    OuterAndInnerNonCacheable,
    OuterAndInnerWriteBackWriteAlloc,
    NonShareableDevice,
    CacheableMemory { inner: CacheableMemoryAttribute, outer: CacheableMemoryAttribute },
}

/// The TEX, C and B bits that encode a memory type (ARMv7 short-descriptor
/// format, TEX remap disabled).
pub open spec fn raw_attrs_of(a: MemoryRegionAttributes) -> MemoryRegionAttributesRaw {
    match a {
        MemoryRegionAttributes::StronglyOrdered => MemoryRegionAttributesRaw {
            type_extensions: 0,
            c: false,
            b: false,
        },
        MemoryRegionAttributes::ShareableDevice => MemoryRegionAttributesRaw {
            type_extensions: 0,
            c: false,
            b: true,
        },
        MemoryRegionAttributes::OuterAndInnerWriteThroughNoWriteAlloc => MemoryRegionAttributesRaw {
            type_extensions: 0,
            c: true,
            b: false,
        },
        MemoryRegionAttributes::OuterAndInnerWriteBackNoWriteAlloc => MemoryRegionAttributesRaw {
            type_extensions: 0,
            c: true,
            b: true,
        },
        MemoryRegionAttributes::OuterAndInnerNonCacheable => MemoryRegionAttributesRaw {
            type_extensions: 1,
            c: false,
            b: false,
        },
        MemoryRegionAttributes::OuterAndInnerWriteBackWriteAlloc => MemoryRegionAttributesRaw {
            type_extensions: 1,
            c: true,
            b: true,
        },
        MemoryRegionAttributes::NonShareableDevice => MemoryRegionAttributesRaw {
            type_extensions: 2,
            c: false,
            b: false,
        },
        // TEX = 0b1AA with AA the outer policy; C:B is the inner policy.
        MemoryRegionAttributes::CacheableMemory { inner, outer } => MemoryRegionAttributesRaw {
            type_extensions: (4 + outer.raw_spec()) as u8,
            c: inner.raw_spec() >= 2,
            b: inner.raw_spec() % 2 == 1,
        },
    }
}

impl MemoryRegionAttributes {
    /// The TEX, C and B bits for this memory type.
    pub fn as_raw(&self) -> (r: MemoryRegionAttributesRaw)
        ensures
            r == raw_attrs_of(*self),
            r.wf(),
    {
        match self {
            MemoryRegionAttributes::StronglyOrdered => MemoryRegionAttributesRaw::new(0, false, false),
            MemoryRegionAttributes::ShareableDevice => MemoryRegionAttributesRaw::new(0, false, true),
            MemoryRegionAttributes::OuterAndInnerWriteThroughNoWriteAlloc => {
                MemoryRegionAttributesRaw::new(0, true, false)
            },
            MemoryRegionAttributes::OuterAndInnerWriteBackNoWriteAlloc => {
                MemoryRegionAttributesRaw::new(0, true, true)
            },
            MemoryRegionAttributes::OuterAndInnerNonCacheable => {
                MemoryRegionAttributesRaw::new(1, false, false)
            },
            MemoryRegionAttributes::OuterAndInnerWriteBackWriteAlloc => {
                MemoryRegionAttributesRaw::new(1, true, true)
            },
            MemoryRegionAttributes::NonShareableDevice => MemoryRegionAttributesRaw::new(2, false, false),
            MemoryRegionAttributes::CacheableMemory { inner, outer } => {
                let i = inner.raw_value();
                assert(((i & 2) != 0) == (i >= 2) && ((i & 1) != 0) == (i % 2 == 1)) by (bit_vector)
                    requires
                        i < 4,
                ;
                MemoryRegionAttributesRaw::new(4 + outer.raw_value(), (i & 2) != 0, (i & 1) != 0)
            },
        }
    }
}

/// Individual section attributes for a L1 section.
#[derive(Clone, Copy, Debug, PartialEq, Eq, Structural)]
pub struct SectionAttributes {
    /// NG bit
    pub non_global: bool,
    /// Implementation defined bit.
    pub p_bit: bool,
    pub shareable: bool,
    /// AP bits
    pub access: AccessPermissions,
    pub memory_attrs: MemoryRegionAttributesRaw,
    /// Domain (4 bits)
    pub domain: u8,
    /// xN bit.
    pub execute_never: bool,
}

impl SectionAttributes {
    /// Every field fits in its bits of the descriptor.
    pub open spec fn wf(self) -> bool {
        self.memory_attrs.wf() && self.domain < 16
    }
}

/// Packs the fields of a section descriptor into one word, from bit 31 down:
/// base address (12 bits), nG, S, APX, TEX (3), AP (2), P, domain (4), XN, C, B,
/// entry type (2).
pub open spec fn pack_section(
    upper: u32,
    ng: u32,
    s: u32,
    apx: u32,
    tex: u32,
    ap: u32,
    p: u32,
    domain: u32,
    xn: u32,
    c: u32,
    b: u32,
    entry_type: u32,
) -> u32 {
    (upper << 20u32) | (ng << 17u32) | (s << 16u32) | (apx << 15u32) | (tex << 12u32) | (ap
        << 10u32) | (p << 9u32) | (domain << 5u32) | (xn << 4u32) | (c << 3u32) | (b << 2u32)
        | entry_type
}

/// The section descriptor that maps the 1 MiB frame numbered `upper` with
/// attributes `a`.
pub open spec fn section_word(upper: u32, a: SectionAttributes) -> u32 {
    pack_section(
        upper,
        flag(a.non_global),
        flag(a.shareable),
        flag(a.access.raw_spec() >= 4),
        a.memory_attrs.type_extensions as u32,
        a.access.raw_spec() % 4,
        flag(a.p_bit),
        a.domain as u32,
        flag(a.execute_never),
        flag(a.memory_attrs.c),
        flag(a.memory_attrs.b),
        L1EntryType::Section.raw_spec(),
    )
}

/// The attribute bits of a descriptor word, read without looking at its type.
pub open spec fn attrs_of_word(raw: u32) -> SectionAttributes {
    SectionAttributes {
        non_global: bit_of(raw, 17),
        p_bit: bit_of(raw, 9),
        shareable: bit_of(raw, 16),
        access: AccessPermissions::from_raw_spec(
            (4 * flag(bit_of(raw, 15)) + field_of(raw, 10, 2)) as u32,
        ),
        memory_attrs: MemoryRegionAttributesRaw {
            type_extensions: field_of(raw, 12, 3) as u8,
            c: bit_of(raw, 3),
            b: bit_of(raw, 2),
        },
        domain: field_of(raw, 5, 4) as u8,
        execute_never: bit_of(raw, 4),
    }
}

/// The entry type held in the low two bits of a descriptor word.
pub open spec fn entry_type_of(raw: u32) -> L1EntryType {
    L1EntryType::from_raw_spec(raw & 3)
}

/// The physical address a section descriptor maps: its upper 12 bits.
pub open spec fn address_of(raw: u32) -> u32 {
    raw & 0xFFF0_0000
}

/// What reading the section attributes of a descriptor word gives.
pub open spec fn section_attrs_of(raw: u32) -> Result<SectionAttributes, InvalidL1EntryType> {
    if entry_type_of(raw) == L1EntryType::Section {
        Ok(attrs_of_word(raw))
    } else {
        Err(InvalidL1EntryType(entry_type_of(raw)))
    }
}

/// 1 MB section translation entry, mapping a 1 MB region to a physical address.
///
/// The ARM Cortex-A architecture programmers manual chapter 9.4 (p.163) or the
/// ARMv7-A and ArmV7-R architecture reference manual p.1323 specify these
/// attributes in more detail.
#[derive(Clone, Copy, Debug, PartialEq, Eq, Structural)]
pub struct L1Section {
    raw: u32,
}

impl L1Section {
    /// The descriptor word.
    pub closed spec fn view_raw(self) -> u32 {
        self.raw
    }

    /// Wraps a descriptor word as it stands.
    pub fn new_with_raw_value(raw: u32) -> (r: L1Section)
        ensures
            r.view_raw() == raw,
    {
        L1Section { raw }
    }

    /// The descriptor word.
    pub fn raw_value(&self) -> (r: u32)
        ensures
            r == self.view_raw(),
    {
        self.raw
    }

    /// Section base address upper bits.
    pub fn base_addr_upper_bits(&self) -> (r: u16)
        ensures
            r as u32 == field_of(self.view_raw(), 20, 12),
    {
        proof {
            lemma_low_masks();
        }
        get_field(self.raw, 20, 12) as u16
    }

    /// Non-global bit.
    pub fn ng(&self) -> (r: bool)
        ensures
            r == bit_of(self.view_raw(), 17),
    {
        get_bit(self.raw, 17)
    }

    /// Shareable bit.
    pub fn s(&self) -> (r: bool)
        ensures
            r == bit_of(self.view_raw(), 16),
    {
        get_bit(self.raw, 16)
    }

    /// APX bit.
    pub fn apx(&self) -> (r: bool)
        ensures
            r == bit_of(self.view_raw(), 15),
    {
        get_bit(self.raw, 15)
    }

    /// Type extension bits.
    pub fn tex(&self) -> (r: u8)
        ensures
            r as u32 == field_of(self.view_raw(), 12, 3),
    {
        proof {
            lemma_low_masks();
        }
        get_field(self.raw, 12, 3) as u8
    }

    /// AP bits.
    pub fn ap(&self) -> (r: u8)
        ensures
            r as u32 == field_of(self.view_raw(), 10, 2),
    {
        proof {
            lemma_low_masks();
        }
        get_field(self.raw, 10, 2) as u8
    }

    /// Implementation defined bit.
    pub fn p_bit(&self) -> (r: bool)
        ensures
            r == bit_of(self.view_raw(), 9),
    {
        get_bit(self.raw, 9)
    }

    /// Domain.
    pub fn domain(&self) -> (r: u8)
        ensures
            r as u32 == field_of(self.view_raw(), 5, 4),
    {
        proof {
            lemma_low_masks();
        }
        get_field(self.raw, 5, 4) as u8
    }

    /// Execute-never bit.
    pub fn xn(&self) -> (r: bool)
        ensures
            r == bit_of(self.view_raw(), 4),
    {
        get_bit(self.raw, 4)
    }

    /// C bit.
    pub fn c(&self) -> (r: bool)
        ensures
            r == bit_of(self.view_raw(), 3),
    {
        get_bit(self.raw, 3)
    }

    /// B bit.
    pub fn b(&self) -> (r: bool)
        ensures
            r == bit_of(self.view_raw(), 2),
    {
        get_bit(self.raw, 2)
    }

    /// Entry type.
    pub fn entry_type(&self) -> (r: L1EntryType)
        ensures
            r == entry_type_of(self.view_raw()),
    {
        proof {
            lemma_low_masks();
            let raw = self.raw;
            assert(raw & 3 == (raw >> 0u32) & 3) by (bit_vector);
        }
        L1EntryType::new_with_raw_value(get_field(self.raw, 0, 2) as u8)
    }

    /// Generates a new L1 section from a physical address and section attributes.
    ///
    /// The uppermost 12 bits of the physical address define which 1 MB of
    /// virtual address space are being accessed. They will be stored in the L1
    /// section table. This address must be aligned to 1 MB.
    pub fn new_with_addr_and_attrs(phys_addr: u32, section_attrs: SectionAttributes) -> (r:
        L1Section)
        requires
            phys_addr & SECTION_OFFSET_MASK == 0,
            section_attrs.wf(),
        ensures
            r.view_raw() == section_word(phys_addr >> 20, section_attrs),
    {
        assert(phys_addr >> 20u32 < 4096u32) by (bit_vector);
        L1Section::new_with_addr_upper_bits_and_attrs((phys_addr >> 20) as u16, section_attrs)
    }

    /// Like [`L1Section::new_with_addr_and_attrs`], but reports a physical
    /// address that is not aligned to 1 MB as an error.
    pub fn try_new_with_addr_and_attrs(phys_addr: u32, section_attrs: SectionAttributes) -> (r:
        Result<L1Section, UnalignedSectionAddress>)
        requires
            section_attrs.wf(),
        ensures
            phys_addr & SECTION_OFFSET_MASK != 0 ==> r == Err::<L1Section, _>(
                UnalignedSectionAddress(phys_addr),
            ),
            phys_addr & SECTION_OFFSET_MASK == 0 ==> r is Ok && r->Ok_0.view_raw() == section_word(
                phys_addr >> 20,
                section_attrs,
            ),
    {
        if phys_addr & SECTION_OFFSET_MASK != 0 {
            Err(UnalignedSectionAddress(phys_addr))
        } else {
            Ok(L1Section::new_with_addr_and_attrs(phys_addr, section_attrs))
        }
    }

    /// Retrieve the section attributes.
    pub fn section_attrs(&self) -> (r: Result<SectionAttributes, InvalidL1EntryType>)
        ensures
            r == section_attrs_of(self.view_raw()),
    {
        SectionAttributes::from_raw(self.raw)
    }

    /// Set the section attributes without changing the address.
    pub fn set_section_attrs(&mut self, section_attrs: SectionAttributes)
        requires
            section_attrs.wf(),
        ensures
            final(self).view_raw() == section_word(
                field_of(old(self).view_raw(), 20, 12),
                section_attrs,
            ),
    {
        let upper = self.base_addr_upper_bits();
        proof {
            lemma_low_masks();
            let raw = self.raw;
            assert((raw >> 20u32) & 0xFFFu32 < 4096u32) by (bit_vector);
        }
        *self = L1Section::new_with_addr_upper_bits_and_attrs(upper, section_attrs);
    }

    /// Create a new L1 section with the given upper 12 bits of the address and
    /// section attributes.
    pub fn new_with_addr_upper_bits_and_attrs(addr_upper_twelve_bits: u16, section_attrs:
        SectionAttributes) -> (r: L1Section)
        requires
            addr_upper_twelve_bits < 4096,
            section_attrs.wf(),
        ensures
            r.view_raw() == section_word(addr_upper_twelve_bits as u32, section_attrs),
    {
        let attrs = section_attrs.l1_section_part();
        let upper = addr_upper_twelve_bits as u32;
        let raw = (upper << 20u32) | attrs.raw;
        proof {
            let a = section_attrs;
            let zero_based = section_word(0, a);
            assert(attrs.raw == zero_based);
            lemma_insert_upper(
                upper,
                flag(a.non_global),
                flag(a.shareable),
                flag(a.access.raw_spec() >= 4),
                a.memory_attrs.type_extensions as u32,
                a.access.raw_spec() % 4,
                flag(a.p_bit),
                a.domain as u32,
                flag(a.execute_never),
                flag(a.memory_attrs.c),
                flag(a.memory_attrs.b),
                2,
            );
        }
        L1Section { raw }
    }
}

impl SectionAttributes {
    /// Extract the section attributes from a raw L1 section entry.
    fn from_raw(raw: u32) -> (r: Result<SectionAttributes, InvalidL1EntryType>)
        ensures
            r == section_attrs_of(raw),
    {
        let section_type = L1Section::new_with_raw_value(raw).entry_type();
        if section_type != L1EntryType::Section {
            return Err(InvalidL1EntryType(section_type));
        }
        Ok(SectionAttributes::from_raw_unchecked(raw))
    }

    /// Retrieves the corresponding L1 section part without the section base
    /// address being set.
    fn l1_section_part(&self) -> (r: L1Section)
        requires
            self.wf(),
        ensures
            r.view_raw() == section_word(0, *self),
    {
        let ng = flag_bit(self.non_global);
        let s = flag_bit(self.shareable);
        let apx = flag_bit(self.access.apx());
        let tex = self.memory_attrs.type_extensions as u32;
        let ap = self.access.ap() as u32;
        let p = flag_bit(self.p_bit);
        let domain = self.domain as u32;
        let xn = flag_bit(self.execute_never);
        let c = flag_bit(self.memory_attrs.c);
        let b = flag_bit(self.memory_attrs.b);
        let et = L1EntryType::Section.raw_value() as u32;
        let raw = (ng << 17u32) | (s << 16u32) | (apx << 15u32) | (tex << 12u32) | (ap << 10u32) | (p
            << 9u32) | (domain << 5u32) | (xn << 4u32) | (c << 3u32) | (b << 2u32) | et;
        assert(raw == pack_section(0, ng, s, apx, tex, ap, p, domain, xn, c, b, et)) by (bit_vector)
            requires
                raw == (ng << 17u32) | (s << 16u32) | (apx << 15u32) | (tex << 12u32) | (ap
                    << 10u32) | (p << 9u32) | (domain << 5u32) | (xn << 4u32) | (c << 3u32) | (b
                    << 2u32) | et,
        ;
        L1Section { raw }
    }

    /// Extract the section attributes without checking the entry type bits.
    fn from_raw_unchecked(raw: u32) -> (r: SectionAttributes)
        ensures
            r == attrs_of_word(raw),
    {
        let l1 = L1Section::new_with_raw_value(raw);
        proof {
            lemma_low_masks();
            assert((raw >> 10u32) & 3u32 < 4u32) by (bit_vector);
            assert((raw >> 12u32) & 7u32 < 8u32) by (bit_vector);
        }
        SectionAttributes {
            non_global: l1.ng(),
            shareable: l1.s(),
            p_bit: l1.p_bit(),
            access: AccessPermissions::new(l1.apx(), l1.ap()),
            memory_attrs: MemoryRegionAttributesRaw::new(l1.tex(), l1.c(), l1.b()),
            domain: l1.domain(),
            execute_never: l1.xn(),
        }
    }
}

/// Or-ing in the frame number of a descriptor packed with frame number zero
/// gives the descriptor packed with that frame number.
proof fn lemma_insert_upper(
    upper: u32,
    ng: u32,
    s: u32,
    apx: u32,
    tex: u32,
    ap: u32,
    p: u32,
    domain: u32,
    xn: u32,
    c: u32,
    b: u32,
    entry_type: u32,
)
    ensures
        (upper << 20u32) | pack_section(0, ng, s, apx, tex, ap, p, domain, xn, c, b, entry_type)
            == pack_section(upper, ng, s, apx, tex, ap, p, domain, xn, c, b, entry_type),
{
    assert((upper << 20u32) | ((0u32 << 20u32) | (ng << 17u32) | (s << 16u32) | (apx << 15u32) | (
    tex << 12u32) | (ap << 10u32) | (p << 9u32) | (domain << 5u32) | (xn << 4u32) | (c << 3u32)
        | (b << 2u32) | entry_type) == (upper << 20u32) | (ng << 17u32) | (s << 16u32) | (apx
        << 15u32) | (tex << 12u32) | (ap << 10u32) | (p << 9u32) | (domain << 5u32) | (xn << 4u32)
        | (c << 3u32) | (b << 2u32) | entry_type) by (bit_vector);
}

/// Each field of a packed descriptor reads back the value packed into it.
proof fn lemma_unpack_section(
    upper: u32,
    ng: u32,
    s: u32,
    apx: u32,
    tex: u32,
    ap: u32,
    p: u32,
    domain: u32,
    xn: u32,
    c: u32,
    b: u32,
    entry_type: u32,
)
    requires
        upper < 4096,
        ng < 2,
        s < 2,
        apx < 2,
        tex < 8,
        ap < 4,
        p < 2,
        domain < 16,
        xn < 2,
        c < 2,
        b < 2,
        entry_type < 4,
    ensures
        ({
            let w = pack_section(upper, ng, s, apx, tex, ap, p, domain, xn, c, b, entry_type);
            &&& (w >> 20u32) & 0xFFFu32 == upper
            &&& (w >> 17u32) & 1u32 == ng
            &&& (w >> 16u32) & 1u32 == s
            &&& (w >> 15u32) & 1u32 == apx
            &&& (w >> 12u32) & 7u32 == tex
            &&& (w >> 10u32) & 3u32 == ap
            &&& (w >> 9u32) & 1u32 == p
            &&& (w >> 5u32) & 15u32 == domain
            &&& (w >> 4u32) & 1u32 == xn
            &&& (w >> 3u32) & 1u32 == c
            &&& (w >> 2u32) & 1u32 == b
            &&& w & 3u32 == entry_type
            &&& w & 0xFFF0_0000u32 == upper << 20u32
        }),
{
    let w = pack_section(upper, ng, s, apx, tex, ap, p, domain, xn, c, b, entry_type);
    assert({
        &&& (w >> 20u32) & 0xFFFu32 == upper
        &&& (w >> 17u32) & 1u32 == ng
        &&& (w >> 16u32) & 1u32 == s
        &&& (w >> 15u32) & 1u32 == apx
        &&& (w >> 12u32) & 7u32 == tex
        &&& (w >> 10u32) & 3u32 == ap
        &&& (w >> 9u32) & 1u32 == p
        &&& (w >> 5u32) & 15u32 == domain
        &&& (w >> 4u32) & 1u32 == xn
        &&& (w >> 3u32) & 1u32 == c
        &&& (w >> 2u32) & 1u32 == b
        &&& w & 3u32 == entry_type
        &&& w & 0xFFF0_0000u32 == upper << 20u32
    }) by (bit_vector)
        requires
            w == (upper << 20u32) | (ng << 17u32) | (s << 16u32) | (apx << 15u32) | (tex << 12u32)
                | (ap << 10u32) | (p << 9u32) | (domain << 5u32) | (xn << 4u32) | (c << 3u32) | (b
                << 2u32) | entry_type,
            upper < 4096,
            ng < 2,
            s < 2,
            apx < 2,
            tex < 8,
            ap < 4,
            p < 2,
            domain < 16,
            xn < 2,
            c < 2,
            b < 2,
            entry_type < 4,
    ;
}

/// Encoding then decoding a section descriptor is the identity: for every
/// 1 MiB-aligned physical address and every attribute bundle whose fields fit
/// their bits, the descriptor built from them reads back as a section with
/// exactly those attributes, and maps exactly that address.
pub proof fn lemma_section_round_trip(phys_addr: u32, attrs: SectionAttributes)
    requires
        phys_addr & SECTION_OFFSET_MASK == 0,
        attrs.wf(),
    ensures
        section_attrs_of(section_word(phys_addr >> 20, attrs)) == Ok::<_, InvalidL1EntryType>(
            attrs,
        ),
        address_of(section_word(phys_addr >> 20, attrs)) == phys_addr,
{
    assert(phys_addr >> 20u32 < 4096u32) by (bit_vector);
    assert(phys_addr & 0x000F_FFFFu32 == 0u32 ==> (phys_addr >> 20u32) << 20u32 == phys_addr)
        by (bit_vector);
    lemma_section_word_fields(phys_addr >> 20, attrs);
}

/// Every field of a section descriptor built from a frame number and an
/// attribute bundle reads back what was put in; in particular its attributes
/// read back unchanged.
pub proof fn lemma_section_word_fields(upper: u32, attrs: SectionAttributes)
    requires
        upper < 4096,
        attrs.wf(),
    ensures
        field_of(section_word(upper, attrs), 20, 12) == upper,
        address_of(section_word(upper, attrs)) == upper << 20u32,
        entry_type_of(section_word(upper, attrs)) == L1EntryType::Section,
        attrs_of_word(section_word(upper, attrs)) == attrs,
        section_attrs_of(section_word(upper, attrs)) == Ok::<_, InvalidL1EntryType>(attrs),
{
    lemma_low_masks();
    let a = attrs;
    let apx = flag(a.access.raw_spec() >= 4);
    let ap = a.access.raw_spec() % 4;
    lemma_unpack_section(
        upper,
        flag(a.non_global),
        flag(a.shareable),
        apx,
        a.memory_attrs.type_extensions as u32,
        ap,
        flag(a.p_bit),
        a.domain as u32,
        flag(a.execute_never),
        flag(a.memory_attrs.c),
        flag(a.memory_attrs.b),
        2,
    );
    let w = section_word(upper, attrs);
    let d = attrs_of_word(w);
    assert(d.access == a.access);
    assert(d.memory_attrs == a.memory_attrs);
    assert(d == a);
}

/// A descriptor built from a misaligned physical address is refused, whatever
/// the misalignment within the 1 MiB granule.
pub proof fn lemma_misaligned_refused(phys_addr: u32)
    requires
        phys_addr % 0x10_0000 != 0,
    ensures
        phys_addr & SECTION_OFFSET_MASK != 0,
{
    assert(phys_addr & 0x000F_FFFFu32 == phys_addr % 0x10_0000) by (bit_vector);
}

/// Every 3-bit pattern decodes to exactly one `AccessPermissions`, which
/// encodes back to that pattern; decoding cannot fail.
pub proof fn lemma_access_permissions_exhaustive(v: u32)
    requires
        v < 8,
    ensures
        AccessPermissions::from_raw_spec(v).raw_spec() == v,
        forall|e: AccessPermissions| #[trigger] AccessPermissions::from_raw_spec(e.raw_spec()) == e,
{
}

/// Every 2-bit pattern decodes to exactly one `L1EntryType`, which encodes
/// back to that pattern; decoding cannot fail.
pub proof fn lemma_l1_entry_type_exhaustive(v: u32)
    requires
        v < 4,
    ensures
        L1EntryType::from_raw_spec(v).raw_spec() == v,
        forall|e: L1EntryType| #[trigger] L1EntryType::from_raw_spec(e.raw_spec()) == e,
{
}

} // verus!

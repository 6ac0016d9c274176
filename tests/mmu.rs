use aarch32::mmu::{
    AccessPermissions, CacheableMemoryAttribute, InvalidL1EntryType, L1EntryType, L1Section,
    MemoryRegionAttributes, MemoryRegionAttributesRaw, SectionAttributes, UnalignedSectionAddress,
};

fn section_attrs_device_peripheral() -> SectionAttributes {
    SectionAttributes {
        non_global: false,
        p_bit: false,
        shareable: false,
        // APX false, AP 0b11
        access: AccessPermissions::FullAccess,
        // TEX 0b000, c false, b true
        memory_attrs: MemoryRegionAttributes::ShareableDevice.as_raw(),
        domain: 0b1111,
        execute_never: false,
    }
}

/// Address upper 12 bits: 0b1
fn l1_section_peripheral() -> L1Section {
    L1Section::new_with_addr_and_attrs(0x100000, section_attrs_device_peripheral())
}

// Fully cacheable normal memory (for example DDR with L1 and L2 cache)
fn section_attrs_full_cacheable() -> SectionAttributes {
    SectionAttributes {
        non_global: false,
        p_bit: false,
        shareable: true,
        // APX false, AP 0b11
        access: AccessPermissions::FullAccess,
        // TEX 0b101, c false, b true
        memory_attrs: MemoryRegionAttributes::CacheableMemory {
            inner: CacheableMemoryAttribute::WriteBackWriteAlloc,
            outer: CacheableMemoryAttribute::WriteBackWriteAlloc,
        }
        .as_raw(),
        domain: 0b1010,
        execute_never: false,
    }
}

/// Address upper 12 bits: 0b10
fn l1_section_memory() -> L1Section {
    L1Section::new_with_addr_and_attrs(0x200000, section_attrs_full_cacheable())
}

#[test]
fn basic_test_peripheral_memory() {
    let l1 = l1_section_peripheral();
    assert_eq!(l1.raw_value(), 0x100DE6);
    assert_eq!(l1.base_addr_upper_bits(), 0b1);
    assert_eq!(
        l1.section_attrs().expect("invalid type field"),
        section_attrs_device_peripheral()
    );
    assert!(!l1.ng());
    assert!(!l1.p_bit());
    assert!(!l1.s());
    assert!(!l1.apx());
    assert_eq!(l1.ap(), 0b11);
    assert_eq!(l1.tex(), 0b000);
    assert!(!l1.c());
    assert!(l1.b());
    assert_eq!(l1.domain(), 0b1111);
    assert!(!l1.xn());
}

#[test]
fn basic_test_normal_memory() {
    let l1 = l1_section_memory();
    assert_eq!(l1.raw_value(), 0x215D46);
    assert_eq!(l1.base_addr_upper_bits(), 0b10);
    assert_eq!(
        l1.section_attrs().expect("invalid type field"),
        section_attrs_full_cacheable()
    );
    assert!(!l1.ng());
    assert!(!l1.p_bit());
    assert!(l1.s());
    assert!(!l1.apx());
    assert_eq!(l1.ap(), 0b11);
    assert_eq!(l1.tex(), 0b101);
    assert!(!l1.c());
    assert!(l1.b());
    assert_eq!(l1.domain(), 0b1010);
    assert!(!l1.xn());
}

#[test]
fn update_fields() {
    let mut l1 = l1_section_memory();
    let new_attrs = SectionAttributes {
        non_global: true,
        p_bit: true,
        shareable: false,
        // APX true, AP 0b10
        access: AccessPermissions::ReadOnly,
        // TEX 0b000, c false, b false
        memory_attrs: MemoryRegionAttributes::StronglyOrdered.as_raw(),
        domain: 0b1001,
        execute_never: true,
    };
    l1.set_section_attrs(new_attrs);
    assert_eq!(l1.raw_value(), 0x228B32);
    assert_eq!(l1.base_addr_upper_bits(), 0b10);
    assert_eq!(l1.section_attrs().unwrap(), new_attrs);
    assert!(l1.ng());
    assert!(l1.p_bit());
    assert!(!l1.s());
    assert!(l1.apx());
    assert_eq!(l1.ap(), 0b10);
    assert_eq!(l1.tex(), 0b000);
    assert!(!l1.c());
    assert!(!l1.b());
    assert_eq!(l1.domain(), 0b1001);
    assert!(l1.xn());
}

#[test]
fn misaligned_section_address_is_refused_for_every_offset_sample() {
    for offset in [1u32, 2, 0x80, 0x1000, 0x8_0000, 0xF_FFFF] {
        assert_eq!(
            L1Section::try_new_with_addr_and_attrs(0x100000 + offset, section_attrs_device_peripheral()),
            Err(UnalignedSectionAddress(0x100000 + offset))
        );
    }
    assert_eq!(
        L1Section::try_new_with_addr_and_attrs(0x100000, section_attrs_device_peripheral()),
        Ok(l1_section_peripheral())
    );
}

#[test]
fn section_attrs_refused_on_other_entry_types() {
    assert_eq!(
        L1Section::new_with_raw_value(0x100DE4).section_attrs(),
        Err(InvalidL1EntryType(L1EntryType::Fault))
    );
    assert_eq!(
        L1Section::new_with_raw_value(0x100DE5).section_attrs(),
        Err(InvalidL1EntryType(L1EntryType::PageTable))
    );
    assert_eq!(
        L1Section::new_with_raw_value(0x100DE7).section_attrs(),
        Err(InvalidL1EntryType(L1EntryType::Supersection))
    );
}

#[test]
fn round_trip_over_every_permission_and_memory_type() {
    let perms = [
        AccessPermissions::PermissionFault,
        AccessPermissions::PrivilegedOnly,
        AccessPermissions::NoUserWrite,
        AccessPermissions::FullAccess,
        AccessPermissions::_Reserved1,
        AccessPermissions::PrivilegedReadOnly,
        AccessPermissions::ReadOnly,
        AccessPermissions::_Reserved2,
    ];
    let mems = [
        MemoryRegionAttributes::StronglyOrdered,
        MemoryRegionAttributes::ShareableDevice,
        MemoryRegionAttributes::OuterAndInnerWriteThroughNoWriteAlloc,
        MemoryRegionAttributes::OuterAndInnerWriteBackNoWriteAlloc,
        MemoryRegionAttributes::OuterAndInnerNonCacheable,
        MemoryRegionAttributes::OuterAndInnerWriteBackWriteAlloc,
        MemoryRegionAttributes::NonShareableDevice,
        MemoryRegionAttributes::CacheableMemory {
            inner: CacheableMemoryAttribute::WriteThroughNoWriteAlloc,
            outer: CacheableMemoryAttribute::NonCacheable,
        },
    ];
    for (i, access) in perms.iter().enumerate() {
        for (j, mem) in mems.iter().enumerate() {
            let attrs = SectionAttributes {
                non_global: i % 2 == 0,
                p_bit: j % 2 == 1,
                shareable: (i + j) % 2 == 0,
                access: *access,
                memory_attrs: mem.as_raw(),
                domain: ((i * 3 + j) % 16) as u8,
                execute_never: j % 3 == 0,
            };
            let addr = 0xFFF0_0000u32 - ((i * 8 + j) as u32) * 0x10_0000;
            let l1 = L1Section::new_with_addr_and_attrs(addr, attrs);
            assert_eq!(l1.section_attrs(), Ok(attrs));
            assert_eq!(l1.raw_value() & 0xFFF0_0000, addr);
        }
    }
}

#[test]
fn memory_attribute_encodings() {
    assert_eq!(
        MemoryRegionAttributes::NonShareableDevice.as_raw(),
        MemoryRegionAttributesRaw::new(0b010, false, false)
    );
    assert_eq!(
        MemoryRegionAttributes::OuterAndInnerWriteBackWriteAlloc.as_raw(),
        MemoryRegionAttributesRaw::new(0b001, true, true)
    );
    assert_eq!(
        MemoryRegionAttributes::CacheableMemory {
            inner: CacheableMemoryAttribute::WriteBackNoWriteAlloc,
            outer: CacheableMemoryAttribute::WriteThroughNoWriteAlloc,
        }
        .as_raw(),
        MemoryRegionAttributesRaw::new(0b110, true, true)
    );
}

#[test]
fn access_permission_bits() {
    assert_eq!(AccessPermissions::ReadOnly.ap(), 0b10);
    assert!(AccessPermissions::ReadOnly.apx());
    assert_eq!(AccessPermissions::FullAccess.ap(), 0b11);
    assert!(!AccessPermissions::FullAccess.apx());
    assert_eq!(AccessPermissions::new(true, 0b01), AccessPermissions::PrivilegedReadOnly);
    for v in 0u8..8 {
        assert_eq!(AccessPermissions::new_with_raw_value(v).raw_value(), v);
    }
}

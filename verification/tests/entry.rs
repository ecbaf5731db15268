use x64_paging::structs::{PageLevel, PhysicalAddress, VirtualAddress};
use x64_paging::x64::address_space::{
    PAGE_TABLE_ENTRY_4KB_PAGE_TABLE_BASE_ADDRESS_MASK,
    PAGE_TABLE_ENTRY_4KB_PAGE_TABLE_BASE_ADDRESS_SHIFT,
};
use x64_paging::x64::PageTableEntryX64;
use x64_paging::MemoryAttributes;

const LEVELS: [PageLevel; 5] =
    [PageLevel::Level1, PageLevel::Level2, PageLevel::Level3, PageLevel::Level4, PageLevel::Level5];

#[test]
fn test_update_fields_sets_present_and_base_address() {
    let mut entry = PageTableEntryX64::new();
    let pa = PhysicalAddress::from(0x1234_5678_9000u64);
    let attrs = MemoryAttributes::ExecuteProtect() | MemoryAttributes::ReadOnly();

    entry.update_fields(attrs, pa, true, PageLevel::Level1, pa.into()).unwrap();

    assert!(entry.present());
    assert_eq!(
        entry.page_table_base_address() << PAGE_TABLE_ENTRY_4KB_PAGE_TABLE_BASE_ADDRESS_SHIFT,
        0x1234_5678_9000u64
    );
    assert_eq!(entry.get_attributes(), attrs);
}

#[test]
fn test_set_and_get_attributes() {
    let mut entry = PageTableEntryX64::new();

    // ReadProtect
    entry.set_attributes(MemoryAttributes::ReadProtect());
    assert!(!entry.present());
    assert!(entry.get_attributes().contains(MemoryAttributes::ReadProtect()));

    // ReadOnly
    entry.set_attributes(MemoryAttributes::ReadOnly());
    assert!(!entry.read_write());
    assert!(entry.get_attributes().contains(MemoryAttributes::ReadOnly()));

    // ExecuteProtect
    entry.set_attributes(MemoryAttributes::ExecuteProtect());
    assert!(entry.nx());
    assert!(entry.get_attributes().contains(MemoryAttributes::ExecuteProtect()));

    // A combination
    let mut attrs = MemoryAttributes::empty();
    attrs |= MemoryAttributes::ReadOnly() | MemoryAttributes::ExecuteProtect();
    entry.set_attributes(attrs);
    assert!(!entry.read_write());
    assert!(entry.nx());
}

#[test]
fn test_get_canonical_page_table_base() {
    let mut entry = PageTableEntryX64::new();
    let pa: u64 = PhysicalAddress::from(0xABC0_0000_0000u64).into();
    entry.set_page_table_base_address(pa >> PAGE_TABLE_ENTRY_4KB_PAGE_TABLE_BASE_ADDRESS_SHIFT);

    let result: u64 = entry.get_canonical_page_table_base().into();
    assert_eq!(result, 0xABC0_0000_0000u64);
}

#[test]
fn test_swap_overwrites_entry() {
    let mut entry1 = PageTableEntryX64::new();
    let mut entry2 = PageTableEntryX64::new();

    entry1.set_present(true);
    entry1.set_read_write(true);
    entry2.set_present(false);
    entry2.set_read_write(false);

    entry1.swap(&entry2);

    assert_eq!(entry1.present(), entry2.present());
    assert_eq!(entry1.read_write(), entry2.read_write());
}

#[test]
fn swap_takes_every_bit() {
    let mut entry = PageTableEntryX64::from_bits(0x0123_4567_89AB_CDEF);
    let other = PageTableEntryX64::from_bits(0xFEDC_BA98_7654_3210);
    entry.swap(&other);
    assert_eq!(entry.into_bits(), 0xFEDC_BA98_7654_3210);
    assert_eq!(other.into_bits(), 0xFEDC_BA98_7654_3210);
}

#[test]
fn update_fields_writes_the_whole_word() {
    let mut entry = PageTableEntryX64::new();
    let pa = PhysicalAddress::from(0x1234_5678_9000u64);
    let va = VirtualAddress::from(0x5000u64);
    let stale = entry.update_fields(MemoryAttributes::empty(), pa, true, PageLevel::Level1, va);
    assert_eq!(stale, Ok(None));
    assert_eq!(entry.into_bits(), 0x1234_5678_9003);

    let attrs = MemoryAttributes::ExecuteProtect() | MemoryAttributes::ReadOnly();
    let stale = entry.update_fields(attrs, pa, true, PageLevel::Level2, va);
    assert_eq!(stale, Ok(Some(va)));
    assert_eq!(entry.into_bits(), 0x8000_1234_5678_9081);

    let stale =
        entry.update_fields(MemoryAttributes::ReadProtect(), pa, true, PageLevel::Level3, va);
    assert_eq!(stale, Ok(Some(va)));
    assert_eq!(entry.into_bits(), 0x1234_5678_9002);

    let stale = entry.update_fields(MemoryAttributes::empty(), pa, true, PageLevel::Level1, va);
    assert_eq!(stale, Ok(None));
}

#[test]
fn update_fields_with_supervisor_separation() {
    let pa = PhysicalAddress::from(0x7000u64);
    let va = VirtualAddress::from(0x7000u64);
    let mut entry = PageTableEntryX64::new();
    entry
        .update_fields_with(MemoryAttributes::empty(), pa, true, PageLevel::Level1, va, true)
        .unwrap();
    assert_eq!(entry.into_bits(), 0x7007);
    assert_eq!(entry.get_attributes_with(true), MemoryAttributes::empty());
    assert_eq!(entry.get_attributes_with(false), MemoryAttributes::empty());

    entry
        .update_fields_with(MemoryAttributes::Supervisor(), pa, true, PageLevel::Level1, va, true)
        .unwrap();
    assert_eq!(entry.into_bits(), 0x7003);
    assert_eq!(entry.get_attributes_with(true), MemoryAttributes::Supervisor());
    assert_eq!(entry.get_attributes_with(false), MemoryAttributes::empty());

    entry.set_attributes_with(MemoryAttributes::empty(), false);
    assert!(!entry.user_supervisor());
    assert_eq!(entry.get_attributes(), MemoryAttributes::empty());
}

#[test]
fn update_fields_keeps_only_the_record_of_accesses() {
    let pa = PhysicalAddress::from(0xABCD_E000u64);
    let va = VirtualAddress::from(0u64);
    let mut entry = PageTableEntryX64::from_bits(u64::MAX);
    entry.update_fields(MemoryAttributes::empty(), pa, false, PageLevel::Level4, va).unwrap();
    assert!(entry.accessed());
    assert!(entry.dirty());
    assert_eq!(entry.into_bits(), 0xABCD_E063);
}

#[test]
fn update_fields_masks_the_address() {
    let va = VirtualAddress::from(0u64);
    for pa in [0u64, 0x1000, 0x1FFF, 0xF_FFFF_FFFF_F000, u64::MAX, 0x8010_0000_0000_0123] {
        let mut entry = PageTableEntryX64::new();
        entry
            .update_fields(MemoryAttributes::empty(), pa.into(), true, PageLevel::Level1, va)
            .unwrap();
        let next: u64 = entry.get_next_address().into();
        assert_eq!(next, pa & PAGE_TABLE_ENTRY_4KB_PAGE_TABLE_BASE_ADDRESS_MASK);
        assert_eq!(next % 0x1000, 0);
    }
}

#[test]
fn attributes_are_read_back() {
    let all = MemoryAttributes { bits: u64::MAX };
    let mut entry = PageTableEntryX64::new();
    entry.set_attributes(all);
    assert_eq!(entry.get_attributes().bits, 0x2000 | 0x4000 | 0x20000);
    entry.set_attributes_with(all, true);
    assert_eq!(entry.get_attributes_with(true).bits, 0x2000 | 0x4000 | 0x20000 | 0x200000);
    entry.set_attributes(MemoryAttributes::empty());
    assert_eq!(entry.get_attributes(), MemoryAttributes::empty());
}

#[test]
fn attributes_last_set_wins() {
    for bits in 0..64u64 {
        let second = MemoryAttributes { bits: bits << 12 };
        let mut entry = PageTableEntryX64::from_bits(0x8FF0_0000_1234_5F67);
        let mut direct = entry;
        entry.set_attributes(MemoryAttributes { bits: u64::MAX });
        entry.set_attributes(second);
        direct.set_attributes(second);
        assert_eq!(entry.into_bits(), direct.into_bits());
    }
}

#[test]
fn attributes_written_back_keep_the_permissions() {
    for low in 0..8u64 {
        for nx in [0u64, 1 << 63] {
            let entry = PageTableEntryX64::from_bits(0x5000 | low | nx);
            let mut back = entry;
            back.set_attributes_with(entry.get_attributes_with(true), true);
            assert_eq!(back.into_bits(), entry.into_bits());
        }
    }
}

#[test]
fn last_update_wins() {
    let va = VirtualAddress::from(0u64);
    let mut entry = PageTableEntryX64::new();
    let mut direct = PageTableEntryX64::new();
    entry
        .update_fields(MemoryAttributes::ReadOnly(), 0x9000u64.into(), true, PageLevel::Level3, va)
        .unwrap();
    entry
        .update_fields(MemoryAttributes::empty(), 0x2000u64.into(), false, PageLevel::Level2, va)
        .unwrap();
    direct
        .update_fields(MemoryAttributes::empty(), 0x2000u64.into(), false, PageLevel::Level2, va)
        .unwrap();
    assert_eq!(entry.into_bits(), direct.into_bits());
}

#[test]
fn points_to_pa_follows_level_and_page_size() {
    let large = PageTableEntryX64::new().with_page_size(true);
    let table = PageTableEntryX64::new();
    let expected_large = [true, true, true, false, false];
    let expected_table = [true, false, false, false, false];
    for i in 0..5 {
        assert_eq!(large.points_to_pa(LEVELS[i]), expected_large[i]);
        assert_eq!(table.points_to_pa(LEVELS[i]), expected_table[i]);
    }
}

#[test]
fn updated_entries_point_to_pa() {
    let va = VirtualAddress::from(0u64);
    let expected = [
        [true, true],
        [false, true],
        [false, true],
        [false, false],
        [false, false],
    ];
    for i in 0..5 {
        for leaf in [false, true] {
            let mut entry = PageTableEntryX64::from_bits(u64::MAX);
            let pa = PhysicalAddress::from(0x4000_0000u64);
            entry.update_fields(MemoryAttributes::empty(), pa, leaf, LEVELS[i], va).unwrap();
            assert_eq!(entry.points_to_pa(LEVELS[i]), expected[i][leaf as usize]);
            entry.update_fields(MemoryAttributes::ReadProtect(), pa, leaf, LEVELS[i], va).unwrap();
            assert_eq!(entry.points_to_pa(LEVELS[i]), i == 0);
        }
    }
}

#[test]
fn present_bit_is_set_alone() {
    let va = VirtualAddress::from(0xFFFF_8000_0000_0000u64);
    let mut entry = PageTableEntryX64::from_bits(0xFFFF_FFFF_FFFF_FFFE);
    assert!(!entry.get_present_bit());
    assert_eq!(entry.set_present_bit(true, va), None);
    assert!(entry.get_present_bit());
    assert_eq!(entry.into_bits(), u64::MAX);
    assert_eq!(entry.set_present_bit(true, va), Some(va));
    assert_eq!(entry.set_present_bit(false, va), Some(va));
    assert_eq!(entry.into_bits(), 0xFFFF_FFFF_FFFF_FFFE);
}

#[test]
fn unmap_clears_the_entry() {
    let va = VirtualAddress::from(0x1000u64);
    let mut entry = PageTableEntryX64::from_bits(u64::MAX);
    assert_eq!(entry.unmap(va), Some(va));
    assert_eq!(entry.into_bits(), 0);
    assert_eq!(
        entry.get_attributes(),
        MemoryAttributes::ReadProtect() | MemoryAttributes::ReadOnly()
    );
    assert_eq!(
        entry.get_attributes_with(true),
        MemoryAttributes::ReadProtect()
            | MemoryAttributes::ReadOnly()
            | MemoryAttributes::Supervisor()
    );
    assert_eq!(u64::from(entry.get_next_address()), 0);
    assert_eq!(entry.unmap(va), None);
}

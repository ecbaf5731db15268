use x64_paging::structs::{PageLevel, PhysicalAddress, VirtualAddress};
use x64_paging::x64::structs::{
    AVAILABLE_HIGH_MAX, AVAILABLE_MAX, PAGE_TABLE_BASE_ADDRESS_MAX,
};
use x64_paging::x64::PageTableEntryX64;

fn flags(entry: &PageTableEntryX64) -> [bool; 10] {
    [
        entry.present(),
        entry.read_write(),
        entry.user_supervisor(),
        entry.write_through(),
        entry.cache_disabled(),
        entry.accessed(),
        entry.dirty(),
        entry.page_size(),
        entry.global(),
        entry.nx(),
    ]
}

const POSITIONS: [u32; 10] = [0, 1, 2, 3, 4, 5, 6, 7, 8, 63];

#[test]
fn every_flag_has_its_bit() {
    for i in 0..10 {
        let entry = PageTableEntryX64::from_bits(1 << POSITIONS[i]);
        for j in 0..10 {
            assert_eq!(flags(&entry)[j], i == j);
        }
        assert_eq!(entry.available(), 0);
        assert_eq!(entry.page_table_base_address(), 0);
        assert_eq!(entry.available_high(), 0);
    }
}

#[test]
fn every_flag_is_set_alone() {
    let clear = PageTableEntryX64::new();
    let set = [
        clear.with_present(true),
        clear.with_read_write(true),
        clear.with_user_supervisor(true),
        clear.with_write_through(true),
        clear.with_cache_disabled(true),
        clear.with_accessed(true),
        clear.with_dirty(true),
        clear.with_page_size(true),
        clear.with_global(true),
        clear.with_nx(true),
    ];
    let full = PageTableEntryX64::from_bits(u64::MAX);
    let unset = [
        full.with_present(false),
        full.with_read_write(false),
        full.with_user_supervisor(false),
        full.with_write_through(false),
        full.with_cache_disabled(false),
        full.with_accessed(false),
        full.with_dirty(false),
        full.with_page_size(false),
        full.with_global(false),
        full.with_nx(false),
    ];
    for i in 0..10 {
        assert_eq!(set[i].into_bits(), 1 << POSITIONS[i]);
        assert_eq!(unset[i].into_bits(), !(1 << POSITIONS[i]));
    }
}

#[test]
fn wide_fields_have_their_bits() {
    let entry = PageTableEntryX64::from_bits(0x5A5A_BCDE_F012_3A00);
    assert_eq!(entry.available(), 5);
    assert_eq!(entry.page_table_base_address(), 0xA_BCDE_F012_3);
    assert_eq!(entry.available_high(), 0x5A5);

    let clear = PageTableEntryX64::new();
    assert_eq!(clear.with_available(7).into_bits(), 0xE00);
    assert_eq!(clear.with_page_table_base_address(0xFF_FFFF_FFFF).into_bits(), 0xF_FFFF_FFFF_F000);
    assert_eq!(clear.with_available_high(0x7FF).into_bits(), 0x7FF0_0000_0000_0000);

    let full = PageTableEntryX64::from_bits(u64::MAX);
    assert_eq!(full.with_available(0).into_bits(), !0xE00);
    assert_eq!(full.with_page_table_base_address(0).into_bits(), !0xF_FFFF_FFFF_F000);
    assert_eq!(full.with_available_high(0).into_bits(), !0x7FF0_0000_0000_0000);
}

#[test]
fn values_too_large_for_a_field_are_refused() {
    let mut entry = PageTableEntryX64::from_bits(0x1234);
    assert_eq!(entry.set_available_checked(AVAILABLE_MAX as u8 + 1), Err(()));
    assert_eq!(
        entry.set_page_table_base_address_checked(PAGE_TABLE_BASE_ADDRESS_MAX + 1),
        Err(())
    );
    assert_eq!(entry.set_available_high_checked(AVAILABLE_HIGH_MAX as u16 + 1), Err(()));
    assert_eq!(entry.into_bits(), 0x1234);
    assert!(entry.with_available_checked(8).is_err());
    assert!(entry.with_page_table_base_address_checked(1 << 40).is_err());
    assert!(entry.with_available_high_checked(0x800).is_err());

    assert_eq!(entry.set_available_checked(7), Ok(()));
    assert_eq!(entry.set_page_table_base_address_checked(PAGE_TABLE_BASE_ADDRESS_MAX), Ok(()));
    assert_eq!(entry.set_available_high_checked(0x7FF), Ok(()));
    assert_eq!(entry.into_bits(), 0x7FFF_FFFF_FFFF_FE34);
    assert_eq!(entry.with_available_checked(0).unwrap().into_bits(), 0x7FFF_FFFF_FFFF_F034);
}

#[test]
fn words_and_entries_convert() {
    assert_eq!(PageTableEntryX64::new().into_bits(), 0);
    assert_eq!(PageTableEntryX64::default().into_bits(), 0);
    for word in [0u64, 1, 0x0123_4567_89AB_CDEF, u64::MAX] {
        assert_eq!(PageTableEntryX64::from_bits(word).into_bits(), word);
        assert_eq!(u64::from(PageTableEntryX64::from(word)), word);
    }
}

#[test]
fn fields_determine_the_word() {
    for word in [0u64, 0x8000_0000_0000_0001, 0x0123_4567_89AB_CDEF, 0xDEAD_BEEF_0BAD_F00D, u64::MAX] {
        let entry = PageTableEntryX64::from_bits(word);
        let again = PageTableEntryX64::new()
            .with_present(entry.present())
            .with_read_write(entry.read_write())
            .with_user_supervisor(entry.user_supervisor())
            .with_write_through(entry.write_through())
            .with_cache_disabled(entry.cache_disabled())
            .with_accessed(entry.accessed())
            .with_dirty(entry.dirty())
            .with_page_size(entry.page_size())
            .with_global(entry.global())
            .with_available(entry.available())
            .with_page_table_base_address(entry.page_table_base_address())
            .with_available_high(entry.available_high())
            .with_nx(entry.nx());
        assert_eq!(again.into_bits(), word);
    }
}

#[test]
fn addresses_convert() {
    let pa = PhysicalAddress::from(0x1234_5000u64);
    assert_eq!(u64::from(pa), 0x1234_5000);
    assert_eq!(u64::from(VirtualAddress::from(pa)), 0x1234_5000);
    assert_eq!(u64::from(VirtualAddress::from(0x42u64)), 0x42);
}

#[test]
fn round_up_gives_the_last_address_of_an_entry() {
    let va = VirtualAddress::from(0xFFFF_8123_4567_8ABCu64);
    assert_eq!(u64::from(va.round_up(PageLevel::Level1)), 0xFFFF_8123_4567_8FFF);
    assert_eq!(u64::from(va.round_up(PageLevel::Level2)), 0xFFFF_8123_457F_FFFF);
    assert_eq!(u64::from(va.round_up(PageLevel::Level3)), 0xFFFF_8123_7FFF_FFFF);
    assert_eq!(u64::from(va.round_up(PageLevel::Level4)), 0xFFFF_817F_FFFF_FFFF);
    assert_eq!(u64::from(va.round_up(PageLevel::Level5)), 0xFFFF_FFFF_FFFF_FFFF);
    assert_eq!(u64::from(VirtualAddress::from(u64::MAX).round_up(PageLevel::Level1)), u64::MAX);
}

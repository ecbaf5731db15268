use x64_paging::structs::{PageLevel, VirtualAddress};
use x64_paging::text::{push_decimal, push_hex, push_hex_padded, push_spaces, push_truth};
use x64_paging::x64::PageTableEntryX64;

#[test]
fn test_dump_entry_runs() {
    let mut entry = PageTableEntryX64::new();
    entry.set_present(true);
    entry.set_read_write(true);
    let va = VirtualAddress::from(0x1000u64);
    let level = PageLevel::Level1;
    // Should not panic or error
    let _ = entry.dump_entry(va, level, 0x1000);
}

#[test]
fn dump_of_a_small_page() {
    let entry = PageTableEntryX64::from_bits(0x1234_5678_9003);
    let va = VirtualAddress::from(0x1000u64);
    assert_eq!(
        entry.dump_entry(va, PageLevel::Level1, 0xFFFF_FF80_0000_0008).unwrap(),
        vec![
            "         Pte  @ 0xFFFFFF8000000008 Contains 0000123456789003  ------KWEV  [0x1000 - 0x1FFF]"
        ]
    );
}

#[test]
fn dump_of_large_pages() {
    let entry = PageTableEntryX64::from_bits(u64::MAX);
    let va = VirtualAddress::from(0u64);
    assert_eq!(
        entry.dump_entry(va, PageLevel::Level2, 0x10).unwrap(),
        vec![
            "       2MB Large Page",
            "       Pde  @ 0x10 Contains FFFFFFFFFFFFFFFF  GLDANTUW-V  [0x0 - 0x1FFFFF]"
        ]
    );
    assert_eq!(
        entry.dump_entry(va, PageLevel::Level3, 0x10).unwrap(),
        vec![
            "     1GB Huge Page",
            "     Ppe  @ 0x10 Contains FFFFFFFFFFFFFFFF  GLDANTUW-V  [0x0 - 0x3FFFFFFF]"
        ]
    );
}

#[test]
fn dump_of_the_upper_levels() {
    let entry = PageTableEntryX64::from_bits(0x80);
    let va = VirtualAddress::from(0x100_0000_0000u64);
    assert_eq!(
        entry.dump_entry(va, PageLevel::Level4, 1).unwrap(),
        vec!["   Pxe  @ 0x1 Contains 0000000000000080  ------KRE-  [0x10000000000 - 0x17FFFFFFFFF]"]
    );
    assert_eq!(
        entry.dump_entry(va, PageLevel::Level5, 1).unwrap(),
        vec![" Pxe5 @ 0x1 Contains 0000000000000080  ------KRE-  [0x10000000000 - 0xFFFFFFFFFFFF]"]
    );
}

#[test]
fn dump_header_explains_the_letters() {
    assert_eq!(
        PageTableEntryX64::dump_entry_header(),
        "Flags: G=Global L=Large/Huge page D=Dirty A=Accessed N=Cache disabled T=Write through U=User/K=Kernel W=Writable/R=Read only E=Executable V=Valid"
    );
}

#[test]
fn text_is_what_the_standard_formatting_gives() {
    for value in [0u64, 9, 10, 15, 16, 0xABCDEF, 0x0123_4567_89AB_CDEF, u64::MAX] {
        let mut out = String::new();
        push_hex(&mut out, value);
        assert_eq!(out, format!("{:X}", value));
        let mut out = String::new();
        push_hex_padded(&mut out, value, 16);
        assert_eq!(out, format!("{:016X}", value));
    }
    for value in [0u64, 9, 10, 99, 100, 0xFF_FFFF_FFFF, u64::MAX] {
        let mut out = String::new();
        push_decimal(&mut out, value);
        assert_eq!(out, format!("{}", value));
    }
    for value in [false, true] {
        let mut out = String::new();
        push_truth(&mut out, value);
        assert_eq!(out, format!("{}", value));
    }
    let mut out = String::from("x");
    push_spaces(&mut out, 5);
    assert_eq!(out, format!("x{:5}", ""));
}

#[test]
fn debug_string_lists_every_field() {
    assert_eq!(
        PageTableEntryX64::new().debug_string(),
        "PageTableEntryX64 { present: false, read_write: false, user_supervisor: false, \
         write_through: false, cache_disabled: false, accessed: false, dirty: false, \
         page_size: false, global: false, available: 0, page_table_base_address: 0, \
         available_high: 0, nx: false }"
    );
    assert_eq!(
        PageTableEntryX64::from_bits(0x8A50_0000_0123_4A55).debug_string(),
        "PageTableEntryX64 { present: true, read_write: false, user_supervisor: true, \
         write_through: false, cache_disabled: true, accessed: false, dirty: true, \
         page_size: false, global: false, available: 5, page_table_base_address: 4660, \
         available_high: 165, nx: true }"
    );
}

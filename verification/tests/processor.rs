use x64_paging::structs::{PageLevel, VirtualAddress};
use x64_paging::x64::address_space::{
    CR3_PAGE_BASE_ADDRESS_MASK, FIVE_LEVEL_PD_SELF_MAP_BASE, FIVE_LEVEL_PML5_SELF_MAP_BASE,
    FIVE_LEVEL_PT_SELF_MAP_BASE, FOUR_LEVEL_PD_SELF_MAP_BASE, FOUR_LEVEL_PML4_SELF_MAP_BASE,
    FOUR_LEVEL_PT_SELF_MAP_BASE, MAX_VA_4_LEVEL, MAX_VA_5_LEVEL, ZERO_VA_4_LEVEL,
    ZERO_VA_5_LEVEL,
};
use x64_paging::x64::commit::{commit_steps, swap_steps, CommitStep};
use x64_paging::x64::write_protection::CR0_WP;
use x64_paging::x64::{
    disable_write_protection, enable_write_protection, PageTableEntryX64, PD, PDP, PML4, PML5, PT,
};

#[test]
fn test_disable_write_protection_returns_zero_in_test_mode() {
    // No register is read here: CR0 stands at zero. Clearing bit 16 of 0 is still 0.
    let mut register = 0u64;
    let cr0 = disable_write_protection(&mut register);
    assert_eq!(cr0, 0, "In test mode CR0 should be zero (asm compiled out)");
    assert_eq!(register, 0);
}

#[test]
fn test_enable_write_protection_does_not_panic() {
    let mut register = 0u64;
    enable_write_protection(&mut register, 0);
    assert_eq!(register, 0);
    enable_write_protection(&mut register, 1 << 16); // WP bit set
    assert_eq!(register, 1 << 16);
    register = 0;
    enable_write_protection(&mut register, u64::MAX); // all bits set
    assert_eq!(register, 1 << 16);
}

#[test]
fn test_disable_then_enable_round_trip() {
    for original in [0u64, 1 << 16, 0xDEAD_BEEF_0001_0000, 0x8005_0033, u64::MAX] {
        let mut register = original;
        let saved_cr0 = disable_write_protection(&mut register);
        assert_eq!(saved_cr0, original);
        enable_write_protection(&mut register, saved_cr0);
        assert_eq!(register, original);
    }
}

#[test]
fn test_write_protection_bit_manipulation_logic() {
    // The WP bit is bit 16 of CR0 (0x0001_0000).
    const WP_BIT: u64 = 1 << 16;
    assert_eq!(CR0_WP, WP_BIT);

    // disable_write_protection clears bit 16:
    let cr0_with_wp = 0xDEAD_BEEF_0001_0000u64; // WP set
    let mut cleared = cr0_with_wp;
    disable_write_protection(&mut cleared);
    assert_eq!(cleared & WP_BIT, 0, "WP bit should be cleared");
    assert_eq!(cleared, 0xDEAD_BEEF_0000_0000u64);

    // enable_write_protection restores bit 16 from the saved value:
    let current_cr0 = 0u64; // after disable, WP is cleared
    let mut restored = current_cr0;
    enable_write_protection(&mut restored, cr0_with_wp);
    assert_ne!(restored & WP_BIT, 0, "WP bit should be restored");
    assert_eq!(restored, WP_BIT);

    // If the original CR0 had WP cleared, enable should not set it:
    let cr0_without_wp = 0xDEAD_BEEF_0000_0000u64;
    let mut should_stay_cleared = current_cr0;
    enable_write_protection(&mut should_stay_cleared, cr0_without_wp);
    assert_eq!(should_stay_cleared & WP_BIT, 0, "WP bit should remain cleared");
}

fn words(steps: &[CommitStep]) -> Vec<(char, u64)> {
    let mut words = Vec::new();
    for step in steps {
        words.push(match step {
            CommitStep::WriteCr0(cr0) => ('c', *cr0),
            CommitStep::WriteEntry(entry) => ('e', entry.into_bits()),
            CommitStep::InvalidateTlb(va) => ('t', u64::from(*va)),
        });
    }
    words
}

#[test]
fn an_entry_is_committed_step_by_step() {
    let entry = PageTableEntryX64::from_bits(0x5003);
    let va = VirtualAddress::from(0x7000u64);
    assert_eq!(words(&swap_steps(&entry, None)), vec![('e', 0x5003)]);
    assert_eq!(
        words(&swap_steps(&entry, Some(0x8005_0033 | 1 << 16))),
        vec![('c', 0x8004_0033), ('e', 0x5003), ('c', 0x8005_0033)]
    );
    assert_eq!(words(&commit_steps(&entry, None, None)), vec![('e', 0x5003)]);
    assert_eq!(words(&commit_steps(&entry, Some(va), None)), vec![('e', 0x5003), ('t', 0x7000)]);
    assert_eq!(
        words(&commit_steps(&entry, Some(va), Some(0x33))),
        vec![('c', 0x33), ('e', 0x5003), ('c', 0x33), ('t', 0x7000)]
    );
}

#[test]
fn levels_have_their_x64_names() {
    assert_eq!(
        [PT, PD, PDP, PML4, PML5],
        [
            PageLevel::Level1,
            PageLevel::Level2,
            PageLevel::Level3,
            PageLevel::Level4,
            PageLevel::Level5
        ]
    );
    assert_eq!([PML5.depth(), PML4.depth(), PDP.depth(), PD.depth(), PT.depth()], [0, 1, 2, 3, 4]);
}

#[test]
fn fixed_addresses_take_the_reserved_indices() {
    let index = |va: u64, start_bit: u32| (va >> start_bit) & 0x1FF;
    assert_eq!(index(MAX_VA_5_LEVEL, 48), 0x1FD);
    assert_eq!(index(ZERO_VA_5_LEVEL, 48), 0x1FE);
    assert_eq!(ZERO_VA_5_LEVEL, MAX_VA_5_LEVEL + 1);
    assert_eq!(index(FIVE_LEVEL_PT_SELF_MAP_BASE, 48), 0x1FF);
    assert_eq!(index(FIVE_LEVEL_PD_SELF_MAP_BASE, 39), 0x1FF);
    assert_eq!(index(FIVE_LEVEL_PML5_SELF_MAP_BASE, 12), 0x1FF);
    assert_eq!(index(MAX_VA_4_LEVEL, 39), 0x1FD);
    assert_eq!(index(ZERO_VA_4_LEVEL, 39), 0x1FE);
    assert_eq!(ZERO_VA_4_LEVEL, MAX_VA_4_LEVEL + 1);
    assert_eq!(index(FOUR_LEVEL_PT_SELF_MAP_BASE, 39), 0x1FF);
    assert_eq!(index(FOUR_LEVEL_PD_SELF_MAP_BASE, 30), 0x1FF);
    assert_eq!(index(FOUR_LEVEL_PML4_SELF_MAP_BASE, 12), 0x1FF);
    assert_eq!(CR3_PAGE_BASE_ADDRESS_MASK, ((1u64 << 40) - 1) << 12);
}

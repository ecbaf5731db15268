//! The fixed addresses of the x64 virtual address space.
//!
//! The last entry of the top level table refers to that table itself, so that the page tables
//! can be reached through the address range of that entry: the self map. The entry before the
//! last is set aside for zeroing pages before they become page tables.

use vstd::prelude::*;

use crate::structs::PageLevel;

verus! {

/// The last virtual address below the zero page range and the self map, under five levels. It is
/// above what processors generally support.
pub const MAX_VA_5_LEVEL: u64 = 0xFFFD_FFFF_FFFF_FFFF;

/// The last virtual address below the zero page range and the self map, under four levels.
pub const MAX_VA_4_LEVEL: u64 = 0xFFFF_FEFF_FFFF_FFFF;

/// The address at which a page is zeroed before it becomes a page table, under five levels: the
/// first one in the penultimate index of the top level table.
pub const ZERO_VA_5_LEVEL: u64 = 0xFFFE_0000_0000_0000;

/// The address at which a page is zeroed before it becomes a page table, under four levels.
pub const ZERO_VA_4_LEVEL: u64 = 0xFFFF_FF00_0000_0000;

// The address within the self map at which the tables of a level are reached. The self map
// index is taken once for every level that the walk has to recurse.
pub const FIVE_LEVEL_PML5_SELF_MAP_BASE: u64 = 0xFFFF_FFFF_FFFF_F000;

pub const FIVE_LEVEL_PML4_SELF_MAP_BASE: u64 = 0xFFFF_FFFF_FFE0_0000;

pub const FIVE_LEVEL_PDP_SELF_MAP_BASE: u64 = 0xFFFF_FFFF_C000_0000;

pub const FIVE_LEVEL_PD_SELF_MAP_BASE: u64 = 0xFFFF_FF80_0000_0000;

pub const FIVE_LEVEL_PT_SELF_MAP_BASE: u64 = 0xFFFF_0000_0000_0000;

pub const FOUR_LEVEL_PML4_SELF_MAP_BASE: u64 = 0xFFFF_FFFF_FFFF_F000;

pub const FOUR_LEVEL_PDP_SELF_MAP_BASE: u64 = 0xFFFF_FFFF_FFE0_0000;

pub const FOUR_LEVEL_PD_SELF_MAP_BASE: u64 = 0xFFFF_FFFF_C000_0000;

pub const FOUR_LEVEL_PT_SELF_MAP_BASE: u64 = 0xFFFF_FF80_0000_0000;

/// The bits of the control register CR3 that hold the address of the top level table.
pub const CR3_PAGE_BASE_ADDRESS_MASK: u64 = 0x000F_FFFF_FFFF_F000;

/// The number of address bits that every page aligned address has clear.
pub const PAGE_TABLE_ENTRY_4KB_PAGE_TABLE_BASE_ADDRESS_SHIFT: u64 = 12;

/// The bits of an address that a page table entry can hold.
pub const PAGE_TABLE_ENTRY_4KB_PAGE_TABLE_BASE_ADDRESS_MASK: u64 = 0x000F_FFFF_FFFF_F000;

/// The index of `va` in a table at `level`.
pub open spec fn table_index(va: u64, level: PageLevel) -> int {
    va as int / level.entry_span() % 512
}

/// The indices of `va` in the tables that a walk of five levels passes, from the top.
pub open spec fn five_level_indices(va: u64) -> Seq<int> {
    seq![
        table_index(va, PageLevel::Level5),
        table_index(va, PageLevel::Level4),
        table_index(va, PageLevel::Level3),
        table_index(va, PageLevel::Level2),
        table_index(va, PageLevel::Level1),
    ]
}

/// The indices of `va` in the tables that a walk of four levels passes, from the top.
pub open spec fn four_level_indices(va: u64) -> Seq<int> {
    seq![
        table_index(va, PageLevel::Level4),
        table_index(va, PageLevel::Level3),
        table_index(va, PageLevel::Level2),
        table_index(va, PageLevel::Level1),
    ]
}

/// Whether `va` is in canonical form, where the walk starts at level `top`: all bits above those
/// that the walk uses equal the highest bit that it uses.
pub open spec fn canonical(va: u64, top: PageLevel) -> bool {
    va < 256 * top.entry_span() || va >= 0x1_0000_0000_0000_0000 - 256 * top.entry_span()
}

/// Law: under five levels, the canonical addresses up to the maximum are those outside of the
/// last two entries of the top level table. The last entry but one starts at the zero page
/// address and the last one at the self map.
pub proof fn lemma_five_level_ranges(va: u64)
    requires
        canonical(va, PageLevel::Level5),
    ensures
        va <= MAX_VA_5_LEVEL <==> table_index(va, PageLevel::Level5) < 0x1FE,
        ZERO_VA_5_LEVEL <= va < FIVE_LEVEL_PT_SELF_MAP_BASE <==> table_index(va, PageLevel::Level5)
            == 0x1FE,
        FIVE_LEVEL_PT_SELF_MAP_BASE <= va <==> table_index(va, PageLevel::Level5) == 0x1FF,
{
    let entry: int = va as int / 0x1_0000_0000_0000;
    assert(table_index(va, PageLevel::Level5) == entry % 512);
}

/// Law: under four levels, the canonical addresses up to the maximum are those outside of the
/// last two entries of the top level table. The last entry but one starts at the zero page
/// address and the last one at the self map.
pub proof fn lemma_four_level_ranges(va: u64)
    requires
        canonical(va, PageLevel::Level4),
    ensures
        va <= MAX_VA_4_LEVEL <==> table_index(va, PageLevel::Level4) < 0x1FE,
        ZERO_VA_4_LEVEL <= va < FOUR_LEVEL_PT_SELF_MAP_BASE <==> table_index(va, PageLevel::Level4)
            == 0x1FE,
        FOUR_LEVEL_PT_SELF_MAP_BASE <= va <==> table_index(va, PageLevel::Level4) == 0x1FF,
{
    let entry: int = va as int / 0x80_0000_0000;
    assert(table_index(va, PageLevel::Level4) == entry % 512);
}

/// Law: under five levels, the address of a level in the self map is canonical. From the top, it
/// takes the self map index once for that level and once for every level below it. The range of
/// the level ends with the address space.
pub proof fn lemma_five_level_self_map()
    ensures
        five_level_indices(FIVE_LEVEL_PML5_SELF_MAP_BASE) == seq![0x1FFint, 0x1FF, 0x1FF, 0x1FF, 0x1FF],
        five_level_indices(FIVE_LEVEL_PML4_SELF_MAP_BASE) == seq![0x1FFint, 0x1FF, 0x1FF, 0x1FF, 0],
        five_level_indices(FIVE_LEVEL_PDP_SELF_MAP_BASE) == seq![0x1FFint, 0x1FF, 0x1FF, 0, 0],
        five_level_indices(FIVE_LEVEL_PD_SELF_MAP_BASE) == seq![0x1FFint, 0x1FF, 0, 0, 0],
        five_level_indices(FIVE_LEVEL_PT_SELF_MAP_BASE) == seq![0x1FFint, 0, 0, 0, 0],
        canonical(FIVE_LEVEL_PML5_SELF_MAP_BASE, PageLevel::Level5),
        canonical(FIVE_LEVEL_PML4_SELF_MAP_BASE, PageLevel::Level5),
        canonical(FIVE_LEVEL_PDP_SELF_MAP_BASE, PageLevel::Level5),
        canonical(FIVE_LEVEL_PD_SELF_MAP_BASE, PageLevel::Level5),
        canonical(FIVE_LEVEL_PT_SELF_MAP_BASE, PageLevel::Level5),
        FIVE_LEVEL_PML5_SELF_MAP_BASE + 0x1000 == 0x1_0000_0000_0000_0000,
        FIVE_LEVEL_PML4_SELF_MAP_BASE + 0x20_0000 == 0x1_0000_0000_0000_0000,
        FIVE_LEVEL_PDP_SELF_MAP_BASE + 0x4000_0000 == 0x1_0000_0000_0000_0000,
        FIVE_LEVEL_PD_SELF_MAP_BASE + 0x80_0000_0000 == 0x1_0000_0000_0000_0000,
        FIVE_LEVEL_PT_SELF_MAP_BASE + 0x1_0000_0000_0000 == 0x1_0000_0000_0000_0000,
{
}

/// Law: the same of the self map under four levels.
pub proof fn lemma_four_level_self_map()
    ensures
        four_level_indices(FOUR_LEVEL_PML4_SELF_MAP_BASE) == seq![0x1FFint, 0x1FF, 0x1FF, 0x1FF],
        four_level_indices(FOUR_LEVEL_PDP_SELF_MAP_BASE) == seq![0x1FFint, 0x1FF, 0x1FF, 0],
        four_level_indices(FOUR_LEVEL_PD_SELF_MAP_BASE) == seq![0x1FFint, 0x1FF, 0, 0],
        four_level_indices(FOUR_LEVEL_PT_SELF_MAP_BASE) == seq![0x1FFint, 0, 0, 0],
        canonical(FOUR_LEVEL_PML4_SELF_MAP_BASE, PageLevel::Level4),
        canonical(FOUR_LEVEL_PDP_SELF_MAP_BASE, PageLevel::Level4),
        canonical(FOUR_LEVEL_PD_SELF_MAP_BASE, PageLevel::Level4),
        canonical(FOUR_LEVEL_PT_SELF_MAP_BASE, PageLevel::Level4),
        FOUR_LEVEL_PML4_SELF_MAP_BASE + 0x1000 == 0x1_0000_0000_0000_0000,
        FOUR_LEVEL_PDP_SELF_MAP_BASE + 0x20_0000 == 0x1_0000_0000_0000_0000,
        FOUR_LEVEL_PD_SELF_MAP_BASE + 0x4000_0000 == 0x1_0000_0000_0000_0000,
        FOUR_LEVEL_PT_SELF_MAP_BASE + 0x80_0000_0000 == 0x1_0000_0000_0000_0000,
{
}

} // verus!

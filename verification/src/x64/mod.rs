//! The x64 flavour of page tables.

pub mod address_space;
pub mod bits;
pub mod commit;
pub mod dump;
pub mod dump_laws;
pub mod entry;
pub mod laws;
pub mod structs;
pub mod write_protection;

pub use structs::PageTableEntryX64;
pub use write_protection::disable_write_protection;
pub use write_protection::enable_write_protection;

use vstd::prelude::*;

use crate::structs::PageLevel;

verus! {

/// The page map, level 5.
pub const PML5: PageLevel = PageLevel::Level5;

/// The page map, level 4.
pub const PML4: PageLevel = PageLevel::Level4;

/// The page directory pointer table.
pub const PDP: PageLevel = PageLevel::Level3;

/// The page directory.
pub const PD: PageLevel = PageLevel::Level2;

/// The page table proper.
pub const PT: PageLevel = PageLevel::Level1;

} // verus!

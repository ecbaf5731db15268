//! Addresses and page table levels.

use vstd::prelude::*;

verus! {

/// A level of the page table hierarchy. Level 1 tables hold the entries that map the smallest
/// pages.
#[derive(Clone, Copy, Debug, PartialEq, Eq, Structural)]
pub enum PageLevel {
    Level5,
    Level4,
    Level3,
    Level2,
    Level1,
}

impl PageLevel {
    /// How many bytes of virtual address space one entry at this level covers: 4KB at level 1,
    /// and 512 times as much with every level above it.
    pub open spec fn entry_span(self) -> int {
        match self {
            PageLevel::Level1 => 0x1000,
            PageLevel::Level2 => 0x20_0000,
            PageLevel::Level3 => 0x4000_0000,
            PageLevel::Level4 => 0x80_0000_0000,
            PageLevel::Level5 => 0x1_0000_0000_0000,
        }
    }

    /// The distance of this level from level 5, the topmost one.
    #[verifier::allow_in_spec]
    pub fn depth(&self) -> usize
        returns
            (match *self {
                PageLevel::Level5 => 0usize,
                PageLevel::Level4 => 1usize,
                PageLevel::Level3 => 2usize,
                PageLevel::Level2 => 3usize,
                PageLevel::Level1 => 4usize,
            }),
    {
        match *self {
            PageLevel::Level5 => 0,
            PageLevel::Level4 => 1,
            PageLevel::Level3 => 2,
            PageLevel::Level2 => 3,
            PageLevel::Level1 => 4,
        }
    }
}

/// An address in physical memory.
#[derive(Clone, Copy, Debug, PartialEq, Eq, Structural)]
pub struct PhysicalAddress {
    pub address: u64,
}

/// An address in virtual memory.
#[derive(Clone, Copy, Debug, PartialEq, Eq, Structural)]
pub struct VirtualAddress {
    pub address: u64,
}

impl VirtualAddress {
    /// The last address of the range that the entry at `level` which covers this address covers.
    pub open spec fn spec_round_up(self, level: PageLevel) -> int {
        self.address - self.address as int % level.entry_span() + level.entry_span() - 1
    }

    /// The last address of the range that the entry at `level` which covers this address covers.
    pub fn round_up(&self, level: PageLevel) -> (r: VirtualAddress)
        ensures
            r.address == self.spec_round_up(level),
    {
        let va: u64 = self.address;
        let offset_mask: u64 = match level {
            PageLevel::Level1 => 0xFFF,
            PageLevel::Level2 => 0x1F_FFFF,
            PageLevel::Level3 => 0x3FFF_FFFF,
            PageLevel::Level4 => 0x7F_FFFF_FFFF,
            PageLevel::Level5 => 0xFFFF_FFFF_FFFF,
        };
        assert({
            &&& va | 0xFFF == va - va % 0x1000 + 0xFFF
            &&& va | 0x1F_FFFF == va - va % 0x20_0000 + 0x1F_FFFF
            &&& va | 0x3FFF_FFFF == va - va % 0x4000_0000 + 0x3FFF_FFFF
            &&& va | 0x7F_FFFF_FFFF == va - va % 0x80_0000_0000 + 0x7F_FFFF_FFFF
            &&& va | 0xFFFF_FFFF_FFFF == va - va % 0x1_0000_0000_0000 + 0xFFFF_FFFF_FFFF
        }) by (bit_vector);
        VirtualAddress { address: va | offset_mask }
    }
}

impl From<u64> for PhysicalAddress {
    fn from(address: u64) -> (r: Self) {
        PhysicalAddress { address }
    }
}

impl vstd::std_specs::convert::FromSpecImpl<u64> for PhysicalAddress {
    open spec fn obeys_from_spec() -> bool {
        true
    }

    open spec fn from_spec(address: u64) -> Self {
        PhysicalAddress { address }
    }
}

impl From<PhysicalAddress> for u64 {
    fn from(pa: PhysicalAddress) -> (r: Self) {
        pa.address
    }
}

impl vstd::std_specs::convert::FromSpecImpl<PhysicalAddress> for u64 {
    open spec fn obeys_from_spec() -> bool {
        true
    }

    open spec fn from_spec(pa: PhysicalAddress) -> Self {
        pa.address
    }
}

impl From<u64> for VirtualAddress {
    fn from(address: u64) -> (r: Self) {
        VirtualAddress { address }
    }
}

impl vstd::std_specs::convert::FromSpecImpl<u64> for VirtualAddress {
    open spec fn obeys_from_spec() -> bool {
        true
    }

    open spec fn from_spec(address: u64) -> Self {
        VirtualAddress { address }
    }
}

impl From<VirtualAddress> for u64 {
    fn from(va: VirtualAddress) -> (r: Self) {
        va.address
    }
}

impl vstd::std_specs::convert::FromSpecImpl<VirtualAddress> for u64 {
    open spec fn obeys_from_spec() -> bool {
        true
    }

    open spec fn from_spec(va: VirtualAddress) -> Self {
        va.address
    }
}

impl From<PhysicalAddress> for VirtualAddress {
    /// The virtual address of `pa` under the identity mapping.
    fn from(pa: PhysicalAddress) -> (r: Self) {
        VirtualAddress { address: pa.address }
    }
}

impl vstd::std_specs::convert::FromSpecImpl<PhysicalAddress> for VirtualAddress {
    open spec fn obeys_from_spec() -> bool {
        true
    }

    open spec fn from_spec(pa: PhysicalAddress) -> Self {
        VirtualAddress { address: pa.address }
    }
}

/// Law: an entry at the lowest level covers 4KB, an entry above covers a whole table of 512
/// entries of the level below it, and every level is one step deeper than the one above it.
pub proof fn lemma_levels()
    ensures
        PageLevel::Level1.entry_span() == 4096,
        PageLevel::Level2.entry_span() == 512 * PageLevel::Level1.entry_span(),
        PageLevel::Level3.entry_span() == 512 * PageLevel::Level2.entry_span(),
        PageLevel::Level4.entry_span() == 512 * PageLevel::Level3.entry_span(),
        PageLevel::Level5.entry_span() == 512 * PageLevel::Level4.entry_span(),
        PageLevel::Level5.depth() == 0,
        PageLevel::Level4.depth() == PageLevel::Level5.depth() + 1,
        PageLevel::Level3.depth() == PageLevel::Level4.depth() + 1,
        PageLevel::Level2.depth() == PageLevel::Level3.depth() + 1,
        PageLevel::Level1.depth() == PageLevel::Level2.depth() + 1,
{
}

/// Law: rounding up gives the first address from `va` on that is the last before a multiple of
/// what an entry covers.
pub proof fn lemma_round_up(va: VirtualAddress, level: PageLevel)
    ensures
        va.address <= va.spec_round_up(level) < va.address + level.entry_span(),
        (va.spec_round_up(level) + 1) % level.entry_span() == 0,
        va.spec_round_up(level) <= u64::MAX,
{
    let a: int = va.address as int;
    match level {
        PageLevel::Level1 => {
            assert(level.entry_span() == 0x1000);
        },
        PageLevel::Level2 => {
            assert(level.entry_span() == 0x20_0000);
        },
        PageLevel::Level3 => {
            assert(level.entry_span() == 0x4000_0000);
        },
        PageLevel::Level4 => {
            assert(level.entry_span() == 0x80_0000_0000);
        },
        PageLevel::Level5 => {
            assert(level.entry_span() == 0x1_0000_0000_0000);
        },
    }
    let span: int = level.entry_span();
    assert(a - a % span + span == span * (a / span + 1)) by (nonlinear_arith)
        requires
            span > 0,
    ;
    vstd::arithmetic::div_mod::lemma_mod_multiples_basic(a / span + 1, span);
    assert(span * (a / span + 1) == (a / span + 1) * span) by (nonlinear_arith);
}

} // verus!

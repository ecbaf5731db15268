//! The write protection bit of the control register CR0.
//!
//! While the bit is set, even supervisor code cannot write to a page that is mapped read-only.
//! A page table that is itself mapped read-only is therefore updated with the bit cleared. The
//! functions compute on the register's value; the caller reads and writes the register.

use vstd::prelude::*;

verus! {

/// The bit of CR0 that makes read-only mappings bind supervisor code too.
pub const CR0_WP: u64 = 0x1_0000;

/// Whether write protection is in force.
pub open spec fn write_protected(cr0: u64) -> bool {
    cr0 & CR0_WP != 0
}

/// The register with write protection lifted.
pub open spec fn unprotected(cr0: u64) -> u64 {
    cr0 & !CR0_WP
}

/// The register with write protection as it is, or put in force if it was in force in `saved`.
pub open spec fn reprotected(cr0: u64, saved: u64) -> u64 {
    cr0 | (saved & CR0_WP)
}

/// Clears write protection in `cr0` and returns the value from before, which
/// [`enable_write_protection`] takes.
pub fn disable_write_protection(cr0: &mut u64) -> (saved: u64)
    ensures
        saved == *old(cr0),
        *final(cr0) == *old(cr0) & !CR0_WP,
        *final(cr0) == unprotected(*old(cr0)),
        !write_protected(*final(cr0)),
        *final(cr0) & 0x1_0000 == 0,
        *final(cr0) & !0x1_0000u64 == *old(cr0) & !0x1_0000u64,
{
    let saved: u64 = *cr0;
    proof {
        lemma_unprotected_bits(saved);
    }
    assert(saved & !CR0_WP & CR0_WP == 0) by (bit_vector);
    *cr0 = saved & !CR0_WP;
    saved
}

/// Puts write protection in `cr0` back in force if it was in force in `saved`. It is left as it
/// is otherwise, and so is every other bit.
pub fn enable_write_protection(cr0: &mut u64, saved: u64)
    ensures
        *final(cr0) == *old(cr0) | (saved & CR0_WP),
        *final(cr0) == reprotected(*old(cr0), saved),
        *final(cr0) & 0x1_0000 != 0 <==> *old(cr0) & 0x1_0000 != 0 || saved & 0x1_0000 != 0,
        *final(cr0) & !0x1_0000u64 == *old(cr0) & !0x1_0000u64,
{
    proof {
        lemma_reprotected_bits(*cr0, saved);
    }
    *cr0 = *cr0 | (saved & CR0_WP);
}

/// Law: disabling write protection clears it and touches no other bit.
pub proof fn lemma_disable_clears_only_write_protection(cr0: u64)
    ensures
        !write_protected(cr0 & !CR0_WP),
        (cr0 & !CR0_WP) & !CR0_WP == cr0 & !CR0_WP,
{
    assert(cr0 & !CR0_WP & CR0_WP == 0) by (bit_vector);
    assert((cr0 & !CR0_WP) & !CR0_WP == cr0 & !CR0_WP) by (bit_vector);
}

/// Law: enabling write protection with a saved value puts it in force if it was in force in that
/// value, never lifts it, and touches no other bit.
pub proof fn lemma_enable_restores_write_protection(cr0: u64, saved: u64)
    ensures
        write_protected(cr0 | (saved & CR0_WP)) <==> write_protected(cr0) || write_protected(saved),
        (cr0 | (saved & CR0_WP)) & !CR0_WP == cr0 & !CR0_WP,
{
    assert((cr0 | (saved & CR0_WP)) & CR0_WP != 0 <==> cr0 & CR0_WP != 0 || saved & CR0_WP != 0)
        by (bit_vector);
    assert((cr0 | (saved & CR0_WP)) & !CR0_WP == cr0 & !CR0_WP) by (bit_vector);
}

/// Law: disabling write protection and enabling it with the saved value gives the register its
/// value from before back.
pub proof fn lemma_disable_then_enable(cr0: u64)
    ensures
        (cr0 & !CR0_WP) | (cr0 & CR0_WP) == cr0,
{
    assert((cr0 & !CR0_WP) | (cr0 & CR0_WP) == cr0) by (bit_vector);
}

/// Law: write protection is bit 16 of the register. Lifting it clears that bit and leaves the
/// other bits alone.
pub proof fn lemma_unprotected_bits(cr0: u64)
    ensures
        write_protected(cr0) <==> cr0 & 0x1_0000 != 0,
        unprotected(cr0) & 0x1_0000 == 0,
        unprotected(cr0) & !0x1_0000u64 == cr0 & !0x1_0000u64,
{
    assert((cr0 & !CR0_WP) & 0x1_0000 == 0 && (cr0 & !CR0_WP) & !0x1_0000u64 == cr0 & !0x1_0000u64)
        by (bit_vector);
}

/// Law: putting write protection back sets bit 16 exactly if it was set in the register or in the
/// saved value, and leaves the other bits alone. What was lifted is put back as it was.
pub proof fn lemma_reprotected_bits(cr0: u64, saved: u64)
    ensures
        reprotected(cr0, saved) & 0x1_0000 != 0 <==> cr0 & 0x1_0000 != 0 || saved & 0x1_0000 != 0,
        reprotected(cr0, saved) & !0x1_0000u64 == cr0 & !0x1_0000u64,
        reprotected(unprotected(cr0), cr0) == cr0,
{
    assert({
        let r = cr0 | (saved & CR0_WP);
        &&& r & 0x1_0000 != 0 <==> cr0 & 0x1_0000 != 0 || saved & 0x1_0000 != 0
        &&& r & !0x1_0000u64 == cr0 & !0x1_0000u64
        &&& (cr0 & !CR0_WP) | (cr0 & CR0_WP) == cr0
    }) by (bit_vector);
}

} // verus!

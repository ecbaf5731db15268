//! Putting a new entry in place of the one that the processor uses.
//!
//! The entry is written in one go, so that no mixture of the old and the new one is ever in
//! memory. If the table may be mapped read-only, write protection is lifted for that write and
//! put back right after it. A translation that the old entry left in the cache is invalidated
//! last, when the processor can find nothing but the new one.

use vstd::prelude::*;

use crate::structs::VirtualAddress;
use crate::x64::structs::PageTableEntryX64;
use crate::x64::write_protection;
use crate::x64::write_protection::{disable_write_protection, enable_write_protection, CR0_WP};

verus! {

/// One thing to do to the processor or to memory.
#[derive(Clone, Copy)]
pub enum CommitStep {
    /// Write the control register CR0.
    WriteCr0(u64),
    /// Overwrite the entry in memory, with a single store.
    WriteEntry(PageTableEntryX64),
    /// Invalidate the cached translation of an address.
    InvalidateTlb(VirtualAddress),
}

/// What the steps work on: the register and the entry in memory.
pub struct Machine {
    pub cr0: u64,
    pub entry: PageTableEntryX64,
}

impl Machine {
    /// The machine after one step.
    pub open spec fn after(self, step: CommitStep) -> Self {
        match step {
            CommitStep::WriteCr0(cr0) => Machine { cr0, ..self },
            CommitStep::WriteEntry(entry) => Machine { entry, ..self },
            CommitStep::InvalidateTlb(_) => self,
        }
    }

    /// The machine after all steps, the first one first.
    pub open spec fn after_all(self, steps: Seq<CommitStep>) -> Self
        decreases steps.len(),
    {
        if steps.len() == 0 {
            self
        } else {
            self.after_all(steps.drop_last()).after(steps.last())
        }
    }
}

/// The steps that overwrite an entry with `entry`. `cr0` is the value of CR0 if the table may be
/// mapped read-only, and absent if it is writable.
pub open spec fn swap_sequence(entry: PageTableEntryX64, cr0: Option<u64>) -> Seq<CommitStep> {
    match cr0 {
        Some(cr0) => seq![
            CommitStep::WriteCr0(cr0 & !CR0_WP),
            CommitStep::WriteEntry(entry),
            CommitStep::WriteCr0(cr0),
        ],
        None => seq![CommitStep::WriteEntry(entry)],
    }
}

/// The steps that overwrite an entry with `entry` and invalidate the translation of `stale`, if
/// there is one.
pub open spec fn commit_sequence(
    entry: PageTableEntryX64,
    stale: Option<VirtualAddress>,
    cr0: Option<u64>,
) -> Seq<CommitStep> {
    match stale {
        Some(va) => swap_sequence(entry, cr0).push(CommitStep::InvalidateTlb(va)),
        None => swap_sequence(entry, cr0),
    }
}

/// The steps that overwrite an entry with `entry`. `cr0` is the value of CR0 if the table may be
/// mapped read-only, and absent if it is writable.
pub fn swap_steps(entry: &PageTableEntryX64, cr0: Option<u64>) -> (r: Vec<CommitStep>)
    ensures
        r@ == swap_sequence(*entry, cr0),
{
    let mut steps: Vec<CommitStep> = Vec::new();
    match cr0 {
        Some(value) => {
            let mut register: u64 = value;
            proof {
                write_protection::lemma_disable_then_enable(value);
            }
            let saved: u64 = disable_write_protection(&mut register);
            steps.push(CommitStep::WriteCr0(register));
            steps.push(CommitStep::WriteEntry(*entry));
            enable_write_protection(&mut register, saved);
            steps.push(CommitStep::WriteCr0(register));
        },
        None => {
            steps.push(CommitStep::WriteEntry(*entry));
        },
    }
    assert(steps@ =~= swap_sequence(*entry, cr0));
    steps
}

/// The steps that put `entry` in place, where `stale` is what the operation that computed it
/// returned. `cr0` is the value of CR0 if the table may be mapped read-only, and absent if it is
/// writable.
pub fn commit_steps(
    entry: &PageTableEntryX64,
    stale: Option<VirtualAddress>,
    cr0: Option<u64>,
) -> (r: Vec<CommitStep>)
    ensures
        r@ == commit_sequence(*entry, stale, cr0),
{
    let mut steps = swap_steps(entry, cr0);
    if let Some(va) = stale {
        steps.push(CommitStep::InvalidateTlb(va));
    }
    steps
}

/// The machine at the end of a sequence without a last step to invalidate.
proof fn lemma_swap_effect(entry: PageTableEntryX64, cr0: Option<u64>, machine: Machine)
    requires
        cr0 matches Some(value) ==> machine.cr0 == value,
    ensures
        machine.after_all(swap_sequence(entry, cr0)) == (Machine { entry, ..machine }),
{
    let steps = swap_sequence(entry, cr0);
    reveal_with_fuel(Machine::after_all, 4);
    assert(steps.drop_last().len() == steps.len() - 1);
}

/// Law: committing an entry puts exactly that entry in place and leaves the register with the
/// value that it had.
pub proof fn lemma_commit_effect(
    entry: PageTableEntryX64,
    stale: Option<VirtualAddress>,
    cr0: Option<u64>,
    machine: Machine,
)
    requires
        cr0 matches Some(value) ==> machine.cr0 == value,
    ensures
        machine.after_all(commit_sequence(entry, stale, cr0)) == (Machine { entry, ..machine }),
{
    lemma_swap_effect(entry, cr0, machine);
    if stale is Some {
        assert(commit_sequence(entry, stale, cr0).drop_last() =~= swap_sequence(entry, cr0));
    }
}

/// Law: where the table may be mapped read-only, the entry is written while write protection is
/// lifted.
pub proof fn lemma_commit_writes_unprotected(
    entry: PageTableEntryX64,
    stale: Option<VirtualAddress>,
    cr0: u64,
    machine: Machine,
    at: int,
)
    requires
        0 <= at < commit_sequence(entry, stale, Some(cr0)).len(),
        commit_sequence(entry, stale, Some(cr0))[at] is WriteEntry,
    ensures
        !write_protection::write_protected(
            machine.after_all(commit_sequence(entry, stale, Some(cr0)).take(at)).cr0,
        ),
{
    let before = commit_sequence(entry, stale, Some(cr0)).take(at);
    assert(at == 1);
    reveal_with_fuel(Machine::after_all, 2);
    assert(before.drop_last() =~= seq![]);
    write_protection::lemma_disable_clears_only_write_protection(cr0);
}

/// Step `write` is the only one that writes an entry, it writes `entry`, and every step that
/// invalidates a translation comes after it.
pub open spec fn writes_once_and_invalidates_after(
    steps: Seq<CommitStep>,
    entry: PageTableEntryX64,
    write: int,
) -> bool {
    &&& 0 <= write < steps.len()
    &&& steps[write] == CommitStep::WriteEntry(entry)
    &&& forall|i: int|
        0 <= i < steps.len() && i != write ==> !(#[trigger] steps[i] is WriteEntry)
    &&& forall|i: int| 0 <= i < steps.len() && #[trigger] steps[i] is InvalidateTlb ==> write < i
}

/// Law: the entry is written once, and a translation is invalidated exactly if it is stale, and
/// then after that write.
pub proof fn lemma_commit_order(
    entry: PageTableEntryX64,
    stale: Option<VirtualAddress>,
    cr0: Option<u64>,
)
    ensures
        exists|write: int|
            writes_once_and_invalidates_after(commit_sequence(entry, stale, cr0), entry, write),
        forall|va: VirtualAddress|
            commit_sequence(entry, stale, cr0).contains(CommitStep::InvalidateTlb(va)) <==> stale
                == Some(va),
{
    let steps = commit_sequence(entry, stale, cr0);
    let write: int = if cr0 is Some {
        1
    } else {
        0
    };
    assert(writes_once_and_invalidates_after(steps, entry, write));
    assert forall|va: VirtualAddress| stale == Some(va) implies steps.contains(
        CommitStep::InvalidateTlb(va),
    ) by {
        assert(steps.last() == CommitStep::InvalidateTlb(va));
    }
}

/// Law: the register is written only where the table may be mapped read-only, and then only its
/// write protection bit, bit 16, ever differs from the value that it had.
pub proof fn lemma_commit_touches_only_write_protection(
    entry: PageTableEntryX64,
    stale: Option<VirtualAddress>,
    cr0: Option<u64>,
    at: int,
)
    requires
        0 <= at < commit_sequence(entry, stale, cr0).len(),
        commit_sequence(entry, stale, cr0)[at] is WriteCr0,
    ensures
        cr0 is Some,
        commit_sequence(entry, stale, cr0)[at]->WriteCr0_0 & !0x1_0000u64 == cr0->0 & !0x1_0000u64,
{
    if cr0 is Some {
        write_protection::lemma_unprotected_bits(cr0->0);
    }
}

/// Law: protection is lifted for the write of the entry alone. Once the entry is written, the
/// next step puts the register back, and a translation is invalidated with the register and the
/// entry in their final state.
pub proof fn lemma_commit_restores_at_once(
    entry: PageTableEntryX64,
    stale: Option<VirtualAddress>,
    cr0: u64,
    machine: Machine,
    at: int,
)
    requires
        machine.cr0 == cr0,
        0 <= at < commit_sequence(entry, stale, Some(cr0)).len(),
    ensures
        commit_sequence(entry, stale, Some(cr0))[at] is WriteEntry ==> at + 1 < commit_sequence(
            entry,
            stale,
            Some(cr0),
        ).len() && commit_sequence(entry, stale, Some(cr0))[at + 1] == CommitStep::WriteCr0(cr0),
        commit_sequence(entry, stale, Some(cr0))[at] is InvalidateTlb ==> machine.after_all(
            commit_sequence(entry, stale, Some(cr0)).take(at),
        ) == (Machine { cr0, entry }),
{
    let steps = commit_sequence(entry, stale, Some(cr0));
    if steps[at] is InvalidateTlb {
        lemma_swap_effect(entry, Some(cr0), machine);
        assert(steps.take(at) =~= swap_sequence(entry, Some(cr0)));
    }
}

/// Law: no step is superfluous. The entry is written, the register is written before and after
/// that where the table may be mapped read-only, and a stale translation is invalidated.
pub proof fn lemma_commit_length(
    entry: PageTableEntryX64,
    stale: Option<VirtualAddress>,
    cr0: Option<u64>,
)
    ensures
        commit_sequence(entry, stale, cr0).len() == 1 + (if cr0 is Some {
            2int
        } else {
            0
        }) + (if stale is Some {
            1int
        } else {
            0
        }),
{
}

} // verus!

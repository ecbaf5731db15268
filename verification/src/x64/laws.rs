//! What the operations do to the bits of an entry's word.
//!
//! Each law takes any word and says which bits the operation gives it, or what it reads from
//! them, bit by bit and in terms of the operation's arguments.

use vstd::prelude::*;

use crate::attributes;
use crate::attributes::MemoryAttributes;
use crate::structs::{PageLevel, PhysicalAddress, VirtualAddress};
use crate::x64::entry;
use crate::x64::structs;
use crate::x64::structs::EntryFields;

verus! {

/// Law: the present bit, the write bit and the no-execute bit say of each attribute that it was
/// not or was set. The user bit is set only where user and supervisor code are kept apart, and
/// then unless the mapping is reserved to supervisor code; it is clear otherwise, whatever the
/// attributes and the word before. The address and the record of accesses stay as they were, and
/// every other bit is clear.
pub proof fn lemma_set_attributes_bits(word: u64, attributes: MemoryAttributes, supervisor: bool)
    ensures
        ({
            let after = structs::unpack(word).with_attributes(attributes, supervisor).pack();
            &&& after & 0x1 != 0 <==> attributes.bits & 0x2000 == 0
            &&& after & 0x2 != 0 <==> attributes.bits & 0x2_0000 == 0
            &&& !supervisor ==> after & 0x4 == 0
            &&& supervisor ==> (after & 0x4 != 0 <==> attributes.bits & 0x20_0000 == 0)
            &&& after & 0x8 == 0
            &&& after & 0x10 == 0
            &&& after & 0x20 != 0 <==> word & 0x20 != 0
            &&& after & 0x40 != 0 <==> word & 0x40 != 0
            &&& after & 0x80 == 0
            &&& after & 0x100 == 0
            &&& after / 0x200 % 8 == 0
            &&& after / 0x1000 % 0x100_0000_0000 == word / 0x1000 % 0x100_0000_0000
            &&& after / 0x10_0000_0000_0000 % 0x800 == 0
            &&& after & 0x8000_0000_0000_0000 != 0 <==> attributes.bits & 0x4000 != 0
        }),
{
    let after = structs::unpack(word).with_attributes(attributes, supervisor);
    attributes::lemma_attribute_bits(attributes);
    structs::lemma_pack_unpack(word);
    structs::lemma_field_positions(word);
    structs::lemma_unpack_pack(after);
    structs::lemma_field_positions(after.pack());
}

/// Law: after an update the word holds the address, as far as an entry can, and the attributes as
/// setting them gives them. The page size bit is set exactly if the entry was updated to map a
/// page that can be read, at one of the two levels that can map large pages.
pub proof fn lemma_update_bits(
    word: u64,
    attributes: MemoryAttributes,
    pa: PhysicalAddress,
    leaf_entry: bool,
    level: PageLevel,
    supervisor: bool,
)
    ensures
        ({
            let after = structs::unpack(word).updated(
                attributes,
                pa,
                leaf_entry,
                level,
                supervisor,
            ).pack();
            &&& after & 0x1 != 0 <==> attributes.bits & 0x2000 == 0
            &&& after & 0x2 != 0 <==> attributes.bits & 0x2_0000 == 0
            &&& !supervisor ==> after & 0x4 == 0
            &&& supervisor ==> (after & 0x4 != 0 <==> attributes.bits & 0x20_0000 == 0)
            &&& after & 0x8 == 0
            &&& after & 0x10 == 0
            &&& after & 0x20 != 0 <==> word & 0x20 != 0
            &&& after & 0x40 != 0 <==> word & 0x40 != 0
            &&& level == PageLevel::Level2 || level == PageLevel::Level3 ==> (after & 0x80 != 0
                <==> leaf_entry && attributes.bits & 0x2000 == 0)
            &&& level != PageLevel::Level2 && level != PageLevel::Level3 ==> after & 0x80 == 0
            &&& after & 0x100 == 0
            &&& after / 0x200 % 8 == 0
            &&& after / 0x1000 % 0x100_0000_0000 == pa.address / 0x1000 % 0x100_0000_0000
            &&& after / 0x10_0000_0000_0000 % 0x800 == 0
            &&& after & 0x8000_0000_0000_0000 != 0 <==> attributes.bits & 0x4000 != 0
        }),
{
    let after = structs::unpack(word).updated(attributes, pa, leaf_entry, level, supervisor);
    attributes::lemma_attribute_bits(attributes);
    structs::lemma_pack_unpack(word);
    structs::lemma_field_positions(word);
    structs::lemma_unpack_pack(after);
    structs::lemma_field_positions(after.pack());
}

/// Law: the attributes read from a word are a function of four of its bits, one attribute each,
/// and nothing else is ever among them.
pub proof fn lemma_attributes_bits(word: u64, supervisor: bool)
    ensures
        ({
            let attributes = structs::unpack(word).attributes(supervisor);
            &&& attributes.bits & 0x2000 != 0 <==> word & 0x1 == 0
            &&& attributes.bits & 0x2_0000 != 0 <==> word & 0x2 == 0
            &&& attributes.bits & 0x4000 != 0 <==> word & 0x8000_0000_0000_0000 != 0
            &&& attributes.bits & 0x20_0000 != 0 <==> supervisor && word & 0x4 == 0
            &&& attributes.bits & !0x22_6000u64 == 0
        }),
{
    let fields = structs::unpack(word);
    let read = fields.attributes(supervisor);
    structs::lemma_field_positions(word);
    entry::lemma_attributes_meaning(fields, supervisor);
    attributes::lemma_attribute_bits(read);
    let p: bool = !fields.present;
    let w: bool = !fields.read_write;
    let x: bool = fields.nx;
    let s: bool = supervisor && !fields.user_supervisor;
    assert(((if p { 0x2000u64 } else { 0 }) | (if w { 0x20000u64 } else { 0 }) | (if x {
        0x4000u64
    } else { 0 }) | (if s { 0x200000u64 } else { 0 })) & !0x22_6000u64 == 0) by (bit_vector);
}

/// Law: the address that a word refers to is its bits 51:12 in their place.
pub proof fn lemma_next_address_bits(word: u64)
    ensures
        structs::unpack(word).next_address() == word & 0x000F_FFFF_FFFF_F000,
        structs::unpack(word).next_address() == word % 0x10_0000_0000_0000 - word % 0x1000,
{
    structs::lemma_field_positions(word);
    assert(word & 0x000F_FFFF_FFFF_F000 == word / 0x1000 % 0x100_0000_0000 * 0x1000
        && word & 0x000F_FFFF_FFFF_F000 == word % 0x10_0000_0000_0000 - word % 0x1000)
        by (bit_vector);
}

/// Law: at the two levels that can map large pages, the page size bit alone says whether a word
/// refers to a frame. At the lowest level every word does, and above these levels none.
pub proof fn lemma_points_to_pa_bits(word: u64)
    ensures
        structs::unpack(word).points_to_pa(PageLevel::Level1),
        structs::unpack(word).points_to_pa(PageLevel::Level2) <==> word & 0x80 != 0,
        structs::unpack(word).points_to_pa(PageLevel::Level3) <==> word & 0x80 != 0,
        !structs::unpack(word).points_to_pa(PageLevel::Level4),
        !structs::unpack(word).points_to_pa(PageLevel::Level5),
{
    structs::lemma_field_positions(word);
}

/// Law: changing an entry makes the translation of its address stale exactly if the present bit
/// of the word before was set, whatever its other bits.
pub proof fn lemma_stale_translation_bits(word: u64, va: VirtualAddress)
    ensures
        word & 0x1 != 0 ==> entry::stale_translation(structs::unpack(word), va) == Some(va),
        word & 0x1 == 0 ==> entry::stale_translation(structs::unpack(word), va) == None::<
            VirtualAddress,
        >,
{
    structs::lemma_field_positions(word);
}

/// Law: setting whether an entry is present decides the present bit and no other.
pub proof fn lemma_set_present_bits(word: u64, value: bool)
    ensures
        ({
            let after = (EntryFields { present: value, ..structs::unpack(word) }).pack();
            &&& after & 0x1 != 0 <==> value
            &&& after & !0x1u64 == word & !0x1u64
        }),
{
    let fields = EntryFields { present: value, ..structs::unpack(word) };
    let after: u64 = fields.pack();
    structs::lemma_pack_unpack(word);
    structs::lemma_unpack_pack(fields);
    structs::lemma_field_positions(after);
    structs::lemma_pack_unpack(after);
    lemma_clearing_present(word);
    lemma_clearing_present(after);
}

/// Clearing the lowest bit of a word clears the field `present` and keeps the others.
proof fn lemma_clearing_present(word: u64)
    ensures
        word & !0x1u64 == (EntryFields { present: false, ..structs::unpack(word) }).pack(),
{
    let cleared: u64 = word & !0x1u64;
    structs::lemma_pack_unpack(cleared);
    structs::lemma_field_positions(cleared);
    structs::lemma_field_positions(word);
    assert({
        let cleared = word & !0x1u64;
        &&& cleared & 0x1 == 0
        &&& cleared & 0x2 == word & 0x2
        &&& cleared & 0x4 == word & 0x4
        &&& cleared & 0x8 == word & 0x8
        &&& cleared & 0x10 == word & 0x10
        &&& cleared & 0x20 == word & 0x20
        &&& cleared & 0x40 == word & 0x40
        &&& cleared & 0x80 == word & 0x80
        &&& cleared & 0x100 == word & 0x100
        &&& cleared / 0x200 == word / 0x200
        &&& cleared / 0x1000 == word / 0x1000
        &&& cleared / 0x10_0000_0000_0000 == word / 0x10_0000_0000_0000
        &&& cleared & 0x8000_0000_0000_0000 == word & 0x8000_0000_0000_0000
    }) by (bit_vector);
    assert(structs::unpack(cleared) == (EntryFields { present: false, ..structs::unpack(word) }));
}

/// The wide fields of a word and the groups of bits that hold them, masked in place.
pub proof fn lemma_masks(word: u64)
    ensures
        word & 0x000F_FFFF_FFFF_F000 == word / 0x1000 % 0x100_0000_0000 * 0x1000,
        word & 0x60 == (if word & 0x20 != 0 {
            0x20int
        } else {
            0
        }) + (if word & 0x40 != 0 {
            0x40int
        } else {
            0
        }),
        word & 0x7FF0_0000_0000_0F18 == 0 <==> word & 0x8 == 0 && word & 0x10 == 0 && word & 0x100
            == 0 && word / 0x200 % 8 == 0 && word / 0x10_0000_0000_0000 % 0x800 == 0,
        word & 0x7FF0_0000_0000_0F98 == 0 <==> word & 0x7FF0_0000_0000_0F18 == 0 && word & 0x80
            == 0,
{
    assert({
        &&& word & 0x000F_FFFF_FFFF_F000 == word / 0x1000 % 0x100_0000_0000 * 0x1000
        &&& word & 0x60 == (word & 0x20) + (word & 0x40)
        &&& word & 0x20 == 0 || word & 0x20 == 0x20
        &&& word & 0x40 == 0 || word & 0x40 == 0x40
        &&& word & 0x7FF0_0000_0000_0F18 == 0 <==> word & 0x8 == 0 && word & 0x10 == 0 && word
            & 0x100 == 0 && word / 0x200 % 8 == 0 && word / 0x10_0000_0000_0000 % 0x800 == 0
        &&& word & 0x7FF0_0000_0000_0F98 == 0 <==> word & 0x7FF0_0000_0000_0F18 == 0 && word & 0x80
            == 0
    }) by (bit_vector);
}

} // verus!

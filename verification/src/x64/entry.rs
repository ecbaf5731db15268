//! What a page table walker does with an entry.

use vstd::prelude::*;

use crate::attributes::MemoryAttributes;
use crate::error::PtError;
use crate::structs::{PageLevel, PhysicalAddress, VirtualAddress};
use crate::x64::address_space::{
    PAGE_TABLE_ENTRY_4KB_PAGE_TABLE_BASE_ADDRESS_MASK,
    PAGE_TABLE_ENTRY_4KB_PAGE_TABLE_BASE_ADDRESS_SHIFT,
};
use crate::x64::laws;
use crate::x64::structs;
use crate::x64::structs::{EntryFields, PageTableEntryX64};
use crate::x64::{PD, PDP, PT};

verus! {

impl EntryFields {
    /// The fields with the given attributes. What is not an attribute of the mapping stays: the
    /// address and the bits that the processor records accesses in.
    pub open spec fn with_attributes(self, attributes: MemoryAttributes, supervisor: bool) -> Self {
        EntryFields {
            present: !attributes.contains(MemoryAttributes::ReadProtect()),
            read_write: !attributes.contains(MemoryAttributes::ReadOnly()),
            user_supervisor: supervisor && !attributes.contains(MemoryAttributes::Supervisor()),
            nx: attributes.contains(MemoryAttributes::ExecuteProtect()),
            write_through: false,
            cache_disabled: false,
            page_size: false,
            global: false,
            available: 0,
            available_high: 0,
            ..self
        }
    }

    /// The attributes of the mapping.
    pub open spec fn attributes(self, supervisor: bool) -> MemoryAttributes {
        attribute_if(!self.present, MemoryAttributes::ReadProtect()).union(
            attribute_if(!self.read_write, MemoryAttributes::ReadOnly()),
        ).union(attribute_if(self.nx, MemoryAttributes::ExecuteProtect())).union(
            attribute_if(supervisor && !self.user_supervisor, MemoryAttributes::Supervisor()),
        )
    }

    /// The address of the frame or table that the entry refers to.
    pub open spec fn next_address(self) -> int {
        self.page_table_base_address * 0x1000
    }

    /// The fields after the entry was made to refer to `pa`, with the given attributes.
    pub open spec fn updated(
        self,
        attributes: MemoryAttributes,
        pa: PhysicalAddress,
        leaf_entry: bool,
        level: PageLevel,
        supervisor: bool,
    ) -> Self {
        EntryFields {
            page_table_base_address: pa.address / 0x1000 % 0x100_0000_0000,
            page_size: (level == PD || level == PDP) && leaf_entry && !attributes.contains(
                MemoryAttributes::ReadProtect(),
            ),
            ..self.with_attributes(attributes, supervisor)
        }
    }

    /// Whether an entry at `level` refers to a frame rather than to a table.
    pub open spec fn points_to_pa(self, level: PageLevel) -> bool {
        level == PT || ((level == PD || level == PDP) && self.page_size)
    }
}

/// `attribute` if `condition` holds, and no attribute otherwise.
pub open spec fn attribute_if(condition: bool, attribute: MemoryAttributes) -> MemoryAttributes {
    if condition {
        attribute
    } else {
        MemoryAttributes::empty()
    }
}

/// The address whose cached translation a change of an entry makes stale: there is one only if
/// the entry was present before, since the processor does not cache what is not present.
pub open spec fn stale_translation(before: EntryFields, va: VirtualAddress) -> Option<
    VirtualAddress,
> {
    if before.present {
        Some(va)
    } else {
        None
    }
}

impl PageTableEntryX64 {
    /// Gives the mapping exactly the attributes in `attributes`.
    pub fn set_attributes(&mut self, attributes: MemoryAttributes)
        ensures
            final(self)@ == old(self)@.with_attributes(attributes, false),
            final(self).word() & 0x1 != 0 <==> attributes.bits & 0x2000 == 0,
            final(self).word() & 0x2 != 0 <==> attributes.bits & 0x2_0000 == 0,
            final(self).word() & 0x4 == 0,
            final(self).word() & 0x60 == old(self).word() & 0x60,
            final(self).word() & 0x7FF0_0000_0000_0F98 == 0,
            final(self).word() & 0x000F_FFFF_FFFF_F000 == old(self).word() & 0x000F_FFFF_FFFF_F000,
            final(self).word() & 0x8000_0000_0000_0000 != 0 <==> attributes.bits & 0x4000 != 0,
    {
        self.set_attributes_with(attributes, false)
    }

    /// Gives the mapping exactly the attributes in `attributes`. Mappings are open to user code
    /// only if `supervisor` is true, and then unless they have the attribute `Supervisor`.
    pub fn set_attributes_with(&mut self, attributes: MemoryAttributes, supervisor: bool)
        ensures
            final(self)@ == old(self)@.with_attributes(attributes, supervisor),
            final(self).word() & 0x1 != 0 <==> attributes.bits & 0x2000 == 0,
            final(self).word() & 0x2 != 0 <==> attributes.bits & 0x2_0000 == 0,
            final(self).word() & 0x4 != 0 <==> supervisor && attributes.bits & 0x20_0000 == 0,
            final(self).word() & 0x60 == old(self).word() & 0x60,
            final(self).word() & 0x7FF0_0000_0000_0F98 == 0,
            final(self).word() & 0x000F_FFFF_FFFF_F000 == old(self).word() & 0x000F_FFFF_FFFF_F000,
            final(self).word() & 0x8000_0000_0000_0000 != 0 <==> attributes.bits & 0x4000 != 0,
    {
        if attributes.contains(MemoryAttributes::ReadProtect()) {
            self.set_present(false);
        } else {
            self.set_present(true);
        }

        if attributes.contains(MemoryAttributes::ReadOnly()) {
            self.set_read_write(false);
        } else {
            self.set_read_write(true);
        }

        let user_supervisor = supervisor && !attributes.contains(MemoryAttributes::Supervisor());
        self.set_user_supervisor(user_supervisor);

        self.set_write_through(false);
        self.set_cache_disabled(false);
        self.set_page_size(false);
        self.set_global(false);
        self.set_available(0);
        self.set_available_high(0);

        if attributes.contains(MemoryAttributes::ExecuteProtect()) {
            self.set_nx(true);
        } else {
            self.set_nx(false);
        }

        proof {
            laws::lemma_set_attributes_bits(old(self).word(), attributes, supervisor);
            structs::lemma_pack_unpack(self.word());
            laws::lemma_masks(self.word());
            laws::lemma_masks(old(self).word());
        }
    }

    /// The address of the frame or table that the entry refers to.
    pub fn get_canonical_page_table_base(&self) -> (r: PhysicalAddress)
        ensures
            r.address == self@.next_address(),
            r.address == self.word() & 0x000F_FFFF_FFFF_F000,
    {
        proof {
            laws::lemma_next_address_bits(self.word());
        }
        let base: u64 = self.page_table_base_address();
        assert(base << 12 == base * 0x1000) by (bit_vector)
            requires
                base <= 0xFF_FFFF_FFFF,
        ;
        PhysicalAddress::from(base << PAGE_TABLE_ENTRY_4KB_PAGE_TABLE_BASE_ADDRESS_SHIFT)
    }

    /// Overwrites the entry with `other`, all fields at once. A partial update could be picked
    /// up by speculative execution, or change the mapping that the code itself runs on.
    pub fn swap(&mut self, other: &Self)
        ensures
            *final(self) == *other,
            final(self).word() == other.word(),
    {
        *self = *other;
    }

    /// Makes the entry refer to `pa`, with the attributes in `attributes`. At the levels that
    /// can map large pages, `leaf_entry` says whether it maps one or refers to a table.
    ///
    /// Returns the address whose cached translation the caller has to invalidate, if any.
    pub fn update_fields(
        &mut self,
        attributes: MemoryAttributes,
        pa: PhysicalAddress,
        leaf_entry: bool,
        level: PageLevel,
        va: VirtualAddress,
    ) -> (r: Result<Option<VirtualAddress>, PtError>)
        ensures
            r == Ok::<Option<VirtualAddress>, PtError>(stale_translation(old(self)@, va)),
            r == Ok::<Option<VirtualAddress>, PtError>(
                if old(self).word() & 0x1 != 0 {
                    Some(va)
                } else {
                    None
                },
            ),
            final(self)@ == old(self)@.updated(attributes, pa, leaf_entry, level, false),
            final(self).word() & 0x1 != 0 <==> attributes.bits & 0x2000 == 0,
            final(self).word() & 0x2 != 0 <==> attributes.bits & 0x2_0000 == 0,
            final(self).word() & 0x4 == 0,
            final(self).word() & 0x60 == old(self).word() & 0x60,
            final(self).word() & 0x80 != 0 <==> (level == PageLevel::Level2 || level
                == PageLevel::Level3) && leaf_entry && attributes.bits & 0x2000 == 0,
            final(self).word() & 0x7FF0_0000_0000_0F18 == 0,
            final(self).word() & 0x000F_FFFF_FFFF_F000 == pa.address & 0x000F_FFFF_FFFF_F000,
            final(self).word() & 0x8000_0000_0000_0000 != 0 <==> attributes.bits & 0x4000 != 0,
    {
        self.update_fields_with(attributes, pa, leaf_entry, level, va, false)
    }

    /// Does what [`PageTableEntryX64::update_fields`] does, with the attributes set as
    /// [`PageTableEntryX64::set_attributes_with`] sets them.
    pub fn update_fields_with(
        &mut self,
        attributes: MemoryAttributes,
        pa: PhysicalAddress,
        leaf_entry: bool,
        level: PageLevel,
        va: VirtualAddress,
        supervisor: bool,
    ) -> (r: Result<Option<VirtualAddress>, PtError>)
        ensures
            r == Ok::<Option<VirtualAddress>, PtError>(stale_translation(old(self)@, va)),
            r == Ok::<Option<VirtualAddress>, PtError>(
                if old(self).word() & 0x1 != 0 {
                    Some(va)
                } else {
                    None
                },
            ),
            final(self)@ == old(self)@.updated(attributes, pa, leaf_entry, level, supervisor),
            final(self).word() & 0x1 != 0 <==> attributes.bits & 0x2000 == 0,
            final(self).word() & 0x2 != 0 <==> attributes.bits & 0x2_0000 == 0,
            final(self).word() & 0x4 != 0 <==> supervisor && attributes.bits & 0x20_0000 == 0,
            final(self).word() & 0x60 == old(self).word() & 0x60,
            final(self).word() & 0x80 != 0 <==> (level == PageLevel::Level2 || level
                == PageLevel::Level3) && leaf_entry && attributes.bits & 0x2000 == 0,
            final(self).word() & 0x7FF0_0000_0000_0F18 == 0,
            final(self).word() & 0x000F_FFFF_FFFF_F000 == pa.address & 0x000F_FFFF_FFFF_F000,
            final(self).word() & 0x8000_0000_0000_0000 != 0 <==> attributes.bits & 0x4000 != 0,
    {
        // The entry in use is overwritten once, when its new value is complete.
        let mut copy = *self;

        let address: u64 = pa.into();
        let next_level_table_base: u64 = (address
            & PAGE_TABLE_ENTRY_4KB_PAGE_TABLE_BASE_ADDRESS_MASK)
            >> PAGE_TABLE_ENTRY_4KB_PAGE_TABLE_BASE_ADDRESS_SHIFT;
        assert((address & 0x000F_FFFF_FFFF_F000) >> 12 == address / 0x1000 % 0x100_0000_0000)
            by (bit_vector);

        copy.set_page_table_base_address(next_level_table_base);
        copy.set_present(true);

        copy.set_attributes_with(attributes, supervisor);

        // Setting the attributes has cleared the page size.
        if matches!(level, PD | PDP) {
            let page_size = leaf_entry && !attributes.contains(MemoryAttributes::ReadProtect());
            copy.set_page_size(page_size);
        }

        proof {
            laws::lemma_stale_translation_bits(self.word(), va);
            laws::lemma_update_bits(self.word(), attributes, pa, leaf_entry, level, supervisor);
            structs::lemma_pack_unpack(copy.word());
            laws::lemma_masks(copy.word());
            laws::lemma_masks(self.word());
            laws::lemma_masks(pa.address);
        }
        let prev_valid = self.present();
        self.swap(&copy);
        Ok(if prev_valid { Some(va) } else { None })
    }

    /// Whether the entry is present.
    pub fn get_present_bit(&self) -> (r: bool)
        ensures
            r == self@.present,
            r == (self.word() & 0x1 != 0),
    {
        proof {
            structs::lemma_field_positions(self.word());
        }
        self.present()
    }

    /// Sets whether the entry is present and leaves the other fields alone.
    ///
    /// Returns the address whose cached translation the caller has to invalidate, if any.
    pub fn set_present_bit(&mut self, value: bool, va: VirtualAddress) -> (r: Option<
        VirtualAddress,
    >)
        ensures
            r == stale_translation(old(self)@, va),
            old(self).word() & 0x1 != 0 ==> r == Some(va),
            old(self).word() & 0x1 == 0 ==> r is None,
            final(self)@ == (EntryFields { present: value, ..old(self)@ }),
            final(self).word() & 0x1 != 0 <==> value,
            final(self).word() & !0x1u64 == old(self).word() & !0x1u64,
    {
        proof {
            laws::lemma_stale_translation_bits(self.word(), va);
            laws::lemma_set_present_bits(self.word(), value);
        }
        let mut copy = *self;
        copy.set_present(value);
        let prev_valid = self.present();
        self.swap(&copy);
        proof {
            structs::lemma_pack_unpack(self.word());
        }
        if prev_valid {
            Some(va)
        } else {
            None
        }
    }

    /// The address of the frame or table that the entry refers to.
    pub fn get_next_address(&self) -> (r: PhysicalAddress)
        ensures
            r.address == self@.next_address(),
            r.address == self.word() & 0x000F_FFFF_FFFF_F000,
    {
        self.get_canonical_page_table_base()
    }

    /// The attributes of the mapping.
    pub fn get_attributes(&self) -> (r: MemoryAttributes)
        ensures
            r == self@.attributes(false),
            r.bits & 0x2000 != 0 <==> self.word() & 0x1 == 0,
            r.bits & 0x2_0000 != 0 <==> self.word() & 0x2 == 0,
            r.bits & 0x4000 != 0 <==> self.word() & 0x8000_0000_0000_0000 != 0,
            r.bits & 0x20_0000 == 0,
            r.bits & !0x22_6000u64 == 0,
    {
        self.get_attributes_with(false)
    }

    /// The attributes of the mapping. They tell whether it is reserved to supervisor code only if
    /// `supervisor` is true.
    pub fn get_attributes_with(&self, supervisor: bool) -> (r: MemoryAttributes)
        ensures
            r == self@.attributes(supervisor),
            r.bits & 0x2000 != 0 <==> self.word() & 0x1 == 0,
            r.bits & 0x2_0000 != 0 <==> self.word() & 0x2 == 0,
            r.bits & 0x4000 != 0 <==> self.word() & 0x8000_0000_0000_0000 != 0,
            r.bits & 0x20_0000 != 0 <==> supervisor && self.word() & 0x4 == 0,
            r.bits & !0x22_6000u64 == 0,
    {
        let mut attributes = MemoryAttributes::empty();
        proof {
            laws::lemma_attributes_bits(self.word(), supervisor);
            assert(forall|x: u64| #[trigger] (x | 0) == x) by (bit_vector);
            assert(forall|x: u64| #[trigger] (0 | x) == x) by (bit_vector);
        }

        if !self.present() {
            attributes = attributes | MemoryAttributes::ReadProtect();
        }

        if !self.read_write() {
            attributes = attributes | MemoryAttributes::ReadOnly();
        }

        if self.nx() {
            attributes = attributes | MemoryAttributes::ExecuteProtect();
        }

        if supervisor && !self.user_supervisor() {
            attributes = attributes | MemoryAttributes::Supervisor();
        }

        attributes
    }

    /// Whether the entry, at `level`, refers to a frame rather than to a table.
    pub fn points_to_pa(&self, level: PageLevel) -> (r: bool)
        ensures
            r == self@.points_to_pa(level),
            r == (level == PageLevel::Level1 || ((level == PageLevel::Level2 || level
                == PageLevel::Level3) && self.word() & 0x80 != 0)),
    {
        proof {
            laws::lemma_points_to_pa_bits(self.word());
        }
        match level {
            PT => true,
            PD | PDP => self.page_size(),
            _ => false,
        }
    }

    /// Clears every bit of the entry.
    ///
    /// Returns the address whose cached translation the caller has to invalidate, if any.
    pub fn unmap(&mut self, va: VirtualAddress) -> (r: Option<VirtualAddress>)
        ensures
            r == stale_translation(old(self)@, va),
            old(self).word() & 0x1 != 0 ==> r == Some(va),
            old(self).word() & 0x1 == 0 ==> r is None,
            final(self)@ == EntryFields::cleared(),
            final(self).word() == 0,
    {
        let copy = PageTableEntryX64::from_bits(0);
        proof {
            laws::lemma_stale_translation_bits(self.word(), va);
            crate::x64::structs::lemma_unpack_zero();
        }
        let prev_valid = self.present();
        self.swap(&copy);
        if prev_valid {
            Some(va)
        } else {
            None
        }
    }
}

/// The attributes that an entry can hold.
pub open spec fn held_attributes(supervisor: bool) -> MemoryAttributes {
    MemoryAttributes::ReadProtect().union(MemoryAttributes::ReadOnly()).union(
        MemoryAttributes::ExecuteProtect(),
    ).union(attribute_if(supervisor, MemoryAttributes::Supervisor()))
}

/// Law: the attributes read from an entry are those that were set, as far as an entry can hold
/// them.
pub proof fn lemma_attributes_read_back(
    fields: EntryFields,
    attributes: MemoryAttributes,
    supervisor: bool,
)
    ensures
        fields.with_attributes(attributes, supervisor).attributes(supervisor)
            == attributes.intersection(held_attributes(supervisor)),
{
    let a: u64 = attributes.bits;
    assert({
        let rp = if a & 0x2000 == 0x2000 { 0x2000u64 } else { 0 };
        let ro = if a & 0x20000 == 0x20000 { 0x20000u64 } else { 0 };
        let xp = if a & 0x4000 == 0x4000 { 0x4000u64 } else { 0 };
        let sv = if a & 0x200000 == 0x200000 { 0x200000u64 } else { 0 };
        &&& rp | ro | xp | sv == a & (0x2000u64 | 0x20000 | 0x4000 | 0x200000)
        &&& rp | ro | xp | 0 == a & (0x2000u64 | 0x20000 | 0x4000 | 0)
    }) by (bit_vector);
}

/// Law: setting attributes forgets the ones set before.
pub proof fn lemma_attributes_last_set_wins(
    fields: EntryFields,
    first: MemoryAttributes,
    second: MemoryAttributes,
    supervisor: bool,
)
    ensures
        fields.with_attributes(first, supervisor).with_attributes(second, supervisor)
            == fields.with_attributes(second, supervisor),
{
}

/// Law: each attribute read from an entry stands for one permission that the entry withholds.
pub proof fn lemma_attributes_meaning(fields: EntryFields, supervisor: bool)
    ensures
        fields.attributes(supervisor).contains(MemoryAttributes::ReadProtect()) <==> !fields.present,
        fields.attributes(supervisor).contains(MemoryAttributes::ReadOnly()) <==> !fields.read_write,
        fields.attributes(supervisor).contains(MemoryAttributes::ExecuteProtect()) <==> fields.nx,
        fields.attributes(supervisor).contains(MemoryAttributes::Supervisor()) <==> supervisor
            && !fields.user_supervisor,
{
    let p: bool = !fields.present;
    let w: bool = !fields.read_write;
    let x: bool = fields.nx;
    let s: bool = supervisor && !fields.user_supervisor;
    assert({
        let a = (if p { 0x2000u64 } else { 0 }) | (if w { 0x20000u64 } else { 0 }) | (if x {
            0x4000u64
        } else { 0 }) | (if s { 0x200000u64 } else { 0 });
        &&& (a & 0x2000 == 0x2000) == p
        &&& (a & 0x20000 == 0x20000) == w
        &&& (a & 0x4000 == 0x4000) == x
        &&& (a & 0x200000 == 0x200000) == s
    }) by (bit_vector);
}

/// Law: setting an entry's own attributes on it leaves its permissions as they are.
pub proof fn lemma_attributes_write_back(fields: EntryFields, supervisor: bool)
    ensures
        ({
            let back = fields.with_attributes(fields.attributes(supervisor), supervisor);
            &&& back.present == fields.present
            &&& back.read_write == fields.read_write
            &&& back.nx == fields.nx
            &&& supervisor ==> back.user_supervisor == fields.user_supervisor
        }),
{
    lemma_attributes_meaning(fields, supervisor);
}

/// Law: an updated entry has the attributes that it was updated with, as far as an entry can
/// hold them.
pub proof fn lemma_update_then_get_attributes(
    fields: EntryFields,
    attributes: MemoryAttributes,
    pa: PhysicalAddress,
    leaf_entry: bool,
    level: PageLevel,
    supervisor: bool,
)
    ensures
        fields.updated(attributes, pa, leaf_entry, level, supervisor).attributes(supervisor)
            == attributes.intersection(held_attributes(supervisor)),
{
    lemma_attributes_read_back(fields, attributes, supervisor);
}

/// Law: an updated entry refers to the address that it was updated with, as far as an entry can
/// hold it. That is the whole address if it is page aligned and below 2^52.
pub proof fn lemma_update_then_get_next_address(
    fields: EntryFields,
    attributes: MemoryAttributes,
    pa: PhysicalAddress,
    leaf_entry: bool,
    level: PageLevel,
    supervisor: bool,
)
    ensures
        fields.updated(attributes, pa, leaf_entry, level, supervisor).next_address() == (pa.address
            - pa.address % 0x1000) % 0x10_0000_0000_0000,
        pa.address % 0x1000 == 0 && pa.address < 0x10_0000_0000_0000 ==> fields.updated(
            attributes,
            pa,
            leaf_entry,
            level,
            supervisor,
        ).next_address() == pa.address,
{
}

/// Law: an update forgets the one before, except that neither touches the record of accesses.
pub proof fn lemma_update_last_wins(
    fields: EntryFields,
    attributes_first: MemoryAttributes,
    pa_first: PhysicalAddress,
    leaf_first: bool,
    level_first: PageLevel,
    attributes: MemoryAttributes,
    pa: PhysicalAddress,
    leaf_entry: bool,
    level: PageLevel,
    supervisor: bool,
)
    ensures
        ({
            let first = fields.updated(attributes_first, pa_first, leaf_first, level_first, supervisor);
            let second = first.updated(attributes, pa, leaf_entry, level, supervisor);
            &&& second == fields.updated(attributes, pa, leaf_entry, level, supervisor)
            &&& second.accessed == fields.accessed
            &&& second.dirty == fields.dirty
        }),
{
}

/// Law: an updated entry refers to a frame always at the lowest level, never above the two
/// levels that can map large pages, and at these if it was updated to map a page that can be
/// read.
pub proof fn lemma_update_then_points_to_pa(
    fields: EntryFields,
    attributes: MemoryAttributes,
    pa: PhysicalAddress,
    leaf_entry: bool,
    level: PageLevel,
    supervisor: bool,
)
    ensures
        fields.updated(attributes, pa, leaf_entry, level, supervisor).points_to_pa(level) == (level
            == PT || ((level == PD || level == PDP) && leaf_entry && !attributes.contains(
            MemoryAttributes::ReadProtect(),
        ))),
{
}

/// Law: every operation keeps the fields within their bits.
pub proof fn lemma_operations_keep_wf(
    fields: EntryFields,
    attributes: MemoryAttributes,
    pa: PhysicalAddress,
    leaf_entry: bool,
    level: PageLevel,
    supervisor: bool,
    present: bool,
)
    requires
        fields.wf(),
    ensures
        fields.with_attributes(attributes, supervisor).wf(),
        fields.updated(attributes, pa, leaf_entry, level, supervisor).wf(),
        (EntryFields { present, ..fields }).wf(),
        EntryFields::cleared().wf(),
{
}

/// Law: the address that an entry refers to is page aligned and below 2^52.
pub proof fn lemma_next_address_is_a_frame(entry: PageTableEntryX64)
    ensures
        0 <= entry@.next_address() < 0x10_0000_0000_0000,
        entry@.next_address() % 0x1000 == 0,
{
    crate::x64::structs::lemma_pack_unpack(entry.word());
}

/// Law: an unmapped entry is not present, refers to nothing and has every attribute that a
/// cleared permission stands for. Mapping it again makes no cached translation stale.
pub proof fn lemma_unmapped_entry(va: VirtualAddress, supervisor: bool)
    ensures
        !EntryFields::cleared().present,
        EntryFields::cleared().next_address() == 0,
        EntryFields::cleared().attributes(supervisor) == MemoryAttributes::ReadProtect().union(
            MemoryAttributes::ReadOnly(),
        ).union(attribute_if(supervisor, MemoryAttributes::Supervisor())),
        stale_translation(EntryFields::cleared(), va) is None,
{
    assert(0x2000u64 | 0x20000 | 0 == 0x2000u64 | 0x20000) by (bit_vector);
}

/// Law: the present bit can be flipped and put back without a trace.
pub proof fn lemma_present_bit_restores(fields: EntryFields, value: bool)
    ensures
        (EntryFields { present: fields.present, ..(EntryFields { present: value, ..fields }) })
            == fields,
{
}

} // verus!

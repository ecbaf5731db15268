//! The page table entry and its fields.

use vstd::prelude::*;

use crate::x64::bits;

verus! {

/// The largest value of the field `available`.
pub const AVAILABLE_MAX: u64 = 0x7;

/// The largest value of the field `page_table_base_address`.
pub const PAGE_TABLE_BASE_ADDRESS_MAX: u64 = 0xFF_FFFF_FFFF;

/// The largest value of the field `available_high`.
pub const AVAILABLE_HIGH_MAX: u64 = 0x7FF;

/// The fields of a page table entry, from the lowest bits of its word to the highest.
pub struct EntryFields {
    /// Whether the entry is present in memory.
    pub present: bool,
    /// Whether writes are allowed.
    pub read_write: bool,
    /// Whether user code may use the mapping; if not, only supervisor code may.
    pub user_supervisor: bool,
    /// Whether the caching is write-through rather than write-back.
    pub write_through: bool,
    /// Whether caching is disabled.
    pub cache_disabled: bool,
    /// Whether the processor has used the entry.
    pub accessed: bool,
    /// Whether the processor has written through the entry.
    pub dirty: bool,
    /// Whether the entry maps a large page: 2MB in a page directory, 1GB one level above it.
    pub page_size: bool,
    /// Whether the cached translation survives a change of page table.
    pub global: bool,
    /// Bits that the processor leaves to system software.
    pub available: u8,
    /// Bits 51:12 of the address of the frame or table that the entry refers to.
    pub page_table_base_address: u64,
    /// Further bits that the processor leaves to system software.
    pub available_high: u16,
    /// Whether code execution is forbidden.
    pub nx: bool,
}

impl EntryFields {
    /// Whether every field fits in the bits that the entry has for it.
    pub open spec fn wf(self) -> bool {
        &&& self.available <= AVAILABLE_MAX
        &&& self.page_table_base_address <= PAGE_TABLE_BASE_ADDRESS_MAX
        &&& self.available_high <= AVAILABLE_HIGH_MAX
    }

    /// The fields of an entry with every bit clear.
    pub open spec fn cleared() -> Self {
        EntryFields {
            present: false,
            read_write: false,
            user_supervisor: false,
            write_through: false,
            cache_disabled: false,
            accessed: false,
            dirty: false,
            page_size: false,
            global: false,
            available: 0,
            page_table_base_address: 0,
            available_high: 0,
            nx: false,
        }
    }

    /// The word that packs the fields.
    pub open spec fn pack(self) -> u64 {
        flag_word(self.present, 0)
            | flag_word(self.read_write, 1)
            | flag_word(self.user_supervisor, 2)
            | flag_word(self.write_through, 3)
            | flag_word(self.cache_disabled, 4)
            | flag_word(self.accessed, 5)
            | flag_word(self.dirty, 6)
            | flag_word(self.page_size, 7)
            | flag_word(self.global, 8)
            | ((self.available as u64) << 9)
            | (self.page_table_base_address << 12)
            | ((self.available_high as u64) << 52)
            | flag_word(self.nx, 63)
    }
}

/// The word whose only bit that may be set is `position`, set if `value`.
pub open spec fn flag_word(value: bool, position: u64) -> u64 {
    if value {
        1u64 << position
    } else {
        0
    }
}

/// The fields that `word` packs.
pub open spec fn unpack(word: u64) -> EntryFields {
    EntryFields {
        present: bits::flag(word, 0),
        read_write: bits::flag(word, 1),
        user_supervisor: bits::flag(word, 2),
        write_through: bits::flag(word, 3),
        cache_disabled: bits::flag(word, 4),
        accessed: bits::flag(word, 5),
        dirty: bits::flag(word, 6),
        page_size: bits::flag(word, 7),
        global: bits::flag(word, 8),
        available: bits::field(word, 9, AVAILABLE_MAX) as u8,
        page_table_base_address: bits::field(word, 12, PAGE_TABLE_BASE_ADDRESS_MAX),
        available_high: bits::field(word, 52, AVAILABLE_HIGH_MAX) as u16,
        nx: bits::flag(word, 63),
    }
}

/// A page table entry: one word in the format that the processor reads.
#[derive(Clone, Copy)]
pub struct PageTableEntryX64 {
    bits: u64,
}

impl View for PageTableEntryX64 {
    type V = EntryFields;

    open spec fn view(&self) -> EntryFields {
        unpack(self.word())
    }
}

impl PageTableEntryX64 {
    /// The word that the entry is.
    pub closed spec fn word(self) -> u64 {
        self.bits
    }

    /// An entry with every bit clear.
    pub fn new() -> (r: Self)
        ensures
            r.word() == 0,
            r@ == EntryFields::cleared(),
    {
        proof {
            lemma_unpack_zero();
        }
        PageTableEntryX64 { bits: 0 }
    }

    /// The entry that `bits` is.
    pub fn from_bits(bits: u64) -> (r: Self)
        ensures
            r.word() == bits,
    {
        PageTableEntryX64 { bits }
    }

    /// The word that the entry is.
    pub fn into_bits(self) -> (r: u64)
        ensures
            r == self.word(),
    {
        self.bits
    }

    /// Whether the entry is present in memory.
    pub fn present(&self) -> (r: bool)
        ensures
            r == self@.present,
            r == (self.word() & 0x1 != 0),
    {
        proof {
            lemma_field_positions(self.word());
        }
        bits::get_flag(self.bits, 0)
    }

    /// Sets `present` and leaves the other fields alone.
    pub fn set_present(&mut self, value: bool)
        ensures
            final(self)@ == (EntryFields { present: value, ..old(self)@ }),
            value ==> final(self).word() == old(self).word() | 0x1,
            !value ==> final(self).word() == old(self).word() & !0x1u64,
    {
        proof {
            lemma_flag_masks();
            lemma_set_flag(self.bits, 0, value);
        }
        self.bits = bits::set_flag(self.bits, 0, value);
    }

    /// The entry with `present` set to `value`.
    pub fn with_present(self, value: bool) -> (r: Self)
        ensures
            r@ == (EntryFields { present: value, ..self@ }),
            value ==> r.word() == self.word() | 0x1,
            !value ==> r.word() == self.word() & !0x1u64,
    {
        let mut entry = self;
        entry.set_present(value);
        entry
    }

    /// Whether writes are allowed.
    pub fn read_write(&self) -> (r: bool)
        ensures
            r == self@.read_write,
            r == (self.word() & 0x2 != 0),
    {
        proof {
            lemma_field_positions(self.word());
        }
        bits::get_flag(self.bits, 1)
    }

    /// Sets `read_write` and leaves the other fields alone.
    pub fn set_read_write(&mut self, value: bool)
        ensures
            final(self)@ == (EntryFields { read_write: value, ..old(self)@ }),
            value ==> final(self).word() == old(self).word() | 0x2,
            !value ==> final(self).word() == old(self).word() & !0x2u64,
    {
        proof {
            lemma_flag_masks();
            lemma_set_flag(self.bits, 1, value);
        }
        self.bits = bits::set_flag(self.bits, 1, value);
    }

    /// The entry with `read_write` set to `value`.
    pub fn with_read_write(self, value: bool) -> (r: Self)
        ensures
            r@ == (EntryFields { read_write: value, ..self@ }),
            value ==> r.word() == self.word() | 0x2,
            !value ==> r.word() == self.word() & !0x2u64,
    {
        let mut entry = self;
        entry.set_read_write(value);
        entry
    }

    /// Whether user code may use the mapping; if not, only supervisor code may.
    pub fn user_supervisor(&self) -> (r: bool)
        ensures
            r == self@.user_supervisor,
            r == (self.word() & 0x4 != 0),
    {
        proof {
            lemma_field_positions(self.word());
        }
        bits::get_flag(self.bits, 2)
    }

    /// Sets `user_supervisor` and leaves the other fields alone.
    pub fn set_user_supervisor(&mut self, value: bool)
        ensures
            final(self)@ == (EntryFields { user_supervisor: value, ..old(self)@ }),
            value ==> final(self).word() == old(self).word() | 0x4,
            !value ==> final(self).word() == old(self).word() & !0x4u64,
    {
        proof {
            lemma_flag_masks();
            lemma_set_flag(self.bits, 2, value);
        }
        self.bits = bits::set_flag(self.bits, 2, value);
    }

    /// The entry with `user_supervisor` set to `value`.
    pub fn with_user_supervisor(self, value: bool) -> (r: Self)
        ensures
            r@ == (EntryFields { user_supervisor: value, ..self@ }),
            value ==> r.word() == self.word() | 0x4,
            !value ==> r.word() == self.word() & !0x4u64,
    {
        let mut entry = self;
        entry.set_user_supervisor(value);
        entry
    }

    /// Whether the caching is write-through rather than write-back.
    pub fn write_through(&self) -> (r: bool)
        ensures
            r == self@.write_through,
            r == (self.word() & 0x8 != 0),
    {
        proof {
            lemma_field_positions(self.word());
        }
        bits::get_flag(self.bits, 3)
    }

    /// Sets `write_through` and leaves the other fields alone.
    pub fn set_write_through(&mut self, value: bool)
        ensures
            final(self)@ == (EntryFields { write_through: value, ..old(self)@ }),
            value ==> final(self).word() == old(self).word() | 0x8,
            !value ==> final(self).word() == old(self).word() & !0x8u64,
    {
        proof {
            lemma_flag_masks();
            lemma_set_flag(self.bits, 3, value);
        }
        self.bits = bits::set_flag(self.bits, 3, value);
    }

    /// The entry with `write_through` set to `value`.
    pub fn with_write_through(self, value: bool) -> (r: Self)
        ensures
            r@ == (EntryFields { write_through: value, ..self@ }),
            value ==> r.word() == self.word() | 0x8,
            !value ==> r.word() == self.word() & !0x8u64,
    {
        let mut entry = self;
        entry.set_write_through(value);
        entry
    }

    /// Whether caching is disabled.
    pub fn cache_disabled(&self) -> (r: bool)
        ensures
            r == self@.cache_disabled,
            r == (self.word() & 0x10 != 0),
    {
        proof {
            lemma_field_positions(self.word());
        }
        bits::get_flag(self.bits, 4)
    }

    /// Sets `cache_disabled` and leaves the other fields alone.
    pub fn set_cache_disabled(&mut self, value: bool)
        ensures
            final(self)@ == (EntryFields { cache_disabled: value, ..old(self)@ }),
            value ==> final(self).word() == old(self).word() | 0x10,
            !value ==> final(self).word() == old(self).word() & !0x10u64,
    {
        proof {
            lemma_flag_masks();
            lemma_set_flag(self.bits, 4, value);
        }
        self.bits = bits::set_flag(self.bits, 4, value);
    }

    /// The entry with `cache_disabled` set to `value`.
    pub fn with_cache_disabled(self, value: bool) -> (r: Self)
        ensures
            r@ == (EntryFields { cache_disabled: value, ..self@ }),
            value ==> r.word() == self.word() | 0x10,
            !value ==> r.word() == self.word() & !0x10u64,
    {
        let mut entry = self;
        entry.set_cache_disabled(value);
        entry
    }

    /// Whether the processor has used the entry.
    pub fn accessed(&self) -> (r: bool)
        ensures
            r == self@.accessed,
            r == (self.word() & 0x20 != 0),
    {
        proof {
            lemma_field_positions(self.word());
        }
        bits::get_flag(self.bits, 5)
    }

    /// Sets `accessed` and leaves the other fields alone.
    pub fn set_accessed(&mut self, value: bool)
        ensures
            final(self)@ == (EntryFields { accessed: value, ..old(self)@ }),
            value ==> final(self).word() == old(self).word() | 0x20,
            !value ==> final(self).word() == old(self).word() & !0x20u64,
    {
        proof {
            lemma_flag_masks();
            lemma_set_flag(self.bits, 5, value);
        }
        self.bits = bits::set_flag(self.bits, 5, value);
    }

    /// The entry with `accessed` set to `value`.
    pub fn with_accessed(self, value: bool) -> (r: Self)
        ensures
            r@ == (EntryFields { accessed: value, ..self@ }),
            value ==> r.word() == self.word() | 0x20,
            !value ==> r.word() == self.word() & !0x20u64,
    {
        let mut entry = self;
        entry.set_accessed(value);
        entry
    }

    /// Whether the processor has written through the entry.
    pub fn dirty(&self) -> (r: bool)
        ensures
            r == self@.dirty,
            r == (self.word() & 0x40 != 0),
    {
        proof {
            lemma_field_positions(self.word());
        }
        bits::get_flag(self.bits, 6)
    }

    /// Sets `dirty` and leaves the other fields alone.
    pub fn set_dirty(&mut self, value: bool)
        ensures
            final(self)@ == (EntryFields { dirty: value, ..old(self)@ }),
            value ==> final(self).word() == old(self).word() | 0x40,
            !value ==> final(self).word() == old(self).word() & !0x40u64,
    {
        proof {
            lemma_flag_masks();
            lemma_set_flag(self.bits, 6, value);
        }
        self.bits = bits::set_flag(self.bits, 6, value);
    }

    /// The entry with `dirty` set to `value`.
    pub fn with_dirty(self, value: bool) -> (r: Self)
        ensures
            r@ == (EntryFields { dirty: value, ..self@ }),
            value ==> r.word() == self.word() | 0x40,
            !value ==> r.word() == self.word() & !0x40u64,
    {
        let mut entry = self;
        entry.set_dirty(value);
        entry
    }

    /// Whether the entry maps a large page: 2MB in a page directory, 1GB one level above it.
    pub fn page_size(&self) -> (r: bool)
        ensures
            r == self@.page_size,
            r == (self.word() & 0x80 != 0),
    {
        proof {
            lemma_field_positions(self.word());
        }
        bits::get_flag(self.bits, 7)
    }

    /// Sets `page_size` and leaves the other fields alone.
    pub fn set_page_size(&mut self, value: bool)
        ensures
            final(self)@ == (EntryFields { page_size: value, ..old(self)@ }),
            value ==> final(self).word() == old(self).word() | 0x80,
            !value ==> final(self).word() == old(self).word() & !0x80u64,
    {
        proof {
            lemma_flag_masks();
            lemma_set_flag(self.bits, 7, value);
        }
        self.bits = bits::set_flag(self.bits, 7, value);
    }

    /// The entry with `page_size` set to `value`.
    pub fn with_page_size(self, value: bool) -> (r: Self)
        ensures
            r@ == (EntryFields { page_size: value, ..self@ }),
            value ==> r.word() == self.word() | 0x80,
            !value ==> r.word() == self.word() & !0x80u64,
    {
        let mut entry = self;
        entry.set_page_size(value);
        entry
    }

    /// Whether the cached translation survives a change of page table.
    pub fn global(&self) -> (r: bool)
        ensures
            r == self@.global,
            r == (self.word() & 0x100 != 0),
    {
        proof {
            lemma_field_positions(self.word());
        }
        bits::get_flag(self.bits, 8)
    }

    /// Sets `global` and leaves the other fields alone.
    pub fn set_global(&mut self, value: bool)
        ensures
            final(self)@ == (EntryFields { global: value, ..old(self)@ }),
            value ==> final(self).word() == old(self).word() | 0x100,
            !value ==> final(self).word() == old(self).word() & !0x100u64,
    {
        proof {
            lemma_flag_masks();
            lemma_set_flag(self.bits, 8, value);
        }
        self.bits = bits::set_flag(self.bits, 8, value);
    }

    /// The entry with `global` set to `value`.
    pub fn with_global(self, value: bool) -> (r: Self)
        ensures
            r@ == (EntryFields { global: value, ..self@ }),
            value ==> r.word() == self.word() | 0x100,
            !value ==> r.word() == self.word() & !0x100u64,
    {
        let mut entry = self;
        entry.set_global(value);
        entry
    }

    /// Bits that the processor leaves to system software.
    pub fn available(&self) -> (r: u8)
        ensures
            r == self@.available,
            r == self.word() / 0x200 % 8,
            r <= AVAILABLE_MAX,
    {
        proof {
            lemma_field_positions(self.word());
        }
        bits::get_field(self.bits, 9, AVAILABLE_MAX) as u8
    }

    /// Sets `available` and leaves the other fields alone.
    pub fn set_available(&mut self, value: u8)
        requires
            value <= AVAILABLE_MAX,
        ensures
            final(self)@ == (EntryFields { available: value, ..old(self)@ }),
            final(self).word() == old(self).word() - old(self).word() / 0x200 % 8 * 0x200 + value * 0x200,
    {
        proof {
            lemma_set_available(self.bits, value as u64);
        }
        self.bits = bits::set_field(self.bits, 9, AVAILABLE_MAX, value as u64);
    }

    /// Sets `available`, unless `value` is too large for it.
    pub fn set_available_checked(&mut self, value: u8) -> (r: Result<(), ()>)
        ensures
            r is Ok <==> value <= AVAILABLE_MAX,
            r is Ok ==> final(self)@ == (EntryFields { available: value, ..old(self)@ }),
            r is Ok ==> final(self).word() == old(self).word() - old(self).word() / 0x200 % 8 * 0x200 + value * 0x200,
            r is Err ==> *final(self) == *old(self),
    {
        if value as u64 > AVAILABLE_MAX {
            return Err(());
        }
        self.set_available(value);
        Ok(())
    }

    /// The entry with `available` set to `value`.
    pub fn with_available(self, value: u8) -> (r: Self)
        requires
            value <= AVAILABLE_MAX,
        ensures
            r@ == (EntryFields { available: value, ..self@ }),
            r.word() == self.word() - self.word() / 0x200 % 8 * 0x200 + value * 0x200,
    {
        let mut entry = self;
        entry.set_available(value);
        entry
    }

    /// The entry with `available` set to `value`, unless `value` is too large for it.
    pub fn with_available_checked(self, value: u8) -> (r: Result<Self, ()>)
        ensures
            r is Ok <==> value <= AVAILABLE_MAX,
            r matches Ok(entry) ==> entry@ == (EntryFields { available: value, ..self@ }),
            r matches Ok(entry) ==> entry.word() == self.word() - self.word() / 0x200 % 8 * 0x200 + value * 0x200,
    {
        if value as u64 > AVAILABLE_MAX {
            return Err(());
        }
        Ok(self.with_available(value))
    }

    /// Bits 51:12 of the address of the frame or table that the entry refers to.
    pub fn page_table_base_address(&self) -> (r: u64)
        ensures
            r == self@.page_table_base_address,
            r == self.word() / 0x1000 % 0x100_0000_0000,
            r <= PAGE_TABLE_BASE_ADDRESS_MAX,
    {
        proof {
            lemma_field_positions(self.word());
        }
        bits::get_field(self.bits, 12, PAGE_TABLE_BASE_ADDRESS_MAX)
    }

    /// Sets `page_table_base_address` and leaves the other fields alone.
    pub fn set_page_table_base_address(&mut self, value: u64)
        requires
            value <= PAGE_TABLE_BASE_ADDRESS_MAX,
        ensures
            final(self)@ == (EntryFields { page_table_base_address: value, ..old(self)@ }),
            final(self).word() == old(self).word() - old(self).word() / 0x1000 % 0x100_0000_0000 * 0x1000 + value * 0x1000,
    {
        proof {
            lemma_set_page_table_base_address(self.bits, value);
        }
        self.bits = bits::set_field(self.bits, 12, PAGE_TABLE_BASE_ADDRESS_MAX, value);
    }

    /// Sets `page_table_base_address`, unless `value` is too large for it.
    pub fn set_page_table_base_address_checked(&mut self, value: u64) -> (r: Result<(), ()>)
        ensures
            r is Ok <==> value <= PAGE_TABLE_BASE_ADDRESS_MAX,
            r is Ok ==> final(self)@ == (EntryFields { page_table_base_address: value, ..old(self)@ }),
            r is Ok ==> final(self).word() == old(self).word() - old(self).word() / 0x1000 % 0x100_0000_0000 * 0x1000 + value * 0x1000,
            r is Err ==> *final(self) == *old(self),
    {
        if value > PAGE_TABLE_BASE_ADDRESS_MAX {
            return Err(());
        }
        self.set_page_table_base_address(value);
        Ok(())
    }

    /// The entry with `page_table_base_address` set to `value`.
    pub fn with_page_table_base_address(self, value: u64) -> (r: Self)
        requires
            value <= PAGE_TABLE_BASE_ADDRESS_MAX,
        ensures
            r@ == (EntryFields { page_table_base_address: value, ..self@ }),
            r.word() == self.word() - self.word() / 0x1000 % 0x100_0000_0000 * 0x1000 + value * 0x1000,
    {
        let mut entry = self;
        entry.set_page_table_base_address(value);
        entry
    }

    /// The entry with `page_table_base_address` set to `value`, unless `value` is too large for it.
    pub fn with_page_table_base_address_checked(self, value: u64) -> (r: Result<Self, ()>)
        ensures
            r is Ok <==> value <= PAGE_TABLE_BASE_ADDRESS_MAX,
            r matches Ok(entry) ==> entry@ == (EntryFields { page_table_base_address: value, ..self@ }),
            r matches Ok(entry) ==> entry.word() == self.word() - self.word() / 0x1000 % 0x100_0000_0000 * 0x1000 + value * 0x1000,
    {
        if value > PAGE_TABLE_BASE_ADDRESS_MAX {
            return Err(());
        }
        Ok(self.with_page_table_base_address(value))
    }

    /// Further bits that the processor leaves to system software.
    pub fn available_high(&self) -> (r: u16)
        ensures
            r == self@.available_high,
            r == self.word() / 0x10_0000_0000_0000 % 0x800,
            r <= AVAILABLE_HIGH_MAX,
    {
        proof {
            lemma_field_positions(self.word());
        }
        bits::get_field(self.bits, 52, AVAILABLE_HIGH_MAX) as u16
    }

    /// Sets `available_high` and leaves the other fields alone.
    pub fn set_available_high(&mut self, value: u16)
        requires
            value <= AVAILABLE_HIGH_MAX,
        ensures
            final(self)@ == (EntryFields { available_high: value, ..old(self)@ }),
            final(self).word() == old(self).word() - old(self).word() / 0x10_0000_0000_0000 % 0x800 * 0x10_0000_0000_0000 + value * 0x10_0000_0000_0000,
    {
        proof {
            lemma_set_available_high(self.bits, value as u64);
        }
        self.bits = bits::set_field(self.bits, 52, AVAILABLE_HIGH_MAX, value as u64);
    }

    /// Sets `available_high`, unless `value` is too large for it.
    pub fn set_available_high_checked(&mut self, value: u16) -> (r: Result<(), ()>)
        ensures
            r is Ok <==> value <= AVAILABLE_HIGH_MAX,
            r is Ok ==> final(self)@ == (EntryFields { available_high: value, ..old(self)@ }),
            r is Ok ==> final(self).word() == old(self).word() - old(self).word() / 0x10_0000_0000_0000 % 0x800 * 0x10_0000_0000_0000 + value * 0x10_0000_0000_0000,
            r is Err ==> *final(self) == *old(self),
    {
        if value as u64 > AVAILABLE_HIGH_MAX {
            return Err(());
        }
        self.set_available_high(value);
        Ok(())
    }

    /// The entry with `available_high` set to `value`.
    pub fn with_available_high(self, value: u16) -> (r: Self)
        requires
            value <= AVAILABLE_HIGH_MAX,
        ensures
            r@ == (EntryFields { available_high: value, ..self@ }),
            r.word() == self.word() - self.word() / 0x10_0000_0000_0000 % 0x800 * 0x10_0000_0000_0000 + value * 0x10_0000_0000_0000,
    {
        let mut entry = self;
        entry.set_available_high(value);
        entry
    }

    /// The entry with `available_high` set to `value`, unless `value` is too large for it.
    pub fn with_available_high_checked(self, value: u16) -> (r: Result<Self, ()>)
        ensures
            r is Ok <==> value <= AVAILABLE_HIGH_MAX,
            r matches Ok(entry) ==> entry@ == (EntryFields { available_high: value, ..self@ }),
            r matches Ok(entry) ==> entry.word() == self.word() - self.word() / 0x10_0000_0000_0000 % 0x800 * 0x10_0000_0000_0000 + value * 0x10_0000_0000_0000,
    {
        if value as u64 > AVAILABLE_HIGH_MAX {
            return Err(());
        }
        Ok(self.with_available_high(value))
    }

    /// Whether code execution is forbidden.
    pub fn nx(&self) -> (r: bool)
        ensures
            r == self@.nx,
            r == (self.word() & 0x8000_0000_0000_0000 != 0),
    {
        proof {
            lemma_field_positions(self.word());
        }
        bits::get_flag(self.bits, 63)
    }

    /// Sets `nx` and leaves the other fields alone.
    pub fn set_nx(&mut self, value: bool)
        ensures
            final(self)@ == (EntryFields { nx: value, ..old(self)@ }),
            value ==> final(self).word() == old(self).word() | 0x8000_0000_0000_0000,
            !value ==> final(self).word() == old(self).word() & !0x8000_0000_0000_0000u64,
    {
        proof {
            lemma_flag_masks();
            lemma_set_flag(self.bits, 63, value);
        }
        self.bits = bits::set_flag(self.bits, 63, value);
    }

    /// The entry with `nx` set to `value`.
    pub fn with_nx(self, value: bool) -> (r: Self)
        ensures
            r@ == (EntryFields { nx: value, ..self@ }),
            value ==> r.word() == self.word() | 0x8000_0000_0000_0000,
            !value ==> r.word() == self.word() & !0x8000_0000_0000_0000u64,
    {
        let mut entry = self;
        entry.set_nx(value);
        entry
    }

}

impl Default for PageTableEntryX64 {
    fn default() -> (r: Self)
        ensures
            r.word() == 0,
            r@ == EntryFields::cleared(),
    {
        PageTableEntryX64::new()
    }
}

impl From<u64> for PageTableEntryX64 {
    fn from(bits: u64) -> (r: Self)
        ensures
            r.word() == bits,
    {
        PageTableEntryX64 { bits }
    }
}

impl vstd::std_specs::convert::FromSpecImpl<u64> for PageTableEntryX64 {
    open spec fn obeys_from_spec() -> bool {
        true
    }

    closed spec fn from_spec(bits: u64) -> Self {
        PageTableEntryX64 { bits }
    }
}

impl From<PageTableEntryX64> for u64 {
    fn from(entry: PageTableEntryX64) -> (r: Self) {
        entry.bits
    }
}

impl vstd::std_specs::convert::FromSpecImpl<PageTableEntryX64> for u64 {
    open spec fn obeys_from_spec() -> bool {
        true
    }

    open spec fn from_spec(entry: PageTableEntryX64) -> Self {
        entry.word()
    }
}

/// Law: the fields of a word fit their bits, and packing them gives the word back.
pub proof fn lemma_pack_unpack(word: u64)
    ensures
        unpack(word).wf(),
        unpack(word).pack() == word,
{
    assert(bits::field(word, 9, AVAILABLE_MAX) <= AVAILABLE_MAX) by (bit_vector);
    assert(bits::field(word, 12, PAGE_TABLE_BASE_ADDRESS_MAX) <= PAGE_TABLE_BASE_ADDRESS_MAX)
        by (bit_vector);
    assert(bits::field(word, 52, AVAILABLE_HIGH_MAX) <= AVAILABLE_HIGH_MAX) by (bit_vector);
    assert(flag_word(bits::flag(word, 0), 0)
        | flag_word(bits::flag(word, 1), 1)
        | flag_word(bits::flag(word, 2), 2)
        | flag_word(bits::flag(word, 3), 3)
        | flag_word(bits::flag(word, 4), 4)
        | flag_word(bits::flag(word, 5), 5)
        | flag_word(bits::flag(word, 6), 6)
        | flag_word(bits::flag(word, 7), 7)
        | flag_word(bits::flag(word, 8), 8)
        | (bits::field(word, 9, AVAILABLE_MAX) << 9)
        | (bits::field(word, 12, PAGE_TABLE_BASE_ADDRESS_MAX) << 12)
        | (bits::field(word, 52, AVAILABLE_HIGH_MAX) << 52)
        | flag_word(bits::flag(word, 63), 63) == word) by (bit_vector);
}

/// Law: a packed word holds the fields that were packed.
pub proof fn lemma_unpack_pack(fields: EntryFields)
    requires
        fields.wf(),
    ensures
        unpack(fields.pack()) == fields,
{
    lemma_unpack_packed_fields(
        fields.present,
        fields.read_write,
        fields.user_supervisor,
        fields.write_through,
        fields.cache_disabled,
        fields.accessed,
        fields.dirty,
        fields.page_size,
        fields.global,
        fields.available as u64,
        fields.page_table_base_address,
        fields.available_high as u64,
        fields.nx,
    );
}

/// A word that is put together from field values holds these values.
proof fn lemma_unpack_packed_fields(
    f0: bool,
    f1: bool,
    f2: bool,
    f3: bool,
    f4: bool,
    f5: bool,
    f6: bool,
    f7: bool,
    f8: bool,
    available: u64,
    base: u64,
    available_high: u64,
    f63: bool,
)
    by (bit_vector)
    requires
        available <= AVAILABLE_MAX,
        base <= PAGE_TABLE_BASE_ADDRESS_MAX,
        available_high <= AVAILABLE_HIGH_MAX,
    ensures
        ({
            let word = flag_word(f0, 0) | flag_word(f1, 1) | flag_word(f2, 2) | flag_word(f3, 3)
                | flag_word(f4, 4) | flag_word(f5, 5) | flag_word(f6, 6) | flag_word(f7, 7)
                | flag_word(f8, 8) | (available << 9) | (base << 12) | (available_high << 52)
                | flag_word(f63, 63);
            &&& bits::flag(word, 0) == f0
            &&& bits::flag(word, 1) == f1
            &&& bits::flag(word, 2) == f2
            &&& bits::flag(word, 3) == f3
            &&& bits::flag(word, 4) == f4
            &&& bits::flag(word, 5) == f5
            &&& bits::flag(word, 6) == f6
            &&& bits::flag(word, 7) == f7
            &&& bits::flag(word, 8) == f8
            &&& bits::field(word, 9, AVAILABLE_MAX) == available
            &&& bits::field(word, 12, PAGE_TABLE_BASE_ADDRESS_MAX) == base
            &&& bits::field(word, 52, AVAILABLE_HIGH_MAX) == available_high
            &&& bits::flag(word, 63) == f63
        }),
{
}

/// Law: every field has its own bits of the word, wherever the other bits stand.
pub proof fn lemma_field_positions(word: u64)
    ensures
        unpack(word).present <==> word & 0x1 != 0,
        unpack(word).read_write <==> word & 0x2 != 0,
        unpack(word).user_supervisor <==> word & 0x4 != 0,
        unpack(word).write_through <==> word & 0x8 != 0,
        unpack(word).cache_disabled <==> word & 0x10 != 0,
        unpack(word).accessed <==> word & 0x20 != 0,
        unpack(word).dirty <==> word & 0x40 != 0,
        unpack(word).page_size <==> word & 0x80 != 0,
        unpack(word).global <==> word & 0x100 != 0,
        unpack(word).available == word / 0x200 % 8,
        unpack(word).page_table_base_address == word / 0x1000 % 0x100_0000_0000,
        unpack(word).available_high == word / 0x10_0000_0000_0000 % 0x800,
        unpack(word).nx <==> word & 0x8000_0000_0000_0000 != 0,
{
    assert({
        &&& bits::flag(word, 0) <==> word & 0x1 != 0
        &&& bits::flag(word, 1) <==> word & 0x2 != 0
        &&& bits::flag(word, 2) <==> word & 0x4 != 0
        &&& bits::flag(word, 3) <==> word & 0x8 != 0
        &&& bits::flag(word, 4) <==> word & 0x10 != 0
        &&& bits::flag(word, 5) <==> word & 0x20 != 0
        &&& bits::flag(word, 6) <==> word & 0x40 != 0
        &&& bits::flag(word, 7) <==> word & 0x80 != 0
        &&& bits::flag(word, 8) <==> word & 0x100 != 0
        &&& bits::field(word, 9, AVAILABLE_MAX) == word / 0x200 % 8
        &&& bits::field(word, 12, PAGE_TABLE_BASE_ADDRESS_MAX) == word / 0x1000 % 0x100_0000_0000
        &&& bits::field(word, 52, AVAILABLE_HIGH_MAX) == word / 0x10_0000_0000_0000 % 0x800
        &&& bits::flag(word, 63) <==> word & 0x8000_0000_0000_0000 != 0
    }) by (bit_vector);
}

/// Law: entries with the same fields are the same word.
pub proof fn lemma_fields_determine_entry(a: PageTableEntryX64, b: PageTableEntryX64)
    requires
        a@ == b@,
    ensures
        a == b,
        a.word() == b.word(),
{
    lemma_pack_unpack(a.word());
    lemma_pack_unpack(b.word());
}

/// Law: entries that are the same word are the same entry.
pub proof fn lemma_word_determines_entry(a: PageTableEntryX64, b: PageTableEntryX64)
    requires
        a.word() == b.word(),
    ensures
        a == b,
{
}

/// The fields of the word zero are clear.
pub proof fn lemma_unpack_zero()
    ensures
        unpack(0) == EntryFields::cleared(),
{
    lemma_unpack_pack(EntryFields::cleared());
    assert(EntryFields::cleared().pack() == 0) by {
        assert(0u64 << 9 == 0) by (bit_vector);
        assert(0u64 << 12 == 0) by (bit_vector);
        assert(0u64 << 52 == 0) by (bit_vector);
        assert(0u64 | 0 == 0) by (bit_vector);
    }
}

/// The bits of the one-bit fields.
proof fn lemma_flag_masks()
    by (bit_vector)
    ensures
        1u64 << 0 == 0x1,
        1u64 << 1 == 0x2,
        1u64 << 2 == 0x4,
        1u64 << 3 == 0x8,
        1u64 << 4 == 0x10,
        1u64 << 5 == 0x20,
        1u64 << 6 == 0x40,
        1u64 << 7 == 0x80,
        1u64 << 8 == 0x100,
        1u64 << 63 == 0x8000_0000_0000_0000,
{
}

/// Replacing the bit of a one-bit field sets that field and leaves the others alone.
proof fn lemma_set_flag(word: u64, position: u64, value: bool)
    by (bit_vector)
    requires
        position < 9 || position == 63,
    ensures
        forall|other: u64|
            other < 64 ==> #[trigger] bits::flag(bits::with_flag(word, position, value), other) == (
            if other == position {
                value
            } else {
                bits::flag(word, other)
            }),
        same_available(word, bits::with_flag(word, position, value)),
        same_base(word, bits::with_flag(word, position, value)),
        same_available_high(word, bits::with_flag(word, position, value)),
{
}

/// Replacing `available` sets it and leaves the other fields alone.
proof fn lemma_set_available(word: u64, value: u64)
    by (bit_vector)
    requires
        value <= AVAILABLE_MAX,
    ensures
        bits::with_field(word, 9, AVAILABLE_MAX, value) == word - word / 0x200 % 8 * 0x200 + value * 0x200,
        bits::field(bits::with_field(word, 9, AVAILABLE_MAX, value), 9, AVAILABLE_MAX) == value,
        same_flags(word, bits::with_field(word, 9, AVAILABLE_MAX, value)),
        same_base(word, bits::with_field(word, 9, AVAILABLE_MAX, value)),
        same_available_high(word, bits::with_field(word, 9, AVAILABLE_MAX, value)),
{
}

/// Replacing `page_table_base_address` sets it and leaves the other fields alone.
proof fn lemma_set_page_table_base_address(word: u64, value: u64)
    by (bit_vector)
    requires
        value <= PAGE_TABLE_BASE_ADDRESS_MAX,
    ensures
        bits::with_field(word, 12, PAGE_TABLE_BASE_ADDRESS_MAX, value) == word - word / 0x1000 % 0x100_0000_0000 * 0x1000 + value * 0x1000,
        bits::field(
            bits::with_field(word, 12, PAGE_TABLE_BASE_ADDRESS_MAX, value),
            12,
            PAGE_TABLE_BASE_ADDRESS_MAX,
        ) == value,
        same_flags(word, bits::with_field(word, 12, PAGE_TABLE_BASE_ADDRESS_MAX, value)),
        same_available(word, bits::with_field(word, 12, PAGE_TABLE_BASE_ADDRESS_MAX, value)),
        same_available_high(word, bits::with_field(word, 12, PAGE_TABLE_BASE_ADDRESS_MAX, value)),
{
}

/// Replacing `available_high` sets it and leaves the other fields alone.
proof fn lemma_set_available_high(word: u64, value: u64)
    by (bit_vector)
    requires
        value <= AVAILABLE_HIGH_MAX,
    ensures
        bits::with_field(word, 52, AVAILABLE_HIGH_MAX, value) == word - word / 0x10_0000_0000_0000 % 0x800 * 0x10_0000_0000_0000 + value * 0x10_0000_0000_0000,
        bits::field(bits::with_field(word, 52, AVAILABLE_HIGH_MAX, value), 52, AVAILABLE_HIGH_MAX)
            == value,
        same_flags(word, bits::with_field(word, 52, AVAILABLE_HIGH_MAX, value)),
        same_available(word, bits::with_field(word, 52, AVAILABLE_HIGH_MAX, value)),
        same_base(word, bits::with_field(word, 52, AVAILABLE_HIGH_MAX, value)),
{
}

/// The one-bit fields of `a` and `b` agree.
spec fn same_flags(a: u64, b: u64) -> bool {
    &&& bits::flag(a, 0) == bits::flag(b, 0)
    &&& bits::flag(a, 1) == bits::flag(b, 1)
    &&& bits::flag(a, 2) == bits::flag(b, 2)
    &&& bits::flag(a, 3) == bits::flag(b, 3)
    &&& bits::flag(a, 4) == bits::flag(b, 4)
    &&& bits::flag(a, 5) == bits::flag(b, 5)
    &&& bits::flag(a, 6) == bits::flag(b, 6)
    &&& bits::flag(a, 7) == bits::flag(b, 7)
    &&& bits::flag(a, 8) == bits::flag(b, 8)
    &&& bits::flag(a, 63) == bits::flag(b, 63)
}

/// The fields `available` of `a` and `b` agree.
spec fn same_available(a: u64, b: u64) -> bool {
    bits::field(a, 9, AVAILABLE_MAX) == bits::field(b, 9, AVAILABLE_MAX)
}

/// The fields `page_table_base_address` of `a` and `b` agree.
spec fn same_base(a: u64, b: u64) -> bool {
    bits::field(a, 12, PAGE_TABLE_BASE_ADDRESS_MAX) == bits::field(
        b,
        12,
        PAGE_TABLE_BASE_ADDRESS_MAX,
    )
}

/// The fields `available_high` of `a` and `b` agree.
spec fn same_available_high(a: u64, b: u64) -> bool {
    bits::field(a, 52, AVAILABLE_HIGH_MAX) == bits::field(b, 52, AVAILABLE_HIGH_MAX)
}

} // verus!

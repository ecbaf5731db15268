//! Rendering entries as text.

use vstd::prelude::*;

use crate::error::PtError;
use crate::structs::{PageLevel, VirtualAddress};
use crate::text;
use crate::x64::structs::{EntryFields, PageTableEntryX64};
use crate::x64::{PD, PDP, PML4, PML5, PT};

verus! {

/// The texts that `lines` holds.
pub open spec fn texts(lines: Seq<String>) -> Seq<Seq<char>> {
    lines.map_values(|line: String| line@)
}

/// What an entry at `level` is called, padded to four characters.
pub open spec fn level_name(level: PageLevel) -> Seq<char> {
    match level {
        PageLevel::Level1 => "Pte "@,
        PageLevel::Level2 => "Pde "@,
        PageLevel::Level3 => "Ppe "@,
        PageLevel::Level4 => "Pxe "@,
        PageLevel::Level5 => "Pxe5"@,
    }
}

/// How far the lines of an entry at `level` are indented.
pub open spec fn indentation(level: PageLevel) -> Seq<char> {
    text::spaces((2 * level.depth() + 1) as nat)
}

/// Whether an entry at `level` maps a page larger than those that the lowest level maps.
pub open spec fn is_large_page(fields: EntryFields, level: PageLevel) -> bool {
    (level == PD || level == PDP) && fields.page_size
}

/// One letter for every flag, in the order that [`PageTableEntryX64::dump_entry_header`] explains
/// them in.
pub open spec fn flag_letters(fields: EntryFields, level: PageLevel) -> Seq<char> {
    seq![
        if fields.global {
            'G'
        } else {
            '-'
        },
        if is_large_page(fields, level) {
            'L'
        } else {
            '-'
        },
        if fields.dirty {
            'D'
        } else {
            '-'
        },
        if fields.accessed {
            'A'
        } else {
            '-'
        },
        if fields.cache_disabled {
            'N'
        } else {
            '-'
        },
        if fields.write_through {
            'T'
        } else {
            '-'
        },
        if fields.user_supervisor {
            'U'
        } else {
            'K'
        },
        if fields.read_write {
            'W'
        } else {
            'R'
        },
        if fields.nx {
            '-'
        } else {
            'E'
        },
        if fields.present {
            'V'
        } else {
            '-'
        },
    ]
}

/// The line that announces a large page.
pub open spec fn large_page_line(level: PageLevel) -> Seq<char> {
    indentation(level) + if level == PD {
        "2MB Large Page"@
    } else {
        "1GB Huge Page"@
    }
}

/// The line that describes an entry which lies at `entry_address` and covers addresses from `va` on.
pub open spec fn entry_line(
    entry: PageTableEntryX64,
    va: VirtualAddress,
    level: PageLevel,
    entry_address: u64,
) -> Seq<char> {
    indentation(level) + level_name(level) + " @ 0x"@ + text::hex(entry_address as nat) + " Contains "@
        + text::hex_padded(entry.word() as nat, 16) + "  "@ + flag_letters(entry@, level) + "  [0x"@
        + text::hex(va.address as nat) + " - 0x"@ + text::hex(va.spec_round_up(level) as nat) + "]"@
}

/// All lines of an entry.
pub open spec fn dump_lines(
    entry: PageTableEntryX64,
    va: VirtualAddress,
    level: PageLevel,
    entry_address: u64,
) -> Seq<Seq<char>> {
    if is_large_page(entry@, level) {
        seq![large_page_line(level), entry_line(entry, va, level, entry_address)]
    } else {
        seq![entry_line(entry, va, level, entry_address)]
    }
}

/// Every field of an entry, by name.
pub open spec fn field_list(fields: EntryFields) -> Seq<char> {
    "PageTableEntryX64 { present: "@ + text::truth(fields.present)
        + ", read_write: "@ + text::truth(fields.read_write)
        + ", user_supervisor: "@ + text::truth(fields.user_supervisor)
        + ", write_through: "@ + text::truth(fields.write_through)
        + ", cache_disabled: "@ + text::truth(fields.cache_disabled)
        + ", accessed: "@ + text::truth(fields.accessed)
        + ", dirty: "@ + text::truth(fields.dirty)
        + ", page_size: "@ + text::truth(fields.page_size)
        + ", global: "@ + text::truth(fields.global)
        + ", available: "@ + text::decimal(fields.available as nat)
        + ", page_table_base_address: "@ + text::decimal(fields.page_table_base_address as nat)
        + ", available_high: "@ + text::decimal(fields.available_high as nat)
        + ", nx: "@ + text::truth(fields.nx)
        + " }"@
}

impl PageTableEntryX64 {
    /// Describes the entry, taken at `level`, covering addresses from `va` on and lying at
    /// `entry_address`, in lines of text.
    pub fn dump_entry(&self, va: VirtualAddress, level: PageLevel, entry_address: u64) -> (r: Result<
        Vec<String>,
        PtError,
    >)
        ensures
            r is Ok,
            texts(r->Ok_0@) == dump_lines(*self, va, level, entry_address),
    {
        let level_name: &str = match level {
            PT => "Pte ",
            PD => "Pde ",
            PDP => "Ppe ",
            PML4 => "Pxe ",
            PML5 => "Pxe5",
        };
        let indent: usize = 2 * level.depth() + 1;
        let large_page = matches!(level, PD | PDP) && self.page_size();
        let mut lines: Vec<String> = Vec::new();

        if large_page {
            let mut line = String::new();
            text::push_spaces(&mut line, indent);
            line.append(if level == PD { "2MB Large Page" } else { "1GB Huge Page" });
            assert(line@ =~= large_page_line(level));
            lines.push(line);
        }

        let mut line = String::new();
        text::push_spaces(&mut line, indent);
        line.append(level_name);
        line.append(" @ 0x");
        text::push_hex(&mut line, entry_address);
        line.append(" Contains ");
        text::push_hex_padded(&mut line, self.into_bits(), 16);
        line.append("  ");
        self.push_flag_letters(&mut line, level);
        line.append("  [0x");
        text::push_hex(&mut line, va.into());
        line.append(" - 0x");
        text::push_hex(&mut line, va.round_up(level).into());
        line.append("]");
        assert(line@ =~= entry_line(*self, va, level, entry_address));
        lines.push(line);

        assert(texts(lines@) =~= dump_lines(*self, va, level, entry_address));
        Ok(lines)
    }

    /// Appends one letter for every flag.
    fn push_flag_letters(&self, out: &mut String, level: PageLevel)
        ensures
            final(out)@ == old(out)@ + flag_letters(self@, level),
    {
        proof {
            reveal_strlit("-");
            reveal_strlit("G");
            reveal_strlit("L");
            reveal_strlit("D");
            reveal_strlit("A");
            reveal_strlit("N");
            reveal_strlit("T");
            reveal_strlit("U");
            reveal_strlit("K");
            reveal_strlit("W");
            reveal_strlit("R");
            reveal_strlit("E");
            reveal_strlit("V");
        }
        let large_page = matches!(level, PD | PDP) && self.page_size();
        out.append(if self.global() { "G" } else { "-" });
        out.append(if large_page { "L" } else { "-" });
        out.append(if self.dirty() { "D" } else { "-" });
        out.append(if self.accessed() { "A" } else { "-" });
        out.append(if self.cache_disabled() { "N" } else { "-" });
        out.append(if self.write_through() { "T" } else { "-" });
        out.append(if self.user_supervisor() { "U" } else { "K" });
        out.append(if self.read_write() { "W" } else { "R" });
        out.append(if self.nx() { "-" } else { "E" });
        out.append(if self.present() { "V" } else { "-" });
        assert(out@ =~= old(out)@ + flag_letters(self@, level));
    }

    /// Lists every field of the entry by name, for debugging.
    pub fn debug_string(&self) -> (r: String)
        ensures
            r@ == field_list(self@),
    {
        let mut out = String::new();
        out.append("PageTableEntryX64 { present: ");
        text::push_truth(&mut out, self.present());
        out.append(", read_write: ");
        text::push_truth(&mut out, self.read_write());
        out.append(", user_supervisor: ");
        text::push_truth(&mut out, self.user_supervisor());
        out.append(", write_through: ");
        text::push_truth(&mut out, self.write_through());
        out.append(", cache_disabled: ");
        text::push_truth(&mut out, self.cache_disabled());
        out.append(", accessed: ");
        text::push_truth(&mut out, self.accessed());
        out.append(", dirty: ");
        text::push_truth(&mut out, self.dirty());
        out.append(", page_size: ");
        text::push_truth(&mut out, self.page_size());
        out.append(", global: ");
        text::push_truth(&mut out, self.global());
        out.append(", available: ");
        text::push_decimal(&mut out, self.available() as u64);
        out.append(", page_table_base_address: ");
        text::push_decimal(&mut out, self.page_table_base_address());
        out.append(", available_high: ");
        text::push_decimal(&mut out, self.available_high() as u64);
        out.append(", nx: ");
        text::push_truth(&mut out, self.nx());
        out.append(" }");
        assert(out@ =~= field_list(self@));
        out
    }

    /// Explains the letters that [`PageTableEntryX64::dump_entry`] uses.
    pub fn dump_entry_header() -> (r: String)
        ensures
            r@
                == "Flags: G=Global L=Large/Huge page D=Dirty A=Accessed N=Cache disabled T=Write through U=User/K=Kernel W=Writable/R=Read only E=Executable V=Valid"@,
    {
        String::from_str(
            "Flags: G=Global L=Large/Huge page D=Dirty A=Accessed N=Cache disabled T=Write through U=User/K=Kernel W=Writable/R=Read only E=Executable V=Valid",
        )
    }
}

} // verus!

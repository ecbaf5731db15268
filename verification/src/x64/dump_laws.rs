//! What the text of an entry says about its word.

use vstd::prelude::*;

use crate::structs;
use crate::structs::{PageLevel, VirtualAddress};
use crate::text;
use crate::x64::dump;
use crate::x64::structs as entries;
use crate::x64::structs::PageTableEntryX64;

verus! {

/// Law: each of the ten letters stands for its own bit of the word, in a fixed order. The second
/// one stands for the page size bit at the two levels that can map large pages, and is a dash at
/// the others.
pub proof fn lemma_flag_letters_bits(word: u64, level: PageLevel)
    ensures
        ({
            let letters = dump::flag_letters(entries::unpack(word), level);
            &&& letters.len() == 10
            &&& letters[0] == (if word & 0x100 != 0 { 'G' } else { '-' })
            &&& letters[1] == (if word & 0x80 != 0 && (level == PageLevel::Level2 || level
                == PageLevel::Level3) { 'L' } else { '-' })
            &&& letters[2] == (if word & 0x40 != 0 { 'D' } else { '-' })
            &&& letters[3] == (if word & 0x20 != 0 { 'A' } else { '-' })
            &&& letters[4] == (if word & 0x10 != 0 { 'N' } else { '-' })
            &&& letters[5] == (if word & 0x8 != 0 { 'T' } else { '-' })
            &&& letters[6] == (if word & 0x4 != 0 { 'U' } else { 'K' })
            &&& letters[7] == (if word & 0x2 != 0 { 'W' } else { 'R' })
            &&& letters[8] == (if word & 0x8000_0000_0000_0000 != 0 { '-' } else { 'E' })
            &&& letters[9] == (if word & 0x1 != 0 { 'V' } else { '-' })
        }),
{
    entries::lemma_field_positions(word);
}

/// Where the name of the level stands in the line of an entry.
pub open spec fn name_at(level: PageLevel) -> int {
    2 * level.depth() + 1
}

/// Where the digits of the word stand in the line of an entry.
pub open spec fn word_at(level: PageLevel, entry_address: u64) -> int {
    name_at(level) + 19 + text::hex(entry_address as nat).len()
}

/// Where the number of the last address stands in the line of an entry.
pub open spec fn last_at(level: PageLevel, entry_address: u64, va: VirtualAddress) -> int {
    word_at(level, entry_address) + 38 + text::hex(va.address as nat).len()
}

/// Law: the line of an entry is indented by two more with every level, and names the level in four
/// letters. The marks between the numbers stand where they belong.
#[verifier::rlimit(60)]
pub proof fn lemma_entry_line_marks(
    entry: PageTableEntryX64,
    va: VirtualAddress,
    level: PageLevel,
    entry_address: u64,
)
    ensures
        ({
            let line = dump::entry_line(entry, va, level, entry_address);
            let name = name_at(level);
            let word = word_at(level, entry_address);
            let last = last_at(level, entry_address, va);
            &&& last < line.len()
            &&& forall|i: int| 0 <= i < name ==> #[trigger] line[i] == ' '
            &&& line.subrange(name, name + 4) == (match level {
                PageLevel::Level1 => seq!['P', 't', 'e', ' '],
                PageLevel::Level2 => seq!['P', 'd', 'e', ' '],
                PageLevel::Level3 => seq!['P', 'p', 'e', ' '],
                PageLevel::Level4 => seq!['P', 'x', 'e', ' '],
                PageLevel::Level5 => seq!['P', 'x', 'e', '5'],
            })
            &&& line.subrange(name + 4, name + 9) == seq![' ', '@', ' ', '0', 'x']
            &&& line.subrange(word - 10, word) == seq![' ', 'C', 'o', 'n', 't', 'a', 'i', 'n', 's', ' ']
            &&& line.subrange(word + 16, word + 18) == seq![' ', ' ']
            &&& line.subrange(word + 28, word + 33) == seq![' ', ' ', '[', '0', 'x']
            &&& line.subrange(last - 5, last) == seq![' ', '-', ' ', '0', 'x']
            &&& line.last() == ']'
        }),
{
    let line = dump::entry_line(entry, va, level, entry_address);
    lemma_entry_line_pieces(entry, va, level, entry_address);
    lemma_marks(level);
    let indent = line.subrange(0, name_at(level));
    assert forall|i: int| 0 <= i < name_at(level) implies #[trigger] line[i] == ' ' by {
        assert(indent[i] == line[i]);
    }
    let end: int = line.len() - 1;
    assert(line.subrange(end, end + 1)[0] == line[end]);
}

/// Law: the numbers in the line of an entry are the address that it lies at, its word in sixteen
/// digits, and the first and the last address that it covers.
pub proof fn lemma_entry_line_numbers(
    entry: PageTableEntryX64,
    va: VirtualAddress,
    level: PageLevel,
    entry_address: u64,
)
    ensures
        ({
            let line = dump::entry_line(entry, va, level, entry_address);
            let name = name_at(level);
            let word = word_at(level, entry_address);
            let last = last_at(level, entry_address, va);
            &&& text::are_digits(line.subrange(name + 9, word - 10), 16)
            &&& text::number(line.subrange(name + 9, word - 10), 16) == entry_address
            &&& text::are_digits(line.subrange(word, word + 16), 16)
            &&& text::number(line.subrange(word, word + 16), 16) == entry.word()
            &&& text::are_digits(line.subrange(word + 33, last - 5), 16)
            &&& text::number(line.subrange(word + 33, last - 5), 16) == va.address
            &&& text::are_digits(line.subrange(last, line.len() - 1), 16)
            &&& text::number(line.subrange(last, line.len() - 1), 16) == va.address
                - va.address as int % level.entry_span() + level.entry_span() - 1
        }),
{
    lemma_entry_line_pieces(entry, va, level, entry_address);
    structs::lemma_round_up(va, level);
    text::lemma_hex(entry_address as nat);
    text::lemma_hex(va.address as nat);
    text::lemma_hex(va.spec_round_up(level) as nat);
    text::lemma_hex_padded_word(entry.word());
}

/// Law: each of the ten letters in the line of an entry stands for its own bit of the word.
pub proof fn lemma_entry_line_letters(
    entry: PageTableEntryX64,
    va: VirtualAddress,
    level: PageLevel,
    entry_address: u64,
)
    ensures
        ({
            let line = dump::entry_line(entry, va, level, entry_address);
            let word = entry.word();
            let letters = word_at(level, entry_address) + 18;
            &&& line[letters] == (if word & 0x100 != 0 { 'G' } else { '-' })
            &&& line[letters + 1] == (if word & 0x80 != 0 && (level == PageLevel::Level2 || level
                == PageLevel::Level3) { 'L' } else { '-' })
            &&& line[letters + 2] == (if word & 0x40 != 0 { 'D' } else { '-' })
            &&& line[letters + 3] == (if word & 0x20 != 0 { 'A' } else { '-' })
            &&& line[letters + 4] == (if word & 0x10 != 0 { 'N' } else { '-' })
            &&& line[letters + 5] == (if word & 0x8 != 0 { 'T' } else { '-' })
            &&& line[letters + 6] == (if word & 0x4 != 0 { 'U' } else { 'K' })
            &&& line[letters + 7] == (if word & 0x2 != 0 { 'W' } else { 'R' })
            &&& line[letters + 8] == (if word & 0x8000_0000_0000_0000 != 0 { '-' } else { 'E' })
            &&& line[letters + 9] == (if word & 0x1 != 0 { 'V' } else { '-' })
        }),
{
    let line = dump::entry_line(entry, va, level, entry_address);
    let letters: int = word_at(level, entry_address) + 18;
    lemma_entry_line_pieces(entry, va, level, entry_address);
    lemma_flag_letters_bits(entry.word(), level);
    let shown = line.subrange(letters, letters + 10);
    assert(shown[0] == line[letters]);
    assert(shown[1] == line[letters + 1]);
    assert(shown[2] == line[letters + 2]);
    assert(shown[3] == line[letters + 3]);
    assert(shown[4] == line[letters + 4]);
    assert(shown[5] == line[letters + 5]);
    assert(shown[6] == line[letters + 6]);
    assert(shown[7] == line[letters + 7]);
    assert(shown[8] == line[letters + 8]);
    assert(shown[9] == line[letters + 9]);
}

/// The pieces of the line of an entry, each in its place.
proof fn lemma_entry_line_pieces(
    entry: PageTableEntryX64,
    va: VirtualAddress,
    level: PageLevel,
    entry_address: u64,
)
    ensures
        ({
            let line = dump::entry_line(entry, va, level, entry_address);
            let name = name_at(level);
            let word = word_at(level, entry_address);
            let last = last_at(level, entry_address, va);
            &&& last < line.len()
            &&& line.subrange(0, name) == dump::indentation(level)
            &&& line.subrange(name, name + 4) == dump::level_name(level)
            &&& line.subrange(name + 4, name + 9) == " @ 0x"@
            &&& line.subrange(name + 9, word - 10) == text::hex(entry_address as nat)
            &&& line.subrange(word - 10, word) == " Contains "@
            &&& line.subrange(word, word + 16) == text::hex_padded(entry.word() as nat, 16)
            &&& line.subrange(word + 16, word + 18) == "  "@
            &&& line.subrange(word + 18, word + 28) == dump::flag_letters(entry@, level)
            &&& line.subrange(word + 28, word + 33) == "  [0x"@
            &&& line.subrange(word + 33, last - 5) == text::hex(va.address as nat)
            &&& line.subrange(last - 5, last) == " - 0x"@
            &&& line.subrange(last, line.len() - 1) == text::hex(va.spec_round_up(level) as nat)
            &&& line.subrange(line.len() - 1, line.len() as int) == "]"@
        }),
{
    text::lemma_hex_padded_word(entry.word());
    lemma_marks(level);
    lemma_line_pieces(
        dump::entry_line(entry, va, level, entry_address),
        dump::indentation(level),
        dump::level_name(level),
        " @ 0x"@,
        text::hex(entry_address as nat),
        " Contains "@,
        text::hex_padded(entry.word() as nat, 16),
        "  "@,
        dump::flag_letters(entry@, level),
        "  [0x"@,
        text::hex(va.address as nat),
        " - 0x"@,
        text::hex(va.spec_round_up(level) as nat),
        "]"@,
    );
}

/// The fixed parts of a line, letter by letter.
proof fn lemma_marks(level: PageLevel)
    ensures
        dump::level_name(level) == (match level {
            PageLevel::Level1 => seq!['P', 't', 'e', ' '],
            PageLevel::Level2 => seq!['P', 'd', 'e', ' '],
            PageLevel::Level3 => seq!['P', 'p', 'e', ' '],
            PageLevel::Level4 => seq!['P', 'x', 'e', ' '],
            PageLevel::Level5 => seq!['P', 'x', 'e', '5'],
        }),
        dump::level_name(level).len() == 4,
        " @ 0x"@ == seq![' ', '@', ' ', '0', 'x'],
        " @ 0x"@.len() == 5,
        " Contains "@ == seq![' ', 'C', 'o', 'n', 't', 'a', 'i', 'n', 's', ' '],
        " Contains "@.len() == 10,
        "  "@ == seq![' ', ' '],
        "  "@.len() == 2,
        "  [0x"@ == seq![' ', ' ', '[', '0', 'x'],
        "  [0x"@.len() == 5,
        " - 0x"@ == seq![' ', '-', ' ', '0', 'x'],
        " - 0x"@.len() == 5,
        "]"@ == seq![']'],
        "]"@.len() == 1,
{
    reveal_strlit("Pte ");
    reveal_strlit("Pde ");
    reveal_strlit("Ppe ");
    reveal_strlit("Pxe ");
    reveal_strlit("Pxe5");
    reveal_strlit(" @ 0x");
    reveal_strlit(" Contains ");
    reveal_strlit("  ");
    reveal_strlit("  [0x");
    reveal_strlit(" - 0x");
    reveal_strlit("]");
}

/// A text that is put together from thirteen pieces holds each of them in its place.
proof fn lemma_line_pieces(
    text: Seq<char>,
    p0: Seq<char>,
    p1: Seq<char>,
    p2: Seq<char>,
    p3: Seq<char>,
    p4: Seq<char>,
    p5: Seq<char>,
    p6: Seq<char>,
    p7: Seq<char>,
    p8: Seq<char>,
    p9: Seq<char>,
    p10: Seq<char>,
    p11: Seq<char>,
    p12: Seq<char>,
)
    requires
        text == p0 + p1 + p2 + p3 + p4 + p5 + p6 + p7 + p8 + p9 + p10 + p11 + p12,
    ensures
        text.len() == p0.len() + p1.len() + p2.len() + p3.len() + p4.len() + p5.len() + p6.len() + p7.len() + p8.len() + p9.len() + p10.len() + p11.len() + p12.len(),
        text.subrange(0, p0.len() as int) == p0,
        text.subrange((p0.len()) as int, (p0.len() + p1.len()) as int) == p1,
        text.subrange((p0.len() + p1.len()) as int, (p0.len() + p1.len() + p2.len()) as int) == p2,
        text.subrange((p0.len() + p1.len() + p2.len()) as int, (p0.len() + p1.len() + p2.len() + p3.len()) as int) == p3,
        text.subrange((p0.len() + p1.len() + p2.len() + p3.len()) as int, (p0.len() + p1.len() + p2.len() + p3.len() + p4.len()) as int) == p4,
        text.subrange((p0.len() + p1.len() + p2.len() + p3.len() + p4.len()) as int, (p0.len() + p1.len() + p2.len() + p3.len() + p4.len() + p5.len()) as int) == p5,
        text.subrange((p0.len() + p1.len() + p2.len() + p3.len() + p4.len() + p5.len()) as int, (p0.len() + p1.len() + p2.len() + p3.len() + p4.len() + p5.len() + p6.len()) as int) == p6,
        text.subrange((p0.len() + p1.len() + p2.len() + p3.len() + p4.len() + p5.len() + p6.len()) as int, (p0.len() + p1.len() + p2.len() + p3.len() + p4.len() + p5.len() + p6.len() + p7.len()) as int) == p7,
        text.subrange((p0.len() + p1.len() + p2.len() + p3.len() + p4.len() + p5.len() + p6.len() + p7.len()) as int, (p0.len() + p1.len() + p2.len() + p3.len() + p4.len() + p5.len() + p6.len() + p7.len() + p8.len()) as int) == p8,
        text.subrange((p0.len() + p1.len() + p2.len() + p3.len() + p4.len() + p5.len() + p6.len() + p7.len() + p8.len()) as int, (p0.len() + p1.len() + p2.len() + p3.len() + p4.len() + p5.len() + p6.len() + p7.len() + p8.len() + p9.len()) as int) == p9,
        text.subrange((p0.len() + p1.len() + p2.len() + p3.len() + p4.len() + p5.len() + p6.len() + p7.len() + p8.len() + p9.len()) as int, (p0.len() + p1.len() + p2.len() + p3.len() + p4.len() + p5.len() + p6.len() + p7.len() + p8.len() + p9.len() + p10.len()) as int) == p10,
        text.subrange((p0.len() + p1.len() + p2.len() + p3.len() + p4.len() + p5.len() + p6.len() + p7.len() + p8.len() + p9.len() + p10.len()) as int, (p0.len() + p1.len() + p2.len() + p3.len() + p4.len() + p5.len() + p6.len() + p7.len() + p8.len() + p9.len() + p10.len() + p11.len()) as int) == p11,
        text.subrange((p0.len() + p1.len() + p2.len() + p3.len() + p4.len() + p5.len() + p6.len() + p7.len() + p8.len() + p9.len() + p10.len() + p11.len()) as int, (p0.len() + p1.len() + p2.len() + p3.len() + p4.len() + p5.len() + p6.len() + p7.len() + p8.len() + p9.len() + p10.len() + p11.len() + p12.len()) as int) == p12,
{
    let h0 = p0;
    let h1 = h0 + p1;
    let h2 = h1 + p2;
    let h3 = h2 + p3;
    let h4 = h3 + p4;
    let h5 = h4 + p5;
    let h6 = h5 + p6;
    let h7 = h6 + p7;
    let h8 = h7 + p8;
    let h9 = h8 + p9;
    let h10 = h9 + p10;
    let h11 = h10 + p11;
    assert(text.take(text.len() as int) =~= text);
    lemma_last_piece(text, h11, p12);
    lemma_last_piece(text, h10, p11);
    lemma_last_piece(text, h9, p10);
    lemma_last_piece(text, h8, p9);
    lemma_last_piece(text, h7, p8);
    lemma_last_piece(text, h6, p7);
    lemma_last_piece(text, h5, p6);
    lemma_last_piece(text, h4, p5);
    lemma_last_piece(text, h3, p4);
    lemma_last_piece(text, h2, p3);
    lemma_last_piece(text, h1, p2);
    lemma_last_piece(text, h0, p1);
    assert(text.subrange(0, p0.len() as int) =~= text.take(p0.len() as int));
}

/// Where a text starts with two pieces, it starts with the first one, and the second one follows.
proof fn lemma_last_piece(text: Seq<char>, head: Seq<char>, piece: Seq<char>)
    requires
        head.len() + piece.len() <= text.len(),
        text.take((head.len() + piece.len()) as int) == head + piece,
    ensures
        head.len() <= text.len(),
        text.take(head.len() as int) == head,
        text.subrange(head.len() as int, (head.len() + piece.len()) as int) == piece,
{
    let both = head + piece;
    assert(text.take(head.len() as int) =~= both.take(head.len() as int));
    assert(both.take(head.len() as int) =~= head);
    assert(text.subrange(head.len() as int, both.len() as int) =~= both.subrange(
        head.len() as int,
        both.len() as int,
    ));
    assert(both.subrange(head.len() as int, both.len() as int) =~= piece);
}

/// Law: an entry has a line of its own, and before it one more exactly if its page size bit is
/// set at one of the two levels that can map large pages. That line has the same indentation and
/// names the size.
pub proof fn lemma_dump_lines(
    entry: PageTableEntryX64,
    va: VirtualAddress,
    level: PageLevel,
    entry_address: u64,
)
    ensures
        ({
            let lines = dump::dump_lines(entry, va, level, entry_address);
            let large = entry.word() & 0x80 != 0 && (level == PageLevel::Level2 || level
                == PageLevel::Level3);
            let name = 2 * level.depth() + 1;
            &&& lines.len() == (if large { 2int } else { 1 })
            &&& lines.last() == dump::entry_line(entry, va, level, entry_address)
            &&& large ==> {
                &&& forall|i: int| 0 <= i < name ==> #[trigger] lines[0][i] == ' '
                &&& level == PageLevel::Level2 ==> lines[0].skip(name) == seq!['2', 'M', 'B', ' ', 'L', 'a', 'r', 'g', 'e', ' ', 'P', 'a', 'g', 'e']
                &&& level == PageLevel::Level3 ==> lines[0].skip(name) == seq!['1', 'G', 'B', ' ', 'H', 'u', 'g', 'e', ' ', 'P', 'a', 'g', 'e']
            }
        }),
{
    let lines = dump::dump_lines(entry, va, level, entry_address);
    let name: int = 2 * level.depth() + 1;
    entries::lemma_field_positions(entry.word());
    reveal_strlit("2MB Large Page");
    reveal_strlit("1GB Huge Page");
    if dump::is_large_page(entry@, level) {
        assert(lines[0] == dump::large_page_line(level));
        if level == PageLevel::Level2 {
            assert(lines[0].skip(name) =~= seq!['2', 'M', 'B', ' ', 'L', 'a', 'r', 'g', 'e', ' ', 'P', 'a', 'g', 'e']);
        } else {
            assert(lines[0].skip(name) =~= seq!['1', 'G', 'B', ' ', 'H', 'u', 'g', 'e', ' ', 'P', 'a', 'g', 'e']);
        }
    }
}

/// The word for a bit.
pub open spec fn spelled(bit: bool) -> Seq<char> {
    if bit {
        seq!['t', 'r', 'u', 'e']
    } else {
        seq!['f', 'a', 'l', 's', 'e']
    }
}

/// Law: the list of fields gives every field under its own name, by the bits of the word that hold
/// it: one word for each bit, and a decimal number for each group of bits.
pub proof fn lemma_field_list_bits(word: u64)
    ensures
        dump::field_list(entries::unpack(word)) == "PageTableEntryX64 { present: "@ + spelled(word & 0x1 != 0)
            + ", read_write: "@ + spelled(word & 0x2 != 0)
            + ", user_supervisor: "@ + spelled(word & 0x4 != 0)
            + ", write_through: "@ + spelled(word & 0x8 != 0)
            + ", cache_disabled: "@ + spelled(word & 0x10 != 0)
            + ", accessed: "@ + spelled(word & 0x20 != 0)
            + ", dirty: "@ + spelled(word & 0x40 != 0)
            + ", page_size: "@ + spelled(word & 0x80 != 0)
            + ", global: "@ + spelled(word & 0x100 != 0)
            + ", available: "@ + text::decimal((word / 0x200 % 8) as nat)
            + ", page_table_base_address: "@ + text::decimal((word / 0x1000 % 0x100_0000_0000) as nat)
            + ", available_high: "@ + text::decimal((word / 0x10_0000_0000_0000 % 0x800) as nat)
            + ", nx: "@ + spelled(word & 0x8000_0000_0000_0000 != 0)
            + " }"@,
{
    entries::lemma_field_positions(word);
    text::lemma_truth();
}

} // verus!

//! Building text: runs of spaces, numbers and truth values.

use vstd::prelude::*;

verus! {

/// The hexadecimal digit for `value`.
pub open spec fn hex_digit(value: nat) -> char
    recommends
        value < 16,
{
    seq![
        '0',
        '1',
        '2',
        '3',
        '4',
        '5',
        '6',
        '7',
        '8',
        '9',
        'A',
        'B',
        'C',
        'D',
        'E',
        'F',
    ][value as int]
}

/// `value` in hexadecimal, without leading zeros.
pub open spec fn hex(value: nat) -> Seq<char>
    decreases value,
{
    if value < 16 {
        seq![hex_digit(value)]
    } else {
        hex(value / 16).push(hex_digit(value % 16))
    }
}

/// The last `width` digits of `value` in hexadecimal, leading zeros included.
pub open spec fn hex_padded(value: nat, width: nat) -> Seq<char>
    decreases width,
{
    if width == 0 {
        seq![]
    } else {
        hex_padded(value / 16, (width - 1) as nat).push(hex_digit(value % 16))
    }
}

/// `value` in decimal, without leading zeros.
pub open spec fn decimal(value: nat) -> Seq<char>
    decreases value,
{
    if value < 10 {
        seq![hex_digit(value)]
    } else {
        decimal(value / 10).push(hex_digit(value % 10))
    }
}

/// `value` as a word.
pub open spec fn truth(value: bool) -> Seq<char> {
    if value {
        "true"@
    } else {
        "false"@
    }
}

/// `count` spaces.
pub open spec fn spaces(count: nat) -> Seq<char> {
    Seq::new(count, |i: int| ' ')
}

/// Appends `count` spaces.
pub fn push_spaces(out: &mut String, count: usize)
    ensures
        final(out)@ == old(out)@ + spaces(count as nat),
{
    let mut done: usize = 0;
    assert(out@ =~= old(out)@ + spaces(0));
    while done < count
        invariant
            done <= count,
            out@ == old(out)@ + spaces(done as nat),
        decreases count - done,
    {
        out.append(" ");
        done = done + 1;
        proof {
            reveal_strlit(" ");
            assert(out@ =~= old(out)@ + spaces(done as nat));
        }
    }
}

/// Appends the hexadecimal digit for `value`.
pub fn push_hex_digit(out: &mut String, value: u64)
    requires
        value < 16,
    ensures
        final(out)@ == old(out)@.push(hex_digit(value as nat)),
{
    let digit: &str = match value {
        0 => "0",
        1 => "1",
        2 => "2",
        3 => "3",
        4 => "4",
        5 => "5",
        6 => "6",
        7 => "7",
        8 => "8",
        9 => "9",
        10 => "A",
        11 => "B",
        12 => "C",
        13 => "D",
        14 => "E",
        _ => "F",
    };
    proof {
        reveal_strlit("0");
        reveal_strlit("1");
        reveal_strlit("2");
        reveal_strlit("3");
        reveal_strlit("4");
        reveal_strlit("5");
        reveal_strlit("6");
        reveal_strlit("7");
        reveal_strlit("8");
        reveal_strlit("9");
        reveal_strlit("A");
        reveal_strlit("B");
        reveal_strlit("C");
        reveal_strlit("D");
        reveal_strlit("E");
        reveal_strlit("F");
        assert(digit@ =~= seq![hex_digit(value as nat)]);
    }
    out.append(digit);
    assert(out@ =~= old(out)@.push(hex_digit(value as nat)));
}

/// Appends `value` in hexadecimal, without leading zeros.
pub fn push_hex(out: &mut String, value: u64)
    ensures
        final(out)@ == old(out)@ + hex(value as nat),
    decreases value,
{
    if value >= 16 {
        push_hex(out, value / 16);
    }
    push_hex_digit(out, value % 16);
    assert(out@ =~= old(out)@ + hex(value as nat));
}

/// Appends the last `width` digits of `value` in hexadecimal, leading zeros included.
pub fn push_hex_padded(out: &mut String, value: u64, width: usize)
    ensures
        final(out)@ == old(out)@ + hex_padded(value as nat, width as nat),
    decreases width,
{
    if width > 0 {
        push_hex_padded(out, value / 16, width - 1);
        push_hex_digit(out, value % 16);
    }
    assert(out@ =~= old(out)@ + hex_padded(value as nat, width as nat));
}

/// Appends `value` in decimal, without leading zeros.
pub fn push_decimal(out: &mut String, value: u64)
    ensures
        final(out)@ == old(out)@ + decimal(value as nat),
    decreases value,
{
    if value >= 10 {
        push_decimal(out, value / 10);
    }
    push_hex_digit(out, value % 10);
    assert(out@ =~= old(out)@ + decimal(value as nat));
}

/// Appends `value` as a word.
pub fn push_truth(out: &mut String, value: bool)
    ensures
        final(out)@ == old(out)@ + truth(value),
{
    out.append(if value { "true" } else { "false" });
}

/// The number that a digit stands for, and -1 for what is no digit.
pub open spec fn digit_value(digit: char) -> int {
    if '0' <= digit && digit <= '9' {
        digit as int - '0' as int
    } else if 'A' <= digit && digit <= 'F' {
        digit as int - 'A' as int + 10
    } else {
        -1
    }
}

/// The number that the digits spell in the given base, the most significant one first.
pub open spec fn number(digits: Seq<char>, base: int) -> int
    decreases digits.len(),
{
    if digits.len() == 0 {
        0
    } else {
        number(digits.drop_last(), base) * base + digit_value(digits.last())
    }
}

/// Whether all of `digits` are digits in the given base.
pub open spec fn are_digits(digits: Seq<char>, base: int) -> bool {
    forall|i: int| 0 <= i < digits.len() ==> 0 <= digit_value(#[trigger] digits[i]) < base
}

/// Law: hexadecimal text spells the number that it was made from, with digits only and without a
/// leading zero.
pub proof fn lemma_hex(value: nat)
    ensures
        number(hex(value), 16) == value,
        are_digits(hex(value), 16),
        hex(value).len() > 0,
        value > 0 ==> digit_value(hex(value)[0]) != 0,
        value == 0 ==> hex(value).len() == 1,
    decreases value,
{
    reveal_with_fuel(number, 2);
    if value >= 16 {
        lemma_hex(value / 16);
        assert(hex(value).drop_last() =~= hex(value / 16));
        assert(hex(value)[0] == hex(value / 16)[0]);
    } else {
        assert(hex(value).drop_last() =~= seq![]);
    }
}

/// Law: padded hexadecimal text has the width asked for and digits only, and it spells the number
/// that it was made from if that needs no more digits.
pub proof fn lemma_hex_padded(value: nat, width: nat)
    ensures
        hex_padded(value, width).len() == width,
        are_digits(hex_padded(value, width), 16),
        value < vstd::arithmetic::power::pow(16, width) ==> number(hex_padded(value, width), 16)
            == value,
    decreases width,
{
    reveal(vstd::arithmetic::power::pow);
    if width > 0 {
        let shorter = (width - 1) as nat;
        lemma_hex_padded(value / 16, shorter);
        assert(hex_padded(value, width).drop_last() =~= hex_padded(value / 16, shorter));
        assert(vstd::arithmetic::power::pow(16, width) == 16 * vstd::arithmetic::power::pow(
            16,
            shorter,
        ));
    }
}

/// Law: sixteen hexadecimal digits spell any 64-bit word.
pub proof fn lemma_hex_padded_word(word: u64)
    ensures
        hex_padded(word as nat, 16).len() == 16,
        are_digits(hex_padded(word as nat, 16), 16),
        number(hex_padded(word as nat, 16), 16) == word,
{
    lemma_hex_padded(word as nat, 16);
    assert(vstd::arithmetic::power::pow(16, 16) == 0x1_0000_0000_0000_0000) by {
        reveal_with_fuel(vstd::arithmetic::power::pow, 17);
    }
}

/// Law: decimal text spells the number that it was made from, with digits only and without a
/// leading zero.
pub proof fn lemma_decimal(value: nat)
    ensures
        number(decimal(value), 10) == value,
        are_digits(decimal(value), 10),
        decimal(value).len() > 0,
        value > 0 ==> digit_value(decimal(value)[0]) != 0,
        value == 0 ==> decimal(value).len() == 1,
    decreases value,
{
    reveal_with_fuel(number, 2);
    if value >= 10 {
        lemma_decimal(value / 10);
        assert(decimal(value).drop_last() =~= decimal(value / 10));
        assert(decimal(value)[0] == decimal(value / 10)[0]);
    } else {
        assert(decimal(value).drop_last() =~= seq![]);
    }
}

/// Law: the words for truth values are spelled out.
pub proof fn lemma_truth()
    ensures
        truth(true) == seq!['t', 'r', 'u', 'e'],
        truth(false) == seq!['f', 'a', 'l', 's', 'e'],
{
    reveal_strlit("true");
    reveal_strlit("false");
    assert("true"@ =~= seq!['t', 'r', 'u', 'e']);
    assert("false"@ =~= seq!['f', 'a', 'l', 's', 'e']);
}

} // verus!

//! Text helpers: views of optional strings, numbers as text, the decoders for
//! the encodings in which window systems hand out titles.
use vstd::prelude::*;
use vstd::utf8::{decode_utf8, valid_utf8};

verus! {

/// `String::push` appends the given character to the end of the string.
pub assume_specification[ String::push ](s: &mut String, ch: char)
    ensures
        final(s)@ == old(s)@.push(ch),
;

/// The characters of an optional text.
pub open spec fn chars_of(text: Option<String>) -> Option<Seq<char>> {
    match text {
        Some(t) => Some(t@),
        None => None,
    }
}

/// Whether two optional texts hold the same characters.
pub fn same_text(a: &Option<String>, b: &Option<String>) -> (same: bool)
    ensures
        same == (chars_of(*a) == chars_of(*b)),
{
    match (a, b) {
        (Some(x), Some(y)) => *x == *y,
        (None, None) => true,
        _ => false,
    }
}

/// A copy of an optional text.
pub fn copy_text(text: &Option<String>) -> (copy: Option<String>)
    ensures
        copy == *text,
{
    match text {
        Some(t) => Some(t.clone()),
        None => None,
    }
}

/// Whether a text reads exactly `expected`.
pub fn reads(text: &str, expected: &str) -> (same: bool)
    ensures
        same == (text@ == expected@),
{
    text.to_owned() == expected.to_owned()
}

/// The digit of value `d`, in upper case above nine.
pub open spec fn digit(d: int) -> char {
    if d < 10 {
        (48 + d) as char
    } else {
        (55 + d) as char
    }
}

fn digit_char(d: u8) -> (c: char)
    requires
        d < 16,
    ensures
        c == digit(d as int),
{
    if d < 10 {
        (48 + d) as char
    } else {
        (55 + d) as char
    }
}

/// A number in decimal, without leading zeros.
pub open spec fn decimal(n: nat) -> Seq<char>
    decreases n,
{
    if n < 10 {
        seq![digit(n as int)]
    } else {
        decimal(n / 10).push(digit((n % 10) as int))
    }
}

/// Writes `n` in decimal.
pub fn decimal_text(n: u8) -> (text: String)
    ensures
        text@ == decimal(n as nat),
    decreases n,
{
    let mut text = if n < 10 {
        String::new()
    } else {
        decimal_text(n / 10)
    };
    text.push(digit_char(n % 10));
    text
}

/// A 16-bit number as exactly four hexadecimal digits.
pub open spec fn hex4(n: u16) -> Seq<char> {
    seq![
        digit(n as int / 4096),
        digit(n as int / 256 % 16),
        digit(n as int / 16 % 16),
        digit(n as int % 16),
    ]
}

/// Writes `n` as exactly four hexadecimal digits.
pub fn hex4_text(n: u16) -> (text: String)
    ensures
        text@ == hex4(n),
{
    let mut text = String::new();
    text.push(digit_char((n / 4096) as u8));
    text.push(digit_char((n / 256 % 16) as u8));
    text.push(digit_char((n / 16 % 16) as u8));
    text.push(digit_char((n % 16) as u8));
    assert(text@ =~= hex4(n));
    text
}

/// Latin-1: every byte is the character of the same number.
pub open spec fn latin1(bytes: Seq<u8>) -> Seq<char> {
    bytes.map_values(|b: u8| b as char)
}

/// Decodes Latin-1.
pub fn latin1_text(bytes: &[u8]) -> (text: String)
    ensures
        text@ == latin1(bytes@),
{
    let mut text = String::new();
    let mut i: usize = 0;
    while i < bytes.len()
        invariant
            i <= bytes@.len(),
            text@ == latin1(bytes@.take(i as int)),
        decreases bytes@.len() - i,
    {
        text.push(bytes[i] as char);
        i = i + 1;
        assert(text@ =~= latin1(bytes@.take(i as int)));
    }
    assert(bytes@.take(i as int) =~= bytes@);
    text
}

/// `String::from_utf8` accepts exactly the byte strings that are valid UTF-8
/// and returns the characters they encode.
#[verifier::external_body]
pub(crate) fn utf8_text(bytes: Vec<u8>) -> (text: Option<String>)
    ensures
        text is Some <==> valid_utf8(bytes@),
        text matches Some(t) ==> t@ == decode_utf8(bytes@),
{
    String::from_utf8(bytes).ok()
}

pub open spec fn is_high_surrogate(unit: u16) -> bool {
    0xD800 <= unit <= 0xDBFF
}

pub open spec fn is_low_surrogate(unit: u16) -> bool {
    0xDC00 <= unit <= 0xDFFF
}

/// The character that a high and a low surrogate encode together.
pub open spec fn surrogate_pair(high: u16, low: u16) -> char {
    (0x10000 + (high - 0xD800) * 0x400 + (low - 0xDC00)) as char
}

/// UTF-16, with U+FFFD in the place of every surrogate that has no partner.
pub open spec fn utf16(units: Seq<u16>) -> Seq<char>
    decreases units.len(),
{
    if units.len() == 0 {
        seq![]
    } else if is_high_surrogate(units[0]) && units.len() > 1 && is_low_surrogate(units[1]) {
        seq![surrogate_pair(units[0], units[1])] + utf16(units.skip(2))
    } else if is_high_surrogate(units[0]) || is_low_surrogate(units[0]) {
        seq!['\u{FFFD}'] + utf16(units.skip(1))
    } else {
        seq![units[0] as char] + utf16(units.skip(1))
    }
}

/// `String::from_utf16_lossy` decodes UTF-16 and puts U+FFFD in the place of
/// what is invalid, which in UTF-16 is every unpaired surrogate.
#[verifier::external_body]
pub(crate) fn utf16_text(units: &[u16]) -> (text: String)
    ensures
        text@ == utf16(units@),
{
    String::from_utf16_lossy(units)
}

/// Two optional texts are the same if both are missing, or both are there and read
/// the same.
pub proof fn law_same_text(x: String, y: String, both: bool, one: bool, other: bool, none: bool)
    requires
        call_ensures(same_text, (&Some(x), &Some(y)), both),
        call_ensures(same_text, (&Some(x), &None), one),
        call_ensures(same_text, (&None, &Some(y)), other),
        call_ensures(same_text, (&None, &None), none),
    ensures
        both <==> x@ == y@,
        !one,
        !other,
        none,
{
}

/// A copy of a text reads as the text does, and a missing text stays missing.
pub proof fn law_copy_reads_the_same(x: String, there: Option<String>, missing: Option<String>)
    requires
        call_ensures(copy_text, (&Some(x),), there),
        call_ensures(copy_text, (&None,), missing),
    ensures
        there matches Some(c) && c@ == x@,
        missing is None,
{
}

/// The characters of an optional text are those of the text; a text without any is
/// still there.
pub proof fn law_characters_of_a_text(x: String)
    ensures
        chars_of(Some(x)) == Some(x@),
        chars_of(None) is None,
{
}

/// A text reads something exactly if it has the same characters in the same places.
pub proof fn law_reads_every_character(text: &str, expected: &str, same: bool)
    requires
        call_ensures(reads, (text, expected), same),
    ensures
        same <==> text@.len() == expected@.len() && forall|i: int|
            0 <= i < text@.len() ==> text@[i] == expected@[i],
{
    if text@.len() == expected@.len() && (forall|i: int|
        0 <= i < text@.len() ==> text@[i] == expected@[i]) {
        assert(text@ =~= expected@);
    }
}

/// Digits stand in their usual order: `0` to `9`, then `A` to `F`.
pub proof fn law_digits_are_in_order(d: int)
    ensures
        digit(0) == '0',
        digit(10) == 'A',
        0 <= d < 15 && d != 9 ==> digit(d + 1) as int == digit(d) as int + 1,
{
}

/// The value of a character as a digit.
pub open spec fn digit_value(c: char) -> int {
    if '0' <= c <= '9' {
        c as int - '0' as int
    } else {
        c as int - 'A' as int + 10
    }
}

/// The number that a row of digits reads, in a base.
pub open spec fn value(digits: Seq<char>, base: int) -> int
    decreases digits.len(),
{
    if digits.len() == 0 {
        0
    } else {
        value(digits.drop_last(), base) * base + digit_value(digits.last())
    }
}

/// A number in decimal reads back as the number: it is a row of decimal digits of
/// that value, and has no zero in front but for zero itself.
pub proof fn law_decimal_reads_back(n: nat)
    ensures
        value(decimal(n), 10) == n,
        decimal(n).len() >= 1,
        n > 0 ==> decimal(n)[0] != '0',
        n == 0 ==> decimal(n).len() == 1,
        forall|i: int| 0 <= i < decimal(n).len() ==> '0' <= #[trigger] decimal(n)[i] <= '9',
    decreases n,
{
    if n >= 10 {
        law_decimal_reads_back(n / 10);
        assert(decimal(n).drop_last() =~= decimal(n / 10));
    } else {
        assert(decimal(n).drop_last() =~= seq![]);
        reveal_with_fuel(value, 2);
    }
}

/// What is written for a number reads back as that number.
pub proof fn law_decimal_text_reads_back(n: u8, text: String)
    requires
        call_ensures(decimal_text, (n,), text),
    ensures
        value(text@, 10) == n,
        n > 0 ==> text@[0] != '0',
        n == 0 ==> text@ == seq!['0'],
{
    law_decimal_reads_back(n as nat);
    if n == 0 {
        assert(text@ =~= seq!['0']);
    }
}

/// Four hexadecimal digits read back as the number they were written for.
pub proof fn law_hex4_reads_back(n: u16, text: String)
    requires
        call_ensures(hex4_text, (n,), text),
    ensures
        text@ == hex4(n),
        text@.len() == 4,
        value(text@, 16) == n,
        forall|i: int|
            0 <= i < 4 ==> '0' <= #[trigger] text@[i] <= '9' || 'A' <= text@[i] <= 'F',
{
    let t = text@;
    reveal_with_fuel(value, 5);
    assert(t.drop_last() =~= seq![t[0], t[1], t[2]]);
    assert(t.drop_last().drop_last() =~= seq![t[0], t[1]]);
    assert(t.drop_last().drop_last().drop_last() =~= seq![t[0]]);
    assert(t.drop_last().drop_last().drop_last().drop_last() =~= seq![]);
    assert(digit_value(t[0]) == n as int / 4096);
    assert(digit_value(t[1]) == n as int / 256 % 16);
    assert(digit_value(t[2]) == n as int / 16 % 16);
    assert(digit_value(t[3]) == n as int % 16);
}

/// Latin-1 text has a character for every byte, of the same number.
pub proof fn law_latin1_keeps_the_numbers(bytes: &[u8], text: String)
    requires
        call_ensures(latin1_text, (bytes,), text),
    ensures
        text@ == latin1(bytes@),
        text@.len() == bytes@.len(),
        forall|i: int| 0 <= i < bytes@.len() ==> (#[trigger] text@[i]) as u32 == bytes@[i] as u32,
{
}

/// The UTF-16 units of a character: one, or a pair of surrogates.
pub open spec fn units_of(c: char) -> Seq<u16> {
    let n = c as int;
    if n < 0x1_0000 {
        seq![n as u16]
    } else {
        seq![
            (0xD800 + (n - 0x1_0000) / 0x400) as u16,
            (0xDC00 + (n - 0x1_0000) % 0x400) as u16,
        ]
    }
}

/// The UTF-16 units of a text.
pub open spec fn all_units(text: Seq<char>) -> Seq<u16>
    decreases text.len(),
{
    if text.len() == 0 {
        seq![]
    } else {
        units_of(text[0]) + all_units(text.skip(1))
    }
}

proof fn lemma_scalar(c: char)
    ensures
        0 <= c as int <= 0x10FFFF,
        !(0xD800 <= c as int <= 0xDFFF),
{
}

/// Text in UTF-16 is read back as it was written.
pub proof fn law_utf16_reads_back(text: Seq<char>)
    ensures
        utf16(all_units(text)) == text,
    decreases text.len(),
{
    if text.len() > 0 {
        let c = text[0];
        let n = c as int;
        lemma_scalar(c);
        let rest = all_units(text.skip(1));
        let units = all_units(text);
        law_utf16_reads_back(text.skip(1));
        if n < 0x1_0000 {
            assert(units[0] == n as u16);
            assert(units.skip(1) =~= rest);
            assert(units[0] as char == c);
        } else {
            assert(units.skip(2) =~= rest);
            assert(is_high_surrogate(units[0]) && is_low_surrogate(units[1]));
            assert(surrogate_pair(units[0], units[1]) == c);
        }
        assert(utf16(units) =~= text);
    }
}

/// A surrogate without its partner is read as U+FFFD, and what follows is read on
/// its own.
pub proof fn law_lone_surrogates_are_replaced(unit: u16, rest: Seq<u16>)
    requires
        0xD800 <= unit <= 0xDFFF,
        unit < 0xDC00 ==> rest.len() == 0 || !(0xDC00 <= rest[0] <= 0xDFFF),
    ensures
        utf16(seq![unit] + rest) == seq!['\u{FFFD}'] + utf16(rest),
{
    assert((seq![unit] + rest).skip(1) =~= rest);
}

} // verus!

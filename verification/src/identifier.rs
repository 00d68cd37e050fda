//! Message identifiers: 128-bit numbers that begin with the time of their
//! making, and the text they are written as.

use uuid::Uuid;
use vstd::prelude::*;

verus! {

/// The identifier is laid out as a version 7 identifier: its version digit
/// is 7 and its variant bits are `10`. This says nothing of how it compares
/// with another identifier.
pub open spec fn has_v7_layout(id: u128) -> bool {
    &&& (id >> 76) & 0xf == 7
    &&& (id >> 62) & 0x3 == 2
}

/// The time an identifier carries in its upper 48 bits, in milliseconds.
pub open spec fn created_millis(id: u128) -> u128 {
    id >> 80
}

/// The digit that stands for a number below 16, in lower case.
pub open spec fn hex_char(n: int) -> char {
    if n < 10 {
        ('0' as int + n) as char
    } else {
        ('a' as int + n - 10) as char
    }
}

/// The number a hexadecimal digit of either case stands for.
pub open spec fn hex_value(c: char) -> Option<int> {
    if '0' <= c <= '9' {
        Some(c as int - '0' as int)
    } else if 'a' <= c <= 'f' {
        Some(c as int - 'a' as int + 10)
    } else if 'A' <= c <= 'F' {
        Some(c as int - 'A' as int + 10)
    } else {
        None
    }
}

/// Digit `k` of the identifier's 32 hexadecimal digits, counted from the
/// most significant.
pub open spec fn nibble(id: u128, k: int) -> int {
    ((id >> ((4 * (31 - k)) as u128)) & 0xf) as int
}

/// The identifier as 32 lower-case hexadecimal digits.
pub open spec fn simple_text(id: u128) -> Seq<char> {
    Seq::new(32, |k: int| hex_char(nibble(id, k)))
}

/// The identifier in groups of 8, 4, 4, 4 and 12 digits with a hyphen between
/// them, 36 characters in all.
pub open spec fn hyphenated(id: u128) -> Seq<char> {
    let digits = simple_text(id);
    digits.subrange(0, 8) + seq!['-'] + digits.subrange(8, 12) + seq!['-'] + digits.subrange(
        12,
        16,
    ) + seq!['-'] + digits.subrange(16, 20) + seq!['-'] + digits.subrange(20, 32)
}

/// Every character of the text is a hexadecimal digit.
pub open spec fn all_hex(text: Seq<char>) -> bool {
    forall|i: int| 0 <= i < text.len() ==> hex_value(#[trigger] text[i]) is Some
}

/// The number that a row of hexadecimal digits writes, most significant
/// digit first.
pub open spec fn number(digits: Seq<char>) -> int
    decreases digits.len(),
{
    if digits.len() == 0 {
        0
    } else {
        16 * number(digits.drop_last()) + hex_value(digits.last()).unwrap()
    }
}

/// The identifier that 32 hexadecimal digits write.
pub open spec fn simple_form(text: Seq<char>) -> Option<u128> {
    if text.len() == 32 && all_hex(text) {
        Some(number(text) as u128)
    } else {
        None
    }
}

/// The identifier that the 36-character form with four hyphens writes.
pub open spec fn hyphenated_form(text: Seq<char>) -> Option<u128> {
    if text.len() == 36 && text[8] == '-' && text[13] == '-' && text[18] == '-' && text[23]
        == '-' {
        simple_form(
            text.subrange(0, 8) + text.subrange(9, 13) + text.subrange(14, 18) + text.subrange(
                19,
                23,
            ) + text.subrange(24, 36),
        )
    } else {
        None
    }
}

/// The nine characters are `urn:uuid:`, its letters in either case.
pub open spec fn urn_prefix(text: Seq<char>) -> bool {
    &&& text.len() == 9
    &&& text[0] == 'u' || text[0] == 'U'
    &&& text[1] == 'r' || text[1] == 'R'
    &&& text[2] == 'n' || text[2] == 'N'
    &&& text[3] == ':'
    &&& text[4] == 'u' || text[4] == 'U'
    &&& text[5] == 'u' || text[5] == 'U'
    &&& text[6] == 'i' || text[6] == 'I'
    &&& text[7] == 'd' || text[7] == 'D'
    &&& text[8] == ':'
}

/// The identifier that a text writes, if it writes one. Four forms do: 32
/// digits; the hyphenated form; that form in braces; that form after
/// `urn:uuid:`.
pub open spec fn parsed(text: Seq<char>) -> Option<u128> {
    if text.len() == 32 {
        simple_form(text)
    } else if text.len() == 36 {
        hyphenated_form(text)
    } else if text.len() == 38 && text[0] == '{' && text[37] == '}' {
        hyphenated_form(text.subrange(1, 37))
    } else if text.len() == 45 && urn_prefix(text.subrange(0, 9)) {
        hyphenated_form(text.subrange(9, 45))
    } else {
        None
    }
}

/// A digit written by [`hex_char`] is read back by [`hex_value`].
proof fn lemma_digit_read_back(n: int)
    requires
        0 <= n < 16,
    ensures
        hex_value(hex_char(n)) == Some(n),
{
}

/// Each of the 32 digits of an identifier is below 16.
proof fn lemma_nibble_below_16(id: u128, k: int)
    requires
        0 <= k < 32,
    ensures
        0 <= nibble(id, k) < 16,
{
    let shift = (4 * (31 - k)) as u128;
    assert((id >> shift) & 0xf < 16) by (bit_vector);
}

/// What is left of an identifier when its lowest `32 - k` digits are dropped.
spec fn upper_digits(id: u128, k: int) -> int {
    if k == 0 {
        0
    } else {
        (id >> ((128 - 4 * k) as u128)) as int
    }
}

/// The upper `k + 1` digits are the upper `k` digits with digit `k` after
/// them.
proof fn lemma_upper_digits_step(id: u128, k: int)
    requires
        0 <= k < 32,
    ensures
        upper_digits(id, k + 1) == 16 * upper_digits(id, k) + nibble(id, k),
{
    let low = (4 * (31 - k)) as u128;
    if k == 0 {
        assert((id >> 124) & 0xf == id >> 124) by (bit_vector);
    } else {
        let high = (128 - 4 * k) as u128;
        assert(high == low + 4 && low <= 120);
        assert(id >> low == 16 * (id >> high) + ((id >> low) & 0xf)) by (bit_vector)
            requires
                high == low + 4,
                low <= 120,
        ;
    }
}

/// The first `k` digits of an identifier's text write its upper `k` digits.
proof fn lemma_number_of_digits(id: u128, k: int)
    requires
        0 <= k <= 32,
    ensures
        number(simple_text(id).subrange(0, k)) == upper_digits(id, k),
    decreases k,
{
    if k > 0 {
        let digits = simple_text(id).subrange(0, k);
        lemma_number_of_digits(id, k - 1);
        assert(digits.drop_last() =~= simple_text(id).subrange(0, k - 1));
        assert(digits.last() == hex_char(nibble(id, k - 1)));
        lemma_nibble_below_16(id, k - 1);
        lemma_digit_read_back(nibble(id, k - 1));
        lemma_upper_digits_step(id, k - 1);
    }
}

/// The 32 digits of an identifier are read back as the identifier.
pub proof fn lemma_simple_text_read_back(id: u128)
    ensures
        simple_form(simple_text(id)) == Some(id),
{
    let digits = simple_text(id);
    assert forall|i: int| 0 <= i < digits.len() implies hex_value(#[trigger] digits[i]) is Some by {
        lemma_nibble_below_16(id, i);
        lemma_digit_read_back(nibble(id, i));
    }
    lemma_number_of_digits(id, 32);
    assert(digits.subrange(0, 32) =~= digits);
    assert(id >> 0 == id) by (bit_vector);
}

/// An identifier written in the hyphenated form is read back as itself:
/// no two identifiers share a text, and the text of one is never refused.
pub proof fn lemma_hyphenated_read_back(id: u128)
    ensures
        hyphenated(id).len() == 36,
        parsed(hyphenated(id)) == Some(id),
{
    let text = hyphenated(id);
    let digits = simple_text(id);
    assert(text.subrange(0, 8) + text.subrange(9, 13) + text.subrange(14, 18) + text.subrange(
        19,
        23,
    ) + text.subrange(24, 36) =~= digits);
    lemma_simple_text_read_back(id);
}

/// An identifier made at a later millisecond is the greater number: sorting
/// identifiers sorts them by the time they carry.
pub proof fn lemma_later_sorts_after(earlier: u128, later: u128)
    requires
        created_millis(earlier) < created_millis(later),
    ensures
        earlier < later,
{
    assert(earlier >> 80 < later >> 80 ==> earlier < later) by (bit_vector);
}

/// Calls `uuid::Uuid::now_v7` and hands the identifier on as a number, most
/// significant byte first. The identifier depends on the clock and on random
/// bits; claimed of every outcome is only its layout, with version 7 and the
/// variant bits `10`.
#[verifier::external_body]
pub(crate) fn fresh() -> (id: u128)
    ensures
        has_v7_layout(id),
{
    Uuid::now_v7().as_u128()
}

/// Calls `encode_lower` on `uuid::Uuid::hyphenated` of the identifier, as the
/// crate does when it writes an identifier for a human-readable format. The
/// result is claimed to be the 36 characters of [`hyphenated`].
#[verifier::external_body]
pub(crate) fn write_hyphenated(id: u128) -> (text: String)
    ensures
        text@ == hyphenated(id),
{
    let mut buffer = Uuid::encode_buffer();
    let text: &str = Uuid::from_u128(id).hyphenated().encode_lower(&mut buffer);
    text.to_owned()
}

/// Calls `uuid::Uuid::parse_str`. The result is claimed to be the
/// identifier that [`parsed`] gives for the text, and nothing where the
/// crate reports an error.
#[verifier::external_body]
pub(crate) fn read_any_form(text: &str) -> (id: Option<u128>)
    ensures
        id == parsed(text@),
{
    match Uuid::parse_str(text) {
        Ok(uuid) => Some(uuid.as_u128()),
        Err(_) => None,
    }
}

} // verus!

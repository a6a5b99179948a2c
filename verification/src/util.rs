//! Hashing helpers.

use hex::ToHex;
use md5::{Digest, Md5};
use vstd::prelude::*;
use vstd::string::StringExecFns;
use vstd::utf8::{
    is_char_boundary, is_char_boundary_iff_not_is_continuation_byte, length_of_first_scalar,
    pop_first_scalar, valid_utf8,
};

verus! {

/// The MD5 digest of `data`.
pub uninterp spec fn md5_of(data: Seq<u8>) -> Seq<u8>;

/// The lower-case hexadecimal digit for a value below 16.
pub open spec fn hex_digit(nibble: int) -> char {
    if nibble < 10 {
        (48 + nibble) as char
    } else {
        (87 + nibble) as char
    }
}

/// The lower-case hexadecimal text of `data`: two digits for each byte, the high half
/// first.
pub open spec fn hex_lower(data: Seq<u8>) -> Seq<char> {
    Seq::new(
        2 * data.len(),
        |i: int|
            if i % 2 == 0 {
                hex_digit(data[i / 2] as int / 16)
            } else {
                hex_digit(data[i / 2] as int % 16)
            },
    )
}

/// The lower-case hexadecimal text of the MD5 digest of `data`.
pub open spec fn spec_md5_hex(data: Seq<u8>) -> Seq<char> {
    hex_lower(md5_of(data))
}

/// Feeds `data` to a fresh `md5::Md5` through `Digest::new`, `Digest::update` and
/// `Digest::finalize`. The contract claims that the outcome is the MD5 digest of the data,
/// which has 16 bytes.
#[verifier::external_body]
fn md5_digest(data: &[u8]) -> (digest: Vec<u8>)
    ensures
        digest@ == md5_of(data@),
        digest@.len() == 16,
{
    let mut hasher = Md5::new();
    hasher.update(data);
    hasher.finalize().to_vec()
}

/// Calls `hex::ToHex::encode_hex`, which writes each byte as two lower-case hexadecimal
/// digits, the high half first.
#[verifier::external_body]
fn hex_encode(data: &[u8]) -> (text: String)
    ensures
        text@ == hex_lower(data@),
{
    data.encode_hex()
}

/// Whether the character is a lower-case hexadecimal digit.
pub open spec fn is_lower_hex(c: char) -> bool {
    (48 <= c as u32 <= 57) || (97 <= c as u32 <= 102)
}

/// Whether the text is made of lower-case hexadecimal digits.
pub open spec fn all_lower_hex(text: Seq<char>) -> bool {
    forall|i: int| 0 <= i < text.len() ==> is_lower_hex(#[trigger] text[i])
}

/// Hexadecimal text has two characters for each byte, and all of them are lower-case
/// hexadecimal digits.
pub proof fn lemma_hex_lower(data: Seq<u8>)
    ensures
        hex_lower(data).len() == 2 * data.len(),
        all_lower_hex(hex_lower(data)),
{
    assert forall|i: int| 0 <= i < hex_lower(data).len() implies is_lower_hex(
        #[trigger] hex_lower(data)[i],
    ) by {
        let byte = data[i / 2] as int;
        let nibble = if i % 2 == 0 {
            byte / 16
        } else {
            byte % 16
        };
        assert(0 <= nibble < 16);
        assert(hex_lower(data)[i] == hex_digit(nibble));
        if nibble < 10 {
            assert(((48 + nibble) as char) as u32 == 48 + nibble);
        } else {
            assert(((87 + nibble) as char) as u32 == 87 + nibble);
        }
    }
}

/// The MD5 digest of `data` as 32 lower-case hexadecimal digits.
pub fn md5_hex(data: &[u8]) -> (text: String)
    ensures
        text@ == spec_md5_hex(data@),
        text@.len() == 32,
        all_lower_hex(text@),
{
    let digest = md5_digest(data);
    proof {
        lemma_hex_lower(digest@);
    }
    hex_encode(digest.as_slice())
}

/// Whether `needle` stands in `haystack` at index `at`.
pub open spec fn occurs_at(haystack: Seq<u8>, needle: Seq<u8>, at: int) -> bool {
    &&& 0 <= at
    &&& at + needle.len() <= haystack.len()
    &&& haystack.subrange(at, at + needle.len()) == needle
}

/// Whether `at` is the first index at which `needle` stands in `haystack`.
pub open spec fn first_occurrence(haystack: Seq<u8>, needle: Seq<u8>, at: int) -> bool {
    &&& occurs_at(haystack, needle, at)
    &&& forall|earlier: int| 0 <= earlier < at ==> !occurs_at(haystack, needle, earlier)
}

/// The first index at which `needle` stands in `haystack`, if it stands anywhere.
pub open spec fn first_index_of(haystack: Seq<u8>, needle: Seq<u8>) -> Option<int> {
    if exists|at: int| first_occurrence(haystack, needle, at) {
        Some(choose|at: int| first_occurrence(haystack, needle, at))
    } else {
        None
    }
}

/// There is one first occurrence at most.
pub proof fn lemma_first_occurrence_unique(haystack: Seq<u8>, needle: Seq<u8>, a: int, b: int)
    requires
        first_occurrence(haystack, needle, a),
        first_occurrence(haystack, needle, b),
    ensures
        a == b,
{
}

/// In valid UTF-8 a character begins right behind every ASCII character.
pub proof fn lemma_boundary_after_ascii(bytes: Seq<u8>, at: int)
    requires
        valid_utf8(bytes),
        0 <= at < bytes.len(),
        is_char_boundary(bytes, at),
        bytes[at] < 0x80,
    ensures
        is_char_boundary(bytes, at + 1),
    decreases at,
{
    reveal_with_fuel(is_char_boundary, 2);
    reveal_with_fuel(valid_utf8, 2);
    if at > 0 {
        let rest = pop_first_scalar(bytes);
        let width = length_of_first_scalar(bytes);
        assert(at >= width) by {
            if at < width {
                is_char_boundary_iff_not_is_continuation_byte(bytes, at);
            }
        }
        assert(is_char_boundary(rest, at - width));
        assert(rest[at - width] == bytes[at]);
        lemma_boundary_after_ascii(rest, at - width);
    }
}

/// In valid UTF-8 a character begins at every ASCII character.
pub proof fn lemma_boundary_at_ascii(bytes: Seq<u8>, at: int)
    requires
        valid_utf8(bytes),
        0 <= at < bytes.len(),
        bytes[at] < 0x80,
    ensures
        is_char_boundary(bytes, at),
{
    is_char_boundary_iff_not_is_continuation_byte(bytes, at);
}

/// Whether the byte is a decimal digit.
pub open spec fn is_digit(byte: u8) -> bool {
    0x30 <= byte <= 0x39
}

/// The number that decimal digits stand for.
pub open spec fn decimal_value(digits: Seq<u8>) -> nat
    decreases digits.len(),
{
    if digits.len() == 0 {
        0
    } else {
        decimal_value(digits.drop_last()) * 10 + (digits.last() - 0x30) as nat
    }
}

/// The digits of a decimal number that may begin with a plus sign.
pub open spec fn unsigned_digits(text: Seq<u8>) -> Seq<u8> {
    if text.len() > 0 && text[0] == 0x2b {
        text.drop_first()
    } else {
        text
    }
}

/// The number that `text` stands for: one digit at least, with a plus sign ahead of them or
/// without, and no more than fits. Anything else stands for no number.
pub open spec fn spec_parse_u64(text: Seq<u8>) -> Option<u64> {
    let digits = unsigned_digits(text);
    if digits.len() > 0 && (forall|i: int| 0 <= i < digits.len() ==> is_digit(digits[i]))
        && decimal_value(digits) <= u64::MAX {
        Some(decimal_value(digits) as u64)
    } else {
        None
    }
}

/// More digits do not stand for less.
proof fn lemma_decimal_value_grows(digits: Seq<u8>, shorter: int)
    requires
        0 <= shorter <= digits.len(),
        forall|i: int| 0 <= i < digits.len() ==> is_digit(digits[i]),
    ensures
        decimal_value(digits.subrange(0, shorter)) <= decimal_value(digits),
    decreases digits.len() - shorter,
{
    if shorter < digits.len() {
        let longer = digits.subrange(0, shorter + 1);
        assert(longer.drop_last() =~= digits.subrange(0, shorter));
        lemma_decimal_value_grows(digits, shorter + 1);
    } else {
        assert(digits.subrange(0, shorter) =~= digits);
    }
}

/// Reads a decimal number.
pub fn parse_u64(text: &[u8]) -> (number: Option<u64>)
    ensures
        number == spec_parse_u64(text@),
{
    let start: usize = if text.len() > 0 && text[0] == 0x2b {
        1
    } else {
        0
    };
    let ghost digits = unsigned_digits(text@);
    assert(digits =~= text@.subrange(start as int, text@.len() as int));
    if start == text.len() {
        return None;
    }
    let mut value: u64 = 0;
    let mut i: usize = start;
    while i < text.len()
        invariant
            start <= i <= text.len(),
            digits == unsigned_digits(text@),
            digits == text@.subrange(start as int, text@.len() as int),
            forall|j: int| 0 <= j < i - start ==> is_digit(digits[j]),
            value == decimal_value(digits.subrange(0, i - start)),
        decreases text.len() - i,
    {
        let byte = text[i];
        if !(0x30 <= byte && byte <= 0x39) {
            assert(!is_digit(digits[i - start]));
            return None;
        }
        let digit: u64 = (byte - 0x30) as u64;
        let ghost longer = digits.subrange(0, i - start + 1);
        assert(longer.drop_last() =~= digits.subrange(0, i - start));
        assert(longer.last() == byte);
        if value > (u64::MAX - digit) / 10 {
            proof {
                assert(decimal_value(longer) == value * 10 + digit);
                assert(decimal_value(longer) > u64::MAX);
                if forall|j: int| 0 <= j < digits.len() ==> is_digit(digits[j]) {
                    lemma_decimal_value_grows(digits, i - start + 1);
                }
            }
            return None;
        }
        value = value * 10 + digit;
        i += 1;
    }
    assert(digits.subrange(0, i - start) =~= digits);
    Some(value)
}

/// The decimal digits of `value`, without leading zeros.
pub open spec fn spec_decimal(value: nat) -> Seq<char>
    decreases value,
{
    if value < 10 {
        seq![(48 + value) as char]
    } else {
        spec_decimal(value / 10).push((48 + value % 10) as char)
    }
}

/// Writes a number out in decimal digits.
pub fn decimal(value: u64) -> (text: String)
    ensures
        text@ == spec_decimal(value as nat),
{
    // the digits come out lowest first, and a number of 64 bits has twenty at most
    let mut digits: Vec<u8> = Vec::new();
    let mut rest: u64 = value;
    while rest >= 10
        invariant
            forall|i: int| 0 <= i < digits.len() ==> digits[i] < 10,
            spec_decimal(value as nat) == spec_decimal(rest as nat) + Seq::new(
                digits.len() as nat,
                |i: int| (48 + digits[digits.len() - 1 - i]) as char,
            ),
        decreases rest,
    {
        let ghost before = digits@;
        digits.push((rest % 10) as u8);
        assert(spec_decimal(rest as nat) == spec_decimal((rest / 10) as nat).push(
            (48 + rest % 10) as char,
        ));
        assert(spec_decimal((rest / 10) as nat).push((48 + rest % 10) as char) + Seq::new(
            before.len() as nat,
            |i: int| (48 + before[before.len() - 1 - i]) as char,
        ) =~= spec_decimal((rest / 10) as nat) + Seq::new(
            digits.len() as nat,
            |i: int| (48 + digits[digits.len() - 1 - i]) as char,
        ));
        rest = rest / 10;
    }
    let mut text = String::new();
    string_push(&mut text, (48 + rest as u8) as char);
    let count = digits.len();
    let mut i: usize = 0;
    while i < count
        invariant
            0 <= i <= count,
            count == digits.len(),
            rest < 10,
            forall|j: int| 0 <= j < digits.len() ==> digits[j] < 10,
            text@ == spec_decimal(rest as nat) + Seq::new(
                i as nat,
                |j: int| (48 + digits[digits.len() - 1 - j]) as char,
            ),
        decreases count - i,
    {
        let ghost before = text@;
        string_push(&mut text, (48 + digits[count - 1 - i]) as char);
        i += 1;
        assert(text@ =~= spec_decimal(rest as nat) + Seq::new(
            i as nat,
            |j: int| (48 + digits[digits.len() - 1 - j]) as char,
        ));
    }
    text
}

/// The digit of `value` at hexadecimal place `place`, counted from the lowest.
pub open spec fn hex_place(value: u32, place: int) -> int {
    if place == 0 {
        value as int % 16
    } else if place == 1 {
        value as int / 0x10 % 16
    } else if place == 2 {
        value as int / 0x100 % 16
    } else if place == 3 {
        value as int / 0x1000 % 16
    } else if place == 4 {
        value as int / 0x1_0000 % 16
    } else if place == 5 {
        value as int / 0x10_0000 % 16
    } else if place == 6 {
        value as int / 0x100_0000 % 16
    } else {
        value as int / 0x1000_0000 % 16
    }
}

/// The eight lower-case hexadecimal digits of `value`, the highest first.
pub open spec fn spec_hex_u32(value: u32) -> Seq<char> {
    Seq::new(8, |i: int| hex_digit(hex_place(value, 7 - i)))
}

/// The lower-case hexadecimal digit for a value below 16.
fn hex_char(nibble: u32) -> (digit: char)
    requires
        nibble < 16,
    ensures
        digit == hex_digit(nibble as int),
{
    let code: u8 = if nibble < 10 {
        (48 + nibble) as u8
    } else {
        (87 + nibble) as u8
    };
    code as char
}

/// Writes a number out as eight lower-case hexadecimal digits.
pub fn hex_u32(value: u32) -> (text: String)
    ensures
        text@ == spec_hex_u32(value),
{
    let mut text = String::new();
    string_push(&mut text, hex_char(value / 0x1000_0000 % 16));
    string_push(&mut text, hex_char(value / 0x100_0000 % 16));
    string_push(&mut text, hex_char(value / 0x10_0000 % 16));
    string_push(&mut text, hex_char(value / 0x1_0000 % 16));
    string_push(&mut text, hex_char(value / 0x1000 % 16));
    string_push(&mut text, hex_char(value / 0x100 % 16));
    string_push(&mut text, hex_char(value / 0x10 % 16));
    string_push(&mut text, hex_char(value % 16));
    assert(text@ =~= spec_hex_u32(value));
    text
}

/// The sixteen lower-case hexadecimal digits of `value`, the highest first.
pub open spec fn spec_hex_u64(value: u64) -> Seq<char> {
    spec_hex_u32((value / 0x1_0000_0000) as u32) + spec_hex_u32((value % 0x1_0000_0000) as u32)
}

/// Writes a number out as sixteen lower-case hexadecimal digits.
pub fn hex_u64(value: u64) -> (text: String)
    ensures
        text@ == spec_hex_u64(value),
{
    let mut text = hex_u32((value / 0x1_0000_0000) as u32);
    let low = hex_u32((value % 0x1_0000_0000) as u32);
    text.append(low.as_str());
    text
}

/// The text whose characters are the bytes given, each taken as the code of a character.
pub open spec fn spec_ascii_string(bytes: Seq<u8>) -> Seq<char> {
    Seq::new(bytes.len(), |i: int| bytes[i] as char)
}

/// Calls `String::push`, which appends the character to the end of the string.
#[verifier::external_body]
fn string_push(text: &mut String, c: char)
    ensures
        final(text)@ == old(text)@.push(c),
{
    text.push(c)
}

/// What bytes read as UTF-8 text, with the replacement character for every stretch that is
/// no UTF-8.
pub uninterp spec fn utf8_lossy(bytes: Seq<u8>) -> Seq<char>;

/// Calls `String::from_utf8_lossy`, which reads bytes as UTF-8 text and puts the
/// replacement character for what is none, and `Cow::into_owned` on the result. The
/// contract claims that the outcome is a function of the bytes.
#[verifier::external_body]
pub(crate) fn string_from_utf8_lossy(bytes: &[u8]) -> (text: String)
    ensures
        text@ == utf8_lossy(bytes@),
{
    String::from_utf8_lossy(bytes).into_owned()
}

/// Writes bytes out as text, each byte as the character with that code.
pub fn ascii_string(bytes: &[u8]) -> (text: String)
    ensures
        text@ == spec_ascii_string(bytes@),
{
    let mut text = String::new();
    let mut i: usize = 0;
    while i < bytes.len()
        invariant
            0 <= i <= bytes.len(),
            text@ == spec_ascii_string(bytes@.subrange(0, i as int)),
        decreases bytes.len() - i,
    {
        string_push(&mut text, bytes[i] as char);
        i += 1;
        assert(text@ =~= spec_ascii_string(bytes@.subrange(0, i as int)));
    }
    assert(bytes@.subrange(0, i as int) =~= bytes@);
    text
}

} // verus!

//! The small grammar that lamp messages are written in: unsigned numerals,
//! comma-separated fields and names, all read from bytes.

use vstd::prelude::*;
use vstd::slice::slice_subrange;
use vstd::utf8::encode_utf8;
use vstd::utf8::encode_utf8_decode_utf8;

verus! {

/// The byte of `+`.
pub const PLUS: u8 = 0x2b;

/// The byte of `,`.
pub const COMMA: u8 = 0x2c;

/// The byte of `#`.
pub const HASH: u8 = 0x23;

/// What a byte counts for as a digit: `0` to `9`, then the letters of either
/// case from ten upwards.
pub open spec fn digit_value(byte: u8) -> Option<int> {
    if 0x30 <= byte <= 0x39 {
        Some(byte - 0x30)
    } else if 0x41 <= byte <= 0x5a {
        Some(byte - 0x41 + 10)
    } else if 0x61 <= byte <= 0x7a {
        Some(byte - 0x61 + 10)
    } else {
        None
    }
}

/// Whether a byte is a digit to the given radix.
pub open spec fn is_digit(byte: u8, radix: int) -> bool {
    digit_value(byte) matches Some(value) && value < radix
}

/// Whether a text is made of at least one digit and of nothing else.
pub open spec fn is_numeral(digits: Seq<u8>, radix: int) -> bool {
    &&& digits.len() > 0
    &&& forall|i: int| 0 <= i < digits.len() ==> #[trigger] is_digit(digits[i], radix)
}

/// The number that a row of digits denotes, most significant digit first.
pub open spec fn numeral_value(digits: Seq<u8>, radix: int) -> int
    decreases digits.len(),
{
    if digits.len() == 0 {
        0
    } else {
        numeral_value(digits.drop_last(), radix) * radix + digit_value(digits.last())->0
    }
}

/// A text without its plus sign, if it starts with one.
pub open spec fn without_plus(text: Seq<u8>) -> Seq<u8> {
    if text.len() > 0 && text[0] == PLUS {
        text.skip(1)
    } else {
        text
    }
}

/// The number that a text denotes: an optional plus sign, then digits, worth at
/// most `max` together. Any other text denotes none.
pub open spec fn unsigned_value(text: Seq<u8>, radix: int, max: int) -> Option<int> {
    let digits = without_plus(text);
    if is_numeral(digits, radix) && numeral_value(digits, radix) <= max {
        Some(numeral_value(digits, radix))
    } else {
        None
    }
}

/// The byte that a text denotes to the given radix.
pub open spec fn u8_value(text: Seq<u8>, radix: int) -> Option<u8> {
    match unsigned_value(text, radix, 255) {
        Some(value) => Some(value as u8),
        None => None,
    }
}

/// The 16-bit number that a text denotes in decimal.
pub open spec fn u16_value(text: Seq<u8>) -> Option<u16> {
    match unsigned_value(text, 10, 65535) {
        Some(value) => Some(value as u16),
        None => None,
    }
}

/// The fields of a text: what stands before, between and after its separators.
/// A text without a separator is one field.
pub open spec fn fields(text: Seq<u8>, separator: u8) -> Seq<Seq<u8>>
    decreases text.len(),
{
    match first_index(text, separator) {
        Some(i) => if 0 <= i < text.len() {
            seq![text.take(i)] + fields(text.skip(i + 1), separator)
        } else {
            seq![text]
        },
        None => seq![text],
    }
}

/// Where a byte first occurs in a text.
pub open spec fn first_index(text: Seq<u8>, byte: u8) -> Option<int>
    decreases text.len(),
{
    if text.len() == 0 {
        None
    } else if text[0] == byte {
        Some(0)
    } else {
        match first_index(text.skip(1), byte) {
            Some(i) => Some(i + 1),
            None => None,
        }
    }
}

/// A text without the run of the given byte that it starts with.
pub open spec fn trimmed_start(text: Seq<u8>, byte: u8) -> Seq<u8>
    decreases text.len(),
{
    if text.len() > 0 && text[0] == byte {
        trimmed_start(text.skip(1), byte)
    } else {
        text
    }
}

/// Three decimal bytes, one in each of the first three fields. Fields after the
/// third do not count.
pub open spec fn byte_triple(text: Seq<u8>) -> Option<(u8, u8, u8)> {
    let parts = fields(text, COMMA);
    if parts.len() >= 3 {
        match (u8_value(parts[0], 10), u8_value(parts[1], 10), u8_value(parts[2], 10)) {
            (Some(first), Some(second), Some(third)) => Some((first, second, third)),
            _ => None,
        }
    } else {
        None
    }
}

/// A color as three pairs of hexadecimal digits, behind any number of `#`. A pair
/// may also be a plus sign and one digit.
pub open spec fn hex_triple(text: Seq<u8>) -> Option<(u8, u8, u8)> {
    let hex = trimmed_start(text, HASH);
    if hex.len() == 6 {
        match (
            u8_value(hex.subrange(0, 2), 16),
            u8_value(hex.subrange(2, 4), 16),
            u8_value(hex.subrange(4, 6), 16),
        ) {
            (Some(first), Some(second), Some(third)) => Some((first, second, third)),
            _ => None,
        }
    } else {
        None
    }
}

/// The digits of a prefix are worth no more than those of the whole.
proof fn lemma_numeral_prefix(digits: Seq<u8>, radix: int, n: int)
    requires
        0 <= n <= digits.len(),
        radix >= 1,
        forall|i: int| 0 <= i < digits.len() ==> #[trigger] is_digit(digits[i], radix),
    ensures
        0 <= numeral_value(digits.take(n), radix) <= numeral_value(digits, radix),
    decreases digits.len(),
{
    if digits.len() == 0 {
        assert(digits.take(n) =~= digits);
    } else {
        let shorter = digits.drop_last();
        let last = digit_value(digits.last())->0;
        assert(is_digit(digits[digits.len() - 1], radix));
        assert forall|i: int| 0 <= i < shorter.len() implies #[trigger] is_digit(
            shorter[i],
            radix,
        ) by {
            assert(is_digit(digits[i], radix));
        }
        lemma_numeral_prefix(shorter, radix, 0);
        let value = numeral_value(shorter, radix);
        assert(value <= value * radix) by (nonlinear_arith)
            requires
                value >= 0,
                radix >= 1,
        ;
        assert(shorter.take(0) =~= Seq::<u8>::empty());
        if n == digits.len() {
            assert(digits.take(n) =~= digits);
        } else {
            lemma_numeral_prefix(shorter, radix, n);
            assert(shorter.take(n) =~= digits.take(n));
        }
    }
}

fn digit(byte: u8) -> (value: Option<u32>)
    ensures
        value is Some <==> digit_value(byte) is Some,
        value matches Some(v) ==> digit_value(byte) == Some(v as int) && v < 36,
{
    if 0x30 <= byte && byte <= 0x39 {
        Some((byte - 0x30) as u32)
    } else if 0x41 <= byte && byte <= 0x5a {
        Some((byte - 0x41 + 10) as u32)
    } else if 0x61 <= byte && byte <= 0x7a {
        Some((byte - 0x61 + 10) as u32)
    } else {
        None
    }
}

/// Reads an unsigned number of at most `max` to the given radix.
pub fn parse_unsigned(text: &[u8], radix: u32, max: u32) -> (number: Option<u32>)
    requires
        2 <= radix <= 36,
    ensures
        match number {
            Some(value) => unsigned_value(text@, radix as int, max as int) == Some(value as int),
            None => unsigned_value(text@, radix as int, max as int) is None,
        },
{
    let digits: &[u8] = if text.len() > 0 && text[0] == PLUS {
        slice_subrange(text, 1, text.len())
    } else {
        text
    };
    assert(digits@ =~= without_plus(text@));
    if digits.len() == 0 {
        return None;
    }
    let mut value: u64 = 0;
    let mut i: usize = 0;
    while i < digits.len()
        invariant
            2 <= radix <= 36,
            digits@ == without_plus(text@),
            0 <= i <= digits@.len(),
            value <= max,
            forall|j: int| 0 <= j < i ==> #[trigger] is_digit(digits@[j], radix as int),
            value == numeral_value(digits@.take(i as int), radix as int),
        decreases digits@.len() - i,
    {
        let byte = digits[i];
        match digit(byte) {
            Some(d) => if d < radix {
                assert(value * radix + d <= u32::MAX * 36 + 36) by (nonlinear_arith)
                    requires
                        value <= u32::MAX,
                        radix <= 36,
                        d <= 36,
                ;
                let ghost before = digits@.take(i as int);
                let ghost through = digits@.take(i + 1);
                assert(through.drop_last() =~= before);
                assert(through.last() == byte);
                value = value * (radix as u64) + (d as u64);
                assert(is_digit(digits@[i as int], radix as int));
                if value > max as u64 {
                    proof {
                        if is_numeral(digits@, radix as int) {
                            lemma_numeral_prefix(digits@, radix as int, i + 1);
                        }
                    }
                    return None;
                }
            } else {
                assert(!is_digit(digits@[i as int], radix as int));
                return None;
            },
            None => {
                assert(!is_digit(digits@[i as int], radix as int));
                return None;
            },
        }
        i += 1;
    }
    assert(digits@.take(i as int) =~= digits@);
    Some(value as u32)
}

/// Reads a byte to the given radix.
pub fn parse_u8(text: &[u8], radix: u32) -> (number: Option<u8>)
    requires
        2 <= radix <= 36,
    ensures
        number == u8_value(text@, radix as int),
{
    match parse_unsigned(text, radix, 255) {
        Some(value) => Some(value as u8),
        None => None,
    }
}

/// Reads a 16-bit number in decimal.
pub fn parse_u16(text: &[u8]) -> (number: Option<u16>)
    ensures
        number == u16_value(text@),
{
    match parse_unsigned(text, 10, 65535) {
        Some(value) => Some(value as u16),
        None => None,
    }
}

/// What `first_index` says, index by index.
pub(crate) proof fn lemma_first_index(text: Seq<u8>, byte: u8)
    ensures
        match first_index(text, byte) {
            Some(i) => {
                &&& 0 <= i < text.len()
                &&& text[i] == byte
                &&& forall|j: int| 0 <= j < i ==> text[j] != byte
            },
            None => forall|j: int| 0 <= j < text.len() ==> text[j] != byte,
        },
    decreases text.len(),
{
    if text.len() > 0 && text[0] != byte {
        let rest = text.skip(1);
        lemma_first_index(rest, byte);
        match first_index(rest, byte) {
            Some(i) => {
                assert forall|j: int| 0 <= j < i + 1 implies text[j] != byte by {
                    if j > 0 {
                        assert(rest[j - 1] != byte);
                    }
                }
            },
            None => {
                assert forall|j: int| 0 <= j < text.len() implies text[j] != byte by {
                    if j > 0 {
                        assert(rest[j - 1] != byte);
                    }
                }
            },
        }
    }
}

fn find(text: &[u8], byte: u8) -> (index: Option<usize>)
    ensures
        match index {
            Some(i) => first_index(text@, byte) == Some(i as int) && i < text.len(),
            None => first_index(text@, byte) is None,
        },
{
    proof {
        lemma_first_index(text@, byte);
    }
    let mut i: usize = 0;
    while i < text.len()
        invariant
            0 <= i <= text@.len(),
            forall|j: int| 0 <= j < i ==> text@[j] != byte,
            match first_index(text@, byte) {
                Some(k) => {
                    &&& 0 <= k < text@.len()
                    &&& text@[k] == byte
                    &&& forall|j: int| 0 <= j < k ==> text@[j] != byte
                },
                None => forall|j: int| 0 <= j < text@.len() ==> text@[j] != byte,
            },
        decreases text@.len() - i,
    {
        if text[i] == byte {
            return Some(i);
        }
        i += 1;
    }
    None
}

/// Reads the first three fields as decimal bytes.
pub fn parse_byte_triple(text: &[u8]) -> (triple: Option<(u8, u8, u8)>)
    ensures
        triple == byte_triple(text@),
{
    reveal_with_fuel(fields, 4);
    let i = match find(text, COMMA) {
        Some(i) => i,
        None => {
            return None;
        },
    };
    let first = slice_subrange(text, 0, i);
    let rest = slice_subrange(text, i + 1, text.len());
    assert(first@ =~= text@.take(i as int));
    assert(rest@ =~= text@.skip(i + 1));
    let j = match find(rest, COMMA) {
        Some(j) => j,
        None => {
            return None;
        },
    };
    let second = slice_subrange(rest, 0, j);
    let tail = slice_subrange(rest, j + 1, rest.len());
    assert(second@ =~= rest@.take(j as int));
    assert(tail@ =~= rest@.skip(j + 1));
    let third = match find(tail, COMMA) {
        Some(k) => slice_subrange(tail, 0, k),
        None => tail,
    };
    let ghost parts = fields(text@, COMMA);
    assert(parts[0] == first@);
    assert(parts[1] == second@);
    assert(fields(tail@, COMMA).len() >= 1);
    assert(fields(tail@, COMMA)[0] =~= third@);
    assert(parts[2] == third@);
    match (parse_u8(first, 10), parse_u8(second, 10), parse_u8(third, 10)) {
        (Some(a), Some(b), Some(c)) => Some((a, b, c)),
        _ => None,
    }
}

/// Drops the run of the given byte that a text starts with.
pub fn trim_start(text: &[u8], byte: u8) -> (rest: &[u8])
    ensures
        rest@ == trimmed_start(text@, byte),
{
    let mut i: usize = 0;
    assert(text@.skip(0) =~= text@);
    while i < text.len() && text[i] == byte
        invariant
            0 <= i <= text@.len(),
            trimmed_start(text@.skip(i as int), byte) == trimmed_start(text@, byte),
        decreases text@.len() - i,
    {
        assert(text@.skip(i as int).skip(1) =~= text@.skip(i + 1));
        i += 1;
    }
    let rest = slice_subrange(text, i, text.len());
    assert(rest@ =~= text@.skip(i as int));
    rest
}

/// Reads a color written in hexadecimal.
pub fn parse_hex_triple(text: &[u8]) -> (triple: Option<(u8, u8, u8)>)
    ensures
        triple == hex_triple(text@),
{
    let hex = trim_start(text, HASH);
    if hex.len() != 6 {
        return None;
    }
    let red = parse_u8(slice_subrange(hex, 0, 2), 16);
    let green = parse_u8(slice_subrange(hex, 2, 4), 16);
    let blue = parse_u8(slice_subrange(hex, 4, 6), 16);
    match (red, green, blue) {
        (Some(a), Some(b), Some(c)) => Some((a, b, c)),
        _ => None,
    }
}

/// Whether two texts are the same.
pub fn same_text(left: &str, right: &str) -> (same: bool)
    ensures
        same == (left@ == right@),
{
    let a = left.as_bytes();
    let b = right.as_bytes();
    proof {
        encode_utf8_decode_utf8(left@);
        encode_utf8_decode_utf8(right@);
    }
    if a.len() != b.len() {
        return false;
    }
    let mut i: usize = 0;
    while i < a.len()
        invariant
            a@ == encode_utf8(left@),
            b@ == encode_utf8(right@),
            a@.len() == b@.len(),
            0 <= i <= a@.len(),
            forall|j: int| 0 <= j < i ==> a@[j] == b@[j],
        decreases a@.len() - i,
    {
        if a[i] != b[i] {
            return false;
        }
        i += 1;
    }
    assert(a@ =~= b@);
    true
}

} // verus!

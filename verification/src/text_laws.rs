//! What holds of the message grammar: every number can be written so that it is read
//! back, and what surrounds a value does not change it.

use vstd::prelude::*;
use vstd::utf8::is_leading_byte_width_1;
use vstd::utf8::partial_valid_utf8;
use vstd::utf8::partial_valid_utf8_extend_ascii_block;
use vstd::utf8::valid_utf8;

use crate::text::byte_triple;
use crate::text::digit_value;
use crate::text::fields;
use crate::text::first_index;
use crate::text::hex_triple;
use crate::text::is_digit;
use crate::text::is_numeral;
use crate::text::lemma_first_index;
use crate::text::numeral_value;
use crate::text::trimmed_start;
use crate::text::u16_value;
use crate::text::u8_value;
use crate::text::unsigned_value;
use crate::text::without_plus;
use crate::text::COMMA;
use crate::text::HASH;
use crate::text::PLUS;

verus! {

/// The byte that stands for a digit.
pub open spec fn digit_byte(digit: int) -> u8 {
    if digit < 10 {
        (0x30 + digit) as u8
    } else {
        (0x61 + digit - 10) as u8
    }
}

/// The digits of a number, without leading zeros.
pub open spec fn numeral(number: int, radix: int) -> Seq<u8>
    decreases number,
{
    if radix < 2 || number < radix {
        seq![digit_byte(number)]
    } else {
        proof {
            assert(0 <= number / radix < number) by (nonlinear_arith)
                requires
                    number >= radix >= 2,
            ;
        }
        numeral(number / radix, radix).push(digit_byte(number % radix))
    }
}

/// A byte as two hexadecimal digits.
pub open spec fn hex_pair(byte: u8) -> Seq<u8> {
    seq![digit_byte(byte as int / 16), digit_byte(byte as int % 16)]
}

/// Three bytes in decimal, separated by commas.
pub open spec fn triple_text(first: u8, second: u8, third: u8) -> Seq<u8> {
    numeral(first as int, 10) + seq![COMMA] + (numeral(second as int, 10) + seq![COMMA] + numeral(
        third as int,
        10,
    ))
}

/// A run of `#`.
pub open spec fn hashes(count: nat) -> Seq<u8> {
    Seq::new(count, |i: int| '#' as u8)
}

/// Three bytes in hexadecimal.
pub open spec fn hex_text(first: u8, second: u8, third: u8) -> Seq<u8> {
    hex_pair(first) + hex_pair(second) + hex_pair(third)
}

proof fn lemma_quotient(number: int, radix: int)
    requires
        number >= radix >= 2,
    ensures
        0 <= number / radix < number,
        0 <= number % radix < radix,
        number == (number / radix) * radix + number % radix,
{
    assert(0 <= number / radix < number && 0 <= number % radix < radix && number == (number
        / radix) * radix + number % radix) by (nonlinear_arith)
        requires
            number >= radix >= 2,
    ;
}

proof fn lemma_digit_byte(digit: int, radix: int)
    requires
        0 <= digit < radix <= 36,
    ensures
        digit_value(digit_byte(digit)) == Some(digit),
        is_digit(digit_byte(digit), radix),
{
}

proof fn lemma_numeral(number: int, radix: int)
    requires
        number >= 0,
        2 <= radix <= 36,
    ensures
        is_numeral(numeral(number, radix), radix),
        numeral_value(numeral(number, radix), radix) == number,
    decreases number,
{
    let digits = numeral(number, radix);
    if number < radix {
        lemma_digit_byte(number, radix);
        assert(digits.drop_last() =~= Seq::<u8>::empty());
        assert(numeral_value(digits.drop_last(), radix) == 0);
        assert(0 * radix == 0) by (nonlinear_arith);
    } else {
        lemma_quotient(number, radix);
        lemma_numeral(number / radix, radix);
        lemma_digit_byte(number % radix, radix);
        let shorter = numeral(number / radix, radix);
        assert(digits.drop_last() =~= shorter);
        assert forall|i: int| 0 <= i < digits.len() implies #[trigger] is_digit(
            digits[i],
            radix,
        ) by {
            if i < shorter.len() {
                assert(is_digit(shorter[i], radix));
            }
        }
    }
}

/// Whether a text is all ASCII.
pub open spec fn is_ascii_text(text: Seq<u8>) -> bool {
    forall|i: int| 0 <= i < text.len() ==> #[trigger] text[i] < 0x80
}

/// A text that is all ASCII is UTF-8.
pub proof fn ascii_is_utf8(text: Seq<u8>)
    requires
        is_ascii_text(text),
    ensures
        valid_utf8(text),
{
    let n = text.len() as int;
    assert(text.subrange(0, 0) =~= Seq::<u8>::empty());
    assert(valid_utf8(Seq::<u8>::empty()));
    assert(partial_valid_utf8(text, 0));
    assert forall|i: int| 0 <= i < n implies #[trigger] is_leading_byte_width_1(text[i]) by {
        assert(text[i] < 0x80);
    }
    partial_valid_utf8_extend_ascii_block(text, 0, n);
    assert(text.subrange(0, n) =~= text);
}

proof fn lemma_digits_are_ascii(digits: Seq<u8>, radix: int)
    requires
        is_numeral(digits, radix),
    ensures
        is_ascii_text(digits),
{
    assert forall|i: int| 0 <= i < digits.len() implies #[trigger] digits[i] < 0x80 by {
        assert(is_digit(digits[i], radix));
    }
}

/// A row of digits holds neither a plus sign nor a comma.
proof fn lemma_digits_only(digits: Seq<u8>, radix: int)
    requires
        is_numeral(digits, radix),
    ensures
        without_plus(digits) == digits,
        fields(digits, COMMA) == seq![digits],
{
    assert(is_digit(digits[0], radix));
    lemma_first_index(digits, COMMA);
    if let Some(i) = first_index(digits, COMMA) {
        assert(is_digit(digits[i], radix));
    }
}

/// A number that is written down is read back, if it is not above the limit.
pub proof fn number_is_read_back(number: int, radix: int, max: int)
    requires
        0 <= number <= max,
        2 <= radix <= 36,
    ensures
        unsigned_value(numeral(number, radix), radix, max) == Some(number),
{
    lemma_numeral(number, radix);
    lemma_digits_only(numeral(number, radix), radix);
}

/// A number above the limit is not read.
pub proof fn number_above_limit_is_refused(number: int, radix: int, max: int)
    requires
        0 <= number,
        max < number,
        2 <= radix <= 36,
    ensures
        unsigned_value(numeral(number, radix), radix, max) is None,
{
    lemma_numeral(number, radix);
    lemma_digits_only(numeral(number, radix), radix);
}

/// Every byte and every 16-bit number can be sent in decimal.
pub proof fn decimals_are_read_back(byte: u8, word: u16)
    ensures
        u8_value(numeral(byte as int, 10), 10) == Some(byte),
        u16_value(numeral(word as int, 10)) == Some(word),
        is_ascii_text(numeral(byte as int, 10)),
        is_ascii_text(numeral(word as int, 10)),
{
    lemma_numeral(byte as int, 10);
    lemma_numeral(word as int, 10);
    lemma_digits_are_ascii(numeral(byte as int, 10), 10);
    lemma_digits_are_ascii(numeral(word as int, 10), 10);
    number_is_read_back(byte as int, 10, 255);
    number_is_read_back(word as int, 10, 65535);
}

/// One plus sign in front of a row of digits changes nothing.
pub proof fn plus_sign_changes_nothing(digits: Seq<u8>, radix: int, max: int)
    requires
        is_numeral(digits, radix),
    ensures
        unsigned_value(seq![PLUS] + digits, radix, max) == unsigned_value(digits, radix, max),
{
    lemma_digits_only(digits, radix);
    assert((seq![PLUS] + digits).skip(1) =~= digits);
}

/// The fields of two texts with a separator between them are those of the one, then those
/// of the other.
pub proof fn fields_of_joined_texts(left: Seq<u8>, right: Seq<u8>, separator: u8)
    ensures
        fields(left + seq![separator] + right, separator) == fields(left, separator) + fields(
            right,
            separator,
        ),
    decreases left.len(),
{
    let joined = left + seq![separator] + right;
    lemma_first_index(left, separator);
    lemma_first_index(joined, separator);
    match first_index(left, separator) {
        Some(i) => {
            let k = first_index(joined, separator)->0;
            assert(joined[i] == separator);
            assert(k == i) by {
                if k < i {
                    assert(joined[k] == left[k]);
                }
            }
            assert(joined.take(i) =~= left.take(i));
            assert(joined.skip(i + 1) =~= left.skip(i + 1) + seq![separator] + right);
            fields_of_joined_texts(left.skip(i + 1), right, separator);
            assert(fields(joined, separator) =~= fields(left, separator) + fields(
                right,
                separator,
            ));
        },
        None => {
            let n = left.len() as int;
            assert(joined[n] == separator);
            let k = first_index(joined, separator)->0;
            assert(k == n) by {
                if k < n {
                    assert(joined[k] == left[k]);
                }
            }
            assert(joined.take(n) =~= left);
            assert(joined.skip(n + 1) =~= right);
            assert(fields(joined, separator) =~= seq![left] + fields(right, separator));
        },
    }
}

/// Whatever three bytes are sent in decimal, they are read back.
pub proof fn triple_is_read_back(first: u8, second: u8, third: u8)
    ensures
        byte_triple(triple_text(first, second, third)) == Some((first, second, third)),
        is_ascii_text(triple_text(first, second, third)),
{
    let a = numeral(first as int, 10);
    let b = numeral(second as int, 10);
    let c = numeral(third as int, 10);
    lemma_numeral(first as int, 10);
    lemma_numeral(second as int, 10);
    lemma_numeral(third as int, 10);
    lemma_digits_only(a, 10);
    lemma_digits_only(b, 10);
    lemma_digits_only(c, 10);
    fields_of_joined_texts(b, c, COMMA);
    fields_of_joined_texts(a, b + seq![COMMA] + c, COMMA);
    let parts = fields(triple_text(first, second, third), COMMA);
    assert(parts =~= seq![a, b, c]);
    lemma_digits_are_ascii(a, 10);
    lemma_digits_are_ascii(b, 10);
    lemma_digits_are_ascii(c, 10);
}

/// What follows a third field, behind a comma, changes nothing.
pub proof fn further_fields_change_nothing(text: Seq<u8>, further: Seq<u8>)
    requires
        fields(text, COMMA).len() >= 3,
    ensures
        byte_triple(text + seq![COMMA] + further) == byte_triple(text),
{
    fields_of_joined_texts(text, further, COMMA);
}

proof fn lemma_trimmed_start_of_none(text: Seq<u8>, byte: u8)
    requires
        text.len() > 0,
        text[0] != byte,
    ensures
        trimmed_start(text, byte) == text,
{
}

proof fn lemma_hex_pair(byte: u8)
    ensures
        u8_value(hex_pair(byte), 16) == Some(byte),
        is_ascii_text(hex_pair(byte)),
{
    let pair = hex_pair(byte);
    let high = byte as int / 16;
    let low = byte as int % 16;
    lemma_digit_byte(high, 16);
    lemma_digit_byte(low, 16);
    assert forall|i: int| 0 <= i < pair.len() implies #[trigger] is_digit(pair[i], 16) by {
        if i == 0 {
            assert(pair[i] == digit_byte(high));
        } else {
            assert(pair[i] == digit_byte(low));
        }
    }
    lemma_digits_only(pair, 16);
    lemma_digits_are_ascii(pair, 16);
    let front = pair.drop_last();
    assert(front =~= seq![digit_byte(high)]);
    assert(front.drop_last() =~= Seq::<u8>::empty());
    assert(numeral_value(front.drop_last(), 16) == 0);
    assert(numeral_value(front, 16) == high);
    assert(numeral_value(pair, 16) == high * 16 + low);
}

/// Whatever color is sent in hexadecimal, it is read back.
pub proof fn hex_is_read_back(first: u8, second: u8, third: u8)
    ensures
        hex_triple(hex_text(first, second, third)) == Some((first, second, third)),
        trimmed_start(hex_text(first, second, third), HASH) == hex_text(first, second, third),
        is_ascii_text(hex_text(first, second, third)),
{
    let text = hex_text(first, second, third);
    lemma_hex_pair(first);
    lemma_hex_pair(second);
    lemma_hex_pair(third);
    lemma_digit_byte(first as int / 16, 16);
    assert(text[0] == digit_byte(first as int / 16));
    lemma_trimmed_start_of_none(text, HASH);
    assert(text.subrange(0, 2) =~= hex_pair(first));
    assert(text.subrange(2, 4) =~= hex_pair(second));
    assert(text.subrange(4, 6) =~= hex_pair(third));
}

/// `#` in front of a color in hexadecimal changes nothing, however many there are.
pub proof fn hashes_change_nothing(count: nat, text: Seq<u8>)
    ensures
        trimmed_start(hashes(count) + text, HASH) == trimmed_start(text, HASH),
        hex_triple(hashes(count) + text) == hex_triple(text),
    decreases count,
{
    let whole = hashes(count) + text;
    if count == 0 {
        assert(whole =~= text);
    } else {
        let fewer = (count - 1) as nat;
        assert(whole[0] == HASH);
        assert(whole.skip(1) =~= hashes(fewer) + text);
        hashes_change_nothing(fewer, text);
    }
}

/// What a byte is worth as a digit, letters of either case counting from ten upwards. A byte
/// that is no digit is worth more than any digit.
pub open spec fn digit_spelled(byte: u8) -> int {
    if '0' as u32 <= byte <= '9' as u32 {
        byte - '0' as u32
    } else if 'a' as u32 <= byte <= 'z' as u32 {
        byte - 'a' as u32 + 10
    } else if 'A' as u32 <= byte <= 'Z' as u32 {
        byte - 'A' as u32 + 10
    } else {
        36
    }
}

/// A number is read digit by digit, in letters of either case, behind at most one plus sign.
/// One more digit multiplies what was read by the radix and adds itself; anything else, and
/// anything above the limit, spoils the number for good.
pub proof fn number_is_read_digit_by_digit(text: Seq<u8>, byte: u8, radix: int, max: int)
    requires
        2 <= radix <= 36,
        0 <= max,
    ensures
        unsigned_value(Seq::<u8>::empty(), radix, max) is None,
        unsigned_value(seq!['+' as u8], radix, max) is None,
        ({
            let digit = digit_spelled(byte);
            let whole = unsigned_value(text.push(byte), radix, max);
            if text.len() == 0 || text == seq!['+' as u8] {
                whole == if digit < radix && digit <= max {
                    Some(digit)
                } else {
                    None
                }
            } else {
                match unsigned_value(text, radix, max) {
                    Some(value) => whole == if digit < radix && value * radix + digit <= max {
                        Some(value * radix + digit)
                    } else {
                        None
                    },
                    None => whole is None,
                }
            }
        }),
{
    let digit = digit_spelled(byte);
    let longer = text.push(byte);
    assert(is_digit(byte, radix) <==> digit < radix);
    assert(seq!['+' as u8].skip(1) =~= Seq::<u8>::empty());
    if text.len() == 0 || text == seq!['+' as u8] {
        let digits = without_plus(longer);
        if byte != PLUS || text.len() > 0 {
            assert(digits =~= seq![byte]);
            assert(digits[0] == byte);
            assert(digits.drop_last() =~= Seq::<u8>::empty());
            assert(numeral_value(digits.drop_last(), radix) == 0);
            assert(0 * radix == 0) by (nonlinear_arith);
        } else {
            assert(digits =~= Seq::<u8>::empty());
        }
    } else {
        let front = without_plus(text);
        let digits = without_plus(longer);
        assert(front.len() > 0) by {
            if text[0] == PLUS && text.len() == 1 {
                assert(text =~= seq!['+' as u8]);
            }
        }
        assert(digits =~= front.push(byte));
        assert(digits.drop_last() =~= front);
        assert(digits.last() == byte);
        if is_numeral(digits, radix) {
            assert forall|i: int| 0 <= i < front.len() implies #[trigger] is_digit(
                front[i],
                radix,
            ) by {
                assert(is_digit(digits[i], radix));
            }
            assert(is_digit(digits[front.len() as int], radix));
        }
        if is_numeral(front, radix) {
            if digit < radix {
                assert forall|i: int| 0 <= i < digits.len() implies #[trigger] is_digit(
                    digits[i],
                    radix,
                ) by {
                    if i < front.len() {
                        assert(is_digit(front[i], radix));
                    }
                }
            }
            lemma_numeral_is_not_negative(front, radix);
            let value = numeral_value(front, radix);
            assert(value <= value * radix) by (nonlinear_arith)
                requires
                    value >= 0,
                    radix >= 1,
            ;
        }
    }
}

proof fn lemma_numeral_is_not_negative(digits: Seq<u8>, radix: int)
    requires
        radix >= 2,
        forall|i: int| 0 <= i < digits.len() ==> #[trigger] is_digit(digits[i], radix),
    ensures
        numeral_value(digits, radix) >= 0,
    decreases digits.len(),
{
    if digits.len() > 0 {
        let front = digits.drop_last();
        assert forall|i: int| 0 <= i < front.len() implies #[trigger] is_digit(
            front[i],
            radix,
        ) by {
            assert(is_digit(digits[i], radix));
        }
        lemma_numeral_is_not_negative(front, radix);
        assert(is_digit(digits[digits.len() - 1], radix));
        let value = numeral_value(front, radix);
        assert(value * radix >= 0) by (nonlinear_arith)
            requires
                value >= 0,
                radix >= 2,
        ;
    }
}

/// A byte is a number of at most 255, and a 16-bit number is a decimal one of at most 65535;
/// nothing else bounds them.
pub proof fn widths_are_the_only_limits(text: Seq<u8>, radix: int, byte: u8, word: u16)
    requires
        2 <= radix <= 36,
    ensures
        u8_value(text, radix) == Some(byte) <==> unsigned_value(text, radix, 255) == Some(
            byte as int,
        ),
        u8_value(text, radix) is None <==> unsigned_value(text, radix, 255) is None,
        u16_value(text) == Some(word) <==> unsigned_value(text, 10, 65535) == Some(word as int),
        u16_value(text) is None <==> unsigned_value(text, 10, 65535) is None,
{
    let digits = without_plus(text);
    if is_numeral(digits, radix) {
        lemma_numeral_is_not_negative(digits, radix);
    }
    if is_numeral(digits, 10) {
        lemma_numeral_is_not_negative(digits, 10);
    }
}

/// Whether a byte does not occur in a text.
pub open spec fn is_free_of(text: Seq<u8>, byte: u8) -> bool {
    forall|i: int| 0 <= i < text.len() ==> #[trigger] text[i] != byte
}

/// A text without a separator is one field.
pub proof fn text_without_separator_is_one_field(text: Seq<u8>, separator: u8)
    requires
        is_free_of(text, separator),
    ensures
        fields(text, separator) == seq![text],
{
    lemma_first_index(text, separator);
}

/// Three values are read where there are three numbers between commas, each of them one by one
/// and in their order, whatever follows behind a further comma. With fewer commas none are.
pub proof fn triple_is_three_numbers(a: Seq<u8>, b: Seq<u8>, c: Seq<u8>, further: Seq<u8>)
    requires
        is_free_of(a, ',' as u8),
        is_free_of(b, ',' as u8),
        is_free_of(c, ',' as u8),
    ensures
        byte_triple(a) is None,
        byte_triple(a + seq![',' as u8] + b) is None,
        ({
            let text = a + seq![',' as u8] + (b + seq![',' as u8] + c);
            let triple = byte_triple(text);
            &&& triple is Some <==> u8_value(a, 10) is Some && u8_value(b, 10) is Some && u8_value(
                c,
                10,
            ) is Some
            &&& triple matches Some((first, second, third)) ==> u8_value(a, 10) == Some(first)
                && u8_value(b, 10) == Some(second) && u8_value(c, 10) == Some(third)
            &&& byte_triple(text + seq![',' as u8] + further) == triple
        }),
{
    let comma = ',' as u8;
    assert(comma == COMMA);
    text_without_separator_is_one_field(a, COMMA);
    text_without_separator_is_one_field(b, COMMA);
    text_without_separator_is_one_field(c, COMMA);
    fields_of_joined_texts(a, b, COMMA);
    fields_of_joined_texts(b, c, COMMA);
    let rest = b + seq![COMMA] + c;
    fields_of_joined_texts(a, rest, COMMA);
    let text = a + seq![COMMA] + rest;
    assert(fields(text, COMMA) =~= seq![a, b, c]);
    fields_of_joined_texts(text, further, COMMA);
}

/// Behind any number of `#`, a color in hexadecimal is three pairs, each of them a number, read
/// in their order. Where there are more or fewer than six bytes, there is no color.
pub proof fn hex_color_is_three_pairs(count: nat, hex: Seq<u8>)
    requires
        hex.len() == 0 || hex[0] != '#' as u8,
    ensures
        ({
            let triple = hex_triple(hashes(count) + hex);
            &&& hex.len() != 6 ==> triple is None
            &&& hex.len() == 6 ==> {
                let first = u8_value(seq![hex[0], hex[1]], 16);
                let second = u8_value(seq![hex[2], hex[3]], 16);
                let third = u8_value(seq![hex[4], hex[5]], 16);
                &&& triple is Some <==> first is Some && second is Some && third is Some
                &&& triple matches Some((red, green, blue)) ==> first == Some(red) && second
                    == Some(green) && third == Some(blue)
            }
        }),
{
    hashes_change_nothing(count, hex);
    if hex.len() == 6 {
        assert(hex.subrange(0, 2) =~= seq![hex[0], hex[1]]);
        assert(hex.subrange(2, 4) =~= seq![hex[2], hex[3]]);
        assert(hex.subrange(4, 6) =~= seq![hex[4], hex[5]]);
    }
}

/// A pair of hexadecimal digits, in letters of either case, is sixteen times the first and the
/// second.
pub proof fn pair_of_either_case_is_read(high: u8, low: u8)
    requires
        digit_spelled(high) < 16,
        digit_spelled(low) < 16,
    ensures
        u8_value(seq![high, low], 16) == Some(
            (digit_spelled(high) * 16 + digit_spelled(low)) as u8,
        ),
{
    assert(Seq::<u8>::empty().push(high) =~= seq![high]);
    assert(seq![high].push(low) =~= seq![high, low]);
    number_is_read_digit_by_digit(Seq::<u8>::empty(), high, 16, 255);
    number_is_read_digit_by_digit(seq![high], low, 16, 255);
    assert(seq![high][0] == high);
    assert(digit_spelled('+' as u8) == 36);
}

/// Trimming a text takes off the front all that is the given byte, and nothing else.
pub proof fn trimming_takes_off_the_front(text: Seq<u8>, byte: u8)
    ensures
        ({
            let rest = trimmed_start(text, byte);
            let gone = text.len() - rest.len();
            &&& 0 <= gone
            &&& rest == text.skip(gone)
            &&& forall|i: int| 0 <= i < gone ==> #[trigger] text[i] == byte
            &&& rest.len() > 0 ==> rest[0] != byte
        }),
    decreases text.len(),
{
    let rest = trimmed_start(text, byte);
    if text.len() > 0 && text[0] == byte {
        let tail = text.skip(1);
        trimming_takes_off_the_front(tail, byte);
        let gone = text.len() - rest.len();
        assert(rest =~= text.skip(gone));
        assert forall|i: int| 0 <= i < gone implies #[trigger] text[i] == byte by {
            if i > 0 {
                assert(tail[i - 1] == text[i]);
            }
        }
    } else {
        assert(rest =~= text.skip(0));
    }
}

} // verus!

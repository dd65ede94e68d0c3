//! Numbers, fields and colors as messages spell them.

use tube_lamp::text::parse_byte_triple;
use tube_lamp::text::parse_hex_triple;
use tube_lamp::text::parse_u16;
use tube_lamp::text::parse_u8;
use tube_lamp::text::parse_unsigned;
use tube_lamp::text::same_text;
use tube_lamp::text::trim_start;

#[test]
fn every_byte_is_read_in_decimal_and_hexadecimal() {
    for n in 0..=255u8 {
        assert_eq!(parse_u8(n.to_string().as_bytes(), 10), Some(n));
        assert_eq!(parse_u8(format!("{:02x}", n).as_bytes(), 16), Some(n));
        assert_eq!(parse_u8(format!("{:02X}", n).as_bytes(), 16), Some(n));
    }
}

#[test]
fn every_word_is_read_in_decimal() {
    for n in 0..=65535u16 {
        assert_eq!(parse_u16(n.to_string().as_bytes()), Some(n));
    }
}

#[test]
fn numbers_are_read_as_the_standard_library_reads_them() {
    let texts = [
        "", "+", "-", "0", "+0", "-0", "-1", "00", "007", "255", "256", "0255", "+255", "++1", "1+",
        " 1", "1 ", "1\n", "1_0", "0x1", "1.0", "a", "65535", "65536", "99999999999999999999",
        "000000000000000000000000000012", "\u{661}", "é",
    ];
    for text in texts {
        assert_eq!(parse_u8(text.as_bytes(), 10), text.parse::<u8>().ok(), "{:?}", text);
        assert_eq!(parse_u16(text.as_bytes()), text.parse::<u16>().ok(), "{:?}", text);
        assert_eq!(parse_u8(text.as_bytes(), 16), u8::from_str_radix(text, 16).ok(), "{:?}", text);
    }
    for a in 0..128u8 {
        for b in 0..128u8 {
            let pair = [a, b];
            let text = std::str::from_utf8(&pair).unwrap();
            assert_eq!(parse_u8(&pair, 16), u8::from_str_radix(text, 16).ok(), "{:?}", text);
            assert_eq!(parse_u8(&pair, 10), text.parse::<u8>().ok(), "{:?}", text);
        }
    }
}

#[test]
fn numbers_above_the_limit_are_refused() {
    assert_eq!(parse_unsigned(b"100", 10, 100), Some(100));
    assert_eq!(parse_unsigned(b"101", 10, 100), None);
    assert_eq!(parse_unsigned(b"zz", 36, 1295), Some(1295));
    assert_eq!(parse_unsigned(b"102", 2, 100), None);
    assert_eq!(parse_unsigned(b"4294967295", 10, u32::MAX), Some(u32::MAX));
    assert_eq!(parse_unsigned(b"4294967296", 10, u32::MAX), None);
}

#[test]
fn triples_take_the_first_three_fields() {
    assert_eq!(parse_byte_triple(b"1,2,3"), Some((1, 2, 3)));
    assert_eq!(parse_byte_triple(b"255,0,+7"), Some((255, 0, 7)));
    assert_eq!(parse_byte_triple(b"1,2,3,"), Some((1, 2, 3)));
    assert_eq!(parse_byte_triple(b"1,2,3,junk,4"), Some((1, 2, 3)));
    assert_eq!(parse_byte_triple(b""), None);
    assert_eq!(parse_byte_triple(b"1"), None);
    assert_eq!(parse_byte_triple(b"1,2"), None);
    assert_eq!(parse_byte_triple(b"1,2,"), None);
    assert_eq!(parse_byte_triple(b",1,2,3"), None);
    assert_eq!(parse_byte_triple(b"1, 2,3"), None);
    assert_eq!(parse_byte_triple(b"1,2,256"), None);
    assert_eq!(parse_byte_triple(b"256,2,3"), None);
    assert_eq!(parse_byte_triple(b"1;2;3"), None);
}

#[test]
fn hexadecimal_colors_may_have_hashes() {
    assert_eq!(parse_hex_triple(b"0aFf10"), Some((0x0a, 0xff, 0x10)));
    assert_eq!(parse_hex_triple(b"#0aFf10"), Some((0x0a, 0xff, 0x10)));
    assert_eq!(parse_hex_triple(b"###0aFf10"), Some((0x0a, 0xff, 0x10)));
    assert_eq!(parse_hex_triple(b"+a+b+c"), Some((0x0a, 0x0b, 0x0c)));
    assert_eq!(parse_hex_triple(b"0aFf1"), None);
    assert_eq!(parse_hex_triple(b"0aFf100"), None);
    assert_eq!(parse_hex_triple(b"0aFf1g"), None);
    assert_eq!(parse_hex_triple(b"0aF#10"), None);
    assert_eq!(parse_hex_triple(b"######"), None);
    assert_eq!(parse_hex_triple(b""), None);
}

#[test]
fn trimming_takes_the_leading_run_only() {
    assert_eq!(trim_start(b"##a#", b'#'), b"a#");
    assert_eq!(trim_start(b"a##", b'#'), b"a##");
    assert_eq!(trim_start(b"##", b'#'), b"");
    assert_eq!(trim_start(b"", b'#'), b"");
}

#[test]
fn texts_are_the_same_when_they_are_equal() {
    assert!(same_text("", ""));
    assert!(same_text("grün", "grün"));
    assert!(!same_text("grün", "grun"));
    assert!(!same_text("a", "b"));
    assert!(!same_text("a", "ab"));
}

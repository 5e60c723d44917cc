use ethercat_esi::error::{Error, LiteralFault, Width};
use ethercat_esi::literal::{
    bool_from_str, from_hex_dec_value, u16_from_hex_dec_value, u32_from_hex_dec_value,
    u8_from_hex_dec_value,
};

fn malformed(text: &str, width: Width) -> Error {
    Error::InvalidNumericLiteral(text.to_string(), width, LiteralFault::Malformed)
}

fn overflow(text: &str, width: Width) -> Error {
    Error::InvalidNumericLiteral(text.to_string(), width, LiteralFault::Overflow)
}

#[test]
fn parse_u32_from_hex_dec_values() {
    assert_eq!(u32_from_hex_dec_value("0").unwrap(), 0);
    assert_eq!(u32_from_hex_dec_value("1").unwrap(), 1);
    assert_eq!(u32_from_hex_dec_value("0x1").unwrap(), 0x1);
    assert_eq!(u32_from_hex_dec_value("0X1").unwrap(), 0x1);
    assert_eq!(u32_from_hex_dec_value("#x1").unwrap(), 0x1);
    assert_eq!(u32_from_hex_dec_value("#X1").unwrap(), 0x1);
    assert_eq!(u32_from_hex_dec_value("#x005").unwrap(), 0x5);
    assert_eq!(u32_from_hex_dec_value("xF75").unwrap(), 0xf75);
    assert_eq!(u32_from_hex_dec_value("XF75").unwrap(), 0xf75);
}

#[test]
fn parse_u16() {
    assert_eq!(u16_from_hex_dec_value("0").unwrap(), 0);
    assert_eq!(u16_from_hex_dec_value("1").unwrap(), 1);
    assert_eq!(u16_from_hex_dec_value("0x1").unwrap(), 0x1);
    assert_eq!(u16_from_hex_dec_value("0X1").unwrap(), 0x1);
    assert_eq!(u16_from_hex_dec_value("#x1").unwrap(), 0x1);
    assert_eq!(u16_from_hex_dec_value("#X1").unwrap(), 0x1);
    assert_eq!(u16_from_hex_dec_value("#x005").unwrap(), 0x5);
    assert_eq!(u16_from_hex_dec_value("xF75").unwrap(), 0xf75);
    assert_eq!(u16_from_hex_dec_value("XF75").unwrap(), 0xf75);
}

#[test]
fn parse_u8() {
    assert_eq!(u8_from_hex_dec_value("0").unwrap(), 0);
    assert_eq!(u8_from_hex_dec_value("1").unwrap(), 1);
    assert_eq!(u8_from_hex_dec_value("0x1").unwrap(), 0x1);
    assert_eq!(u8_from_hex_dec_value("0X1").unwrap(), 0x1);
    assert_eq!(u8_from_hex_dec_value("#x1").unwrap(), 0x1);
    assert_eq!(u8_from_hex_dec_value("#X1").unwrap(), 0x1);
    assert_eq!(u8_from_hex_dec_value("#x005").unwrap(), 0x5);
    assert_eq!(u8_from_hex_dec_value("xF7").unwrap(), 0xf7);
    assert_eq!(u8_from_hex_dec_value("XF7").unwrap(), 0xf7);
}

#[test]
fn parse_bool_from_str() {
    assert_eq!(bool_from_str("1").unwrap(), true);
    assert_eq!(bool_from_str("true").unwrap(), true);
    assert_eq!(bool_from_str("True").unwrap(), true);
    assert_eq!(bool_from_str("0").unwrap(), false);
    assert_eq!(bool_from_str("false").unwrap(), false);
    assert_eq!(bool_from_str("False").unwrap(), false);
    assert!(bool_from_str("foo").is_err());
}

#[test]
fn hex_forms_read_in_base_16() {
    for prefix in ["#x", "#X", "0x", "0X", "x", "X"] {
        for (digits, value) in [
            ("0", 0u32),
            ("9", 9),
            ("a", 10),
            ("F", 15),
            ("10", 16),
            ("00000230", 560),
            ("4F911C30", 0x4F91_1C30),
            ("AbCdEf", 0xAB_CDEF),
            ("deadBEEF", 0xDEAD_BEEF),
        ] {
            let text = format!("{}{}", prefix, digits);
            assert_eq!(u32_from_hex_dec_value(&text), Ok(value), "{}", text);
            assert_eq!(u32::from_str_radix(digits, 16), Ok(value));
        }
    }
}

#[test]
fn plain_digits_read_in_base_10() {
    for (text, value) in [
        ("0", 0u32),
        ("7", 7),
        ("10", 10),
        ("560", 560),
        ("0560", 560),
        ("65535", 65535),
        ("4294967295", u32::MAX),
    ] {
        assert_eq!(u32_from_hex_dec_value(text), Ok(value), "{}", text);
        assert_eq!(text.parse::<u32>(), Ok(value));
    }
}

#[test]
fn hex_and_decimal_forms_agree() {
    assert_eq!(u32_from_hex_dec_value("#x00000230"), Ok(560));
    assert_eq!(u32_from_hex_dec_value("560"), u32_from_hex_dec_value("#x00000230"));
    assert_eq!(u16_from_hex_dec_value("4096"), u16_from_hex_dec_value("#x1000"));
    assert_eq!(u8_from_hex_dec_value("38"), u8_from_hex_dec_value("0x26"));
}

#[test]
fn largest_values_fit() {
    assert_eq!(u8_from_hex_dec_value("255"), Ok(u8::MAX));
    assert_eq!(u8_from_hex_dec_value("#xff"), Ok(u8::MAX));
    assert_eq!(u16_from_hex_dec_value("65535"), Ok(u16::MAX));
    assert_eq!(u16_from_hex_dec_value("xFFFF"), Ok(u16::MAX));
    assert_eq!(u32_from_hex_dec_value("4294967295"), Ok(u32::MAX));
    assert_eq!(u32_from_hex_dec_value("0XFFFFFFFF"), Ok(u32::MAX));
}

#[test]
fn values_beyond_the_width_overflow() {
    assert_eq!(u8_from_hex_dec_value("256"), Err(overflow("256", Width::W8)));
    assert_eq!(u8_from_hex_dec_value("#x100"), Err(overflow("#x100", Width::W8)));
    assert_eq!(u16_from_hex_dec_value("65536"), Err(overflow("65536", Width::W16)));
    assert_eq!(u16_from_hex_dec_value("x10000"), Err(overflow("x10000", Width::W16)));
    assert_eq!(u32_from_hex_dec_value("4294967296"), Err(overflow("4294967296", Width::W32)));
    assert_eq!(u32_from_hex_dec_value("0x100000000"), Err(overflow("0x100000000", Width::W32)));
    assert_eq!(
        u32_from_hex_dec_value("99999999999999999999999999999999"),
        Err(overflow("99999999999999999999999999999999", Width::W32))
    );
}

#[test]
fn leading_zeros_do_not_overflow() {
    assert_eq!(u8_from_hex_dec_value("000000000000000000000000000255"), Ok(255));
    assert_eq!(u8_from_hex_dec_value("#x00000000000000000000000000ff"), Ok(255));
    assert_eq!(u32_from_hex_dec_value("0x00000000000000000000000000000001"), Ok(1));
}

#[test]
fn text_outside_the_grammar_is_malformed() {
    for text in [
        "", "x", "X", "#x", "#X", "0x", "0X", "#", "#1", "#x#x1", "0x0x1", "xx1", "12a", "ff",
        "+5", "-5", "+x5", "#x+5", " 5", "5 ", "1_000", "1.0", "0b1", "#xG", "#x1G", "x 1", "é",
        "#xé", "１２", "x１",
    ] {
        assert_eq!(u8_from_hex_dec_value(text), Err(malformed(text, Width::W8)), "{:?}", text);
        assert_eq!(u16_from_hex_dec_value(text), Err(malformed(text, Width::W16)), "{:?}", text);
        assert_eq!(u32_from_hex_dec_value(text), Err(malformed(text, Width::W32)), "{:?}", text);
    }
}

#[test]
fn a_bad_digit_after_too_many_digits_is_malformed() {
    assert_eq!(u8_from_hex_dec_value("999z"), Err(malformed("999z", Width::W8)));
    assert_eq!(u8_from_hex_dec_value("#xfffg"), Err(malformed("#xfffg", Width::W8)));
}

#[test]
fn width_selects_the_limit() {
    assert_eq!(from_hex_dec_value("255", Width::W8), Ok(255));
    assert_eq!(from_hex_dec_value("256", Width::W8), Err(overflow("256", Width::W8)));
    assert_eq!(from_hex_dec_value("256", Width::W16), Ok(256));
    assert_eq!(from_hex_dec_value("#x10000", Width::W16), Err(overflow("#x10000", Width::W16)));
    assert_eq!(from_hex_dec_value("#x10000", Width::W32), Ok(0x10000));
    assert_eq!(Width::W8.limit(), 0xff);
    assert_eq!(Width::W16.limit(), 0xffff);
    assert_eq!(Width::W32.limit(), 0xffff_ffff);
    assert_eq!(Width::W8.bits(), 8);
    assert_eq!(Width::W16.bits(), 16);
    assert_eq!(Width::W32.bits(), 32);
}

#[test]
fn booleans_ignore_case() {
    for text in ["1", "true", "True", "TRUE", "tRuE"] {
        assert_eq!(bool_from_str(text), Ok(true), "{}", text);
    }
    for text in ["0", "false", "False", "FALSE", "fAlSe"] {
        assert_eq!(bool_from_str(text), Ok(false), "{}", text);
    }
}

#[test]
fn other_text_is_no_boolean() {
    for text in [
        "", "foo", "2", "10", "01", "yes", "no", "t", "f", "tru", "truee", "true ", " true",
        "fals", "falsee", "on", "off", "ｔｒｕｅ", "trüe",
    ] {
        assert_eq!(
            bool_from_str(text),
            Err(Error::InvalidBooleanLiteral(text.to_string())),
            "{:?}",
            text
        );
    }
}

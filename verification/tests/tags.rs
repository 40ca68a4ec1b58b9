use vacaps::decfmt::u32_to_decimal;
use vacaps::fourcc::fourcc_to_string;
use vacaps::fourcc::string_to_fourcc;

#[test]
fn fourcc_decodes_ascii_tag() {
    // 'Y' = 0x59, 'V' = 0x56, '1' = 0x31, '2' = 0x32, low byte first.
    assert_eq!(fourcc_to_string(0x3231_5659), "YV12");
    assert_eq!(fourcc_to_string(0x3231_564E), "NV12");
}

#[test]
fn fourcc_non_ascii_byte_is_replaced() {
    assert_eq!(fourcc_to_string(0x0000_00FF), "\u{FFFD}\u{0}\u{0}\u{0}");
    assert_eq!(fourcc_to_string(0x8031_5659), "YV1\u{FFFD}");
}

#[test]
fn fourcc_round_trip_printable() {
    let code: u32 = 0x3231_5659;
    assert_eq!(string_to_fourcc(&fourcc_to_string(code)), Some(code));
    assert_eq!(string_to_fourcc("YV12"), Some(code));
}

#[test]
fn fourcc_encode_rejects_bad_strings() {
    assert_eq!(string_to_fourcc("abc"), None);
    assert_eq!(string_to_fourcc("abcde"), None);
    assert_eq!(string_to_fourcc("ab\u{7f}d"), None);
    assert_eq!(string_to_fourcc("ab\u{19}d"), None);
    assert_eq!(string_to_fourcc(""), None);
}

#[test]
fn decimal_rendering() {
    assert_eq!(u32_to_decimal(0), "0");
    assert_eq!(u32_to_decimal(7), "7");
    assert_eq!(u32_to_decimal(10), "10");
    assert_eq!(u32_to_decimal(4096), "4096");
    assert_eq!(u32_to_decimal(u32::MAX), "4294967295");
}

use mc_launcher::decimal::{decimal_string, parse_u32};

#[test]
fn decimal_string_writes_numbers_in_base_ten() {
    assert_eq!(decimal_string(0), "0");
    assert_eq!(decimal_string(7), "7");
    assert_eq!(decimal_string(10), "10");
    assert_eq!(decimal_string(2048), "2048");
    assert_eq!(decimal_string(u64::MAX), "18446744073709551615");
}

#[test]
fn decimal_string_agrees_with_std() {
    for n in [0u64, 1, 9, 10, 11, 99, 100, 101, 512, 65535, 4294967295, 4294967296] {
        assert_eq!(decimal_string(n), n.to_string());
    }
}

#[test]
fn parse_u32_reads_digits_with_an_optional_plus() {
    assert_eq!(parse_u32("0"), Some(0));
    assert_eq!(parse_u32("18"), Some(18));
    assert_eq!(parse_u32("+18"), Some(18));
    assert_eq!(parse_u32("007"), Some(7));
    assert_eq!(parse_u32("4294967295"), Some(u32::MAX));
}

#[test]
fn parse_u32_rejects_everything_else() {
    assert_eq!(parse_u32(""), None);
    assert_eq!(parse_u32("+"), None);
    assert_eq!(parse_u32("-1"), None);
    assert_eq!(parse_u32("1 "), None);
    assert_eq!(parse_u32(" 1"), None);
    assert_eq!(parse_u32("1a"), None);
    assert_eq!(parse_u32("++1"), None);
    assert_eq!(parse_u32("4294967296"), None);
    assert_eq!(parse_u32("99999999999999999999999"), None);
    assert_eq!(parse_u32("１"), None);
}

#[test]
fn parse_u32_agrees_with_std() {
    let inputs = [
        "", "0", "+0", "-0", "1", "12", "0012", "+12", "1+2", "12x", "x12", "4294967295",
        "4294967296", "42949672950", "+", "-", " 1", "1.0", "1_0", "٣",
    ];
    for t in inputs {
        assert_eq!(parse_u32(t), t.parse::<u32>().ok(), "{:?}", t);
    }
}

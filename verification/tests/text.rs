use playground_gateway::text::{str_eq, to_decimal};

#[test]
fn equal_texts_are_equal() {
    assert!(str_eq("", ""));
    assert!(str_eq("asm", "asm"));
    assert!(str_eq("naïve ☃", "naïve ☃"));
}

#[test]
fn different_texts_are_different() {
    assert!(!str_eq("asm", "asn"));
    assert!(!str_eq("asm", "as"));
    assert!(!str_eq("as", "asm"));
    assert!(!str_eq("", " "));
    assert!(!str_eq("e\u{301}", "\u{e9}"));
    assert!(!str_eq("Asm", "asm"));
}

#[test]
fn numbers_are_written_in_decimal() {
    assert_eq!(to_decimal(0), "0");
    assert_eq!(to_decimal(9), "9");
    assert_eq!(to_decimal(10), "10");
    assert_eq!(to_decimal(1234567890), "1234567890");
    assert_eq!(to_decimal(u64::MAX), "18446744073709551615");
    for n in (0..100_000u64).step_by(7) {
        assert_eq!(to_decimal(n), n.to_string());
    }
}

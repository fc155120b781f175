use web_browser_lsp::decimal::{i32_to_decimal, u32_to_decimal};

#[test]
fn unsigned_decimal_notation() {
    assert_eq!(u32_to_decimal(0), "0");
    assert_eq!(u32_to_decimal(7), "7");
    assert_eq!(u32_to_decimal(10), "10");
    assert_eq!(u32_to_decimal(4096), "4096");
    assert_eq!(u32_to_decimal(u32::MAX), "4294967295");
}

#[test]
fn signed_decimal_notation() {
    assert_eq!(i32_to_decimal(0), "0");
    assert_eq!(i32_to_decimal(-1), "-1");
    assert_eq!(i32_to_decimal(-32601), "-32601");
    assert_eq!(i32_to_decimal(i32::MAX), "2147483647");
    assert_eq!(i32_to_decimal(i32::MIN), "-2147483648");
}

#[test]
fn decimal_matches_display() {
    for n in [1u32, 9, 99, 100, 12345, 999_999, 1_000_000_007] {
        assert_eq!(u32_to_decimal(n), n.to_string());
    }
    for n in [-9i32, -10, -32700, 32099, -1_000_000_007] {
        assert_eq!(i32_to_decimal(n), n.to_string());
    }
}

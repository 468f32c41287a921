use rune::text::{decimal_i32, decimal_u64, hex8_u32};

#[test]
fn decimal_of_unsigned_numbers() {
    assert_eq!(decimal_u64(0), "0");
    assert_eq!(decimal_u64(7), "7");
    assert_eq!(decimal_u64(10), "10");
    assert_eq!(decimal_u64(1_700_000_000), "1700000000");
    assert_eq!(decimal_u64(u64::MAX), "18446744073709551615");
}

#[test]
fn decimal_of_signed_numbers() {
    assert_eq!(decimal_i32(0), "0");
    assert_eq!(decimal_i32(42), "42");
    assert_eq!(decimal_i32(-1), "-1");
    assert_eq!(decimal_i32(-305), "-305");
    assert_eq!(decimal_i32(i32::MAX), "2147483647");
    assert_eq!(decimal_i32(i32::MIN), "-2147483648");
}

#[test]
fn decimal_agrees_with_the_standard_formatting() {
    for n in [0u64, 1, 9, 10, 99, 100, 101, 12345, 999_999, 1 << 40] {
        assert_eq!(decimal_u64(n), format!("{}", n));
    }
    for n in [-100_000i32, -99, -10, -9, 9, 10, 65_536] {
        assert_eq!(decimal_i32(n), format!("{:?}", n));
    }
}

#[test]
fn hexadecimal_is_eight_lowercase_digits() {
    assert_eq!(hex8_u32(0), "00000000");
    assert_eq!(hex8_u32(0xff), "000000ff");
    assert_eq!(hex8_u32(0xabc), "00000abc");
    assert_eq!(hex8_u32(0x1a2b3c4d), "1a2b3c4d");
    assert_eq!(hex8_u32(0xdeadbeef), "deadbeef");
    assert_eq!(hex8_u32(u32::MAX), "ffffffff");
    for n in [1u32, 15, 16, 4096, 0x8000_0000, 0x0123_4567] {
        assert_eq!(hex8_u32(n), format!("{:08x}", n));
    }
}

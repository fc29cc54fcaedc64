use refined::decimal::{render, render_signed};

#[test]
fn renders_single_digits() {
    let digits = ["0", "1", "2", "3", "4", "5", "6", "7", "8", "9"];
    for (n, text) in digits.iter().enumerate() {
        assert_eq!(render(n as u64), *text);
    }
}

#[test]
fn renders_as_the_standard_library_does() {
    for n in [10u64, 11, 99, 100, 101, 109, 1234567890, 9007199254740993, u64::MAX] {
        assert_eq!(render(n), n.to_string());
    }
    for n in 0u64..2000 {
        assert_eq!(render(n), n.to_string());
    }
}

#[test]
fn renders_the_sign() {
    assert_eq!(render_signed(false, 0), "0");
    assert_eq!(render_signed(true, 0), "0");
    assert_eq!(render_signed(false, 42), "42");
    assert_eq!(render_signed(true, 42), "-42");
    assert_eq!(render_signed(true, u64::MAX), "-18446744073709551615");
}

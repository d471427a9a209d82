use rust_sharp::text::{i32_to_decimal, indent};

#[test]
fn decimal_of_small_numbers() {
    assert_eq!(i32_to_decimal(0), "0");
    assert_eq!(i32_to_decimal(7), "7");
    assert_eq!(i32_to_decimal(10), "10");
    assert_eq!(i32_to_decimal(105), "105");
    assert_eq!(i32_to_decimal(-1), "-1");
    assert_eq!(i32_to_decimal(-90), "-90");
}

#[test]
fn decimal_of_the_extremes() {
    assert_eq!(i32_to_decimal(i32::MAX), "2147483647");
    assert_eq!(i32_to_decimal(i32::MIN), "-2147483648");
}

#[test]
fn decimal_agrees_with_the_standard_rendering() {
    for n in [-100_000, -4097, -11, -10, -9, 9, 11, 99, 100, 65_536, 1_000_000_007] {
        assert_eq!(i32_to_decimal(n), n.to_string());
    }
}

#[test]
fn indent_puts_two_spaces_after_each_line_break() {
    assert_eq!(indent(""), "");
    assert_eq!(indent("abc"), "abc");
    assert_eq!(indent("a\nb"), "a\n  b");
    assert_eq!(indent("\n"), "\n  ");
    assert_eq!(indent("a\n\nb\n"), "a\n  \n  b\n  ");
}

#[test]
fn indent_keeps_other_characters() {
    assert_eq!(indent("é│\n└x"), "é│\n  └x");
    assert_eq!(indent("tab\there\r\n"), "tab\there\r\n  ");
}

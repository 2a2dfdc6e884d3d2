use desk_scripts::decimal::{append_int, append_nat, append_padded, decimal};

#[test]
fn zero_is_a_single_digit() {
    assert_eq!(decimal(0), "0");
}

#[test]
fn single_digits() {
    assert_eq!(decimal(7), "7");
    assert_eq!(decimal(9), "9");
}

#[test]
fn several_digits_come_most_significant_first() {
    assert_eq!(decimal(10), "10");
    assert_eq!(decimal(1920), "1920");
    assert_eq!(decimal(100_000), "100000");
}

#[test]
fn negative_numbers_carry_a_minus_sign() {
    assert_eq!(decimal(-1), "-1");
    assert_eq!(decimal(-120), "-120");
}

#[test]
fn the_ends_of_the_range() {
    assert_eq!(decimal(i32::MAX), "2147483647");
    assert_eq!(decimal(i32::MIN), "-2147483648");
}

#[test]
fn decimal_agrees_with_the_standard_formatting() {
    let mut i: i32 = -70_000;
    while i < 70_000 {
        assert_eq!(decimal(i), i.to_string());
        i += 37;
    }
}

#[test]
fn append_int_keeps_what_was_there() {
    let mut out = String::from("x=");
    append_int(&mut out, -42);
    assert_eq!(out, "x=-42");
    append_int(&mut out, 7);
    assert_eq!(out, "x=-427");
}

#[test]
fn append_nat_writes_every_digit() {
    let mut out = String::new();
    append_nat(&mut out, 4_294_967_295);
    assert_eq!(out, "4294967295");
    append_nat(&mut out, 0);
    assert_eq!(out, "42949672950");
}

fn padded(n: u32, width: u32) -> String {
    let mut out = String::new();
    append_padded(&mut out, n, width);
    out
}

#[test]
fn padding_puts_zeros_in_front() {
    assert_eq!(padded(7, 2), "07");
    assert_eq!(padded(0, 2), "00");
    assert_eq!(padded(42, 4), "0042");
    assert_eq!(padded(0, 4), "0000");
    assert_eq!(padded(5, 12), "000000000005");
}

#[test]
fn padding_leaves_a_number_that_is_wide_enough() {
    assert_eq!(padded(59, 2), "59");
    assert_eq!(padded(100, 2), "100");
    assert_eq!(padded(2024, 4), "2024");
    assert_eq!(padded(u32::MAX, 4), "4294967295");
    assert_eq!(padded(3, 1), "3");
    assert_eq!(padded(3, 0), "3");
    assert_eq!(padded(0, 0), "0");
}

#[test]
fn padding_agrees_with_the_standard_formatting() {
    let mut n: u32 = 0;
    while n < 20_000 {
        assert_eq!(padded(n, 2), format!("{:02}", n));
        assert_eq!(padded(n, 4), format!("{:04}", n));
        n += 7;
    }
}

#[test]
fn padding_keeps_what_was_there() {
    let mut out = String::from("at ");
    append_padded(&mut out, 9, 2);
    append_padded(&mut out, 30, 2);
    assert_eq!(out, "at 0930");
}

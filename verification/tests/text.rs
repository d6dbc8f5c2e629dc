use greetings::text::{append_decimal, greeting_line, renamed};

fn decimal(n: u32) -> String {
    let mut out = String::new();
    append_decimal(&mut out, n);
    out
}

#[test]
fn decimal_of_small_numbers() {
    assert_eq!(decimal(0), "0");
    assert_eq!(decimal(7), "7");
    assert_eq!(decimal(9), "9");
    assert_eq!(decimal(10), "10");
    assert_eq!(decimal(30), "30");
    assert_eq!(decimal(101), "101");
}

#[test]
fn decimal_of_large_numbers() {
    assert_eq!(decimal(1234567890), "1234567890");
    assert_eq!(decimal(u32::MAX), "4294967295");
    assert_eq!(decimal(4000000000), "4000000000");
}

#[test]
fn decimal_agrees_with_the_standard_rendering() {
    let mut n: u32 = 1;
    while n < 2_000_000_000 {
        assert_eq!(decimal(n), n.to_string());
        assert_eq!(decimal(n - 1), (n - 1).to_string());
        n = n * 2 + 1;
    }
}

#[test]
fn append_decimal_keeps_what_is_there() {
    let mut out = "age: ".to_string();
    append_decimal(&mut out, 42);
    append_decimal(&mut out, 0);
    assert_eq!(out, "age: 420");
}

#[test]
fn greeting_line_is_exact() {
    assert_eq!(greeting_line("Bob", 30), "Hello Bob (30 yo)");
    assert_eq!(greeting_line("New Alice", 50), "Hello New Alice (50 yo)");
    assert_eq!(greeting_line("", 0), "Hello  (0 yo)");
    assert_eq!(greeting_line("Zo\u{eb}", u32::MAX), "Hello Zo\u{eb} (4294967295 yo)");
}

#[test]
fn renamed_puts_new_in_front() {
    assert_eq!(renamed("Alice"), "New Alice");
    assert_eq!(renamed(""), "New ");
    assert_eq!(renamed("New Alice"), "New New Alice");
}

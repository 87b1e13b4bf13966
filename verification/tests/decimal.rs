use ship_catalog::decimal::{digit_str, push_decimal};

fn rendered(n: usize) -> String {
    let mut out = String::new();
    push_decimal(&mut out, n);
    out
}

#[test]
fn digits_are_the_ten_characters() {
    let digits: Vec<&str> = (0..10).map(digit_str).collect();
    assert_eq!(digits, vec!["0", "1", "2", "3", "4", "5", "6", "7", "8", "9"]);
}

#[test]
fn decimal_has_no_padding() {
    assert_eq!(rendered(0), "0");
    assert_eq!(rendered(7), "7");
    assert_eq!(rendered(10), "10");
    assert_eq!(rendered(13), "13");
    assert_eq!(rendered(109), "109");
    assert_eq!(rendered(120_034), "120034");
}

#[test]
fn decimal_of_the_largest_number() {
    assert_eq!(rendered(usize::MAX), usize::MAX.to_string());
}

#[test]
fn decimal_is_appended_to_what_is_there() {
    let mut out = String::from("WHERE name = $");
    push_decimal(&mut out, 42);
    assert_eq!(out, "WHERE name = $42");
}

#[test]
fn decimal_agrees_with_the_standard_rendering() {
    for n in 0..2000 {
        assert_eq!(rendered(n), n.to_string());
    }
}

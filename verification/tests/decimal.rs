use raytracer::decimal::push_decimal;

fn numeral(n: usize) -> String {
    let mut out = String::new();
    push_decimal(&mut out, n);
    out
}

#[test]
fn decimal_of_single_digits() {
    assert_eq!(numeral(0), "0");
    assert_eq!(numeral(5), "5");
    assert_eq!(numeral(9), "9");
}

#[test]
fn decimal_of_round_numbers() {
    assert_eq!(numeral(10), "10");
    assert_eq!(numeral(100), "100");
    assert_eq!(numeral(1000), "1000");
}

#[test]
fn decimal_of_the_largest_number() {
    assert_eq!(numeral(usize::MAX), format!("{}", usize::MAX));
}

#[test]
fn decimal_agrees_with_std() {
    let mut n: usize = 1;
    while n < 1_000_000_000 {
        assert_eq!(numeral(n), format!("{}", n));
        assert_eq!(numeral(n - 1), format!("{}", n - 1));
        n = n * 7 + 3;
    }
}

#[test]
fn decimal_appends_to_what_is_there() {
    let mut out = String::from("w=");
    push_decimal(&mut out, 640);
    assert_eq!(out, "w=640");
}

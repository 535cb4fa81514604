use bitfield::text::push_decimal;

fn decimal(n: usize) -> String {
    let mut text = String::new();
    push_decimal(&mut text, n);
    text
}

#[test]
fn numbers_in_decimal() {
    assert_eq!(decimal(0), "0");
    assert_eq!(decimal(7), "7");
    assert_eq!(decimal(10), "10");
    assert_eq!(decimal(64), "64");
    assert_eq!(decimal(1005), "1005");
    assert_eq!(decimal(usize::MAX), usize::MAX.to_string());
    for n in 0..2000 {
        assert_eq!(decimal(n), n.to_string());
    }
}

#[test]
fn a_number_is_written_behind_the_text() {
    let mut text = String::from("range 0-");
    push_decimal(&mut text, 31);
    assert_eq!(text, "range 0-31");
}

use bhp::text::{push_bytes, push_decimal};

#[test]
fn numbers_are_written_in_decimal() {
    for n in [0u64, 1, 9, 10, 11, 99, 100, 101, 255, 1000, 4608, 10785, 3_000_000_000, u64::MAX] {
        let mut text = b"n = ".to_vec();
        push_decimal(&mut text, n);
        assert_eq!(String::from_utf8(text).unwrap(), format!("n = {}", n));
    }
}

#[test]
fn bytes_are_appended() {
    let mut text = b"Aleo".to_vec();
    push_bytes(&mut text, b".BHP.");
    push_bytes(&mut text, b"");
    assert_eq!(text, b"Aleo.BHP.".to_vec());
}

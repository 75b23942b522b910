use trainlappcomms::text::decimal_string;

#[test]
fn zero_is_written_as_one_digit() {
    assert_eq!(decimal_string(0), "0");
}

#[test]
fn single_digits_are_written_as_themselves() {
    assert_eq!(decimal_string(7), "7");
    assert_eq!(decimal_string(9), "9");
}

#[test]
fn numerals_run_from_the_most_significant_digit() {
    assert_eq!(decimal_string(10), "10");
    assert_eq!(decimal_string(1905), "1905");
    assert_eq!(decimal_string(1_234_567_890), "1234567890");
}

#[test]
fn decimal_string_agrees_with_the_standard_library() {
    for n in [0usize, 1, 9, 10, 11, 99, 100, 101, 65_535, 65_536, usize::MAX] {
        assert_eq!(decimal_string(n), format!("{}", n));
    }
}

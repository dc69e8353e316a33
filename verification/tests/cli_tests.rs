use linked_list_bench::cli::{parse_count, plan_run, ArgError};

#[test]
fn parses_plain_digits() {
    assert_eq!(parse_count(b"5"), Some(5));
    assert_eq!(parse_count(b"123"), Some(123));
    assert_eq!(parse_count(b"100000"), Some(100_000));
}

#[test]
fn parses_zero_and_leading_zeros() {
    assert_eq!(parse_count(b"0"), Some(0));
    assert_eq!(parse_count(b"007"), Some(7));
}

#[test]
fn rejects_empty_input() {
    assert_eq!(parse_count(b""), None);
}

#[test]
fn rejects_non_digits() {
    assert_eq!(parse_count(b"abc"), None);
    assert_eq!(parse_count(b"12a"), None);
    assert_eq!(parse_count(b"-3"), None);
    assert_eq!(parse_count(b" 5"), None);
}

#[test]
fn parses_the_largest_count() {
    let largest = format!("{}", usize::MAX).into_bytes();
    assert_eq!(parse_count(&largest), Some(usize::MAX));
}

#[test]
fn rejects_a_count_past_the_largest() {
    let too_big = format!("{}0", usize::MAX).into_bytes();
    assert_eq!(parse_count(&too_big), None);
}

#[test]
fn missing_argument_is_reported() {
    assert_eq!(plan_run(None), Err(ArgError::MissingArgument));
}

#[test]
fn invalid_argument_is_reported() {
    assert_eq!(plan_run(Some(b"abc")), Err(ArgError::InvalidArgument));
}

#[test]
fn valid_argument_gives_the_count() {
    assert_eq!(plan_run(Some(b"5")), Ok(5));
    assert_eq!(plan_run(Some(b"1000000")), Ok(1_000_000));
}

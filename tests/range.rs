use hoku_sdk::error::Error;
use hoku_sdk::range::parse_range;

fn range(s: &str, size: u64) -> Result<(u64, u64), Error> {
    parse_range(s.to_string(), size)
}

#[test]
fn two_sided_range() {
    assert_eq!(range("0-99", 1000), Ok((0, 99)));
}

#[test]
fn open_ended_range() {
    assert_eq!(range("100-", 1000), Ok((100, 999)));
}

#[test]
fn suffix_range() {
    assert_eq!(range("-100", 1000), Ok((900, 999)));
}

#[test]
fn suffix_longer_than_object_is_clamped() {
    assert_eq!(range("-2000", 1000), Ok((0, 999)));
}

#[test]
fn suffix_equal_to_size_is_whole_object() {
    assert_eq!(range("-1000", 1000), Ok((0, 999)));
}

#[test]
fn empty_range_is_whole_object() {
    assert_eq!(range("", 1000), Ok((0, 999)));
}

#[test]
fn lone_dash_is_whole_object() {
    assert_eq!(range("-", 1000), Ok((0, 999)));
}

#[test]
fn reversed_range_is_invalid() {
    assert_eq!(range("500-100", 1000), Err(Error::InvalidRange));
}

#[test]
fn end_past_object_is_invalid() {
    assert_eq!(range("0-1000", 1000), Err(Error::InvalidRange));
    assert_eq!(range("0-999", 1000), Ok((0, 999)));
}

#[test]
fn start_past_object_is_invalid() {
    assert_eq!(range("1000-", 1000), Err(Error::InvalidRange));
}

#[test]
fn single_byte_range() {
    assert_eq!(range("7-7", 8), Ok((7, 7)));
}

#[test]
fn missing_dash_is_a_format_error() {
    assert_eq!(range("100", 1000), Err(Error::InvalidRangeFormat));
}

#[test]
fn two_dashes_is_a_format_error() {
    assert_eq!(range("1-2-3", 1000), Err(Error::InvalidRangeFormat));
    assert_eq!(range("--", 1000), Err(Error::InvalidRangeFormat));
}

#[test]
fn non_numeric_bound_is_a_number_error() {
    assert_eq!(range("a-5", 1000), Err(Error::InvalidRangeNumber));
    assert_eq!(range("5-b", 1000), Err(Error::InvalidRangeNumber));
    assert_eq!(range(" 5-9", 1000), Err(Error::InvalidRangeNumber));
    assert_eq!(range("+-9", 1000), Err(Error::InvalidRangeNumber));
}

#[test]
fn plus_sign_is_accepted() {
    assert_eq!(range("+5-+10", 1000), Ok((5, 10)));
}

#[test]
fn overflowing_bound_is_a_number_error() {
    assert_eq!(range("18446744073709551616-", 1000), Err(Error::InvalidRangeNumber));
    assert_eq!(range("-18446744073709551615", 1000), Ok((0, 999)));
}

#[test]
fn empty_object_has_no_valid_range() {
    assert_eq!(range("", 0), Err(Error::InvalidRange));
    assert_eq!(range("0-0", 0), Err(Error::InvalidRange));
    assert_eq!(range("-5", 0), Err(Error::InvalidRange));
}

use fff::weeks::{Weeks, WeeksError};

#[test]
fn one_number_is_a_week() {
    assert_eq!(Weeks::parse("3"), Ok(Weeks::Week(3)));
    assert_eq!(Weeks::parse("0"), Ok(Weeks::Week(0)));
    assert_eq!(Weeks::parse("18"), Ok(Weeks::Week(18)));
    assert_eq!(Weeks::parse("65535"), Ok(Weeks::Week(65535)));
}

#[test]
fn two_numbers_are_a_range() {
    assert_eq!(Weeks::parse("3-5"), Ok(Weeks::WeekRange(3, 5)));
    assert_eq!(Weeks::parse("0-65535"), Ok(Weeks::WeekRange(0, 65535)));
    assert_eq!(Weeks::parse("7-7"), Ok(Weeks::WeekRange(7, 7)));
}

#[test]
fn a_plus_sign_and_leading_zeros_are_read() {
    assert_eq!(Weeks::parse("+4"), Ok(Weeks::Week(4)));
    assert_eq!(Weeks::parse("007"), Ok(Weeks::Week(7)));
    assert_eq!(Weeks::parse("+1-+2"), Ok(Weeks::WeekRange(1, 2)));
    assert_eq!(Weeks::parse("000065535"), Ok(Weeks::Week(65535)));
}

#[test]
fn a_part_that_is_no_number_fails() {
    assert_eq!(Weeks::parse(""), Err(WeeksError::Number));
    assert_eq!(Weeks::parse("x"), Err(WeeksError::Number));
    assert_eq!(Weeks::parse("3x"), Err(WeeksError::Number));
    assert_eq!(Weeks::parse(" 3"), Err(WeeksError::Number));
    assert_eq!(Weeks::parse("3 "), Err(WeeksError::Number));
    assert_eq!(Weeks::parse("+"), Err(WeeksError::Number));
    assert_eq!(Weeks::parse("++3"), Err(WeeksError::Number));
    assert_eq!(Weeks::parse("3+"), Err(WeeksError::Number));
    assert_eq!(Weeks::parse("1_0"), Err(WeeksError::Number));
    assert_eq!(Weeks::parse("٣"), Err(WeeksError::Number));
}

#[test]
fn a_missing_part_fails() {
    assert_eq!(Weeks::parse("-"), Err(WeeksError::Number));
    assert_eq!(Weeks::parse("-3"), Err(WeeksError::Number));
    assert_eq!(Weeks::parse("3-"), Err(WeeksError::Number));
    assert_eq!(Weeks::parse("1--3"), Err(WeeksError::Number));
}

#[test]
fn a_number_above_sixteen_bits_fails() {
    assert_eq!(Weeks::parse("65536"), Err(WeeksError::Number));
    assert_eq!(Weeks::parse("99999999999999999999"), Err(WeeksError::Number));
    assert_eq!(Weeks::parse("1-65536"), Err(WeeksError::Number));
}

#[test]
fn more_than_two_numbers_fail() {
    assert_eq!(Weeks::parse("1-2-3"), Err(WeeksError::Parts));
    assert_eq!(Weeks::parse("3-2-1"), Err(WeeksError::Parts));
    assert_eq!(Weeks::parse("1-2-3-4"), Err(WeeksError::Parts));
}

#[test]
fn a_part_that_is_no_number_comes_before_the_count_of_parts() {
    assert_eq!(Weeks::parse("1-2-x"), Err(WeeksError::Number));
    assert_eq!(Weeks::parse("5-x"), Err(WeeksError::Number));
}

#[test]
fn a_range_that_starts_after_its_end_fails() {
    assert_eq!(Weeks::parse("5-3"), Err(WeeksError::Order));
    assert_eq!(Weeks::parse("65535-0"), Err(WeeksError::Order));
}

#[test]
fn each_weeks_error_describes_itself() {
    assert_eq!(WeeksError::Number.describe(), "a week is a number from 0 to 65535");
    assert_eq!(
        WeeksError::Parts.describe(),
        "weeks are one number, or two with a hyphen between them"
    );
    assert_eq!(WeeksError::Order.describe(), "a range of weeks starts with its first week");
}

//! Tests of timer parsing: minutes in, seconds out, and the input errors.

use focusblock::errors::BlockError;
use focusblock::timer::parse_sleep_time;

#[test]
fn test_parse_sleep_time_valid() {
    let valid_input = String::from("42");
    assert_eq!(parse_sleep_time(&valid_input).unwrap(), 42 * 60);
}

#[test]
fn test_parse_sleep_time_valid2() {
    let valid_input = String::from("1");
    assert_eq!(parse_sleep_time(&valid_input).unwrap(), 60);
}

#[test]
fn parse_sleep_time_zero_minutes_is_accepted() {
    let input = String::from("0");
    assert_eq!(parse_sleep_time(&input).unwrap(), 0);
}

#[test]
fn parse_sleep_time_rejects_words() {
    let input = String::from("not_a_number");
    assert_eq!(parse_sleep_time(&input), Err(BlockError::InputError));
}

#[test]
fn parse_sleep_time_rejects_empty() {
    let input = String::new();
    assert_eq!(parse_sleep_time(&input), Err(BlockError::InputError));
}

#[test]
fn parse_sleep_time_accepts_one_leading_plus_sign() {
    assert_eq!(parse_sleep_time(&String::from("+5")).unwrap(), 300);
    assert_eq!(parse_sleep_time(&String::from("+0")).unwrap(), 0);
}

#[test]
fn parse_sleep_time_rejects_a_bare_or_repeated_sign() {
    assert_eq!(
        parse_sleep_time(&String::from("+")),
        Err(BlockError::InputError)
    );
    assert_eq!(
        parse_sleep_time(&String::from("++5")),
        Err(BlockError::InputError)
    );
    assert_eq!(
        parse_sleep_time(&String::from("-5")),
        Err(BlockError::InputError)
    );
}

#[test]
fn parse_sleep_time_rejects_spaces_and_fractions() {
    assert_eq!(
        parse_sleep_time(&String::from(" 5")),
        Err(BlockError::InputError)
    );
    assert_eq!(
        parse_sleep_time(&String::from("5 ")),
        Err(BlockError::InputError)
    );
    assert_eq!(
        parse_sleep_time(&String::from("5.0")),
        Err(BlockError::InputError)
    );
}

#[test]
fn parse_sleep_time_rejects_durations_beyond_the_clock() {
    // 307445734561825860 minutes of seconds still fit in a u64; one more
    // minute does not.
    let largest = String::from("307445734561825860");
    assert_eq!(parse_sleep_time(&largest).unwrap(), 18446744073709551600);
    let too_much = String::from("307445734561825861");
    assert_eq!(parse_sleep_time(&too_much), Err(BlockError::InputError));
}

#[test]
fn parse_sleep_time_handles_leading_zeros() {
    let input = String::from("0042");
    assert_eq!(parse_sleep_time(&input).unwrap(), 42 * 60);
}

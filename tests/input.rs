use std::convert::TryFrom;
use sprompt::{elapsed_seconds_validator, exit_code_nonzero, parse_seconds, Shell};

#[test]
fn parses_counts_of_seconds() {
    assert_eq!(Some(0), parse_seconds("0"));
    assert_eq!(Some(125), parse_seconds("125"));
    assert_eq!(Some(5), parse_seconds("+5"));
    assert_eq!(Some(7), parse_seconds("007"));
    assert_eq!(Some(u64::MAX), parse_seconds("18446744073709551615"));
}

#[test]
fn refuses_what_is_not_a_count() {
    assert_eq!(None, parse_seconds(""));
    assert_eq!(None, parse_seconds("+"));
    assert_eq!(None, parse_seconds("-1"));
    assert_eq!(None, parse_seconds("1.5"));
    assert_eq!(None, parse_seconds(" 1"));
    assert_eq!(None, parse_seconds("abc"));
    assert_eq!(None, parse_seconds("18446744073709551616"));
}

#[test]
fn validator_reports_invalid_elapsed_time() {
    assert_eq!(Ok(()), elapsed_seconds_validator("42".to_string()));
    assert_eq!(
        Err("The argument must be a valid positive integer".to_string()),
        elapsed_seconds_validator("4x".to_string())
    );
}

#[test]
fn exit_codes() {
    assert!(!exit_code_nonzero("0"));
    assert!(exit_code_nonzero("1"));
    assert!(exit_code_nonzero("130"));
    assert!(exit_code_nonzero("00"));
}

#[test]
fn shell_names() {
    assert_eq!(Some(Shell::Zsh), Shell::from_name("zsh"));
    assert_eq!(Some(Shell::Bash), Shell::from_name("bash"));
    assert_eq!(None, Shell::from_name("fish"));
    assert_eq!(None, Shell::from_name("Zsh"));
}

#[test]
fn shell_try_from() {
    assert_eq!(Ok(Shell::Zsh), Shell::try_from("zsh"));
    assert_eq!(Ok(Shell::Bash), Shell::try_from("bash"));
    assert_eq!(Err(()), Shell::try_from("sh"));
}
